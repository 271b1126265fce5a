//! Model of the PL011 UART at its fixed physical base address: the
//! control-block registers that `init` programs, and the stream of
//! bytes handed to the transmit line. The memory-mapped block is held
//! as plain register values so that every write carries a contract;
//! the transmit-ready spin of the hardware is its own flow control and
//! adds nothing observable, so the model's line always has room.

use vstd::prelude::*;
use vstd::string::StringSliceAdditionalSpecFns;

verus! {

/// Physical base address of the UART register block.
pub const UART0_BASE: usize = 0x09000000;

/// Byte offset of the data register.
pub const UART_DR: usize = 0x00;

/// Byte offset of the flag (status) register.
pub const UART_FR: usize = 0x18;

/// Byte offset of the integer baud-rate divisor register.
pub const UART_IBRD: usize = 0x24;

/// Byte offset of the fractional baud-rate divisor register.
pub const UART_FBRD: usize = 0x28;

/// Byte offset of the line-control register.
pub const UART_LCRH: usize = 0x2C;

/// Byte offset of the control register.
pub const UART_CR: usize = 0x30;

/// The line-feed translation the output path applies: each line feed
/// goes out as a carriage return followed by the line feed; every
/// other byte goes out unchanged.
pub open spec fn crlf_encode(s: Seq<u8>) -> Seq<u8>
    decreases s.len(),
{
    if s.len() == 0 {
        Seq::empty()
    } else {
        (if s[0] == 0x0a {
            seq![0x0du8, 0x0au8]
        } else {
            seq![s[0]]
        }) + crlf_encode(s.skip(1))
    }
}

/// The translation of a concatenation is the concatenation of the
/// translations: output written in pieces reads the same as output
/// written at once.
pub proof fn lemma_crlf_concat(a: Seq<u8>, b: Seq<u8>)
    ensures
        crlf_encode(a + b) == crlf_encode(a) + crlf_encode(b),
    decreases a.len(),
{
    if a.len() == 0 {
        assert(a + b =~= b);
        assert(crlf_encode(a) + crlf_encode(b) =~= crlf_encode(b));
    } else {
        assert((a + b).skip(1) =~= a.skip(1) + b);
        lemma_crlf_concat(a.skip(1), b);
        assert(crlf_encode(a + b) =~= crlf_encode(a) + crlf_encode(b));
    }
}

/// Appending one byte to the input appends its translation to the
/// output.
pub proof fn lemma_crlf_push(a: Seq<u8>, c: u8)
    ensures
        crlf_encode(a.push(c)) == crlf_encode(a) + (if c == 0x0a {
            seq![0x0du8, 0x0au8]
        } else {
            seq![c]
        }),
{
    assert(a.push(c) =~= a + seq![c]);
    lemma_crlf_concat(a, seq![c]);
    assert(seq![c].len() == 1);
    assert(seq![c][0] == c);
    assert(seq![c].skip(1) =~= Seq::<u8>::empty());
    assert(crlf_encode(Seq::<u8>::empty()) == Seq::<u8>::empty());
    if c == 0x0a {
        assert(crlf_encode(seq![c]) =~= seq![0x0du8, 0x0au8]);
    } else {
        assert(crlf_encode(seq![c]) =~= seq![c]);
    }
}

/// The UART: its programmable registers and the bytes its transmit
/// line has carried, oldest first.
pub struct Uart {
    /// Control register.
    pub cr: u32,
    /// Integer baud-rate divisor.
    pub ibrd: u32,
    /// Fractional baud-rate divisor.
    pub fbrd: u32,
    /// Line-control register.
    pub lcrh: u32,
    /// Every byte handed to the transmit line so far.
    pub tx: Vec<u8>,
}

impl Uart {
    /// The device as reset leaves it: disabled, divisors clear, nothing
    /// transmitted.
    pub fn at_reset() -> (u: Uart)
        ensures
            u.cr == 0,
            u.ibrd == 0,
            u.fbrd == 0,
            u.lcrh == 0,
            u.tx@ == Seq::<u8>::empty(),
    {
        Uart { cr: 0, ibrd: 0, fbrd: 0, lcrh: 0, tx: Vec::new() }
    }

    /// The transmitter and receiver are switched on: enable, transmit
    /// and receive bits of the control register all set.
    pub open spec fn enabled(self) -> bool {
        self.cr & 0x301 == 0x301
    }

    /// The address of the register at `offset` within the block. The
    /// bound is only what the address computation needs.
    pub fn reg(offset: usize) -> (addr: usize)
        requires
            offset <= usize::MAX - UART0_BASE,
        ensures
            addr == UART0_BASE + offset,
    {
        UART0_BASE + offset
    }

    /// Programs the device: disable, set the divisors and the
    /// eight-bits/no-parity/FIFO line control, then enable transmit and
    /// receive. Output already carried by the line is not unwritten.
    pub fn init(&mut self)
        ensures
            final(self).cr == 0x301u32,
            final(self).ibrd == 1u32,
            final(self).fbrd == 40u32,
            final(self).lcrh == 0x70u32,
            final(self).enabled(),
            final(self).tx@ == old(self).tx@,
    {
        self.cr = 0x0000;
        self.ibrd = 1;
        self.fbrd = 40;
        self.lcrh = (1u32 << 4) | (1u32 << 5) | (1u32 << 6);
        self.cr = (1u32 << 0) | (1u32 << 8) | (1u32 << 9);
        proof {
            assert(((1u32 << 4) | (1u32 << 5) | (1u32 << 6)) == 0x70u32) by (bit_vector);
            assert(((1u32 << 0) | (1u32 << 8) | (1u32 << 9)) == 0x301u32) by (bit_vector);
            assert(0x301u32 & 0x301 == 0x301) by (bit_vector);
        }
    }

    /// Hands one byte to the transmit line, after the flag-register
    /// wait for queue space that the hardware requires.
    pub fn putc(&mut self, c: u8)
        ensures
            final(self).tx@ == old(self).tx@.push(c),
            final(self).cr == old(self).cr,
            final(self).ibrd == old(self).ibrd,
            final(self).fbrd == old(self).fbrd,
            final(self).lcrh == old(self).lcrh,
    {
        self.tx.push(c);
    }

    /// Writes a run of bytes, translating each line feed into a
    /// carriage return followed by the line feed.
    pub fn write_bytes(&mut self, bytes: &[u8])
        ensures
            final(self).tx@ == old(self).tx@ + crlf_encode(bytes@),
            final(self).cr == old(self).cr,
            final(self).ibrd == old(self).ibrd,
            final(self).fbrd == old(self).fbrd,
            final(self).lcrh == old(self).lcrh,
    {
        let mut i: usize = 0;
        proof {
            assert(bytes@.take(0) =~= Seq::<u8>::empty());
            assert(self.tx@ + crlf_encode(bytes@.take(0)) =~= self.tx@);
        }
        while i < bytes.len()
            invariant
                i <= bytes@.len(),
                self.tx@ == old(self).tx@ + crlf_encode(bytes@.take(i as int)),
                self.cr == old(self).cr,
                self.ibrd == old(self).ibrd,
                self.fbrd == old(self).fbrd,
                self.lcrh == old(self).lcrh,
            decreases bytes@.len() - i,
        {
            let b = bytes[i];
            if b == 0x0a {
                self.putc(0x0d);
            }
            self.putc(b);
            proof {
                assert(bytes@.take(i + 1) =~= bytes@.take(i as int).push(b));
                lemma_crlf_push(bytes@.take(i as int), b);
                assert(self.tx@ =~= old(self).tx@ + crlf_encode(bytes@.take(i + 1)));
            }
            i = i + 1;
        }
        proof {
            assert(bytes@.take(bytes@.len() as int) =~= bytes@);
        }
    }

    /// Writes a string's bytes with the line-feed translation.
    pub fn puts(&mut self, s: &str)
        ensures
            final(self).tx@ == old(self).tx@ + crlf_encode(s.spec_bytes()),
            final(self).cr == old(self).cr,
            final(self).ibrd == old(self).ibrd,
            final(self).fbrd == old(self).fbrd,
            final(self).lcrh == old(self).lcrh,
    {
        self.write_bytes(s.as_bytes());
    }
}

} // verus!
