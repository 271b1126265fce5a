//! The exception vector table and the trap reporter.
//!
//! The table is a hardware-consumed binary layout: sixteen slots of
//! 128 bytes, grouped four-by-four per trap source (current EL on SP0,
//! current EL on SPx, lower EL in 64-bit state, lower EL in 32-bit
//! state), each group holding one slot per trap kind (synchronous,
//! IRQ, FIQ, SError). Every slot branches to the stub of its kind; the
//! source level is deliberately collapsed. The reporter decodes the
//! syndrome register captured at trap time, renders a fixed multi-line
//! diagnostic through the console, and halts.

use vstd::prelude::*;
use vstd::string::StringSliceAdditionalSpecFns;
use crate::Halted;
use crate::console::Console;
use crate::render::dec;
use crate::render::dec_digits;
use crate::render::hex_full;
use crate::render::hex_full_bytes;
use crate::render::hex_short;
use crate::render::hex_short_bytes;
use crate::uart::crlf_encode;
use crate::uart::lemma_crlf_concat;

verus! {

/// Required alignment of the table base, in bytes.
pub const VECTOR_TABLE_ALIGN: u64 = 2048;

/// Size of one vector slot, in bytes.
pub const VECTOR_SLOT_BYTES: u64 = 128;

/// The four trap kinds a slot group distinguishes.
#[derive(Clone, Copy, PartialEq, Eq, Structural, Debug)]
pub enum TrapKind {
    Synchronous,
    Irq,
    Fiq,
    SError,
}

/// The four source/level groups of the table, in table order.
#[derive(Clone, Copy, PartialEq, Eq, Structural, Debug)]
pub enum TrapSource {
    CurrentSp0,
    CurrentSpx,
    LowerAarch64,
    LowerAarch32,
}

/// The four category stubs the slots branch to.
#[derive(Clone, Copy, PartialEq, Eq, Structural, Debug)]
pub enum Stub {
    Sync,
    Irq,
    Fiq,
    SErr,
}

/// Position of a kind within its source group.
pub open spec fn kind_index(kind: TrapKind) -> int {
    match kind {
        TrapKind::Synchronous => 0,
        TrapKind::Irq => 1,
        TrapKind::Fiq => 2,
        TrapKind::SError => 3,
    }
}

/// Position of a source group within the table.
pub open spec fn source_index(source: TrapSource) -> int {
    match source {
        TrapSource::CurrentSp0 => 0,
        TrapSource::CurrentSpx => 1,
        TrapSource::LowerAarch64 => 2,
        TrapSource::LowerAarch32 => 3,
    }
}

/// Index of the slot the hardware consults for a trap, 0 to 15.
pub open spec fn slot_index(source: TrapSource, kind: TrapKind) -> int {
    4 * source_index(source) + kind_index(kind)
}

/// The stub a trap of the given kind must land in, whatever its
/// source: the table collapses the source level.
pub open spec fn stub_of(kind: TrapKind) -> Stub {
    match kind {
        TrapKind::Synchronous => Stub::Sync,
        TrapKind::Irq => Stub::Irq,
        TrapKind::Fiq => Stub::Fiq,
        TrapKind::SError => Stub::SErr,
    }
}

/// Byte offset of a slot from the table base.
pub fn slot_offset(source: TrapSource, kind: TrapKind) -> (off: u64)
    ensures
        off == VECTOR_SLOT_BYTES * slot_index(source, kind),
        off % VECTOR_SLOT_BYTES as u64 == 0,
        off < VECTOR_TABLE_ALIGN,
{
    let s: u64 = match source {
        TrapSource::CurrentSp0 => 0,
        TrapSource::CurrentSpx => 1,
        TrapSource::LowerAarch64 => 2,
        TrapSource::LowerAarch32 => 3,
    };
    let k: u64 = match kind {
        TrapKind::Synchronous => 0,
        TrapKind::Irq => 1,
        TrapKind::Fiq => 2,
        TrapKind::SError => 3,
    };
    0x200 * s + 0x80 * k
}

/// The address the hardware jumps to for a trap: the installed base
/// plus the slot's fixed offset. Every slot entry point sits on a
/// 128-byte boundary of an aligned base.
pub fn slot_address(base: u64, source: TrapSource, kind: TrapKind) -> (addr: u64)
    requires
        base % 2048 == 0,
        base + 2048 <= u64::MAX,
    ensures
        addr == base + VECTOR_SLOT_BYTES * slot_index(source, kind),
        addr % VECTOR_SLOT_BYTES as u64 == 0,
{
    let off = slot_offset(source, kind);
    proof {
        vstd::arithmetic::div_mod::lemma_fundamental_div_mod(base as int, 2048);
        let q = base as int / 2048;
        assert(base as int == (16 * q) * 128);
        vstd::arithmetic::div_mod::lemma_mod_multiples_basic(16 * q, 128);
        vstd::arithmetic::div_mod::lemma_add_mod_noop(base as int, off as int, 128);
    }
    base + off
}

/// The branch targets of the sixteen slots, in table order: each
/// source group repeats the four stubs in kind order.
pub open spec fn table_layout() -> Seq<Stub> {
    seq![
        Stub::Sync, Stub::Irq, Stub::Fiq, Stub::SErr,
        Stub::Sync, Stub::Irq, Stub::Fiq, Stub::SErr,
        Stub::Sync, Stub::Irq, Stub::Fiq, Stub::SErr,
        Stub::Sync, Stub::Irq, Stub::Fiq, Stub::SErr,
    ]
}

/// The vector table as installed: one branch target per slot.
pub struct VectorTable {
    /// Branch target of each of the sixteen slots, in table order.
    pub slots: Vec<Stub>,
}

impl VectorTable {
    /// The table holds exactly the hardware-mandated layout.
    pub open spec fn wf(self) -> bool {
        self.slots@ == table_layout()
    }

    /// Builds the table: sixteen slots, each branching to the stub of
    /// its kind.
    pub fn build() -> (t: VectorTable)
        ensures
            t.wf(),
    {
        let mut slots: Vec<Stub> = Vec::new();
        let mut group: usize = 0;
        while group < 4
            invariant
                group <= 4,
                slots@ == table_layout().take(4 * group as int),
            decreases 4 - group,
        {
            slots.push(Stub::Sync);
            slots.push(Stub::Irq);
            slots.push(Stub::Fiq);
            slots.push(Stub::SErr);
            proof {
                assert(slots@ =~= table_layout().take(4 * (group + 1) as int));
            }
            group = group + 1;
        }
        proof {
            assert(table_layout().take(16) =~= table_layout());
        }
        VectorTable { slots }
    }

    /// The slot the hardware consults for a trap, and where it sends
    /// execution: always the stub of the trap's kind.
    pub fn dispatch(&self, source: TrapSource, kind: TrapKind) -> (stub: Stub)
        requires
            self.wf(),
        ensures
            stub == stub_of(kind),
    {
        let s: usize = match source {
            TrapSource::CurrentSp0 => 0,
            TrapSource::CurrentSpx => 1,
            TrapSource::LowerAarch64 => 2,
            TrapSource::LowerAarch32 => 3,
        };
        let k: usize = match kind {
            TrapKind::Synchronous => 0,
            TrapKind::Irq => 1,
            TrapKind::Fiq => 2,
            TrapKind::SError => 3,
        };
        self.slots[4 * s + k]
    }
}

/// Every one of the sixteen slots routes to the stub of its kind:
/// the trap source never changes which stub runs.
pub proof fn lemma_every_slot_routes(t: VectorTable)
    requires
        t.wf(),
    ensures
        forall|source: TrapSource, kind: TrapKind|
            t.slots@[#[trigger] slot_index(source, kind)] == stub_of(kind),
{
}

/// Exception-class field of the syndrome register: bits 31 down to 26.
pub open spec fn esr_ec(esr: u64) -> u64 {
    (esr >> 26) & 0x3f
}

/// Instruction-length field of the syndrome register: bit 25.
pub open spec fn esr_il(esr: u64) -> u64 {
    (esr >> 25) & 1
}

/// Instruction-specific-syndrome field: bits 24 down to 0.
pub open spec fn esr_iss(esr: u64) -> u64 {
    esr & 0x1FFFFFF
}

/// The label of an exception-class value, as characters.
pub open spec fn ec_label(ec: u64) -> Seq<char> {
    if ec == 0x15 {
        "SVC (Supervisor Call)"@
    } else if ec == 0x20 {
        "Instruction Abort (Lower EL)"@
    } else if ec == 0x21 {
        "Instruction Abort (Current EL)"@
    } else if ec == 0x24 {
        "Data Abort (Lower EL)"@
    } else if ec == 0x25 {
        "Data Abort (Current EL)"@
    } else {
        "Unknown"@
    }
}

/// The label of an exception-class value, as the bytes the reporter
/// writes.
pub open spec fn ec_label_text(ec: u64) -> Seq<u8> {
    if ec == 0x15 {
        "SVC (Supervisor Call)".spec_bytes()
    } else if ec == 0x20 {
        "Instruction Abort (Lower EL)".spec_bytes()
    } else if ec == 0x21 {
        "Instruction Abort (Current EL)".spec_bytes()
    } else if ec == 0x24 {
        "Data Abort (Lower EL)".spec_bytes()
    } else if ec == 0x25 {
        "Data Abort (Current EL)".spec_bytes()
    } else {
        "Unknown".spec_bytes()
    }
}

/// Maps an exception-class value to its descriptive label. Every value
/// outside the table maps to the generic label: the mapping is total
/// and never fails.
pub fn decode_ec(ec: u64) -> (label: &'static str)
    ensures
        label@ == ec_label(ec),
        label.spec_bytes() == ec_label_text(ec),
{
    match ec {
        0x15 => "SVC (Supervisor Call)",
        0x20 => "Instruction Abort (Lower EL)",
        0x21 => "Instruction Abort (Current EL)",
        0x24 => "Data Abort (Lower EL)",
        0x25 => "Data Abort (Current EL)",
        _ => "Unknown",
    }
}

/// Shorthand for a string's bytes in output specifications.
pub open spec fn text(s: &str) -> Seq<u8> {
    s.spec_bytes()
}

/// One `NAME = 0x<sixteen digits>` register line of the diagnostic.
pub open spec fn reg_line(label: &str, v: u64) -> Seq<u8> {
    text(label) + hex_full_bytes(v) + text("\n")
}

/// The exception-class line: value and label.
pub open spec fn ec_line(ec: u64) -> Seq<u8> {
    text("  EC  = ") + hex_short_bytes(ec) + text(" (") + ec_label_text(ec) + text(")\n")
}

/// The instruction-length line.
pub open spec fn il_line(il: u64) -> Seq<u8> {
    text("  IL  = ") + dec_digits(il) + text("\n")
}

/// The instruction-specific-syndrome line.
pub open spec fn iss_line(iss: u64) -> Seq<u8> {
    text("  ISS = ") + hex_short_bytes(iss) + text("\n")
}

/// The whole diagnostic block for one trap, before the console's
/// line-feed translation: banner, syndrome with its decoded fields,
/// return address, fault address.
pub open spec fn diag_text(esr: u64, elr: u64, far: u64) -> Seq<u8> {
    text("\n=== EXCEPTION ===\n") + reg_line("ESR_EL1 = ", esr) + ec_line(esr_ec(esr)) + il_line(
        esr_il(esr),
    ) + iss_line(esr_iss(esr)) + reg_line("ELR_EL1 = ", elr) + reg_line("FAR_EL1 = ", far)
}

/// Writes `label`, then the rendered value, then a line feed.
pub(crate) fn write_value_line(console: &mut Console, label: &str, value: &Vec<u8>)
    ensures
        final(console).uart.tx@ == old(console).uart.tx@ + crlf_encode(
            text(label) + value@ + text("\n"),
        ),
        final(console).uart.cr == old(console).uart.cr,
        final(console).uart.ibrd == old(console).uart.ibrd,
        final(console).uart.fbrd == old(console).uart.fbrd,
        final(console).uart.lcrh == old(console).uart.lcrh,
{
    console.write_str(label);
    console.write_bytes(value.as_slice());
    console.write_str("\n");
    proof {
        lemma_crlf_concat(text(label), value@);
        lemma_crlf_concat(text(label) + value@, text("\n"));
        assert(final(console).uart.tx@ =~= old(console).uart.tx@ + crlf_encode(
            text(label) + value@ + text("\n"),
        ));
    }
}

/// Writes the exception-class line for `ec`.
fn write_ec_line(console: &mut Console, ec: u64)
    ensures
        final(console).uart.tx@ == old(console).uart.tx@ + crlf_encode(ec_line(ec)),
        final(console).uart.cr == old(console).uart.cr,
        final(console).uart.ibrd == old(console).uart.ibrd,
        final(console).uart.fbrd == old(console).uart.fbrd,
        final(console).uart.lcrh == old(console).uart.lcrh,
{
    console.write_str("  EC  = ");
    let value = hex_short(ec);
    console.write_bytes(value.as_slice());
    console.write_str(" (");
    console.write_str(decode_ec(ec));
    console.write_str(")\n");
    proof {
        lemma_crlf_concat(text("  EC  = "), hex_short_bytes(ec));
        lemma_crlf_concat(text("  EC  = ") + hex_short_bytes(ec), text(" ("));
        lemma_crlf_concat(text("  EC  = ") + hex_short_bytes(ec) + text(" ("), ec_label_text(ec));
        lemma_crlf_concat(
            text("  EC  = ") + hex_short_bytes(ec) + text(" (") + ec_label_text(ec),
            text(")\n"),
        );
        assert(final(console).uart.tx@ =~= old(console).uart.tx@ + crlf_encode(ec_line(ec)));
    }
}

/// The trap reporter: decodes the captured syndrome, return-address
/// and fault-address registers, writes the fixed diagnostic block
/// through the console, and halts. Nothing runs past it.
pub fn rust_exception_handler(console: &mut Console, esr: u64, elr: u64, far: u64) -> (halt:
    Halted)
    ensures
        final(console).uart.tx@ == old(console).uart.tx@ + crlf_encode(diag_text(esr, elr, far)),
        final(console).uart.cr == old(console).uart.cr,
        final(console).uart.ibrd == old(console).uart.ibrd,
        final(console).uart.fbrd == old(console).uart.fbrd,
        final(console).uart.lcrh == old(console).uart.lcrh,
{
    let ec = (esr >> 26) & 0x3f;
    let il = (esr >> 25) & 1;
    let iss = esr & 0x1FFFFFF;
    console.write_str("\n=== EXCEPTION ===\n");
    write_value_line(console, "ESR_EL1 = ", &hex_full(esr));
    write_ec_line(console, ec);
    write_value_line(console, "  IL  = ", &dec(il));
    write_value_line(console, "  ISS = ", &hex_short(iss));
    write_value_line(console, "ELR_EL1 = ", &hex_full(elr));
    write_value_line(console, "FAR_EL1 = ", &hex_full(far));
    proof {
        let t0 = text("\n=== EXCEPTION ===\n");
        let t1 = reg_line("ESR_EL1 = ", esr);
        let t2 = ec_line(esr_ec(esr));
        let t3 = il_line(esr_il(esr));
        let t4 = iss_line(esr_iss(esr));
        let t5 = reg_line("ELR_EL1 = ", elr);
        let t6 = reg_line("FAR_EL1 = ", far);
        lemma_crlf_concat(t0, t1);
        lemma_crlf_concat(t0 + t1, t2);
        lemma_crlf_concat(t0 + t1 + t2, t3);
        lemma_crlf_concat(t0 + t1 + t2 + t3, t4);
        lemma_crlf_concat(t0 + t1 + t2 + t3 + t4, t5);
        lemma_crlf_concat(t0 + t1 + t2 + t3 + t4 + t5, t6);
        assert(final(console).uart.tx@ =~= old(console).uart.tx@ + crlf_encode(
            diag_text(esr, elr, far),
        ));
    }
    Halted
}

/// The common behaviour of the four category stubs: each calls the
/// reporter, then enters the event-wait loop. The current behaviour
/// does not distinguish the categories past the table, so every stub
/// renders the same diagnostic and halts.
pub fn run_stub(console: &mut Console, stub: Stub, esr: u64, elr: u64, far: u64) -> (halt: Halted)
    ensures
        final(console).uart.tx@ == old(console).uart.tx@ + crlf_encode(diag_text(esr, elr, far)),
        final(console).uart.cr == old(console).uart.cr,
        final(console).uart.ibrd == old(console).uart.ibrd,
        final(console).uart.fbrd == old(console).uart.fbrd,
        final(console).uart.lcrh == old(console).uart.lcrh,
{
    match stub {
        Stub::Sync => rust_exception_handler(console, esr, elr, far),
        Stub::Irq => rust_exception_handler(console, esr, elr, far),
        Stub::Fiq => rust_exception_handler(console, esr, elr, far),
        Stub::SErr => rust_exception_handler(console, esr, elr, far),
    }
}

/// The trap lifecycle of a core, from the moment the hardware vectors
/// to a slot: the captured class is reported, then the core halts.
#[derive(Clone, Copy, PartialEq, Eq, Structural, Debug)]
pub enum TrapPhase {
    /// No trap taken.
    Idle,
    /// The hardware vectored on a trap of the recorded class.
    Trapped(u64),
    /// The reporter is rendering the diagnostic for the class.
    Reporting(u64),
    /// The diagnostic is out; the core waits forever.
    Halted,
}

/// One step of the trap lifecycle.
pub open spec fn phase_after(phase: TrapPhase) -> TrapPhase {
    match phase {
        TrapPhase::Idle => TrapPhase::Idle,
        TrapPhase::Trapped(ec) => TrapPhase::Reporting(ec),
        TrapPhase::Reporting(_) => TrapPhase::Halted,
        TrapPhase::Halted => TrapPhase::Halted,
    }
}

/// One step of the trap lifecycle, as the trap path takes it.
pub fn advance_phase(phase: TrapPhase) -> (next: TrapPhase)
    ensures
        next == phase_after(phase),
{
    match phase {
        TrapPhase::Idle => TrapPhase::Idle,
        TrapPhase::Trapped(ec) => TrapPhase::Reporting(ec),
        TrapPhase::Reporting(_) => TrapPhase::Halted,
        TrapPhase::Halted => TrapPhase::Halted,
    }
}

/// A taken trap runs through reporting to the halted state in two
/// steps, and the halted state is terminal: there is no transition
/// back toward idle.
pub proof fn lemma_trap_runs_to_halt(ec: u64)
    ensures
        phase_after(TrapPhase::Trapped(ec)) == TrapPhase::Reporting(ec),
        phase_after(phase_after(TrapPhase::Trapped(ec))) == TrapPhase::Halted,
        phase_after(TrapPhase::Halted) == TrapPhase::Halted,
{
}

} // verus!
