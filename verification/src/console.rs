//! Console glue over the UART: the text-output capability the trap
//! reporter and the kernel entry path consume. Everything written here
//! goes through the UART's line-feed translation.

use vstd::prelude::*;
use vstd::string::StringSliceAdditionalSpecFns;
use crate::uart::Uart;
use crate::uart::crlf_encode;

verus! {

/// The console: ownership of the one UART this core writes through.
pub struct Console {
    /// The device the console writes through.
    pub uart: Uart,
}

impl Console {
    /// Writes a string through the UART, with the line-feed
    /// translation.
    pub fn write_str(&mut self, s: &str)
        ensures
            final(self).uart.tx@ == old(self).uart.tx@ + crlf_encode(s.spec_bytes()),
            final(self).uart.cr == old(self).uart.cr,
            final(self).uart.ibrd == old(self).uart.ibrd,
            final(self).uart.fbrd == old(self).uart.fbrd,
            final(self).uart.lcrh == old(self).uart.lcrh,
    {
        self.uart.puts(s);
    }

    /// Writes rendered bytes through the UART, with the line-feed
    /// translation.
    pub fn write_bytes(&mut self, bytes: &[u8])
        ensures
            final(self).uart.tx@ == old(self).uart.tx@ + crlf_encode(bytes@),
            final(self).uart.cr == old(self).uart.cr,
            final(self).uart.ibrd == old(self).uart.ibrd,
            final(self).uart.fbrd == old(self).uart.fbrd,
            final(self).uart.lcrh == old(self).uart.lcrh,
    {
        self.uart.write_bytes(bytes);
    }
}

/// Writes a line of text through the console.
pub fn print(console: &mut Console, s: &str)
    ensures
        final(console).uart.tx@ == old(console).uart.tx@ + crlf_encode(s.spec_bytes()),
        final(console).uart.cr == old(console).uart.cr,
        final(console).uart.ibrd == old(console).uart.ibrd,
        final(console).uart.fbrd == old(console).uart.fbrd,
        final(console).uart.lcrh == old(console).uart.lcrh,
{
    console.write_str(s);
}

} // verus!
