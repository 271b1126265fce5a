//! Model of the earliest-executed code of a bare-metal AArch64 kernel:
//! the boot trampoline that brings a core from reset to a runnable EL1
//! environment, the hardware-mandated exception vector table, and the
//! trap reporter that renders a diagnostic and halts.
//!
//! Hardware state — system registers, the zero-initialised data region,
//! the UART transmit line — is held as plain values, so that every step
//! of the boot and trap paths carries a proved contract.

pub mod boot;
pub mod console;
pub mod kernel;
pub mod render;
pub mod uart;
pub mod vectors;

use vstd::prelude::*;

verus! {

/// The outcome of a control transfer that the hardware never returns
/// from: a parked core's wait loop, or the halt after a trap report.
/// Carrying it as a result makes "never returns" a checked property of
/// every caller instead of a convention.
pub struct Halted;

} // verus!
