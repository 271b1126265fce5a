//! The high-level entry path the trampoline hands control to: the raw
//! probe byte, console bring-up with the boot banner, the richer init
//! sequence that reports its level and deliberately takes a supervisor
//! call, and the unrecoverable-fault path. Every function here that
//! never returns on hardware yields the terminal [`Halted`] marker.

use vstd::prelude::*;
use crate::Halted;
use crate::boot::BootOutcome;
use crate::boot::ExceptionLevel;
use crate::boot::Machine;
use crate::boot::SysRegs;
use crate::boot::boot;
use crate::boot::el_number;
use crate::boot::is_boot_core;
use crate::console::print;
use crate::render::dec;
use crate::render::dec_digits;
use crate::uart::Uart;
use crate::uart::crlf_encode;
use crate::uart::lemma_crlf_concat;
use crate::vectors::TrapKind;
use crate::vectors::TrapPhase;
use crate::vectors::TrapSource;
use crate::vectors::advance_phase;
use crate::vectors::diag_text;
use crate::vectors::run_stub;
use crate::vectors::text;
use crate::vectors::write_value_line;

verus! {

/// The boot banner, before the line-feed translation.
pub open spec fn banner_text() -> Seq<u8> {
    text("AetherNxt Booted\n")
}

/// The three status lines of the init sequence, before the line-feed
/// translation.
pub open spec fn ok_lines_text() -> Seq<u8> {
    text("[OK] AetherNxt Booted\n") + text("[OK] EL1 Online\n") + text("[OK] UART Initialized\n")
}

/// The line reporting the observed exception level.
pub open spec fn current_el_line(el: ExceptionLevel) -> Seq<u8> {
    text("CurrentEL = ") + dec_digits(el_number(el)) + text("\n")
}

/// The fixed line of the unrecoverable-fault path.
pub open spec fn panic_text() -> Seq<u8> {
    text("Kernel Panic\n")
}

/// The syndrome value the hardware captures for a supervisor call:
/// exception class `0x15`, instruction-length bit set, the immediate
/// in the instruction-specific field.
pub open spec fn svc_esr(imm: u64) -> u64 {
    (0x15u64 << 26) | (1u64 << 25) | (imm & 0xffff)
}

/// Brings up the console and writes the boot banner, then waits
/// forever: the current terminal state of a successful boot.
pub fn kernel_init(m: &mut Machine) -> (halt: Halted)
    ensures
        final(m).console.uart.enabled(),
        final(m).console.uart.tx@ == old(m).console.uart.tx@ + crlf_encode(banner_text()),
        final(m).el == old(m).el,
        final(m).core_id == old(m).core_id,
        final(m).regs == old(m).regs,
        final(m).layout == old(m).layout,
        final(m).bss@ == old(m).bss@,
        final(m).vectors == old(m).vectors,
        final(m).phase == old(m).phase,
{
    m.console.uart.init();
    m.console.uart.puts("AetherNxt Booted\n");
    Halted
}

/// The kernel entry point the trampoline branches to: console
/// bring-up, then the banner. Nothing reaches the transmit line before
/// the device is programmed. Never returns on hardware.
pub fn rust_main(m: &mut Machine) -> (halt: Halted)
    ensures
        final(m).console.uart.enabled(),
        final(m).console.uart.tx@ == old(m).console.uart.tx@ + crlf_encode(banner_text()),
        final(m).el == old(m).el,
        final(m).core_id == old(m).core_id,
        final(m).regs == old(m).regs,
        final(m).layout == old(m).layout,
        final(m).bss@ == old(m).bss@,
        final(m).vectors == old(m).vectors,
        final(m).phase == old(m).phase,
{
    kernel_init(m)
}

/// The init sequence: reports its status lines and the observed
/// exception level, then deliberately issues a supervisor call. The
/// hardware captures the syndrome, vectors through the installed
/// table to the synchronous stub, and the reporter renders the
/// diagnostic and halts. The return-address and fault-address
/// registers keep what the hardware last put there: instruction
/// addresses are outside this model.
pub fn init(m: &mut Machine) -> (halt: Halted)
    requires
        old(m).wf(),
        old(m).el == ExceptionLevel::El1,
    ensures
        final(m).wf(),
        final(m).el == ExceptionLevel::El1,
        final(m).phase == TrapPhase::Halted,
        final(m).regs == (SysRegs { esr_el1: svc_esr(0), ..old(m).regs }),
        final(m).console.uart.tx@ == old(m).console.uart.tx@ + crlf_encode(
            ok_lines_text() + current_el_line(old(m).el) + diag_text(
                svc_esr(0),
                old(m).regs.elr_el1,
                old(m).regs.far_el1,
            ),
        ),
        final(m).core_id == old(m).core_id,
        final(m).layout == old(m).layout,
        final(m).bss@ == old(m).bss@,
        final(m).vectors == old(m).vectors,
{
    print(&mut m.console, "[OK] AetherNxt Booted\n");
    print(&mut m.console, "[OK] EL1 Online\n");
    print(&mut m.console, "[OK] UART Initialized\n");
    // the status register holds the level in bits 3:2
    let ghost n = el_number(m.el);
    let cur: u64 = match m.el {
        ExceptionLevel::El0 => 0,
        ExceptionLevel::El1 => 4,
        ExceptionLevel::El2 => 8,
        ExceptionLevel::El3 => 12,
    };
    let lvl = cur >> 2;
    proof {
        assert(cur >> 2 == n) by (bit_vector)
            requires
                cur == 4 * n && n <= 3,
        ;
    }
    write_value_line(&mut m.console, "CurrentEL = ", &dec(lvl));
    // svc #0: the hardware captures the syndrome and vectors to the
    // synchronous slot for the current level on SPx
    let esr: u64 = 0x56000000;
    proof {
        assert((0x15u64 << 26) | (1u64 << 25) | (0u64 & 0xffff) == 0x56000000u64) by (bit_vector);
    }
    m.regs.esr_el1 = esr;
    let ec = (esr >> 26) & 0x3f;
    m.phase = TrapPhase::Trapped(ec);
    let stub = m.vectors.dispatch(TrapSource::CurrentSpx, TrapKind::Synchronous);
    m.phase = advance_phase(m.phase);
    let halt = run_stub(&mut m.console, stub, esr, m.regs.elr_el1, m.regs.far_el1);
    m.phase = advance_phase(m.phase);
    proof {
        let o1 = text("[OK] AetherNxt Booted\n");
        let o2 = text("[OK] EL1 Online\n");
        let o3 = text("[OK] UART Initialized\n");
        let el_line = current_el_line(old(m).el);
        let diag = diag_text(svc_esr(0), old(m).regs.elr_el1, old(m).regs.far_el1);
        lemma_crlf_concat(o1, o2);
        lemma_crlf_concat(o1 + o2, o3);
        lemma_crlf_concat(o1 + o2 + o3, el_line);
        lemma_crlf_concat(o1 + o2 + o3 + el_line, diag);
        assert(final(m).console.uart.tx@ =~= old(m).console.uart.tx@ + crlf_encode(
            ok_lines_text() + current_el_line(old(m).el) + diag,
        ));
    }
    halt
}

/// The path for an unrecoverable software fault: one fixed diagnostic
/// line through the output capability, then the halt loop — no
/// unwinding, no retry.
pub fn kernel_panic(uart: &mut Uart) -> (halt: Halted)
    ensures
        final(uart).tx@ == old(uart).tx@ + crlf_encode(panic_text()),
        final(uart).cr == old(uart).cr,
        final(uart).ibrd == old(uart).ibrd,
        final(uart).fbrd == old(uart).fbrd,
        final(uart).lcrh == old(uart).lcrh,
{
    uart.puts("Kernel Panic\n");
    Halted
}

/// How a full run from reset ends.
#[derive(Clone, Copy, PartialEq, Eq, Structural, Debug)]
pub enum RunOutcome {
    /// A secondary core, parked before any setup.
    Parked,
    /// The boot core, halted in the kernel's wait loop after the
    /// banner.
    Halted,
}

/// A whole run from the reset vector: the trampoline, then — on the
/// boot core only — the kernel entry point. A secondary core leaves no
/// trace: no setup, no output, no kernel entry, for the lifetime of
/// the run.
pub fn run_from_reset(m: &mut Machine) -> (outcome: RunOutcome)
    requires
        old(m).wf(),
    ensures
        final(m).wf(),
        !is_boot_core(old(m).core_id) ==> outcome == RunOutcome::Parked && *final(m) == *old(m)
            && final(m).console.uart.tx@ == old(m).console.uart.tx@,
        is_boot_core(old(m).core_id) ==> {
            &&& outcome == RunOutcome::Halted
            &&& final(m).regs.sp == old(m).layout.stack_top
            &&& final(m).regs.vbar_el1 == old(m).layout.vectors
            &&& final(m).regs.vbar_el1 % 2048 == 0
            &&& final(m).regs.cpacr_el1 == 0x300000u64
            &&& final(m).bss@ == crate::boot::zeroed(old(m).bss@.len())
            &&& final(m).console.uart.tx@ == old(m).console.uart.tx@ + crlf_encode(banner_text())
        },
        // a hypervisor-level start descends to EL1 and programs the
        // EL2 control registers; any other start keeps its level and
        // every EL2 register
        is_boot_core(old(m).core_id) && old(m).el == ExceptionLevel::El2 ==> {
            &&& final(m).el == ExceptionLevel::El1
            &&& final(m).regs == (SysRegs {
                cnthctl_el2: old(m).regs.cnthctl_el2 | 3,
                cntvoff_el2: 0,
                hcr_el2: 0x80000002u64,
                spsr_el2: 0x3c5,
                cpacr_el1: 0x300000u64,
                sp: old(m).layout.stack_top,
                vbar_el1: old(m).layout.vectors,
                ..old(m).regs
            })
        },
        is_boot_core(old(m).core_id) && old(m).el != ExceptionLevel::El2 ==> {
            &&& final(m).el == old(m).el
            &&& final(m).regs == (SysRegs {
                cpacr_el1: 0x300000u64,
                sp: old(m).layout.stack_top,
                vbar_el1: old(m).layout.vectors,
                ..old(m).regs
            })
        },
{
    match boot(m) {
        BootOutcome::Parked => RunOutcome::Parked,
        BootOutcome::KernelEntered => {
            let _halt = rust_main(m);
            RunOutcome::Halted
        },
    }
}

} // verus!
