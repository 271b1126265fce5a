//! The boot trampoline: everything between raw reset and the first
//! call into the high-level kernel entry point.
//!
//! The machine is held as plain values — the affinity register, the
//! exception level, the system registers the trampoline writes, the
//! zero-initialised region, the vector table and the console — so that
//! each step of the bring-up carries a proved contract: only the boot
//! core proceeds, a hypervisor-level start descends to EL1, the stack
//! and vector base come from the linker layout, and the
//! zero-initialised region reads as zero before the kernel runs.

use vstd::prelude::*;
use crate::console::Console;
use crate::uart::Uart;
use crate::vectors::TrapPhase;
use crate::vectors::VectorTable;

verus! {

/// A processor exception level.
#[derive(Clone, Copy, PartialEq, Eq, Structural, Debug)]
pub enum ExceptionLevel {
    /// User.
    El0,
    /// Kernel.
    El1,
    /// Hypervisor.
    El2,
    /// Secure monitor.
    El3,
}

/// The number of an exception level.
pub open spec fn el_number(el: ExceptionLevel) -> u64 {
    match el {
        ExceptionLevel::El0 => 0,
        ExceptionLevel::El1 => 1,
        ExceptionLevel::El2 => 2,
        ExceptionLevel::El3 => 3,
    }
}

/// The addresses the linker script provides to the trampoline.
#[derive(Clone, Copy, PartialEq, Eq, Structural, Debug)]
pub struct LinkerLayout {
    /// Top of the boot stack.
    pub stack_top: u64,
    /// First byte of the zero-initialised region.
    pub bss_start: u64,
    /// One past the last byte of the zero-initialised region.
    pub bss_end: u64,
    /// Base of the exception vector table.
    pub vectors: u64,
}

impl LinkerLayout {
    /// The link-time contract: a 16-byte-aligned stack top, a region
    /// whose length is a multiple of eight bytes, and a table base on
    /// a 2048-byte boundary.
    pub open spec fn wf(self) -> bool {
        &&& self.stack_top % 16 == 0
        &&& self.bss_start <= self.bss_end
        &&& (self.bss_end - self.bss_start) % 8 == 0
        &&& self.vectors % 2048 == 0
    }
}

/// The system registers the trampoline and the trap path touch.
#[derive(Clone, Copy, PartialEq, Eq, Structural, Debug)]
pub struct SysRegs {
    /// Hypervisor timer access control.
    pub cnthctl_el2: u64,
    /// Virtual-timer offset.
    pub cntvoff_el2: u64,
    /// Hypervisor configuration.
    pub hcr_el2: u64,
    /// Saved program status for the exception return out of EL2.
    pub spsr_el2: u64,
    /// FPU/SIMD access control.
    pub cpacr_el1: u64,
    /// Vector table base.
    pub vbar_el1: u64,
    /// Active stack pointer.
    pub sp: u64,
    /// Syndrome captured on a trap.
    pub esr_el1: u64,
    /// Return address captured on a trap.
    pub elr_el1: u64,
    /// Fault address captured on a trap.
    pub far_el1: u64,
}

/// Every modelled system register clear, as reset leaves them.
pub open spec fn regs_at_reset() -> SysRegs {
    SysRegs {
        cnthctl_el2: 0,
        cntvoff_el2: 0,
        hcr_el2: 0,
        spsr_el2: 0,
        cpacr_el1: 0,
        vbar_el1: 0,
        sp: 0,
        esr_el1: 0,
        elr_el1: 0,
        far_el1: 0,
    }
}

impl SysRegs {
    /// Reset leaves every modelled register clear.
    pub fn at_reset() -> (regs: SysRegs)
        ensures
            regs == regs_at_reset(),
    {
        SysRegs {
            cnthctl_el2: 0,
            cntvoff_el2: 0,
            hcr_el2: 0,
            spsr_el2: 0,
            cpacr_el1: 0,
            vbar_el1: 0,
            sp: 0,
            esr_el1: 0,
            elr_el1: 0,
            far_el1: 0,
        }
    }
}

/// One core's view of the machine.
pub struct Machine {
    /// Hardware affinity value of this core.
    pub core_id: u64,
    /// Current exception level.
    pub el: ExceptionLevel,
    /// The modelled system registers.
    pub regs: SysRegs,
    /// The linker-provided addresses.
    pub layout: LinkerLayout,
    /// Contents of the zero-initialised region, byte by byte.
    pub bss: Vec<u8>,
    /// The vector table in the binary image.
    pub vectors: VectorTable,
    /// The console over the UART.
    pub console: Console,
    /// Where this core stands in the trap lifecycle.
    pub phase: TrapPhase,
}

impl Machine {
    /// The machine is consistent: the layout meets the link-time
    /// contract, the region's contents match its bounds, and the
    /// table in the image has the hardware layout.
    pub open spec fn wf(self) -> bool {
        &&& self.layout.wf()
        &&& self.bss@.len() == self.layout.bss_end - self.layout.bss_start
        &&& self.vectors.wf()
    }

    /// A core exactly at reset: registers clear, the region holding
    /// whatever it held, nothing transmitted, no trap taken.
    pub fn at_reset(core_id: u64, el: ExceptionLevel, layout: LinkerLayout, bss: Vec<u8>) -> (m:
        Machine)
        requires
            layout.wf(),
            bss@.len() == layout.bss_end - layout.bss_start,
        ensures
            m.wf(),
            m.core_id == core_id,
            m.el == el,
            m.regs == regs_at_reset(),
            m.layout == layout,
            m.bss@ == bss@,
            m.console.uart.tx@ == Seq::<u8>::empty(),
            m.console.uart.cr == 0,
            m.phase == TrapPhase::Idle,
    {
        Machine {
            core_id,
            el,
            regs: SysRegs::at_reset(),
            layout,
            bss,
            vectors: VectorTable::build(),
            console: Console { uart: Uart::at_reset() },
            phase: TrapPhase::Idle,
        }
    }
}

/// Whether this core's affinity designates it the boot core.
pub open spec fn is_boot_core(core_id: u64) -> bool {
    core_id & 0xff == 0
}

/// How the trampoline leaves a core.
#[derive(Clone, Copy, PartialEq, Eq, Structural, Debug)]
pub enum BootOutcome {
    /// A secondary core: parked in the event-wait loop forever.
    Parked,
    /// The boot core: setup done, control handed to the kernel entry.
    KernelEntered,
}

/// All bytes of a region of the given length read as zero.
pub open spec fn zeroed(len: nat) -> Seq<u8> {
    Seq::new(len, |i: int| 0u8)
}

/// Clears the zero-initialised region, one eight-byte word per step,
/// from its start address to its end address. Works for any
/// pre-existing contents; the region length is a multiple of eight by
/// the link-time contract.
pub fn clear_bss(bss: &mut Vec<u8>)
    requires
        old(bss)@.len() % 8 == 0,
    ensures
        final(bss)@ == zeroed(old(bss)@.len()),
{
    let mut i: usize = 0;
    while i < bss.len()
        invariant
            bss@.len() == old(bss)@.len(),
            bss@.len() % 8 == 0,
            i % 8 == 0,
            i <= bss@.len(),
            forall|k: int| 0 <= k < i ==> bss@[k] == 0u8,
        decreases bss@.len() - i,
    {
        // one store of a zeroed word
        let n = bss.len();
        let mut j: usize = 0;
        while j < 8
            invariant
                j <= 8,
                i + 8 <= n,
                n == bss@.len(),
                bss@.len() == old(bss)@.len(),
                forall|k: int| 0 <= k < i + j ==> bss@[k] == 0u8,
            decreases 8 - j,
        {
            bss.set(i + j, 0);
            j = j + 1;
        }
        i = i + 8;
    }
    proof {
        assert(final(bss)@ =~= zeroed(old(bss)@.len()));
    }
}

/// Clearing is idempotent: a clearing pass leaves every byte of the
/// region zero, and a second pass over the result leaves it exactly
/// the same.
pub proof fn lemma_clearing_idempotent(len: nat)
    ensures
        zeroed(zeroed(len).len()) == zeroed(len),
        forall|i: int| 0 <= i < len ==> zeroed(len)[i] == 0u8,
{
    assert(zeroed(zeroed(len).len()) =~= zeroed(len));
}

/// The privilege descent out of the hypervisor level: program the
/// timer controls so guest-visible counters read correctly, mark the
/// lower level's execution state as 64-bit, construct a saved status
/// selecting EL1 with interrupts masked and the dedicated stack
/// pointer, and perform the exception return. The level-2 link
/// register takes the address of the instruction stream that follows;
/// instruction addresses are outside this model.
fn descend_to_el1(m: &mut Machine)
    requires
        old(m).el == ExceptionLevel::El2,
    ensures
        final(m).el == ExceptionLevel::El1,
        final(m).regs == (SysRegs {
            cnthctl_el2: old(m).regs.cnthctl_el2 | 3,
            cntvoff_el2: 0,
            hcr_el2: 0x80000002u64,
            spsr_el2: 0x3c5,
            ..old(m).regs
        }),
        final(m).core_id == old(m).core_id,
        final(m).layout == old(m).layout,
        final(m).bss@ == old(m).bss@,
        final(m).vectors == old(m).vectors,
        final(m).console == old(m).console,
        final(m).phase == old(m).phase,
{
    // guest counter and virtual-timer access for the lower level
    m.regs.cnthctl_el2 = m.regs.cnthctl_el2 | 3;
    m.regs.cntvoff_el2 = 0;
    // execution state of EL1 is 64-bit; register aliasing for EL1 software
    let hcr = (1u64 << 31) | (1u64 << 1);
    proof {
        assert((1u64 << 31) | (1u64 << 1) == 0x80000002u64) by (bit_vector);
    }
    m.regs.hcr_el2 = hcr;
    // EL1, dedicated stack pointer, interrupts masked
    m.regs.spsr_el2 = 0x3c5;
    // the exception return drops to the level the saved status selects
    m.el = ExceptionLevel::El1;
}

/// Enables FPU/SIMD access for the kernel and user levels: both
/// trap-disable bits of the access-control register, made visible by
/// an instruction-synchronization barrier.
fn enable_fpu(m: &mut Machine)
    ensures
        final(m).regs == (SysRegs { cpacr_el1: 0x300000u64, ..old(m).regs }),
        final(m).el == old(m).el,
        final(m).core_id == old(m).core_id,
        final(m).layout == old(m).layout,
        final(m).bss@ == old(m).bss@,
        final(m).vectors == old(m).vectors,
        final(m).console == old(m).console,
        final(m).phase == old(m).phase,
{
    let v = 3u64 << 20;
    proof {
        assert(3u64 << 20 == 0x300000u64) by (bit_vector);
    }
    m.regs.cpacr_el1 = v;
}

/// Installs the vector table base into the vector-base register, made
/// visible by an instruction-synchronization barrier. The base is on a
/// 2048-byte boundary by the link-time contract.
fn install_vectors(m: &mut Machine)
    requires
        old(m).layout.wf(),
    ensures
        final(m).regs == (SysRegs { vbar_el1: old(m).layout.vectors, ..old(m).regs }),
        final(m).regs.vbar_el1 % 2048 == 0,
        final(m).el == old(m).el,
        final(m).core_id == old(m).core_id,
        final(m).layout == old(m).layout,
        final(m).bss@ == old(m).bss@,
        final(m).vectors == old(m).vectors,
        final(m).console == old(m).console,
        final(m).phase == old(m).phase,
{
    m.regs.vbar_el1 = m.layout.vectors;
}

/// The trampoline, from reset to the edge of the kernel entry call.
///
/// A core whose affinity is not the boot value is parked in the
/// event-wait loop: none of the setup runs and the machine is left
/// exactly as it was, whatever its level. The boot core descends to
/// EL1 if it started at the hypervisor level — and only then: any
/// other starting level is kept and every EL2 control register stays
/// untouched, the descent is neither run nor re-applied — enables FPU
/// access, takes its stack from the linker layout, clears the
/// zero-initialised region, installs the vector table base, and
/// reports that control passes to the kernel entry point.
pub fn boot(m: &mut Machine) -> (outcome: BootOutcome)
    requires
        old(m).wf(),
    ensures
        final(m).wf(),
        !is_boot_core(old(m).core_id) ==> outcome == BootOutcome::Parked && *final(m) == *old(m),
        is_boot_core(old(m).core_id) ==> {
            &&& outcome == BootOutcome::KernelEntered
            &&& final(m).regs.sp == old(m).layout.stack_top
            &&& final(m).regs.vbar_el1 == old(m).layout.vectors
            &&& final(m).regs.vbar_el1 % 2048 == 0
            &&& final(m).regs.cpacr_el1 == 0x300000u64
            &&& final(m).bss@ == zeroed(old(m).bss@.len())
            &&& final(m).console == old(m).console
            &&& final(m).core_id == old(m).core_id
            &&& final(m).layout == old(m).layout
            &&& final(m).vectors == old(m).vectors
            &&& final(m).phase == old(m).phase
        },
        is_boot_core(old(m).core_id) && old(m).el == ExceptionLevel::El2 ==> {
            &&& final(m).el == ExceptionLevel::El1
            &&& final(m).regs == (SysRegs {
                cnthctl_el2: old(m).regs.cnthctl_el2 | 3,
                cntvoff_el2: 0,
                hcr_el2: 0x80000002u64,
                spsr_el2: 0x3c5,
                cpacr_el1: 0x300000u64,
                sp: old(m).layout.stack_top,
                vbar_el1: old(m).layout.vectors,
                ..old(m).regs
            })
        },
        // a core not at the hypervisor level skips the descent: the
        // level and every EL2 control register keep their values
        is_boot_core(old(m).core_id) && old(m).el != ExceptionLevel::El2 ==> {
            &&& final(m).el == old(m).el
            &&& final(m).regs == (SysRegs {
                cpacr_el1: 0x300000u64,
                sp: old(m).layout.stack_top,
                vbar_el1: old(m).layout.vectors,
                ..old(m).regs
            })
        },
{
    if m.core_id & 0xff != 0 {
        // secondary core: event-wait, forever
        return BootOutcome::Parked;
    }
    let at_el2 = match m.el {
        ExceptionLevel::El2 => true,
        _ => false,
    };
    if at_el2 {
        descend_to_el1(m);
    }
    enable_fpu(m);
    // the stack pointer is valid before any call that could spill
    m.regs.sp = m.layout.stack_top;
    // the region reads as zero before the table is live or the kernel runs
    clear_bss(&mut m.bss);
    install_vectors(m);
    BootOutcome::KernelEntered
}

} // verus!
