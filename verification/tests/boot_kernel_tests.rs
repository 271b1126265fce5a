use aethernxt::boot::BootOutcome;
use aethernxt::boot::ExceptionLevel;
use aethernxt::boot::LinkerLayout;
use aethernxt::boot::Machine;
use aethernxt::boot::boot;
use aethernxt::boot::clear_bss;
use aethernxt::kernel::RunOutcome;
use aethernxt::kernel::init;
use aethernxt::kernel::kernel_init;
use aethernxt::kernel::kernel_panic;
use aethernxt::kernel::run_from_reset;
use aethernxt::kernel::rust_main;
use aethernxt::uart::Uart;
use aethernxt::vectors::TrapPhase;

fn layout_with_bss(len: u64) -> LinkerLayout {
    LinkerLayout { stack_top: 0x80000, bss_start: 0x90000, bss_end: 0x90000 + len, vectors: 0x100000 }
}

#[test]
fn boot_core_descends_from_el2() {
    let bss = vec![0xAA_u8; 32];
    let mut m = Machine::at_reset(0, ExceptionLevel::El2, layout_with_bss(32), bss);
    let outcome = boot(&mut m);
    assert_eq!(outcome, BootOutcome::KernelEntered);
    assert_eq!(m.el, ExceptionLevel::El1);
    assert_eq!(m.regs.sp, 0x80000);
    assert_eq!(m.regs.vbar_el1, 0x100000);
    assert_eq!(m.regs.vbar_el1 % 2048, 0);
    assert_eq!(m.regs.cpacr_el1, 0x300000);
    // the descent programmed the EL2 control registers
    assert_eq!(m.regs.cnthctl_el2, 3);
    assert_eq!(m.regs.cntvoff_el2, 0);
    assert_eq!(m.regs.hcr_el2, 0x80000002);
    assert_eq!(m.regs.spsr_el2, 0x3c5);
    // the whole region reads as zero
    assert_eq!(m.bss, vec![0_u8; 32]);
    // the trampoline itself is silent
    assert!(m.console.uart.tx.is_empty());
}

#[test]
fn boot_core_already_at_el1_skips_the_descent() {
    let bss = vec![0x55_u8; 16];
    let mut m = Machine::at_reset(0, ExceptionLevel::El1, layout_with_bss(16), bss);
    let outcome = boot(&mut m);
    assert_eq!(outcome, BootOutcome::KernelEntered);
    assert_eq!(m.el, ExceptionLevel::El1);
    // the descent did not run: every EL2 control register keeps its
    // reset value
    assert_eq!(m.regs.cnthctl_el2, 0);
    assert_eq!(m.regs.cntvoff_el2, 0);
    assert_eq!(m.regs.hcr_el2, 0);
    assert_eq!(m.regs.spsr_el2, 0);
    assert_eq!(m.bss, vec![0_u8; 16]);
}

#[test]
fn secondary_core_parks_untouched() {
    let bss = vec![0xEE_u8; 8];
    let mut m = Machine::at_reset(1, ExceptionLevel::El2, layout_with_bss(8), bss);
    let outcome = boot(&mut m);
    assert_eq!(outcome, BootOutcome::Parked);
    assert_eq!(m.el, ExceptionLevel::El2);
    assert_eq!(m.regs.sp, 0);
    assert_eq!(m.regs.vbar_el1, 0);
    assert_eq!(m.bss, vec![0xEE_u8; 8]);
    assert!(m.console.uart.tx.is_empty());
}

#[test]
fn clearing_zeroes_any_content_and_is_idempotent() {
    let mut region: Vec<u8> = (0..64).map(|i| i as u8).collect();
    clear_bss(&mut region);
    assert_eq!(region, vec![0_u8; 64]);
    let once = region.clone();
    clear_bss(&mut region);
    assert_eq!(region, once);

    let mut empty: Vec<u8> = Vec::new();
    clear_bss(&mut empty);
    assert!(empty.is_empty());
}

#[test]
fn kernel_init_writes_the_banner() {
    let mut m = Machine::at_reset(0, ExceptionLevel::El1, layout_with_bss(0), Vec::new());
    let _halt = kernel_init(&mut m);
    assert_eq!(m.console.uart.tx, b"AetherNxt Booted\r\n".to_vec());
    assert_eq!(m.console.uart.cr, 0x301);
}

#[test]
fn rust_main_emits_nothing_before_the_banner() {
    let mut m = Machine::at_reset(0, ExceptionLevel::El1, layout_with_bss(0), Vec::new());
    let _halt = rust_main(&mut m);
    assert_eq!(m.console.uart.tx, b"AetherNxt Booted\r\n".to_vec());
}

#[test]
fn kernel_panic_writes_the_fixed_line() {
    let mut u = Uart::at_reset();
    let _halt = kernel_panic(&mut u);
    assert_eq!(u.tx, b"Kernel Panic\r\n".to_vec());
}

// Boot at EL2 with a zero-length region: the level observed inside the
// kernel is 1, the UART carries the banner, and a supervisor call
// afterward yields the diagnostic block, then nothing more.
#[test]
fn el2_boot_banner_then_supervisor_call() {
    let mut m = Machine::at_reset(0, ExceptionLevel::El2, layout_with_bss(0), Vec::new());
    let outcome = run_from_reset(&mut m);
    assert_eq!(outcome, RunOutcome::Halted);
    assert_eq!(m.el, ExceptionLevel::El1);
    assert_eq!(m.console.uart.tx, b"AetherNxt Booted\r\n".to_vec());

    let _halt = init(&mut m);
    assert_eq!(m.phase, TrapPhase::Halted);
    let expected: &[u8] = b"AetherNxt Booted\r\n\
        [OK] AetherNxt Booted\r\n\
        [OK] EL1 Online\r\n\
        [OK] UART Initialized\r\n\
        CurrentEL = 1\r\n\
        \r\n=== EXCEPTION ===\r\n\
        ESR_EL1 = 0x0000000056000000\r\n\
        \x20 EC  = 0x15 (SVC (Supervisor Call))\r\n\
        \x20 IL  = 1\r\n\
        \x20 ISS = 0x0\r\n\
        ELR_EL1 = 0x0000000000000000\r\n\
        FAR_EL1 = 0x0000000000000000\r\n";
    // the exception-class line reads exactly as decoded, and the block
    // is the last output: the core is halted
    assert_eq!(m.console.uart.tx, expected.to_vec());
}

// A non-zero core identifier at reset: no UART output, no kernel
// entry, for the lifetime of the run.
#[test]
fn secondary_core_never_outputs_and_never_enters_the_kernel() {
    let levels =
        [ExceptionLevel::El0, ExceptionLevel::El1, ExceptionLevel::El2, ExceptionLevel::El3];
    for core_id in [1_u64, 2, 3, 0x7f, 0xff] {
        for level in levels {
            let bss = vec![0x11_u8; 24];
            let mut m = Machine::at_reset(core_id, level, layout_with_bss(24), bss);
            let outcome = run_from_reset(&mut m);
            assert_eq!(outcome, RunOutcome::Parked);
            assert!(m.console.uart.tx.is_empty());
            assert_eq!(m.el, level);
            assert_eq!(m.bss, vec![0x11_u8; 24]);
            assert_eq!(m.phase, TrapPhase::Idle);
        }
    }
}

#[test]
fn boot_core_not_at_el2_keeps_its_level() {
    for level in [ExceptionLevel::El0, ExceptionLevel::El1, ExceptionLevel::El3] {
        let mut m = Machine::at_reset(0, level, layout_with_bss(8), vec![0xCC_u8; 8]);
        let outcome = boot(&mut m);
        assert_eq!(outcome, BootOutcome::KernelEntered);
        // no descent ran: the level and the EL2 control registers are
        // exactly as reset left them
        assert_eq!(m.el, level);
        assert_eq!(m.regs.cnthctl_el2, 0);
        assert_eq!(m.regs.hcr_el2, 0);
        assert_eq!(m.regs.spsr_el2, 0);
        assert_eq!(m.bss, vec![0_u8; 8]);
        assert_eq!(m.regs.vbar_el1 % 2048, 0);
    }
}
