use aethernxt::console::Console;
use aethernxt::uart::Uart;
use aethernxt::vectors::Stub;
use aethernxt::vectors::TrapKind;
use aethernxt::vectors::TrapPhase;
use aethernxt::vectors::TrapSource;
use aethernxt::vectors::VectorTable;
use aethernxt::vectors::advance_phase;
use aethernxt::vectors::decode_ec;
use aethernxt::vectors::rust_exception_handler;
use aethernxt::vectors::run_stub;
use aethernxt::vectors::slot_address;
use aethernxt::vectors::slot_offset;

const SOURCES: [TrapSource; 4] = [
    TrapSource::CurrentSp0,
    TrapSource::CurrentSpx,
    TrapSource::LowerAarch64,
    TrapSource::LowerAarch32,
];

const KINDS: [TrapKind; 4] =
    [TrapKind::Synchronous, TrapKind::Irq, TrapKind::Fiq, TrapKind::SError];

#[test]
fn decode_ec_labels() {
    assert_eq!(decode_ec(0x15), "SVC (Supervisor Call)");
    assert_eq!(decode_ec(0x20), "Instruction Abort (Lower EL)");
    assert_eq!(decode_ec(0x21), "Instruction Abort (Current EL)");
    assert_eq!(decode_ec(0x24), "Data Abort (Lower EL)");
    assert_eq!(decode_ec(0x25), "Data Abort (Current EL)");
    assert_eq!(decode_ec(0x3f), "Unknown");
    assert_eq!(decode_ec(0), "Unknown");
    assert_eq!(decode_ec(u64::MAX), "Unknown");
}

#[test]
fn every_slot_lands_in_the_stub_of_its_kind() {
    let table = VectorTable::build();
    assert_eq!(table.slots.len(), 16);
    for source in SOURCES {
        for kind in KINDS {
            let stub = table.dispatch(source, kind);
            let expected = match kind {
                TrapKind::Synchronous => Stub::Sync,
                TrapKind::Irq => Stub::Irq,
                TrapKind::Fiq => Stub::Fiq,
                TrapKind::SError => Stub::SErr,
            };
            assert_eq!(stub, expected);
        }
    }
}

#[test]
fn slot_offsets_are_the_hardware_layout() {
    let mut expected: u64 = 0;
    for source in SOURCES {
        for kind in KINDS {
            let off = slot_offset(source, kind);
            assert_eq!(off, expected);
            assert_eq!(off % 128, 0);
            assert!(off < 2048);
            expected += 0x80;
        }
    }
}

#[test]
fn slot_addresses_follow_the_installed_base() {
    let base: u64 = 0x100000;
    assert_eq!(slot_address(base, TrapSource::CurrentSp0, TrapKind::Synchronous), 0x100000);
    assert_eq!(slot_address(base, TrapSource::CurrentSpx, TrapKind::Synchronous), 0x100200);
    assert_eq!(slot_address(base, TrapSource::LowerAarch64, TrapKind::Fiq), 0x100500);
    assert_eq!(slot_address(base, TrapSource::LowerAarch32, TrapKind::SError), 0x100780);
}

#[test]
fn supervisor_call_while_at_el1_lands_in_the_spx_sync_slot() {
    let table = VectorTable::build();
    assert_eq!(slot_offset(TrapSource::CurrentSpx, TrapKind::Synchronous), 0x200);
    assert_eq!(table.dispatch(TrapSource::CurrentSpx, TrapKind::Synchronous), Stub::Sync);
}

#[test]
fn reporter_renders_the_svc_diagnostic() {
    let mut c = Console { uart: Uart::at_reset() };
    let _halt = rust_exception_handler(&mut c, 0x56000000, 0, 0);
    let expected: &[u8] = b"\r\n=== EXCEPTION ===\r\n\
        ESR_EL1 = 0x0000000056000000\r\n\
        \x20 EC  = 0x15 (SVC (Supervisor Call))\r\n\
        \x20 IL  = 1\r\n\
        \x20 ISS = 0x0\r\n\
        ELR_EL1 = 0x0000000000000000\r\n\
        FAR_EL1 = 0x0000000000000000\r\n";
    assert_eq!(c.uart.tx, expected.to_vec());
}

#[test]
fn reporter_never_fails_on_unknown_class() {
    let mut c = Console { uart: Uart::at_reset() };
    // every class field bit set: not in the table
    let esr = 0x3f_u64 << 26;
    let _halt = rust_exception_handler(&mut c, esr, 0x1234, 0xfeed);
    let expected: &[u8] = b"\r\n=== EXCEPTION ===\r\n\
        ESR_EL1 = 0x00000000fc000000\r\n\
        \x20 EC  = 0x3f (Unknown)\r\n\
        \x20 IL  = 0\r\n\
        \x20 ISS = 0x0\r\n\
        ELR_EL1 = 0x0000000000001234\r\n\
        FAR_EL1 = 0x000000000000feed\r\n";
    assert_eq!(c.uart.tx, expected.to_vec());
}

#[test]
fn all_four_stubs_run_the_reporter() {
    for stub in [Stub::Sync, Stub::Irq, Stub::Fiq, Stub::SErr] {
        let mut c = Console { uart: Uart::at_reset() };
        let _halt = run_stub(&mut c, stub, 0x96000000, 0, 0x80000);
        assert!(c.uart.tx.starts_with(b"\r\n=== EXCEPTION ===\r\n"));
        let text = String::from_utf8(c.uart.tx.clone()).unwrap();
        assert!(text.contains("0x25 (Data Abort (Current EL))"));
    }
}

#[test]
fn trap_lifecycle_runs_to_halt_and_stays_there() {
    let trapped = TrapPhase::Trapped(0x15);
    let reporting = advance_phase(trapped);
    assert_eq!(reporting, TrapPhase::Reporting(0x15));
    let halted = advance_phase(reporting);
    assert_eq!(halted, TrapPhase::Halted);
    assert_eq!(advance_phase(halted), TrapPhase::Halted);
    assert_eq!(advance_phase(TrapPhase::Idle), TrapPhase::Idle);
}
