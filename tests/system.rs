use teensy::bits::{clear_bit16, filled, set_bit, write_field};
use teensy::sim::{Clock, Sim, SimRegister};
use teensy::watchdog::{disable_write, unlock_sequence, Watchdog, WatchdogOp, WatchdogRegister};

#[test]
fn enable_clock_sets_one_bit_from_zero() {
    let mut sim = Sim::new();
    sim.enable_clock(Clock::PortC);
    assert_eq!(sim.read(SimRegister::Scgc5), 0x0000_0800);
    assert_eq!(sim.read(SimRegister::Scgc4), 0);
    assert_eq!(sim.read(SimRegister::Scgc6), 0);
}

#[test]
fn enable_clock_sets_one_bit_from_all_ones() {
    let mut sim = Sim::new();
    sim.write(SimRegister::Scgc5, 0xFFFF_FFFF);
    sim.enable_clock(Clock::PortC);
    assert_eq!(sim.read(SimRegister::Scgc5), 0xFFFF_FFFF);
}

#[test]
fn enable_clock_keeps_other_gates_and_is_idempotent() {
    let mut sim = Sim::new();
    sim.write(SimRegister::Scgc5, 0x0004_0182);
    sim.write(SimRegister::Scgc6, 0x1234_5678);
    sim.enable_clock(Clock::PortC);
    assert_eq!(sim.read(SimRegister::Scgc5), 0x0004_0982);
    sim.enable_clock(Clock::PortC);
    assert_eq!(sim.read(SimRegister::Scgc5), 0x0004_0982);
    assert_eq!(sim.read(SimRegister::Scgc6), 0x1234_5678);
}

#[test]
fn sim_addresses_follow_the_map() {
    assert_eq!(SimRegister::Sopt1.address(), 0x4004_7000);
    assert_eq!(SimRegister::Sopt2.address(), 0x4004_8004);
    assert_eq!(SimRegister::Sdid.address(), 0x4004_8024);
    assert_eq!(SimRegister::Scgc5.address(), 0x4004_8038);
    assert_eq!(SimRegister::Uidl.address(), 0x4004_8060);
    assert_eq!(Clock::PortC.register(), SimRegister::Scgc5);
    assert_eq!(Clock::PortC.bit(), 11);
}

#[test]
fn watchdog_disable_unlocks_then_clears_enable_bit() {
    let mut wdog = Watchdog::new();
    wdog.write(WatchdogRegister::Stctrlh, 0x01D3);
    wdog.disable();
    assert_eq!(
        wdog.trace().clone(),
        vec![
            WatchdogOp::Write(WatchdogRegister::Stctrlh, 0x01D3),
            WatchdogOp::Write(WatchdogRegister::Unlock, 0xC520),
            WatchdogOp::Write(WatchdogRegister::Unlock, 0xD928),
            WatchdogOp::Wait,
            WatchdogOp::Wait,
            WatchdogOp::Write(WatchdogRegister::Stctrlh, 0x01D2),
        ]
    );
    assert_eq!(wdog.read(WatchdogRegister::Stctrlh), 0x01D2);
}

#[test]
fn watchdog_disable_preserves_upper_bits() {
    for ctrl in [0xFFFFu16, 0x0000, 0x8001, 0x7FFE] {
        let mut wdog = Watchdog::new();
        wdog.write(WatchdogRegister::Stctrlh, ctrl);
        wdog.write(WatchdogRegister::Presc, 0x0400);
        wdog.disable();
        assert_eq!(wdog.read(WatchdogRegister::Stctrlh), ctrl & 0xFFFE);
        assert_eq!(wdog.read(WatchdogRegister::Presc), 0x0400);
    }
}

#[test]
fn watchdog_addresses_follow_the_map() {
    assert_eq!(WatchdogRegister::Stctrlh.address(), 0x4005_2000);
    assert_eq!(WatchdogRegister::Unlock.address(), 0x4005_200E);
    assert_eq!(WatchdogRegister::Presc.address(), 0x4005_2016);
}

#[test]
fn write_field_replaces_only_the_field() {
    assert_eq!(write_field(0xFFFF_FFFF, 8, 3, 1), 0xFFFF_F9FF);
    assert_eq!(write_field(0, 8, 3, 7), 0x0000_0700);
    assert_eq!(write_field(0xABCD_EF01, 0, 4, 0xA), 0xABCD_EF0A);
    assert_eq!(write_field(0x0000_0000, 28, 4, 0xF), 0xF000_0000);
}

#[test]
fn set_and_clear_single_bits() {
    assert_eq!(set_bit(0, 11), 0x800);
    assert_eq!(set_bit(0x800, 11), 0x800);
    assert_eq!(set_bit(0, 31), 0x8000_0000);
    assert_eq!(clear_bit16(0xFFFF, 0), 0xFFFE);
    assert_eq!(clear_bit16(0xFFFE, 0), 0xFFFE);
    assert_eq!(clear_bit16(0x8000, 15), 0);
}

#[test]
fn filled_has_requested_length_and_value() {
    assert_eq!(filled(0, 0u32), Vec::<u32>::new());
    assert_eq!(filled(3, 0u32), vec![0, 0, 0]);
    assert_eq!(filled(2, 0xABCDu16), vec![0xABCD, 0xABCD]);
}

#[test]
fn blocks_lie_at_their_bases() {
    let sim = Sim::new();
    assert_eq!(sim.base(), 0x4004_7000);
    assert_eq!(sim.register_address(SimRegister::Scgc5), 0x4004_8038);
    let wdog = Watchdog::new();
    assert_eq!(wdog.base(), 0x4005_2000);
    assert_eq!(wdog.register_address(WatchdogRegister::Unlock), 0x4005_200E);
}

#[test]
fn unlock_sequence_and_disable_write() {
    assert_eq!(
        unlock_sequence(),
        vec![
            WatchdogOp::Write(WatchdogRegister::Unlock, 0xC520),
            WatchdogOp::Write(WatchdogRegister::Unlock, 0xD928),
            WatchdogOp::Wait,
            WatchdogOp::Wait,
        ]
    );
    assert_eq!(disable_write(0x01D3), WatchdogOp::Write(WatchdogRegister::Stctrlh, 0x01D2));
    assert_eq!(disable_write(0xFFFF), WatchdogOp::Write(WatchdogRegister::Stctrlh, 0xFFFE));
}

#[test]
fn apply_carries_out_one_step() {
    let mut wdog = Watchdog::new();
    wdog.apply(WatchdogOp::Write(WatchdogRegister::Tovall, 0x4B4C));
    wdog.apply(WatchdogOp::Wait);
    assert_eq!(wdog.read(WatchdogRegister::Tovall), 0x4B4C);
    assert_eq!(wdog.trace().len(), 2);
}
