use teensy::port::{
    mux_update, GpioBitband, GpioRegister, GpioWrite, Gpio, PinConfigError, Port, PortName,
    GPIOC_BITBAND_BASE, PORTC_BASE,
};

fn port_with_all_pins(value: u32) -> Port {
    let mut port = Port::new(PortName::C);
    for p in 0..32 {
        port.write_pcr(p, value);
    }
    port
}

#[test]
fn set_pin_mode_changes_only_mux_bits_from_all_ones() {
    for mode in 0..8u32 {
        let mut port = port_with_all_pins(0xFFFF_FFFF);
        assert_eq!(port.set_pin_mode(7, mode), Ok(()));
        assert_eq!(port.pcr(7), 0xFFFF_F8FF | (mode << 8));
        assert_eq!(port.pcr(6), 0xFFFF_FFFF);
        assert_eq!(port.pcr(8), 0xFFFF_FFFF);
    }
}

#[test]
fn set_pin_mode_changes_only_mux_bits_from_zero() {
    for mode in 0..8u32 {
        let mut port = port_with_all_pins(0);
        assert_eq!(port.set_pin_mode(0, mode), Ok(()));
        assert_eq!(port.pcr(0), mode << 8);
        assert_eq!(port.pcr(1), 0);
    }
}

#[test]
fn set_pin_mode_keeps_other_fields() {
    let mut port = Port::new(PortName::C);
    port.write_pcr(12, 0x000A_0543);
    assert_eq!(port.set_pin_mode(12, 1), Ok(()));
    assert_eq!(port.pcr(12), 0x000A_0143);
}

#[test]
fn set_pin_mode_rejects_mode_above_seven() {
    for mode in [8u32, 9, 0x100, u32::MAX] {
        let mut port = port_with_all_pins(0x1234_5678);
        assert_eq!(port.set_pin_mode(3, mode), Err(PinConfigError::ModeOutOfRange));
        for p in 0..32 {
            assert_eq!(port.pcr(p), 0x1234_5678);
        }
    }
}

#[test]
fn set_pin_mode_rejects_pin_out_of_range() {
    let mut port = port_with_all_pins(0xFFFF_FFFF);
    assert_eq!(port.set_pin_mode(32, 1), Err(PinConfigError::PinOutOfRange));
    assert_eq!(port.set_pin_mode(usize::MAX, 9), Err(PinConfigError::PinOutOfRange));
    for p in 0..32 {
        assert_eq!(port.pcr(p), 0xFFFF_FFFF);
    }
}

#[test]
fn port_name_resolves_from_known_base() {
    assert_eq!(PortName::C.base_address(), 0x4004_B000);
    assert_eq!(PortName::from_address(PORTC_BASE), Some(PortName::C));
    assert_eq!(Port::new(PortName::C).name(), PortName::C);
    let port = Port::at_address(0x4004_B000).unwrap();
    assert_eq!(port.name(), PortName::C);
}

#[test]
fn port_name_fails_on_other_addresses() {
    for addr in [0u32, 0x4004_B004, 0x4004_AFFC, 0x4004_C000, 0x43FE_1000, u32::MAX] {
        assert_eq!(PortName::from_address(addr), None);
        assert!(Port::at_address(addr).is_none());
    }
}

#[test]
fn pcr_addresses_follow_the_map() {
    let port = Port::new(PortName::C);
    assert_eq!(port.pcr_address(0), 0x4004_B000);
    assert_eq!(port.pcr_address(5), 0x4004_B014);
    assert_eq!(port.pcr_address(31), 0x4004_B07C);
}

#[test]
fn pin_rejects_index_out_of_range() {
    let port = Port::new(PortName::C);
    assert!(port.pin(0).is_some());
    assert!(port.pin(31).is_some());
    assert!(port.pin(32).is_none());
}

#[test]
fn make_gpio_selects_gpio_mode() {
    let mut port = port_with_all_pins(0xFFFF_FFFF);
    let pin = port.pin(5).unwrap();
    let gpio = pin.make_gpio(&mut port);
    assert_eq!(port.pcr(5), 0xFFFF_F9FF);
    assert_eq!(port.pcr(4), 0xFFFF_FFFF);
    assert_eq!(port.pcr(6), 0xFFFF_FFFF);
    let mut bank = GpioBitband::new(PortName::C);
    gpio.output(&mut bank);
    assert_eq!(bank.read(GpioRegister::Pddr, 5), 1);
    assert_eq!(bank.read(GpioRegister::Pddr, 4), 0);
}

#[test]
fn output_then_high_touches_only_its_pin() {
    for n in [0usize, 5, 31] {
        let mut bank = GpioBitband::new(PortName::C);
        let gpio = Gpio::new(PortName::C, n);
        gpio.output(&mut bank);
        gpio.high(&mut bank);
        for reg in [
            GpioRegister::Pdor,
            GpioRegister::Psor,
            GpioRegister::Pcor,
            GpioRegister::Ptor,
            GpioRegister::Pdir,
            GpioRegister::Pddr,
        ] {
            for p in 0..32 {
                let expected = if p == n && (reg == GpioRegister::Pddr || reg == GpioRegister::Pdor) {
                    1
                } else {
                    0
                };
                assert_eq!(bank.read(reg, p), expected);
            }
        }
        assert_eq!(
            bank.writes().clone(),
            vec![
                GpioWrite { register: GpioRegister::Pddr, pin: n, value: 1 },
                GpioWrite { register: GpioRegister::Psor, pin: n, value: 1 },
            ]
        );
    }
}

#[test]
fn output_keeps_neighbour_directions() {
    let mut bank = GpioBitband::new(PortName::C);
    bank.write(GpioRegister::Pddr, 4, 1);
    bank.write(GpioRegister::Pddr, 6, 0);
    Gpio::new(PortName::C, 5).output(&mut bank);
    assert_eq!(bank.read(GpioRegister::Pddr, 4), 1);
    assert_eq!(bank.read(GpioRegister::Pddr, 5), 1);
    assert_eq!(bank.read(GpioRegister::Pddr, 6), 0);
}

#[test]
fn high_then_low_drives_the_data_word() {
    let mut bank = GpioBitband::new(PortName::C);
    bank.write(GpioRegister::Pdor, 8, 1);
    bank.write(GpioRegister::Pdor, 10, 1);
    let gpio = Gpio::new(PortName::C, 9);
    gpio.high(&mut bank);
    assert_eq!(bank.read(GpioRegister::Pdor, 9), 1);
    assert_eq!(bank.read(GpioRegister::Psor, 9), 0);
    gpio.low(&mut bank);
    assert_eq!(bank.read(GpioRegister::Pdor, 9), 0);
    assert_eq!(bank.read(GpioRegister::Pcor, 9), 0);
    assert_eq!(bank.read(GpioRegister::Pdor, 8), 1);
    assert_eq!(bank.read(GpioRegister::Pdor, 10), 1);
    assert_eq!(
        bank.writes()[2..].to_vec(),
        vec![
            GpioWrite { register: GpioRegister::Psor, pin: 9, value: 1 },
            GpioWrite { register: GpioRegister::Pcor, pin: 9, value: 1 },
        ]
    );
}

#[test]
fn toggle_flips_and_zero_writes_do_nothing() {
    let mut bank = GpioBitband::new(PortName::C);
    bank.write(GpioRegister::Ptor, 3, 1);
    assert_eq!(bank.read(GpioRegister::Pdor, 3), 1);
    assert_eq!(bank.read(GpioRegister::Ptor, 3), 0);
    bank.write(GpioRegister::Ptor, 3, 3);
    assert_eq!(bank.read(GpioRegister::Pdor, 3), 0);
    bank.write(GpioRegister::Psor, 3, 2);
    assert_eq!(bank.read(GpioRegister::Pdor, 3), 0);
    bank.write(GpioRegister::Pdir, 3, 1);
    assert_eq!(bank.read(GpioRegister::Pdir, 3), 0);
    bank.write(GpioRegister::Pddr, 3, 0xFFFF_FFFF);
    assert_eq!(bank.read(GpioRegister::Pddr, 3), 1);
    assert_eq!(bank.writes().len(), 5);
}

#[test]
fn mux_update_gives_the_new_register_value() {
    assert_eq!(mux_update(0xFFFF_FFFF, 5, 1), Ok(0xFFFF_F9FF));
    assert_eq!(mux_update(0, 0, 7), Ok(0x0000_0700));
    assert_eq!(mux_update(0x000A_0543, 31, 0), Ok(0x000A_0043));
    assert_eq!(mux_update(0, 5, 8), Err(PinConfigError::ModeOutOfRange));
    assert_eq!(mux_update(0, 32, 1), Err(PinConfigError::PinOutOfRange));
    assert_eq!(mux_update(0, 32, 8), Err(PinConfigError::PinOutOfRange));
}

#[test]
fn bitband_word_addresses_follow_the_map() {
    let bank = GpioBitband::new(PortName::C);
    assert_eq!(PortName::C.bitband_address(), GPIOC_BITBAND_BASE);
    assert_eq!(bank.word_address(GpioRegister::Pdor, 0), 0x43FE_1000);
    assert_eq!(bank.word_address(GpioRegister::Psor, 5), 0x43FE_1094);
    assert_eq!(bank.word_address(GpioRegister::Pcor, 0), 0x43FE_1100);
    assert_eq!(bank.word_address(GpioRegister::Pddr, 5), 0x43FE_1294);
    assert_eq!(bank.word_address(GpioRegister::Pddr, 31), 0x43FE_12FC);
    assert_eq!(PortName::C.bitband_word_address(GpioRegister::Psor, 5), 0x43FE_1094);
    assert_eq!(PortName::C.pcr_address(5), 0x4004_B014);
}
