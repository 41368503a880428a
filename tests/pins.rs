use arduino_uno_r4_wifi_rt::peripherals::pins::{
    get_pins, InputPin, OutputPin, PinStatus, PFS_INPUT, PFS_INPUT_PULLUP, PFS_OUTPUT,
    PWPR_ADDRESS, PWPR_LOCK, PWPR_UNLOCK,
};
use arduino_uno_r4_wifi_rt::peripherals::registers::RegisterFile;
use arduino_uno_r4_wifi_rt::peripherals::Peripherals;

const PORT1_PCNTR1: u32 = 0x4004_0020;
const PORT1_PCNTR2: u32 = 0x4004_0024;

fn pfs(port: u32, pin: u32) -> u32 {
    0x4004_0800 + 4 * (16 * port + pin)
}

#[test]
fn pins_are_handed_out_once() {
    let mut peripherals = Peripherals::new();
    assert!(get_pins(&mut peripherals).is_some());
    assert!(get_pins(&mut peripherals).is_none());
    assert!(get_pins(&mut peripherals).is_none());
}

#[test]
fn d13_output_high_then_toggled_is_not_high() {
    let mut peripherals = Peripherals::new();
    let mut regs = RegisterFile::new();
    let pins = get_pins(&mut peripherals).unwrap();
    let mut led = pins.d13.into_output(&mut regs);
    led.set_high(&mut regs);
    assert!(led.is_set_high(&regs));
    led.toggle(&mut regs);
    assert!(!led.is_set_high(&regs));
}

#[test]
fn d10_input_pullup_reports_pullup_and_low_is_not_high() {
    let mut peripherals = Peripherals::new();
    let mut regs = RegisterFile::new();
    let pins = get_pins(&mut peripherals).unwrap();
    let d10 = pins.d10.into_input_pullup(&mut regs);
    assert!(d10.is_input_pullup());
    assert_eq!(regs.read(pfs(1, 3)), PFS_INPUT_PULLUP);

    regs.set_by_hardware(PORT1_PCNTR2, 1 << 3);
    assert!(d10.is_high(&regs));
    assert!(!d10.is_low(&regs));
    assert_eq!(d10.get_status(&regs), PinStatus::High);

    regs.set_by_hardware(PORT1_PCNTR2, !(1u32 << 3));
    assert!(!d10.is_high(&regs));
    assert!(d10.is_low(&regs));
    assert_eq!(d10.get_status(&regs), PinStatus::Low);
}

#[test]
fn plain_input_has_no_pullup() {
    let mut peripherals = Peripherals::new();
    let mut regs = RegisterFile::new();
    let pins = get_pins(&mut peripherals).unwrap();
    let d10 = pins.d10.into_input(&mut regs);
    assert!(!d10.is_input_pullup());
    assert_eq!(regs.read(pfs(1, 3)), PFS_INPUT);
    assert!(d10.is_low(&regs));
}

#[test]
fn toggle_twice_restores_the_level() {
    let mut peripherals = Peripherals::new();
    let mut regs = RegisterFile::new();
    let pins = get_pins(&mut peripherals).unwrap();
    let mut led = pins.d13.into_output(&mut regs);
    for high in [false, true] {
        led.set(&mut regs, if high { PinStatus::High } else { PinStatus::Low });
        let before = regs.read(PORT1_PCNTR1);
        led.toggle(&mut regs);
        assert_eq!(led.is_set_high(&regs), !high);
        led.toggle(&mut regs);
        assert_eq!(led.is_set_high(&regs), high);
        assert_eq!(regs.read(PORT1_PCNTR1), before);
    }
}

#[test]
fn output_drives_the_upper_half_of_pcntr1() {
    let mut peripherals = Peripherals::new();
    let mut regs = RegisterFile::new();
    let pins = get_pins(&mut peripherals).unwrap();
    regs.set_by_hardware(PORT1_PCNTR1, 0x0000_00ff);
    let mut led = pins.d13.into_output(&mut regs);
    led.set_high(&mut regs);
    assert_eq!(regs.read(PORT1_PCNTR1), 0x0004_00ff);
    led.set_low(&mut regs);
    assert_eq!(regs.read(PORT1_PCNTR1), 0x0000_00ff);
    led.set(&mut regs, PinStatus::High);
    assert_eq!(regs.read(PORT1_PCNTR1), 0x0004_00ff);
    led.set(&mut regs, PinStatus::Low);
    assert!(!led.is_set_high(&regs));
}

#[test]
fn configuration_is_bracketed_by_unlock_and_lock() {
    let mut peripherals = Peripherals::new();
    let mut regs = RegisterFile::new();
    let pins = get_pins(&mut peripherals).unwrap();
    let _led = pins.d13.into_output(&mut regs);
    let expected = vec![
        (PWPR_ADDRESS, 0),
        (PWPR_ADDRESS, PWPR_UNLOCK),
        (pfs(1, 2), PFS_OUTPUT),
        (PWPR_ADDRESS, 0),
        (PWPR_ADDRESS, PWPR_LOCK),
    ];
    assert_eq!(regs.write_log(), &expected);
    assert_eq!(regs.read(PWPR_ADDRESS), 0x80);
    assert_eq!(regs.read(0x4004_0848), 0x04);
}

#[test]
fn forgetting_the_configuration_keeps_the_pin() {
    let mut peripherals = Peripherals::new();
    let mut regs = RegisterFile::new();
    let pins = get_pins(&mut peripherals).unwrap();
    let unknown = pins.d13.into_unknown();
    assert!(regs.write_log().is_empty());
    let _input = unknown.into_input(&mut regs);
    assert_eq!(regs.write_log()[2], (pfs(1, 2), PFS_INPUT));
}

#[test]
fn board_pins_are_wired_to_their_physical_pins() {
    let mut peripherals = Peripherals::new();
    let mut regs = RegisterFile::new();
    let p = get_pins(&mut peripherals).unwrap();
    let outputs = [
        (p.d0.into_output(&mut regs), 3, 1),
        (p.d1.into_output(&mut regs), 3, 2),
        (p.d2.into_output(&mut regs), 1, 4),
        (p.d3.into_output(&mut regs), 1, 5),
        (p.d4.into_output(&mut regs), 1, 6),
        (p.d5.into_output(&mut regs), 1, 7),
        (p.d6.into_output(&mut regs), 1, 11),
        (p.d7.into_output(&mut regs), 1, 12),
        (p.d8.into_output(&mut regs), 3, 4),
        (p.d9.into_output(&mut regs), 3, 3),
        (p.d10.into_output(&mut regs), 1, 3),
        (p.d11.into_output(&mut regs), 4, 11),
        (p.d12.into_output(&mut regs), 4, 10),
        (p.d13.into_output(&mut regs), 1, 2),
        (p.a0.into_output(&mut regs), 0, 14),
        (p.a1.into_output(&mut regs), 0, 0),
        (p.a2.into_output(&mut regs), 0, 1),
        (p.a3.into_output(&mut regs), 0, 2),
        (p.a4.into_output(&mut regs), 1, 1),
        (p.a5.into_output(&mut regs), 1, 0),
    ];
    for (i, (_, port, pin)) in outputs.iter().enumerate() {
        assert_eq!(regs.write_log()[5 * i + 2], (pfs(*port, *pin), PFS_OUTPUT));
    }
    for (mut out, port, pin) in outputs {
        out.set_high(&mut regs);
        let pcntr1 = 0x4004_0000 + 0x20 * port;
        assert_ne!(regs.read(pcntr1) & (1 << (pin + 16)), 0);
    }
}
