use arduino_uno_r4_wifi_rt::peripherals::registers::RegisterFile;
use arduino_uno_r4_wifi_rt::peripherals::systick::SysTick;
use arduino_uno_r4_wifi_rt::peripherals::Peripherals;

const CSR: u32 = 0xe000_e010;
const RVR: u32 = 0xe000_e014;
const CVR: u32 = 0xe000_e018;
const CALIB: u32 = 0xe000_e01c;

#[test]
fn systick_is_handed_out_once() {
    let mut peripherals = Peripherals::new();
    let first = SysTick::instance(&mut peripherals);
    assert!(first.is_some());
    assert!(!first.unwrap().is_enabled());
    assert!(SysTick::instance(&mut peripherals).is_none());
    assert!(SysTick::instance(&mut peripherals).is_none());
}

#[test]
fn systick_and_pins_are_taken_independently() {
    let mut peripherals = Peripherals::new();
    assert!(SysTick::instance(&mut peripherals).is_some());
    assert!(arduino_uno_r4_wifi_rt::peripherals::pins::get_pins(&mut peripherals).is_some());
    assert!(SysTick::instance(&mut peripherals).is_none());
}

#[test]
fn reset_value_keeps_the_lower_24_bits() {
    let mut peripherals = Peripherals::new();
    let mut regs = RegisterFile::new();
    let mut timer = SysTick::instance(&mut peripherals).unwrap();
    for (v, expected) in [
        (0xffff_ffffu32, 0x00ff_ffffu32),
        (0x1234_5678, 0x0034_5678),
        (0, 0),
        (0x00ff_ffff, 0x00ff_ffff),
        (0x0100_0000, 0),
    ] {
        timer.set_reset_value(&mut regs, v);
        assert_eq!(timer.get_reset_value(&regs), expected);
        assert_eq!(regs.read(RVR), expected);
    }
}

#[test]
fn enable_and_disable_drive_bit_zero() {
    let mut peripherals = Peripherals::new();
    let mut regs = RegisterFile::new();
    let mut timer = SysTick::instance(&mut peripherals).unwrap();
    regs.set_by_hardware(CSR, 0x4);
    timer.enable(&mut regs);
    assert!(timer.is_enabled());
    assert_eq!(regs.read(CSR), 0x5);
    assert_eq!(regs.write_log(), &vec![(CSR, 0x5)]);
    timer.disable(&mut regs);
    assert!(!timer.is_enabled());
    assert_eq!(regs.read(CSR), 0x4);
}

#[test]
fn wrap_flag_is_reported_once() {
    let mut peripherals = Peripherals::new();
    let mut regs = RegisterFile::new();
    let mut timer = SysTick::instance(&mut peripherals).unwrap();
    timer.enable(&mut regs);
    assert!(!timer.timer_wrapped(&mut regs));
    regs.set_by_hardware(CSR, 0x1_0001);
    assert!(timer.timer_wrapped(&mut regs));
    assert!(!timer.timer_wrapped(&mut regs));
    assert_eq!(regs.read(CSR), 0x1);
}

#[test]
fn ticks_per_10ms_masks_the_calibration_value() {
    let mut peripherals = Peripherals::new();
    let mut regs = RegisterFile::new();
    let timer = SysTick::instance(&mut peripherals).unwrap();
    regs.set_by_hardware(CALIB, 0xc000_bb80);
    assert_eq!(timer.get_ticks_per_10ms(&regs), 0xbb80);
}

#[test]
fn reset_clears_the_current_value() {
    let mut peripherals = Peripherals::new();
    let mut regs = RegisterFile::new();
    let mut timer = SysTick::instance(&mut peripherals).unwrap();
    regs.set_by_hardware(CVR, 1234);
    assert_eq!(timer.get_current_value(&regs), 1234);
    timer.reset(&mut regs);
    assert_eq!(timer.get_current_value(&regs), 0);
    assert_eq!(regs.write_log(), &vec![(CVR, 0)]);
}

#[test]
fn enable_clears_a_stale_wrap_flag() {
    let mut peripherals = Peripherals::new();
    let mut regs = RegisterFile::new();
    let mut timer = SysTick::instance(&mut peripherals).unwrap();
    regs.set_by_hardware(CSR, 0x1_0000);
    timer.enable(&mut regs);
    assert_eq!(regs.read(CSR), 0x1);
    assert!(!timer.timer_wrapped(&mut regs));
}

#[test]
fn disable_clears_a_stale_wrap_flag() {
    let mut peripherals = Peripherals::new();
    let mut regs = RegisterFile::new();
    let mut timer = SysTick::instance(&mut peripherals).unwrap();
    timer.enable(&mut regs);
    regs.set_by_hardware(CSR, 0x1_0001);
    timer.disable(&mut regs);
    assert_eq!(regs.read(CSR), 0x0);
    assert!(!timer.timer_wrapped(&mut regs));
}
