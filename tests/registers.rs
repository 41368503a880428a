use arduino_uno_r4_wifi_rt::peripherals::registers::{Register, RegisterFile, VolatileBoolOps};

#[test]
fn unwritten_register_reads_zero() {
    let regs = RegisterFile::new();
    assert_eq!(regs.read(0x1000), 0);
    assert!(regs.write_log().is_empty());
}

#[test]
fn word_operations_combine_with_the_old_value() {
    let mut regs = RegisterFile::new();
    let r = Register { address: 0x1000 };
    regs.write(0x1000, 0b1100);
    VolatileBoolOps::<u32>::volatile_or(r, &mut regs, 0b0110);
    assert_eq!(regs.read(0x1000), 0b1110);
    VolatileBoolOps::<u32>::volatile_and(r, &mut regs, 0b0011);
    assert_eq!(regs.read(0x1000), 0b0010);
    VolatileBoolOps::<u32>::volatile_xor(r, &mut regs, 0b1010);
    assert_eq!(regs.read(0x1000), 0b1000);
    assert_eq!(
        regs.write_log(),
        &vec![(0x1000, 0b1100), (0x1000, 0b1110), (0x1000, 0b0010), (0x1000, 0b1000)]
    );
}

#[test]
fn narrow_operations_act_on_their_width() {
    let mut regs = RegisterFile::new();
    let r = Register { address: 0x2000 };
    regs.set_by_hardware(0x2000, 0xffff_ff0f);
    VolatileBoolOps::<u8>::volatile_or(r, &mut regs, 0x30u8);
    assert_eq!(regs.read(0x2000), 0x3f);
    regs.set_by_hardware(0x2000, 0xffff_f0f0);
    VolatileBoolOps::<u16>::volatile_xor(r, &mut regs, 0x0ff0u16);
    assert_eq!(regs.read(0x2000), 0xff00);
    VolatileBoolOps::<u16>::volatile_and(r, &mut regs, 0x0f00u16);
    assert_eq!(regs.read(0x2000), 0x0f00);
    VolatileBoolOps::<u8>::volatile_and(r, &mut regs, 0xffu8);
    assert_eq!(regs.read(0x2000), 0x00);
    VolatileBoolOps::<u8>::volatile_xor(r, &mut regs, 0x81u8);
    assert_eq!(regs.read(0x2000), 0x81);
    VolatileBoolOps::<u16>::volatile_or(r, &mut regs, 0x8000u16);
    assert_eq!(regs.read(0x2000), 0x8081);
}

#[test]
fn read_and_clear_clears_only_the_mask() {
    let mut regs = RegisterFile::new();
    regs.set_by_hardware(0x3000, 0x1_0005);
    assert_eq!(regs.read_and_clear(0x3000, 0x1_0000), 0x1_0005);
    assert_eq!(regs.read(0x3000), 0x5);
    assert!(regs.write_log().is_empty());
}
