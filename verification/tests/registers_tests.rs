use emu8080::registers::{Flags, Registers};

#[test]
fn test_get_registry_pair() {
    let mut registers = Registers::new();
    let left = 0b10101010;
    let right = 0b01010101;
    let result = 0b1010101001010101;
    registers.h = left;
    registers.l = right;
    assert_eq!(registers.get_hl(), result);

    registers.d = left;
    registers.e = right;
    assert_eq!(registers.get_de(), result);

    registers.b = left;
    registers.c = right;
    assert_eq!(registers.get_bc(), result)
}

#[test]
fn registers_test_set_zero_flag() {
    let mut flags = Flags::new();
    flags.set_all(123);
    assert!(!flags.zero);

    flags.set_all(0);
    assert!(flags.zero);
}

#[test]
fn registers_test_set_sign_flag() {
    let mut flags = Flags::new();
    flags.set_all(0b10011001);
    assert!(flags.sign);

    flags.set_all(0b01011001);
    assert!(!flags.sign)
}

#[test]
fn test_set_parity_flag() {
    let mut flags = Flags::new();
    flags.set_all(0b10011001);
    assert!(flags.parity);

    flags.set_all(0b10011101);
    assert!(!flags.parity);
}

#[test]
fn test_set_carry_flag() {
    let mut flags = Flags::new();
    flags.set_all(0b110011001);
    assert!(flags.carry);
}

#[test]
fn test_set_pair_splits_bytes() {
    let mut registers = Registers::new();
    registers.set_hl(0xd51a);
    assert_eq!(registers.h, 0xd5);
    assert_eq!(registers.l, 0x1a);
    registers.set_de(0x0102);
    assert_eq!(registers.d, 0x01);
    assert_eq!(registers.e, 0x02);
    registers.set_bc(0xff00);
    assert_eq!(registers.b, 0xff);
    assert_eq!(registers.c, 0x00);
}

#[test]
fn test_single_registry_flags_keep_carry() {
    let mut flags = Flags::new();
    flags.carry = true;
    flags.set_single_registry_operation_flags(0);
    assert!(flags.zero);
    assert!(flags.carry);

    flags.carry = false;
    flags.set_single_registry_operation_flags(0x80);
    assert!(flags.sign);
    assert!(!flags.carry);
}

#[test]
fn test_set_carry_on_double() {
    let mut flags = Flags::new();
    flags.set_carry_on_double(0x10001);
    assert!(flags.carry);
    flags.set_carry_on_double(0xffff);
    assert!(!flags.carry);
}
