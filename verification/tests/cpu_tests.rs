use emu8080::cpu::Cpu;
use emu8080::memory::Memory;

fn create_test_cpu(input: Vec<u8>) -> Cpu {
    let memory = Memory::new(input);
    Cpu::new(memory)
}

#[test]
fn test_transfer_register() {
    let mut cpu = create_test_cpu(vec![0x50]);
    let result = 8;
    cpu.registers.d = 12;
    cpu.registers.b = result;
    cpu.emulate().unwrap();
    assert_eq!(cpu.registers.d, result)
}

#[test]
fn test_transfer_same_register() {
    let mut cpu = create_test_cpu(vec![0x49]);
    let result = 8;
    cpu.registers.c = result;
    cpu.emulate().unwrap();
    assert_eq!(cpu.registers.c, result);
    assert_ne!(cpu.registers.b, result)
}

#[test]
fn test_add() {
    let mut cpu = create_test_cpu(vec![0x81]);
    cpu.registers.acc = 8;
    cpu.registers.c = 12;
    cpu.emulate().unwrap();
    assert_eq!(cpu.registers.acc, 20)
}

#[test]
fn test_add_overflow() {
    let mut cpu = create_test_cpu(vec![0x81]);
    cpu.registers.acc = u8::max_value();
    cpu.registers.c = 1;
    cpu.emulate().unwrap();
    assert_eq!(cpu.registers.acc, 0);
    assert_eq!(cpu.flags.carry, true)
}

#[test]
fn test_add_with_carry() {
    let mut cpu = create_test_cpu(vec![0x8a]);
    cpu.registers.acc = 8;
    cpu.registers.d = 12;
    cpu.flags.carry = true;
    cpu.emulate().unwrap();
    assert_eq!(cpu.registers.acc, 21)
}

#[test]
fn cpu_test_set_zero_flag() {
    let mut cpu = create_test_cpu(vec![0x83]);
    cpu.registers.acc = 0;
    cpu.registers.e = 0;
    cpu.emulate().unwrap();
    assert_eq!(cpu.flags.zero, true)
}

#[test]
fn cpu_test_set_sign_flag() {
    let mut cpu = create_test_cpu(vec![0x83]);
    cpu.registers.acc = 0;
    cpu.registers.e = 10;
    cpu.flags.sign = true;
    cpu.emulate().unwrap();
    assert_eq!(cpu.flags.sign, false)
}

#[test]
fn test_subtraction() {
    let mut cpu = create_test_cpu(vec![0x97]);
    cpu.registers.acc = 0x3E;
    cpu.flags.carry = true;
    cpu.emulate().unwrap();
    assert_eq!(cpu.registers.acc, 0);
    assert_eq!(cpu.flags.carry, false)
}

#[test]
fn test_subtraction_with_carry() {
    let mut cpu = create_test_cpu(vec![0x98]);
    cpu.registers.acc = 10;
    cpu.registers.b = 3;
    cpu.flags.carry = true;
    cpu.emulate().unwrap();
    assert_eq!(cpu.registers.acc, 6);
    assert_eq!(cpu.flags.carry, false)
}

#[test]
fn test_sub_carry_flag() {
    let mut cpu = create_test_cpu(vec![0x90]);
    cpu.registers.acc = 2;
    cpu.registers.b = 3;
    cpu.flags.carry = false;
    cpu.emulate().unwrap();
    assert_eq!(cpu.flags.carry, true);
    assert_eq!(cpu.registers.acc, u8::max_value())
}

#[test]
fn test_logical_and() {
    let mut cpu = create_test_cpu(vec![0xa0]);
    cpu.registers.acc = 0b11111100;
    cpu.registers.b = 0b00001111;
    cpu.emulate().unwrap();
    assert_eq!(cpu.registers.acc, 0b00001100)
}

#[test]
fn test_logical_xor() {
    let mut cpu = create_test_cpu(vec![0xa9]);
    cpu.registers.acc = 0b01011100;
    cpu.registers.c = 0b01111000;
    cpu.emulate().unwrap();
    assert_eq!(cpu.registers.acc, 0b00100100)
}

#[test]
fn test_logical_or() {
    let mut cpu = create_test_cpu(vec![0xb2]);
    cpu.registers.acc = 0b11111100;
    cpu.registers.d = 0b00001111;
    cpu.emulate().unwrap();
    assert_eq!(cpu.registers.acc, 0b11111111)
}

#[test]
fn test_increment() {
    let mut cpu = create_test_cpu(vec![0x04]);
    cpu.registers.b = 1;
    cpu.emulate().unwrap();
    assert_eq!(cpu.registers.b, 2)
}

#[test]
fn test_decrement() {
    let mut cpu = create_test_cpu(vec![0x0d]);
    cpu.registers.c = 0;
    cpu.emulate().unwrap();
    assert_eq!(cpu.registers.c, 255);
    assert_eq!(cpu.flags.carry, false);
}

#[test]
fn test_load_acc() {
    let mut cpu = create_test_cpu(vec![0xb2]);
    cpu.registers.acc = 0b11111100;
    cpu.registers.d = 0b00001111;
    cpu.emulate().unwrap();
    assert_eq!(cpu.registers.acc, 0b11111111)
}

#[test]
fn test_rotate_left() {
    let mut cpu = create_test_cpu(vec![0x07]);
    cpu.registers.acc = 0b11110010;
    cpu.flags.carry = false;
    cpu.emulate().unwrap();
    assert_eq!(cpu.registers.acc, 0b11100101);
    assert_eq!(cpu.flags.carry, true);
}

#[test]
fn test_rotate_right() {
    let mut cpu = create_test_cpu(vec![0x0F]);
    cpu.registers.acc = 0b11110010;
    cpu.flags.carry = true;
    cpu.emulate().unwrap();
    assert_eq!(cpu.registers.acc, 0b01111001);
    assert_eq!(cpu.flags.carry, false);
}

#[test]
fn test_push_on_stack() {
    let mut cpu = create_test_cpu(vec![0x00, 0xc5]);
    cpu.stack_pointer = 2;
    cpu.registers.b = 12;
    cpu.registers.c = 18;
    cpu.emulate().unwrap();
    assert_eq!(cpu.memory.fetch_byte_at_offset(1), 12);
    assert_eq!(cpu.memory.fetch_byte_at_offset(0), 18);
    assert_eq!(cpu.stack_pointer, 0);
}

#[test]
fn test_push_flags_on_stack() {
    let mut cpu = create_test_cpu(vec![0x00, 0xf5]);
    cpu.stack_pointer = 2;
    cpu.registers.acc = 12;
    cpu.flags.sign = true;
    cpu.flags.carry = true;
    cpu.flags.zero = false;
    cpu.flags.parity = true;
    cpu.emulate().unwrap();
    assert_eq!(cpu.memory.fetch_byte_at_offset(1), 12);
    assert_eq!(cpu.memory.fetch_byte_at_offset(0), 0b10000111);
    assert_eq!(cpu.stack_pointer, 0);
}

#[test]
fn test_double_add() {
    let mut cpu = create_test_cpu(vec![0x09]);
    cpu.registers.b = 0x33;
    cpu.registers.c = 0x9f;
    cpu.registers.h = 0xa1;
    cpu.registers.l = 0x7b;
    cpu.flags.carry = true;
    cpu.emulate().unwrap();
    assert_eq!(cpu.registers.get_hl(), 0xd51a);
    assert_eq!(cpu.registers.h, 0xd5);
    assert_eq!(cpu.registers.l, 0x1a);
    assert_eq!(cpu.flags.carry, false);
}

#[test]
fn test_double_increment() {
    let mut cpu = create_test_cpu(vec![0x13]);
    cpu.registers.d = 0x38;
    cpu.registers.e = 0xff;
    cpu.flags.carry = false;
    cpu.emulate().unwrap();
    assert_eq!(cpu.registers.get_de(), 0x3900);
    assert_eq!(cpu.registers.d, 0x39);
    assert_eq!(cpu.registers.e, 0x00);
    assert_eq!(cpu.flags.carry, false);
}

#[test]
fn test_double_increment_wraps() {
    let mut cpu = create_test_cpu(vec![0x33]);
    cpu.stack_pointer = 0xFFFF;
    cpu.emulate().unwrap();
    assert_eq!(cpu.stack_pointer, 0x0);
}

#[test]
fn test_exchange_registers() {
    let mut cpu = create_test_cpu(vec![0xeb]);
    cpu.registers.d = 1;
    cpu.registers.e = 2;
    cpu.registers.h = 3;
    cpu.registers.l = 4;
    cpu.emulate().unwrap();
    assert_eq!(cpu.registers.d, 3);
    assert_eq!(cpu.registers.e, 4);
    assert_eq!(cpu.registers.h, 1);
    assert_eq!(cpu.registers.l, 2);
}

#[test]
fn test_move_immediate_to_register() {
    let mut cpu = create_test_cpu(vec![0x3e, 15]);
    cpu.registers.acc = 12;
    cpu.emulate().unwrap();
    assert_eq!(cpu.registers.acc, 15);
}

#[test]
fn test_add_immediate() {
    let mut cpu = create_test_cpu(vec![0xc6, 12]);
    cpu.registers.acc = 12;
    cpu.emulate().unwrap();
    assert_eq!(cpu.registers.acc, 24);
}

#[test]
fn test_and_immediate() {
    let mut cpu = create_test_cpu(vec![0xe6, 0]);
    cpu.registers.acc = 0xFF;
    cpu.emulate().unwrap();
    assert_eq!(cpu.registers.acc, 0);
}

#[test]
fn test_immediate_comparison() {
    let mut cpu = create_test_cpu(vec![0x3e, 15]);
    cpu.registers.acc = 12;
    cpu.emulate().unwrap();
    assert_eq!(cpu.registers.acc, 15);
}

#[test]
fn test_store_direct() {
    let mut cpu = create_test_cpu(vec![0x32, 3, 0b0, 15]);
    cpu.registers.acc = 0;
    assert_eq!(cpu.memory.fetch_byte_at_offset(3), 15);
    cpu.emulate().unwrap();
    assert_eq!(cpu.memory.fetch_byte_at_offset(3), 0);
}

#[test]
fn test_load_direct() {
    let mut cpu = create_test_cpu(vec![0x3a, 3, 0b0, 0]);
    cpu.registers.acc = 15;
    cpu.emulate().unwrap();
    assert_eq!(cpu.registers.acc, 0);
}

#[test]
fn test_jmp() {
    let mut cpu = create_test_cpu(vec![0xc3, 3, 0b0, 0x04, 0]);
    cpu.emulate().unwrap();
    assert_eq!(cpu.registers.b, 0);
}

#[test]
fn test_jnz() {
    let mut cpu = create_test_cpu(vec![0xc2, 3, 0b0, 0x04, 0]);
    cpu.flags.zero = false;
    cpu.emulate().unwrap();
    assert_eq!(cpu.registers.b, 0);
}

#[test]
fn test_jnz_not_set() {
    let mut cpu = create_test_cpu(vec![0xc2, 3, 0b0, 0x04, 0]);
    cpu.flags.zero = true;
    cpu.emulate().unwrap();
    assert_eq!(cpu.registers.b, 1);
}
