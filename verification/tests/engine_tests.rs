use emu8080::cpu::{Cpu, EmuError, RunEnd};
use emu8080::memory::Memory;

fn create_test_cpu(input: Vec<u8>) -> Cpu {
    let memory = Memory::new(input);
    Cpu::new(memory)
}

#[test]
fn test_add_immediate_wraps_exact() {
    let mut cpu = create_test_cpu(vec![0xc6, 200]);
    cpu.registers.acc = 100;
    cpu.emulate().unwrap();
    assert_eq!(cpu.registers.acc, 44);
    assert_eq!(cpu.flags.carry, true);
}

#[test]
fn test_add_register_scenario_clears_carry() {
    let mut cpu = create_test_cpu(vec![0x81]);
    cpu.registers.acc = 8;
    cpu.registers.c = 12;
    cpu.emulate().unwrap();
    assert_eq!(cpu.registers.acc, 20);
    assert_eq!(cpu.flags.carry, false);
}

#[test]
fn test_subtract_self_sets_zero_flag() {
    let mut cpu = create_test_cpu(vec![0x97]);
    cpu.registers.acc = 0x3E;
    cpu.emulate().unwrap();
    assert_eq!(cpu.registers.acc, 0);
    assert!(cpu.flags.zero);
}

#[test]
fn test_increment_then_decrement_restores_register() {
    let mut cpu = create_test_cpu(vec![0x04, 0x05]);
    cpu.registers.b = 7;
    cpu.flags.carry = false;
    cpu.emulate().unwrap();
    assert_eq!(cpu.registers.b, 7);
    assert_eq!(cpu.flags.carry, false);
}

#[test]
fn test_increment_then_decrement_across_wraparound() {
    let mut cpu = create_test_cpu(vec![0x04, 0x05]);
    cpu.registers.b = 255;
    cpu.flags.carry = true;
    cpu.emulate().unwrap();
    assert_eq!(cpu.registers.b, 255);
    assert_eq!(cpu.flags.carry, true);
}

#[test]
fn test_push_pop_restores_pair() {
    let mut cpu = create_test_cpu(vec![0xc5, 0xc1, 0x76, 0, 0, 0]);
    cpu.stack_pointer = 6;
    cpu.registers.b = 12;
    cpu.registers.c = 18;
    cpu.emulate().unwrap();
    assert_eq!(cpu.registers.b, 12);
    assert_eq!(cpu.registers.c, 18);
    assert_eq!(cpu.stack_pointer, 6);
}

#[test]
fn test_push_pop_moves_pair_across_registers() {
    let mut cpu = create_test_cpu(vec![0xc5, 0xd1, 0x76, 0, 0, 0]);
    cpu.stack_pointer = 6;
    cpu.registers.b = 12;
    cpu.registers.c = 18;
    cpu.emulate().unwrap();
    assert_eq!(cpu.registers.d, 12);
    assert_eq!(cpu.registers.e, 18);
    assert_eq!(cpu.stack_pointer, 6);
}

#[test]
fn test_push_pop_restores_accumulator_and_flags() {
    let mut cpu = create_test_cpu(vec![0xf5, 0xf1, 0x76, 0, 0, 0]);
    cpu.stack_pointer = 6;
    cpu.registers.acc = 77;
    cpu.flags.sign = true;
    cpu.flags.zero = false;
    cpu.flags.parity = true;
    cpu.flags.carry = true;
    cpu.flags.aux_carry = false;
    cpu.emulate().unwrap();
    assert_eq!(cpu.registers.acc, 77);
    assert_eq!(cpu.flags.sign, true);
    assert_eq!(cpu.flags.zero, false);
    assert_eq!(cpu.flags.parity, true);
    assert_eq!(cpu.flags.carry, true);
    assert_eq!(cpu.flags.aux_carry, false);
}

#[test]
fn test_double_add_sets_carry_on_overflow() {
    let mut cpu = create_test_cpu(vec![0x09]);
    cpu.registers.b = 0xff;
    cpu.registers.c = 0xff;
    cpu.registers.h = 0x00;
    cpu.registers.l = 0x02;
    cpu.emulate().unwrap();
    assert_eq!(cpu.registers.get_hl(), 0x0001);
    assert_eq!(cpu.flags.carry, true);
}

#[test]
fn test_compare_immediate_sets_borrow() {
    let mut cpu = create_test_cpu(vec![0xfe, 15]);
    cpu.registers.acc = 12;
    cpu.emulate().unwrap();
    assert_eq!(cpu.registers.acc, 12);
    assert_eq!(cpu.flags.carry, true);
    assert_eq!(cpu.flags.zero, false);
}

#[test]
fn test_compare_register_equal_sets_zero() {
    let mut cpu = create_test_cpu(vec![0xb8]);
    cpu.registers.acc = 5;
    cpu.registers.b = 5;
    cpu.emulate().unwrap();
    assert_eq!(cpu.registers.acc, 5);
    assert!(cpu.flags.zero);
    assert_eq!(cpu.flags.carry, false);
}

#[test]
fn test_subtract_immediate() {
    let mut cpu = create_test_cpu(vec![0xd6, 5]);
    cpu.registers.acc = 12;
    cpu.emulate().unwrap();
    assert_eq!(cpu.registers.acc, 7);
}

#[test]
fn test_xor_immediate() {
    let mut cpu = create_test_cpu(vec![0xee, 0xff]);
    cpu.registers.acc = 0b10100101;
    cpu.emulate().unwrap();
    assert_eq!(cpu.registers.acc, 0b01011010);
}

#[test]
fn test_or_immediate() {
    let mut cpu = create_test_cpu(vec![0xf6, 0b00001111]);
    cpu.registers.acc = 0b11110000;
    cpu.emulate().unwrap();
    assert_eq!(cpu.registers.acc, 0xff);
}

#[test]
fn test_add_immediate_with_carry() {
    let mut cpu = create_test_cpu(vec![0xce, 10]);
    cpu.registers.acc = 1;
    cpu.flags.carry = true;
    cpu.emulate().unwrap();
    assert_eq!(cpu.registers.acc, 12);
}

#[test]
fn test_set_and_invert_carry() {
    let mut cpu = create_test_cpu(vec![0x37, 0x3f]);
    cpu.flags.carry = false;
    cpu.emulate().unwrap();
    assert_eq!(cpu.flags.carry, false);

    let mut set_only = create_test_cpu(vec![0x37]);
    set_only.flags.carry = false;
    set_only.emulate().unwrap();
    assert_eq!(set_only.flags.carry, true);
}

#[test]
fn test_jump_on_carry_taken() {
    let mut cpu = create_test_cpu(vec![0xda, 3, 0, 0x04, 0]);
    cpu.flags.carry = true;
    cpu.emulate().unwrap();
    assert_eq!(cpu.registers.b, 0);
}

#[test]
fn test_jump_on_carry_not_taken() {
    let mut cpu = create_test_cpu(vec![0xda, 3, 0, 0x04, 0]);
    cpu.flags.carry = false;
    cpu.emulate().unwrap();
    assert_eq!(cpu.registers.b, 1);
}

#[test]
fn test_jump_on_zero_taken() {
    let mut cpu = create_test_cpu(vec![0xca, 3, 0, 0x04, 0]);
    cpu.flags.zero = true;
    cpu.emulate().unwrap();
    assert_eq!(cpu.registers.b, 0);
}

#[test]
fn test_halt_ends_run() {
    let mut cpu = create_test_cpu(vec![0x76, 0x04]);
    let end = cpu.emulate().unwrap();
    assert_eq!(end, RunEnd::Halted);
    assert_eq!(cpu.program_counter, 0);
    assert_eq!(cpu.registers.b, 0);
}

#[test]
fn test_run_to_program_end() {
    let mut cpu = create_test_cpu(vec![0x00, 0x00]);
    let end = cpu.emulate().unwrap();
    assert_eq!(end, RunEnd::ProgramEnd);
    assert_eq!(cpu.program_counter, 2);
}

#[test]
fn test_unknown_opcode_is_fatal() {
    let mut cpu = create_test_cpu(vec![0xfd]);
    let result = cpu.emulate();
    assert_eq!(result, Err(EmuError::UnknownOpCode));
    assert_eq!(cpu.program_counter, 0);
}

#[test]
fn test_unimplemented_rotate_is_fatal() {
    let mut cpu = create_test_cpu(vec![0x17]);
    let result = cpu.emulate();
    assert_eq!(result, Err(EmuError::UnknownSubOperation));
}

#[test]
fn test_store_outside_image_is_fatal() {
    let mut cpu = create_test_cpu(vec![0x32, 0x10, 0x00]);
    let result = cpu.emulate();
    assert_eq!(result, Err(EmuError::OutOfBounds));
}

#[test]
fn test_transfer_from_memory_cell() {
    let mut cpu = create_test_cpu(vec![0x66, 15]);
    cpu.registers.h = 0;
    cpu.registers.l = 1;
    cpu.emulate().unwrap();
    assert_eq!(cpu.registers.h, 15);
}

#[test]
fn test_load_accumulator_indirect() {
    let mut cpu = create_test_cpu(vec![0x1a, 0, 9]);
    cpu.registers.b = 0;
    cpu.registers.c = 2;
    cpu.emulate().unwrap();
    assert_eq!(cpu.registers.acc, 9);
}

#[test]
fn test_memory_set_and_fetch() {
    let mut memory = Memory::new(vec![1, 2, 3]);
    assert_eq!(memory.instructions_len(), 3);
    memory.set_byte_at_offset(1, 9);
    assert_eq!(memory.fetch_byte_at_offset(1), 9);
    assert_eq!(memory.fetch_bytes_at_offset(1, 2), &[9, 3]);
}
