use emu8080::op_code::OpCode;

#[test]
fn test_into_op_code() {
    let x: OpCode = 12_u8.into();
    assert_eq!(x.value, 12)
}

#[test]
fn test_extract_source() {
    let x: OpCode = 0b00111000_u8.into();
    assert_eq!(x.extract_first_operand(), 0b111)
}

#[test]
fn test_extract_dest() {
    let x: OpCode = 0b00111111_u8.into();
    assert_eq!(x.extract_second_operand(), 0b111)
}

#[test]
fn test_extract_registry_pair() {
    let with_bit: OpCode = 0x1a_u8.into();
    let without_bit: OpCode = 0x0a_u8.into();
    assert_eq!(with_bit.extract_registry_pair_description(), 1);
    assert_eq!(without_bit.extract_registry_pair_description(), 0);
}

#[test]
fn test_extract_operation_class() {
    let x: OpCode = 0xc5_u8.into();
    assert_eq!(x.extract_single_registry_operation(), 0b11);
    let y: OpCode = 0x04_u8.into();
    assert_eq!(y.extract_single_registry_operation(), 0b00);
}

#[test]
fn test_extract_jmp_description() {
    let unconditional: OpCode = 0xc3_u8.into();
    let conditional: OpCode = 0xc2_u8.into();
    assert_eq!(unconditional.extract_jmp_description(), 1);
    assert_eq!(conditional.extract_jmp_description(), 0);
}
