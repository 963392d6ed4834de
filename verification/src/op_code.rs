use vstd::prelude::*;

verus! {

/// One fetched instruction byte. An `OpCode` is an ephemeral value:
/// constructed from the byte under the program counter, queried for its
/// bit-fields, and discarded at the end of the cycle.
pub struct OpCode {
    pub value: u8,
}

/// Bit 4 of the instruction byte: selects between the D:E pair (0) and
/// the B:C pair (nonzero) for the indirect accumulator load.
pub open spec fn spec_registry_pair_description(v: u8) -> u8 {
    (v / 16) % 2
}

/// Bits 6-7 of the instruction byte: the top-level class of a
/// single-operand instruction.
pub open spec fn spec_single_registry_operation(v: u8) -> u8 {
    v / 64
}

/// Bits 3-5 of the instruction byte: the destination register or
/// operation selector, a value between 0 and 7.
pub open spec fn spec_first_operand(v: u8) -> u8 {
    (v / 8) % 8
}

/// Bits 0-2 of the instruction byte: the source register or
/// sub-operation selector, a value between 0 and 7.
pub open spec fn spec_second_operand(v: u8) -> u8 {
    v % 8
}

/// Bit 0 of the instruction byte: within the jump family, a nonzero
/// value marks the unconditional jump as opposed to the jump-if-not-zero
/// form, whose first-operand field is the same.
pub open spec fn spec_jmp_description(v: u8) -> u8 {
    v % 2
}

impl OpCode {
    /// The register-pair selector for the indirect accumulator load.
    pub fn extract_registry_pair_description(&self) -> (r: u8)
        ensures
            r == spec_registry_pair_description(self.value),
    {
        (self.value / 16) % 2
    }

    /// The top-level class of a single-operand instruction.
    pub fn extract_single_registry_operation(&self) -> (r: u8)
        ensures
            r == spec_single_registry_operation(self.value),
    {
        self.value / 64
    }

    /// The destination register / operation selector field.
    pub fn extract_first_operand(&self) -> (r: u8)
        ensures
            r == spec_first_operand(self.value),
    {
        (self.value / 8) % 8
    }

    /// The source register / sub-operation selector field.
    pub fn extract_second_operand(&self) -> (r: u8)
        ensures
            r == spec_second_operand(self.value),
    {
        self.value % 8
    }

    /// The discriminant that separates the unconditional jump from the
    /// conditional form sharing its first-operand field.
    pub fn extract_jmp_description(&self) -> (r: u8)
        ensures
            r == spec_jmp_description(self.value),
    {
        self.value % 2
    }
}

impl From<u8> for OpCode {
    /// Wraps a fetched byte as an opcode.
    fn from(item: u8) -> (r: OpCode) {
        OpCode { value: item }
    }
}

impl vstd::std_specs::convert::FromSpecImpl<u8> for OpCode {
    open spec fn obeys_from_spec() -> bool {
        true
    }

    open spec fn from_spec(item: u8) -> OpCode {
        OpCode { value: item }
    }
}

} // verus!
