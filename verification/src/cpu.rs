use vstd::prelude::*;

use crate::memory::Memory;
use crate::op_code::OpCode;
use crate::op_code::{
    spec_first_operand, spec_jmp_description, spec_registry_pair_description,
    spec_second_operand, spec_single_registry_operation,
};
use crate::registers::{
    spec_flags_all, spec_flags_single, spec_pair, spec_register, spec_with_register, Flags,
    Registers,
};

verus! {

/// Why a cycle of the engine faulted. Every fault is fatal: the engine
/// never skips an unrecognized instruction and continues, since that
/// would desynchronize all subsequent decoding.
#[derive(Clone, Copy, Debug, PartialEq, Eq, Structural)]
pub enum EmuError {
    /// The byte under the program counter matches no implemented
    /// opcode range or value.
    UnknownOpCode,
    /// A decoded family has no member for the extracted bit-fields: an
    /// unknown single-operand form, rotation direction or register-pair
    /// selector.
    UnknownSubOperation,
    /// An instruction addressed a cell outside the loaded image, or
    /// moved the stack pointer below the bottom of memory.
    OutOfBounds,
}

/// How a single executed cycle ended.
#[derive(Clone, Copy, Debug, PartialEq, Eq, Structural)]
pub enum StepOutcome {
    /// The instruction completed and the engine may fetch the next one.
    Continue,
    /// The halt instruction was reached: a successful termination.
    Halted,
}

/// How a whole run of the engine ended, when it did not fault.
#[derive(Clone, Copy, Debug, PartialEq, Eq, Structural)]
pub enum RunEnd {
    /// The program counter reached the end of the loaded instructions.
    ProgramEnd,
    /// The halt instruction was reached.
    Halted,
    /// The engine gave up after its step budget was exhausted.
    StepLimit,
}

/// The abstract state of the machine: register file, flags, stack
/// pointer, program counter and the contents of memory as a sequence.
#[verifier::ext_equal]
pub struct CpuView {
    pub regs: Registers,
    pub flags: Flags,
    pub sp: u16,
    pub pc: u16,
    pub mem: Seq<u8>,
}

/// The result of one specification-level cycle.
pub enum StepSpec {
    /// The instruction completed, leaving this state.
    Ran(CpuView),
    /// The halt instruction was reached; the state is left as it was.
    Halted,
    /// The cycle faulted; the state is left as it was.
    Failed(EmuError),
}

/// A 16-bit quantity wrapping at the address-space boundary.
pub open spec fn wrap16(v: int) -> u16 {
    (v % 0x10000) as u16
}

/// The operand named by a source selector: the byte at the H:L address
/// for the memory-indirect code 6, the named register otherwise.
pub open spec fn spec_read_operand(s: CpuView, selector: u8) -> Result<u8, EmuError> {
    if selector == 6 {
        let address = spec_pair(s.regs.h, s.regs.l);
        if address < s.mem.len() {
            Ok(s.mem[address as int])
        } else {
            Err(EmuError::OutOfBounds)
        }
    } else {
        Ok(spec_register(s.regs, selector))
    }
}

/// The state after writing `value` to the cell named by a destination
/// selector: memory at the H:L address for the memory-indirect code 6,
/// the named register otherwise.
pub open spec fn spec_write_operand(s: CpuView, selector: u8, value: u8) -> Result<CpuView, EmuError> {
    if selector == 6 {
        let address = spec_pair(s.regs.h, s.regs.l);
        if address < s.mem.len() {
            Ok(CpuView { mem: s.mem.update(address as int, value), ..s })
        } else {
            Err(EmuError::OutOfBounds)
        }
    } else {
        Ok(CpuView { regs: spec_with_register(s.regs, selector, value), ..s })
    }
}

/// The 16-bit sum fed to the flag rules by an addition:
/// `acc + value + carry_in`, never more than 511.
pub open spec fn spec_add_result(acc: u8, value: u8, carry: bool) -> u16 {
    (acc + value + (if carry {
        1int
    } else {
        0int
    })) as u16
}

/// The 16-bit value fed to the flag rules by a subtraction:
/// `acc - (value + carry_in)` under 16-bit wraparound, so that a borrow
/// surfaces as a value above 0xFF and the carry rule doubles as the
/// borrow indicator.
pub open spec fn spec_sub_result(acc: u8, value: u8, carry: bool) -> u16 {
    wrap16(
        acc - value - (if carry {
            1int
        } else {
            0int
        }),
    )
}

/// The state after an addition into the accumulator.
pub open spec fn spec_add(s: CpuView, value: u8, carry: bool) -> CpuView {
    let result = spec_add_result(s.regs.acc, value, carry);
    CpuView {
        regs: Registers { acc: (result % 256) as u8, ..s.regs },
        flags: spec_flags_all(s.flags, result),
        ..s
    }
}

/// The state after a subtraction from the accumulator.
pub open spec fn spec_subtract(s: CpuView, value: u8, carry: bool) -> CpuView {
    let result = spec_sub_result(s.regs.acc, value, carry);
    CpuView {
        regs: Registers { acc: (result % 256) as u8, ..s.regs },
        flags: spec_flags_all(s.flags, result),
        ..s
    }
}

/// The state after a bitwise AND into the accumulator, combined at
/// 16-bit width so the flag rules see a zero upper byte.
pub open spec fn spec_and(s: CpuView, value: u8) -> CpuView {
    let result = (s.regs.acc as u16) & (value as u16);
    CpuView {
        regs: Registers { acc: (result % 256) as u8, ..s.regs },
        flags: spec_flags_all(s.flags, result),
        ..s
    }
}

/// The state after a bitwise XOR into the accumulator.
pub open spec fn spec_xor(s: CpuView, value: u8) -> CpuView {
    let result = (s.regs.acc as u16) ^ (value as u16);
    CpuView {
        regs: Registers { acc: (result % 256) as u8, ..s.regs },
        flags: spec_flags_all(s.flags, result),
        ..s
    }
}

/// The state after a bitwise OR into the accumulator.
pub open spec fn spec_or(s: CpuView, value: u8) -> CpuView {
    let result = (s.regs.acc as u16) | (value as u16);
    CpuView {
        regs: Registers { acc: (result % 256) as u8, ..s.regs },
        flags: spec_flags_all(s.flags, result),
        ..s
    }
}

/// The state after a comparison: the same subtraction as
/// [`spec_subtract`], but only the flags keep its result.
pub open spec fn spec_comparison(s: CpuView, value: u8) -> CpuView {
    let result = spec_sub_result(s.regs.acc, value, false);
    CpuView { flags: spec_flags_all(s.flags, result), ..s }
}

/// The arithmetic/logical operation named by a first-operand selector,
/// shared by the register and the immediate form: 0 add, 1 add with
/// carry, 2 subtract, 3 subtract with borrow, 4 and, 5 xor, 6 or,
/// 7 compare.
pub open spec fn spec_alu(s: CpuView, operation: u8, value: u8) -> CpuView {
    if operation == 0 {
        spec_add(s, value, false)
    } else if operation == 1 {
        spec_add(s, value, s.flags.carry)
    } else if operation == 2 {
        spec_subtract(s, value, false)
    } else if operation == 3 {
        spec_subtract(s, value, s.flags.carry)
    } else if operation == 4 {
        spec_and(s, value)
    } else if operation == 5 {
        spec_xor(s, value)
    } else if operation == 6 {
        spec_or(s, value)
    } else {
        spec_comparison(s, value)
    }
}

/// A 16-bit increment wraps from 0xFFFF back to 0.
proof fn lemma_wrap16_increment(v: u16)
    ensures
        wrap16(v + 1) == (if v == 0xffff {
            0u16
        } else {
            (v + 1) as u16
        }),
{
    if v == 0xffff {
        vstd::arithmetic::div_mod::lemma_mod_self_0(0x10000);
    } else {
        vstd::arithmetic::div_mod::lemma_small_mod((v + 1) as nat, 0x10000);
    }
}

/// An 8-bit increment wraps from 0xFF back to 0.
proof fn lemma_wrap8_increment(v: u8)
    ensures
        ((v + 1) % 256) as u8 == (if v == 255 {
            0u8
        } else {
            (v + 1) as u8
        }),
{
    if v == 255 {
        vstd::arithmetic::div_mod::lemma_mod_self_0(256);
    } else {
        vstd::arithmetic::div_mod::lemma_small_mod((v + 1) as nat, 256);
    }
}

/// An 8-bit decrement wraps from 0 back to 0xFF.
proof fn lemma_wrap8_decrement(v: u8)
    ensures
        ((v + 255) % 256) as u8 == (if v == 0 {
            255u8
        } else {
            (v - 1) as u8
        }),
{
    if v == 0 {
        vstd::arithmetic::div_mod::lemma_small_mod(255, 256);
    } else {
        vstd::arithmetic::div_mod::lemma_mod_add_multiples_vanish(v - 1, 256);
        vstd::arithmetic::div_mod::lemma_small_mod((v - 1) as nat, 256);
    }
}

/// The 16-bit address encoded little-endian in the two bytes following
/// the opcode: low byte first.
pub open spec fn spec_operand_address(s: CpuView) -> u16 {
    spec_pair(s.mem[s.pc + 2], s.mem[s.pc + 1])
}

/// The state after the indirect accumulator load: the accumulator is
/// read through the D:E pair for selector 0 and through the B:C pair
/// otherwise.
pub open spec fn spec_load_accumulator(s: CpuView, op: u8) -> Result<CpuView, EmuError> {
    let address = if spec_registry_pair_description(op) == 0 {
        spec_pair(s.regs.d, s.regs.e)
    } else {
        spec_pair(s.regs.b, s.regs.c)
    };
    if address < s.mem.len() {
        Ok(CpuView {
            regs: Registers { acc: s.mem[address as int], ..s.regs },
            pc: wrap16(s.pc + 1),
            ..s
        })
    } else {
        Err(EmuError::OutOfBounds)
    }
}

/// The state after storing the accumulator at the direct address
/// following the opcode; the instruction consumes three bytes.
pub open spec fn spec_store_acc_direct(s: CpuView) -> Result<CpuView, EmuError> {
    if s.pc + 2 < s.mem.len() {
        let address = spec_operand_address(s);
        if address < s.mem.len() {
            Ok(CpuView {
                mem: s.mem.update(address as int, s.regs.acc),
                pc: wrap16(s.pc + 3),
                ..s
            })
        } else {
            Err(EmuError::OutOfBounds)
        }
    } else {
        Err(EmuError::OutOfBounds)
    }
}

/// The state after loading the accumulator from the direct address
/// following the opcode; the instruction consumes three bytes.
pub open spec fn spec_load_acc_direct(s: CpuView) -> Result<CpuView, EmuError> {
    if s.pc + 2 < s.mem.len() {
        let address = spec_operand_address(s);
        if address < s.mem.len() {
            Ok(CpuView {
                regs: Registers { acc: s.mem[address as int], ..s.regs },
                pc: wrap16(s.pc + 3),
                ..s
            })
        } else {
            Err(EmuError::OutOfBounds)
        }
    } else {
        Err(EmuError::OutOfBounds)
    }
}

/// The state after exchanging the D:E and H:L register pairs.
pub open spec fn spec_exchange_registers(s: CpuView) -> CpuView {
    CpuView {
        regs: Registers { d: s.regs.h, e: s.regs.l, h: s.regs.d, l: s.regs.e, ..s.regs },
        pc: wrap16(s.pc + 1),
        ..s
    }
}

/// Whether the jump condition selected by the first-operand field holds
/// of the current flags. Value 0 is the shared encoding of the
/// unconditional jump and jump-if-not-zero, told apart by the low bit
/// of the opcode; values 1 to 7 test zero, no-carry, carry, no-parity,
/// parity, no-sign and sign, in that order.
pub open spec fn spec_jump_taken(s: CpuView, op: u8) -> bool {
    let instruction = spec_first_operand(op);
    if instruction == 0 {
        spec_jmp_description(op) > 0 || !s.flags.zero
    } else if instruction == 1 {
        s.flags.zero
    } else if instruction == 2 {
        !s.flags.carry
    } else if instruction == 3 {
        s.flags.carry
    } else if instruction == 4 {
        !s.flags.parity
    } else if instruction == 5 {
        s.flags.parity
    } else if instruction == 6 {
        !s.flags.sign
    } else {
        s.flags.sign
    }
}

/// The state after a jump-family instruction: when the condition holds
/// the program counter is set to the target address and then still
/// advanced by one more, reproducing the engine's jump-then-increment
/// quirk; otherwise the instruction consumes its three bytes.
pub open spec fn spec_jump(s: CpuView, op: u8) -> Result<CpuView, EmuError> {
    if s.pc + 2 < s.mem.len() {
        let address = spec_operand_address(s);
        if spec_jump_taken(s, op) {
            Ok(CpuView { pc: wrap16(address + 1), ..s })
        } else {
            Ok(CpuView { pc: wrap16(s.pc + 3), ..s })
        }
    } else {
        Err(EmuError::OutOfBounds)
    }
}

/// The status byte pushed for the accumulator+flags composite:
/// bit 7 sign, bit 6 zero, bit 4 auxiliary carry, bit 2 parity,
/// bit 1 fixed to one, bit 0 carry; bits 3 and 5 fixed to zero.
pub open spec fn spec_pack_flags(f: Flags) -> u8 {
    ((if f.sign {
        128int
    } else {
        0int
    }) + (if f.zero {
        64int
    } else {
        0int
    }) + (if f.aux_carry {
        16int
    } else {
        0int
    }) + (if f.parity {
        4int
    } else {
        0int
    }) + 2 + (if f.carry {
        1int
    } else {
        0int
    })) as u8
}

/// The flags reconstructed from a popped status byte, each from its own
/// bit; the fixed bits 1, 3 and 5 are not interpreted as flags.
pub open spec fn spec_unpack_flags(status: u8) -> Flags {
    Flags {
        sign: (status / 128) % 2 == 1,
        zero: (status / 64) % 2 == 1,
        aux_carry: (status / 16) % 2 == 1,
        parity: (status / 4) % 2 == 1,
        carry: status % 2 == 1,
    }
}

/// The state after storing `value` in the cell named by `selector` and
/// recomputing the increment/decrement flag subset from it: zero, sign
/// and parity, with the carry flag left alone.
pub open spec fn spec_change_single(s: CpuView, selector: u8, value: u8) -> Result<
    CpuView,
    EmuError,
> {
    match spec_write_operand(s, selector, value) {
        Ok(s1) => Ok(CpuView { flags: spec_flags_single(s.flags, value as u16), ..s1 }),
        Err(e) => Err(e),
    }
}

/// The state after incrementing the cell named by `selector` by one
/// with 8-bit wraparound; zero, sign and parity are recomputed from the
/// new value, the carry flag is not disturbed.
pub open spec fn spec_increment(s: CpuView, selector: u8) -> Result<CpuView, EmuError> {
    match spec_read_operand(s, selector) {
        Ok(v) => spec_change_single(s, selector, ((v + 1) % 256) as u8),
        Err(e) => Err(e),
    }
}

/// The state after decrementing the cell named by `selector` by one
/// with 8-bit wraparound (underflow wraps to 0xFF); the same flag
/// subset as the increment.
pub open spec fn spec_decrement(s: CpuView, selector: u8) -> Result<CpuView, EmuError> {
    match spec_read_operand(s, selector) {
        Ok(v) => spec_change_single(s, selector, ((v + 255) % 256) as u8),
        Err(e) => Err(e),
    }
}

/// The state after rotating the accumulator one position: direction 0
/// rotates left and copies the outgoing high bit into the carry flag,
/// direction 1 rotates right and copies the outgoing low bit. The carry
/// flag is overwritten, never combined with its old value. The
/// rotate-through-carry variants are not implemented.
pub open spec fn spec_rotate(s: CpuView, direction: u8) -> Result<CpuView, EmuError> {
    let a = s.regs.acc;
    if direction == 0 {
        Ok(CpuView {
            regs: Registers { acc: ((a % 128) * 2 + a / 128) as u8, ..s.regs },
            flags: Flags { carry: a / 128 == 1, ..s.flags },
            ..s
        })
    } else if direction == 1 {
        Ok(CpuView {
            regs: Registers { acc: (a / 2 + (a % 2) * 128) as u8, ..s.regs },
            flags: Flags { carry: a % 2 == 1, ..s.flags },
            ..s
        })
    } else {
        Err(EmuError::UnknownSubOperation)
    }
}

/// The state after adding a register pair (selector 1 B:C, 3 D:E,
/// 5 H:L, 7 the stack pointer) into H:L; only the carry flag is
/// touched, set exactly when the 32-bit sum exceeds 0xFFFF.
pub open spec fn spec_double_add(s: CpuView, selector: u8) -> Result<CpuView, EmuError> {
    if selector == 1 || selector == 3 || selector == 5 || selector == 7 {
        let value = if selector == 1 {
            spec_pair(s.regs.b, s.regs.c)
        } else if selector == 3 {
            spec_pair(s.regs.d, s.regs.e)
        } else if selector == 5 {
            spec_pair(s.regs.h, s.regs.l)
        } else {
            s.sp
        };
        let sum = spec_pair(s.regs.h, s.regs.l) + value;
        Ok(CpuView {
            regs: Registers {
                h: (wrap16(sum) / 256) as u8,
                l: (wrap16(sum) % 256) as u8,
                ..s.regs
            },
            flags: Flags { carry: sum > 0xffff, ..s.flags },
            ..s
        })
    } else {
        Err(EmuError::UnknownSubOperation)
    }
}

/// The state after incrementing a register pair (selector 0 B:C, 2 D:E,
/// 4 H:L, 6 the stack pointer) by one with 16-bit wraparound; no flags
/// are affected.
pub open spec fn spec_increment_double(s: CpuView, selector: u8) -> Result<CpuView, EmuError> {
    if selector == 0 {
        let v = wrap16(spec_pair(s.regs.b, s.regs.c) + 1);
        Ok(CpuView { regs: Registers { b: (v / 256) as u8, c: (v % 256) as u8, ..s.regs }, ..s })
    } else if selector == 2 {
        let v = wrap16(spec_pair(s.regs.d, s.regs.e) + 1);
        Ok(CpuView { regs: Registers { d: (v / 256) as u8, e: (v % 256) as u8, ..s.regs }, ..s })
    } else if selector == 4 {
        let v = wrap16(spec_pair(s.regs.h, s.regs.l) + 1);
        Ok(CpuView { regs: Registers { h: (v / 256) as u8, l: (v % 256) as u8, ..s.regs }, ..s })
    } else if selector == 6 {
        Ok(CpuView { sp: wrap16(s.sp + 1), ..s })
    } else {
        Err(EmuError::UnknownSubOperation)
    }
}

/// The two bytes a push writes: the high byte of the named pair, or the
/// accumulator and the packed status byte for the composite form.
pub open spec fn spec_push_bytes(s: CpuView, selector: u8) -> (u8, u8) {
    if selector == 0 {
        (s.regs.b, s.regs.c)
    } else if selector == 2 {
        (s.regs.d, s.regs.e)
    } else if selector == 4 {
        (s.regs.h, s.regs.l)
    } else {
        (s.regs.acc, spec_pack_flags(s.flags))
    }
}

/// The state after pushing a register pair, or the accumulator+flags
/// composite, onto the stack: the high byte goes to `sp - 1`, the low
/// byte to `sp - 2`, and the stack pointer moves down by two.
pub open spec fn spec_push(s: CpuView, selector: u8) -> Result<CpuView, EmuError> {
    if selector == 0 || selector == 2 || selector == 4 || selector == 6 {
        let bytes = spec_push_bytes(s, selector);
        if 2 <= s.sp && s.sp - 1 < s.mem.len() {
            Ok(CpuView {
                mem: s.mem.update(s.sp - 1, bytes.0).update(s.sp - 2, bytes.1),
                sp: (s.sp - 2) as u16,
                ..s
            })
        } else {
            Err(EmuError::OutOfBounds)
        }
    } else {
        Err(EmuError::UnknownSubOperation)
    }
}

/// The state after popping two bytes off the stack: the low byte is
/// read at `sp`, the high byte at `sp + 1`, the stack pointer moves up
/// by two, and the named pair — or the accumulator and each flag bit of
/// the status byte — is restored as the mirror of the push.
pub open spec fn spec_pop(s: CpuView, selector: u8) -> Result<CpuView, EmuError> {
    if selector == 0 || selector == 2 || selector == 4 || selector == 6 {
        if s.sp + 1 < s.mem.len() {
            let low_byte = s.mem[s.sp as int];
            let high_byte = s.mem[s.sp + 1];
            let sp = wrap16(s.sp + 2);
            if selector == 0 {
                Ok(CpuView { regs: Registers { b: high_byte, c: low_byte, ..s.regs }, sp, ..s })
            } else if selector == 2 {
                Ok(CpuView { regs: Registers { d: high_byte, e: low_byte, ..s.regs }, sp, ..s })
            } else if selector == 4 {
                Ok(CpuView { regs: Registers { h: high_byte, l: low_byte, ..s.regs }, sp, ..s })
            } else {
                Ok(CpuView {
                    regs: Registers { acc: high_byte, ..s.regs },
                    flags: spec_unpack_flags(low_byte),
                    sp,
                    ..s
                })
            }
        } else {
            Err(EmuError::OutOfBounds)
        }
    } else {
        Err(EmuError::UnknownSubOperation)
    }
}

/// The state after moving the immediate byte following the opcode into
/// the cell named by `selector`; the instruction consumes two bytes in
/// all, the second of which is accounted for here.
pub open spec fn spec_move_immediate(s: CpuView, selector: u8) -> Result<CpuView, EmuError> {
    if s.pc + 1 < s.mem.len() {
        let data = s.mem[s.pc + 1];
        match spec_write_operand(s, selector, data) {
            Ok(s1) => Ok(CpuView { pc: wrap16(s.pc + 1), ..s1 }),
            Err(e) => Err(e),
        }
    } else {
        Err(EmuError::OutOfBounds)
    }
}

/// The state after an immediate arithmetic/logical instruction: the
/// byte following the opcode is the second operand of the operation the
/// first-operand field selects, exactly as in the register form.
pub open spec fn spec_immediate_arithmetic(s: CpuView, operation: u8) -> Result<
    CpuView,
    EmuError,
> {
    if s.pc + 1 < s.mem.len() {
        let data = s.mem[s.pc + 1];
        Ok(CpuView { pc: wrap16(s.pc + 1), ..spec_alu(s, operation, data) })
    } else {
        Err(EmuError::OutOfBounds)
    }
}

/// The state transform of the single-operand form the operation-class
/// and sub-operation fields select, before the family's shared
/// program-counter advance; any pair without an implemented member is
/// a fatal decode fault.
pub open spec fn spec_single_operand_inner(s: CpuView, op: u8) -> Result<CpuView, EmuError> {
    let class = spec_single_registry_operation(op);
    let sub = spec_second_operand(op);
    let sel = spec_first_operand(op);
    if class == 0 && sub == 4 {
        spec_increment(s, sel)
    } else if class == 0 && sub == 5 {
        spec_decrement(s, sel)
    } else if class == 0 && sub == 7 {
        spec_rotate(s, sel)
    } else if class == 0 && sub == 1 {
        spec_double_add(s, sel)
    } else if class == 0 && sub == 3 {
        spec_increment_double(s, sel)
    } else if class == 3 && sub == 5 {
        spec_push(s, sel)
    } else if class == 3 && sub == 1 {
        spec_pop(s, sel)
    } else if class == 0 && sub == 6 {
        spec_move_immediate(s, sel)
    } else if class == 3 && sub == 6 {
        spec_immediate_arithmetic(s, sel)
    } else {
        Err(EmuError::UnknownSubOperation)
    }
}

/// The state after a complete single-operand instruction: the form the
/// fields select, followed by the one-byte advance shared by the whole
/// family.
pub open spec fn spec_single_operand(s: CpuView, op: u8) -> Result<CpuView, EmuError> {
    match spec_single_operand_inner(s, op) {
        Ok(s1) => Ok(CpuView { pc: wrap16(s1.pc + 1), ..s1 }),
        Err(e) => Err(e),
    }
}

/// The state after a register/memory transfer: the source named by the
/// second-operand field is copied to the destination named by the
/// first-operand field, either of which may be the memory cell at the
/// H:L address.
pub open spec fn spec_transfer(s: CpuView, op: u8) -> Result<CpuView, EmuError> {
    match spec_read_operand(s, spec_second_operand(op)) {
        Ok(v) => match spec_write_operand(s, spec_first_operand(op), v) {
            Ok(s1) => Ok(CpuView { pc: wrap16(s1.pc + 1), ..s1 }),
            Err(e) => Err(e),
        },
        Err(e) => Err(e),
    }
}

/// The state after a register-form arithmetic/logical instruction: the
/// operand is fetched like a transfer's source and the operation is
/// selected by the first-operand field.
pub open spec fn spec_arithmetic_operation(s: CpuView, op: u8) -> Result<CpuView, EmuError> {
    match spec_read_operand(s, spec_second_operand(op)) {
        Ok(v) => Ok(CpuView { pc: wrap16(s.pc + 1), ..spec_alu(s, spec_first_operand(op), v) }),
        Err(e) => Err(e),
    }
}

/// Lifts a per-instruction result into the outcome of a cycle.
pub open spec fn spec_step_of(r: Result<CpuView, EmuError>) -> StepSpec {
    match r {
        Ok(s1) => StepSpec::Ran(s1),
        Err(e) => StepSpec::Failed(e),
    }
}

/// One specification-level cycle: the byte under the program counter
/// is classified by value and range — narrower patterns first — and
/// the selected instruction family transforms the state. Bytes that no
/// family claims are a fatal decode fault.
#[verifier::opaque]
pub open spec fn spec_step(s: CpuView) -> StepSpec {
    let op = s.mem[s.pc as int];
    if op == 0x00 {
        StepSpec::Ran(CpuView { pc: wrap16(s.pc + 1), ..s })
    } else if op == 0x37 {
        StepSpec::Ran(
            CpuView { flags: Flags { carry: true, ..s.flags }, pc: wrap16(s.pc + 1), ..s },
        )
    } else if op == 0x3f {
        StepSpec::Ran(
            CpuView {
                flags: Flags { carry: !s.flags.carry, ..s.flags },
                pc: wrap16(s.pc + 1),
                ..s
            },
        )
    } else if op == 0x76 {
        StepSpec::Halted
    } else if op == 0x0a || op == 0x1a {
        spec_step_of(spec_load_accumulator(s, op))
    } else if op == 0x32 {
        spec_step_of(spec_store_acc_direct(s))
    } else if op == 0x3a {
        spec_step_of(spec_load_acc_direct(s))
    } else if 0x01 <= op && op <= 0x3e {
        spec_step_of(spec_single_operand(s, op))
    } else if 0x40 <= op && op <= 0x7f {
        spec_step_of(spec_transfer(s, op))
    } else if 0x80 <= op && op <= 0xbf {
        spec_step_of(spec_arithmetic_operation(s, op))
    } else if op == 0xc1 || op == 0xd1 || op == 0xe1 || op == 0xf1 || op == 0xc5 || op == 0xd5
        || op == 0xe5 || op == 0xf5 || op == 0xc6 || op == 0xce || op == 0xd6 || op == 0xde
        || op == 0xe6 || op == 0xee || op == 0xf6 || op == 0xfe {
        spec_step_of(spec_single_operand(s, op))
    } else if op == 0xc2 || op == 0xc3 || op == 0xca || op == 0xd2 || op == 0xda || op == 0xe2
        || op == 0xea || op == 0xf2 || op == 0xfa {
        spec_step_of(spec_jump(s, op))
    } else if op == 0xeb {
        StepSpec::Ran(spec_exchange_registers(s))
    } else {
        StepSpec::Failed(EmuError::UnknownOpCode)
    }
}

/// Where a run stands after a bounded number of cycles.
pub enum RunOutcome {
    /// Still fetching, in this state; also the final answer when the
    /// program counter has left the loaded instructions.
    Running(CpuView),
    /// The halt instruction ended the run in this state.
    Halted(CpuView),
    /// A cycle faulted in this state, which the fault left unchanged.
    Failed(CpuView, EmuError),
}

/// The outcome of at most `n` cycles from state `s`: cycles follow one
/// another while the program counter stays inside the loaded
/// instructions, and a halt or a fault is final.
pub open spec fn spec_run(s: CpuView, n: nat) -> RunOutcome
    decreases n,
{
    if n == 0 {
        RunOutcome::Running(s)
    } else {
        match spec_run(s, (n - 1) as nat) {
            RunOutcome::Running(s1) => {
                if s1.pc < s1.mem.len() {
                    match spec_step(s1) {
                        StepSpec::Ran(s2) => RunOutcome::Running(s2),
                        StepSpec::Halted => RunOutcome::Halted(s1),
                        StepSpec::Failed(e) => RunOutcome::Failed(s1, e),
                    }
                } else {
                    RunOutcome::Running(s1)
                }
            },
            done => done,
        }
    }
}

/// The emulated processor: program counter, stack pointer, register
/// file, flags and the memory holding the program image. The engine is
/// the sole mutator of all of them.
#[derive(Debug)]
pub struct Cpu {
    pub stack_pointer: u16,
    pub program_counter: u16,
    pub registers: Registers,
    pub flags: Flags,
    pub memory: Memory,
}

impl View for Cpu {
    type V = CpuView;

    open spec fn view(&self) -> CpuView {
        CpuView {
            regs: self.registers,
            flags: self.flags,
            sp: self.stack_pointer,
            pc: self.program_counter,
            mem: self.memory@,
        }
    }
}

impl Cpu {
    /// A processor over the given memory, with cleared registers and
    /// flags and both pointers at offset 0.
    pub fn new(memory: Memory) -> (cpu: Cpu)
        ensures
            cpu@ == (CpuView {
                regs: Registers { acc: 0, b: 0, c: 0, d: 0, e: 0, h: 0, l: 0 },
                flags: Flags {
                    zero: false,
                    sign: false,
                    parity: false,
                    carry: false,
                    aux_carry: false,
                },
                sp: 0,
                pc: 0,
                mem: memory@,
            }),
    {
        Cpu {
            stack_pointer: 0,
            program_counter: 0,
            registers: Registers::new(),
            flags: Flags::new(),
            memory,
        }
    }

    /// Runs the fetch-decode-execute loop until the program counter
    /// leaves the loaded instructions, the halt instruction is reached,
    /// or a cycle faults; a step budget guards against programs that
    /// never do either. The result is pinned to the specification-level
    /// run: some number of [`spec_step`] cycles from the starting
    /// state, and the step-limit answer only after the whole budget of
    /// 2^64 - 1 cycles was spent.
    #[verifier::spinoff_prover]
    #[verifier::rlimit(100)]
    pub fn emulate(&mut self) -> (r: Result<RunEnd, EmuError>)
        ensures
            match r {
                Ok(RunEnd::ProgramEnd) => exists|n: nat|
                    #[trigger] spec_run(old(self)@, n) == RunOutcome::Running(final(self)@)
                        && final(self)@.pc >= final(self)@.mem.len(),
                Ok(RunEnd::Halted) => exists|n: nat|
                    #[trigger] spec_run(old(self)@, n) == RunOutcome::Halted(final(self)@),
                Ok(RunEnd::StepLimit) => spec_run(old(self)@, u64::MAX as nat)
                    == RunOutcome::Running(final(self)@),
                Err(e) => exists|n: nat|
                    #[trigger] spec_run(old(self)@, n) == RunOutcome::Failed(final(self)@, e),
            },
    {
        let ghost start = self@;
        let mut budget: u64 = u64::MAX;
        let ghost mut steps: nat = 0;
        while (self.program_counter as usize) < self.memory.instructions_len()
            invariant
                start == old(self)@,
                steps == u64::MAX - budget,
                spec_run(start, steps) == RunOutcome::Running(self@),
            decreases budget,
        {
            if budget == 0 {
                return Ok(RunEnd::StepLimit);
            }
            budget = budget - 1;
            let op_byte = self.memory.fetch_byte_at_offset(self.program_counter);
            let op_code = OpCode::from(op_byte);
            match self.execute(&op_code) {
                Ok(StepOutcome::Continue) => {
                    proof {
                        assert(spec_run(start, steps + 1) == RunOutcome::Running(self@));
                        steps = steps + 1;
                    }
                },
                Ok(StepOutcome::Halted) => {
                    proof {
                        assert(spec_run(start, steps + 1) == RunOutcome::Halted(self@));
                    }
                    return Ok(RunEnd::Halted);
                },
                Err(e) => {
                    proof {
                        assert(spec_run(start, steps + 1) == RunOutcome::Failed(self@, e));
                    }
                    return Err(e);
                },
            }
        }
        Ok(RunEnd::ProgramEnd)
    }

    /// Executes the one instruction whose opcode stands under the
    /// program counter, exactly as [`spec_step`] describes it; a halt
    /// or a fault leaves the state untouched.
    #[verifier::spinoff_prover]
    #[verifier::rlimit(100)]
    fn execute(&mut self, op_code: &OpCode) -> (r: Result<StepOutcome, EmuError>)
        requires
            old(self)@.pc < old(self)@.mem.len(),
            op_code.value == old(self)@.mem[old(self)@.pc as int],
        ensures
            match r {
                Ok(StepOutcome::Continue) => spec_step(old(self)@) == StepSpec::Ran(final(self)@),
                Ok(StepOutcome::Halted) => spec_step(old(self)@) == StepSpec::Halted
                    && final(self)@ == old(self)@,
                Err(e) => spec_step(old(self)@) == StepSpec::Failed(e)
                    && final(self)@ == old(self)@,
            },
    {
        proof {
            reveal(spec_step);
        }
        let v = op_code.value;
        if v == 0x00 {
            self.advance_pc(1);
            Ok(StepOutcome::Continue)
        } else if v == 0x37 {
            self.flags.carry = true;
            self.advance_pc(1);
            Ok(StepOutcome::Continue)
        } else if v == 0x3f {
            self.flags.carry = !self.flags.carry;
            self.advance_pc(1);
            Ok(StepOutcome::Continue)
        } else if v == 0x76 {
            self.halt()
        } else if v == 0x0a || v == 0x1a {
            match self.load_accumulator(op_code) {
                Ok(()) => Ok(StepOutcome::Continue),
                Err(e) => Err(e),
            }
        } else if v == 0x32 {
            match self.store_acc_direct() {
                Ok(()) => Ok(StepOutcome::Continue),
                Err(e) => Err(e),
            }
        } else if v == 0x3a {
            match self.load_acc_direct() {
                Ok(()) => Ok(StepOutcome::Continue),
                Err(e) => Err(e),
            }
        } else if 0x01 <= v && v <= 0x3e {
            match self.single_operand_operation(op_code) {
                Ok(()) => Ok(StepOutcome::Continue),
                Err(e) => Err(e),
            }
        } else if 0x40 <= v && v <= 0x7f {
            match self.transfer(op_code) {
                Ok(()) => Ok(StepOutcome::Continue),
                Err(e) => Err(e),
            }
        } else if 0x80 <= v && v <= 0xbf {
            match self.arithmetic_operation(op_code) {
                Ok(()) => Ok(StepOutcome::Continue),
                Err(e) => Err(e),
            }
        } else if v == 0xc1 || v == 0xd1 || v == 0xe1 || v == 0xf1 || v == 0xc5 || v == 0xd5
            || v == 0xe5 || v == 0xf5 || v == 0xc6 || v == 0xce || v == 0xd6 || v == 0xde
            || v == 0xe6 || v == 0xee || v == 0xf6 || v == 0xfe {
            match self.single_operand_operation(op_code) {
                Ok(()) => Ok(StepOutcome::Continue),
                Err(e) => Err(e),
            }
        } else if v == 0xc2 || v == 0xc3 || v == 0xca || v == 0xd2 || v == 0xda || v == 0xe2
            || v == 0xea || v == 0xf2 || v == 0xfa {
            match self.jump_to_address(op_code) {
                Ok(()) => Ok(StepOutcome::Continue),
                Err(e) => Err(e),
            }
        } else if v == 0xeb {
            self.exchange_registers();
            Ok(StepOutcome::Continue)
        } else {
            Err(EmuError::UnknownOpCode)
        }
    }

    /// The halt instruction: ends the run as a successful, expected
    /// termination, leaving the whole state as it stands.
    fn halt(&self) -> (r: Result<StepOutcome, EmuError>)
        ensures
            r == Ok::<StepOutcome, EmuError>(StepOutcome::Halted),
    {
        Ok(StepOutcome::Halted)
    }

    /// Adds `value` and a carry-in bit into the accumulator; all flags
    /// are recomputed from the 16-bit sum.
    fn add(&mut self, value: u8, carry: bool)
        ensures
            final(self)@ == spec_add(old(self)@, value, carry),
    {
        let result: u16 = (self.registers.acc as u16) + (value as u16) + (if carry {
            1
        } else {
            0
        });
        self.flags.set_all(result);
        self.registers.acc = (result % 256) as u8;
    }

    /// Subtracts `value` plus a borrow-in bit from the accumulator
    /// under 16-bit wraparound; all flags are recomputed, the carry
    /// rule acting as the borrow indicator.
    fn subtract(&mut self, value: u8, carry: bool)
        ensures
            final(self)@ == spec_subtract(old(self)@, value, carry),
    {
        let minuend: u32 = (self.registers.acc as u32) + 0x10000;
        let subtrahend: u32 = (value as u32) + (if carry {
            1
        } else {
            0
        });
        let result: u16 = ((minuend - subtrahend) % 0x10000) as u16;
        proof {
            vstd::arithmetic::div_mod::lemma_mod_add_multiples_vanish(
                old(self).registers.acc - value - (if carry {
                    1int
                } else {
                    0int
                }),
                0x10000,
            );
        }
        self.flags.set_all(result);
        self.registers.acc = (result % 256) as u8;
    }

    /// Bitwise AND of `value` into the accumulator.
    fn and(&mut self, value: u8)
        ensures
            final(self)@ == spec_and(old(self)@, value),
    {
        let result: u16 = (self.registers.acc as u16) & (value as u16);
        self.flags.set_all(result);
        self.registers.acc = (result % 256) as u8;
    }

    /// Bitwise XOR of `value` into the accumulator.
    fn xor(&mut self, value: u8)
        ensures
            final(self)@ == spec_xor(old(self)@, value),
    {
        let result: u16 = (self.registers.acc as u16) ^ (value as u16);
        self.flags.set_all(result);
        self.registers.acc = (result % 256) as u8;
    }

    /// Bitwise OR of `value` into the accumulator.
    fn or(&mut self, value: u8)
        ensures
            final(self)@ == spec_or(old(self)@, value),
    {
        let result: u16 = (self.registers.acc as u16) | (value as u16);
        self.flags.set_all(result);
        self.registers.acc = (result % 256) as u8;
    }

    /// Compares `value` with the accumulator: the subtraction's flags
    /// are kept, its result is discarded.
    fn comparison(&mut self, value: u8)
        ensures
            final(self)@ == spec_comparison(old(self)@, value),
    {
        let minuend: u32 = (self.registers.acc as u32) + 0x10000;
        let result: u16 = ((minuend - (value as u32)) % 0x10000) as u16;
        self.flags.set_all(result);
    }

    /// Advances the program counter by the number of bytes the
    /// instruction consumed, wrapping at the 16-bit boundary.
    fn advance_pc(&mut self, count: u16)
        ensures
            final(self)@ == (CpuView { pc: wrap16(old(self)@.pc + count), ..old(self)@ }),
    {
        let pc = self.program_counter as usize;
        self.program_counter = ((pc + count as usize) % 0x10000) as u16;
    }

    /// Reads the 16-bit little-endian address stored in the two bytes
    /// following the opcode, without moving the program counter.
    fn fetch_operand_addressed_memory(&self) -> (r: Result<u16, EmuError>)
        ensures
            match r {
                Ok(a) => self@.pc + 2 < self@.mem.len() && a == spec_operand_address(self@),
                Err(e) => e == EmuError::OutOfBounds && self@.pc + 2 >= self@.mem.len(),
            },
    {
        let pc = self.program_counter as usize;
        let len = self.memory.instructions_len();
        if pc + 2 < len {
            let msb = self.memory.fetch_byte_at_offset((pc + 2) as u16);
            let lsb = self.memory.fetch_byte_at_offset((pc + 1) as u16);
            Ok((msb as u16) * 256 + (lsb as u16))
        } else {
            Err(EmuError::OutOfBounds)
        }
    }

    /// Loads the accumulator through the register pair the opcode
    /// selects: D:E for selector 0, B:C otherwise.
    fn load_accumulator(&mut self, op_code: &OpCode) -> (r: Result<(), EmuError>)
        ensures
            match r {
                Ok(()) => spec_load_accumulator(old(self)@, op_code.value) == Ok::<
                    CpuView,
                    EmuError,
                >(final(self)@),
                Err(e) => spec_load_accumulator(old(self)@, op_code.value) == Err::<
                    CpuView,
                    EmuError,
                >(e) && final(self)@ == old(self)@,
            },
    {
        let registry_pair = op_code.extract_registry_pair_description();
        let address: u16 = if registry_pair == 0 {
            self.registers.get_de()
        } else {
            self.registers.get_bc()
        };
        if (address as usize) < self.memory.instructions_len() {
            self.registers.acc = self.memory.fetch_byte_at_offset(address);
            self.advance_pc(1);
            Ok(())
        } else {
            Err(EmuError::OutOfBounds)
        }
    }

    /// Stores the accumulator at the direct address following the
    /// opcode; consumes three bytes.
    fn store_acc_direct(&mut self) -> (r: Result<(), EmuError>)
        ensures
            match r {
                Ok(()) => spec_store_acc_direct(old(self)@) == Ok::<CpuView, EmuError>(
                    final(self)@,
                ),
                Err(e) => spec_store_acc_direct(old(self)@) == Err::<CpuView, EmuError>(e)
                    && final(self)@ == old(self)@,
            },
    {
        let address = match self.fetch_operand_addressed_memory() {
            Ok(a) => a,
            Err(e) => {
                return Err(e);
            },
        };
        if (address as usize) < self.memory.instructions_len() {
            self.memory.set_byte_at_offset(address, self.registers.acc);
            self.advance_pc(3);
            Ok(())
        } else {
            Err(EmuError::OutOfBounds)
        }
    }

    /// Loads the accumulator from the direct address following the
    /// opcode; consumes three bytes.
    fn load_acc_direct(&mut self) -> (r: Result<(), EmuError>)
        ensures
            match r {
                Ok(()) => spec_load_acc_direct(old(self)@) == Ok::<CpuView, EmuError>(
                    final(self)@,
                ),
                Err(e) => spec_load_acc_direct(old(self)@) == Err::<CpuView, EmuError>(e)
                    && final(self)@ == old(self)@,
            },
    {
        let address = match self.fetch_operand_addressed_memory() {
            Ok(a) => a,
            Err(e) => {
                return Err(e);
            },
        };
        if (address as usize) < self.memory.instructions_len() {
            self.registers.acc = self.memory.fetch_byte_at_offset(address);
            self.advance_pc(3);
            Ok(())
        } else {
            Err(EmuError::OutOfBounds)
        }
    }

    /// Exchanges the D:E and H:L register pairs.
    fn exchange_registers(&mut self)
        ensures
            final(self)@ == spec_exchange_registers(old(self)@),
    {
        let mut tmp = self.registers.h;
        self.registers.h = self.registers.d;
        self.registers.d = tmp;
        tmp = self.registers.l;
        self.registers.l = self.registers.e;
        self.registers.e = tmp;
        self.advance_pc(1);
    }

    /// Evaluates the jump condition the opcode selects and, when it
    /// holds, sets the program counter to the target address; either
    /// way the counter is then advanced once more (the engine's
    /// jump-then-increment quirk).
    fn jump_to_address(&mut self, op_code: &OpCode) -> (r: Result<(), EmuError>)
        ensures
            match r {
                Ok(()) => spec_jump(old(self)@, op_code.value) == Ok::<CpuView, EmuError>(
                    final(self)@,
                ),
                Err(e) => spec_jump(old(self)@, op_code.value) == Err::<CpuView, EmuError>(e)
                    && final(self)@ == old(self)@,
            },
    {
        let instruction = op_code.extract_first_operand();
        let address = match self.fetch_operand_addressed_memory() {
            Ok(a) => a,
            Err(e) => {
                return Err(e);
            },
        };
        let result: bool = if instruction == 0 {
            op_code.extract_jmp_description() > 0 || !self.flags.zero
        } else if instruction == 1 {
            self.flags.zero
        } else if instruction == 2 {
            !self.flags.carry
        } else if instruction == 3 {
            self.flags.carry
        } else if instruction == 4 {
            !self.flags.parity
        } else if instruction == 5 {
            self.flags.parity
        } else if instruction == 6 {
            !self.flags.sign
        } else {
            self.flags.sign
        };
        if result {
            self.program_counter = address;
            self.advance_pc(1);
        } else {
            self.advance_pc(3);
        }
        Ok(())
    }

    /// Dispatches a single-operand instruction on its operation-class
    /// and sub-operation fields and advances the program counter by the
    /// one byte every form consumes on top of its own operands.
    fn single_operand_operation(&mut self, op_code: &OpCode) -> (r: Result<(), EmuError>)
        ensures
            match r {
                Ok(()) => spec_single_operand(old(self)@, op_code.value) == Ok::<
                    CpuView,
                    EmuError,
                >(final(self)@),
                Err(e) => spec_single_operand(old(self)@, op_code.value) == Err::<
                    CpuView,
                    EmuError,
                >(e) && final(self)@ == old(self)@,
            },
    {
        match self.single_operand_inner(op_code) {
            Ok(()) => {
                self.advance_pc(1);
                Ok(())
            },
            Err(e) => Err(e),
        }
    }

    /// The single-operand form itself, before the family's shared
    /// program-counter advance.
    #[verifier::spinoff_prover]
    #[verifier::rlimit(100)]
    fn single_operand_inner(&mut self, op_code: &OpCode) -> (r: Result<(), EmuError>)
        ensures
            match r {
                Ok(()) => spec_single_operand_inner(old(self)@, op_code.value) == Ok::<
                    CpuView,
                    EmuError,
                >(final(self)@),
                Err(e) => spec_single_operand_inner(old(self)@, op_code.value) == Err::<
                    CpuView,
                    EmuError,
                >(e) && final(self)@ == old(self)@,
            },
    {
        let class = op_code.extract_single_registry_operation();
        let sub = op_code.extract_second_operand();
        let encoded_address = op_code.extract_first_operand();
        if class == 0 && sub == 4 {
            self.increment_single(encoded_address)
        } else if class == 0 && sub == 5 {
            self.decrement_single(encoded_address)
        } else if class == 0 && sub == 7 {
            self.rotate_acc(encoded_address)
        } else if class == 0 && sub == 1 {
            self.double_add(encoded_address)
        } else if class == 0 && sub == 3 {
            self.increment_double(encoded_address)
        } else if class == 3 && sub == 5 {
            self.push_on_stack(encoded_address)
        } else if class == 3 && sub == 1 {
            self.pop_off_stack(encoded_address)
        } else if class == 0 && sub == 6 {
            self.move_immediate(encoded_address)
        } else if class == 3 && sub == 6 {
            self.immediate_arithmetic(encoded_address)
        } else {
            Err(EmuError::UnknownSubOperation)
        }
    }

    /// Increments the cell the selector names by one with 8-bit
    /// wraparound and recomputes zero, sign and parity from the new
    /// value, leaving the carry flag alone.
    fn increment_single(&mut self, encoded_address: u8) -> (r: Result<(), EmuError>)
        requires
            encoded_address < 8,
        ensures
            match r {
                Ok(()) => spec_increment(old(self)@, encoded_address) == Ok::<CpuView, EmuError>(
                    final(self)@,
                ),
                Err(e) => spec_increment(old(self)@, encoded_address) == Err::<CpuView, EmuError>(
                    e,
                ) && final(self)@ == old(self)@,
            },
    {
        match self.extract_memory_or_register(encoded_address) {
            Ok(value) => {
                proof {
                    lemma_wrap8_increment(value);
                }
                let new: u8 = if value == 255 {
                    0
                } else {
                    value + 1
                };
                self.change_single_registry_value(encoded_address, new)
            },
            Err(e) => Err(e),
        }
    }

    /// Decrements the cell the selector names by one with 8-bit
    /// wraparound (underflow wraps to 0xFF); the same flag subset as
    /// the increment.
    fn decrement_single(&mut self, encoded_address: u8) -> (r: Result<(), EmuError>)
        requires
            encoded_address < 8,
        ensures
            match r {
                Ok(()) => spec_decrement(old(self)@, encoded_address) == Ok::<CpuView, EmuError>(
                    final(self)@,
                ),
                Err(e) => spec_decrement(old(self)@, encoded_address) == Err::<CpuView, EmuError>(
                    e,
                ) && final(self)@ == old(self)@,
            },
    {
        match self.extract_memory_or_register(encoded_address) {
            Ok(value) => {
                proof {
                    lemma_wrap8_decrement(value);
                }
                let new: u8 = if value == 0 {
                    255
                } else {
                    value - 1
                };
                self.change_single_registry_value(encoded_address, new)
            },
            Err(e) => Err(e),
        }
    }

    /// Fetches the immediate byte following the opcode and hands it to
    /// the arithmetic/logical operation the selector names.
    fn immediate_arithmetic(&mut self, operation: u8) -> (r: Result<(), EmuError>)
        requires
            operation < 8,
        ensures
            match r {
                Ok(()) => spec_immediate_arithmetic(old(self)@, operation) == Ok::<
                    CpuView,
                    EmuError,
                >(final(self)@),
                Err(e) => spec_immediate_arithmetic(old(self)@, operation) == Err::<
                    CpuView,
                    EmuError,
                >(e) && final(self)@ == old(self)@,
            },
    {
        let pc = self.program_counter as usize;
        if pc + 1 < self.memory.instructions_len() {
            let data = self.memory.fetch_byte_at_offset((pc + 1) as u16);
            if operation == 0 {
                self.add(data, false);
            } else if operation == 1 {
                let carry = self.flags.carry;
                self.add(data, carry);
            } else if operation == 2 {
                self.subtract(data, false);
            } else if operation == 3 {
                let carry = self.flags.carry;
                self.subtract(data, carry);
            } else if operation == 4 {
                self.and(data);
            } else if operation == 5 {
                self.xor(data);
            } else if operation == 6 {
                self.or(data);
            } else {
                self.comparison(data);
            }
            self.advance_pc(1);
            Ok(())
        } else {
            Err(EmuError::OutOfBounds)
        }
    }

    /// Moves the immediate byte following the opcode into the cell the
    /// selector names.
    fn move_immediate(&mut self, address: u8) -> (r: Result<(), EmuError>)
        requires
            address < 8,
        ensures
            match r {
                Ok(()) => spec_move_immediate(old(self)@, address) == Ok::<CpuView, EmuError>(
                    final(self)@,
                ),
                Err(e) => spec_move_immediate(old(self)@, address) == Err::<CpuView, EmuError>(e)
                    && final(self)@ == old(self)@,
            },
    {
        let pc = self.program_counter as usize;
        if pc + 1 < self.memory.instructions_len() {
            let data = self.memory.fetch_byte_at_offset((pc + 1) as u16);
            match self.set_memory_or_register(address, data) {
                Ok(()) => {
                    self.advance_pc(1);
                    Ok(())
                },
                Err(e) => Err(e),
            }
        } else {
            Err(EmuError::OutOfBounds)
        }
    }

    /// Increments the register pair or stack pointer the selector
    /// names, wrapping at the 16-bit boundary; no flags are touched.
    #[verifier::rlimit(60)]
    fn increment_double(&mut self, address: u8) -> (r: Result<(), EmuError>)
        ensures
            match r {
                Ok(()) => spec_increment_double(old(self)@, address) == Ok::<CpuView, EmuError>(
                    final(self)@,
                ),
                Err(e) => spec_increment_double(old(self)@, address) == Err::<CpuView, EmuError>(
                    e,
                ) && final(self)@ == old(self)@,
            },
    {
        if address == 0 {
            let value = self.registers.get_bc();
            proof {
                lemma_wrap16_increment(value);
            }
            self.registers.set_bc(
                if value == 0xffff {
                    0
                } else {
                    value + 1
                },
            );
            Ok(())
        } else if address == 2 {
            let value = self.registers.get_de();
            proof {
                lemma_wrap16_increment(value);
            }
            self.registers.set_de(
                if value == 0xffff {
                    0
                } else {
                    value + 1
                },
            );
            Ok(())
        } else if address == 4 {
            let value = self.registers.get_hl();
            proof {
                lemma_wrap16_increment(value);
            }
            self.registers.set_hl(
                if value == 0xffff {
                    0
                } else {
                    value + 1
                },
            );
            Ok(())
        } else if address == 6 {
            let value = self.stack_pointer;
            proof {
                lemma_wrap16_increment(value);
            }
            self.stack_pointer = if value == 0xffff {
                0
            } else {
                value + 1
            };
            Ok(())
        } else {
            Err(EmuError::UnknownSubOperation)
        }
    }

    /// Adds the register pair or stack pointer the selector names into
    /// H:L; only the carry flag is touched, from the 32-bit sum.
    fn double_add(&mut self, address: u8) -> (r: Result<(), EmuError>)
        ensures
            match r {
                Ok(()) => spec_double_add(old(self)@, address) == Ok::<CpuView, EmuError>(
                    final(self)@,
                ),
                Err(e) => spec_double_add(old(self)@, address) == Err::<CpuView, EmuError>(e)
                    && final(self)@ == old(self)@,
            },
    {
        let value: u16 = if address == 1 {
            self.registers.get_bc()
        } else if address == 3 {
            self.registers.get_de()
        } else if address == 5 {
            self.registers.get_hl()
        } else if address == 7 {
            self.stack_pointer
        } else {
            return Err(EmuError::UnknownSubOperation);
        };
        let result: u32 = (self.registers.get_hl() as u32) + (value as u32);
        self.flags.set_carry_on_double(result);
        self.registers.set_hl((result % 0x10000) as u16);
        Ok(())
    }

    /// Pushes the register pair the selector names, or the
    /// accumulator+flags composite, onto the stack: high byte at
    /// `sp - 1`, low byte at `sp - 2`, stack pointer down by two.
    fn push_on_stack(&mut self, address: u8) -> (r: Result<(), EmuError>)
        ensures
            match r {
                Ok(()) => spec_push(old(self)@, address) == Ok::<CpuView, EmuError>(final(self)@),
                Err(e) => spec_push(old(self)@, address) == Err::<CpuView, EmuError>(e)
                    && final(self)@ == old(self)@,
            },
    {
        let upper: u8;
        let lower: u8;
        if address == 0 {
            upper = self.registers.b;
            lower = self.registers.c;
        } else if address == 2 {
            upper = self.registers.d;
            lower = self.registers.e;
        } else if address == 4 {
            upper = self.registers.h;
            lower = self.registers.l;
        } else if address == 6 {
            upper = self.registers.acc;
            lower = (if self.flags.sign {
                128u8
            } else {
                0u8
            }) + (if self.flags.zero {
                64u8
            } else {
                0u8
            }) + (if self.flags.aux_carry {
                16u8
            } else {
                0u8
            }) + (if self.flags.parity {
                4u8
            } else {
                0u8
            }) + 2 + (if self.flags.carry {
                1u8
            } else {
                0u8
            });
        } else {
            return Err(EmuError::UnknownSubOperation);
        }
        if 2 <= self.stack_pointer && ((self.stack_pointer - 1) as usize)
            < self.memory.instructions_len() {
            self.memory.set_byte_at_offset(self.stack_pointer - 1, upper);
            self.memory.set_byte_at_offset(self.stack_pointer - 2, lower);
            self.stack_pointer = self.stack_pointer - 2;
            Ok(())
        } else {
            Err(EmuError::OutOfBounds)
        }
    }

    /// Pops two bytes off the stack into the register pair the selector
    /// names, or into the accumulator and the flags for the composite
    /// form: the exact mirror of the push, with each flag taken from
    /// its own bit of the status byte.
    fn pop_off_stack(&mut self, destination: u8) -> (r: Result<(), EmuError>)
        ensures
            match r {
                Ok(()) => spec_pop(old(self)@, destination) == Ok::<CpuView, EmuError>(
                    final(self)@,
                ),
                Err(e) => spec_pop(old(self)@, destination) == Err::<CpuView, EmuError>(e)
                    && final(self)@ == old(self)@,
            },
    {
        if !(destination == 0 || destination == 2 || destination == 4 || destination == 6) {
            return Err(EmuError::UnknownSubOperation);
        }
        let sp = self.stack_pointer as usize;
        if sp + 1 < self.memory.instructions_len() {
            let low_byte = self.memory.fetch_byte_at_offset(self.stack_pointer);
            let high_byte = self.memory.fetch_byte_at_offset((sp + 1) as u16);
            if destination == 0 {
                self.registers.b = high_byte;
                self.registers.c = low_byte;
            } else if destination == 2 {
                self.registers.d = high_byte;
                self.registers.e = low_byte;
            } else if destination == 4 {
                self.registers.h = high_byte;
                self.registers.l = low_byte;
            } else {
                self.registers.acc = high_byte;
                self.flags.sign = (low_byte / 128) % 2 == 1;
                self.flags.zero = (low_byte / 64) % 2 == 1;
                self.flags.aux_carry = (low_byte / 16) % 2 == 1;
                self.flags.parity = (low_byte / 4) % 2 == 1;
                self.flags.carry = low_byte % 2 == 1;
            }
            self.stack_pointer = ((sp + 2) % 0x10000) as u16;
            Ok(())
        } else {
            Err(EmuError::OutOfBounds)
        }
    }

    /// Rotates the accumulator one position left (direction 0) or right
    /// (direction 1), copying the outgoing bit into the carry flag.
    fn rotate_acc(&mut self, direction: u8) -> (r: Result<(), EmuError>)
        ensures
            match r {
                Ok(()) => spec_rotate(old(self)@, direction) == Ok::<CpuView, EmuError>(
                    final(self)@,
                ),
                Err(e) => spec_rotate(old(self)@, direction) == Err::<CpuView, EmuError>(e)
                    && final(self)@ == old(self)@,
            },
    {
        if direction == 0 {
            let a = self.registers.acc;
            self.flags.carry = a / 128 == 1;
            self.registers.acc = (a % 128) * 2 + a / 128;
            Ok(())
        } else if direction == 1 {
            let a = self.registers.acc;
            self.flags.carry = a % 2 == 1;
            self.registers.acc = a / 2 + (a % 2) * 128;
            Ok(())
        } else {
            Err(EmuError::UnknownSubOperation)
        }
    }

    /// Stores `value` in the cell the selector names and recomputes the
    /// increment/decrement flag subset from it.
    fn change_single_registry_value(&mut self, encoded_address: u8, value: u8) -> (r: Result<
        (),
        EmuError,
    >)
        requires
            encoded_address < 8,
        ensures
            match r {
                Ok(()) => spec_change_single(old(self)@, encoded_address, value) == Ok::<
                    CpuView,
                    EmuError,
                >(final(self)@),
                Err(e) => spec_change_single(old(self)@, encoded_address, value) == Err::<
                    CpuView,
                    EmuError,
                >(e) && final(self)@ == old(self)@,
            },
    {
        match self.set_memory_or_register(encoded_address, value) {
            Ok(()) => {
                self.flags.set_single_registry_operation_flags(value as u16);
                Ok(())
            },
            Err(e) => Err(e),
        }
    }

    /// Copies the source the second-operand field names to the
    /// destination the first-operand field names; either may be the
    /// memory cell at the H:L address.
    fn transfer(&mut self, op_code: &OpCode) -> (r: Result<(), EmuError>)
        ensures
            match r {
                Ok(()) => spec_transfer(old(self)@, op_code.value) == Ok::<CpuView, EmuError>(
                    final(self)@,
                ),
                Err(e) => spec_transfer(old(self)@, op_code.value) == Err::<CpuView, EmuError>(e)
                    && final(self)@ == old(self)@,
            },
    {
        match self.extract_source_value(op_code) {
            Ok(source) => {
                let encoded_dest = op_code.extract_first_operand();
                match self.set_memory_or_register(encoded_dest, source) {
                    Ok(()) => {
                        self.advance_pc(1);
                        Ok(())
                    },
                    Err(e) => Err(e),
                }
            },
            Err(e) => Err(e),
        }
    }

    /// The transfer source named by the opcode's second-operand field.
    fn extract_source_value(&self, op_code: &OpCode) -> (r: Result<u8, EmuError>)
        ensures
            r == spec_read_operand(self@, spec_second_operand(op_code.value)),
    {
        let encoded_source = op_code.extract_second_operand();
        self.extract_memory_or_register(encoded_source)
    }

    /// Fetches the operand the second-operand field names and hands it
    /// to the arithmetic/logical operation the first-operand field
    /// selects.
    fn arithmetic_operation(&mut self, op_code: &OpCode) -> (r: Result<(), EmuError>)
        ensures
            match r {
                Ok(()) => spec_arithmetic_operation(old(self)@, op_code.value) == Ok::<
                    CpuView,
                    EmuError,
                >(final(self)@),
                Err(e) => spec_arithmetic_operation(old(self)@, op_code.value) == Err::<
                    CpuView,
                    EmuError,
                >(e) && final(self)@ == old(self)@,
            },
    {
        let encoded_operation = op_code.extract_first_operand();
        let encoded_addend = op_code.extract_second_operand();
        match self.extract_memory_or_register(encoded_addend) {
            Ok(value) => {
                if encoded_operation == 0 {
                    self.add(value, false);
                } else if encoded_operation == 1 {
                    let carry = self.flags.carry;
                    self.add(value, carry);
                } else if encoded_operation == 2 {
                    self.subtract(value, false);
                } else if encoded_operation == 3 {
                    let carry = self.flags.carry;
                    self.subtract(value, carry);
                } else if encoded_operation == 4 {
                    self.and(value);
                } else if encoded_operation == 5 {
                    self.xor(value);
                } else if encoded_operation == 6 {
                    self.or(value);
                } else {
                    self.comparison(value);
                }
                self.advance_pc(1);
                Ok(())
            },
            Err(e) => Err(e),
        }
    }

    /// The operand named by a source selector: the byte at the H:L
    /// address for the memory-indirect code, the named register
    /// otherwise.
    fn extract_memory_or_register(&self, encoded_source: u8) -> (r: Result<u8, EmuError>)
        requires
            encoded_source < 8,
        ensures
            r == spec_read_operand(self@, encoded_source),
    {
        if encoded_source == 6 {
            let address = self.registers.get_hl();
            if (address as usize) < self.memory.instructions_len() {
                Ok(self.memory.fetch_byte_at_offset(address))
            } else {
                Err(EmuError::OutOfBounds)
            }
        } else {
            Ok(self.registers.get_register(encoded_source))
        }
    }

    /// Writes `value` to the cell named by a destination selector:
    /// memory at the H:L address for the memory-indirect code, the
    /// named register otherwise. On a fault the state is unchanged.
    fn set_memory_or_register(&mut self, encoded_address: u8, value: u8) -> (r: Result<
        (),
        EmuError,
    >)
        requires
            encoded_address < 8,
        ensures
            match r {
                Ok(()) => spec_write_operand(old(self)@, encoded_address, value) == Ok::<
                    CpuView,
                    EmuError,
                >(final(self)@),
                Err(e) => spec_write_operand(old(self)@, encoded_address, value) == Err::<
                    CpuView,
                    EmuError,
                >(e) && final(self)@ == old(self)@,
            },
    {
        if encoded_address == 6 {
            let address = self.registers.get_hl();
            if (address as usize) < self.memory.instructions_len() {
                self.memory.set_byte_at_offset(address, value);
                Ok(())
            } else {
                Err(EmuError::OutOfBounds)
            }
        } else {
            self.registers.set_register(encoded_address, value);
            Ok(())
        }
    }
}

/// A run that has settled — the program counter has left the loaded
/// instructions, the halt instruction was reached, or a cycle faulted —
/// stays where it is under any further cycles. Together with the
/// contract of [`Cpu::emulate`], this carries a fact about a settled
/// run at any step count up to the full budget.
pub proof fn lemma_run_settles(s: CpuView, n: nat, m: nat)
    requires
        n <= m,
        spec_run(s, n) is Running ==> spec_run(s, n)->Running_0.pc >= spec_run(
            s,
            n,
        )->Running_0.mem.len(),
    ensures
        spec_run(s, m) == spec_run(s, n),
    decreases m,
{
    if m > n {
        lemma_run_settles(s, n, (m - 1) as nat);
    }
}

/// For all 8-bit values, adding `value` into an accumulator holding
/// `acc` without carry-in leaves `(acc + value) mod 256` in the
/// accumulator, and sets the carry flag exactly when `acc + value`
/// exceeds 255.
pub proof fn lemma_add_wraps(s: CpuView, value: u8)
    ensures
        spec_add(s, value, false).regs.acc == (s.regs.acc + value) % 256,
        spec_add(s, value, false).flags.carry == (s.regs.acc + value > 255),
{
}

/// Subtracting the accumulator from itself without borrow-in yields
/// accumulator 0 and sets the zero flag.
pub proof fn lemma_subtract_self(s: CpuView)
    ensures
        spec_subtract(s, s.regs.acc, false).regs.acc == 0,
        spec_subtract(s, s.regs.acc, false).flags.zero,
{
    vstd::arithmetic::div_mod::lemma_small_mod(0, 0x10000);
}

/// Incrementing and then decrementing any register returns it to its
/// original value, and neither operation disturbs the carry flag:
/// carry is excluded from the increment/decrement flag subset.
pub proof fn lemma_increment_then_decrement(s: CpuView, selector: u8)
    requires
        selector < 8,
        selector != 6,
    ensures
        spec_increment(s, selector) is Ok,
        ({
            let s1 = spec_increment(s, selector)->Ok_0;
            &&& s1.flags.carry == s.flags.carry
            &&& spec_decrement(s1, selector) is Ok
            &&& spec_decrement(s1, selector)->Ok_0.regs == s.regs
            &&& spec_decrement(s1, selector)->Ok_0.flags.carry == s.flags.carry
        }),
{
    let v = spec_register(s.regs, selector);
    lemma_wrap8_increment(v);
    let s1 = spec_increment(s, selector)->Ok_0;
    let v1 = spec_register(s1.regs, selector);
    lemma_wrap8_decrement(v1);
    assert(spec_decrement(s1, selector)->Ok_0.regs =~= s.regs);
}

/// Pushing a register pair, or the accumulator+flags composite, and
/// popping it straight back restores the two pushed cells, every flag
/// and the stack pointer exactly; the fixed bits of the status byte
/// are not read back as flags.
pub proof fn lemma_push_pop_round_trip(s: CpuView, selector: u8)
    requires
        selector == 0 || selector == 2 || selector == 4 || selector == 6,
        2 <= s.sp,
        s.sp - 1 < s.mem.len(),
    ensures
        spec_push(s, selector) is Ok,
        ({
            let pushed = spec_push(s, selector)->Ok_0;
            &&& spec_pop(pushed, selector) is Ok
            &&& spec_pop(pushed, selector)->Ok_0.regs == s.regs
            &&& spec_pop(pushed, selector)->Ok_0.flags == s.flags
            &&& spec_pop(pushed, selector)->Ok_0.sp == s.sp
        }),
{
    lemma_pack_unpack_flags(s.flags);
    let pushed = spec_push(s, selector)->Ok_0;
    vstd::arithmetic::div_mod::lemma_small_mod(s.sp as nat, 0x10000);
    assert(spec_pop(pushed, selector)->Ok_0.regs =~= s.regs);
}

/// Every flag survives the round trip through the packed status byte.
proof fn lemma_pack_unpack_flags(f: Flags)
    ensures
        spec_unpack_flags(spec_pack_flags(f)) == f,
{
}

} // verus!
