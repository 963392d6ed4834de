use vstd::prelude::*;

verus! {

/// The seven 8-bit registers of the processor: the accumulator and six
/// general-purpose cells. Adjacent cells pair into the 16-bit
/// pseudo-registers B:C, D:E and H:L, high half first.
#[derive(Clone, Copy, Debug)]
pub struct Registers {
    pub acc: u8,
    pub b: u8,
    pub c: u8,
    pub d: u8,
    pub e: u8,
    pub h: u8,
    pub l: u8,
}

/// The five condition flags. Each is derived in full from the most
/// recent arithmetic or logical result that defines it; the auxiliary
/// carry is carried along but never computed by this instruction subset.
#[derive(Clone, Copy, Debug)]
pub struct Flags {
    pub zero: bool,
    pub sign: bool,
    pub parity: bool,
    pub carry: bool,
    pub aux_carry: bool,
}

/// The 16-bit value of a register pair: `high * 256 + low`.
pub open spec fn spec_pair(high: u8, low: u8) -> u16 {
    (high * 256 + low) as u16
}

/// Number of set bits in the binary representation of `v`.
pub open spec fn count_bits(v: nat) -> nat
    decreases v,
{
    if v == 0 {
        0
    } else {
        (v % 2 + count_bits(v / 2)) as nat
    }
}

/// The zero flag holds exactly when the low byte of the result is zero.
pub open spec fn spec_zero_flag(value: u16) -> bool {
    value % 256 == 0
}

/// The sign flag copies bit 7 of the result.
pub open spec fn spec_sign_flag(value: u16) -> bool {
    (value / 128) % 2 == 1
}

/// The parity flag holds exactly when the result has an even number of
/// set bits (even-parity convention).
pub open spec fn spec_parity_flag(value: u16) -> bool {
    count_bits(value as nat) % 2 == 0
}

/// The carry flag holds exactly when the result overflowed out of the
/// low byte, i.e. exceeds 0xFF before truncation to 8 bits.
pub open spec fn spec_carry_flag(value: u16) -> bool {
    value > 0xff
}

/// The flags after an operation that defines all of them. The auxiliary
/// carry is outside this instruction subset and keeps its old value.
pub open spec fn spec_flags_all(f: Flags, value: u16) -> Flags {
    Flags {
        zero: spec_zero_flag(value),
        sign: spec_sign_flag(value),
        parity: spec_parity_flag(value),
        carry: spec_carry_flag(value),
        aux_carry: f.aux_carry,
    }
}

/// The flags after an increment or decrement: zero, sign and parity are
/// recomputed while the carry flag is deliberately left alone.
pub open spec fn spec_flags_single(f: Flags, value: u16) -> Flags {
    Flags {
        zero: spec_zero_flag(value),
        sign: spec_sign_flag(value),
        parity: spec_parity_flag(value),
        carry: f.carry,
        aux_carry: f.aux_carry,
    }
}

/// The population count of a number is never larger than the number.
proof fn lemma_count_bits_le(v: nat)
    ensures
        count_bits(v) <= v,
    decreases v,
{
    if v > 0 {
        lemma_count_bits_le(v / 2);
    }
}

/// Counts the set bits of `value`.
fn count_one_bits(value: u16) -> (n: u32)
    ensures
        n == count_bits(value as nat),
{
    let mut v: u16 = value;
    let mut n: u32 = 0;
    while v > 0
        invariant
            n + count_bits(v as nat) == count_bits(value as nat),
            n <= 0xffff,
        decreases v,
    {
        proof {
            lemma_count_bits_le(value as nat);
        }
        if v % 2 == 1 {
            n = n + 1;
        }
        v = v / 2;
    }
    n
}

impl Registers {
    /// A register file with every cell cleared.
    pub fn new() -> (r: Registers)
        ensures
            r == (Registers { acc: 0, b: 0, c: 0, d: 0, e: 0, h: 0, l: 0 }),
    {
        Registers { acc: 0, b: 0, c: 0, d: 0, e: 0, h: 0, l: 0 }
    }

    /// The H:L pair read as one 16-bit value, H as the high half.
    pub fn get_hl(&self) -> (r: u16)
        ensures
            r == spec_pair(self.h, self.l),
    {
        (self.h as u16) * 256 + (self.l as u16)
    }

    /// The D:E pair read as one 16-bit value, D as the high half.
    pub fn get_de(&self) -> (r: u16)
        ensures
            r == spec_pair(self.d, self.e),
    {
        (self.d as u16) * 256 + (self.e as u16)
    }

    /// The B:C pair read as one 16-bit value, B as the high half.
    pub fn get_bc(&self) -> (r: u16)
        ensures
            r == spec_pair(self.b, self.c),
    {
        (self.b as u16) * 256 + (self.c as u16)
    }

    /// Splits a 16-bit value into the H:L pair, high byte into H.
    pub fn set_hl(&mut self, value: u16)
        ensures
            *final(self) == (Registers { h: (value / 256) as u8, l: (value % 256) as u8, ..*old(self) }),
    {
        self.h = (value / 256) as u8;
        self.l = (value % 256) as u8;
    }

    /// Splits a 16-bit value into the D:E pair, high byte into D.
    pub fn set_de(&mut self, value: u16)
        ensures
            *final(self) == (Registers { d: (value / 256) as u8, e: (value % 256) as u8, ..*old(self) }),
    {
        self.d = (value / 256) as u8;
        self.e = (value % 256) as u8;
    }

    /// Splits a 16-bit value into the B:C pair, high byte into B.
    pub fn set_bc(&mut self, value: u16)
        ensures
            *final(self) == (Registers { b: (value / 256) as u8, c: (value % 256) as u8, ..*old(self) }),
    {
        self.b = (value / 256) as u8;
        self.c = (value % 256) as u8;
    }

    /// The current value of the register cell named by `selector`.
    /// Selector 6 is the memory-indirect code and is resolved by the
    /// execution engine before it reaches the register file.
    pub fn get_register(&self, selector: u8) -> (r: u8)
        requires
            selector < 8,
            selector != 6,
        ensures
            r == spec_register(*self, selector),
    {
        if selector == 0 {
            self.b
        } else if selector == 1 {
            self.c
        } else if selector == 2 {
            self.d
        } else if selector == 3 {
            self.e
        } else if selector == 4 {
            self.h
        } else if selector == 5 {
            self.l
        } else {
            self.acc
        }
    }

    /// Stores `value` into the register cell named by `selector`.
    pub fn set_register(&mut self, selector: u8, value: u8)
        requires
            selector < 8,
            selector != 6,
        ensures
            *final(self) == spec_with_register(*old(self), selector, value),
    {
        if selector == 0 {
            self.b = value;
        } else if selector == 1 {
            self.c = value;
        } else if selector == 2 {
            self.d = value;
        } else if selector == 3 {
            self.e = value;
        } else if selector == 4 {
            self.h = value;
        } else if selector == 5 {
            self.l = value;
        } else {
            self.acc = value;
        }
    }
}

/// The register cell named by a 3-bit selector: 0 B, 1 C, 2 D, 3 E,
/// 4 H, 5 L, 7 accumulator. Selector 6 is the memory-indirect code and
/// names no register.
pub open spec fn spec_register(r: Registers, selector: u8) -> u8 {
    if selector == 0 {
        r.b
    } else if selector == 1 {
        r.c
    } else if selector == 2 {
        r.d
    } else if selector == 3 {
        r.e
    } else if selector == 4 {
        r.h
    } else if selector == 5 {
        r.l
    } else {
        r.acc
    }
}

/// The register file with the cell named by `selector` replaced.
pub open spec fn spec_with_register(r: Registers, selector: u8, value: u8) -> Registers {
    if selector == 0 {
        Registers { b: value, ..r }
    } else if selector == 1 {
        Registers { c: value, ..r }
    } else if selector == 2 {
        Registers { d: value, ..r }
    } else if selector == 3 {
        Registers { e: value, ..r }
    } else if selector == 4 {
        Registers { h: value, ..r }
    } else if selector == 5 {
        Registers { l: value, ..r }
    } else {
        Registers { acc: value, ..r }
    }
}

/// Reading a pair after it was set from a 16-bit value gives that value
/// back, and setting it from a read pair reproduces both cells.
pub proof fn lemma_pair_round_trip(value: u16, high: u8, low: u8)
    ensures
        spec_pair((value / 256) as u8, (value % 256) as u8) == value,
        spec_pair(high, low) / 256 == high,
        spec_pair(high, low) % 256 == low,
{
}

impl Flags {
    /// A flag set with every flag cleared.
    pub fn new() -> (f: Flags)
        ensures
            f == (Flags { zero: false, sign: false, parity: false, carry: false, aux_carry: false }),
    {
        Flags { zero: false, sign: false, parity: false, carry: false, aux_carry: false }
    }

    /// Recomputes the zero flag from `value`.
    pub fn set_zero(&mut self, value: u16)
        ensures
            *final(self) == (Flags { zero: spec_zero_flag(value), ..*old(self) }),
    {
        self.zero = value % 256 == 0;
    }

    /// Recomputes the parity flag from `value`.
    pub fn set_parity(&mut self, value: u16)
        ensures
            *final(self) == (Flags { parity: spec_parity_flag(value), ..*old(self) }),
    {
        self.parity = count_one_bits(value) % 2 == 0;
    }

    /// Recomputes the sign flag from `value`.
    pub fn set_sign(&mut self, value: u16)
        ensures
            *final(self) == (Flags { sign: spec_sign_flag(value), ..*old(self) }),
    {
        self.sign = (value / 128) % 2 == 1;
    }

    /// Recomputes the carry flag from `value`.
    pub fn set_carry(&mut self, value: u16)
        ensures
            *final(self) == (Flags { carry: spec_carry_flag(value), ..*old(self) }),
    {
        self.carry = value > 0xff;
    }

    /// Recomputes every flag that an arithmetic or logical operation
    /// defines: zero, sign, parity and carry.
    pub fn set_all(&mut self, value: u16)
        ensures
            *final(self) == spec_flags_all(*old(self), value),
    {
        self.set_zero(value);
        self.set_sign(value);
        self.set_parity(value);
        self.set_carry(value);
    }

    /// Recomputes the flags that an increment or decrement defines; the
    /// carry flag must not be disturbed by those operations.
    pub fn set_single_registry_operation_flags(&mut self, value: u16)
        ensures
            *final(self) == spec_flags_single(*old(self), value),
    {
        self.set_zero(value);
        self.set_sign(value);
        self.set_parity(value);
    }

    /// Recomputes the carry flag from a 32-bit sum of two register
    /// pairs: set exactly when the sum exceeds 0xFFFF.
    pub fn set_carry_on_double(&mut self, value: u32)
        ensures
            *final(self) == (Flags { carry: value > 0xffff, ..*old(self) }),
    {
        self.carry = value > 0xffff;
    }
}

} // verus!
