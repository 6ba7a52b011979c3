use vstd::prelude::*;

verus! {

/// Zero: the result of the last flag-setting operation was zero.
pub const ZERO_FLAG: u8 = 0x80;

/// Subtract: the last flag-setting operation was a subtraction.
pub const SUB_FLAG: u8 = 0x40;

/// Half-Carry: a carry out of bit 3 (bit 11 for 16-bit adds), or a borrow
/// from bit 4.
pub const HCARRY_FLAG: u8 = 0x20;

/// Carry: an unsigned carry out of the top bit, or a borrow into it.
pub const CARRY_FLAG: u8 = 0x10;

/// The register file: eight 8-bit registers, program counter and stack
/// pointer.
#[derive(Clone, Copy, Debug, PartialEq, Eq, Structural)]
pub struct Registers {
    pub a: u8,
    pub b: u8,
    pub c: u8,
    pub d: u8,
    pub e: u8,
    pub f: u8,
    pub h: u8,
    pub l: u8,
    pub pc: u16,
    pub sp: u16,
}

/// The flag byte with exactly the given four flags set.
pub open spec fn flags(z: bool, n: bool, h: bool, c: bool) -> u8 {
    (if z { ZERO_FLAG } else { 0u8 }) | (if n { SUB_FLAG } else { 0u8 }) | (if h {
        HCARRY_FLAG
    } else {
        0u8
    }) | (if c { CARRY_FLAG } else { 0u8 })
}

/// Whether the flag `mask` is set in `f`.
pub open spec fn has_flag(f: u8, mask: u8) -> bool {
    f & mask != 0
}

/// A flag byte built from four flags has its low nibble clear and reads back
/// each flag as given.
pub broadcast proof fn lemma_flags(z: bool, n: bool, h: bool, c: bool)
    ensures
        #[trigger] flags(z, n, h, c) & 0x0F == 0,
        has_flag(flags(z, n, h, c), ZERO_FLAG) == z,
        has_flag(flags(z, n, h, c), SUB_FLAG) == n,
        has_flag(flags(z, n, h, c), HCARRY_FLAG) == h,
        has_flag(flags(z, n, h, c), CARRY_FLAG) == c,
{
    assert(flags(z, n, h, c) & 0x0F == 0) by (bit_vector);
    assert(has_flag(flags(z, n, h, c), ZERO_FLAG) == z) by (bit_vector);
    assert(has_flag(flags(z, n, h, c), SUB_FLAG) == n) by (bit_vector);
    assert(has_flag(flags(z, n, h, c), HCARRY_FLAG) == h) by (bit_vector);
    assert(has_flag(flags(z, n, h, c), CARRY_FLAG) == c) by (bit_vector);
}

/// Keeping the high nibble of a byte leaves its low nibble clear.
pub broadcast proof fn lemma_high_nibble(x: u8)
    ensures
        #[trigger] (x & 0xF0) & 0x0F == 0,
{
    assert((x & 0xF0) & 0x0F == 0) by (bit_vector);
}

/// Builds the flag byte with exactly the given four flags set.
pub fn make_flags(z: bool, n: bool, h: bool, c: bool) -> (r: u8)
    ensures
        r == flags(z, n, h, c),
{
    let zf: u8 = if z { ZERO_FLAG } else { 0 };
    let nf: u8 = if n { SUB_FLAG } else { 0 };
    let hf: u8 = if h { HCARRY_FLAG } else { 0 };
    let cf: u8 = if c { CARRY_FLAG } else { 0 };
    zf | nf | hf | cf
}

/// Whether the flag `mask` is set in `f`.
pub fn flag_set(f: u8, mask: u8) -> (r: bool)
    ensures
        r == has_flag(f, mask),
{
    f & mask != 0
}

/// The 16-bit value of a register pair, `hi` in the upper byte.
pub open spec fn pair(hi: u8, lo: u8) -> u16 {
    (hi * 256 + lo) as u16
}

/// Joins two registers into a 16-bit pair value, `hi` in the upper byte.
pub fn join(hi: u8, lo: u8) -> (r: u16)
    ensures
        r == pair(hi, lo),
{
    hi as u16 * 256 + lo as u16
}

/// The upper byte of `v`.
pub open spec fn high(v: u16) -> u8 {
    (v / 256) as u8
}

/// The lower byte of `v`.
pub open spec fn low(v: u16) -> u8 {
    (v % 256) as u8
}

/// Splitting a pair value gives back the two registers it was joined from,
/// and joining the halves of a value gives back the value.
pub proof fn lemma_pair_split(hi: u8, lo: u8, v: u16)
    ensures
        high(pair(hi, lo)) == hi,
        low(pair(hi, lo)) == lo,
        pair(high(v), low(v)) == v,
{
}

impl Registers {
    /// All registers zero.
    pub open spec fn zeroed() -> Registers {
        Registers { a: 0, b: 0, c: 0, d: 0, e: 0, f: 0, h: 0, l: 0, pc: 0, sp: 0 }
    }

    /// The low nibble of the flag register is clear.
    pub open spec fn wf(&self) -> bool {
        self.f & 0x0F == 0
    }

    pub open spec fn bc(&self) -> u16 {
        pair(self.b, self.c)
    }

    pub open spec fn de(&self) -> u16 {
        pair(self.d, self.e)
    }

    pub open spec fn hl(&self) -> u16 {
        pair(self.h, self.l)
    }

    pub open spec fn af(&self) -> u16 {
        pair(self.a, self.f)
    }

    /// The 8-bit register selected by an operand index: B, C, D, E, H, L,
    /// (index 6 names memory at HL and is not a register), A.
    pub open spec fn r8(&self, i: u8) -> u8 {
        if i == 0 {
            self.b
        } else if i == 1 {
            self.c
        } else if i == 2 {
            self.d
        } else if i == 3 {
            self.e
        } else if i == 4 {
            self.h
        } else if i == 5 {
            self.l
        } else {
            self.a
        }
    }

    /// These registers with the one at operand index `i` set to `v`.
    pub open spec fn with_r8(self, i: u8, v: u8) -> Registers {
        if i == 0 {
            Registers { b: v, ..self }
        } else if i == 1 {
            Registers { c: v, ..self }
        } else if i == 2 {
            Registers { d: v, ..self }
        } else if i == 3 {
            Registers { e: v, ..self }
        } else if i == 4 {
            Registers { h: v, ..self }
        } else if i == 5 {
            Registers { l: v, ..self }
        } else {
            Registers { a: v, ..self }
        }
    }

    /// The register pair selected by index: BC, DE, HL, SP.
    pub open spec fn rp(&self, p: u8) -> u16 {
        if p == 0 {
            self.bc()
        } else if p == 1 {
            self.de()
        } else if p == 2 {
            self.hl()
        } else {
            self.sp
        }
    }

    /// These registers with the pair at index `p` (BC, DE, HL, SP) set to `v`.
    pub open spec fn with_rp(self, p: u8, v: u16) -> Registers {
        if p == 0 {
            Registers { b: high(v), c: low(v), ..self }
        } else if p == 1 {
            Registers { d: high(v), e: low(v), ..self }
        } else if p == 2 {
            Registers { h: high(v), l: low(v), ..self }
        } else {
            Registers { sp: v, ..self }
        }
    }

    /// The pair that PUSH and POP use at index `p`: BC, DE, HL, AF.
    pub open spec fn rp2(&self, p: u8) -> u16 {
        if p == 3 {
            self.af()
        } else {
            self.rp(p)
        }
    }

    /// These registers with the stack pair at index `p` set to `v`; for AF
    /// the low nibble of F stays clear.
    pub open spec fn with_rp2(self, p: u8, v: u16) -> Registers {
        if p == 3 {
            Registers { a: high(v), f: low(v) & 0xF0, ..self }
        } else {
            self.with_rp(p, v)
        }
    }

    /// The register at operand index `i` (any index but 6).
    pub fn get_r8(&self, i: u8) -> (r: u8)
        ensures
            r == self.r8(i),
    {
        if i == 0 {
            self.b
        } else if i == 1 {
            self.c
        } else if i == 2 {
            self.d
        } else if i == 3 {
            self.e
        } else if i == 4 {
            self.h
        } else if i == 5 {
            self.l
        } else {
            self.a
        }
    }

    /// Sets the register at operand index `i` (any index but 6).
    pub fn set_r8(&mut self, i: u8, v: u8)
        ensures
            *final(self) == old(self).with_r8(i, v),
    {
        if i == 0 {
            self.b = v;
        } else if i == 1 {
            self.c = v;
        } else if i == 2 {
            self.d = v;
        } else if i == 3 {
            self.e = v;
        } else if i == 4 {
            self.h = v;
        } else if i == 5 {
            self.l = v;
        } else {
            self.a = v;
        }
    }

    /// The register pair at index `p`: BC, DE, HL, SP.
    pub fn get_rp(&self, p: u8) -> (r: u16)
        ensures
            r == self.rp(p),
    {
        if p == 0 {
            join(self.b, self.c)
        } else if p == 1 {
            join(self.d, self.e)
        } else if p == 2 {
            join(self.h, self.l)
        } else {
            self.sp
        }
    }

    /// Sets the register pair at index `p`: BC, DE, HL, SP.
    pub fn set_rp(&mut self, p: u8, v: u16)
        ensures
            *final(self) == old(self).with_rp(p, v),
    {
        let hi = (v / 256) as u8;
        let lo = (v % 256) as u8;
        if p == 0 {
            self.b = hi;
            self.c = lo;
        } else if p == 1 {
            self.d = hi;
            self.e = lo;
        } else if p == 2 {
            self.h = hi;
            self.l = lo;
        } else {
            self.sp = v;
        }
    }

    /// The stack pair at index `p`: BC, DE, HL, AF.
    pub fn get_rp2(&self, p: u8) -> (r: u16)
        ensures
            r == self.rp2(p),
    {
        if p == 3 {
            join(self.a, self.f)
        } else {
            self.get_rp(p)
        }
    }

    /// Sets the stack pair at index `p`: BC, DE, HL, AF.
    pub fn set_rp2(&mut self, p: u8, v: u16)
        ensures
            *final(self) == old(self).with_rp2(p, v),
    {
        if p == 3 {
            self.a = (v / 256) as u8;
            self.f = (v % 256) as u8 & 0xF0;
        } else {
            self.set_rp(p, v);
        }
    }
}

} // verus!
