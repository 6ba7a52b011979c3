use vstd::prelude::*;
use crate::regs::{
    flags, has_flag, make_flags, flag_set, ZERO_FLAG, SUB_FLAG, HCARRY_FLAG, CARRY_FLAG,
};

verus! {

broadcast use crate::regs::lemma_flags;

/// The eight accumulator operations, in opcode order.
#[derive(Clone, Copy, Debug, PartialEq, Eq, Structural)]
pub enum AluOp {
    Add,
    Adc,
    Sub,
    Sbc,
    And,
    Xor,
    Or,
    Cp,
}

/// The eight rotate and shift operations, in opcode order.
#[derive(Clone, Copy, Debug, PartialEq, Eq, Structural)]
pub enum ShiftOp {
    Rlc,
    Rrc,
    Rl,
    Rr,
    Sla,
    Sra,
    Swap,
    Srl,
}

/// The accumulator operation that opcode bits 3..5 select.
pub open spec fn alu_op_at(y: u8) -> AluOp {
    if y == 0 {
        AluOp::Add
    } else if y == 1 {
        AluOp::Adc
    } else if y == 2 {
        AluOp::Sub
    } else if y == 3 {
        AluOp::Sbc
    } else if y == 4 {
        AluOp::And
    } else if y == 5 {
        AluOp::Xor
    } else if y == 6 {
        AluOp::Or
    } else {
        AluOp::Cp
    }
}

/// The rotate or shift operation that opcode bits 3..5 select.
pub open spec fn shift_op_at(y: u8) -> ShiftOp {
    if y == 0 {
        ShiftOp::Rlc
    } else if y == 1 {
        ShiftOp::Rrc
    } else if y == 2 {
        ShiftOp::Rl
    } else if y == 3 {
        ShiftOp::Rr
    } else if y == 4 {
        ShiftOp::Sla
    } else if y == 5 {
        ShiftOp::Sra
    } else if y == 6 {
        ShiftOp::Swap
    } else {
        ShiftOp::Srl
    }
}

impl AluOp {
    /// The operation that opcode bits 3..5 select.
    pub fn from_index(y: u8) -> (r: AluOp)
        ensures
            r == alu_op_at(y),
    {
        if y == 0 {
            AluOp::Add
        } else if y == 1 {
            AluOp::Adc
        } else if y == 2 {
            AluOp::Sub
        } else if y == 3 {
            AluOp::Sbc
        } else if y == 4 {
            AluOp::And
        } else if y == 5 {
            AluOp::Xor
        } else if y == 6 {
            AluOp::Or
        } else {
            AluOp::Cp
        }
    }
}

impl ShiftOp {
    /// The operation that opcode bits 3..5 select.
    pub fn from_index(y: u8) -> (r: ShiftOp)
        ensures
            r == shift_op_at(y),
    {
        if y == 0 {
            ShiftOp::Rlc
        } else if y == 1 {
            ShiftOp::Rrc
        } else if y == 2 {
            ShiftOp::Rl
        } else if y == 3 {
            ShiftOp::Rr
        } else if y == 4 {
            ShiftOp::Sla
        } else if y == 5 {
            ShiftOp::Sra
        } else if y == 6 {
            ShiftOp::Swap
        } else {
            ShiftOp::Srl
        }
    }
}

/// 1 when the Carry flag of `f` is set, else 0.
pub open spec fn carry_in(f: u8) -> int {
    if has_flag(f, CARRY_FLAG) {
        1
    } else {
        0
    }
}

/// The value an accumulator operation computes from `a` and `v`; for CP the
/// difference, which only sets flags.
pub open spec fn alu_value(op: AluOp, a: u8, v: u8, f: u8) -> u8 {
    match op {
        AluOp::Add => ((a + v) % 256) as u8,
        AluOp::Adc => ((a + v + carry_in(f)) % 256) as u8,
        AluOp::Sub | AluOp::Cp => ((a - v) % 256) as u8,
        AluOp::Sbc => ((a - v - carry_in(f)) % 256) as u8,
        AluOp::And => a & v,
        AluOp::Xor => a ^ v,
        AluOp::Or => a | v,
    }
}

/// The accumulator after an accumulator operation: CP leaves it unchanged.
pub open spec fn alu_acc(op: AluOp, a: u8, v: u8, f: u8) -> u8 {
    if op == AluOp::Cp {
        a
    } else {
        alu_value(op, a, v, f)
    }
}

/// The flag byte after an accumulator operation.
pub open spec fn alu_flags(op: AluOp, a: u8, v: u8, f: u8) -> u8 {
    let z = alu_value(op, a, v, f) == 0;
    match op {
        AluOp::Add => flags(z, false, a % 16 + v % 16 > 15, a + v > 255),
        AluOp::Adc => flags(
            z,
            false,
            a % 16 + v % 16 + carry_in(f) > 15,
            a + v + carry_in(f) > 255,
        ),
        AluOp::Sub | AluOp::Cp => flags(z, true, a % 16 < v % 16, a < v),
        AluOp::Sbc => flags(z, true, a % 16 < v % 16 + carry_in(f), a < v + carry_in(f)),
        AluOp::And => flags(z, false, true, false),
        AluOp::Xor | AluOp::Or => flags(z, false, false, false),
    }
}

/// Applies an accumulator operation to `a` and the operand `v` under the
/// flags `f`; returns the new accumulator and the new flags.
pub fn alu(op: AluOp, a: u8, v: u8, f: u8) -> (r: (u8, u8))
    ensures
        r.0 == alu_acc(op, a, v, f),
        r.1 == alu_flags(op, a, v, f),
{
    let cin: u16 = if flag_set(f, CARRY_FLAG) {
        1
    } else {
        0
    };
    let a16 = a as u16;
    let v16 = v as u16;
    match op {
        AluOp::Add => {
            let sum = a16 + v16;
            let res = (sum % 256) as u8;
            (res, make_flags(res == 0, false, a % 16 + v % 16 > 15, sum > 255))
        },
        AluOp::Adc => {
            let sum = a16 + v16 + cin;
            let res = (sum % 256) as u8;
            (res, make_flags(res == 0, false, a16 % 16 + v16 % 16 + cin > 15, sum > 255))
        },
        AluOp::Sub | AluOp::Cp => {
            let res = a.wrapping_sub(v);
            let fl = make_flags(res == 0, true, a % 16 < v % 16, a < v);
            if op == AluOp::Cp {
                (a, fl)
            } else {
                (res, fl)
            }
        },
        AluOp::Sbc => {
            let res = a.wrapping_sub(v).wrapping_sub(cin as u8);
            (res, make_flags(res == 0, true, a16 % 16 < v16 % 16 + cin, a16 < v16 + cin))
        },
        AluOp::And => {
            let res = a & v;
            (res, make_flags(res == 0, false, true, false))
        },
        AluOp::Xor => {
            let res = a ^ v;
            (res, make_flags(res == 0, false, false, false))
        },
        AluOp::Or => {
            let res = a | v;
            (res, make_flags(res == 0, false, false, false))
        },
    }
}

/// The value a rotate or shift computes from `v`; RL and RR rotate through
/// the Carry flag of `f`.
pub open spec fn shift_value(op: ShiftOp, v: u8, f: u8) -> u8 {
    match op {
        ShiftOp::Rlc => ((v * 2) % 256 + v / 128) as u8,
        ShiftOp::Rrc => (v / 2 + (v % 2) * 128) as u8,
        ShiftOp::Rl => ((v * 2) % 256 + carry_in(f)) as u8,
        ShiftOp::Rr => (v / 2 + carry_in(f) * 128) as u8,
        ShiftOp::Sla => ((v * 2) % 256) as u8,
        ShiftOp::Sra => (v / 2 + (v / 128) * 128) as u8,
        ShiftOp::Swap => ((v % 16) * 16 + v / 16) as u8,
        ShiftOp::Srl => (v / 2) as u8,
    }
}

/// The bit a rotate or shift moves out of `v` into Carry (SWAP: none).
pub open spec fn shift_carry(op: ShiftOp, v: u8) -> bool {
    match op {
        ShiftOp::Rlc | ShiftOp::Rl | ShiftOp::Sla => v >= 128,
        ShiftOp::Rrc | ShiftOp::Rr | ShiftOp::Sra | ShiftOp::Srl => v % 2 == 1,
        ShiftOp::Swap => false,
    }
}

/// The flag byte after a register or memory rotate or shift.
pub open spec fn shift_flags(op: ShiftOp, v: u8, f: u8) -> u8 {
    flags(shift_value(op, v, f) == 0, false, false, shift_carry(op, v))
}

/// The flag byte after an accumulator-only rotate (RLCA, RRCA, RLA, RRA):
/// only Carry changes.
pub open spec fn rotate_a_flags(op: ShiftOp, v: u8, f: u8) -> u8 {
    flags(
        has_flag(f, ZERO_FLAG),
        has_flag(f, SUB_FLAG),
        has_flag(f, HCARRY_FLAG),
        shift_carry(op, v),
    )
}

/// Applies a rotate or shift to `v` under the flags `f`; returns the new
/// value and the new flags.
pub fn shift(op: ShiftOp, v: u8, f: u8) -> (r: (u8, u8))
    ensures
        r.0 == shift_value(op, v, f),
        r.1 == shift_flags(op, v, f),
{
    let cin: u8 = if flag_set(f, CARRY_FLAG) {
        1
    } else {
        0
    };
    let res: u8 = match op {
        ShiftOp::Rlc => (v % 128) * 2 + v / 128,
        ShiftOp::Rrc => v / 2 + (v % 2) * 128,
        ShiftOp::Rl => (v % 128) * 2 + cin,
        ShiftOp::Rr => v / 2 + cin * 128,
        ShiftOp::Sla => (v % 128) * 2,
        ShiftOp::Sra => v / 2 + (v / 128) * 128,
        ShiftOp::Swap => (v % 16) * 16 + v / 16,
        ShiftOp::Srl => v / 2,
    };
    let c = match op {
        ShiftOp::Rlc | ShiftOp::Rl | ShiftOp::Sla => v >= 128,
        ShiftOp::Rrc | ShiftOp::Rr | ShiftOp::Sra | ShiftOp::Srl => v % 2 == 1,
        ShiftOp::Swap => false,
    };
    (res, make_flags(res == 0, false, false, c))
}

/// Applies an accumulator-only rotate (RLC, RRC, RL or RR) to `a`; returns
/// the new accumulator and flags in which only Carry has changed.
pub fn rotate_a(op: ShiftOp, a: u8, f: u8) -> (r: (u8, u8))
    ensures
        r.0 == shift_value(op, a, f),
        r.1 == rotate_a_flags(op, a, f),
{
    let (res, fl) = shift(op, a, f);
    (
        res,
        make_flags(
            flag_set(f, ZERO_FLAG),
            flag_set(f, SUB_FLAG),
            flag_set(f, HCARRY_FLAG),
            flag_set(fl, CARRY_FLAG),
        ),
    )
}

/// The flag byte after an 8-bit increment of `v`: Carry is kept.
pub open spec fn inc_flags(v: u8, f: u8) -> u8 {
    flags(v == 255, false, v % 16 == 15, has_flag(f, CARRY_FLAG))
}

/// The flag byte after an 8-bit decrement of `v`: Carry is kept.
pub open spec fn dec_flags(v: u8, f: u8) -> u8 {
    flags(v == 1, true, v % 16 == 0, has_flag(f, CARRY_FLAG))
}

/// Increments `v` modulo 256; returns the new value and the new flags.
pub fn inc8(v: u8, f: u8) -> (r: (u8, u8))
    ensures
        r.0 == ((v + 1) % 256) as u8,
        r.1 == inc_flags(v, f),
{
    let res = v.wrapping_add(1);
    (res, make_flags(res == 0, false, v % 16 == 15, flag_set(f, CARRY_FLAG)))
}

/// Decrements `v` modulo 256; returns the new value and the new flags.
pub fn dec8(v: u8, f: u8) -> (r: (u8, u8))
    ensures
        r.0 == ((v - 1) % 256) as u8,
        r.1 == dec_flags(v, f),
{
    let res = v.wrapping_sub(1);
    (res, make_flags(res == 0, true, v % 16 == 0, flag_set(f, CARRY_FLAG)))
}

/// The flag byte after adding `x` to the pair value `hl`: Half-Carry from
/// bit 11, Carry from bit 15, Zero and Subtract kept.
pub open spec fn add16_flags(hl: u16, x: u16, f: u8) -> u8 {
    flags(
        has_flag(f, ZERO_FLAG),
        has_flag(f, SUB_FLAG),
        hl % 4096 + x % 4096 > 4095,
        hl + x > 65535,
    )
}

/// Adds `x` to `hl` modulo 65536; returns the sum and the new flags.
pub fn add16(hl: u16, x: u16, f: u8) -> (r: (u16, u8))
    ensures
        r.0 == ((hl + x) % 65536) as u16,
        r.1 == add16_flags(hl, x, f),
{
    let sum = hl as u32 + x as u32;
    (
        (sum % 65536) as u16,
        make_flags(
            flag_set(f, ZERO_FLAG),
            flag_set(f, SUB_FLAG),
            hl % 4096 + x % 4096 > 4095,
            sum > 65535,
        ),
    )
}

/// Whether decimal adjust sets Carry: it was set, or an addition left more
/// than 0x99 in `a`.
pub open spec fn daa_carry(a: u8, f: u8) -> bool {
    has_flag(f, CARRY_FLAG) || (!has_flag(f, SUB_FLAG) && a > 0x99)
}

/// The accumulator after decimal adjust: the correction that brings the
/// last addition or subtraction back to two decimal digits.
pub open spec fn daa_value(a: u8, f: u8) -> u8 {
    let hi: int = if daa_carry(a, f) { 0x60 } else { 0 };
    let lo: int = if has_flag(f, HCARRY_FLAG) || (!has_flag(f, SUB_FLAG) && a % 16 > 9) {
        6
    } else {
        0
    };
    if has_flag(f, SUB_FLAG) {
        ((a - hi - lo) % 256) as u8
    } else {
        ((a + hi + lo) % 256) as u8
    }
}

/// The flag byte after decimal adjust: Subtract kept, Half-Carry cleared.
pub open spec fn daa_flags(a: u8, f: u8) -> u8 {
    flags(daa_value(a, f) == 0, has_flag(f, SUB_FLAG), false, daa_carry(a, f))
}

/// Decimal adjust of the accumulator `a` under the flags `f`; returns the
/// new accumulator and the new flags.
pub fn daa(a: u8, f: u8) -> (r: (u8, u8))
    ensures
        r.0 == daa_value(a, f),
        r.1 == daa_flags(a, f),
{
    let n = flag_set(f, SUB_FLAG);
    let c = flag_set(f, CARRY_FLAG) || (!n && a > 0x99);
    let hi: u8 = if c {
        0x60
    } else {
        0
    };
    let lo: u8 = if flag_set(f, HCARRY_FLAG) || (!n && a % 16 > 9) {
        6
    } else {
        0
    };
    let res = if n {
        a.wrapping_sub(hi).wrapping_sub(lo)
    } else {
        a.wrapping_add(hi).wrapping_add(lo)
    };
    (res, make_flags(res == 0, n, false, c))
}

/// The mask of bit `b`.
pub open spec fn bit_mask(b: u8) -> u8 {
    (1u8 << b) as u8
}

/// The flag byte after testing bit `b` of `v`: Zero when the bit is clear,
/// Half-Carry set, Carry kept.
pub open spec fn bit_flags(b: u8, v: u8, f: u8) -> u8 {
    flags(v & bit_mask(b) == 0, false, true, has_flag(f, CARRY_FLAG))
}

/// Tests bit `b` of `v`; returns the new flags.
pub fn bit_test(b: u8, v: u8, f: u8) -> (r: u8)
    requires
        b < 8,
    ensures
        r == bit_flags(b, v, f),
{
    make_flags(v & (1u8 << b) == 0, false, true, flag_set(f, CARRY_FLAG))
}

/// `v` with bit `b` cleared.
pub fn bit_reset(b: u8, v: u8) -> (r: u8)
    requires
        b < 8,
    ensures
        r == v & !bit_mask(b),
{
    v & !(1u8 << b)
}

/// `v` with bit `b` set.
pub fn bit_set(b: u8, v: u8) -> (r: u8)
    requires
        b < 8,
    ensures
        r == v | bit_mask(b),
{
    v | (1u8 << b)
}

} // verus!
