use vstd::prelude::*;
use crate::alu::{
    alu_value, alu_flags, shift_value, shift_flags, inc_flags, dec_flags, daa_value, daa_flags,
    bit_flags, bit_mask, alu_op_at, shift_op_at, AluOp, ShiftOp,
};
use crate::isa::{
    cond, execute, step, wrap16, rel, call, block0, block2, block3, relative_jumps, push_and_call,
    pop_and_misc, call_cond, ret_and_high_page, jump_and_loads, ret, incdec8, accumulator_ops,
    alu_apply, extended, CpuError, Machine,
};
use crate::mmu::{lemma_word_round_trip, with_word, word_at};
use crate::regs::{has_flag, lemma_pair_split, Registers, ZERO_FLAG};

verus! {

broadcast use crate::regs::lemma_flags;

/// Every operation that sets Zero from a result sets it exactly when that
/// result is zero, for all operand values and incoming flags: the eight
/// accumulator operations (CP by the difference it computes), the eight
/// rotates and shifts, 8-bit increment and decrement, decimal adjust, and
/// the bit test (whose result is the tested bit).
pub proof fn lemma_zero_flag_follows_result(
    op: AluOp,
    sop: ShiftOp,
    a: u8,
    v: u8,
    f: u8,
    b: u8,
)
    ensures
        has_flag(alu_flags(op, a, v, f), ZERO_FLAG) <==> alu_value(op, a, v, f) == 0,
        has_flag(shift_flags(sop, v, f), ZERO_FLAG) <==> shift_value(sop, v, f) == 0,
        has_flag(inc_flags(v, f), ZERO_FLAG) <==> (v + 1) % 256 == 0,
        has_flag(dec_flags(v, f), ZERO_FLAG) <==> (v - 1) % 256 == 0,
        has_flag(daa_flags(a, f), ZERO_FLAG) <==> daa_value(a, f) == 0,
        b < 8 ==> (has_flag(bit_flags(b, v, f), ZERO_FLAG) <==> v & bit_mask(b) == 0),
{
}

/// Opcode of PUSH for stack pair `p` (BC, DE, HL, AF).
pub open spec fn push_opcode(p: u8) -> u8 {
    (0xC5 + p * 16) as u8
}

/// Opcode of POP for stack pair `p` (BC, DE, HL, AF).
pub open spec fn pop_opcode(p: u8) -> u8 {
    (0xC1 + p * 16) as u8
}

/// The state one PUSH of pair `p` leaves.
proof fn lemma_push_step(s: Machine, p: u8)
    requires
        s.wf(),
        p < 4,
        s.imm8() == push_opcode(p),
        s.regs.sp != 1,
    ensures
        step(s) == Ok::<Machine, CpuError>(
            (Machine {
                regs: Registers {
                    sp: wrap16(s.regs.sp - 2),
                    pc: wrap16(s.regs.pc + 1),
                    ..s.regs
                },
                mem: with_word(s.mem, wrap16(s.regs.sp - 2) as int, s.regs.rp2(p)),
                cycles: 3,
                ..s
            }),
        ),
{
    let t = s.advance(1);
    let op = push_opcode(p);
    lemma_runs_push_and_call(t, op);
    assert(t.regs.rp2(p) == s.regs.rp2(p));
}

/// The state one POP into pair `p` leaves.
proof fn lemma_pop_step(s: Machine, p: u8)
    requires
        s.wf(),
        p < 4,
        s.imm8() == pop_opcode(p),
        s.regs.sp != 0xFFFF,
    ensures
        step(s) == Ok::<Machine, CpuError>(
            (Machine {
                regs: Registers {
                    sp: wrap16(s.regs.sp + 2),
                    pc: wrap16(s.regs.pc + 1),
                    ..s.regs
                }.with_rp2(p, s.top()),
                cycles: 3,
                ..s
            }),
        ),
{
    let t = s.advance(1);
    let op = pop_opcode(p);
    lemma_runs_pop_and_misc(t, op);
}

/// PUSH of a register pair followed at once by POP of the same pair gives
/// back every register as it was, the pair's value and SP included; PC ends
/// past both instructions. The pushed word must fit in memory (SP is not 1),
/// and the byte after PUSH, once the word is written, is the POP opcode.
pub proof fn lemma_push_pop(s: Machine, p: u8)
    requires
        s.wf(),
        p < 4,
        s.imm8() == push_opcode(p),
        s.regs.sp != 1,
        with_word(s.mem, wrap16(s.regs.sp - 2) as int, s.regs.rp2(p))[wrap16(s.regs.pc + 1) as int]
            == pop_opcode(p),
    ensures
        match step(s) {
            Ok(t) => match step(t) {
                Ok(u) => {
                    &&& u.regs.rp2(p) == s.regs.rp2(p)
                    &&& u.regs.sp == s.regs.sp
                    &&& u.regs == (Registers { pc: wrap16(s.regs.pc + 2), ..s.regs })
                },
                Err(_) => false,
            },
            Err(_) => false,
        },
{
    lemma_push_step(s, p);
    let sp2 = wrap16(s.regs.sp - 2);
    let v = s.regs.rp2(p);
    let t = match step(s) {
        Ok(t) => t,
        Err(_) => s,
    };
    assert(t.imm8() == pop_opcode(p));
    lemma_word_round_trip(s.mem, sp2 as int, v);
    assert(t.top() == v);
    lemma_pop_step(t, p);
    lemma_pair_split(s.regs.b, s.regs.c, v);
    lemma_pair_split(s.regs.d, s.regs.e, v);
    lemma_pair_split(s.regs.h, s.regs.l, v);
    lemma_pair_split(s.regs.a, s.regs.f, v);
    let f = s.regs.f;
    assert(f & 0x0F == 0 ==> f & 0xF0 == f) by (bit_vector);
    assert(wrap16(wrap16(s.regs.pc + 1) + 1) == wrap16(s.regs.pc + 2));
    assert(wrap16(sp2 + 2) == s.regs.sp);
}

/// Whether `op`, run under the flags `f`, writes a word to the stack: PUSH,
/// CALL, a conditional CALL whose condition holds, RST.
pub open spec fn pushes(op: u8, f: u8) -> bool {
    ||| op == 0xC5 || op == 0xD5 || op == 0xE5 || op == 0xF5
    ||| op == 0xCD
    ||| (op == 0xC4 || op == 0xCC || op == 0xD4 || op == 0xDC) && cond(f, ((op / 8) % 8) as u8)
    ||| op >= 0xC0 && op % 8 == 7
}

/// Whether `op`, run under the flags `f`, reads a word from the stack: POP,
/// RET, RETI, a conditional RET whose condition holds.
pub open spec fn pops(op: u8, f: u8) -> bool {
    ||| op == 0xC1 || op == 0xD1 || op == 0xE1 || op == 0xF1
    ||| op == 0xC9 || op == 0xD9
    ||| (op == 0xC0 || op == 0xC8 || op == 0xD0 || op == 0xD8) && cond(f, ((op / 8) % 8) as u8)
}

/// How `op` (0xC0 or above, not the CB prefix) runs on `t`, whose PC is
/// past it.
proof fn lemma_execute_block3(t: Machine, op: u8)
    requires
        op >= 0xC0,
        op != 0xCB,
    ensures
        execute(t, op) == block3(t, op),
{
    reveal(execute);
}

/// How `op` (below 0x40) runs on `t`, whose PC is past it.
proof fn lemma_execute_block0(t: Machine, op: u8)
    requires
        op < 0x40,
    ensures
        execute(t, op) == block0(t, op),
{
    reveal(execute);
}

/// PUSH rr and CALL nn run as `push_and_call`.
proof fn lemma_runs_push_and_call(t: Machine, op: u8)
    requires
        op >= 0xC0,
        op % 8 == 5,
    ensures
        execute(t, op) == push_and_call(t, ((op / 8) % 8) as u8 / 2, ((op / 8) % 8) as u8 % 2),
{
    lemma_execute_block3(t, op);
}

/// POP rr, RET, RETI, JP HL and LD SP,HL run as `pop_and_misc`.
proof fn lemma_runs_pop_and_misc(t: Machine, op: u8)
    requires
        op >= 0xC0,
        op % 8 == 1,
    ensures
        execute(t, op) == pop_and_misc(t, ((op / 8) % 8) as u8 / 2, ((op / 8) % 8) as u8 % 2),
{
    lemma_execute_block3(t, op);
}

/// CALL cc,nn runs as `call_cond`.
proof fn lemma_runs_call_cond(t: Machine, op: u8)
    requires
        op >= 0xC0,
        op % 8 == 4,
    ensures
        execute(t, op) == call_cond(t, ((op / 8) % 8) as u8),
{
    lemma_execute_block3(t, op);
}

/// RST runs as a call to eight times its index.
proof fn lemma_runs_restart(t: Machine, op: u8)
    requires
        op >= 0xC0,
        op % 8 == 7,
    ensures
        execute(t, op) == call(t, (((op / 8) % 8) as u8 * 8) as u16, 3),
{
    lemma_execute_block3(t, op);
}

/// RET cc and the high-page and SP-offset instructions run as
/// `ret_and_high_page`.
proof fn lemma_runs_ret_and_high_page(t: Machine, op: u8)
    requires
        op >= 0xC0,
        op % 8 == 0,
    ensures
        execute(t, op) == ret_and_high_page(t, ((op / 8) % 8) as u8),
{
    lemma_execute_block3(t, op);
}

/// JP cc,nn and the absolute and C-offset loads run as `jump_and_loads`.
proof fn lemma_runs_jump_and_loads(t: Machine, op: u8)
    requires
        op >= 0xC0,
        op % 8 == 2,
    ensures
        execute(t, op) == jump_and_loads(t, ((op / 8) % 8) as u8),
{
    lemma_execute_block3(t, op);
}

/// NOP, LD (nn),SP, DJNZ, JR and JR cc run as `relative_jumps`.
proof fn lemma_runs_relative_jumps(t: Machine, op: u8)
    requires
        op < 0x40,
        op % 8 == 0,
    ensures
        execute(t, op) == relative_jumps(t, ((op / 8) % 8) as u8),
{
    lemma_execute_block0(t, op);
}

/// The word that a stack-writing instruction at PC of `s` pushes: the pair
/// for PUSH, the address after the instruction for CALL and RST.
pub open spec fn pushed_word(s: Machine) -> u16 {
    let op = s.imm8();
    if op % 8 == 5 && op != 0xCD {
        s.regs.rp2(((op - 0xC5) / 16) as u8)
    } else if op % 8 == 7 {
        wrap16(s.regs.pc + 1)
    } else {
        wrap16(s.regs.pc + 3)
    }
}

/// What a stack-reading instruction at PC of `s` leaves in `t` from the word
/// on top of the stack: POP puts it in its pair (F keeping a clear low
/// nibble), every other register kept; RET, RETI and a taken RET cc jump to
/// it, and RETI also enables interrupts.
pub open spec fn popped_into(s: Machine, t: Machine) -> bool {
    let op = s.imm8();
    if op % 8 == 1 && op != 0xC9 && op != 0xD9 {
        t.regs == (Registers {
            sp: wrap16(s.regs.sp + 2),
            pc: wrap16(s.regs.pc + 1),
            ..s.regs
        }).with_rp2(((op - 0xC1) / 16) as u8, s.top())
    } else {
        &&& t.regs.pc == s.top()
        &&& op == 0xD9 ==> t.ime
    }
}

/// A call-like instruction (CALL, a taken conditional CALL, RST) lowers SP
/// by 2 modulo 65536 and writes the address after it there, when the word
/// fits in memory.
proof fn lemma_call_pushes(s: Machine)
    requires
        s.wf(),
        pushes(s.imm8(), s.regs.f),
        s.imm8() != 0xC5 && s.imm8() != 0xD5 && s.imm8() != 0xE5 && s.imm8() != 0xF5,
        2 <= s.regs.sp,
    ensures
        match step(s) {
            Ok(t) => {
                &&& t.regs.sp == wrap16(s.regs.sp - 2)
                &&& word_at(t.mem, t.regs.sp as int) == pushed_word(s)
            },
            Err(_) => false,
        },
{
    let op = s.imm8();
    let t = s.advance(1);
    let y = ((op / 8) % 8) as u8;
    let sp2 = wrap16(s.regs.sp - 2);
    assert(wrap16(wrap16(s.regs.pc + 1) + 2) == wrap16(s.regs.pc + 3));
    if op == 0xCD {
        lemma_runs_push_and_call(t, op);
        assert(push_and_call(t, 2, 1) == call(t.advance(2), t.imm16(), 5));
        lemma_word_round_trip(s.mem, sp2 as int, wrap16(s.regs.pc + 3));
    } else if op % 8 == 7 {
        lemma_runs_restart(t, op);
        lemma_word_round_trip(s.mem, sp2 as int, wrap16(s.regs.pc + 1));
    } else {
        lemma_runs_call_cond(t, op);
        assert(call_cond(t, y) == call(t.advance(2), t.imm16(), 5));
        lemma_word_round_trip(s.mem, sp2 as int, wrap16(s.regs.pc + 3));
    }
}

/// A return (RET, RETI, a taken conditional RET) raises SP by 2 modulo
/// 65536 and jumps to the word it read, when the word fits in memory.
proof fn lemma_return_pops(s: Machine)
    requires
        s.wf(),
        pops(s.imm8(), s.regs.f),
        s.imm8() != 0xC1 && s.imm8() != 0xD1 && s.imm8() != 0xE1 && s.imm8() != 0xF1,
        s.regs.sp != 0xFFFF,
    ensures
        match step(s) {
            Ok(t) => t.regs.sp == wrap16(s.regs.sp + 2) && popped_into(s, t),
            Err(_) => false,
        },
{
    let op = s.imm8();
    let t = s.advance(1);
    let y = ((op / 8) % 8) as u8;
    if op == 0xC9 {
        lemma_runs_pop_and_misc(t, op);
        assert(pop_and_misc(t, 0, 1) == ret(t, 3));
    } else if op == 0xD9 {
        lemma_runs_pop_and_misc(t, op);
        assert(pop_and_misc(t, 1, 1) == ret(Machine { ime: true, ..t }, 3));
    } else {
        lemma_runs_ret_and_high_page(t, op);
        assert(ret_and_high_page(t, y) == ret(t, 3));
    }
}

/// An instruction that writes a word to the stack lowers SP by exactly 2
/// and leaves the pushed word (`pushed_word`) at the new SP; one that reads
/// a word from the stack raises SP by exactly 2 and puts the word where
/// `popped_into` says. Both hold whenever SP is at least 2 away from the end
/// of the address space it moves towards.
pub proof fn lemma_stack_moves_by_two(s: Machine)
    requires
        s.wf(),
    ensures
        pushes(s.imm8(), s.regs.f) && s.regs.sp >= 2 ==> match step(s) {
            Ok(t) => {
                &&& t.regs.sp == s.regs.sp - 2
                &&& word_at(t.mem, t.regs.sp as int) == pushed_word(s)
            },
            Err(_) => false,
        },
        pops(s.imm8(), s.regs.f) && s.regs.sp <= 0xFFFD ==> match step(s) {
            Ok(t) => t.regs.sp == s.regs.sp + 2 && popped_into(s, t),
            Err(_) => false,
        },
{
    let op = s.imm8();
    if pushes(op, s.regs.f) && s.regs.sp >= 2 {
        if op == 0xC5 || op == 0xD5 || op == 0xE5 || op == 0xF5 {
            let p = ((op - 0xC5) / 16) as u8;
            lemma_push_step(s, p);
            lemma_word_round_trip(s.mem, wrap16(s.regs.sp - 2) as int, s.regs.rp2(p));
        } else {
            lemma_call_pushes(s);
        }
    }
    if pops(op, s.regs.f) && s.regs.sp <= 0xFFFD {
        if op == 0xC1 || op == 0xD1 || op == 0xE1 || op == 0xF1 {
            lemma_pop_step(s, ((op - 0xC1) / 16) as u8);
        } else {
            lemma_return_pops(s);
        }
    }
}

/// Whether `op` is a conditional branch: JR cc, JP cc, CALL cc, RET cc.
pub open spec fn conditional_branch(op: u8) -> bool {
    ||| op == 0x20 || op == 0x28 || op == 0x30 || op == 0x38
    ||| op == 0xC2 || op == 0xCA || op == 0xD2 || op == 0xDA
    ||| op == 0xC4 || op == 0xCC || op == 0xD4 || op == 0xDC
    ||| op == 0xC0 || op == 0xC8 || op == 0xD0 || op == 0xD8
}

/// The condition (NZ, Z, NC, C) that the conditional branch `op` tests.
pub open spec fn branch_condition(op: u8) -> u8 {
    if op < 0x40 {
        (((op / 8) % 8) - 4) as u8
    } else {
        ((op / 8) % 8) as u8
    }
}

/// The length in bytes of the conditional branch `op`: 2 for JR, 1 for RET,
/// 3 for JP and CALL.
pub open spec fn branch_length(op: u8) -> int {
    if op < 0x40 {
        2
    } else if op % 8 == 0 {
        1
    } else {
        3
    }
}

/// The machine cycles of the conditional branch `op` when its condition
/// fails: 2 for JR, 1 for RET, 3 for JP and CALL.
pub open spec fn not_taken_cycles(op: u8) -> u8 {
    if op < 0x40 {
        2
    } else if op % 8 == 0 {
        1
    } else {
        3
    }
}

/// The extra machine cycles that the conditional branch `op` costs when
/// taken: 1 for a relative or absolute jump, 2 for a call or return.
pub open spec fn taken_extra_cycles(op: u8) -> u8 {
    if op < 0x40 || op % 8 == 2 {
        1
    } else {
        2
    }
}

/// Where the conditional branch at PC of `s` goes when taken: for JR, the
/// address after it moved by the signed displacement; for RET, the word on
/// top of the stack; for JP and CALL, the word after the opcode.
pub open spec fn branch_target(s: Machine) -> u16 {
    let op = s.imm8();
    if op < 0x40 {
        rel(wrap16(s.regs.pc + 2), s.byte(wrap16(s.regs.pc + 1)))
    } else if op % 8 == 0 {
        s.top()
    } else {
        s.advance(1).imm16()
    }
}

/// The cost and the new PC of one conditional branch, taken or not.
spec fn branch_outcome(s: Machine, t: Machine) -> bool {
    let op = s.imm8();
    if cond(s.regs.f, branch_condition(op)) {
        &&& t.cycles == not_taken_cycles(op) + taken_extra_cycles(op)
        &&& t.regs.pc == branch_target(s)
    } else {
        &&& t.cycles == not_taken_cycles(op)
        &&& t.regs.pc == wrap16(s.regs.pc + branch_length(op))
    }
}

proof fn lemma_relative_branch_step(s: Machine)
    requires
        s.wf(),
        s.imm8() == 0x20 || s.imm8() == 0x28 || s.imm8() == 0x30 || s.imm8() == 0x38,
    ensures
        match step(s) {
            Ok(t) => branch_outcome(s, t),
            Err(_) => false,
        },
{
    let op = s.imm8();
    let t = s.advance(1);
    let y = ((op / 8) % 8) as u8;
    let d = t.imm8();
    let u = t.advance(1);
    let taken = cond(u.regs.f, (y - 4) as u8);
    let r = if taken {
        u.with_pc(rel(u.regs.pc, d)).done(3)
    } else {
        u.done(2)
    };
    lemma_runs_relative_jumps(t, op);
    assert(relative_jumps(t, y) == r) by {
        assert(4 <= y < 8);
    }
    assert(step(s) == r);
    assert(branch_condition(op) == (y - 4) as u8);
    assert(wrap16(wrap16(s.regs.pc + 1) + 1) == wrap16(s.regs.pc + 2));
}

proof fn lemma_absolute_branch_step(s: Machine)
    requires
        s.wf(),
        s.imm8() == 0xC2 || s.imm8() == 0xCA || s.imm8() == 0xD2 || s.imm8() == 0xDA,
    ensures
        match step(s) {
            Ok(t) => branch_outcome(s, t),
            Err(_) => false,
        },
{
    let op = s.imm8();
    let t = s.advance(1);
    let y = ((op / 8) % 8) as u8;
    lemma_runs_jump_and_loads(t, op);
    assert(wrap16(wrap16(s.regs.pc + 1) + 2) == wrap16(s.regs.pc + 3));
}

proof fn lemma_call_branch_step(s: Machine)
    requires
        s.wf(),
        s.imm8() == 0xC4 || s.imm8() == 0xCC || s.imm8() == 0xD4 || s.imm8() == 0xDC,
        s.regs.sp != 1,
    ensures
        match step(s) {
            Ok(t) => branch_outcome(s, t),
            Err(_) => false,
        },
{
    let op = s.imm8();
    let t = s.advance(1);
    let y = ((op / 8) % 8) as u8;
    lemma_runs_call_cond(t, op);
    assert(wrap16(wrap16(s.regs.pc + 1) + 2) == wrap16(s.regs.pc + 3));
}

proof fn lemma_return_branch_step(s: Machine)
    requires
        s.wf(),
        s.imm8() == 0xC0 || s.imm8() == 0xC8 || s.imm8() == 0xD0 || s.imm8() == 0xD8,
        s.regs.sp != 0xFFFF,
    ensures
        match step(s) {
            Ok(t) => branch_outcome(s, t),
            Err(_) => false,
        },
{
    let op = s.imm8();
    let t = s.advance(1);
    let y = ((op / 8) % 8) as u8;
    lemma_runs_ret_and_high_page(t, op);
}

/// The cost and the new PC of one conditional branch: taken, it costs
/// `not_taken_cycles + taken_extra_cycles` and goes to `branch_target`; not
/// taken, it costs `not_taken_cycles` and falls through past its bytes. A
/// taken call needs room to push (SP is not 1), a taken return room to pop
/// (SP is not 0xFFFF).
proof fn lemma_branch_step(s: Machine)
    requires
        s.wf(),
        conditional_branch(s.imm8()),
        s.regs.sp != 1,
        s.regs.sp != 0xFFFF,
    ensures
        match step(s) {
            Ok(t) => branch_outcome(s, t),
            Err(_) => false,
        },
{
    let op = s.imm8();
    if op < 0x40 {
        lemma_relative_branch_step(s);
    } else if op % 8 == 2 {
        lemma_absolute_branch_step(s);
    } else if op % 8 == 4 {
        lemma_call_branch_step(s);
    } else {
        lemma_return_branch_step(s);
    }
}

/// A conditional branch whose condition holds costs exactly
/// `taken_extra_cycles` more machine cycles (four clock ticks each) than the
/// same opcode at the same PC whose condition fails; the first goes to
/// `branch_target`, the second falls through past the instruction. A taken
/// call must have room to push, a taken return room to pop.
pub proof fn lemma_taken_branch_costs_more(s1: Machine, s2: Machine)
    requires
        s1.wf(),
        s2.wf(),
        conditional_branch(s1.imm8()),
        s2.imm8() == s1.imm8(),
        s2.regs.pc == s1.regs.pc,
        cond(s1.regs.f, branch_condition(s1.imm8())),
        !cond(s2.regs.f, branch_condition(s1.imm8())),
        s1.regs.sp != 1,
        s1.regs.sp != 0xFFFF,
    ensures
        match (step(s1), step(s2)) {
            (Ok(t1), Ok(t2)) => {
                &&& t1.cycles == t2.cycles + taken_extra_cycles(s1.imm8())
                &&& t1.cycles * 4 == t2.cycles * 4 + taken_extra_cycles(s1.imm8()) * 4
                &&& t1.cycles > t2.cycles
                &&& t1.regs.pc == branch_target(s1)
                &&& t2.regs.pc == wrap16(s1.regs.pc + branch_length(s1.imm8()))
            },
            _ => false,
        },
{
    lemma_branch_step(s1);
    if s2.regs.sp == 1 || s2.regs.sp == 0xFFFF {
        // not taken, so the stack is not touched
        let op = s2.imm8();
        if op < 0x40 {
            lemma_relative_branch_step(s2);
        } else if op % 8 == 2 {
            lemma_absolute_branch_step(s2);
        } else if op % 8 == 4 && s2.regs.sp != 1 {
            lemma_call_branch_step(s2);
        } else if op % 8 == 0 && s2.regs.sp != 0xFFFF {
            lemma_return_branch_step(s2);
        } else {
            lemma_untaken_stack_branch(s2);
        }
    } else {
        lemma_branch_step(s2);
    }
}

/// An untaken conditional call or return leaves the stack alone, whatever SP is.
proof fn lemma_untaken_stack_branch(s: Machine)
    requires
        s.wf(),
        s.imm8() == 0xC4 || s.imm8() == 0xCC || s.imm8() == 0xD4 || s.imm8() == 0xDC
            || s.imm8() == 0xC0 || s.imm8() == 0xC8 || s.imm8() == 0xD0 || s.imm8() == 0xD8,
        !cond(s.regs.f, branch_condition(s.imm8())),
    ensures
        match step(s) {
            Ok(t) => branch_outcome(s, t),
            Err(_) => false,
        },
{
    let op = s.imm8();
    let t = s.advance(1);
    let y = ((op / 8) % 8) as u8;
    if op % 8 == 4 {
        lemma_runs_call_cond(t, op);
        assert(wrap16(wrap16(s.regs.pc + 1) + 2) == wrap16(s.regs.pc + 3));
    } else {
        lemma_runs_ret_and_high_page(t, op);
    }
}

/// INC and DEC of an operand run as `incdec8`.
proof fn lemma_runs_incdec8(t: Machine, op: u8)
    requires
        op < 0x40,
        op % 8 == 4 || op % 8 == 5,
    ensures
        execute(t, op) == incdec8(t, ((op / 8) % 8) as u8, op % 8 == 5),
{
    lemma_execute_block0(t, op);
}

/// The accumulator-only instructions (rotates, DAA, CPL, SCF, CCF) run as
/// `accumulator_ops`.
proof fn lemma_runs_accumulator_ops(t: Machine, op: u8)
    requires
        op < 0x40,
        op % 8 == 7,
    ensures
        execute(t, op) == accumulator_ops(t, ((op / 8) % 8) as u8),
{
    lemma_execute_block0(t, op);
}

/// The accumulator operations on an operand run as `block2`.
proof fn lemma_runs_block2(t: Machine, op: u8)
    requires
        0x80 <= op < 0xC0,
    ensures
        execute(t, op) == block2(t, op),
{
    reveal(execute);
}

/// The accumulator operations on an immediate byte.
proof fn lemma_runs_alu_immediate(t: Machine, op: u8)
    requires
        op >= 0xC0,
        op % 8 == 6,
    ensures
        execute(t, op) == alu_apply(t.advance(1), ((op / 8) % 8) as u8, t.imm8()).done(2),
{
    lemma_execute_block3(t, op);
}

/// The CB prefix runs the extended table.
proof fn lemma_runs_extended(t: Machine)
    ensures
        execute(t, 0xCB) == extended(t),
{
    reveal(execute);
}

/// Whether the instruction at PC of `s` sets Zero from an 8-bit result: INC
/// and DEC of an operand, DAA, CPL, the accumulator operations on an operand
/// or an immediate byte, and the CB-prefixed rotates, shifts and bit tests.
pub open spec fn sets_zero_from_result(s: Machine) -> bool {
    let op = s.imm8();
    ||| op < 0x40 && (op % 8 == 4 || op % 8 == 5)
    ||| op == 0x27 || op == 0x2F
    ||| 0x80 <= op < 0xC0
    ||| op >= 0xC0 && op % 8 == 6
    ||| op == 0xCB && s.byte(wrap16(s.regs.pc + 1)) < 0x80
}

/// The 8-bit result from which the instruction at PC of `s` sets Zero: the
/// incremented or decremented operand, the adjusted or complemented
/// accumulator, the value an accumulator operation computes (for CP the
/// difference), the rotated or shifted operand, or the tested bit.
pub open spec fn zero_source(s: Machine) -> u8 {
    let op = s.imm8();
    let y = ((op / 8) % 8) as u8;
    let z = op % 8;
    let a = s.regs.a;
    let f = s.regs.f;
    let next = s.byte(wrap16(s.regs.pc + 1));
    if op == 0xCB {
        let y2 = ((next / 8) % 8) as u8;
        let v = s.operand(next % 8);
        if next < 0x40 {
            shift_value(shift_op_at(y2), v, f)
        } else {
            v & bit_mask(y2)
        }
    } else if op == 0x27 {
        daa_value(a, f)
    } else if op == 0x2F {
        (255 - a) as u8
    } else if op < 0x40 {
        if z == 4 {
            ((s.operand(y) + 1) % 256) as u8
        } else {
            ((s.operand(y) - 1) % 256) as u8
        }
    } else if op < 0xC0 {
        alu_value(alu_op_at(y), a, s.operand(z), f)
    } else {
        alu_value(alu_op_at(y), a, next, f)
    }
}

proof fn lemma_incdec_zero(s: Machine)
    requires
        s.wf(),
        s.imm8() < 0x40,
        s.imm8() % 8 == 4 || s.imm8() % 8 == 5,
    ensures
        match step(s) {
            Ok(t) => has_flag(t.regs.f, ZERO_FLAG) <==> zero_source(s) == 0,
            Err(_) => false,
        },
{
    lemma_runs_incdec8(s.advance(1), s.imm8());
}

proof fn lemma_accumulator_zero(s: Machine)
    requires
        s.wf(),
        s.imm8() == 0x27 || s.imm8() == 0x2F,
    ensures
        match step(s) {
            Ok(t) => has_flag(t.regs.f, ZERO_FLAG) <==> zero_source(s) == 0,
            Err(_) => false,
        },
{
    lemma_runs_accumulator_ops(s.advance(1), s.imm8());
}

proof fn lemma_alu_operand_zero(s: Machine)
    requires
        s.wf(),
        0x80 <= s.imm8() < 0xC0,
    ensures
        match step(s) {
            Ok(t) => has_flag(t.regs.f, ZERO_FLAG) <==> zero_source(s) == 0,
            Err(_) => false,
        },
{
    lemma_runs_block2(s.advance(1), s.imm8());
}

proof fn lemma_alu_immediate_zero(s: Machine)
    requires
        s.wf(),
        s.imm8() >= 0xC0,
        s.imm8() % 8 == 6,
    ensures
        match step(s) {
            Ok(t) => has_flag(t.regs.f, ZERO_FLAG) <==> zero_source(s) == 0,
            Err(_) => false,
        },
{
    lemma_runs_alu_immediate(s.advance(1), s.imm8());
}

proof fn lemma_extended_zero(s: Machine)
    requires
        s.wf(),
        s.imm8() == 0xCB,
        s.byte(wrap16(s.regs.pc + 1)) < 0x80,
    ensures
        match step(s) {
            Ok(t) => has_flag(t.regs.f, ZERO_FLAG) <==> zero_source(s) == 0,
            Err(_) => false,
        },
{
    lemma_runs_extended(s.advance(1));
}

/// After one step of an instruction that sets Zero from an 8-bit result,
/// Zero is set exactly when that result (`zero_source`) is zero, for every
/// operand value, flag state and register file.
pub proof fn lemma_zero_flag_after_step(s: Machine)
    requires
        s.wf(),
        sets_zero_from_result(s),
    ensures
        match step(s) {
            Ok(t) => has_flag(t.regs.f, ZERO_FLAG) <==> zero_source(s) == 0,
            Err(_) => false,
        },
{
    let op = s.imm8();
    if op == 0xCB {
        lemma_extended_zero(s);
    } else if op == 0x27 || op == 0x2F {
        lemma_accumulator_zero(s);
    } else if op < 0x40 {
        lemma_incdec_zero(s);
    } else if op < 0xC0 {
        lemma_alu_operand_zero(s);
    } else {
        lemma_alu_immediate_zero(s);
    }
}

} // verus!
