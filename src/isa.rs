use vstd::prelude::*;
use crate::alu::{
    alu_acc, alu_flags, alu_op_at, shift_op_at, shift_value, shift_flags, rotate_a_flags,
    inc_flags, dec_flags, add16_flags, daa_value, daa_flags, bit_flags, bit_mask,
};
use crate::mmu::{word_at, with_word, MEM_SIZE};
use crate::regs::{flags, has_flag, pair, Registers, ZERO_FLAG, SUB_FLAG, HCARRY_FLAG, CARRY_FLAG};

verus! {

/// A fault that stops an instruction before it changes any state.
#[derive(Clone, Copy, Debug, PartialEq, Eq, Structural)]
pub enum CpuError {
    /// A word access at `address` would reach past the last byte of memory.
    OutOfRangeAccess { address: usize },
    /// The byte `opcode`, fetched at `pc`, names no instruction.
    UndefinedOpcode { opcode: u8, pc: u16 },
}

/// The whole state that instructions read and write.
pub struct Machine {
    pub regs: Registers,
    pub mem: Seq<u8>,
    pub ime: bool,
    pub halt: bool,
    /// Machine cycles taken by the last instruction.
    pub cycles: u8,
}

/// The eleven opcode values that name no instruction.
pub open spec fn is_undefined(op: u8) -> bool {
    ||| op == 0xD3
    ||| op == 0xDB
    ||| op == 0xDD
    ||| op == 0xE3
    ||| op == 0xE4
    ||| op == 0xEB
    ||| op == 0xEC
    ||| op == 0xED
    ||| op == 0xF4
    ||| op == 0xFC
    ||| op == 0xFD
}

/// `x` modulo 65536.
pub open spec fn wrap16(x: int) -> u16 {
    (x % 65536) as u16
}

/// A displacement byte read as a two's-complement signed value.
pub open spec fn signed(d: u8) -> int {
    if d < 128 {
        d as int
    } else {
        d - 256
    }
}

/// `base` moved by the signed displacement `d`, modulo 65536.
pub open spec fn rel(base: u16, d: u8) -> u16 {
    wrap16(base + signed(d))
}

/// Condition `i` of a conditional jump, call or return: NZ, Z, NC, C.
pub open spec fn cond(f: u8, i: u8) -> bool {
    if i == 0 {
        !has_flag(f, ZERO_FLAG)
    } else if i == 1 {
        has_flag(f, ZERO_FLAG)
    } else if i == 2 {
        !has_flag(f, CARRY_FLAG)
    } else {
        has_flag(f, CARRY_FLAG)
    }
}

/// The fault of a word access at `addr` that reaches past memory.
pub open spec fn out_of_range(addr: u16) -> CpuError {
    CpuError::OutOfRangeAccess { address: addr as usize }
}

impl Machine {
    /// Memory has every slot, F has its low nibble clear, and no
    /// instruction has taken more than 6 machine cycles.
    pub open spec fn wf(self) -> bool {
        self.mem.len() == MEM_SIZE && self.regs.wf() && self.cycles <= 6
    }

    pub open spec fn byte(self, addr: u16) -> u8 {
        self.mem[addr as int]
    }

    /// The byte at PC.
    pub open spec fn imm8(self) -> u8 {
        self.byte(self.regs.pc)
    }

    /// The little-endian word at PC and PC + 1 (modulo 65536).
    pub open spec fn imm16(self) -> u16 {
        pair(self.byte(wrap16(self.regs.pc + 1)), self.byte(self.regs.pc))
    }

    /// This state with PC moved forward by `n` bytes.
    pub open spec fn advance(self, n: int) -> Machine {
        Machine { regs: Registers { pc: wrap16(self.regs.pc + n), ..self.regs }, ..self }
    }

    pub open spec fn with_regs(self, regs: Registers) -> Machine {
        Machine { regs, ..self }
    }

    pub open spec fn with_f(self, f: u8) -> Machine {
        self.with_regs(Registers { f, ..self.regs })
    }

    pub open spec fn with_pc(self, pc: u16) -> Machine {
        self.with_regs(Registers { pc, ..self.regs })
    }

    pub open spec fn with_byte(self, addr: u16, v: u8) -> Machine {
        Machine { mem: self.mem.update(addr as int, v), ..self }
    }

    /// The completed instruction, charged `m` machine cycles.
    pub open spec fn done(self, m: u8) -> Result<Machine, CpuError> {
        Ok(Machine { cycles: m, ..self })
    }

    /// Operand `i`: register B, C, D, E, H, L, the byte at HL, or A.
    pub open spec fn operand(self, i: u8) -> u8 {
        if i == 6 {
            self.byte(self.regs.hl())
        } else {
            self.regs.r8(i)
        }
    }

    /// This state with operand `i` set to `v`.
    pub open spec fn with_operand(self, i: u8, v: u8) -> Machine {
        if i == 6 {
            self.with_byte(self.regs.hl(), v)
        } else {
            self.with_regs(self.regs.with_r8(i, v))
        }
    }

    /// SP lowered by 2, then `v` written as a word at the new SP.
    pub open spec fn push(self, v: u16) -> Result<Machine, CpuError> {
        let sp = wrap16(self.regs.sp - 2);
        if sp == 0xFFFF {
            Err(out_of_range(sp))
        } else {
            Ok(
                Machine {
                    regs: Registers { sp, ..self.regs },
                    mem: with_word(self.mem, sp as int, v),
                    ..self
                },
            )
        }
    }

    /// The word at SP.
    pub open spec fn top(self) -> u16 {
        word_at(self.mem, self.regs.sp as int)
    }

    /// This state with SP raised by 2.
    pub open spec fn drop2(self) -> Machine {
        self.with_regs(Registers { sp: wrap16(self.regs.sp + 2), ..self.regs })
    }
}

/// Opcodes 0x00-0x3F with low bits 000: NOP, LD (nn),SP, DJNZ, JR, JR cc.
pub open spec fn relative_jumps(t: Machine, y: u8) -> Result<Machine, CpuError> {
    if y == 0 {
        t.done(1)
    } else if y == 1 {
        let nn = t.imm16();
        let u = t.advance(2);
        if nn == 0xFFFF {
            Err(out_of_range(nn))
        } else {
            Machine { mem: with_word(u.mem, nn as int, u.regs.sp), ..u }.done(5)
        }
    } else {
        let d = t.imm8();
        let u = t.advance(1);
        if y == 2 {
            let w = u.with_regs(Registers { b: ((u.regs.b - 1) % 256) as u8, ..u.regs });
            if w.regs.b != 0 {
                w.with_pc(rel(u.regs.pc, d)).done(3)
            } else {
                w.done(2)
            }
        } else if y == 3 || cond(u.regs.f, (y - 4) as u8) {
            u.with_pc(rel(u.regs.pc, d)).done(3)
        } else {
            u.done(2)
        }
    }
}

/// Opcodes 0x00-0x3F with low bits 001: LD rr,nn and ADD HL,rr.
pub open spec fn load_add16(t: Machine, p: u8, q: u8) -> Result<Machine, CpuError> {
    if q == 0 {
        let u = t.advance(2);
        u.with_regs(u.regs.with_rp(p, t.imm16())).done(3)
    } else {
        let hl = t.regs.hl();
        let x = t.regs.rp(p);
        let r = Registers { f: add16_flags(hl, x, t.regs.f), ..t.regs.with_rp(2, wrap16(hl + x)) };
        t.with_regs(r).done(3)
    }
}

/// The address that LD (rr),A and LD A,(rr) use: BC, DE, HL, HL.
pub open spec fn indirect_addr(r: Registers, p: u8) -> u16 {
    if p == 0 {
        r.bc()
    } else if p == 1 {
        r.de()
    } else {
        r.hl()
    }
}

/// Opcodes 0x00-0x3F with low bits 010: A stored to or loaded from the byte
/// at BC, DE, HL then HL + 1, HL then HL - 1.
pub open spec fn load_indirect(t: Machine, p: u8, q: u8) -> Result<Machine, CpuError> {
    let addr = indirect_addr(t.regs, p);
    let u = if q == 0 {
        t.with_byte(addr, t.regs.a)
    } else {
        t.with_regs(Registers { a: t.byte(addr), ..t.regs })
    };
    let w = if p == 2 {
        u.with_regs(u.regs.with_rp(2, wrap16(addr + 1)))
    } else if p == 3 {
        u.with_regs(u.regs.with_rp(2, wrap16(addr - 1)))
    } else {
        u
    };
    w.done(2)
}

/// Opcodes 0x00-0x3F with low bits 011: INC rr and DEC rr; no flags change.
pub open spec fn incdec16(t: Machine, p: u8, q: u8) -> Result<Machine, CpuError> {
    let v = t.regs.rp(p);
    let r = if q == 0 {
        wrap16(v + 1)
    } else {
        wrap16(v - 1)
    };
    t.with_regs(t.regs.with_rp(p, r)).done(1)
}

/// Opcodes 0x00-0x3F with low bits 100 or 101: INC and DEC of operand `y`.
pub open spec fn incdec8(t: Machine, y: u8, dec: bool) -> Result<Machine, CpuError> {
    let v = t.operand(y);
    let u = if dec {
        t.with_operand(y, ((v - 1) % 256) as u8).with_f(dec_flags(v, t.regs.f))
    } else {
        t.with_operand(y, ((v + 1) % 256) as u8).with_f(inc_flags(v, t.regs.f))
    };
    u.done(if y == 6 { 3 } else { 1 })
}

/// Opcodes 0x00-0x3F with low bits 110: LD of an immediate byte into
/// operand `y`.
pub open spec fn load_imm8(t: Machine, y: u8) -> Result<Machine, CpuError> {
    t.advance(1).with_operand(y, t.imm8()).done(if y == 6 { 3 } else { 2 })
}

/// Opcodes 0x00-0x3F with low bits 111: RLCA, RRCA, RLA, RRA, DAA, CPL, SCF,
/// CCF.
pub open spec fn accumulator_ops(t: Machine, y: u8) -> Result<Machine, CpuError> {
    let a = t.regs.a;
    let f = t.regs.f;
    let r = if y < 4 {
        let op = shift_op_at(y);
        Registers { a: shift_value(op, a, f), f: rotate_a_flags(op, a, f), ..t.regs }
    } else if y == 4 {
        Registers { a: daa_value(a, f), f: daa_flags(a, f), ..t.regs }
    } else if y == 5 {
        let v = (255 - a) as u8;
        Registers { a: v, f: flags(v == 0, true, false, false), ..t.regs }
    } else {
        let c = if y == 6 {
            true
        } else {
            !has_flag(f, CARRY_FLAG)
        };
        Registers {
            f: flags(has_flag(f, ZERO_FLAG), has_flag(f, SUB_FLAG), has_flag(f, HCARRY_FLAG), c),
            ..t.regs
        }
    };
    t.with_regs(r).done(1)
}

/// Opcodes 0x00-0x3F.
pub open spec fn block0(t: Machine, op: u8) -> Result<Machine, CpuError> {
    let y = ((op / 8) % 8) as u8;
    let z = op % 8;
    let p = y / 2;
    let q = y % 2;
    if z == 0 {
        relative_jumps(t, y)
    } else if z == 1 {
        load_add16(t, p, q)
    } else if z == 2 {
        load_indirect(t, p, q)
    } else if z == 3 {
        incdec16(t, p, q)
    } else if z == 4 {
        incdec8(t, y, false)
    } else if z == 5 {
        incdec8(t, y, true)
    } else if z == 6 {
        load_imm8(t, y)
    } else {
        accumulator_ops(t, y)
    }
}

/// Opcodes 0x40-0x7F: HALT at 0x76, else LD of operand `z` into operand `y`.
pub open spec fn block1(t: Machine, op: u8) -> Result<Machine, CpuError> {
    let y = ((op / 8) % 8) as u8;
    let z = op % 8;
    if op == 0x76 {
        Machine { halt: true, ..t }.done(1)
    } else {
        t.with_operand(y, t.operand(z)).done(if y == 6 || z == 6 { 2 } else { 1 })
    }
}

/// The state after accumulator operation `y` with operand `v`.
pub open spec fn alu_apply(t: Machine, y: u8, v: u8) -> Machine {
    let op = alu_op_at(y);
    let a = t.regs.a;
    let f = t.regs.f;
    t.with_regs(Registers { a: alu_acc(op, a, v, f), f: alu_flags(op, a, v, f), ..t.regs })
}

/// Opcodes 0x80-0xBF: accumulator operation `y` on operand `z`.
pub open spec fn block2(t: Machine, op: u8) -> Result<Machine, CpuError> {
    let y = ((op / 8) % 8) as u8;
    let z = op % 8;
    alu_apply(t, y, t.operand(z)).done(if z == 6 { 2 } else { 1 })
}

/// A return: PC taken from the stack, charged `m` cycles.
pub open spec fn ret(t: Machine, m: u8) -> Result<Machine, CpuError> {
    if t.regs.sp == 0xFFFF {
        Err(out_of_range(t.regs.sp))
    } else {
        t.drop2().with_pc(t.top()).done(m)
    }
}

/// A call: the return address `t.regs.pc` pushed, then PC set to `target`.
pub open spec fn call(t: Machine, target: u16, m: u8) -> Result<Machine, CpuError> {
    match t.push(t.regs.pc) {
        Ok(u) => u.with_pc(target).done(m),
        Err(e) => Err(e),
    }
}

/// Opcodes 0xC0-0xFF with low bits 000: RET cc, LDH (n),A, ADD SP,n,
/// LDH A,(n), LD HL,SP+n.
pub open spec fn ret_and_high_page(t: Machine, y: u8) -> Result<Machine, CpuError> {
    if y < 4 {
        if cond(t.regs.f, y) {
            ret(t, 3)
        } else {
            t.done(1)
        }
    } else {
        let n = t.imm8();
        let u = t.advance(1);
        if y == 4 {
            u.with_byte((0xFF00 + n) as u16, u.regs.a).done(3)
        } else if y == 5 {
            u.with_regs(Registers { sp: rel(u.regs.sp, n), ..u.regs }).done(4)
        } else if y == 6 {
            u.with_regs(Registers { a: u.byte((0xFF00 + n) as u16), ..u.regs }).done(3)
        } else {
            u.with_regs(u.regs.with_rp(2, rel(u.regs.sp, n))).done(3)
        }
    }
}

/// Opcodes 0xC0-0xFF with low bits 001: POP rr, RET, RETI, JP HL, LD SP,HL.
pub open spec fn pop_and_misc(t: Machine, p: u8, q: u8) -> Result<Machine, CpuError> {
    if q == 0 {
        if t.regs.sp == 0xFFFF {
            Err(out_of_range(t.regs.sp))
        } else {
            let u = t.drop2();
            u.with_regs(u.regs.with_rp2(p, t.top())).done(3)
        }
    } else if p == 0 {
        ret(t, 3)
    } else if p == 1 {
        ret(Machine { ime: true, ..t }, 3)
    } else if p == 2 {
        t.with_pc(t.regs.hl()).done(1)
    } else {
        t.with_regs(Registers { sp: t.regs.hl(), ..t.regs }).done(2)
    }
}

/// Opcodes 0xC0-0xFF with low bits 010: JP cc,nn, LD (C),A, LD (nn),A,
/// LD A,(C), LD A,(nn).
pub open spec fn jump_and_loads(t: Machine, y: u8) -> Result<Machine, CpuError> {
    if y == 4 {
        t.with_byte((0xFF00 + t.regs.c) as u16, t.regs.a).done(2)
    } else if y == 6 {
        t.with_regs(Registers { a: t.byte((0xFF00 + t.regs.c) as u16), ..t.regs }).done(3)
    } else {
        let nn = t.imm16();
        let u = t.advance(2);
        if y == 5 {
            u.with_byte(nn, u.regs.a).done(4)
        } else if y == 7 {
            u.with_regs(Registers { a: u.byte(nn), ..u.regs }).done(4)
        } else if cond(u.regs.f, y) {
            u.with_pc(nn).done(4)
        } else {
            u.done(3)
        }
    }
}

/// Opcodes 0xC3, 0xF3, 0xFB: JP nn, DI, EI.
pub open spec fn jump_and_interrupts(t: Machine, y: u8) -> Result<Machine, CpuError> {
    if y == 0 {
        t.advance(2).with_pc(t.imm16()).done(3)
    } else if y == 6 {
        Machine { ime: false, ..t }.done(1)
    } else {
        Machine { ime: true, ..t }.done(1)
    }
}

/// Opcodes 0xC4, 0xCC, 0xD4, 0xDC: CALL cc,nn.
pub open spec fn call_cond(t: Machine, y: u8) -> Result<Machine, CpuError> {
    let u = t.advance(2);
    if cond(u.regs.f, y) {
        call(u, t.imm16(), 5)
    } else {
        u.done(3)
    }
}

/// Opcodes 0xC0-0xFF with low bits 101: PUSH rr and CALL nn.
pub open spec fn push_and_call(t: Machine, p: u8, q: u8) -> Result<Machine, CpuError> {
    if q == 0 {
        match t.push(t.regs.rp2(p)) {
            Ok(u) => u.done(3),
            Err(e) => Err(e),
        }
    } else {
        call(t.advance(2), t.imm16(), 5)
    }
}

/// Opcodes 0xC0-0xFF with the CB prefix and the undefined values left out.
pub open spec fn block3(t: Machine, op: u8) -> Result<Machine, CpuError> {
    let y = ((op / 8) % 8) as u8;
    let z = op % 8;
    let p = y / 2;
    let q = y % 2;
    if z == 0 {
        ret_and_high_page(t, y)
    } else if z == 1 {
        pop_and_misc(t, p, q)
    } else if z == 2 {
        jump_and_loads(t, y)
    } else if z == 3 {
        jump_and_interrupts(t, y)
    } else if z == 4 {
        call_cond(t, y)
    } else if z == 5 {
        push_and_call(t, p, q)
    } else if z == 6 {
        alu_apply(t.advance(1), y, t.imm8()).done(2)
    } else {
        call(t, (y * 8) as u16, 3)
    }
}

/// The CB-prefixed table: rotates and shifts, BIT, RES and SET on operand
/// `z`, selected by the byte after the prefix.
pub open spec fn extended(t: Machine) -> Result<Machine, CpuError> {
    let op = t.imm8();
    let u = t.advance(1);
    let x = op / 64;
    let y = ((op / 8) % 8) as u8;
    let z = op % 8;
    let v = u.operand(z);
    let m: u8 = if z == 6 { 4 } else { 2 };
    if x == 0 {
        let s = shift_op_at(y);
        u.with_operand(z, shift_value(s, v, u.regs.f)).with_f(shift_flags(s, v, u.regs.f)).done(m)
    } else if x == 1 {
        u.with_f(bit_flags(y, v, u.regs.f)).done(if z == 6 { 3 } else { 2 })
    } else if x == 2 {
        u.with_operand(z, v & !bit_mask(y)).done(m)
    } else {
        u.with_operand(z, v | bit_mask(y)).done(m)
    }
}

/// The instruction `op` run on `t`, whose PC is already past `op`.
#[verifier::opaque]
pub open spec fn execute(t: Machine, op: u8) -> Result<Machine, CpuError> {
    if op == 0xCB {
        extended(t)
    } else if op < 0x40 {
        block0(t, op)
    } else if op < 0x80 {
        block1(t, op)
    } else if op < 0xC0 {
        block2(t, op)
    } else {
        block3(t, op)
    }
}

/// One fetch-decode-execute step from `s`: the state after the instruction
/// at PC, or the fault that stopped it (the state is then unchanged).
pub open spec fn step(s: Machine) -> Result<Machine, CpuError> {
    let op = s.imm8();
    if is_undefined(op) {
        Err(CpuError::UndefinedOpcode { opcode: op, pc: s.regs.pc })
    } else {
        execute(s.advance(1), op)
    }
}

} // verus!
