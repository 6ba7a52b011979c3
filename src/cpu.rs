use vstd::prelude::*;
use crate::alu::{
    alu, shift, rotate_a, inc8, dec8, add16, daa, bit_test, bit_reset, bit_set, AluOp, ShiftOp,
};
use crate::isa::{
    is_undefined, wrap16, rel, cond, out_of_range, relative_jumps, load_add16, load_indirect,
    incdec16, incdec8, load_imm8, accumulator_ops, block0, block1, alu_apply, block2, ret, call,
    ret_and_high_page, pop_and_misc, jump_and_loads, jump_and_interrupts, call_cond,
    push_and_call, block3, extended, execute, step, CpuError, Machine,
};
use crate::mmu::{word_at, MMU};
use crate::regs::{
    join, make_flags, flag_set, has_flag, Registers, ZERO_FLAG, SUB_FLAG, HCARRY_FLAG, CARRY_FLAG,
};

verus! {

broadcast use crate::regs::lemma_flags, crate::regs::lemma_high_nibble;

/// What one executed instruction reports: its cost in machine cycles and in
/// clock ticks, and the registers it left.
#[derive(Clone, Copy, Debug, PartialEq, Eq, Structural)]
pub struct Step {
    pub cycles: u8,
    pub ticks: u8,
    pub regs: Registers,
}

/// The processor: registers, interrupt and halt flags, the cost of the last
/// instruction, and the memory unit it owns.
pub struct Z80 {
    memory_unit: MMU,
    regs: Registers,
    halt: bool,
    ime: bool,
    last_m: u8,
}

impl View for Z80 {
    type V = Machine;

    closed spec fn view(&self) -> Machine {
        Machine {
            regs: self.regs,
            mem: self.memory_unit@,
            ime: self.ime,
            halt: self.halt,
            cycles: self.last_m,
        }
    }
}

/// `after` and `r` are what running towards `expected` from `before` may
/// leave: the expected state on success; on a fault, memory, interrupt,
/// halt and cycle state untouched (only registers may have moved).
spec fn follows(
    before: Machine,
    after: Machine,
    r: Result<(), CpuError>,
    expected: Result<Machine, CpuError>,
) -> bool {
    match expected {
        Ok(m) => r == Ok::<(), CpuError>(()) && after == m,
        Err(e) => {
            &&& r == Err::<(), CpuError>(e)
            &&& after.mem == before.mem
            &&& after.ime == before.ime
            &&& after.halt == before.halt
            &&& after.cycles == before.cycles
        },
    }
}

/// Whether `op` names no instruction.
fn undefined_opcode(op: u8) -> (r: bool)
    ensures
        r == is_undefined(op),
{
    op == 0xD3 || op == 0xDB || op == 0xDD || op == 0xE3 || op == 0xE4 || op == 0xEB || op
        == 0xEC || op == 0xED || op == 0xF4 || op == 0xFC || op == 0xFD
}

/// `base` moved by the signed displacement `d`, modulo 65536.
fn offset(base: u16, d: u8) -> (r: u16)
    ensures
        r == rel(base, d),
{
    if d < 128 {
        base.wrapping_add(d as u16)
    } else {
        base.wrapping_sub(256 - d as u16)
    }
}

/// Condition `i` of a conditional instruction: NZ, Z, NC, C.
fn condition(f: u8, i: u8) -> (r: bool)
    ensures
        r == cond(f, i),
{
    if i == 0 {
        !flag_set(f, ZERO_FLAG)
    } else if i == 1 {
        flag_set(f, ZERO_FLAG)
    } else if i == 2 {
        !flag_set(f, CARRY_FLAG)
    } else {
        flag_set(f, CARRY_FLAG)
    }
}

impl Z80 {
    /// Memory has every slot and F has its low nibble clear.
    pub open spec fn wf(&self) -> bool {
        self@.wf()
    }

    fn read(&self, addr: u16) -> (r: u8)
        requires
            self.wf(),
        ensures
            r == self@.byte(addr),
    {
        match self.memory_unit.get_b(addr as usize) {
            Some(v) => v,
            None => 0,
        }
    }

    fn write(&mut self, addr: u16, v: u8)
        requires
            old(self).wf(),
        ensures
            final(self).wf(),
            final(self)@ == old(self)@.with_byte(addr, v),
    {
        let _ = self.memory_unit.set_b(addr as usize, v);
    }

    /// Reads the byte at PC and moves PC past it.
    fn fetch8(&mut self) -> (r: u8)
        requires
            old(self).wf(),
        ensures
            final(self).wf(),
            r == old(self)@.imm8(),
            final(self)@ == old(self)@.advance(1),
    {
        let v = self.read(self.regs.pc);
        self.regs.pc = self.regs.pc.wrapping_add(1);
        v
    }

    /// Reads the little-endian word at PC and moves PC past it.
    fn fetch16(&mut self) -> (r: u16)
        requires
            old(self).wf(),
        ensures
            final(self).wf(),
            r == old(self)@.imm16(),
            final(self)@ == old(self)@.advance(2),
    {
        let lo = self.fetch8();
        let hi = self.fetch8();
        assert(wrap16(wrap16(old(self)@.regs.pc + 1) + 1) == wrap16(old(self)@.regs.pc + 2));
        join(hi, lo)
    }

    /// Operand `i`: B, C, D, E, H, L, the byte at HL, or A.
    fn operand(&self, i: u8) -> (r: u8)
        requires
            self.wf(),
        ensures
            r == self@.operand(i),
    {
        if i == 6 {
            self.read(join(self.regs.h, self.regs.l))
        } else {
            self.regs.get_r8(i)
        }
    }

    fn set_operand(&mut self, i: u8, v: u8)
        requires
            old(self).wf(),
        ensures
            final(self).wf(),
            final(self)@ == old(self)@.with_operand(i, v),
    {
        if i == 6 {
            let hl = join(self.regs.h, self.regs.l);
            self.write(hl, v);
        } else {
            self.regs.set_r8(i, v);
        }
    }

    /// Lowers SP by 2 and writes `v` at the new SP; faults, changing
    /// nothing, when the word would reach past memory.
    fn push(&mut self, v: u16) -> (r: Result<(), CpuError>)
        requires
            old(self).wf(),
        ensures
            final(self).wf(),
            match old(self)@.push(v) {
                Ok(m) => r is Ok && final(self)@ == m,
                Err(e) => r == Err::<(), CpuError>(e) && final(self)@ == old(self)@,
            },
    {
        let sp = self.regs.sp.wrapping_sub(2);
        if sp == 0xFFFF {
            return Err(CpuError::OutOfRangeAccess { address: sp as usize });
        }
        let _ = self.memory_unit.set_w(sp as usize, v);
        self.regs.sp = sp;
        Ok(())
    }

    /// Reads the word at SP and raises SP by 2; faults, changing nothing,
    /// when the word would reach past memory.
    fn pop(&mut self) -> (r: Result<u16, CpuError>)
        requires
            old(self).wf(),
        ensures
            final(self).wf(),
            old(self)@.regs.sp == 0xFFFF ==> r == Err::<u16, CpuError>(
                out_of_range(old(self)@.regs.sp),
            ) && final(self)@ == old(self)@,
            old(self)@.regs.sp != 0xFFFF ==> r == Ok::<u16, CpuError>(old(self)@.top())
                && final(self)@ == old(self)@.drop2(),
    {
        let sp = self.regs.sp;
        match self.memory_unit.get_w(sp as usize) {
            Some(v) => {
                self.regs.sp = sp.wrapping_add(2);
                Ok(v)
            },
            None => Err(CpuError::OutOfRangeAccess { address: sp as usize }),
        }
    }

    /// Ends an instruction that took `m` machine cycles.
    fn finish(&mut self, m: u8) -> (r: Result<(), CpuError>)
        requires
            old(self).wf(),
            m <= 6,
        ensures
            r == Ok::<(), CpuError>(()),
            final(self)@ == (Machine { cycles: m, ..old(self)@ }),
            final(self).wf(),
    {
        self.last_m = m;
        Ok(())
    }

    fn exec_relative_jumps(&mut self, y: u8) -> (r: Result<(), CpuError>)
        requires
            old(self).wf(),
            y < 8,
        ensures
            final(self).wf(),
            follows(old(self)@, final(self)@, r, relative_jumps(old(self)@, y)),
    {
        if y == 0 {
            self.finish(1)
        } else if y == 1 {
            let nn = self.fetch16();
            if nn == 0xFFFF {
                return Err(CpuError::OutOfRangeAccess { address: nn as usize });
            }
            let sp = self.regs.sp;
            let _ = self.memory_unit.set_w(nn as usize, sp);
            self.finish(5)
        } else {
            let d = self.fetch8();
            if y == 2 {
                self.regs.b = self.regs.b.wrapping_sub(1);
                if self.regs.b != 0 {
                    self.regs.pc = offset(self.regs.pc, d);
                    self.finish(3)
                } else {
                    self.finish(2)
                }
            } else if y == 3 || condition(self.regs.f, y - 4) {
                self.regs.pc = offset(self.regs.pc, d);
                self.finish(3)
            } else {
                self.finish(2)
            }
        }
    }

    fn exec_load_add16(&mut self, p: u8, q: u8) -> (r: Result<(), CpuError>)
        requires
            old(self).wf(),
            p < 4,
        ensures
            final(self).wf(),
            follows(old(self)@, final(self)@, r, load_add16(old(self)@, p, q)),
    {
        if q == 0 {
            let nn = self.fetch16();
            self.regs.set_rp(p, nn);
        } else {
            let hl = self.regs.get_rp(2);
            let x = self.regs.get_rp(p);
            let (sum, f) = add16(hl, x, self.regs.f);
            self.regs.set_rp(2, sum);
            self.regs.f = f;
        }
        self.finish(3)
    }

    fn exec_load_indirect(&mut self, p: u8, q: u8) -> (r: Result<(), CpuError>)
        requires
            old(self).wf(),
            p < 4,
        ensures
            final(self).wf(),
            follows(old(self)@, final(self)@, r, load_indirect(old(self)@, p, q)),
    {
        let addr = if p == 0 {
            join(self.regs.b, self.regs.c)
        } else if p == 1 {
            join(self.regs.d, self.regs.e)
        } else {
            join(self.regs.h, self.regs.l)
        };
        if q == 0 {
            let a = self.regs.a;
            self.write(addr, a);
        } else {
            self.regs.a = self.read(addr);
        }
        if p == 2 {
            self.regs.set_rp(2, addr.wrapping_add(1));
        } else if p == 3 {
            self.regs.set_rp(2, addr.wrapping_sub(1));
        }
        self.finish(2)
    }

    fn exec_incdec16(&mut self, p: u8, q: u8) -> (r: Result<(), CpuError>)
        requires
            old(self).wf(),
            p < 4,
        ensures
            final(self).wf(),
            follows(old(self)@, final(self)@, r, incdec16(old(self)@, p, q)),
    {
        let v = self.regs.get_rp(p);
        let n = if q == 0 {
            v.wrapping_add(1)
        } else {
            v.wrapping_sub(1)
        };
        self.regs.set_rp(p, n);
        self.finish(1)
    }

    fn exec_incdec8(&mut self, y: u8, dec: bool) -> (r: Result<(), CpuError>)
        requires
            old(self).wf(),
            y < 8,
        ensures
            final(self).wf(),
            follows(old(self)@, final(self)@, r, incdec8(old(self)@, y, dec)),
    {
        let v = self.operand(y);
        let (n, f) = if dec {
            dec8(v, self.regs.f)
        } else {
            inc8(v, self.regs.f)
        };
        self.set_operand(y, n);
        self.regs.f = f;
        self.finish(if y == 6 { 3 } else { 1 })
    }

    fn exec_load_imm8(&mut self, y: u8) -> (r: Result<(), CpuError>)
        requires
            old(self).wf(),
            y < 8,
        ensures
            final(self).wf(),
            follows(old(self)@, final(self)@, r, load_imm8(old(self)@, y)),
    {
        let n = self.fetch8();
        self.set_operand(y, n);
        self.finish(if y == 6 { 3 } else { 2 })
    }

    fn exec_accumulator_ops(&mut self, y: u8) -> (r: Result<(), CpuError>)
        requires
            old(self).wf(),
            y < 8,
        ensures
            final(self).wf(),
            follows(old(self)@, final(self)@, r, accumulator_ops(old(self)@, y)),
    {
        let a = self.regs.a;
        let f = self.regs.f;
        if y < 4 {
            let (v, fl) = rotate_a(ShiftOp::from_index(y), a, f);
            self.regs.a = v;
            self.regs.f = fl;
        } else if y == 4 {
            let (v, fl) = daa(a, f);
            self.regs.a = v;
            self.regs.f = fl;
        } else if y == 5 {
            let v = 255 - a;
            self.regs.a = v;
            self.regs.f = make_flags(v == 0, true, false, false);
        } else {
            let c = if y == 6 {
                true
            } else {
                !flag_set(f, CARRY_FLAG)
            };
            self.regs.f = make_flags(
                flag_set(f, ZERO_FLAG),
                flag_set(f, SUB_FLAG),
                flag_set(f, HCARRY_FLAG),
                c,
            );
        }
        self.finish(1)
    }

    fn exec_block0(&mut self, op: u8) -> (r: Result<(), CpuError>)
        requires
            old(self).wf(),
            op < 0x40,
        ensures
            final(self).wf(),
            follows(old(self)@, final(self)@, r, block0(old(self)@, op)),
    {
        let y = (op / 8) % 8;
        let z = op % 8;
        let p = y / 2;
        let q = y % 2;
        if z == 0 {
            self.exec_relative_jumps(y)
        } else if z == 1 {
            self.exec_load_add16(p, q)
        } else if z == 2 {
            self.exec_load_indirect(p, q)
        } else if z == 3 {
            self.exec_incdec16(p, q)
        } else if z == 4 {
            self.exec_incdec8(y, false)
        } else if z == 5 {
            self.exec_incdec8(y, true)
        } else if z == 6 {
            self.exec_load_imm8(y)
        } else {
            self.exec_accumulator_ops(y)
        }
    }

    fn exec_block1(&mut self, op: u8) -> (r: Result<(), CpuError>)
        requires
            old(self).wf(),
            0x40 <= op < 0x80,
        ensures
            final(self).wf(),
            follows(old(self)@, final(self)@, r, block1(old(self)@, op)),
    {
        let y = (op / 8) % 8;
        let z = op % 8;
        if op == 0x76 {
            self.halt = true;
            self.finish(1)
        } else {
            let v = self.operand(z);
            self.set_operand(y, v);
            self.finish(if y == 6 || z == 6 { 2 } else { 1 })
        }
    }

    /// Applies accumulator operation `y` with operand `v`.
    fn exec_alu(&mut self, y: u8, v: u8)
        requires
            old(self).wf(),
        ensures
            final(self).wf(),
            final(self)@ == alu_apply(old(self)@, y, v),
    {
        let (a, f) = alu(AluOp::from_index(y), self.regs.a, v, self.regs.f);
        self.regs.a = a;
        self.regs.f = f;
    }

    fn exec_block2(&mut self, op: u8) -> (r: Result<(), CpuError>)
        requires
            old(self).wf(),
            0x80 <= op < 0xC0,
        ensures
            final(self).wf(),
            follows(old(self)@, final(self)@, r, block2(old(self)@, op)),
    {
        let y = (op / 8) % 8;
        let z = op % 8;
        let v = self.operand(z);
        self.exec_alu(y, v);
        self.finish(if z == 6 { 2 } else { 1 })
    }

    fn exec_ret(&mut self, m: u8) -> (r: Result<(), CpuError>)
        requires
            old(self).wf(),
            m <= 6,
        ensures
            final(self).wf(),
            follows(old(self)@, final(self)@, r, ret(old(self)@, m)),
    {
        match self.pop() {
            Ok(v) => {
                self.regs.pc = v;
                self.finish(m)
            },
            Err(e) => Err(e),
        }
    }

    fn exec_call(&mut self, target: u16, m: u8) -> (r: Result<(), CpuError>)
        requires
            old(self).wf(),
            m <= 6,
        ensures
            final(self).wf(),
            follows(old(self)@, final(self)@, r, call(old(self)@, target, m)),
    {
        let pc = self.regs.pc;
        match self.push(pc) {
            Ok(()) => {
                self.regs.pc = target;
                self.finish(m)
            },
            Err(e) => Err(e),
        }
    }

    fn exec_ret_and_high_page(&mut self, y: u8) -> (r: Result<(), CpuError>)
        requires
            old(self).wf(),
            y < 8,
        ensures
            final(self).wf(),
            follows(old(self)@, final(self)@, r, ret_and_high_page(old(self)@, y)),
    {
        if y < 4 {
            if condition(self.regs.f, y) {
                self.exec_ret(3)
            } else {
                self.finish(1)
            }
        } else {
            let n = self.fetch8();
            if y == 4 {
                let a = self.regs.a;
                self.write(0xFF00 + n as u16, a);
                self.finish(3)
            } else if y == 5 {
                self.regs.sp = offset(self.regs.sp, n);
                self.finish(4)
            } else if y == 6 {
                self.regs.a = self.read(0xFF00 + n as u16);
                self.finish(3)
            } else {
                let v = offset(self.regs.sp, n);
                self.regs.set_rp(2, v);
                self.finish(3)
            }
        }
    }

    fn exec_pop_and_misc(&mut self, p: u8, q: u8) -> (r: Result<(), CpuError>)
        requires
            old(self).wf(),
            p < 4,
        ensures
            final(self).wf(),
            follows(old(self)@, final(self)@, r, pop_and_misc(old(self)@, p, q)),
    {
        if q == 0 {
            match self.pop() {
                Ok(v) => {
                    self.regs.set_rp2(p, v);
                    self.finish(3)
                },
                Err(e) => Err(e),
            }
        } else if p == 0 {
            self.exec_ret(3)
        } else if p == 1 {
            match self.pop() {
                Ok(v) => {
                    self.regs.pc = v;
                    self.ime = true;
                    self.finish(3)
                },
                Err(e) => Err(e),
            }
        } else if p == 2 {
            self.regs.pc = join(self.regs.h, self.regs.l);
            self.finish(1)
        } else {
            self.regs.sp = join(self.regs.h, self.regs.l);
            self.finish(2)
        }
    }

    fn exec_jump_and_loads(&mut self, y: u8) -> (r: Result<(), CpuError>)
        requires
            old(self).wf(),
            y < 8,
        ensures
            final(self).wf(),
            follows(old(self)@, final(self)@, r, jump_and_loads(old(self)@, y)),
    {
        if y == 4 {
            let a = self.regs.a;
            self.write(0xFF00 + self.regs.c as u16, a);
            self.finish(2)
        } else if y == 6 {
            self.regs.a = self.read(0xFF00 + self.regs.c as u16);
            self.finish(3)
        } else {
            let nn = self.fetch16();
            if y == 5 {
                let a = self.regs.a;
                self.write(nn, a);
                self.finish(4)
            } else if y == 7 {
                self.regs.a = self.read(nn);
                self.finish(4)
            } else if condition(self.regs.f, y) {
                self.regs.pc = nn;
                self.finish(4)
            } else {
                self.finish(3)
            }
        }
    }

    fn exec_jump_and_interrupts(&mut self, y: u8) -> (r: Result<(), CpuError>)
        requires
            old(self).wf(),
        ensures
            final(self).wf(),
            follows(old(self)@, final(self)@, r, jump_and_interrupts(old(self)@, y)),
    {
        if y == 0 {
            let nn = self.fetch16();
            self.regs.pc = nn;
            self.finish(3)
        } else if y == 6 {
            self.ime = false;
            self.finish(1)
        } else {
            self.ime = true;
            self.finish(1)
        }
    }

    fn exec_call_cond(&mut self, y: u8) -> (r: Result<(), CpuError>)
        requires
            old(self).wf(),
        ensures
            final(self).wf(),
            follows(old(self)@, final(self)@, r, call_cond(old(self)@, y)),
    {
        let nn = self.fetch16();
        if condition(self.regs.f, y) {
            self.exec_call(nn, 5)
        } else {
            self.finish(3)
        }
    }

    fn exec_push_and_call(&mut self, p: u8, q: u8) -> (r: Result<(), CpuError>)
        requires
            old(self).wf(),
            p < 4,
        ensures
            final(self).wf(),
            follows(old(self)@, final(self)@, r, push_and_call(old(self)@, p, q)),
    {
        if q == 0 {
            let v = self.regs.get_rp2(p);
            match self.push(v) {
                Ok(()) => self.finish(3),
                Err(e) => Err(e),
            }
        } else {
            let nn = self.fetch16();
            self.exec_call(nn, 5)
        }
    }

    fn exec_block3(&mut self, op: u8) -> (r: Result<(), CpuError>)
        requires
            old(self).wf(),
            0xC0 <= op,
        ensures
            final(self).wf(),
            follows(old(self)@, final(self)@, r, block3(old(self)@, op)),
    {
        let y = (op / 8) % 8;
        let z = op % 8;
        let p = y / 2;
        let q = y % 2;
        if z == 0 {
            self.exec_ret_and_high_page(y)
        } else if z == 1 {
            self.exec_pop_and_misc(p, q)
        } else if z == 2 {
            self.exec_jump_and_loads(y)
        } else if z == 3 {
            self.exec_jump_and_interrupts(y)
        } else if z == 4 {
            self.exec_call_cond(y)
        } else if z == 5 {
            self.exec_push_and_call(p, q)
        } else if z == 6 {
            let n = self.fetch8();
            self.exec_alu(y, n);
            self.finish(2)
        } else {
            self.exec_call(y as u16 * 8, 3)
        }
    }

    fn exec_extended(&mut self) -> (r: Result<(), CpuError>)
        requires
            old(self).wf(),
        ensures
            final(self).wf(),
            follows(old(self)@, final(self)@, r, extended(old(self)@)),
    {
        let op = self.fetch8();
        let x = op / 64;
        let y = (op / 8) % 8;
        let z = op % 8;
        let v = self.operand(z);
        let m: u8 = if z == 6 {
            4
        } else {
            2
        };
        if x == 0 {
            let (n, f) = shift(ShiftOp::from_index(y), v, self.regs.f);
            self.set_operand(z, n);
            self.regs.f = f;
            self.finish(m)
        } else if x == 1 {
            self.regs.f = bit_test(y, v, self.regs.f);
            self.finish(if z == 6 { 3 } else { 2 })
        } else if x == 2 {
            self.set_operand(z, bit_reset(y, v));
            self.finish(m)
        } else {
            self.set_operand(z, bit_set(y, v));
            self.finish(m)
        }
    }

    fn exec(&mut self, op: u8) -> (r: Result<(), CpuError>)
        requires
            old(self).wf(),
        ensures
            final(self).wf(),
            follows(old(self)@, final(self)@, r, execute(old(self)@, op)),
    {
        reveal(execute);
        if op == 0xCB {
            self.exec_extended()
        } else if op < 0x40 {
            self.exec_block0(op)
        } else if op < 0x80 {
            self.exec_block1(op)
        } else if op < 0xC0 {
            self.exec_block2(op)
        } else {
            self.exec_block3(op)
        }
    }

    /// A processor over `memory_unit` with every register and flag zero,
    /// interrupts enabled and not halted.
    pub fn new(memory_unit: MMU) -> (r: Z80)
        requires
            memory_unit.wf(),
        ensures
            r.wf(),
            r@ == (Machine {
                regs: Registers::zeroed(),
                mem: memory_unit@,
                ime: true,
                halt: false,
                cycles: 0,
            }),
    {
        assert(0u8 & 0x0F == 0) by (bit_vector);
        Z80 {
            memory_unit,
            regs: Registers { a: 0, b: 0, c: 0, d: 0, e: 0, f: 0, h: 0, l: 0, pc: 0, sp: 0 },
            halt: false,
            ime: true,
            last_m: 0,
        }
    }

    /// Leaves the processor as it is: registers, flags, interrupt and halt
    /// state, cycle count and memory all keep their values.
    pub fn reset(&mut self)
        ensures
            final(self)@ == old(self)@,
    {
    }

    /// Executes exactly one instruction: fetches the byte at PC, decodes it
    /// and runs it. Returns its cost and the registers it left; on a fault
    /// the state is left as it was and the fault is returned.
    pub fn run(&mut self) -> (r: Result<Step, CpuError>)
        requires
            old(self).wf(),
        ensures
            final(self).wf(),
            match step(old(self)@) {
                Ok(m) => {
                    &&& final(self)@ == m
                    &&& r == Ok::<Step, CpuError>(
                        (Step { cycles: m.cycles, ticks: (m.cycles * 4) as u8, regs: m.regs }),
                    )
                },
                Err(e) => final(self)@ == old(self)@ && r == Err::<Step, CpuError>(e),
            },
    {
        let saved = self.regs;
        let op = self.read(self.regs.pc);
        if undefined_opcode(op) {
            return Err(CpuError::UndefinedOpcode { opcode: op, pc: saved.pc });
        }
        self.regs.pc = self.regs.pc.wrapping_add(1);
        match self.exec(op) {
            Ok(()) => Ok(Step { cycles: self.last_m, ticks: self.last_m * 4, regs: self.regs }),
            Err(e) => {
                self.regs = saved;
                Err(e)
            },
        }
    }

    /// The little-endian word stored at address 5.
    pub fn test(&self) -> (r: u16)
        requires
            self.wf(),
        ensures
            r == word_at(self@.mem, 5),
    {
        match self.memory_unit.get_w(5) {
            Some(v) => v,
            None => 0,
        }
    }

    /// The whole register file.
    pub fn registers(&self) -> (r: Registers)
        ensures
            r == self@.regs,
    {
        self.regs
    }

    /// Replaces the register file; the low nibble of F is cleared, as F
    /// never holds bits there.
    pub fn set_registers(&mut self, regs: Registers)
        requires
            old(self).wf(),
        ensures
            final(self).wf(),
            final(self)@ == (Machine { regs: Registers { f: regs.f & 0xF0, ..regs }, ..old(self)@ }),
    {
        self.regs = Registers { f: regs.f & 0xF0, ..regs };
    }

    /// The memory unit the processor owns.
    pub fn memory(&self) -> (r: &MMU)
        ensures
            r@ == self@.mem,
    {
        &self.memory_unit
    }

    /// Register A.
    pub fn a(&self) -> (r: u8)
        ensures
            r == self@.regs.a,
    {
        self.regs.a
    }

    /// Register B.
    pub fn b(&self) -> (r: u8)
        ensures
            r == self@.regs.b,
    {
        self.regs.b
    }

    /// Register C.
    pub fn c(&self) -> (r: u8)
        ensures
            r == self@.regs.c,
    {
        self.regs.c
    }

    /// Register D.
    pub fn d(&self) -> (r: u8)
        ensures
            r == self@.regs.d,
    {
        self.regs.d
    }

    /// Register E.
    pub fn e(&self) -> (r: u8)
        ensures
            r == self@.regs.e,
    {
        self.regs.e
    }

    /// Register F.
    pub fn f(&self) -> (r: u8)
        ensures
            r == self@.regs.f,
    {
        self.regs.f
    }

    /// Register H.
    pub fn h(&self) -> (r: u8)
        ensures
            r == self@.regs.h,
    {
        self.regs.h
    }

    /// Register L.
    pub fn l(&self) -> (r: u8)
        ensures
            r == self@.regs.l,
    {
        self.regs.l
    }

    /// The program counter.
    pub fn pc(&self) -> (r: u16)
        ensures
            r == self@.regs.pc,
    {
        self.regs.pc
    }

    /// The stack pointer.
    pub fn sp(&self) -> (r: u16)
        ensures
            r == self@.regs.sp,
    {
        self.regs.sp
    }

    /// Whether interrupts are enabled.
    pub fn ime(&self) -> (r: bool)
        ensures
            r == self@.ime,
    {
        self.ime
    }

    /// Whether HALT has been executed.
    pub fn halted(&self) -> (r: bool)
        ensures
            r == self@.halt,
    {
        self.halt
    }

    /// Machine cycles taken by the last instruction.
    pub fn last_m(&self) -> (r: u8)
        ensures
            r == self@.cycles,
    {
        self.last_m
    }

    /// Clock ticks taken by the last instruction: four per machine cycle.
    pub fn last_t(&self) -> (r: u8)
        requires
            self.wf(),
        ensures
            r == self@.cycles * 4,
    {
        self.last_m * 4
    }

    /// Whether the Zero flag is set.
    pub fn zero(&self) -> (r: bool)
        ensures
            r == has_flag(self@.regs.f, ZERO_FLAG),
    {
        flag_set(self.regs.f, ZERO_FLAG)
    }

    /// Whether the Subtract flag is set.
    pub fn subtract(&self) -> (r: bool)
        ensures
            r == has_flag(self@.regs.f, SUB_FLAG),
    {
        flag_set(self.regs.f, SUB_FLAG)
    }

    /// Whether the Half-Carry flag is set.
    pub fn half_carry(&self) -> (r: bool)
        ensures
            r == has_flag(self@.regs.f, HCARRY_FLAG),
    {
        flag_set(self.regs.f, HCARRY_FLAG)
    }

    /// Whether the Carry flag is set.
    pub fn carry(&self) -> (r: bool)
        ensures
            r == has_flag(self@.regs.f, CARRY_FLAG),
    {
        flag_set(self.regs.f, CARRY_FLAG)
    }
}

} // verus!
