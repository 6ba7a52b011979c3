use gbcpu::{CpuError, Registers, MMU, Z80};

fn load(program: &[u8], at: usize) -> MMU {
    let mut m = MMU::new();
    for (i, b) in program.iter().enumerate() {
        assert_eq!(m.set_b(at + i, *b), Some(*b));
    }
    m
}

fn cpu_with(program: &[u8], regs: Registers) -> Z80 {
    let mut cpu = Z80::new(load(program, regs.pc as usize));
    cpu.set_registers(regs);
    cpu
}

fn zero_regs() -> Registers {
    Registers { a: 0, b: 0, c: 0, d: 0, e: 0, f: 0, h: 0, l: 0, pc: 0, sp: 0 }
}

#[test]
fn load_then_increment() {
    let mut cpu = Z80::new(load(&[0x3E, 0x05, 0x3C], 0));
    cpu.run().unwrap();
    cpu.run().unwrap();
    assert_eq!(cpu.a(), 6);
    assert!(!cpu.zero());
}

#[test]
fn load_pair_immediate() {
    let mut cpu = Z80::new(load(&[0x01, 0x34, 0x12], 0));
    cpu.run().unwrap();
    assert_eq!(cpu.b(), 0x12);
    assert_eq!(cpu.c(), 0x34);
    assert_eq!(cpu.pc(), 3);
}

#[test]
fn push_bc_writes_below_sp() {
    let regs = Registers { b: 0xBE, c: 0xEF, sp: 0xFFFE, ..zero_regs() };
    let mut cpu = cpu_with(&[0xC5], regs);
    cpu.run().unwrap();
    assert_eq!(cpu.sp(), 0xFFFC);
    assert_eq!(cpu.memory().get_b(0xFFFC), Some(0xEF));
    assert_eq!(cpu.memory().get_b(0xFFFD), Some(0xBE));
}

#[test]
fn increment_a_wraps_to_zero() {
    let regs = Registers { a: 0xFF, ..zero_regs() };
    let mut cpu = cpu_with(&[0x3C], regs);
    cpu.run().unwrap();
    assert_eq!(cpu.a(), 0x00);
    assert!(cpu.zero());
    assert!(!cpu.subtract());
    assert!(cpu.half_carry());
}

#[test]
fn new_cpu_is_zeroed() {
    let cpu = Z80::new(MMU::new());
    assert_eq!(cpu.registers(), zero_regs());
    assert!(cpu.ime());
    assert!(!cpu.halted());
    assert_eq!(cpu.last_m(), 0);
    assert_eq!(cpu.last_t(), 0);
}

#[test]
fn run_reports_cost_and_registers() {
    let mut cpu = Z80::new(load(&[0x01, 0x34, 0x12], 0));
    let step = cpu.run().unwrap();
    assert_eq!(step.cycles, 3);
    assert_eq!(step.ticks, 12);
    assert_eq!(step.regs, cpu.registers());
    assert_eq!(cpu.last_t(), 12);
}

#[test]
fn reset_changes_nothing() {
    let mut cpu = Z80::new(load(&[0x3E, 0x05, 0xF3, 0x76], 0));
    for _ in 0..3 {
        cpu.run().unwrap();
    }
    let regs = cpu.registers();
    cpu.reset();
    assert_eq!(cpu.registers(), regs);
    assert_eq!(cpu.a(), 5);
    assert_eq!(cpu.pc(), 4);
    assert!(cpu.halted());
    assert!(!cpu.ime());
    assert_eq!(cpu.last_m(), 1);
    assert_eq!(cpu.memory().get_b(1), Some(0x05));
}

#[test]
fn test_reads_word_at_five() {
    let cpu = Z80::new(load(&[0x34, 0x12], 5));
    assert_eq!(cpu.test(), 0x1234);
}

#[test]
fn undefined_opcodes_fault_without_change() {
    for op in [0xD3u8, 0xDB, 0xDD, 0xE3, 0xE4, 0xEB, 0xEC, 0xED, 0xF4, 0xFC, 0xFD] {
        let regs = Registers { a: 7, sp: 0x8000, pc: 0x100, ..zero_regs() };
        let mut cpu = cpu_with(&[op], regs);
        assert_eq!(cpu.run(), Err(CpuError::UndefinedOpcode { opcode: op, pc: 0x100 }));
        assert_eq!(cpu.registers(), regs);
    }
}

#[test]
fn every_other_opcode_is_defined() {
    let undefined = [0xD3u8, 0xDB, 0xDD, 0xE3, 0xE4, 0xEB, 0xEC, 0xED, 0xF4, 0xFC, 0xFD];
    for op in 0..=255u8 {
        let regs = Registers { sp: 0x8000, pc: 0x100, h: 0xC0, ..zero_regs() };
        let mut cpu = cpu_with(&[op, 0x00, 0x00], regs);
        let r = cpu.run();
        if undefined.contains(&op) {
            assert!(r.is_err());
        } else {
            assert!(r.is_ok(), "opcode {:#04x}", op);
        }
    }
}

#[test]
fn pop_at_end_of_memory_faults() {
    let regs = Registers { sp: 0xFFFF, ..zero_regs() };
    let mut cpu = cpu_with(&[0xC1], regs);
    assert_eq!(cpu.run(), Err(CpuError::OutOfRangeAccess { address: 0xFFFF }));
    assert_eq!(cpu.registers(), regs);
}

#[test]
fn push_past_end_of_memory_faults() {
    let regs = Registers { sp: 1, b: 1, ..zero_regs() };
    let mut cpu = cpu_with(&[0xC5], regs);
    assert_eq!(cpu.run(), Err(CpuError::OutOfRangeAccess { address: 0xFFFF }));
    assert_eq!(cpu.registers(), regs);
    assert_eq!(cpu.memory().get_b(0xFFFF), Some(0));
}

#[test]
fn call_past_end_of_memory_faults() {
    let regs = Registers { sp: 1, ..zero_regs() };
    let mut cpu = cpu_with(&[0xCD, 0x00, 0x10], regs);
    assert_eq!(cpu.run(), Err(CpuError::OutOfRangeAccess { address: 0xFFFF }));
    assert_eq!(cpu.registers(), regs);
}

#[test]
fn store_sp_at_last_address_faults() {
    let regs = Registers { sp: 0x1234, ..zero_regs() };
    let mut cpu = cpu_with(&[0x08, 0xFF, 0xFF], regs);
    assert_eq!(cpu.run(), Err(CpuError::OutOfRangeAccess { address: 0xFFFF }));
    assert_eq!(cpu.registers(), regs);
}

#[test]
fn store_sp_little_endian() {
    let regs = Registers { sp: 0xBEEF, ..zero_regs() };
    let mut cpu = cpu_with(&[0x08, 0x00, 0xC0], regs);
    assert_eq!(cpu.run().unwrap().cycles, 5);
    assert_eq!(cpu.memory().get_b(0xC000), Some(0xEF));
    assert_eq!(cpu.memory().get_b(0xC001), Some(0xBE));
    assert_eq!(cpu.pc(), 3);
}

#[test]
fn push_then_pop_restores_every_pair() {
    for p in 0..4u8 {
        let regs = Registers {
            a: 0x12, f: 0xB0, b: 0x34, c: 0x56, d: 0x78, e: 0x9A, h: 0xBC, l: 0xDE,
            sp: 0xD000, pc: 0x0100,
        };
        let mut cpu = cpu_with(&[0xC5 + p * 16, 0xC1 + p * 16], regs);
        cpu.run().unwrap();
        assert_eq!(cpu.sp(), 0xCFFE);
        cpu.run().unwrap();
        assert_eq!(cpu.registers(), Registers { pc: 0x0102, ..regs });
    }
}

#[test]
fn pop_af_clears_low_nibble() {
    let mut m = load(&[0xF1], 0);
    m.set_w(0xC000, 0x12FF);
    let mut cpu = Z80::new(m);
    cpu.set_registers(Registers { sp: 0xC000, ..zero_regs() });
    cpu.run().unwrap();
    assert_eq!(cpu.a(), 0x12);
    assert_eq!(cpu.f(), 0xF0);
}

#[test]
fn set_registers_clears_low_nibble_of_f() {
    let mut cpu = Z80::new(MMU::new());
    cpu.set_registers(Registers { f: 0xFF, ..zero_regs() });
    assert_eq!(cpu.f(), 0xF0);
}

#[test]
fn stack_pointer_moves_by_two() {
    // PUSH, CALL, RST lower SP by 2; POP, RET, RETI raise it by 2.
    let cases: [(&[u8], i32); 7] = [
        (&[0xD5], -2),
        (&[0xCD, 0x00, 0x20], -2),
        (&[0xEF], -2),
        (&[0xE1], 2),
        (&[0xC9], 2),
        (&[0xD9], 2),
        (&[0xC4, 0x00, 0x20], -2),
    ];
    for (program, delta) in cases {
        let regs = Registers { sp: 0x9000, pc: 0x400, ..zero_regs() };
        let mut cpu = cpu_with(program, regs);
        cpu.run().unwrap();
        assert_eq!(cpu.sp() as i32, 0x9000 + delta);
    }
}

#[test]
fn call_and_return() {
    let mut m = load(&[0xCD, 0x00, 0x10], 0);
    m.set_b(0x1000, 0xC9);
    let mut cpu = Z80::new(m);
    cpu.set_registers(Registers { sp: 0xFFFE, ..zero_regs() });
    assert_eq!(cpu.run().unwrap().cycles, 5);
    assert_eq!(cpu.pc(), 0x1000);
    assert_eq!(cpu.sp(), 0xFFFC);
    assert_eq!(cpu.memory().get_w(0xFFFC), Some(0x0003));
    assert_eq!(cpu.run().unwrap().cycles, 3);
    assert_eq!(cpu.pc(), 3);
    assert_eq!(cpu.sp(), 0xFFFE);
}

#[test]
fn restart_pushes_next_address() {
    let regs = Registers { sp: 0xFFFE, pc: 0x0200, ..zero_regs() };
    let mut cpu = cpu_with(&[0xFF], regs);
    cpu.run().unwrap();
    assert_eq!(cpu.pc(), 0x38);
    assert_eq!(cpu.memory().get_w(0xFFFC), Some(0x0201));
}

#[test]
fn reti_enables_interrupts() {
    let mut m = load(&[0xF3, 0xD9], 0);
    m.set_w(0x8000, 0x1234);
    let mut cpu = Z80::new(m);
    cpu.set_registers(Registers { sp: 0x8000, ..zero_regs() });
    cpu.run().unwrap();
    assert!(!cpu.ime());
    cpu.run().unwrap();
    assert!(cpu.ime());
    assert_eq!(cpu.pc(), 0x1234);
    assert_eq!(cpu.sp(), 0x8002);
}

#[test]
fn relative_jump_taken_costs_more() {
    for (op, flag) in [(0x20u8, 0x80u8), (0x28, 0x80), (0x30, 0x10), (0x38, 0x10)] {
        let mut costs = [0u8; 2];
        for (i, f) in [0u8, flag].iter().enumerate() {
            let regs = Registers { f: *f, pc: 0x100, ..zero_regs() };
            let mut cpu = cpu_with(&[op, 0x05], regs);
            costs[i] = cpu.run().unwrap().cycles;
            let taken = costs[i] == 3;
            assert_eq!(cpu.pc(), if taken { 0x107 } else { 0x102 });
        }
        let set_taken = op == 0x28 || op == 0x38;
        let (taken, not_taken) = if set_taken { (costs[1], costs[0]) } else { (costs[0], costs[1]) };
        assert_eq!(taken, not_taken + 1);
    }
}

#[test]
fn other_conditional_branches_cost_more_when_taken() {
    // JP NZ, CALL NZ, RET NZ with Zero clear (taken) and set (not taken).
    let cases: [(&[u8], u8, u8); 3] = [
        (&[0xC2, 0x00, 0x20], 4, 3),
        (&[0xC4, 0x00, 0x20], 5, 3),
        (&[0xC0], 3, 1),
    ];
    for (program, taken, not_taken) in cases {
        let regs = Registers { sp: 0x9000, pc: 0x400, ..zero_regs() };
        let mut cpu = cpu_with(program, regs);
        assert_eq!(cpu.run().unwrap().cycles, taken);
        let mut cpu = cpu_with(program, Registers { f: 0x80, ..regs });
        assert_eq!(cpu.run().unwrap().cycles, not_taken);
        assert_eq!(cpu.pc(), 0x400 + program.len() as u16);
        assert_eq!(cpu.sp(), 0x9000);
    }
}

#[test]
fn relative_jump_backwards() {
    let regs = Registers { pc: 0x10, ..zero_regs() };
    let mut cpu = cpu_with(&[0x18, 0xFE], regs);
    assert_eq!(cpu.run().unwrap().cycles, 3);
    assert_eq!(cpu.pc(), 0x10);
}

#[test]
fn decrement_and_jump_if_not_zero() {
    let regs = Registers { b: 2, ..zero_regs() };
    let mut cpu = cpu_with(&[0x10, 0xFE], regs);
    assert_eq!(cpu.run().unwrap().cycles, 3);
    assert_eq!((cpu.b(), cpu.pc()), (1, 0));
    assert_eq!(cpu.run().unwrap().cycles, 2);
    assert_eq!((cpu.b(), cpu.pc()), (0, 2));
}

#[test]
fn hl_post_increment_and_decrement() {
    let regs = Registers { a: 0x42, h: 0xC0, l: 0xFF, ..zero_regs() };
    let mut cpu = cpu_with(&[0x22, 0x32, 0x3A], regs);
    cpu.run().unwrap();
    assert_eq!(cpu.memory().get_b(0xC0FF), Some(0x42));
    assert_eq!((cpu.h(), cpu.l()), (0xC1, 0x00));
    cpu.run().unwrap();
    assert_eq!(cpu.memory().get_b(0xC100), Some(0x42));
    assert_eq!((cpu.h(), cpu.l()), (0xC0, 0xFF));
    cpu.run().unwrap();
    assert_eq!(cpu.a(), 0x42);
    assert_eq!((cpu.h(), cpu.l()), (0xC0, 0xFE));
}

#[test]
fn high_page_loads() {
    let regs = Registers { a: 0x99, c: 0x44, ..zero_regs() };
    let mut cpu = cpu_with(&[0xE0, 0x80, 0xE2, 0xF0, 0x81, 0xF2], regs);
    cpu.run().unwrap();
    assert_eq!(cpu.memory().get_b(0xFF80), Some(0x99));
    cpu.run().unwrap();
    assert_eq!(cpu.memory().get_b(0xFF44), Some(0x99));
    cpu.run().unwrap();
    assert_eq!(cpu.a(), 0x00);
    cpu.run().unwrap();
    assert_eq!(cpu.a(), 0x99);
}

#[test]
fn absolute_loads_and_jumps() {
    let regs = Registers { a: 0x5A, h: 0x30, l: 0x00, ..zero_regs() };
    let mut cpu = cpu_with(&[0xEA, 0x00, 0xC0, 0xAF, 0xFA, 0x00, 0xC0, 0xE9], regs);
    assert_eq!(cpu.run().unwrap().cycles, 4);
    assert_eq!(cpu.memory().get_b(0xC000), Some(0x5A));
    cpu.run().unwrap();
    assert_eq!(cpu.a(), 0);
    cpu.run().unwrap();
    assert_eq!(cpu.a(), 0x5A);
    cpu.run().unwrap();
    assert_eq!(cpu.pc(), 0x3000);
}

#[test]
fn stack_pointer_arithmetic() {
    let regs = Registers { sp: 0x1000, f: 0xF0, ..zero_regs() };
    let mut cpu = cpu_with(&[0xE8, 0xFE, 0xF8, 0x04, 0x21, 0x34, 0x12, 0xF9], regs);
    assert_eq!(cpu.run().unwrap().cycles, 4);
    assert_eq!(cpu.sp(), 0x0FFE);
    assert_eq!(cpu.f(), 0xF0);
    cpu.run().unwrap();
    assert_eq!((cpu.h(), cpu.l()), (0x10, 0x02));
    cpu.run().unwrap();
    cpu.run().unwrap();
    assert_eq!(cpu.sp(), 0x1234);
}

#[test]
fn sixteen_bit_add_flags() {
    let regs = Registers { h: 0x8A, l: 0x23, b: 0x06, c: 0x05, f: 0x80, ..zero_regs() };
    let mut cpu = cpu_with(&[0x09, 0x29], regs);
    cpu.run().unwrap();
    assert_eq!((cpu.h(), cpu.l()), (0x90, 0x28));
    assert_eq!(cpu.f(), 0xA0);
    cpu.run().unwrap();
    assert_eq!((cpu.h(), cpu.l()), (0x20, 0x50));
    assert_eq!(cpu.f(), 0x90);
}

#[test]
fn sixteen_bit_increment_wraps_without_flags() {
    let regs = Registers { b: 0xFF, c: 0xFF, f: 0x00, ..zero_regs() };
    let mut cpu = cpu_with(&[0x03, 0x0B], regs);
    cpu.run().unwrap();
    assert_eq!((cpu.b(), cpu.c(), cpu.f()), (0, 0, 0));
    cpu.run().unwrap();
    assert_eq!((cpu.b(), cpu.c()), (0xFF, 0xFF));
}

#[test]
fn accumulator_rotates_touch_only_carry() {
    let regs = Registers { a: 0x85, f: 0x80, ..zero_regs() };
    let mut cpu = cpu_with(&[0x07, 0x0F, 0x17, 0x1F], regs);
    cpu.run().unwrap();
    assert_eq!((cpu.a(), cpu.f()), (0x0B, 0x90));
    cpu.run().unwrap();
    assert_eq!((cpu.a(), cpu.f()), (0x85, 0x90));
    cpu.run().unwrap();
    assert_eq!((cpu.a(), cpu.f()), (0x0B, 0x90));
    cpu.run().unwrap();
    assert_eq!((cpu.a(), cpu.f()), (0x85, 0x90));
}

#[test]
fn complement_and_carry_flag_ops() {
    let regs = Registers { a: 0x35, ..zero_regs() };
    let mut cpu = cpu_with(&[0x2F, 0x37, 0x3F], regs);
    cpu.run().unwrap();
    assert_eq!((cpu.a(), cpu.f()), (0xCA, 0x40));
    cpu.run().unwrap();
    assert_eq!(cpu.f(), 0x50);
    cpu.run().unwrap();
    assert_eq!(cpu.f(), 0x40);
}

#[test]
fn decimal_adjust_after_add() {
    let regs = Registers { a: 0x15, b: 0x27, ..zero_regs() };
    let mut cpu = cpu_with(&[0x80, 0x27], regs);
    cpu.run().unwrap();
    assert_eq!(cpu.a(), 0x3C);
    cpu.run().unwrap();
    assert_eq!(cpu.a(), 0x42);
    assert_eq!(cpu.f(), 0x00);
}

#[test]
fn memory_operand_matches_register_operand() {
    // ADD A,(HL) and ADD A,B give the same flags for the same operand.
    for v in 0..=255u8 {
        let regs = Registers { a: 0x88, b: v, h: 0xC0, l: 0x00, ..zero_regs() };
        let mut by_reg = cpu_with(&[0x80], regs);
        let mut m = load(&[0x86], 0);
        m.set_b(0xC000, v);
        let mut by_mem = Z80::new(m);
        by_mem.set_registers(regs);
        assert_eq!(by_reg.run().unwrap().cycles, 1);
        assert_eq!(by_mem.run().unwrap().cycles, 2);
        assert_eq!((by_reg.a(), by_reg.f()), (by_mem.a(), by_mem.f()));
    }
}

#[test]
fn increment_through_step_sets_zero_only_at_zero() {
    for v in 0..=255u8 {
        let regs = Registers { d: v, ..zero_regs() };
        let mut cpu = cpu_with(&[0x14, 0x15], regs);
        cpu.run().unwrap();
        assert_eq!(cpu.zero(), v.wrapping_add(1) == 0);
        assert_eq!(cpu.half_carry(), v & 0x0F == 0x0F);
        cpu.run().unwrap();
        assert_eq!(cpu.d(), v);
        assert_eq!(cpu.zero(), v == 0);
        assert!(cpu.subtract());
    }
}

#[test]
fn extended_ops_on_registers_and_memory() {
    let regs = Registers { a: 0xF0, h: 0xC0, l: 0x10, ..zero_regs() };
    let mut cpu = cpu_with(&[0xCB, 0x37, 0xCB, 0x7C, 0xCB, 0xC6, 0xCB, 0x06, 0xCB, 0x86], regs);
    assert_eq!(cpu.run().unwrap().cycles, 2);
    assert_eq!((cpu.a(), cpu.f()), (0x0F, 0x00));
    cpu.run().unwrap();
    assert_eq!(cpu.f(), 0x20);
    assert_eq!(cpu.run().unwrap().cycles, 4);
    assert_eq!(cpu.memory().get_b(0xC010), Some(0x01));
    assert_eq!(cpu.run().unwrap().cycles, 4);
    assert_eq!(cpu.memory().get_b(0xC010), Some(0x02));
    assert_eq!(cpu.f(), 0x00);
    cpu.run().unwrap();
    assert_eq!(cpu.memory().get_b(0xC010), Some(0x02));
}

#[test]
fn bit_test_keeps_operand_and_carry() {
    let regs = Registers { e: 0x08, f: 0x10, ..zero_regs() };
    let mut cpu = cpu_with(&[0xCB, 0x5B, 0xCB, 0x63], regs);
    cpu.run().unwrap();
    assert_eq!((cpu.e(), cpu.f()), (0x08, 0x30));
    cpu.run().unwrap();
    assert_eq!((cpu.e(), cpu.f()), (0x08, 0xB0));
}

#[test]
fn halt_and_interrupt_flags() {
    let mut cpu = Z80::new(load(&[0xF3, 0xFB, 0x76], 0));
    cpu.run().unwrap();
    assert!(!cpu.ime());
    cpu.run().unwrap();
    assert!(cpu.ime());
    cpu.run().unwrap();
    assert!(cpu.halted());
}

#[test]
fn register_to_register_loads() {
    let regs = Registers { a: 1, b: 2, c: 3, d: 4, e: 5, h: 0xC0, l: 0x00, ..zero_regs() };
    let mut cpu = cpu_with(&[0x41, 0x70, 0x7E, 0x36, 0x99, 0x5E], regs);
    cpu.run().unwrap();
    assert_eq!(cpu.b(), 3);
    assert_eq!(cpu.run().unwrap().cycles, 2);
    assert_eq!(cpu.memory().get_b(0xC000), Some(3));
    cpu.run().unwrap();
    assert_eq!(cpu.a(), 3);
    assert_eq!(cpu.run().unwrap().cycles, 3);
    cpu.run().unwrap();
    assert_eq!(cpu.e(), 0x99);
}
