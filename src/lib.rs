//! An instruction interpreter for the 8-bit processor of the Game Boy, with
//! its register file, flag-accurate ALU, primary and CB-prefixed opcode
//! tables, and a flat 64 KiB memory unit.

pub mod mmu;
pub mod regs;
pub mod alu;
pub mod isa;
pub mod cpu;
pub mod laws;

pub use alu::{AluOp, ShiftOp};
pub use cpu::{Step, Z80};
pub use isa::CpuError;
pub use mmu::MMU;
pub use regs::Registers;
