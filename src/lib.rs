//! The execution core of an 8080-class CPU: registers, condition flags, and a
//! verified single-step interpreter for the addition instructions.

pub mod cpu;
pub mod flags;
pub mod laws;

pub use cpu::{decode, CpuError, Instruction, Operand, CPU};
pub use flags::{parity, ConditionCodes};
