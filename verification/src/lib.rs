//! The instruction-execution core of a 6502-family processor: memory,
//! status register, addressing modes, the opcode table and the
//! fetch-decode-execute loop.
//!
//! [`cpu::CPU`] is the executable processor. [`machine::Machine`] is its
//! mathematical model, against which every method of the processor is
//! specified, and [`laws`] holds what is proved of that model.

pub mod addressing;
pub mod alu;
pub mod cpu;
pub mod instruction;
pub mod laws;
pub mod machine;
pub mod status;

pub use crate::addressing::{AddressingMode, Operand};
pub use crate::cpu::{LoadError, CPU};
pub use crate::instruction::{Instruction, Mnemonic};
pub use crate::machine::{StepResult, ORIGIN};
pub use crate::status::Flag;
