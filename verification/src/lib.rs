//! Execution core of a CHIP-8 virtual machine.
//!
//! The machine state lives in [`vm::Chip8`]; its mathematical model,
//! [`machine::Machine`], carries the meaning of every instruction as a spec
//! function, and every executable operation is proved against that model.
//! The laws that relate several operations are proved in [`laws`].

pub mod display;
pub mod font;
pub mod keypad;
pub mod laws;
pub mod machine;
pub mod opcode;
pub mod status;
pub mod vm;

pub use crate::opcode::Instruction;
pub use crate::status::{Chip8Error, ExecState, Signal};
pub use crate::vm::Chip8;
