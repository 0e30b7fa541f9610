//! A CHIP-8 virtual machine core: the machine state, the instruction
//! decoder and a single-step interpreter, with every effect of every
//! instruction stated over a mathematical model of the machine.

pub mod driver;
mod entropy;
pub mod font;
pub mod instruction;
pub mod interp;
pub mod keypad;
pub mod laws;
pub mod loader;
pub mod machine;
pub mod model;
pub mod semantics;
pub mod sprite;

pub use crate::instruction::{decode, Instruction};
pub use crate::loader::{load_rom, LoadError};
pub use crate::machine::Chip8;
pub use crate::semantics::StepError;
