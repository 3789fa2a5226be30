//! A minimal byte-code virtual machine: 256 bytes of memory, eight registers
//! and an 8-bit instruction pointer, executing one five-byte instruction per
//! step.

pub mod error;
pub mod isa;
pub mod laws;
pub mod machine;
pub mod state;
pub mod util;

pub use error::Error;
pub use isa::{
    Operation, ADD, AND, CALL, CMP, CRASH, DIV, IF, JMP, MOD, MOVE, MUL, OR, PRINT, SUB, TY_CONST,
    TY_MEM_C, TY_MEM_R, TY_REG,
};
pub use machine::Machine;
pub use state::{Outcome, State};
