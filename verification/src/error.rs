//! The faults that the machine reports.

use vstd::prelude::*;

verus! {

/// A fault raised while resolving an operand or executing an instruction.
/// Every fault ends the step in which it arises and is handed to the caller.
#[derive(Clone, Copy, Debug, PartialEq, Eq, Structural)]
pub enum Error {
    /// The crash instruction was executed.
    ExplicitCrash,
    /// Reserved for exhaustion of the program; no instruction raises it.
    OutOfInstructions,
    /// Reserved; no instruction raises it.
    HitZero,
    /// A register operand named an index that is not below `REGISTER_LIMIT`.
    BadRegister(u8),
    /// An addressing-mode byte was none of the four defined modes.
    UnknownType,
    /// A write was aimed at an immediate constant.
    AssignToConstant,
    /// The opcode byte `instr`, found at address `at`, is no defined opcode.
    UnknownInstruction { instr: u8, at: u8 },
}

} // verus!
