//! The instruction set: opcode and addressing-mode bytes, and the arithmetic
//! of the two-operand instructions.
//!
//! An instruction is five bytes wide: the opcode, then two operands of two
//! bytes each, an addressing mode followed by an operand byte. The first
//! operand is the source; the second is both the other input and the
//! destination.

use vstd::prelude::*;

verus! {

/// Addressing mode: the operand byte is the value itself.
pub const TY_CONST: u8 = 0;

/// Addressing mode: the operand byte is a register index.
pub const TY_REG: u8 = 1;

/// Addressing mode: the operand byte is a memory address.
pub const TY_MEM_C: u8 = 2;

/// Addressing mode: the operand byte is the index of a register that holds a
/// memory address.
pub const TY_MEM_R: u8 = 3;

/// Opcode: fault with `ExplicitCrash`.
pub const CRASH: u8 = 0;

/// Opcode: emit the first operand's value as a character.
pub const PRINT: u8 = 1;

/// Opcode: destination plus source, modulo 256.
pub const ADD: u8 = 2;

/// Opcode: destination minus source, modulo 256.
pub const SUB: u8 = 3;

/// Opcode: destination times source, modulo 256.
pub const MUL: u8 = 4;

/// Opcode: destination divided by source, rounded down.
pub const DIV: u8 = 5;

/// Opcode: remainder of destination divided by source.
pub const MOD: u8 = 6;

/// Opcode: set the instruction pointer to the first operand's value.
pub const JMP: u8 = 7;

/// Opcode: order of destination against source, as 0, 1 or 255.
pub const CMP: u8 = 8;

/// Opcode: bitwise and of source and destination.
pub const AND: u8 = 9;

/// Opcode: bitwise or of source and destination.
pub const OR: u8 = 10;

/// Opcode: reserved; executes as a no-op.
pub const IF: u8 = 11;

/// Opcode: reserved; executes as a no-op.
pub const CALL: u8 = 12;

/// Opcode: copy the source value into the destination.
pub const MOVE: u8 = 13;

/// Register operands must lie below this index; the last register cell is
/// reserved and cannot be named by any operand.
pub const REGISTER_LIMIT: u8 = 7;

/// The computation of a two-operand instruction.
#[derive(Clone, Copy, Debug, PartialEq, Eq, Structural)]
pub enum Operation {
    Add,
    Sub,
    Mul,
    Div,
    Mod,
    Compare,
    And,
    Or,
    Move,
}

impl Operation {
    /// The value that the operation leaves in the destination, given the
    /// source value and the destination's previous value. Sums, differences
    /// and products are taken modulo 256. Dividing by zero gives 0 and the
    /// remainder by zero is the destination itself, so that
    /// `dst == quotient * src + remainder` holds for every source.
    pub open spec fn result(self, src: u8, dst: u8) -> u8 {
        match self {
            Operation::Add => ((dst + src) % 256) as u8,
            Operation::Sub => ((dst - src) % 256) as u8,
            Operation::Mul => ((dst * src) % 256) as u8,
            Operation::Div => if src == 0 {
                0u8
            } else {
                dst / src
            },
            Operation::Mod => if src == 0 {
                dst
            } else {
                dst % src
            },
            Operation::Compare => if dst > src {
                255u8
            } else if dst < src {
                1u8
            } else {
                0u8
            },
            Operation::And => src & dst,
            Operation::Or => src | dst,
            Operation::Move => src,
        }
    }

    /// The operation that an opcode byte stands for, if it is one of the
    /// two-operand instructions.
    pub open spec fn of_opcode(op: u8) -> Option<Operation> {
        if op == ADD {
            Some(Operation::Add)
        } else if op == SUB {
            Some(Operation::Sub)
        } else if op == MUL {
            Some(Operation::Mul)
        } else if op == DIV {
            Some(Operation::Div)
        } else if op == MOD {
            Some(Operation::Mod)
        } else if op == CMP {
            Some(Operation::Compare)
        } else if op == AND {
            Some(Operation::And)
        } else if op == OR {
            Some(Operation::Or)
        } else if op == MOVE {
            Some(Operation::Move)
        } else {
            None
        }
    }

    /// Decodes an opcode byte into its two-operand operation.
    pub fn from_opcode(op: u8) -> (r: Option<Operation>)
        ensures
            r == Operation::of_opcode(op),
    {
        match op {
            ADD => Some(Operation::Add),
            SUB => Some(Operation::Sub),
            MUL => Some(Operation::Mul),
            DIV => Some(Operation::Div),
            MOD => Some(Operation::Mod),
            CMP => Some(Operation::Compare),
            AND => Some(Operation::And),
            OR => Some(Operation::Or),
            MOVE => Some(Operation::Move),
            _ => None,
        }
    }

    /// Computes the operation on 8-bit values. No input overflows or traps:
    /// arithmetic wraps, and a zero divisor gives quotient 0 and the
    /// destination as remainder.
    pub fn apply(self, src: u8, dst: u8) -> (v: u8)
        ensures
            v == self.result(src, dst),
    {
        match self {
            Operation::Add => dst.wrapping_add(src),
            Operation::Sub => dst.wrapping_sub(src),
            Operation::Mul => dst.wrapping_mul(src),
            Operation::Div => if src == 0 {
                0
            } else {
                dst / src
            },
            Operation::Mod => if src == 0 {
                dst
            } else {
                dst % src
            },
            Operation::Compare => if dst > src {
                255
            } else if dst < src {
                1
            } else {
                0
            },
            Operation::And => src & dst,
            Operation::Or => src | dst,
            Operation::Move => src,
        }
    }
}

} // verus!
