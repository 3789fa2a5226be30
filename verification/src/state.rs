//! The mathematical model of the machine: its state as sequences of bytes,
//! and the meaning of operand access and of one execution step as functions
//! on that state.

use crate::error::Error;
use crate::isa::{
    Operation, CALL, CRASH, IF, JMP, PRINT, REGISTER_LIMIT, TY_CONST, TY_MEM_C, TY_MEM_R, TY_REG,
};
use vstd::prelude::*;

verus! {

/// The abstract state of a machine.
pub struct State {
    /// The 256 memory cells, by address.
    pub memory: Seq<u8>,
    /// The 8 register cells, by index.
    pub registers: Seq<u8>,
    /// Address of the next instruction to fetch.
    pub ip: u8,
}

/// What one step does: the state it leaves, and either the byte it emits as a
/// character (if any) or the fault that ended it.
pub struct Outcome {
    pub state: State,
    pub result: Result<Option<u8>, Error>,
}

impl State {
    /// Memory and registers have their fixed sizes.
    pub open spec fn wf(self) -> bool {
        self.memory.len() == 256 && self.registers.len() == 8
    }

    /// The state of a newly made machine: every cell and the pointer are zero.
    pub open spec fn fresh() -> State {
        State { memory: Seq::new(256, |i: int| 0u8), registers: Seq::new(8, |i: int| 0u8), ip: 0 }
    }

    /// The state after a program image is laid over the start of memory. An
    /// image longer than memory is cut off at the end of memory.
    pub open spec fn load(self, program: Seq<u8>) -> State {
        State {
            memory: Seq::new(
                self.memory.len(),
                |i: int|
                    if i < program.len() {
                        program[i]
                    } else {
                        self.memory[i]
                    },
            ),
            ..self
        }
    }

    /// The value that an operand denotes, or the fault that reading it raises.
    pub open spec fn read(self, mode: u8, operand: u8) -> Result<u8, Error> {
        if mode == TY_CONST {
            Ok(operand)
        } else if mode == TY_REG {
            if operand < REGISTER_LIMIT {
                Ok(self.registers[operand as int])
            } else {
                Err(Error::BadRegister(operand))
            }
        } else if mode == TY_MEM_C {
            Ok(self.memory[operand as int])
        } else if mode == TY_MEM_R {
            if operand < REGISTER_LIMIT {
                Ok(self.memory[self.registers[operand as int] as int])
            } else {
                Err(Error::BadRegister(operand))
            }
        } else {
            Err(Error::UnknownType)
        }
    }

    /// The state after `value` is stored where an operand points, or the
    /// fault that the store raises. A store that faults changes nothing.
    pub open spec fn write(self, mode: u8, operand: u8, value: u8) -> Result<State, Error> {
        if mode == TY_CONST {
            Err(Error::AssignToConstant)
        } else if mode == TY_REG {
            if operand < REGISTER_LIMIT {
                Ok(State { registers: self.registers.update(operand as int, value), ..self })
            } else {
                Err(Error::BadRegister(operand))
            }
        } else if mode == TY_MEM_C {
            Ok(State { memory: self.memory.update(operand as int, value), ..self })
        } else if mode == TY_MEM_R {
            if operand < REGISTER_LIMIT {
                Ok(
                    State {
                        memory: self.memory.update(self.registers[operand as int] as int, value),
                        ..self
                    },
                )
            } else {
                Err(Error::BadRegister(operand))
            }
        } else {
            Err(Error::UnknownType)
        }
    }

    /// The state after a two-operand instruction: both operands are read,
    /// source first, and the operation's result is stored in the second.
    pub open spec fn binop(self, op: Operation, operands: Seq<u8>) -> Result<State, Error> {
        match self.read(operands[0], operands[1]) {
            Err(e) => Err(e),
            Ok(src) => match self.read(operands[2], operands[3]) {
                Err(e) => Err(e),
                Ok(dst) => self.write(operands[2], operands[3], op.result(src, dst)),
            },
        }
    }

    /// The five bytes of the instruction at the pointer. Bytes that would lie
    /// beyond the last memory address are zero: the fetch does not wrap
    /// around to address 0.
    pub open spec fn fetch(self) -> Seq<u8> {
        Seq::new(
            5,
            |i: int|
                if self.ip + i < 256 {
                    self.memory[self.ip + i]
                } else {
                    0u8
                },
        )
    }

    /// The state with the pointer moved past one instruction, modulo 256.
    pub open spec fn advance(self) -> State {
        State { ip: ((self.ip + 5) % 256) as u8, ..self }
    }

    /// The effect of the instruction `instr`, fetched from address `at`, on a
    /// state whose pointer has already been advanced: the new state and the
    /// byte to emit, or the fault.
    pub open spec fn execute(self, instr: Seq<u8>, at: u8) -> Result<(State, Option<u8>), Error> {
        let op = instr[0];
        if op == CRASH {
            Err(Error::ExplicitCrash)
        } else if op == PRINT {
            match self.read(instr[1], instr[2]) {
                Ok(v) => Ok((self, Some(v))),
                Err(e) => Err(e),
            }
        } else if op == JMP {
            match self.read(instr[1], instr[2]) {
                Ok(v) => Ok((State { ip: v, ..self }, None)),
                Err(e) => Err(e),
            }
        } else if op == IF || op == CALL {
            Ok((self, None))
        } else {
            match Operation::of_opcode(op) {
                Some(o) => match self.binop(o, instr.subrange(1, 5)) {
                    Ok(s) => Ok((s, None)),
                    Err(e) => Err(e),
                },
                None => Err(Error::UnknownInstruction { instr: op, at }),
            }
        }
    }

    /// One fetch-decode-execute cycle. The pointer is advanced before the
    /// instruction takes effect, and stays advanced when the step faults;
    /// memory and registers are then as they were.
    pub open spec fn step(self) -> Outcome {
        let next = self.advance();
        match next.execute(self.fetch(), self.ip) {
            Ok((s, out)) => Outcome { state: s, result: Ok(out) },
            Err(e) => Outcome { state: next, result: Err(e) },
        }
    }
}

} // verus!
