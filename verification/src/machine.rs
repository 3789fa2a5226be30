//! The executable machine.

use crate::error::Error;
use crate::isa::{
    Operation, CALL, CRASH, IF, JMP, PRINT, REGISTER_LIMIT, TY_CONST, TY_MEM_C, TY_MEM_R, TY_REG,
};
use crate::state::State;
use crate::util::copy;
use vstd::prelude::*;

verus! {

/// A machine: 256 memory cells, 8 register cells and an instruction pointer.
pub struct Machine {
    mem: [u8; 256],
    reg: [u8; 8],
    ip: u8,
}

impl View for Machine {
    type V = State;

    closed spec fn view(&self) -> State {
        State { memory: self.mem@, registers: self.reg@, ip: self.ip }
    }
}

impl Machine {
    /// Makes a machine whose memory, registers and pointer are all zero.
    pub fn new() -> (m: Machine)
        ensures
            m@ == State::fresh(),
    {
        let m = Machine { mem: [0;256], reg: [0;8], ip: 0 };
        assert(m@.memory =~= State::fresh().memory);
        assert(m@.registers =~= State::fresh().registers);
        m
    }

    /// Every machine's state has the fixed sizes.
    pub proof fn lemma_wf(&self)
        ensures
            self@.wf(),
    {
    }

    /// Lays a program image over the start of memory. Registers and the
    /// pointer are untouched; bytes of an image beyond 256 are dropped.
    pub fn load(&mut self, instrs: &[u8])
        ensures
            final(self)@ == old(self)@.load(instrs@),
    {
        copy(&mut self.mem, instrs);
        assert(self@.memory =~= old(self)@.load(instrs@).memory);
    }

    /// The memory cell at `addr`.
    pub fn memory(&self, addr: u8) -> (v: u8)
        ensures
            v == self@.memory[addr as int],
    {
        self.mem[addr as usize]
    }

    /// The register cell at `index`, the reserved last one included.
    pub fn register(&self, index: u8) -> (v: u8)
        requires
            index < 8,
        ensures
            v == self@.registers[index as int],
    {
        self.reg[index as usize]
    }

    /// Address of the next instruction.
    pub fn instruction_pointer(&self) -> (v: u8)
        ensures
            v == self@.ip,
    {
        self.ip
    }

    /// Reads the operand `val` under addressing mode `typ`.
    pub fn get(&self, typ: u8, val: u8) -> (r: Result<u8, Error>)
        ensures
            r == self@.read(typ, val),
    {
        match typ {
            TY_CONST => Ok(val),
            TY_REG => {
                if val < REGISTER_LIMIT {
                    Ok(self.reg[val as usize])
                } else {
                    Err(Error::BadRegister(val))
                }
            },
            TY_MEM_C => Ok(self.mem[val as usize]),
            TY_MEM_R => {
                if val < REGISTER_LIMIT {
                    Ok(self.mem[self.reg[val as usize] as usize])
                } else {
                    Err(Error::BadRegister(val))
                }
            },
            _ => Err(Error::UnknownType),
        }
    }

    /// Stores `value` where the operand `data` under addressing mode `typ`
    /// points. On a fault nothing is changed.
    pub fn set(&mut self, typ: u8, data: u8, value: u8) -> (r: Result<(), Error>)
        ensures
            match old(self)@.write(typ, data, value) {
                Ok(s) => r.is_ok() && final(self)@ == s,
                Err(e) => r == Err::<(), Error>(e) && final(self)@ == old(self)@,
            },
    {
        match typ {
            TY_CONST => Err(Error::AssignToConstant),
            TY_REG => {
                if data < REGISTER_LIMIT {
                    self.reg[data as usize] = value;
                    Ok(())
                } else {
                    Err(Error::BadRegister(data))
                }
            },
            TY_MEM_C => {
                self.mem[data as usize] = value;
                Ok(())
            },
            TY_MEM_R => {
                if data < REGISTER_LIMIT {
                    let addr: usize = self.reg[data as usize] as usize;
                    self.mem[addr] = value;
                    Ok(())
                } else {
                    Err(Error::BadRegister(data))
                }
            },
            _ => Err(Error::UnknownType),
        }
    }

    /// Executes a two-operand instruction: reads the source operand, then the
    /// destination operand, and stores the operation's result in the
    /// destination. `operands` holds the two (mode, byte) pairs.
    fn binop(&mut self, operands: &[u8], op: Operation) -> (r: Result<(), Error>)
        requires
            operands@.len() == 4,
        ensures
            match old(self)@.binop(op, operands@) {
                Ok(s) => r.is_ok() && final(self)@ == s,
                Err(e) => r == Err::<(), Error>(e) && final(self)@ == old(self)@,
            },
    {
        let o1: u8 = match self.get(operands[0], operands[1]) {
            Ok(v) => v,
            Err(e) => return Err(e),
        };
        let o2: u8 = match self.get(operands[2], operands[3]) {
            Ok(v) => v,
            Err(e) => return Err(e),
        };
        self.set(operands[2], operands[3], op.apply(o1, o2))
    }

    /// Executes the instruction at the pointer.
    ///
    /// The five bytes at the pointer are fetched (bytes beyond address 255
    /// read as zero) and the pointer is advanced by five, modulo 256, before
    /// the instruction takes effect. `Ok(Some(b))` asks the caller to emit
    /// the byte `b` as a character; `Ok(None)` asks for nothing. On a fault
    /// the pointer stays advanced and memory and registers are unchanged.
    pub fn step(&mut self) -> (r: Result<Option<u8>, Error>)
        ensures
            final(self)@ == old(self)@.step().state,
            r == old(self)@.step().result,
    {
        let mut instr: [u8; 5] = [0;5];
        let start: usize = self.ip as usize;
        let end: usize = if start + 5 < 256 {
            start + 5
        } else {
            256
        };
        let window: &[u8] = vstd::slice::slice_subrange(self.mem.as_slice(), start, end);
        let ghost blank: Seq<u8> = instr@;
        assert(forall|i: int| 0 <= i < 5 ==> blank[i] == 0);
        copy(&mut instr, window);
        assert forall|i: int| 0 <= i < 5 implies instr@[i] == self@.fetch()[i] by {
            if i < window@.len() {
                assert(cloned::<u8>(window@[i], instr@[i]));
            } else {
                assert(instr@[i] == blank[i]);
            }
        }
        assert(instr@ =~= self@.fetch());
        let at: u8 = self.ip;
        self.ip = self.ip.wrapping_add(5);
        let op: u8 = instr[0];
        let operands: &[u8] = vstd::slice::slice_subrange(instr.as_slice(), 1, 5);

        match op {
            CRASH => Err(Error::ExplicitCrash),
            PRINT => match self.get(operands[0], operands[1]) {
                Ok(v) => Ok(Some(v)),
                Err(e) => Err(e),
            },
            JMP => match self.get(operands[0], operands[1]) {
                Ok(v) => {
                    self.ip = v;
                    Ok(None)
                },
                Err(e) => Err(e),
            },
            IF => Ok(None),
            CALL => Ok(None),
            other => match Operation::from_opcode(other) {
                Some(o) => match self.binop(operands, o) {
                    Ok(()) => Ok(None),
                    Err(e) => Err(e),
                },
                None => Err(Error::UnknownInstruction { instr: other, at }),
            },
        }
    }
}

} // verus!
