//! Laws of the machine, proved over its mathematical model.
//!
//! Executing an instruction reads the source operand before anything else,
//! so the laws about where a result goes assume that the source operand can
//! be read; a source that faults decides the step on its own.

use crate::error::Error;
use crate::isa::{
    Operation, ADD, AND, CMP, CRASH, DIV, MOD, MOVE, MUL, OR, REGISTER_LIMIT, SUB, TY_CONST,
    TY_MEM_C, TY_MEM_R, TY_REG,
};
use crate::state::State;
use vstd::prelude::*;

verus! {

/// A step of a newly made machine faults with `ExplicitCrash`: its memory is
/// all zero, and zero is the crash opcode.
pub proof fn law_fresh_machine_crashes()
    ensures
        State::fresh().step().result == Err::<Option<u8>, Error>(Error::ExplicitCrash),
        State::fresh().load(Seq::empty()).step().result == Err::<Option<u8>, Error>(
            Error::ExplicitCrash,
        ),
{
}

/// Whenever the cell at the pointer holds the crash opcode, the step faults
/// with `ExplicitCrash` and changes nothing but the pointer.
pub proof fn law_crash_opcode(s: State)
    requires
        s.wf(),
        s.memory[s.ip as int] == CRASH,
    ensures
        s.step().result == Err::<Option<u8>, Error>(Error::ExplicitCrash),
        s.step().state == s.advance(),
{
}

/// Reading an operand does not depend on the pointer.
pub proof fn law_read_ignores_pointer(s: State, mode: u8, operand: u8)
    ensures
        s.advance().read(mode, operand) == s.read(mode, operand),
{
}

/// A store into an immediate constant is rejected with `AssignToConstant`,
/// whatever the operand byte and the value.
pub proof fn law_write_to_constant(s: State, operand: u8, value: u8)
    ensures
        s.write(TY_CONST, operand, value) == Err::<State, Error>(Error::AssignToConstant),
{
}

/// A move whose destination is an immediate constant faults with
/// `AssignToConstant`, whatever the destination's operand byte; memory and
/// registers stay as they were and the pointer is advanced.
pub proof fn law_move_into_constant(s: State)
    requires
        s.wf(),
        s.fetch()[0] == MOVE,
        s.fetch()[3] == TY_CONST,
        s.read(s.fetch()[1], s.fetch()[2]).is_ok(),
    ensures
        s.step().result == Err::<Option<u8>, Error>(Error::AssignToConstant),
        s.step().state == s.advance(),
{
}

/// A move into a register whose index is not below the limit faults with
/// `BadRegister` of that index and leaves the registers unchanged. With an
/// index below the limit it succeeds, and exactly that register then holds
/// the source value.
pub proof fn law_move_into_register(s: State, value: u8)
    requires
        s.wf(),
        s.fetch()[0] == MOVE,
        s.fetch()[3] == TY_REG,
        s.read(s.fetch()[1], s.fetch()[2]) == Ok::<u8, Error>(value),
    ensures
        s.fetch()[4] >= REGISTER_LIMIT ==> {
            &&& s.step().result == Err::<Option<u8>, Error>(Error::BadRegister(s.fetch()[4]))
            &&& s.step().state == s.advance()
        },
        s.fetch()[4] < REGISTER_LIMIT ==> {
            &&& s.step().result == Ok::<Option<u8>, Error>(None)
            &&& s.step().state.registers == s.registers.update(s.fetch()[4] as int, value)
            &&& s.step().state.registers[s.fetch()[4] as int] == value
            &&& s.step().state.memory == s.memory
            &&& s.step().state.ip == s.advance().ip
        },
{
}

/// A move into a memory address always succeeds, and exactly that cell then
/// holds the source value.
pub proof fn law_move_into_memory(s: State, value: u8)
    requires
        s.wf(),
        s.fetch()[0] == MOVE,
        s.fetch()[3] == TY_MEM_C,
        s.read(s.fetch()[1], s.fetch()[2]) == Ok::<u8, Error>(value),
    ensures
        s.step().result == Ok::<Option<u8>, Error>(None),
        s.step().state.memory == s.memory.update(s.fetch()[4] as int, value),
        s.step().state.memory[s.fetch()[4] as int] == value,
        s.step().state.registers == s.registers,
        s.step().state.ip == s.advance().ip,
{
}

/// Storing an address in a register and then storing a value through that
/// register leaves memory as a single store of the value at the address does.
pub proof fn law_indirect_write_matches_direct(s: State, register: u8, addr: u8, value: u8)
    requires
        s.wf(),
        register < REGISTER_LIMIT,
    ensures
        s.write(TY_REG, register, addr).is_ok(),
        s.write(TY_REG, register, addr).unwrap().write(TY_MEM_R, register, value).is_ok(),
        s.write(TY_MEM_C, addr, value).is_ok(),
        s.write(TY_REG, register, addr).unwrap().write(TY_MEM_R, register, value).unwrap().memory
            == s.write(TY_MEM_C, addr, value).unwrap().memory,
{
}

/// Two moves in a row, the first putting an address into a register and the
/// second storing a value through that register, both succeed and leave
/// memory as a single store of the value at the address does.
pub proof fn law_chained_moves_match_direct(s: State, addr: u8, value: u8)
    requires
        s.wf(),
        s.fetch()[0] == MOVE,
        s.fetch()[3] == TY_REG,
        s.fetch()[4] < REGISTER_LIMIT,
        s.read(s.fetch()[1], s.fetch()[2]) == Ok::<u8, Error>(addr),
        s.step().state.fetch()[0] == MOVE,
        s.step().state.fetch()[3] == TY_MEM_R,
        s.step().state.fetch()[4] == s.fetch()[4],
        s.step().state.read(s.step().state.fetch()[1], s.step().state.fetch()[2]) == Ok::<
            u8,
            Error,
        >(value),
    ensures
        s.step().result == Ok::<Option<u8>, Error>(None),
        s.step().state.step().result == Ok::<Option<u8>, Error>(None),
        s.step().state.step().state.memory == s.memory.update(addr as int, value),
        s.step().state.step().state.memory == s.write(TY_MEM_C, addr, value).unwrap().memory,
        s.step().state.step().state.memory[addr as int] == value,
{
}

/// An arithmetic or bitwise instruction whose two operands are both
/// immediate constants faults with `AssignToConstant`, and changes nothing
/// but the pointer.
pub proof fn law_arithmetic_on_constants(s: State)
    requires
        s.wf(),
        s.fetch()[0] == ADD || s.fetch()[0] == SUB || s.fetch()[0] == MUL || s.fetch()[0] == DIV
            || s.fetch()[0] == MOD || s.fetch()[0] == AND || s.fetch()[0] == OR,
        s.fetch()[1] == TY_CONST,
        s.fetch()[3] == TY_CONST,
    ensures
        s.step().result == Err::<Option<u8>, Error>(Error::AssignToConstant),
        s.step().state == s.advance(),
{
}

/// Comparing gives 0 for equal values, 255 where the destination is the
/// greater and 1 where it is the smaller.
pub proof fn law_compare_result(src: u8, dst: u8)
    ensures
        dst == src ==> Operation::Compare.result(src, dst) == 0,
        dst > src ==> Operation::Compare.result(src, dst) == 255,
        dst < src ==> Operation::Compare.result(src, dst) == 1,
{
}

/// A compare instruction stores in its destination 0 for equal operand
/// values, 255 where the destination's value is the greater and 1 where it
/// is the smaller.
pub proof fn law_compare_step(s: State, src: u8, dst: u8)
    requires
        s.wf(),
        s.fetch()[0] == CMP,
        s.read(s.fetch()[1], s.fetch()[2]) == Ok::<u8, Error>(src),
        s.read(s.fetch()[3], s.fetch()[4]) == Ok::<u8, Error>(dst),
    ensures
        ({
            let verdict: u8 = if dst == src {
                0u8
            } else if dst > src {
                255u8
            } else {
                1u8
            };
            match s.advance().write(s.fetch()[3], s.fetch()[4], verdict) {
                Ok(after) => s.step().result == Ok::<Option<u8>, Error>(None) && s.step().state
                    == after,
                Err(e) => s.step().result == Err::<Option<u8>, Error>(e) && s.step().state
                    == s.advance(),
            }
        }),
{
}

/// A byte at the pointer that is no defined opcode makes the step fault with
/// `UnknownInstruction`, naming that byte and the address it was fetched
/// from: the pointer's value before it was advanced.
pub proof fn law_unknown_opcode(s: State)
    requires
        s.wf(),
        s.memory[s.ip as int] > MOVE,
    ensures
        s.step().result == Err::<Option<u8>, Error>(
            Error::UnknownInstruction { instr: s.memory[s.ip as int], at: s.ip },
        ),
        s.step().state == s.advance(),
{
}

/// A step keeps memory and registers at their fixed sizes.
pub proof fn law_step_preserves_wf(s: State)
    requires
        s.wf(),
    ensures
        s.step().state.wf(),
{
}

/// Loading a program keeps memory and registers at their fixed sizes, and
/// touches neither the registers nor the pointer.
pub proof fn law_load_preserves_wf(s: State, program: Seq<u8>)
    requires
        s.wf(),
    ensures
        s.load(program).wf(),
        s.load(program).registers == s.registers,
        s.load(program).ip == s.ip,
{
}

/// A step that faults has advanced the pointer and changed nothing else.
pub proof fn law_fault_changes_pointer_only(s: State)
    requires
        s.wf(),
        s.step().result.is_err(),
    ensures
        s.step().state == s.advance(),
{
}

/// No step changes more than one cell: either memory and registers are as
/// before, or one memory cell was stored to, or one register below the limit
/// was.
pub proof fn law_step_writes_one_cell(s: State)
    requires
        s.wf(),
    ensures
        ({
            let after = s.step().state;
            ||| (after.memory == s.memory && after.registers == s.registers)
            ||| (after.registers == s.registers && exists|addr: u8, value: u8|
                after.memory == s.memory.update(addr as int, value))
            ||| (after.memory == s.memory && exists|index: u8, value: u8|
                index < REGISTER_LIMIT && after.registers == s.registers.update(
                    index as int,
                    value,
                ))
        }),
{
}

/// The last register cell is reserved: no step changes it.
pub proof fn law_reserved_register_untouched(s: State)
    requires
        s.wf(),
    ensures
        s.step().state.registers[7] == s.registers[7],
{
}

} // verus!
