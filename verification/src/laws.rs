//! Laws of the machine's transition function, proved once and for all.
//!
//! Each law is stated over [`crate::machine::spec_step`], the transition
//! function that [`crate::machine::Machine::step`] is proved to implement
//! exactly, so each holds of the running machine as well.

use vstd::prelude::*;

use crate::isa::Fault;
use crate::isa::Instruction;
use crate::isa::Reg;
use crate::machine::spec_step;
use crate::machine::MachineView;

verus! {

/// Adding wraps: from any well-formed state holding `a` in `r1` and `b` in
/// `r2`, `Add(r1, r2)` succeeds and leaves `r1` holding `(a + b) mod 2^16`.
pub proof fn lemma_add_wraps(m: MachineView, r1: Reg, r2: Reg, a: u16, b: u16)
    requires
        m.wf(),
        m.regs[r1.index()] == a,
        m.regs[r2.index()] == b,
    ensures
        ({
            let (post, r) = spec_step(m, Instruction::Add(r1, r2));
            r == Ok::<(), Fault>(()) && post.regs[r1.index()] == (a + b) % 0x10000
        }),
{
}

/// Division by zero faults and mutates nothing: from any well-formed state
/// holding 0 in `r2`, `Div(r1, r2)` returns `DivisionByZero` and leaves the
/// whole state -- register `r1` included -- exactly as it was.
pub proof fn lemma_div_by_zero(m: MachineView, r1: Reg, r2: Reg)
    requires
        m.wf(),
        m.regs[r2.index()] == 0,
    ensures
        spec_step(m, Instruction::Div(r1, r2)).1 == Err::<(), Fault>(Fault::DivisionByZero),
        spec_step(m, Instruction::Div(r1, r2)).0 == m,
{
}

/// A push followed at once by a pop restores the stack pointer and hands
/// the pushed value back: from any well-formed state with a free stack
/// slot, `Push(r)` then `Pop(r2)` both succeed, leave `r2` holding what `r`
/// held, and leave SP at its pre-push value.
pub proof fn lemma_push_pop(m: MachineView, r: Reg, r2: Reg)
    requires
        m.wf(),
        m.sp < m.mem.len(),
    ensures
        ({
            let (m1, push_result) = spec_step(m, Instruction::Push(r));
            let (m2, pop_result) = spec_step(m1, Instruction::Pop(r2));
            &&& push_result == Ok::<(), Fault>(())
            &&& pop_result == Ok::<(), Fault>(())
            &&& m2.regs[r2.index()] == m.regs[r.index()]
            &&& m2.sp == m.sp
        }),
{
}

/// Popping an empty stack faults and mutates nothing: from any well-formed
/// state with SP = 0, `Pop(r)` returns `StackUnderflow` and leaves the
/// whole state exactly as it was.
pub proof fn lemma_pop_underflow(m: MachineView, r: Reg)
    requires
        m.wf(),
        m.sp == 0,
    ensures
        spec_step(m, Instruction::Pop(r)).1 == Err::<(), Fault>(Fault::StackUnderflow),
        spec_step(m, Instruction::Pop(r)).0 == m,
{
}

/// An out-of-range store faults and mutates nothing: from any well-formed
/// state where `addr_reg` holds an address at or beyond capacity,
/// `Store(addr_reg, val_reg)` returns `MemoryOutOfBounds` and leaves the
/// whole state -- memory included -- exactly as it was.
pub proof fn lemma_store_out_of_bounds(m: MachineView, addr_reg: Reg, val_reg: Reg)
    requires
        m.wf(),
        m.regs[addr_reg.index()] >= m.mem.len(),
    ensures
        spec_step(m, Instruction::Store(addr_reg, val_reg)).1 == Err::<(), Fault>(
            Fault::MemoryOutOfBounds,
        ),
        spec_step(m, Instruction::Store(addr_reg, val_reg)).0 == m,
{
}

/// A relative jump wraps: from any well-formed state with PC = p,
/// `JmpRel(offset)` succeeds and sets PC to `(p + offset) mod 2^16`,
/// wrapping past 65535 when the sum overflows.
pub proof fn lemma_jmp_rel_wraps(m: MachineView, offset: u16)
    requires
        m.wf(),
    ensures
        spec_step(m, Instruction::JmpRel(offset)).1 == Ok::<(), Fault>(()),
        spec_step(m, Instruction::JmpRel(offset)).0.pc == (m.pc + offset) % 0x10000,
{
}

/// Every instruction preserves well-formedness: the register file keeps its
/// eight slots, memory keeps its capacity, and the stack pointer keeps
/// naming the next free slot, never moving past capacity.
pub proof fn lemma_step_preserves_wf(m: MachineView, instr: Instruction)
    requires
        m.wf(),
    ensures
        spec_step(m, instr).0.wf(),
{
}

/// Faults are all-or-nothing: whenever any instruction returns an error
/// from a well-formed state, the state after the step is exactly the state
/// before it.
pub proof fn lemma_fault_leaves_state_unchanged(m: MachineView, instr: Instruction)
    requires
        m.wf(),
        spec_step(m, instr).1 is Err,
    ensures
        spec_step(m, instr).0 == m,
{
}

} // verus!
