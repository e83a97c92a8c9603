//! The instruction-set architecture: register names, instructions, faults.

use vstd::prelude::*;

verus! {

/// One of the eight general-purpose registers.
///
/// Operand registers are valid by construction: an `Instruction` can only
/// name a register through this closed set, so no "unknown register" fault
/// exists anywhere in the machine.
#[derive(Clone, Copy, Debug, PartialEq, Eq, Structural)]
pub enum Reg {
    R0,
    R1,
    R2,
    R3,
    R4,
    R5,
    R6,
    R7,
}

impl Reg {
    /// The position of this register in the register file, 0 through 7.
    pub open spec fn index(self) -> int {
        match self {
            Reg::R0 => 0,
            Reg::R1 => 1,
            Reg::R2 => 2,
            Reg::R3 => 3,
            Reg::R4 => 4,
            Reg::R5 => 5,
            Reg::R6 => 6,
            Reg::R7 => 7,
        }
    }

    /// The position of this register in the register file, as a `usize`.
    pub fn as_index(self) -> (i: usize)
        ensures
            i == self.index(),
            i < 8,
    {
        match self {
            Reg::R0 => 0,
            Reg::R1 => 1,
            Reg::R2 => 2,
            Reg::R3 => 3,
            Reg::R4 => 4,
            Reg::R5 => 5,
            Reg::R6 => 6,
            Reg::R7 => 7,
        }
    }

    /// The register at position `i`, or `None` when `i` is 8 or more.
    pub fn from_index(i: usize) -> (r: Option<Reg>)
        ensures
            i < 8 ==> (r matches Some(g) && g.index() == i),
            i >= 8 ==> r is None,
    {
        match i {
            0 => Some(Reg::R0),
            1 => Some(Reg::R1),
            2 => Some(Reg::R2),
            3 => Some(Reg::R3),
            4 => Some(Reg::R4),
            5 => Some(Reg::R5),
            6 => Some(Reg::R6),
            7 => Some(Reg::R7),
            _ => None,
        }
    }
}

/// One decoded instruction: a closed set of fifteen variants, each carrying
/// register operands or a raw 16-bit immediate.
///
/// For the relative jumps the operand is the raw 16-bit word of the offset;
/// adding it to the program counter modulo 2^16 gives exactly the two's
/// complement reading of that word, so a "negative" offset is the word that
/// wraps the counter backwards.
#[derive(Clone, Copy, Debug, PartialEq, Eq, Structural)]
pub enum Instruction {
    /// r1 <- r1 + r2, wrapping modulo 2^16.
    Add(Reg, Reg),
    /// r1 <- r1 - r2, wrapping modulo 2^16.
    Sub(Reg, Reg),
    /// r1 <- r1 * r2, wrapping modulo 2^16.
    Mul(Reg, Reg),
    /// r1 <- r1 / r2, integer division; faults when r2 holds 0.
    Div(Reg, Reg),
    /// r1 <- r2.
    Mov(Reg, Reg),
    /// memory[reg[addr_reg]] <- reg[val_reg]; faults when the address is
    /// at or beyond capacity.
    Store(Reg, Reg),
    /// dst_reg <- memory[reg[addr_reg]]; faults when the address is at or
    /// beyond capacity.
    Load(Reg, Reg),
    /// memory[SP] <- reg[r]; SP <- SP + 1; faults when SP is already at
    /// capacity.
    Push(Reg),
    /// SP <- SP - 1; reg[r] <- memory[SP]; faults when SP is 0.
    Pop(Reg),
    /// PC <- addr.
    Jmp(u16),
    /// PC <- addr when the zero flag is set.
    JmpZ(u16),
    /// PC <- addr when the zero flag is clear.
    JmpNZ(u16),
    /// PC <- PC + offset, wrapping modulo 2^16.
    JmpRel(u16),
    /// PC <- PC + offset (wrapping) when the zero flag is set.
    JmpZRel(u16),
    /// PC <- PC + offset (wrapping) when the zero flag is clear.
    JmpNZRel(u16),
}

/// A fault: the reported, non-silent outcome of an instruction whose
/// requested operation is undefined or unsafe. The machine state is left
/// exactly as it was before the faulting instruction.
#[derive(Clone, Copy, Debug, PartialEq, Eq, Structural)]
pub enum Fault {
    /// A `Div` whose right operand holds 0.
    DivisionByZero,
    /// A `Load` or `Store` whose address is at or beyond memory capacity.
    MemoryOutOfBounds,
    /// A `Push` when the stack pointer is already at capacity.
    StackOverflow,
    /// A `Pop` when the stack pointer is 0.
    StackUnderflow,
}

} // verus!
