//! The machine state and the execution engine.

use vstd::prelude::*;

use crate::isa::Fault;
use crate::isa::Instruction;
use crate::isa::Reg;

verus! {

/// The mathematical model of a machine state: the register file, the stack
/// pointer, the program counter, the zero flag, and the memory contents.
#[verifier::ext_equal]
pub struct MachineView {
    pub regs: Seq<u16>,
    pub sp: u16,
    pub pc: u16,
    pub zero_flag: bool,
    pub mem: Seq<u16>,
}

impl MachineView {
    /// Well-formedness of a machine state: eight registers, a capacity that
    /// 16-bit addresses can cover, and a stack pointer no further than one
    /// past the last pushed word, so that it always names the next free
    /// slot.
    pub open spec fn wf(self) -> bool {
        &&& self.regs.len() == 8
        &&& self.mem.len() <= u16::MAX
        &&& self.sp <= self.mem.len()
    }
}

/// `n` reduced modulo 2^16: the wrapping policy of the machine's
/// arithmetic and of its relative jumps.
pub open spec fn wrap16(n: int) -> u16 {
    (n % 0x10000) as u16
}

/// The transition function of the machine: the state after one instruction,
/// and its result. Every instruction is total over well-formed states: it
/// either succeeds, or faults and leaves the state exactly as it was --
/// never partially mutated.
pub open spec fn spec_step(m: MachineView, instr: Instruction) -> (MachineView, Result<(), Fault>) {
    match instr {
        Instruction::Add(r1, r2) => (
            MachineView {
                regs: m.regs.update(r1.index(), wrap16(m.regs[r1.index()] + m.regs[r2.index()])),
                ..m
            },
            Ok(()),
        ),
        Instruction::Sub(r1, r2) => (
            MachineView {
                regs: m.regs.update(r1.index(), wrap16(m.regs[r1.index()] - m.regs[r2.index()])),
                ..m
            },
            Ok(()),
        ),
        Instruction::Mul(r1, r2) => (
            MachineView {
                regs: m.regs.update(r1.index(), wrap16(m.regs[r1.index()] * m.regs[r2.index()])),
                ..m
            },
            Ok(()),
        ),
        Instruction::Div(r1, r2) => if m.regs[r2.index()] == 0 {
            (m, Err(Fault::DivisionByZero))
        } else {
            (
                MachineView {
                    regs: m.regs.update(
                        r1.index(),
                        (m.regs[r1.index()] as int / m.regs[r2.index()] as int) as u16,
                    ),
                    ..m
                },
                Ok(()),
            )
        },
        Instruction::Mov(r1, r2) => (
            MachineView { regs: m.regs.update(r1.index(), m.regs[r2.index()]), ..m },
            Ok(()),
        ),
        Instruction::Store(addr_reg, val_reg) => if m.regs[addr_reg.index()] >= m.mem.len() {
            (m, Err(Fault::MemoryOutOfBounds))
        } else {
            (
                MachineView {
                    mem: m.mem.update(m.regs[addr_reg.index()] as int, m.regs[val_reg.index()]),
                    ..m
                },
                Ok(()),
            )
        },
        Instruction::Load(dst_reg, addr_reg) => if m.regs[addr_reg.index()] >= m.mem.len() {
            (m, Err(Fault::MemoryOutOfBounds))
        } else {
            (
                MachineView {
                    regs: m.regs.update(dst_reg.index(), m.mem[m.regs[addr_reg.index()] as int]),
                    ..m
                },
                Ok(()),
            )
        },
        Instruction::Push(r) => if m.sp >= m.mem.len() {
            (m, Err(Fault::StackOverflow))
        } else {
            (
                MachineView {
                    mem: m.mem.update(m.sp as int, m.regs[r.index()]),
                    sp: (m.sp + 1) as u16,
                    ..m
                },
                Ok(()),
            )
        },
        Instruction::Pop(r) => if m.sp == 0 {
            (m, Err(Fault::StackUnderflow))
        } else {
            (
                MachineView {
                    regs: m.regs.update(r.index(), m.mem[m.sp - 1]),
                    sp: (m.sp - 1) as u16,
                    ..m
                },
                Ok(()),
            )
        },
        Instruction::Jmp(addr) => (MachineView { pc: addr, ..m }, Ok(())),
        Instruction::JmpZ(addr) => (
            MachineView { pc: if m.zero_flag { addr } else { m.pc }, ..m },
            Ok(()),
        ),
        Instruction::JmpNZ(addr) => (
            MachineView { pc: if !m.zero_flag { addr } else { m.pc }, ..m },
            Ok(()),
        ),
        Instruction::JmpRel(offset) => (
            MachineView { pc: wrap16(m.pc + offset), ..m },
            Ok(()),
        ),
        Instruction::JmpZRel(offset) => (
            MachineView { pc: if m.zero_flag { wrap16(m.pc + offset) } else { m.pc }, ..m },
            Ok(()),
        ),
        Instruction::JmpNZRel(offset) => (
            MachineView { pc: if !m.zero_flag { wrap16(m.pc + offset) } else { m.pc }, ..m },
            Ok(()),
        ),
    }
}

/// A register-based virtual machine.
///
/// Created once with a fixed memory capacity (registers zeroed, SP = 0,
/// PC = 0, zero flag clear) and mutated in place, one instruction at a
/// time, through [`Machine::step`].
pub struct Machine {
    registers: Vec<u16>,
    sp: u16,
    pc: u16,
    zero_flag: bool,
    memory: Vec<u16>,
}

impl View for Machine {
    type V = MachineView;

    closed spec fn view(&self) -> MachineView {
        MachineView {
            regs: self.registers@,
            sp: self.sp,
            pc: self.pc,
            zero_flag: self.zero_flag,
            mem: self.memory@,
        }
    }
}

/// A vector of `len` zeroed 16-bit words.
fn zeroed(len: usize) -> (v: Vec<u16>)
    ensures
        v@.len() == len,
        forall|i: int| 0 <= i < len ==> v@[i] == 0,
{
    let mut v: Vec<u16> = Vec::new();
    let mut n: usize = 0;
    while n < len
        invariant
            n <= len,
            v@.len() == n,
            forall|i: int| 0 <= i < n ==> v@[i] == 0,
        decreases len - n,
    {
        v.push(0);
        n = n + 1;
    }
    v
}

impl Machine {
    /// A fresh machine with the given memory capacity: every register and
    /// every memory word zeroed, SP = 0, PC = 0, zero flag clear.
    pub fn new(capacity: u16) -> (m: Machine)
        ensures
            m@.wf(),
            m@.regs.len() == 8,
            forall|i: int| 0 <= i < 8 ==> m@.regs[i] == 0,
            m@.sp == 0,
            m@.pc == 0,
            m@.zero_flag == false,
            m@.mem.len() == capacity,
            forall|i: int| 0 <= i < capacity ==> m@.mem[i] == 0,
    {
        Machine {
            registers: zeroed(8),
            sp: 0,
            pc: 0,
            zero_flag: false,
            memory: zeroed(capacity as usize),
        }
    }

    /// The memory capacity in 16-bit words, fixed at construction.
    pub fn capacity(&self) -> (n: usize)
        ensures
            n == self@.mem.len(),
    {
        self.memory.len()
    }

    /// The current value of register `r`.
    pub fn register(&self, r: Reg) -> (v: u16)
        requires
            self@.wf(),
        ensures
            v == self@.regs[r.index()],
    {
        self.registers[r.as_index()]
    }

    /// The current stack pointer: the index of the next free stack slot.
    pub fn sp(&self) -> (v: u16)
        ensures
            v == self@.sp,
    {
        self.sp
    }

    /// The current program counter.
    pub fn pc(&self) -> (v: u16)
        ensures
            v == self@.pc,
    {
        self.pc
    }

    /// The current zero flag.
    pub fn zero_flag(&self) -> (b: bool)
        ensures
            b == self@.zero_flag,
    {
        self.zero_flag
    }

    /// The memory word at `addr`, or `None` when `addr` is at or beyond
    /// capacity.
    pub fn mem(&self, addr: u16) -> (v: Option<u16>)
        ensures
            addr < self@.mem.len() ==> v == Some(self@.mem[addr as int]),
            addr >= self@.mem.len() ==> v is None,
    {
        if (addr as usize) < self.memory.len() {
            Some(self.memory[addr as usize])
        } else {
            None
        }
    }

    /// Sets register `r` to `v`, leaving everything else unchanged. This is
    /// the host's way of loading operands; no instruction is needed for it.
    pub fn set_register(&mut self, r: Reg, v: u16)
        requires
            old(self)@.wf(),
        ensures
            final(self)@.wf(),
            final(self)@ == (MachineView { regs: old(self)@.regs.update(r.index(), v), ..old(self)@ }),
    {
        let i = r.as_index();
        self.registers[i] = v;
    }

    /// Sets the zero flag, leaving everything else unchanged. No
    /// instruction writes the flag -- arithmetic leaves it alone by design
    /// -- so the host is the only writer the conditional jumps can observe.
    pub fn set_zero_flag(&mut self, b: bool)
        requires
            old(self)@.wf(),
        ensures
            final(self)@.wf(),
            final(self)@ == (MachineView { zero_flag: b, ..old(self)@ }),
    {
        self.zero_flag = b;
    }

    /// Executes exactly one decoded instruction against the current state:
    /// one atomic transition of [`spec_step`]. A fault is returned to the
    /// caller and leaves the state exactly as it was; whether to halt,
    /// retry or go on is the caller's policy, not the machine's.
    #[verifier::rlimit(60)]
    pub fn step(&mut self, instr: Instruction) -> (r: Result<(), Fault>)
        requires
            old(self)@.wf(),
        ensures
            final(self)@.wf(),
            final(self)@ == spec_step(old(self)@, instr).0,
            r == spec_step(old(self)@, instr).1,
    {
        match instr {
            Instruction::Add(r1, r2) => {
                let i1 = r1.as_index();
                let i2 = r2.as_index();
                self.registers[i1] = self.registers[i1].wrapping_add(self.registers[i2]);
                Ok(())
            }
            Instruction::Sub(r1, r2) => {
                let i1 = r1.as_index();
                let i2 = r2.as_index();
                self.registers[i1] = self.registers[i1].wrapping_sub(self.registers[i2]);
                Ok(())
            }
            Instruction::Mul(r1, r2) => {
                let i1 = r1.as_index();
                let i2 = r2.as_index();
                self.registers[i1] = self.registers[i1].wrapping_mul(self.registers[i2]);
                Ok(())
            }
            Instruction::Div(r1, r2) => {
                let i1 = r1.as_index();
                let i2 = r2.as_index();
                let divisor = self.registers[i2];
                if divisor == 0 {
                    Err(Fault::DivisionByZero)
                } else {
                    self.registers[i1] = self.registers[i1] / divisor;
                    Ok(())
                }
            }
            Instruction::Mov(r1, r2) => {
                let i1 = r1.as_index();
                let i2 = r2.as_index();
                self.registers[i1] = self.registers[i2];
                Ok(())
            }
            Instruction::Store(addr_reg, val_reg) => {
                let addr = self.registers[addr_reg.as_index()];
                if (addr as usize) >= self.memory.len() {
                    Err(Fault::MemoryOutOfBounds)
                } else {
                    self.memory[addr as usize] = self.registers[val_reg.as_index()];
                    Ok(())
                }
            }
            Instruction::Load(dst_reg, addr_reg) => {
                let addr = self.registers[addr_reg.as_index()];
                if (addr as usize) >= self.memory.len() {
                    Err(Fault::MemoryOutOfBounds)
                } else {
                    self.registers[dst_reg.as_index()] = self.memory[addr as usize];
                    Ok(())
                }
            }
            Instruction::Push(r) => {
                if (self.sp as usize) >= self.memory.len() {
                    Err(Fault::StackOverflow)
                } else {
                    self.memory[self.sp as usize] = self.registers[r.as_index()];
                    self.sp = self.sp + 1;
                    Ok(())
                }
            }
            Instruction::Pop(r) => {
                if self.sp == 0 {
                    Err(Fault::StackUnderflow)
                } else {
                    self.sp = self.sp - 1;
                    self.registers[r.as_index()] = self.memory[self.sp as usize];
                    Ok(())
                }
            }
            Instruction::Jmp(addr) => {
                self.pc = addr;
                Ok(())
            }
            Instruction::JmpZ(addr) => {
                if self.zero_flag {
                    self.pc = addr;
                }
                Ok(())
            }
            Instruction::JmpNZ(addr) => {
                if !self.zero_flag {
                    self.pc = addr;
                }
                Ok(())
            }
            Instruction::JmpRel(offset) => {
                self.pc = self.pc.wrapping_add(offset);
                Ok(())
            }
            Instruction::JmpZRel(offset) => {
                if self.zero_flag {
                    self.pc = self.pc.wrapping_add(offset);
                }
                Ok(())
            }
            Instruction::JmpNZRel(offset) => {
                if !self.zero_flag {
                    self.pc = self.pc.wrapping_add(offset);
                }
                Ok(())
            }
        }
    }
}

} // verus!
