//! A small register-based virtual machine.
//!
//! The machine has a file of eight general-purpose 16-bit registers, a
//! unified linear memory shared by explicit load/store and the stack, a
//! stack pointer, a program counter, and a zero flag. Execution is driven
//! one decoded instruction at a time through [`machine::Machine::step`];
//! fetching and decoding instructions is left to the embedding host.
//!
//! Every instruction's effect, including each fault case, is pinned down by
//! the transition function [`machine::spec_step`], and `step` is proved to
//! implement it exactly.

pub mod isa;
pub mod laws;
pub mod machine;
