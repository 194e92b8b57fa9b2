//! Instruction-level emulation of the 8-bit 6502-family processor of a game
//! console, with the memory-mapped address space it executes against.
//!
//! Every executable function carries a contract over a mathematical model of
//! the machine: [`bus::AddressSpace`] for memory and [`cpu::model::Machine`]
//! for the processor together with its memory. [`cpu::laws`] holds what is
//! proved of that model.
pub mod bus;
pub mod cpu;
