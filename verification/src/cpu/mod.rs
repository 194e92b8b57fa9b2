//! The processor: its memory interface, status flags, instruction table,
//! execution engine and trace output.
pub mod cpu;
pub mod flags;
pub mod laws;
pub mod mem;
pub mod model;
pub mod opcodes;
pub mod trace;
