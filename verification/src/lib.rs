//! Execution core of a 6502-compatible 8-bit processor: the register file and
//! status flags, a flat 64 KiB memory, the descending hardware stack, and a
//! single-step instruction executor. Every operation carries a contract over
//! the mathematical [`machine::Machine`] model, and the round-trip laws of
//! memory and stack are proved in [`laws`].

pub mod cpu;
pub mod executor;
pub mod laws;
pub mod machine;
pub mod status;
