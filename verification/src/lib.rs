//! A verified core for a small CHIP-8-style virtual machine: an 8-bit
//! register file, a 4096-byte memory, a bounded call stack, and a
//! fetch-decode-execute loop for a representative opcode subset
//! (halt, call, return, add-with-carry).

pub mod cpu;
pub mod decode;
pub mod laws;
pub mod semantics;
pub mod state;
