//! The core of a user-mode emulator for the RV64I base integer instruction
//! set: a little-endian memory behind a bus, a decoder from instruction words
//! to typed instructions, and a hart that fetches, decodes and executes.

pub mod arith;
pub mod bus;
pub mod cpu;
pub mod dram;
pub mod dump;
pub mod exception;
pub mod instruction;
pub mod laws;
pub mod register;
pub mod state;
