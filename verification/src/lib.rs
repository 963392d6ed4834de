//! An instruction-set emulator for an 8-bit accumulator-based CPU:
//! seven 8-bit registers pairing into 16-bit pseudo-registers, five
//! condition flags, a byte-addressable memory, and a fetch-decode-execute
//! engine covering data transfer, arithmetic/logical, immediate, stack
//! and conditional-jump instructions.
//!
//! The semantics of one cycle is written down as a specification-level
//! interpreter over an abstract machine state, and the executable engine
//! is proved to follow it step by step.

pub mod cpu;
pub mod memory;
pub mod op_code;
pub mod registers;
