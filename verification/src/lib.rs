//! A small stack-machine interpreter for a subset of the EVM instruction set:
//! 256-bit words, a bounded stack, word-granular memory, and a verified
//! fetch-decode-execute loop.

pub mod buffer;
pub mod calldata;
pub mod execution_context;
pub mod executors;
pub mod instruction;
pub mod interpreter;
pub mod memory;
pub mod opcodes;
pub mod stack;
pub mod word;
