//! A single-step bytecode interpreter for Ethereum-style virtual machine
//! instructions, suited to debuggers and visualizers: it decodes one
//! instruction at a time from a flat hex string, advances or rewinds the
//! program counter, and keeps a history that makes every forward step
//! reversible.

pub mod calldata;
pub mod evm;
pub mod laws;
pub mod memory;
pub mod stack;
pub mod storage;
