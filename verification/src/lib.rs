//! A cycle-aware MOS 6502 CPU core, as used in the NES.
//!
//! The crate models the CPU's fetch-decode-execute engine: the thirteen
//! addressing modes (including the documented indirect-jump hardware quirk),
//! the total opcode table covering legal and undocumented opcodes, register
//! and flag state with exact update rules, the stack and interrupt-vector
//! protocol, and per-instruction cycle accounting with page-crossing
//! penalties.
//!
//! Every executable function carries a contract relating it to a ghost
//! machine model (`CpuState`), and one step of the engine is proved equal to
//! a specification-level interpreter over that model.

pub mod flags;
pub mod state;
pub mod errors;
pub mod addressing;
pub mod instruction;
pub mod interrupt;
pub mod semantics;
pub mod cpu;
pub mod memory;
pub mod opcodes;
