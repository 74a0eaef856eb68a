//! Effective-address resolution for a 68000-family core: addressing-mode
//! descriptors are lowered into micro-operations, which an executor applies
//! to a register file, suspending on every memory fetch.

pub mod size;
pub mod regs;
pub mod micro;
pub mod effaddr;
pub mod machine;
pub mod decode;
pub mod meaning;
pub mod laws;
