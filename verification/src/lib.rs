//! An instruction-execution core for an 8-bit CPU of the 6502 family.
//!
//! The core fetches opcode bytes from a 64 KiB address space, finds each
//! instruction in the opcode table, resolves the address of its operand in
//! one of the addressing modes, carries the operation out and updates the
//! status flags. It executes one instruction at a time and leaves timing,
//! devices and the mapping of memory to its caller.
//!
//! - [`memory`]: the address space as a sequence of bytes, and the
//!   little-endian words in it.
//! - [`status`]: the flags of the status byte.
//! - [`addressing`]: the addressing modes.
//! - [`opcodes`]: the opcode table.
//! - [`error`]: the two fatal conditions.
//! - [`machine`]: the state of the machine and the meaning of every
//!   operation on it, as mathematics; the contracts of [`cpu`] are stated
//!   over it.
//! - [`cpu`]: the processor itself.

pub mod addressing;
pub mod cpu;
pub mod error;
pub mod machine;
pub mod memory;
pub mod opcodes;
pub mod status;
