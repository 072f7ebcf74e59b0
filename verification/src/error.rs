//! The conditions on which the core gives up.

use vstd::prelude::*;

verus! {

/// A fatal condition. The core reports it and does not try to recover.
#[derive(Debug, Clone, Copy, PartialEq, Eq, Structural)]
pub enum CpuError {
    /// An address was asked for in the mode `NoneAddressing`, which has none.
    UnsupportedAddressingMode,
    /// The opcode byte, given here, has no entry in the opcode table.
    UnimplementedOpcode(u8),
}

} // verus!
