//! The addressing modes: the rules by which an instruction finds its operand.

use vstd::prelude::*;

verus! {

/// How an instruction's operand is located.
///
/// Every mode but the last reads its operand bytes at the program counter.
/// `NoneAddressing` belongs to instructions without a memory operand.
#[derive(Debug, Clone, Copy, PartialEq, Eq, Structural)]
#[allow(non_camel_case_types)]
pub enum AddressingMode {
    /// The operand is the byte at the program counter itself.
    Immediate,
    /// The byte at the program counter is an address in page zero.
    ZeroPage,
    /// Zero page, indexed by X, wrapping within page zero.
    ZeroPage_X,
    /// Zero page, indexed by Y, wrapping within page zero.
    ZeroPage_Y,
    /// The word at the program counter is the address.
    Absolute,
    /// Absolute, indexed by X.
    Absolute_X,
    /// Absolute, indexed by Y.
    Absolute_Y,
    /// The byte at the program counter plus X locates, in page zero, the
    /// word that is the address.
    Indirect_X,
    /// The byte at the program counter locates, in page zero, a word; that
    /// word plus Y is the address.
    Indirect_Y,
    /// No memory operand.
    NoneAddressing,
}

impl AddressingMode {
    /// The number of operand bytes that follow the opcode: none without a
    /// memory operand, two for a 16-bit address, one otherwise.
    pub open spec fn spec_operand_length(&self) -> u16 {
        match self {
            AddressingMode::NoneAddressing => 0,
            AddressingMode::Absolute | AddressingMode::Absolute_X | AddressingMode::Absolute_Y => 2,
            _ => 1,
        }
    }

    /// Whether an address resolved in this mode always lies in page zero.
    pub open spec fn in_zero_page(self) -> bool {
        self is ZeroPage || self is ZeroPage_X || self is ZeroPage_Y
    }

    /// The number of operand bytes that an instruction in this mode consumes.
    #[verifier::when_used_as_spec(spec_operand_length)]
    pub fn operand_length(&self) -> (n: u16)
        ensures
            n == self.spec_operand_length(),
    {
        match self {
            AddressingMode::NoneAddressing => 0,
            AddressingMode::Absolute | AddressingMode::Absolute_X | AddressingMode::Absolute_Y => 2,
            _ => 1,
        }
    }
}

} // verus!
