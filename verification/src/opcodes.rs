//! The opcode table: a total mapping from an opcode byte to the descriptor
//! of the instruction it selects, or to nothing where the byte selects none.

use crate::addressing::AddressingMode;
use vstd::prelude::*;

verus! {

/// The opcode that halts execution.
pub const HALT: u8 = 0x00;

/// What an instruction does, named by its mnemonic.
#[derive(Debug, Clone, Copy, PartialEq, Eq, Structural)]
pub enum Operation {
    /// Load the accumulator from memory.
    Lda,
    /// Transfer the accumulator to index X.
    Tax,
    /// Increment index X.
    Inx,
    /// Halt.
    Brk,
}

impl Operation {
    /// Whether the operation reads an operand from memory, and so needs an
    /// addressing mode that has an address.
    pub open spec fn takes_operand(self) -> bool {
        self is Lda
    }

    /// The mnemonic as text.
    pub open spec fn mnemonic_text(self) -> Seq<char> {
        match self {
            Operation::Lda => "LDA"@,
            Operation::Tax => "TAX"@,
            Operation::Inx => "INX"@,
            Operation::Brk => "BRK"@,
        }
    }

    /// The three-letter mnemonic of the operation.
    pub fn mnemonic(&self) -> (name: &'static str)
        ensures
            name@ == self.mnemonic_text(),
    {
        match self {
            Operation::Lda => "LDA",
            Operation::Tax => "TAX",
            Operation::Inx => "INX",
            Operation::Brk => "BRK",
        }
    }
}

/// One entry of the opcode table.
#[derive(Debug, Clone, Copy, PartialEq, Eq, Structural)]
pub struct OpCode {
    /// The opcode byte that selects this instruction.
    pub code: u8,
    /// The operation to perform.
    pub operation: Operation,
    /// How the operand is found.
    pub mode: AddressingMode,
    /// The length of the instruction in bytes, the opcode included.
    pub len: u8,
    /// The base number of clock cycles the instruction takes.
    pub cycles: u8,
}

impl OpCode {
    /// The entry for `code`; its length is the opcode byte and the operand
    /// bytes of `mode`.
    pub open spec fn entry(
        code: u8,
        operation: Operation,
        mode: AddressingMode,
        cycles: u8,
    ) -> OpCode {
        OpCode { code, operation, mode, len: (1 + mode.operand_length()) as u8, cycles }
    }

    /// Whether this is an entry that the table may hold: its length matches
    /// its mode, and it has an address to resolve exactly if its operation
    /// reads an operand.
    pub open spec fn consistent(self) -> bool {
        &&& self.len == 1 + self.mode.operand_length()
        &&& self.operation.takes_operand() <==> !(self.mode is NoneAddressing)
    }

    /// Builds the entry for `code`.
    pub fn new(code: u8, operation: Operation, mode: AddressingMode, cycles: u8) -> (op: OpCode)
        ensures
            op == OpCode::entry(code, operation, mode, cycles),
    {
        let len: u8 = 1 + mode.operand_length() as u8;
        OpCode { code, operation, mode, len, cycles }
    }
}

/// The opcode table. Bytes without an entry are not implemented.
pub open spec fn descriptor(code: u8) -> Option<OpCode> {
    match code {
        0x00 => Some(OpCode::entry(code, Operation::Brk, AddressingMode::NoneAddressing, 7)),
        0xAA => Some(OpCode::entry(code, Operation::Tax, AddressingMode::NoneAddressing, 2)),
        0xE8 => Some(OpCode::entry(code, Operation::Inx, AddressingMode::NoneAddressing, 2)),
        0xA9 => Some(OpCode::entry(code, Operation::Lda, AddressingMode::Immediate, 2)),
        0xA5 => Some(OpCode::entry(code, Operation::Lda, AddressingMode::ZeroPage, 3)),
        0xB5 => Some(OpCode::entry(code, Operation::Lda, AddressingMode::ZeroPage_X, 4)),
        0xAD => Some(OpCode::entry(code, Operation::Lda, AddressingMode::Absolute, 4)),
        0xBD => Some(OpCode::entry(code, Operation::Lda, AddressingMode::Absolute_X, 4)),
        0xB9 => Some(OpCode::entry(code, Operation::Lda, AddressingMode::Absolute_Y, 4)),
        0xA1 => Some(OpCode::entry(code, Operation::Lda, AddressingMode::Indirect_X, 6)),
        0xB1 => Some(OpCode::entry(code, Operation::Lda, AddressingMode::Indirect_Y, 5)),
        _ => None,
    }
}

/// Every entry of the table is filed under its own opcode byte and is
/// consistent, and the halt opcode is the only one that halts.
pub proof fn lemma_descriptor(code: u8)
    ensures
        descriptor(code) matches Some(op) ==> op.code == code && op.consistent(),
        descriptor(code) matches Some(op) ==> (op.operation is Brk <==> code == HALT),
{
}

/// Looks `code` up in the opcode table.
pub fn lookup(code: u8) -> (found: Option<OpCode>)
    ensures
        found == descriptor(code),
        found matches Some(op) ==> op.code == code && op.consistent(),
{
    let (operation, mode, cycles): (Operation, AddressingMode, u8) = match code {
        0x00 => (Operation::Brk, AddressingMode::NoneAddressing, 7),
        0xAA => (Operation::Tax, AddressingMode::NoneAddressing, 2),
        0xE8 => (Operation::Inx, AddressingMode::NoneAddressing, 2),
        0xA9 => (Operation::Lda, AddressingMode::Immediate, 2),
        0xA5 => (Operation::Lda, AddressingMode::ZeroPage, 3),
        0xB5 => (Operation::Lda, AddressingMode::ZeroPage_X, 4),
        0xAD => (Operation::Lda, AddressingMode::Absolute, 4),
        0xBD => (Operation::Lda, AddressingMode::Absolute_X, 4),
        0xB9 => (Operation::Lda, AddressingMode::Absolute_Y, 4),
        0xA1 => (Operation::Lda, AddressingMode::Indirect_X, 6),
        0xB1 => (Operation::Lda, AddressingMode::Indirect_Y, 5),
        _ => {
            return None;
        },
    };
    Some(OpCode::new(code, operation, mode, cycles))
}

} // verus!
