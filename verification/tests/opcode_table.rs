use cpu6502::addressing::AddressingMode;
use cpu6502::opcodes::{lookup, OpCode, Operation, HALT};

fn entry(
    code: u8,
    operation: Operation,
    mode: AddressingMode,
    len: u8,
    cycles: u8,
) -> Option<OpCode> {
    Some(OpCode { code, operation, mode, len, cycles })
}

#[test]
fn test_halt_is_opcode_zero() {
    assert_eq!(HALT, 0x00);
    assert_eq!(lookup(HALT), entry(0x00, Operation::Brk, AddressingMode::NoneAddressing, 1, 7));
}

#[test]
fn test_register_instructions() {
    assert_eq!(lookup(0xaa), entry(0xaa, Operation::Tax, AddressingMode::NoneAddressing, 1, 2));
    assert_eq!(lookup(0xe8), entry(0xe8, Operation::Inx, AddressingMode::NoneAddressing, 1, 2));
}

#[test]
fn test_load_accumulator_in_every_mode() {
    assert_eq!(lookup(0xa9), entry(0xa9, Operation::Lda, AddressingMode::Immediate, 2, 2));
    assert_eq!(lookup(0xa5), entry(0xa5, Operation::Lda, AddressingMode::ZeroPage, 2, 3));
    assert_eq!(lookup(0xb5), entry(0xb5, Operation::Lda, AddressingMode::ZeroPage_X, 2, 4));
    assert_eq!(lookup(0xad), entry(0xad, Operation::Lda, AddressingMode::Absolute, 3, 4));
    assert_eq!(lookup(0xbd), entry(0xbd, Operation::Lda, AddressingMode::Absolute_X, 3, 4));
    assert_eq!(lookup(0xb9), entry(0xb9, Operation::Lda, AddressingMode::Absolute_Y, 3, 4));
    assert_eq!(lookup(0xa1), entry(0xa1, Operation::Lda, AddressingMode::Indirect_X, 2, 6));
    assert_eq!(lookup(0xb1), entry(0xb1, Operation::Lda, AddressingMode::Indirect_Y, 2, 5));
}

#[test]
fn test_table_is_total_and_filed_by_opcode() {
    let mut defined = 0;
    for code in 0..=255u8 {
        if let Some(op) = lookup(code) {
            defined += 1;
            assert_eq!(op.code, code);
            assert_eq!(op.len as u16, 1 + op.mode.operand_length());
            assert_eq!(op.operation == Operation::Lda, op.mode != AddressingMode::NoneAddressing);
        }
    }
    assert_eq!(defined, 11);
}

#[test]
fn test_unused_bytes_have_no_entry() {
    assert_eq!(lookup(0x01), None);
    assert_eq!(lookup(0x02), None);
    assert_eq!(lookup(0xea), None);
    assert_eq!(lookup(0xff), None);
}

#[test]
fn test_new_entry_derives_the_length_from_the_mode() {
    let op = OpCode::new(0xad, Operation::Lda, AddressingMode::Absolute, 4);
    assert_eq!(Some(op), entry(0xad, Operation::Lda, AddressingMode::Absolute, 3, 4));
    assert_eq!(OpCode::new(0xe8, Operation::Inx, AddressingMode::NoneAddressing, 2).len, 1);
    assert_eq!(OpCode::new(0xa1, Operation::Lda, AddressingMode::Indirect_X, 6).len, 2);
}

#[test]
fn test_mnemonics() {
    assert_eq!(Operation::Lda.mnemonic(), "LDA");
    assert_eq!(Operation::Tax.mnemonic(), "TAX");
    assert_eq!(Operation::Inx.mnemonic(), "INX");
    assert_eq!(Operation::Brk.mnemonic(), "BRK");
    assert_eq!(lookup(0xb1).unwrap().operation.mnemonic(), "LDA");
}
