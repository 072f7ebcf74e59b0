use cpu6502::cpu::{AddressingMode, CPU};
use cpu6502::error::CpuError;

fn cpu_with_operand(bytes: &[u8]) -> CPU {
    let mut cpu = CPU::new();
    cpu.program_counter = 0x0600;
    for (i, b) in bytes.iter().enumerate() {
        cpu.mem_write(0x0600 + i as u16, *b);
    }
    cpu
}

#[test]
fn test_immediate_is_the_program_counter() {
    let cpu = cpu_with_operand(&[0x42]);
    assert_eq!(cpu.get_operand_address(&AddressingMode::Immediate), Ok(0x0600));
}

#[test]
fn test_zero_page_is_the_operand_byte() {
    let cpu = cpu_with_operand(&[0xfe]);
    assert_eq!(cpu.get_operand_address(&AddressingMode::ZeroPage), Ok(0x00fe));
}

#[test]
fn test_zero_page_indexed_adds_the_register() {
    let mut cpu = cpu_with_operand(&[0x10]);
    cpu.register_x = 0x05;
    cpu.register_y = 0x07;
    assert_eq!(cpu.get_operand_address(&AddressingMode::ZeroPage_X), Ok(0x0015));
    assert_eq!(cpu.get_operand_address(&AddressingMode::ZeroPage_Y), Ok(0x0017));
}

#[test]
fn test_zero_page_indexed_wraps_within_page_zero() {
    let mut cpu = cpu_with_operand(&[0xf0]);
    cpu.register_x = 0x20;
    cpu.register_y = 0xff;
    assert_eq!(cpu.get_operand_address(&AddressingMode::ZeroPage_X), Ok(0x0010));
    assert_eq!(cpu.get_operand_address(&AddressingMode::ZeroPage_Y), Ok(0x00ef));
}

#[test]
fn test_zero_page_indexed_never_leaves_page_zero() {
    for base in [0x00u8, 0x01, 0x7f, 0x80, 0xfe, 0xff] {
        for index in 0..=255u8 {
            let mut cpu = cpu_with_operand(&[base]);
            cpu.register_x = index;
            cpu.register_y = index;
            let expected = Ok(base.wrapping_add(index) as u16);
            assert_eq!(cpu.get_operand_address(&AddressingMode::ZeroPage_X), expected);
            assert_eq!(cpu.get_operand_address(&AddressingMode::ZeroPage_Y), expected);
            assert!(cpu.get_operand_address(&AddressingMode::ZeroPage_X).unwrap() <= 0xff);
        }
    }
}

#[test]
fn test_absolute_is_the_operand_word() {
    let cpu = cpu_with_operand(&[0x34, 0x12]);
    assert_eq!(cpu.get_operand_address(&AddressingMode::Absolute), Ok(0x1234));
}

#[test]
fn test_absolute_indexed_adds_the_register() {
    let mut cpu = cpu_with_operand(&[0xf0, 0x12]);
    cpu.register_x = 0x20;
    cpu.register_y = 0x01;
    assert_eq!(cpu.get_operand_address(&AddressingMode::Absolute_X), Ok(0x1310));
    assert_eq!(cpu.get_operand_address(&AddressingMode::Absolute_Y), Ok(0x12f1));
}

#[test]
fn test_absolute_indexed_wraps_at_sixteen_bits() {
    let mut cpu = cpu_with_operand(&[0xff, 0xff]);
    cpu.register_x = 0x02;
    cpu.register_y = 0xff;
    assert_eq!(cpu.get_operand_address(&AddressingMode::Absolute_X), Ok(0x0001));
    assert_eq!(cpu.get_operand_address(&AddressingMode::Absolute_Y), Ok(0x00fe));
}

#[test]
fn test_indirect_x_reads_the_pointer_in_page_zero() {
    let mut cpu = cpu_with_operand(&[0x20]);
    cpu.register_x = 0x04;
    cpu.mem_write(0x24, 0x74);
    cpu.mem_write(0x25, 0x20);
    assert_eq!(cpu.get_operand_address(&AddressingMode::Indirect_X), Ok(0x2074));
}

#[test]
fn test_indirect_x_wraps_the_pointer_and_its_high_byte() {
    let mut cpu = cpu_with_operand(&[0xfe]);
    cpu.register_x = 0x01;
    cpu.mem_write(0xff, 0xcd);
    cpu.mem_write(0x00, 0xab);
    cpu.mem_write(0x0100, 0x99);
    assert_eq!(cpu.get_operand_address(&AddressingMode::Indirect_X), Ok(0xabcd));

    cpu.register_x = 0x03;
    cpu.mem_write(0x01, 0x11);
    cpu.mem_write(0x02, 0x22);
    assert_eq!(cpu.get_operand_address(&AddressingMode::Indirect_X), Ok(0x2211));
}

#[test]
fn test_indirect_y_adds_the_register_to_the_pointer_word() {
    let mut cpu = cpu_with_operand(&[0x86]);
    cpu.register_y = 0x10;
    cpu.mem_write(0x86, 0x28);
    cpu.mem_write(0x87, 0x40);
    assert_eq!(cpu.get_operand_address(&AddressingMode::Indirect_Y), Ok(0x4038));
}

#[test]
fn test_indirect_y_wraps_the_high_byte_fetch_and_the_sum() {
    let mut cpu = cpu_with_operand(&[0xff]);
    cpu.register_y = 0x02;
    cpu.mem_write(0xff, 0xff);
    cpu.mem_write(0x00, 0xff);
    cpu.mem_write(0x0100, 0x12);
    assert_eq!(cpu.get_operand_address(&AddressingMode::Indirect_Y), Ok(0x0001));
}

#[test]
fn test_absolute_operand_at_the_top_of_memory_wraps() {
    let mut cpu = CPU::new();
    cpu.program_counter = 0xffff;
    cpu.mem_write(0xffff, 0x34);
    cpu.mem_write(0x0000, 0x12);
    assert_eq!(cpu.get_operand_address(&AddressingMode::Absolute), Ok(0x1234));
}

#[test]
fn test_none_addressing_has_no_address() {
    let cpu = cpu_with_operand(&[0x42]);
    assert_eq!(
        cpu.get_operand_address(&AddressingMode::NoneAddressing),
        Err(CpuError::UnsupportedAddressingMode)
    );
}

#[test]
fn test_lda_without_an_operand_fails_and_changes_nothing() {
    let mut cpu = cpu_with_operand(&[0x42]);
    cpu.register_a = 0x11;
    cpu.status = 0x80;
    assert_eq!(cpu.lda(&AddressingMode::NoneAddressing), Err(CpuError::UnsupportedAddressingMode));
    assert_eq!(cpu.register_a, 0x11);
    assert_eq!(cpu.status, 0x80);
    assert_eq!(cpu.program_counter, 0x0600);
}

#[test]
fn test_lda_loads_and_leaves_the_program_counter() {
    let mut cpu = cpu_with_operand(&[0x80]);
    assert_eq!(cpu.lda(&AddressingMode::Immediate), Ok(()));
    assert_eq!(cpu.register_a, 0x80);
    assert_eq!(cpu.status, 0x80);
    assert_eq!(cpu.program_counter, 0x0600);
}

#[test]
fn test_operand_lengths() {
    assert_eq!(AddressingMode::NoneAddressing.operand_length(), 0);
    assert_eq!(AddressingMode::Immediate.operand_length(), 1);
    assert_eq!(AddressingMode::ZeroPage.operand_length(), 1);
    assert_eq!(AddressingMode::ZeroPage_X.operand_length(), 1);
    assert_eq!(AddressingMode::ZeroPage_Y.operand_length(), 1);
    assert_eq!(AddressingMode::Indirect_X.operand_length(), 1);
    assert_eq!(AddressingMode::Indirect_Y.operand_length(), 1);
    assert_eq!(AddressingMode::Absolute.operand_length(), 2);
    assert_eq!(AddressingMode::Absolute_X.operand_length(), 2);
    assert_eq!(AddressingMode::Absolute_Y.operand_length(), 2);
}
