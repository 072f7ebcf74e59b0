use cpu6502::cpu::CPU;
use cpu6502::status::{
    BREAK, CARRY, DECIMAL, INTERRUPT_DISABLE, NEGATIVE, OVERFLOW, UNUSED, ZERO,
};

#[test]
fn test_flag_bits() {
    assert_eq!(CARRY, 0x01);
    assert_eq!(ZERO, 0x02);
    assert_eq!(INTERRUPT_DISABLE, 0x04);
    assert_eq!(DECIMAL, 0x08);
    assert_eq!(BREAK, 0x10);
    assert_eq!(UNUSED, 0x20);
    assert_eq!(OVERFLOW, 0x40);
    assert_eq!(NEGATIVE, 0x80);
    assert_eq!(
        CARRY | ZERO | INTERRUPT_DISABLE | DECIMAL | BREAK | UNUSED | OVERFLOW | NEGATIVE,
        0xff
    );
}

#[test]
fn test_zero_result_sets_zero_and_clears_negative() {
    let mut cpu = CPU::new();
    cpu.status = NEGATIVE;
    cpu.update_zero_and_negative_flags(0x00);
    assert_eq!(cpu.status, ZERO);
}

#[test]
fn test_positive_result_clears_both() {
    let mut cpu = CPU::new();
    cpu.status = ZERO | NEGATIVE | DECIMAL;
    cpu.update_zero_and_negative_flags(0x7f);
    assert_eq!(cpu.status, DECIMAL);
}

#[test]
fn test_negative_result_sets_negative_and_clears_zero() {
    let mut cpu = CPU::new();
    cpu.status = ZERO | BREAK;
    cpu.update_zero_and_negative_flags(0x80);
    assert_eq!(cpu.status, NEGATIVE | BREAK);
}

#[test]
fn test_flags_never_both_set() {
    for result in 0..=255u8 {
        let mut cpu = CPU::new();
        cpu.status = 0xff;
        cpu.update_zero_and_negative_flags(result);
        assert!(cpu.status & ZERO == 0 || cpu.status & NEGATIVE == 0);
        assert_eq!(cpu.status & ZERO != 0, result == 0);
        assert_eq!(cpu.status & NEGATIVE != 0, result & 0x80 != 0);
        assert_eq!(cpu.status & !(ZERO | NEGATIVE), 0x7d);
    }
}

#[test]
fn test_flags_update_touches_nothing_else() {
    let mut cpu = CPU::new();
    cpu.register_a = 1;
    cpu.register_x = 2;
    cpu.register_y = 3;
    cpu.stack_pointer = 4;
    cpu.program_counter = 0x0506;
    cpu.mem_write(0x0042, 0x07);
    cpu.update_zero_and_negative_flags(0x90);
    assert_eq!(cpu.register_a, 1);
    assert_eq!(cpu.register_x, 2);
    assert_eq!(cpu.register_y, 3);
    assert_eq!(cpu.stack_pointer, 4);
    assert_eq!(cpu.program_counter, 0x0506);
    assert_eq!(cpu.mem_read(0x0042), 0x07);
}
