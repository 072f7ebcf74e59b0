//! The processor status byte and its condition-code bits.
//!
//! The eight flags are packed into one byte. An operation writes the flags
//! that it is documented to affect and leaves every other bit as it was.

use vstd::prelude::*;

verus! {

/// Carry, bit 0.
pub const CARRY: u8 = 0b0000_0001;

/// Zero, bit 1: the last result was zero.
pub const ZERO: u8 = 0b0000_0010;

/// Interrupt disable, bit 2.
pub const INTERRUPT_DISABLE: u8 = 0b0000_0100;

/// Decimal mode, bit 3.
pub const DECIMAL: u8 = 0b0000_1000;

/// Break, bit 4.
pub const BREAK: u8 = 0b0001_0000;

/// Bit 5, which has no function.
pub const UNUSED: u8 = 0b0010_0000;

/// Overflow, bit 6.
pub const OVERFLOW: u8 = 0b0100_0000;

/// Negative, bit 7: bit 7 of the last result was set.
pub const NEGATIVE: u8 = 0b1000_0000;

/// Whether the flag `mask`, one of the constants above, is set in `status`.
pub open spec fn flag_set(status: u8, mask: u8) -> bool {
    status & mask != 0
}

/// `status` with the bits of `mask` set if `on` and cleared otherwise.
pub open spec fn with_flag(status: u8, mask: u8, on: bool) -> u8 {
    if on {
        status | mask
    } else {
        status & !mask
    }
}

/// The status byte after an operation that produced `result`: Zero says
/// whether `result` is zero, Negative is bit 7 of `result`, and the other six
/// flags are those of `status`.
pub open spec fn with_zero_and_negative(status: u8, result: u8) -> u8 {
    with_flag(with_flag(status, ZERO, result == 0), NEGATIVE, result >= 0x80)
}

/// What `with_zero_and_negative` means flag by flag.
///
/// Zero is set exactly for a zero result and Negative exactly for a result
/// with bit 7 set, so the two are never set together, and each of the other
/// six flags keeps its value.
pub proof fn lemma_zero_and_negative(status: u8, result: u8)
    by (bit_vector)
    ensures
        flag_set(with_zero_and_negative(status, result), ZERO) <==> result == 0,
        flag_set(with_zero_and_negative(status, result), NEGATIVE) <==> result & 0x80 != 0,
        !(flag_set(with_zero_and_negative(status, result), ZERO) && flag_set(
            with_zero_and_negative(status, result),
            NEGATIVE,
        )),
        flag_set(with_zero_and_negative(status, result), CARRY) == flag_set(status, CARRY),
        flag_set(with_zero_and_negative(status, result), INTERRUPT_DISABLE) == flag_set(
            status,
            INTERRUPT_DISABLE,
        ),
        flag_set(with_zero_and_negative(status, result), DECIMAL) == flag_set(status, DECIMAL),
        flag_set(with_zero_and_negative(status, result), BREAK) == flag_set(status, BREAK),
        flag_set(with_zero_and_negative(status, result), UNUSED) == flag_set(status, UNUSED),
        flag_set(with_zero_and_negative(status, result), OVERFLOW) == flag_set(status, OVERFLOW),
        with_zero_and_negative(status, result) & !(ZERO | NEGATIVE) == status & !(ZERO | NEGATIVE),
{
}

} // verus!
