//! The status register: eight named condition bits held in one byte.
//!
//! ```text
//!  7 6 5 4 3 2 1 0
//!  N V _ B D I Z C
//!  | | | | | | | +--- Carry
//!  | | | | | | +----- Zero
//!  | | | | | +------- Interrupt Disable
//!  | | | | +--------- Decimal Mode (stored, never acted on)
//!  | | | +----------- Break
//!  | | +------------- Break2, the always-one companion bit
//!  | +--------------- Overflow
//!  +----------------- Negative
//! ```
use vstd::prelude::*;

verus! {

/// Carry: the bit that left an addition, a shift or a rotate.
pub const CARRY: u8 = 0b0000_0001;

/// Zero: the last result was zero.
pub const ZERO: u8 = 0b0000_0010;

/// Interrupt Disable.
pub const INTERRUPT_DISABLE: u8 = 0b0000_0100;

/// Decimal Mode: stored, never acted on.
pub const DECIMAL_MODE: u8 = 0b0000_1000;

/// Break: seen only in a stacked copy of the flags.
pub const BREAK: u8 = 0b0001_0000;

/// Break2: the always-one companion of Break.
pub const BREAK_2: u8 = 0b0010_0000;

/// Overflow: the last addition overflowed as a signed one.
pub const OVERFLOW: u8 = 0b0100_0000;

/// Negative: bit 7 of the last result.
pub const NEGATIVE: u8 = 0b1000_0000;

/// The flags after power-on and after reset: Interrupt Disable and Break2.
pub const POWER_ON: u8 = 0b0010_0100;

/// Whether every bit of `flag` is set in `bits`.
pub open spec fn flag_set(bits: u8, flag: u8) -> bool {
    bits & flag == flag
}

/// `bits` with the bits of `flag` set where `on` holds and cleared where it
/// does not.
pub open spec fn with_flag(bits: u8, flag: u8, on: bool) -> u8 {
    if on {
        bits | flag
    } else {
        bits & !flag
    }
}

/// `bits` with Zero and Negative recomputed from an 8-bit result: Zero where
/// the result is zero, Negative where its top bit is set.
pub open spec fn with_zero_negative(bits: u8, result: u8) -> u8 {
    with_flag(with_flag(bits, ZERO, result == 0), NEGATIVE, result >> 7 == 1)
}

/// Whether `flag` is one of the eight named single bits.
pub open spec fn is_flag(flag: u8) -> bool {
    flag == CARRY || flag == ZERO || flag == INTERRUPT_DISABLE || flag == DECIMAL_MODE || flag
        == BREAK || flag == BREAK_2 || flag == OVERFLOW || flag == NEGATIVE
}

/// Setting or clearing one named flag makes exactly that flag read as the
/// condition, and leaves every other named flag as it was.
pub proof fn lemma_with_flag(bits: u8, flag: u8, on: bool, other: u8)
    requires
        is_flag(flag),
        is_flag(other),
    ensures
        flag_set(with_flag(bits, flag, on), flag) == on,
        other != flag ==> flag_set(with_flag(bits, flag, on), other) == flag_set(bits, other),
{
    assert(is_flag(flag) && is_flag(other) ==> (((bits | flag) & flag == flag) && ((bits & !flag)
        & flag != flag) && (other != flag ==> ((bits | flag) & other == other) == (bits & other
        == other)) && (other != flag ==> ((bits & !flag) & other == other) == (bits & other
        == other)))) by (bit_vector);
}

/// The status register.
#[derive(Clone, Copy, Debug, PartialEq, Eq, Structural)]
pub struct CpuFlags {
    pub bits: u8,
}

impl CpuFlags {
    /// The flags with exactly the given bits. Every bit of the byte is a named
    /// flag, so nothing is dropped.
    pub fn from_bits_truncate(bits: u8) -> (flags: CpuFlags)
        ensures
            flags.bits == bits,
    {
        CpuFlags { bits }
    }

    /// The flags as one byte.
    pub fn bits(&self) -> (bits: u8)
        ensures
            bits == self.bits,
    {
        self.bits
    }

    /// Whether every bit of `flag` is set.
    pub fn contains(&self, flag: u8) -> (set: bool)
        ensures
            set == flag_set(self.bits, flag),
    {
        self.bits & flag == flag
    }

    /// Sets the bits of `flag`.
    pub fn insert(&mut self, flag: u8)
        ensures
            final(self).bits == with_flag(old(self).bits, flag, true),
    {
        self.bits = self.bits | flag;
    }

    /// Clears the bits of `flag`.
    pub fn remove(&mut self, flag: u8)
        ensures
            final(self).bits == with_flag(old(self).bits, flag, false),
    {
        self.bits = self.bits & !flag;
    }

    /// Sets the bits of `flag` where `value` holds and clears them where it
    /// does not.
    pub fn set(&mut self, flag: u8, value: bool)
        ensures
            final(self).bits == with_flag(old(self).bits, flag, value),
    {
        if value {
            self.insert(flag);
        } else {
            self.remove(flag);
        }
    }
}

} // verus!
