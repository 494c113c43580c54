use vstd::prelude::*;
use crate::bits::{has_flag, with_flag};

verus! {

/// The last addition carried, or the last subtraction did not borrow.
pub const CARRY: u8 = 0b0000_0001;

/// The last result was zero.
pub const ZERO: u8 = 0b0000_0010;

/// Maskable interrupts are held off.
pub const INTERRUPT_DISABLE: u8 = 0b0000_0100;

/// Decimal arithmetic, which this processor lacks; the flag is only kept.
pub const DECIMAL_MODE: u8 = 0b0000_1000;

/// Marks a status byte that an instruction pushed, not an interrupt.
pub const BREAK: u8 = 0b0001_0000;

/// The unused bit, which reads as set.
pub const BREAK2: u8 = 0b0010_0000;

/// The last addition left the range of signed bytes.
pub const OVERFLOW: u8 = 0b0100_0000;

/// The top bit of the last result.
pub const NEGATIVE: u8 = 0b1000_0000;

/// The status byte after reset: interrupts disabled, and the unused bit set.
pub const RESET_STATUS: u8 = 0b0010_0100;

/// `status` with Zero and Negative describing `value`: Zero is set exactly
/// when `value` is 0, Negative exactly when its top bit is set.
pub open spec fn with_zero_negative(status: u8, value: u8) -> u8 {
    with_flag(with_flag(status, ZERO, value == 0), NEGATIVE, value >= 0x80)
}

/// The status byte as the stack sees it after a pull: Break cleared, the
/// unused bit set, every other bit as pulled.
pub open spec fn pulled_status(byte: u8) -> u8 {
    with_flag(with_flag(byte, BREAK, false), BREAK2, true)
}

/// The status byte as an instruction pushes it: Break and the unused bit set.
pub open spec fn pushed_status(status: u8) -> u8 {
    with_flag(with_flag(status, BREAK, true), BREAK2, true)
}

/// The processor status register.
#[derive(Clone, Copy, Debug)]
pub struct CpuFlags {
    bits: u8,
}

impl CpuFlags {
    pub closed spec fn bits_spec(&self) -> u8 {
        self.bits
    }

    #[verifier::when_used_as_spec(bits_spec)]
    pub fn bits(&self) -> (bits: u8)
        ensures
            bits == self.bits_spec(),
    {
        self.bits
    }

    pub fn from_bits_truncate(bits: u8) -> (flags: Self)
        ensures
            flags.bits() == bits,
    {
        Self { bits }
    }

    pub fn contains(&self, flag: u8) -> (b: bool)
        ensures
            b == has_flag(self.bits(), flag),
    {
        self.bits & flag == flag
    }

    pub fn insert(&mut self, flag: u8)
        ensures
            final(self).bits() == with_flag(old(self).bits(), flag, true),
    {
        self.bits = self.bits | flag;
    }

    pub fn remove(&mut self, flag: u8)
        ensures
            final(self).bits() == with_flag(old(self).bits(), flag, false),
    {
        self.bits = self.bits & !flag;
    }

    pub fn set(&mut self, flag: u8, on: bool)
        ensures
            final(self).bits() == with_flag(old(self).bits(), flag, on),
    {
        if on {
            self.insert(flag);
        } else {
            self.remove(flag);
        }
    }

    /// The status after reset, whatever it was before.
    pub fn reset(&self) -> (flags: Self)
        ensures
            flags.bits() == RESET_STATUS,
    {
        Self::default()
    }
}

impl Default for CpuFlags {
    fn default() -> (flags: Self)
        ensures
            flags.bits() == RESET_STATUS,
    {
        Self { bits: RESET_STATUS }
    }
}

} // verus!
