use vstd::prelude::*;
use crate::bits::{make_word, split_word, word, low_byte, high_byte, add16};

verus! {

/// Highest address of the picture unit's 14-bit address space.
pub const ADDRESS_SPACE_END: u16 = 0x3FFF;

/// The video memory address, written one byte at a time, high byte first.
#[derive(Debug)]
pub struct AddressRegister {
    value: (u8, u8),
    latch: bool,
}

impl AddressRegister {
    /// The address that the register holds.
    pub closed spec fn value(&self) -> u16 {
        word(self.value.1, self.value.0)
    }

    /// Whether the next byte written is the high byte.
    pub closed spec fn expects_high(&self) -> bool {
        self.latch
    }

    /// Stores one byte: the high byte on the first write, the low byte on
    /// the second, after which the address is folded into 14 bits.
    pub fn update(&mut self, data: u8)
        ensures
            final(self).expects_high() == !old(self).expects_high(),
            old(self).expects_high() ==> final(self).value() == word(
                low_byte(old(self).value()),
                data,
            ),
            !old(self).expects_high() ==> final(self).value() == word(
                data,
                high_byte(old(self).value()),
            ) % 0x4000,
    {
        if self.latch {
            self.value.0 = data;
        } else {
            self.value.1 = data;
            let address = self.get();
            if address > ADDRESS_SPACE_END {
                assert(address & 0x3FFF == address % 0x4000) by (bit_vector);
                self.set(address & 0x3FFF);
            }
        }
        self.latch = !self.latch;
    }

    /// Advances the address by `inc`, wrapping at 16 bits.
    pub fn add(&mut self, inc: u8)
        ensures
            final(self).value() == add16(old(self).value(), inc as int),
            final(self).expects_high() == old(self).expects_high(),
    {
        let lower = self.value.1;
        self.value.1 = self.value.1.wrapping_add(inc);
        if lower > self.value.1 {
            self.value.0 = self.value.0.wrapping_add(1);
        }
    }

    pub fn reset_latch(&mut self)
        ensures
            final(self).expects_high(),
            final(self).value() == old(self).value(),
    {
        self.latch = true;
    }

    pub fn get(&self) -> (address: u16)
        ensures
            address == self.value(),
    {
        make_word(self.value.1, self.value.0)
    }

    fn set(&mut self, data: u16)
        ensures
            final(self).value() == data,
            final(self).expects_high() == old(self).expects_high(),
    {
        let (lo, hi) = split_word(data);
        self.value.0 = hi;
        self.value.1 = lo;
    }
}

impl Default for AddressRegister {
    fn default() -> (r: Self)
        ensures
            r.value() == 0,
            r.expects_high(),
    {
        Self { value: (0, 0), latch: true }
    }
}

} // verus!
