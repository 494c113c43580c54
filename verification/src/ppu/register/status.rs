use vstd::prelude::*;
use crate::bits::{has_flag, with_flag};

verus! {

/// More than eight sprites lie on one scanline.
pub const SPRITE_OVERFLOW: u8 = 0b0010_0000;

/// The first sprite has met the background.
pub const SPRITE_ZERO_HIT: u8 = 0b0100_0000;

/// The unit is in vertical blank.
pub const VBLANK_STARTED: u8 = 0b1000_0000;

/// The status register, which the processor can only read.
#[derive(Debug)]
pub struct StatusRegister {
    bits: u8,
}

impl StatusRegister {
    pub closed spec fn bits_spec(&self) -> u8 {
        self.bits
    }

    /// The register's current value. Taking it changes nothing.
    #[verifier::when_used_as_spec(bits_spec)]
    pub fn snapshot(&self) -> (bits: u8)
        ensures
            bits == self.bits_spec(),
    {
        self.bits
    }

    pub fn set_vblank_status(&mut self, on: bool)
        ensures
            final(self).snapshot() == with_flag(old(self).snapshot(), VBLANK_STARTED, on),
    {
        if on {
            self.bits = self.bits | VBLANK_STARTED;
        } else {
            self.bits = self.bits & !VBLANK_STARTED;
        }
    }

    pub fn reset_vblank_status(&mut self)
        ensures
            final(self).snapshot() == with_flag(old(self).snapshot(), VBLANK_STARTED, false),
    {
        self.bits = self.bits & !VBLANK_STARTED;
    }

    pub fn set_sprite_zero_hit(&mut self, on: bool)
        ensures
            final(self).snapshot() == with_flag(old(self).snapshot(), SPRITE_ZERO_HIT, on),
    {
        if on {
            self.bits = self.bits | SPRITE_ZERO_HIT;
        } else {
            self.bits = self.bits & !SPRITE_ZERO_HIT;
        }
    }

    pub fn is_in_vblank(&self) -> (b: bool)
        ensures
            b == has_flag(self.snapshot(), VBLANK_STARTED),
    {
        self.bits & VBLANK_STARTED == VBLANK_STARTED
    }
}

impl Default for StatusRegister {
    fn default() -> (r: Self)
        ensures
            r.snapshot() == 0,
    {
        Self { bits: 0 }
    }
}

} // verus!
