use vstd::prelude::*;
use crate::bits::has_flag;
use crate::error::Result;

verus! {

/// Low bit of the nametable choice.
pub const NAMETABLE1: u8 = 0b0000_0001;

/// High bit of the nametable choice.
pub const NAMETABLE2: u8 = 0b0000_0010;

/// The address advances by 32 rather than by 1.
pub const VRAM_ADD_INCREMENT: u8 = 0b0000_0100;

/// Sprites take their patterns from the second table.
pub const SPRITE_PATTERN_ADDR: u8 = 0b0000_1000;

/// The background takes its patterns from the second table.
pub const BACKROUND_PATTERN_ADDR: u8 = 0b0001_0000;

/// Sprites are 16 rather than 8 pixels high.
pub const SPRITE_SIZE: u8 = 0b0010_0000;

/// The unit drives the colour pins rather than reading them.
pub const MAIN_SUB_SELECT: u8 = 0b0100_0000;

/// Vertical blank raises an interrupt.
pub const GENERATE_NMI: u8 = 0b1000_0000;

/// Address of the first nametable.
pub const NAMETABLE_BASE: u16 = 0x2000;

/// Bytes from one nametable to the next.
pub const NAMETABLE_SIZE: u16 = 0x0400;

/// The step by which an access through the data port advances the address.
pub open spec fn address_step(control: u8) -> u8 {
    if has_flag(control, VRAM_ADD_INCREMENT) {
        32
    } else {
        1
    }
}

/// The control register: a bitfield that is stored as written.
#[derive(Debug)]
pub struct ControlRegister {
    bits: u8,
}

impl ControlRegister {
    pub closed spec fn bits_spec(&self) -> u8 {
        self.bits
    }

    #[verifier::when_used_as_spec(bits_spec)]
    pub fn bits(&self) -> (bits: u8)
        ensures
            bits == self.bits_spec(),
    {
        self.bits
    }

    pub fn contains(&self, flag: u8) -> (b: bool)
        ensures
            b == has_flag(self.bits(), flag),
    {
        self.bits & flag == flag
    }

    pub fn update(&mut self, data: u8)
        ensures
            final(self).bits() == data,
    {
        self.bits = data;
    }

    /// Base address of the nametable that the two low bits select.
    pub fn nametable_address(&self) -> (r: Result<u16>)
        ensures
            r is Ok,
            r->Ok_0 == NAMETABLE_BASE + (self.bits() & 0b11) * NAMETABLE_SIZE,
    {
        let bits = self.bits;
        let selected = bits & 0b11;
        assert(bits & 0b11 <= 3) by (bit_vector);
        if selected == 0 {
            Ok(0x2000)
        } else if selected == 1 {
            Ok(0x2400)
        } else if selected == 2 {
            Ok(0x2800)
        } else {
            Ok(0x2C00)
        }
    }

    pub fn vram_address_increment(&self) -> (step: u8)
        ensures
            step == address_step(self.bits()),
    {
        if self.contains(VRAM_ADD_INCREMENT) {
            32
        } else {
            1
        }
    }

    pub fn sprite_pattern_address(&self) -> (address: u16)
        ensures
            address == if has_flag(self.bits(), SPRITE_PATTERN_ADDR) {
                16u16
            } else {
                8u16
            },
    {
        if self.contains(SPRITE_PATTERN_ADDR) {
            16
        } else {
            8
        }
    }

    pub fn main_sub_select(&self) -> (selected: u16)
        ensures
            selected == if has_flag(self.bits(), MAIN_SUB_SELECT) {
                1u16
            } else {
                0u16
            },
    {
        if self.contains(MAIN_SUB_SELECT) {
            1
        } else {
            0
        }
    }

    pub fn generate_vblank_nmi(&self) -> (b: bool)
        ensures
            b == has_flag(self.bits(), GENERATE_NMI),
    {
        self.contains(GENERATE_NMI)
    }
}

impl Default for ControlRegister {
    fn default() -> (r: Self)
        ensures
            r.bits() == 0,
    {
        Self { bits: 0 }
    }
}

} // verus!
