use vstd::prelude::*;
use crate::bits::{add16, has_flag, high_byte, low_byte, with_flag, word};
use crate::cartridge::Mirroring;
use crate::error::ErrorKind;
use crate::ppu::register::control::{address_step, GENERATE_NMI};
use crate::ppu::register::status::{SPRITE_ZERO_HIT, VBLANK_STARTED};

verus! {

/// Bytes of nametable memory inside the picture unit.
pub const VRAM_SIZE: usize = 2048;

/// Bytes of sprite attribute memory.
pub const OAM_SIZE: usize = 256;

/// Bytes of palette memory.
pub const PALETTE_SIZE: usize = 32;

/// Dots per scanline.
pub const DOTS_PER_SCANLINE: usize = 341;

/// The scanline on which vertical blank begins.
pub const VBLANK_SCANLINE: u16 = 241;

/// Scanlines per frame.
pub const SCANLINES_PER_FRAME: u16 = 262;

/// The picture unit as plain values.
pub struct PpuState {
    pub character_rom: Seq<u8>,
    pub mirroring: Mirroring,
    pub control: u8,
    pub mask: u8,
    pub status: u8,
    pub scroll_x: u8,
    pub scroll_y: u8,
    /// The next scroll write is the horizontal coordinate.
    pub scroll_expects_x: bool,
    pub address: u16,
    /// The next address write is the high byte.
    pub address_expects_high: bool,
    pub vram: Seq<u8>,
    pub oam_address: u8,
    pub oam_data: Seq<u8>,
    pub palette_table: Seq<u8>,
    pub data_buffer: u8,
    pub scanline: u16,
    pub dots: usize,
    pub nmi_interrupt: Option<u8>,
}

pub use crate::io::Access;

impl PpuState {
    /// The memories have the sizes the hardware gives them.
    pub open spec fn wf(self) -> bool {
        &&& self.vram.len() == VRAM_SIZE
        &&& self.oam_data.len() == OAM_SIZE
        &&& self.palette_table.len() == PALETTE_SIZE
    }

    /// The unit as it is after power-on.
    pub open spec fn power_on(character_rom: Seq<u8>, mirroring: Mirroring) -> PpuState {
        PpuState {
            character_rom,
            mirroring,
            control: 0,
            mask: 0,
            status: 0,
            scroll_x: 0,
            scroll_y: 0,
            scroll_expects_x: true,
            address: 0,
            address_expects_high: true,
            vram: Seq::new(VRAM_SIZE as nat, |i: int| 0u8),
            oam_address: 0,
            oam_data: Seq::new(OAM_SIZE as nat, |i: int| 0u8),
            palette_table: Seq::new(PALETTE_SIZE as nat, |i: int| 0u8),
            data_buffer: 0,
            scanline: 0,
            dots: 0,
            nmi_interrupt: None,
        }
    }

    /// Advances the dot counter by `dots`. The flag says whether a frame ended.
    pub open spec fn tick(self, dots: usize) -> (PpuState, bool) {
        let total = self.dots.wrapping_add(dots);
        if total < DOTS_PER_SCANLINE {
            (PpuState { dots: total, ..self }, false)
        } else {
            let line = self.scanline.wrapping_add(1);
            let at_vblank = PpuState {
                dots: (total - DOTS_PER_SCANLINE) as usize,
                scanline: line,
                status: if line == VBLANK_SCANLINE {
                    with_flag(
                        with_flag(self.status, VBLANK_STARTED, true),
                        SPRITE_ZERO_HIT,
                        false,
                    )
                } else {
                    self.status
                },
                nmi_interrupt: if line == VBLANK_SCANLINE && has_flag(self.control, GENERATE_NMI) {
                    Some(1u8)
                } else {
                    self.nmi_interrupt
                },
                ..self
            };
            if line >= SCANLINES_PER_FRAME {
                (
                    PpuState {
                        scanline: 0,
                        nmi_interrupt: None,
                        status: with_flag(
                            with_flag(at_vblank.status, SPRITE_ZERO_HIT, false),
                            VBLANK_STARTED,
                            false,
                        ),
                        ..at_vblank
                    },
                    true,
                )
            } else {
                (at_vblank, false)
            }
        }
    }

    /// Takes the pending interrupt, if any, and clears the latch.
    pub open spec fn poll_nmi(self) -> (PpuState, Option<u8>) {
        (PpuState { nmi_interrupt: None, ..self }, self.nmi_interrupt)
    }

    /// A write to the control register. Turning interrupt generation on
    /// during vertical blank latches an interrupt at once.
    pub open spec fn write_control(self, value: u8) -> PpuState {
        PpuState {
            control: value,
            nmi_interrupt: if !has_flag(self.control, GENERATE_NMI) && has_flag(
                value,
                GENERATE_NMI,
            ) && has_flag(self.status, VBLANK_STARTED) {
                Some(1u8)
            } else {
                self.nmi_interrupt
            },
            ..self
        }
    }

    /// A write to the mask register.
    pub open spec fn write_mask(self, value: u8) -> PpuState {
        PpuState { mask: value, ..self }
    }

    /// A read of the status register: yields the value as it was, then
    /// ends vertical blank and rewinds both double-write registers.
    pub open spec fn read_status(self) -> (PpuState, u8) {
        (
            PpuState {
                status: with_flag(self.status, VBLANK_STARTED, false),
                address_expects_high: true,
                scroll_expects_x: true,
                ..self
            },
            self.status,
        )
    }

    /// A write to the sprite address register.
    pub open spec fn write_oam_address(self, value: u8) -> PpuState {
        PpuState { oam_address: value, ..self }
    }

    /// A write to sprite memory: the byte goes to the sprite address, which then moves on.
    pub open spec fn write_oam_data(self, value: u8) -> PpuState {
        PpuState {
            oam_data: self.oam_data.update(self.oam_address as int, value),
            oam_address: self.oam_address.wrapping_add(1),
            ..self
        }
    }

    /// The byte of sprite memory at the sprite address.
    pub open spec fn read_oam_data(self) -> u8 {
        self.oam_data[self.oam_address as int]
    }

    /// Copies the first `count` bytes of a sprite page in through the data port.
    pub open spec fn write_oam_dma(self, page: Seq<u8>, count: nat) -> PpuState
        decreases count,
    {
        if count == 0 {
            self
        } else {
            self.write_oam_dma(page, (count - 1) as nat).write_oam_data(page[count - 1])
        }
    }

    /// A write to the scroll register: first the horizontal, then the vertical coordinate.
    pub open spec fn write_scroll(self, value: u8) -> PpuState {
        if self.scroll_expects_x {
            PpuState { scroll_x: value, scroll_expects_x: false, ..self }
        } else {
            PpuState { scroll_y: value, scroll_expects_x: true, ..self }
        }
    }

    /// A write to the address register: first the high byte, then the low byte, after which the
    /// address is folded into 14 bits.
    pub open spec fn write_address(self, value: u8) -> PpuState {
        if self.address_expects_high {
            PpuState {
                address: word(low_byte(self.address), value),
                address_expects_high: false,
                ..self
            }
        } else {
            PpuState {
                address: (word(value, high_byte(self.address)) % 0x4000) as u16,
                address_expects_high: true,
                ..self
            }
        }
    }

    /// The address moves on by the step that the control register chooses, wrapping at 16 bits.
    pub open spec fn advance_address(self) -> PpuState {
        PpuState { address: add16(self.address, address_step(self.control) as int), ..self }
    }

    /// A write through the data port, routed by the current address.
    pub open spec fn write_data(self, value: u8) -> Access<PpuState, ()> {
        match data_target(self.mirroring, self.character_rom.len(), self.address) {
            DataTarget::CharacterRom(_) => (self.advance_address(), Ok(())),
            DataTarget::Vram(index) => (
                PpuState { vram: self.vram.update(index, value), ..self }.advance_address(),
                Ok(()),
            ),
            DataTarget::Palette(index) => (
                PpuState {
                    palette_table: self.palette_table.update(index, value),
                    ..self
                }.advance_address(),
                Ok(()),
            ),
            DataTarget::Refused(kind) => (self, Err(kind)),
        }
    }

    /// A read through the data port. Reads below the palette are delayed by
    /// one access: they yield the buffer and refill it.
    pub open spec fn read_data(self) -> Access<PpuState, u8> {
        let next = self.advance_address();
        match data_source(self.mirroring, self.character_rom.len(), self.address) {
            DataTarget::CharacterRom(index) => (
                PpuState { data_buffer: self.character_rom[index], ..next },
                Ok(self.data_buffer),
            ),
            DataTarget::Vram(index) => (
                PpuState { data_buffer: self.vram[index], ..next },
                Ok(self.data_buffer),
            ),
            DataTarget::Palette(index) => (next, Ok(self.palette_table[index])),
            DataTarget::Refused(kind) => (next, Err(kind)),
        }
    }
}

/// Where an address of the picture unit's own address space leads.
pub enum DataTarget {
    /// A byte of the cartridge's character ROM.
    CharacterRom(int),
    /// A cell of nametable memory, after mirroring.
    Vram(int),
    /// A cell of palette memory, after mirroring.
    Palette(int),
    /// Nothing that this core can serve.
    Refused(ErrorKind),
}

/// The nametable cell behind `addr`, which must have bit 13 set, as every
/// address of a nametable has. The address is folded into the four
/// logical tables of 1 KiB each, and these onto the physical ones as the
/// cartridge wires them.
pub open spec fn mirror_vram(mirroring: Mirroring, addr: u16) -> u16
    recommends
        addr % 0x4000 >= 0x2000,
{
    let index = addr % 0x1000;
    let table = index / 0x400;
    match mirroring {
        Mirroring::Vertical => if table == 2 || table == 3 {
            (index - 0x800) as u16
        } else {
            index
        },
        Mirroring::Horizontal => if table == 1 || table == 2 {
            (index - 0x400) as u16
        } else if table == 3 {
            (index - 0x800) as u16
        } else {
            index
        },
        Mirroring::FourScreen => index,
    }
}

/// The palette cell behind an address in `0x3F00..=0x3FFF`. The palette
/// repeats every 32 bytes, and the four sprite backdrop entries fall onto
/// the background ones.
pub open spec fn palette_index(addr: u16) -> int
    recommends
        0x3F00 <= addr <= 0x3FFF,
{
    if addr == 0x3F10 || addr == 0x3F14 || addr == 0x3F18 || addr == 0x3F1C {
        addr - 0x3F10
    } else {
        (addr - 0x3F00) % (PALETTE_SIZE as int)
    }
}

/// Where a write through the data port lands.
pub open spec fn data_target(
    mirroring: Mirroring,
    character_rom_len: nat,
    addr: u16,
) -> DataTarget {
    if addr <= 0x1FFF {
        DataTarget::CharacterRom(addr as int)
    } else if addr <= 0x2FFF {
        if mirror_vram(mirroring, addr) < VRAM_SIZE {
            DataTarget::Vram(mirror_vram(mirroring, addr) as int)
        } else {
            DataTarget::Refused(ErrorKind::Unsupported)
        }
    } else if addr <= 0x3EFF {
        DataTarget::Refused(ErrorKind::Illegal)
    } else if addr <= 0x3FFF {
        DataTarget::Palette(palette_index(addr))
    } else {
        DataTarget::Refused(ErrorKind::Illegal)
    }
}

/// Where a read through the data port is served from. It differs from
/// `data_target` only below `0x2000`, where a read needs the byte to exist.
pub open spec fn data_source(
    mirroring: Mirroring,
    character_rom_len: nat,
    addr: u16,
) -> DataTarget {
    if addr <= 0x1FFF && addr >= character_rom_len {
        DataTarget::Refused(ErrorKind::Unsupported)
    } else {
        data_target(mirroring, character_rom_len, addr)
    }
}

} // verus!
