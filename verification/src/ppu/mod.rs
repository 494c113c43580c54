use vstd::prelude::*;

pub mod register;
pub mod state;

use crate::cartridge::Mirroring;
use crate::error::{outcome, Error, Result};
use crate::ram::Ram;
use crate::rom::Rom;
use register::PpuRegisters;
use state::{
    data_source, data_target, mirror_vram, palette_index, DataTarget, PpuState, DOTS_PER_SCANLINE,
    OAM_SIZE, PALETTE_SIZE, SCANLINES_PER_FRAME, VBLANK_SCANLINE, VRAM_SIZE,
};

verus! {

/// The picture processing unit: its registers, its memories and its
/// position within the frame.
#[derive(Debug)]
pub struct Ppu {
    character_rom: Rom,
    mirroring: Mirroring,
    registers: PpuRegisters,
    vram: Ram,
    oam_address: u8,
    oam_data: [u8; OAM_SIZE],
    palette_table: [u8; PALETTE_SIZE],
    data_buffer: u8,
    scanline: u16,
    cycles: usize,
    pub nmi_interrupt: Option<u8>,
}

impl View for Ppu {
    type V = PpuState;

    closed spec fn view(&self) -> PpuState {
        PpuState {
            character_rom: self.character_rom@,
            mirroring: self.mirroring,
            control: self.registers.control.bits(),
            mask: self.registers.mask.bits(),
            status: self.registers.status.snapshot(),
            scroll_x: self.registers.scroll.x(),
            scroll_y: self.registers.scroll.y(),
            scroll_expects_x: self.registers.scroll.expects_x(),
            address: self.registers.address.value(),
            address_expects_high: self.registers.address.expects_high(),
            vram: self.vram@,
            oam_address: self.oam_address,
            oam_data: self.oam_data@,
            palette_table: self.palette_table@,
            data_buffer: self.data_buffer,
            scanline: self.scanline,
            dots: self.cycles,
            nmi_interrupt: self.nmi_interrupt,
        }
    }
}

impl Default for Ppu {
    /// A unit with 2 KiB of blank character ROM and horizontal mirroring.
    fn default() -> (ppu: Self)
        ensures
            ppu@ == PpuState::power_on(
                Seq::new(VRAM_SIZE as nat, |i: int| 0u8),
                Mirroring::Horizontal,
            ),
    {
        let blank: Vec<u8> = vec![0u8; VRAM_SIZE];
        assert(blank@ =~= Seq::new(VRAM_SIZE as nat, |i: int| 0u8));
        Self::new(Rom::new(blank), Mirroring::Horizontal)
    }
}

impl Ppu {
    /// The memories of every unit have their hardware sizes.
    pub proof fn lemma_wf(&self)
        ensures
            self@.wf(),
    {
        self.vram.lemma_len();
    }

    /// The unit as it is after power-on, with the cartridge's character ROM and mirroring.
    pub fn new(character_rom: Rom, mirroring: Mirroring) -> (ppu: Self)
        ensures
            ppu@ == PpuState::power_on(character_rom@, mirroring),
    {
        let ppu = Self {
            character_rom,
            mirroring,
            registers: PpuRegisters::default(),
            vram: Ram::default(),
            oam_address: 0,
            oam_data: [0u8; OAM_SIZE],
            palette_table: [0u8; PALETTE_SIZE],
            data_buffer: 0,
            scanline: 0,
            cycles: 0,
            nmi_interrupt: None,
        };
        proof {
            let model = PpuState::power_on(character_rom@, mirroring);
            assert(ppu@.vram =~= model.vram);
            assert(ppu@.oam_data =~= model.oam_data);
            assert(ppu@.palette_table =~= model.palette_table);
        }
        ppu
    }

    /// The cell of nametable memory behind an address that lies in a nametable.
    pub fn mirror_vram_address(&self, addr: u16) -> (index: u16)
        requires
            addr % 0x4000 >= 0x2000,
        ensures
            index == mirror_vram(self@.mirroring, addr),
    {
        assert(addr % 0x4000 >= 0x2000 ==> addr & 0x2FFF >= 0x2000 && (addr & 0x2FFF) - 0x2000
            == addr % 0x1000) by (bit_vector);
        let mirrored_vram = addr & 0x2FFF;
        let vram_index = mirrored_vram - 0x2000;
        let name_table = vram_index / 0x400;

        match self.mirroring {
            Mirroring::Vertical => if name_table == 2 || name_table == 3 {
                vram_index - 0x800
            } else {
                vram_index
            },
            Mirroring::Horizontal => if name_table == 1 || name_table == 2 {
                vram_index - 0x400
            } else if name_table == 3 {
                vram_index - 0x800
            } else {
                vram_index
            },
            Mirroring::FourScreen => vram_index,
        }
    }

    fn increment_vram_addr(&mut self)
        ensures
            final(self)@ == old(self)@.advance_address(),
    {
        let step = self.registers.control.vram_address_increment();
        self.registers.address.add(step);
    }

    /// Advances the unit by `cycles` dots and says whether a frame ended.
    pub fn tick(&mut self, cycles: usize) -> (frame_complete: bool)
        ensures
            (final(self)@, frame_complete) == old(self)@.tick(cycles),
    {
        self.cycles = self.cycles.wrapping_add(cycles);
        if self.cycles >= DOTS_PER_SCANLINE {
            self.cycles = self.cycles - DOTS_PER_SCANLINE;
            self.scanline = self.scanline.wrapping_add(1);

            if self.scanline == VBLANK_SCANLINE {
                self.registers.status.set_vblank_status(true);
                self.registers.status.set_sprite_zero_hit(false);

                if self.registers.control.generate_vblank_nmi() {
                    self.nmi_interrupt = Some(1);
                }
            }
            if self.scanline >= SCANLINES_PER_FRAME {
                self.scanline = 0;
                self.nmi_interrupt = None;

                self.registers.status.set_sprite_zero_hit(false);
                self.registers.status.reset_vblank_status();

                return true;
            }
        }
        false
    }

    /// Takes the pending interrupt, if any, and clears the latch.
    pub fn poll_nmi_interrupt(&mut self) -> (pending: Option<u8>)
        ensures
            (final(self)@, pending) == old(self)@.poll_nmi(),
    {
        let pending = self.nmi_interrupt;
        self.nmi_interrupt = None;
        pending
    }

    /// A write to the control register.
    pub fn write_to_ctrl(&mut self, value: u8)
        ensures
            final(self)@ == old(self)@.write_control(value),
    {
        let before_nmi_status = self.registers.control.generate_vblank_nmi();
        self.registers.control.update(value);

        if !before_nmi_status && self.registers.control.generate_vblank_nmi()
            && self.registers.status.is_in_vblank() {
            self.nmi_interrupt = Some(1);
        }
    }

    /// A write to the mask register.
    pub fn write_to_mask(&mut self, value: u8)
        ensures
            final(self)@ == old(self)@.write_mask(value),
    {
        self.registers.mask.update(value);
    }

    /// A read of the status register, with its side effects.
    pub fn read_status(&mut self) -> (data: u8)
        ensures
            (final(self)@, data) == old(self)@.read_status(),
    {
        let data = self.registers.status.snapshot();
        self.registers.status.reset_vblank_status();
        self.registers.address.reset_latch();
        self.registers.scroll.reset_latch();

        data
    }

    /// Sets the address for the next access to sprite memory.
    pub fn write_to_oam_addr(&mut self, value: u8)
        ensures
            final(self)@ == old(self)@.write_oam_address(value),
    {
        self.oam_address = value;
    }

    /// Stores a byte in sprite memory and advances the sprite address.
    pub fn write_to_oam_data(&mut self, value: u8)
        ensures
            final(self)@ == old(self)@.write_oam_data(value),
    {
        self.oam_data[self.oam_address as usize] = value;
        self.oam_address = self.oam_address.wrapping_add(1);
    }

    /// The byte of sprite memory at the sprite address.
    pub fn read_oam_data(&self) -> (data: u8)
        ensures
            data == self@.read_oam_data(),
    {
        self.oam_data[self.oam_address as usize]
    }

    /// A write to the scroll register: first the horizontal, then the vertical coordinate.
    pub fn write_to_scroll(&mut self, value: u8)
        ensures
            final(self)@ == old(self)@.write_scroll(value),
    {
        self.registers.scroll.write(value);
    }

    /// A write to the address register: first the high, then the low byte.
    pub fn write_to_ppu_addr(&mut self, value: u8)
        ensures
            final(self)@ == old(self)@.write_address(value),
    {
        self.registers.address.update(value);
    }

    /// Stores `value` through the data port and advances the address.
    /// Writes aimed at the character ROM are dropped.
    pub fn write_to_data(&mut self, value: u8) -> (r: Result<()>)
        ensures
            (final(self)@, outcome(r)) == old(self)@.write_data(value),
    {
        let addr = self.registers.address.get();
        if addr <= 0x1FFF {
        } else if addr <= 0x2FFF {
            let address = self.mirror_vram_address(addr);
            if address as usize >= VRAM_SIZE {
                return Err(
                    Error::unsupported_at("four-screen nametable memory is not on board: ", addr),
                );
            }
            self.vram.write(address, value);
        } else if addr <= 0x3EFF {
            return Err(Error::illegal_at("access to the unused space of the picture unit: ", addr));
        } else if addr <= 0x3FFF {
            let index = Self::palette_cell(addr);
            self.palette_table[index] = value;
        } else {
            return Err(Error::illegal_at("unexpected access to mirrored space ", addr));
        }
        self.increment_vram_addr();

        Ok(())
    }

    /// Reads through the data port and advances the address.
    pub fn read_data(&mut self) -> (r: Result<u8>)
        ensures
            (final(self)@, outcome(r)) == old(self)@.read_data(),
    {
        let addr = self.registers.address.get();
        self.increment_vram_addr();

        if addr <= 0x1FFF {
            if addr as usize >= self.character_rom.len() {
                return Err(Error::unsupported_at("the cartridge has no character ROM at ", addr));
            }
            let result = self.data_buffer;
            self.data_buffer = self.character_rom.read(addr);
            Ok(result)
        } else if addr <= 0x2FFF {
            let address = self.mirror_vram_address(addr);
            if address as usize >= VRAM_SIZE {
                return Err(
                    Error::unsupported_at("four-screen nametable memory is not on board: ", addr),
                );
            }
            let result = self.data_buffer;
            self.data_buffer = self.vram.read(address);
            Ok(result)
        } else if addr <= 0x3EFF {
            Err(Error::illegal_at("access to the unused space of the picture unit: ", addr))
        } else if addr <= 0x3FFF {
            Ok(self.palette_table[Self::palette_cell(addr)])
        } else {
            Err(Error::illegal_at("unexpected access to mirrored space ", addr))
        }
    }

    fn palette_cell(addr: u16) -> (index: usize)
        requires
            0x3F00 <= addr <= 0x3FFF,
        ensures
            index == palette_index(addr),
            index < PALETTE_SIZE,
    {
        if addr == 0x3F10 || addr == 0x3F14 || addr == 0x3F18 || addr == 0x3F1C {
            (addr - 0x3F10) as usize
        } else {
            (addr - 0x3F00) as usize % PALETTE_SIZE
        }
    }

    /// Copies a whole sprite page into sprite memory, starting at the
    /// current sprite address.
    pub fn write_oam_dma(&mut self, data: &[u8; 256])
        ensures
            final(self)@ == old(self)@.write_oam_dma(data@, 256),
    {
        let mut i: usize = 0;
        while i < 256
            invariant
                i <= 256,
                self@ == old(self)@.write_oam_dma(data@, i as nat),
            decreases 256 - i,
        {
            self.write_to_oam_data(data[i]);
            i += 1;
        }
    }
}

} // verus!
