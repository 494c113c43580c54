use vstd::prelude::*;
use crate::bits::{high_byte, low_byte, word};
use crate::cartridge::{Cartridge, CartridgeImage};
use crate::error::{outcome, Error, ErrorKind, Result};
use crate::io::{Access, Read, Write};
use crate::ppu::state::PpuState;
use crate::ppu::Ppu;
use crate::ram::{Ram, RAM_SIZE};
use crate::rom::Rom;

verus! {

/// Last address that leads to work RAM.
pub const RAM_MIRRORS_END: u16 = 0x1FFF;

/// Last address that leads to a register of the picture unit.
pub const PPU_REGISTERS_MIRRORS_END: u16 = 0x3FFF;

/// The sprite transfer port, which can only be written.
pub const OAM_DMA: u16 = 0x4014;

/// Last address of the registers of the sound unit and the controllers.
pub const IO_REGISTERS_END: u16 = 0x401F;

/// First address of the cartridge's save RAM.
pub const SAVE_RAM_START: u16 = 0x6000;

/// First address that leads to the cartridge's program ROM.
pub const PROGRAM_ROM_START: u16 = 0x8000;

/// A program ROM of this size appears twice in the upper half of the address space.
pub const PROGRAM_ROM_BANK_SIZE: usize = 0x4000;

/// Size of the window through which the processor sees the program ROM.
pub const PROGRAM_ROM_WINDOW: usize = 0x8000;

/// The longest program that fits below the interrupt vectors.
pub const PROGRAM_LIMIT: usize = 0x7FFA;

/// The program ROM that holds `program` at the start of the window and
/// the reset vector pointing there: 32 KiB, zero wherever neither the
/// program nor the vector lies.
pub open spec fn program_image(program: Seq<u8>) -> Seq<u8> {
    Seq::new(
        PROGRAM_ROM_WINDOW as nat,
        |i: int|
            if i < program.len() {
                program[i]
            } else if i == 0x7FFD {
                0x80u8
            } else {
                0u8
            },
    )
}

/// Everything the processor can reach, as plain values.
pub struct BusState {
    pub ram: Seq<u8>,
    pub program_rom: Seq<u8>,
    pub ppu: PpuState,
    /// Processor cycles since power-on, modulo the machine word.
    pub cycles: usize,
}

/// The program ROM cell behind an address at or above `PROGRAM_ROM_START`.
pub open spec fn program_rom_offset(rom_len: nat, addr: u16) -> int
    recommends
        addr >= PROGRAM_ROM_START,
{
    if rom_len == PROGRAM_ROM_BANK_SIZE {
        (addr - PROGRAM_ROM_START) % (PROGRAM_ROM_BANK_SIZE as int)
    } else {
        addr - PROGRAM_ROM_START
    }
}

impl BusState {
    /// The memories have the sizes the hardware gives them.
    pub open spec fn wf(self) -> bool {
        &&& self.ram.len() == RAM_SIZE
        &&& self.ppu.wf()
    }

    /// The bus of a console that has just been switched on with `cartridge` in it.
    pub open spec fn power_on(cartridge: CartridgeImage) -> BusState {
        BusState {
            ram: Seq::new(RAM_SIZE as nat, |i: int| 0u8),
            program_rom: cartridge.program_rom,
            ppu: PpuState::power_on(cartridge.character_rom, cartridge.screen_mirroring),
            cycles: 0,
        }
    }

    /// A read of one byte.
    pub open spec fn read(self, addr: u16) -> Access<BusState, u8> {
        if addr <= RAM_MIRRORS_END {
            (self, Ok(self.ram[(addr % 0x800) as int]))
        } else if addr <= PPU_REGISTERS_MIRRORS_END {
            let register = addr % 8;
            if register == 2 {
                let (ppu, data) = self.ppu.read_status();
                (BusState { ppu, ..self }, Ok(data))
            } else if register == 4 {
                (self, Ok(self.ppu.read_oam_data()))
            } else if register == 7 {
                let (ppu, data) = self.ppu.read_data();
                (BusState { ppu, ..self }, data)
            } else {
                (self, Err(ErrorKind::Illegal))
            }
        } else if addr == OAM_DMA {
            (self, Err(ErrorKind::Illegal))
        } else if addr < PROGRAM_ROM_START {
            (self, Err(ErrorKind::Unsupported))
        } else if program_rom_offset(self.program_rom.len(), addr) < self.program_rom.len() {
            (self, Ok(self.program_rom[program_rom_offset(self.program_rom.len(), addr)]))
        } else {
            (self, Err(ErrorKind::Unsupported))
        }
    }

    /// A write of one byte.
    pub open spec fn write(self, addr: u16, byte: u8) -> Access<BusState, ()> {
        if addr <= RAM_MIRRORS_END {
            (BusState { ram: self.ram.update((addr % 0x800) as int, byte), ..self }, Ok(()))
        } else if addr <= PPU_REGISTERS_MIRRORS_END {
            let register = addr % 8;
            if register == 0 {
                (BusState { ppu: self.ppu.write_control(byte), ..self }, Ok(()))
            } else if register == 1 {
                (BusState { ppu: self.ppu.write_mask(byte), ..self }, Ok(()))
            } else if register == 2 {
                (self, Err(ErrorKind::Illegal))
            } else if register == 3 {
                (BusState { ppu: self.ppu.write_oam_address(byte), ..self }, Ok(()))
            } else if register == 4 {
                (BusState { ppu: self.ppu.write_oam_data(byte), ..self }, Ok(()))
            } else if register == 5 {
                (BusState { ppu: self.ppu.write_scroll(byte), ..self }, Ok(()))
            } else if register == 6 {
                (BusState { ppu: self.ppu.write_address(byte), ..self }, Ok(()))
            } else {
                let (ppu, done) = self.ppu.write_data(byte);
                (BusState { ppu, ..self }, done)
            }
        } else if addr <= IO_REGISTERS_END {
            (self, Err(ErrorKind::Unsupported))
        } else if addr < SAVE_RAM_START {
            (self, Err(ErrorKind::Illegal))
        } else if addr < PROGRAM_ROM_START {
            (self, Err(ErrorKind::Unsupported))
        } else {
            (self, Err(ErrorKind::Illegal))
        }
    }

    /// A read of the little-endian word at `addr`: two byte reads, low byte
    /// first, the second at the address after it (0 after `0xFFFF`).
    pub open spec fn read_word(self, addr: u16) -> Access<BusState, u16> {
        let (after_low, low) = self.read(addr);
        match low {
            Err(kind) => (after_low, Err(kind)),
            Ok(lower) => {
                let (after_high, high) = after_low.read(addr.wrapping_add(1));
                match high {
                    Err(kind) => (after_high, Err(kind)),
                    Ok(upper) => (after_high, Ok(word(lower, upper))),
                }
            },
        }
    }

    /// A little-endian write of `word` at `addr`: two byte writes, low byte first.
    pub open spec fn write_word(self, addr: u16, word: u16) -> Access<BusState, ()> {
        let (after_low, low) = self.write(addr, low_byte(word));
        match low {
            Err(kind) => (after_low, Err(kind)),
            Ok(_) => after_low.write(addr.wrapping_add(1), high_byte(word)),
        }
    }

    /// The passing of `cycles` processor cycles: the picture unit advances
    /// three dots for each.
    pub open spec fn tick(self, cycles: usize) -> BusState
        recommends
            cycles * 3 <= usize::MAX,
    {
        BusState {
            cycles: self.cycles.wrapping_add(cycles),
            ppu: self.ppu.tick((cycles * 3) as usize).0,
            ..self
        }
    }

    /// Takes the picture unit's pending interrupt, if any.
    pub open spec fn poll_nmi(self) -> (BusState, Option<u8>) {
        let (ppu, pending) = self.ppu.poll_nmi();
        (BusState { ppu, ..self }, pending)
    }

    /// Writes the bytes of `image` from index `from` on to the addresses
    /// from `offset + from` on (modulo the address space), until the first
    /// write that is refused.
    pub open spec fn store_from(self, image: Seq<u8>, offset: u16, from: nat) -> Access<
        BusState,
        (),
    >
        decreases image.len() - from,
    {
        if from >= image.len() {
            (self, Ok(()))
        } else {
            let (next, done) = self.write(((offset + from) % 0x1_0000) as u16, image[from as int]);
            match done {
                Err(kind) => (next, Err(kind)),
                Ok(_) => next.store_from(image, offset, from + 1),
            }
        }
    }

    /// Copies the whole program ROM to the addresses from `offset` on.
    pub open spec fn load(self, offset: u16) -> Access<BusState, ()> {
        self.store_from(self.program_rom, offset, 0)
    }
}

/// The console's bus: it routes each access of the processor to work RAM,
/// to the picture unit or to the cartridge, and counts the cycles.
#[derive(Debug)]
pub struct Bus {
    program_rom: Rom,
    ram: Ram,
    ppu: Ppu,
    cycles: usize,
}

impl View for Bus {
    type V = BusState;

    closed spec fn view(&self) -> BusState {
        BusState {
            ram: self.ram@,
            program_rom: self.program_rom@,
            ppu: self.ppu@,
            cycles: self.cycles,
        }
    }
}

/// The address `distance` bytes above `offset`, modulo the address space.
fn address_after(offset: u16, distance: usize) -> (addr: u16)
    ensures
        addr == (offset + distance) % 0x1_0000,
{
    ((offset as usize + distance % 0x1_0000) % 0x1_0000) as u16
}

impl Bus {
    /// The memories of every bus have their hardware sizes.
    pub proof fn lemma_wf(&self)
        ensures
            self@.wf(),
    {
        self.ram.lemma_len();
        self.ppu.lemma_wf();
    }

    /// The bus of a console that has just been switched on with `cartridge` in it.
    pub fn new(cartridge: &Cartridge) -> (bus: Self)
        ensures
            bus@ == BusState::power_on(cartridge@),
    {
        let program_rom = cartridge.program_rom().clone();
        let character_rom = cartridge.character_rom().clone();
        let mirroring = cartridge.screen_mirroring();
        let ppu = Ppu::new(character_rom, mirroring);

        Self { program_rom, ram: Ram::default(), ppu, cycles: 0 }
    }

    /// Replaces the console's state by that of a console switched on with
    /// `cartridge` in it.
    pub fn load_cartridge(&mut self, cartridge: &Cartridge)
        ensures
            final(self)@ == BusState::power_on(cartridge@),
    {
        *self = Self::new(cartridge);
    }

    /// Replaces the program ROM by one that holds `program` at `0x8000`
    /// and the reset vector pointing there.
    pub fn load_program(&mut self, program: &[u8])
        requires
            program@.len() <= PROGRAM_LIMIT,
        ensures
            final(self)@ == (BusState { program_rom: program_image(program@), ..old(self)@ }),
    {
        let mut image: Vec<u8> = Vec::new();
        let mut i: usize = 0;
        while i < PROGRAM_ROM_WINDOW
            invariant
                i <= PROGRAM_ROM_WINDOW,
                program@.len() <= PROGRAM_LIMIT,
                image@.len() == i,
                forall|k: int| 0 <= k < i ==> image@[k] == program_image(program@)[k],
            decreases PROGRAM_ROM_WINDOW - i,
        {
            let byte = if i < program.len() {
                program[i]
            } else if i == 0x7FFD {
                0x80
            } else {
                0
            };
            image.push(byte);
            i += 1;
        }
        assert(image@ =~= program_image(program@));
        self.program_rom = Rom::new(image);
    }

    /// Copies the program ROM to the addresses from `offset` on, through
    /// the bus, and stops at the first write that is refused.
    pub fn load(&mut self, offset: u16) -> (r: Result<()>)
        ensures
            (final(self)@, outcome(r)) == old(self)@.load(offset),
    {
        let len = self.program_rom.len();
        let mut i: usize = 0;
        while i < len
            invariant
                i <= len,
                len == self@.program_rom.len(),
                self@.program_rom == old(self)@.program_rom,
                self@.store_from(old(self)@.program_rom, offset, i as nat) == old(self)@.load(
                    offset,
                ),
            decreases len - i,
        {
            let byte = self.program_rom.as_slice()[i];
            let addr = address_after(offset, i);
            let ghost before = self@;
            match self.write_byte(addr, byte) {
                Ok(_) => {},
                Err(e) => {
                    return Err(e);
                },
            }
            assert(before.store_from(before.program_rom, offset, i as nat) == self@.store_from(
                before.program_rom,
                offset,
                (i + 1) as nat,
            ));
            i += 1;
        }
        Ok(())
    }

    /// Lets `cycles` processor cycles pass: the picture unit advances three dots for each.
    pub fn tick(&mut self, cycles: usize)
        requires
            cycles * 3 <= usize::MAX,
        ensures
            final(self)@ == old(self)@.tick(cycles),
    {
        self.cycles = self.cycles.wrapping_add(cycles);
        self.ppu.tick(cycles * 3);
    }

    /// Takes the picture unit's pending interrupt, if any.
    pub fn poll_nmi_status(&mut self) -> (pending: Option<u8>)
        ensures
            (final(self)@, pending) == old(self)@.poll_nmi(),
    {
        self.ppu.poll_nmi_interrupt()
    }

    /// The contents of work RAM.
    pub fn dump(&self) -> (bytes: [u8; RAM_SIZE])
        ensures
            bytes@ == self@.ram,
    {
        self.ram.dump()
    }

    /// Processor cycles since power-on, modulo the machine word.
    pub fn cycles(&self) -> (cycles: usize)
        ensures
            cycles == self@.cycles,
    {
        self.cycles
    }
}

impl Read for Bus {
    open spec fn read_spec(state: BusState, addr: u16) -> Access<BusState, u8> {
        state.read(addr)
    }

    fn read_byte(&mut self, addr: u16) -> (r: Result<u8>) {
        if addr <= RAM_MIRRORS_END {
            assert(addr & 0x07FF == addr % 0x800) by (bit_vector);
            Ok(self.ram.read(addr & 0x07FF))
        } else if addr <= PPU_REGISTERS_MIRRORS_END {
            let register = addr & 0b0010_0000_0000_0111;
            assert(addr & 0x2007 == 0x2000 + addr % 8) by (bit_vector)
                requires
                    0x2000 <= addr <= 0x3FFF,
            ;
            if register == 0x2002 {
                Ok(self.ppu.read_status())
            } else if register == 0x2004 {
                Ok(self.ppu.read_oam_data())
            } else if register == 0x2007 {
                self.ppu.read_data()
            } else {
                Err(
                    Error::illegal_at(
                        "attempted to read from a write-only register of the picture unit: ",
                        addr,
                    ),
                )
            }
        } else if addr == OAM_DMA {
            Err(
                Error::illegal_at(
                    "attempted to read from the write-only sprite transfer port: ",
                    addr,
                ),
            )
        } else if addr < PROGRAM_ROM_START {
            Err(Error::unsupported_at("nothing in this core answers a read from ", addr))
        } else {
            let mut offset = addr - PROGRAM_ROM_START;
            if self.program_rom.len() == PROGRAM_ROM_BANK_SIZE && offset >= 0x4000 {
                offset = offset % 0x4000;
            }
            if (offset as usize) < self.program_rom.len() {
                Ok(self.program_rom.read(offset))
            } else {
                Err(Error::unsupported_at("the program ROM ends below ", addr))
            }
        }
    }

    fn read_word(&mut self, addr: u16) -> (r: Result<u16>)
        ensures
            (final(self)@, outcome(r)) == old(self)@.read_word(addr),
    {
        let lower = match self.read_byte(addr) {
            Ok(byte) => byte,
            Err(e) => return Err(e),
        };
        let upper = match self.read_byte(addr.wrapping_add(1)) {
            Ok(byte) => byte,
            Err(e) => return Err(e),
        };

        Ok(crate::bits::make_word(lower, upper))
    }
}

impl Write for Bus {
    open spec fn write_spec(state: BusState, addr: u16, byte: u8) -> Access<BusState, ()> {
        state.write(addr, byte)
    }

    fn write_byte(&mut self, addr: u16, byte: u8) -> (r: Result<()>) {
        if addr <= RAM_MIRRORS_END {
            assert(addr & 0x07FF == addr % 0x800) by (bit_vector);
            self.ram.write(addr & 0x07FF, byte);
            Ok(())
        } else if addr <= PPU_REGISTERS_MIRRORS_END {
            let register = addr & 0b0010_0000_0000_0111;
            assert(addr & 0x2007 == 0x2000 + addr % 8) by (bit_vector)
                requires
                    0x2000 <= addr <= 0x3FFF,
            ;
            if register == 0x2000 {
                self.ppu.write_to_ctrl(byte);
                Ok(())
            } else if register == 0x2001 {
                self.ppu.write_to_mask(byte);
                Ok(())
            } else if register == 0x2002 {
                Err(
                    Error::illegal_at(
                        "attempted to write to the status register of the picture unit: ",
                        addr,
                    ),
                )
            } else if register == 0x2003 {
                self.ppu.write_to_oam_addr(byte);
                Ok(())
            } else if register == 0x2004 {
                self.ppu.write_to_oam_data(byte);
                Ok(())
            } else if register == 0x2005 {
                self.ppu.write_to_scroll(byte);
                Ok(())
            } else if register == 0x2006 {
                self.ppu.write_to_ppu_addr(byte);
                Ok(())
            } else {
                self.ppu.write_to_data(byte)
            }
        } else if addr <= IO_REGISTERS_END {
            Err(Error::unsupported_at("no sound unit or controller takes the write to ", addr))
        } else if addr < SAVE_RAM_START {
            Err(Error::illegal_at("nothing takes a write to ", addr))
        } else if addr < PROGRAM_ROM_START {
            Err(Error::unsupported_at("no save RAM takes the write to ", addr))
        } else {
            Err(Error::illegal_at("attempted to write to cartridge ROM: ", addr))
        }
    }

    fn write_word(&mut self, addr: u16, word: u16) -> (r: Result<()>)
        ensures
            (final(self)@, outcome(r)) == old(self)@.write_word(addr, word),
    {
        let (lower, upper) = crate::bits::split_word(word);

        match self.write_byte(addr, lower) {
            Ok(_) => self.write_byte(addr.wrapping_add(1), upper),
            Err(e) => Err(e),
        }
    }
}

} // verus!
