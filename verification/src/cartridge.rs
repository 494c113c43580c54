use vstd::prelude::*;
use crate::error::{Error, ErrorKind, Result};
use crate::rom::Rom;

verus! {

/// Bytes per program ROM page.
pub const PROGRAM_ROM_PAGE_SIZE: usize = 16384;

/// Bytes per character ROM page.
pub const CHARACTER_ROM_PAGE_SIZE: usize = 8192;

/// Length of the iNES header.
pub const HEADER_SIZE: usize = 16;

/// Length of the optional trainer block that follows the header.
pub const TRAINER_SIZE: usize = 512;

/// How the two physical nametables map onto the four logical ones.
#[derive(Clone, Copy, Debug, PartialEq, Eq, Structural)]
pub enum Mirroring {
    Vertical,
    Horizontal,
    FourScreen,
}

/// What a cartridge holds, as plain values.
pub struct CartridgeImage {
    pub program_rom: Seq<u8>,
    pub character_rom: Seq<u8>,
    pub mapper: u8,
    pub screen_mirroring: Mirroring,
}

/// The first four bytes are `N`, `E`, `S`, end-of-file.
pub open spec fn has_ines_tag(data: Seq<u8>) -> bool {
    &&& data.len() >= 4
    &&& data[0] == 0x4E
    &&& data[1] == 0x45
    &&& data[2] == 0x53
    &&& data[3] == 0x1A
}

/// The generation of the format that the header declares.
pub open spec fn ines_version(data: Seq<u8>) -> u8 {
    (data[7] >> 2) & 0b11
}

/// The mapper number: its high nibble from byte 7, its low nibble from byte 6.
pub open spec fn ines_mapper(data: Seq<u8>) -> u8 {
    (data[7] & 0b1111_0000) | (data[6] >> 4)
}

/// The mirroring: four-screen if bit 3 of byte 6 is set, else bit 0 chooses.
pub open spec fn ines_mirroring(data: Seq<u8>) -> Mirroring {
    if data[6] & 0b1000 != 0 {
        Mirroring::FourScreen
    } else if data[6] & 0b1 != 0 {
        Mirroring::Vertical
    } else {
        Mirroring::Horizontal
    }
}

/// Offset of the first program ROM byte: behind the header and the trainer, if any.
pub open spec fn program_rom_start(data: Seq<u8>) -> int {
    if data[6] & 0b100 != 0 {
        HEADER_SIZE + TRAINER_SIZE
    } else {
        HEADER_SIZE as int
    }
}

/// Offset of the first character ROM byte: behind the program ROM.
pub open spec fn character_rom_start(data: Seq<u8>) -> int {
    program_rom_start(data) + data[4] * PROGRAM_ROM_PAGE_SIZE
}

/// Offset behind the last character ROM byte.
pub open spec fn character_rom_end(data: Seq<u8>) -> int {
    character_rom_start(data) + data[5] * CHARACTER_ROM_PAGE_SIZE
}

/// A byte sequence that this core accepts as a cartridge: tagged, of the
/// first iNES generation, and long enough for both ROMs its header declares.
pub open spec fn is_ines_image(data: Seq<u8>) -> bool {
    &&& has_ines_tag(data)
    &&& data.len() >= HEADER_SIZE
    &&& ines_version(data) == 0
    &&& data.len() >= character_rom_end(data)
}

/// The cartridge that an accepted image describes.
pub open spec fn parse_ines(data: Seq<u8>) -> CartridgeImage {
    CartridgeImage {
        program_rom: data.subrange(program_rom_start(data), character_rom_start(data)),
        character_rom: data.subrange(character_rom_start(data), character_rom_end(data)),
        mapper: ines_mapper(data),
        screen_mirroring: ines_mirroring(data),
    }
}

/// A cartridge: its two ROMs, its mapper number and its mirroring.
pub struct Cartridge {
    program_rom: Rom,
    character_rom: Rom,
    mapper: u8,
    screen_mirroring: Mirroring,
}

impl View for Cartridge {
    type V = CartridgeImage;

    closed spec fn view(&self) -> CartridgeImage {
        CartridgeImage {
            program_rom: self.program_rom@,
            character_rom: self.character_rom@,
            mapper: self.mapper,
            screen_mirroring: self.screen_mirroring,
        }
    }
}

fn copy_range(data: &Vec<u8>, from: usize, to: usize) -> (bytes: Vec<u8>)
    requires
        from <= to <= data@.len(),
    ensures
        bytes@ == data@.subrange(from as int, to as int),
{
    let mut bytes: Vec<u8> = Vec::new();
    let mut i: usize = from;
    while i < to
        invariant
            from <= i <= to <= data@.len(),
            bytes@ == data@.subrange(from as int, i as int),
        decreases to - i,
    {
        bytes.push(data[i]);
        assert(bytes@ =~= data@.subrange(from as int, i + 1));
        i += 1;
    }
    bytes
}

impl Cartridge {
    /// Decodes an iNES container. Anything that is not a complete image of
    /// the first iNES generation is refused as unsupported.
    pub fn new(data: &Vec<u8>) -> (r: Result<Self>)
        ensures
            is_ines_image(data@) ==> r is Ok && r->Ok_0@ == parse_ines(data@),
            !is_ines_image(data@) ==> r is Err && r->Err_0.kind() == ErrorKind::Unsupported,
    {
        if data.len() < HEADER_SIZE || data[0] != 0x4E || data[1] != 0x45 || data[2] != 0x53
            || data[3] != 0x1A {
            return Err(Error::unsupported("File is not in iNES file format"));
        }
        let mapper = (data[7] & 0b1111_0000) | (data[6] >> 4);

        let ines_ver = (data[7] >> 2) & 0b11;
        if ines_ver != 0 {
            return Err(Error::unsupported("NES2.0 format is not supported"));
        }
        let four_screen = data[6] & 0b1000 != 0;
        let vertical_mirroring = data[6] & 0b1 != 0;
        let screen_mirroring = if four_screen {
            Mirroring::FourScreen
        } else if vertical_mirroring {
            Mirroring::Vertical
        } else {
            Mirroring::Horizontal
        };

        let program_rom_size = data[4] as usize * PROGRAM_ROM_PAGE_SIZE;
        let character_rom_size = data[5] as usize * CHARACTER_ROM_PAGE_SIZE;

        let skip_trainer = data[6] & 0b100 != 0;

        let program_rom_start: usize = HEADER_SIZE + if skip_trainer {
            TRAINER_SIZE
        } else {
            0
        };
        let character_rom_start = program_rom_start + program_rom_size;
        let character_rom_end = character_rom_start + character_rom_size;
        if data.len() < character_rom_end {
            return Err(Error::unsupported("File is shorter than its header declares"));
        }
        let program_rom = Rom::new(copy_range(data, program_rom_start, character_rom_start));
        let character_rom = Rom::new(copy_range(data, character_rom_start, character_rom_end));

        Ok(Self { program_rom, character_rom, mapper, screen_mirroring })
    }

    pub fn program_rom(&self) -> (rom: &Rom)
        ensures
            rom@ == self@.program_rom,
    {
        &self.program_rom
    }

    pub fn character_rom(&self) -> (rom: &Rom)
        ensures
            rom@ == self@.character_rom,
    {
        &self.character_rom
    }

    pub fn mapper(&self) -> (mapper: u8)
        ensures
            mapper == self@.mapper,
    {
        self.mapper
    }

    pub fn screen_mirroring(&self) -> (mirroring: Mirroring)
        ensures
            mirroring == self@.screen_mirroring,
    {
        self.screen_mirroring
    }
}

} // verus!
