use nes_emulator::io::{Read, Write};
use nes_emulator::{Bus, Cartridge, ErrorKind};

fn cartridge(program_pages: u8, flags_6: u8) -> Cartridge {
    let mut data = vec![0x4E, 0x45, 0x53, 0x1A, program_pages, 1, flags_6, 0];
    data.resize(16, 0);
    for i in 0..(program_pages as usize * 0x4000) {
        data.push((i % 251) as u8);
    }
    for i in 0..0x2000 {
        data.push((i % 241) as u8);
    }
    Cartridge::new(&data).unwrap()
}

fn bus() -> Bus {
    Bus::new(&cartridge(1, 0))
}

/// Lets scanlines pass: 114 cycles are 342 dots, one scanline and a dot.
fn pass_scanlines(bus: &mut Bus, lines: usize) {
    for _ in 0..lines {
        bus.tick(114);
    }
}

#[test]
fn ram_is_visible_through_all_four_mirrors() {
    let mut bus = bus();

    bus.write_byte(0x0805, 0x42).unwrap();

    assert_eq!(bus.read_byte(0x0005).unwrap(), 0x42);
    assert_eq!(bus.read_byte(0x0805).unwrap(), 0x42);
    assert_eq!(bus.read_byte(0x1005).unwrap(), 0x42);
    assert_eq!(bus.read_byte(0x1805).unwrap(), 0x42);
    assert_eq!(bus.read_byte(0x0006).unwrap(), 0x00);
}

#[test]
fn words_are_little_endian() {
    let mut bus = bus();

    bus.write_word(0x0010, 0xBEEF).unwrap();

    assert_eq!(bus.read_byte(0x0010).unwrap(), 0xEF);
    assert_eq!(bus.read_byte(0x0011).unwrap(), 0xBE);
    assert_eq!(bus.read_word(0x0010).unwrap(), 0xBEEF);
}

#[test]
fn a_single_program_bank_is_mirrored() {
    let mut bus = bus();

    for k in [0u16, 1, 0x1234, 0x3FFF] {
        let low = bus.read_byte(0x8000 + k).unwrap();
        let high = bus.read_byte(0xC000 + k).unwrap();
        assert_eq!(low, high);
        assert_eq!(low, (k as usize % 251) as u8);
    }
}

#[test]
fn two_program_banks_are_not_mirrored() {
    let mut bus = Bus::new(&cartridge(2, 0));

    assert_eq!(bus.read_byte(0x8000).unwrap(), 0);
    assert_eq!(bus.read_byte(0xC000).unwrap(), (0x4000usize % 251) as u8);
    assert_eq!(bus.read_byte(0xFFFF).unwrap(), (0x7FFFusize % 251) as u8);
}

#[test]
fn reads_beyond_the_program_rom_are_unsupported() {
    let mut bus = Bus::new(&cartridge(0, 0));

    assert_eq!(bus.read_byte(0x8000).err().unwrap().kind(), ErrorKind::Unsupported);
}

#[test]
fn write_only_registers_cannot_be_read() {
    let mut bus = bus();

    for addr in [0x2000u16, 0x2001, 0x2003, 0x2005, 0x2006, 0x4014, 0x2008, 0x3FFE] {
        assert_eq!(bus.read_byte(addr).err().unwrap().kind(), ErrorKind::Illegal);
    }
}

#[test]
fn the_status_register_and_the_rom_cannot_be_written() {
    let mut bus = bus();

    assert_eq!(bus.write_byte(0x2002, 1).err().unwrap().kind(), ErrorKind::Illegal);
    assert_eq!(bus.write_byte(0x3FFA, 1).err().unwrap().kind(), ErrorKind::Illegal);
    assert_eq!(bus.write_byte(0x8000, 1).err().unwrap().kind(), ErrorKind::Illegal);
    assert_eq!(bus.write_byte(0xFFFF, 1).err().unwrap().kind(), ErrorKind::Illegal);
}

#[test]
fn regions_of_absent_collaborators_are_unsupported() {
    let mut bus = bus();

    for addr in [0x4000u16, 0x4016, 0x4017, 0x401F, 0x6000, 0x7FFF] {
        assert_eq!(bus.read_byte(addr).err().unwrap().kind(), ErrorKind::Unsupported);
        assert_eq!(bus.write_byte(addr, 0).err().unwrap().kind(), ErrorKind::Unsupported);
    }
    assert_eq!(bus.write_byte(0x4014, 0).err().unwrap().kind(), ErrorKind::Unsupported);

    // Between the registers and the save RAM nothing is mapped at all.
    for addr in [0x4020u16, 0x5000, 0x5FFF] {
        assert_eq!(bus.read_byte(addr).err().unwrap().kind(), ErrorKind::Unsupported);
        assert_eq!(bus.write_byte(addr, 0).err().unwrap().kind(), ErrorKind::Illegal);
    }
}

#[test]
fn picture_unit_registers_repeat_every_eight_bytes() {
    let mut bus = bus();

    // The address through two mirrors of 0x2006, the data through one of 0x2007.
    bus.write_byte(0x200E, 0x23).unwrap();
    bus.write_byte(0x3FFE, 0x05).unwrap();
    bus.write_byte(0x200F, 0x66).unwrap();

    bus.write_byte(0x2006, 0x23).unwrap();
    bus.write_byte(0x2006, 0x05).unwrap();
    bus.read_byte(0x2007).unwrap();
    assert_eq!(bus.read_byte(0x3FFF).unwrap(), 0x66);
}

#[test]
fn reading_the_status_ends_vertical_blank_and_rewinds_the_latches() {
    let mut bus = bus();
    pass_scanlines(&mut bus, 241);

    // Half an address, then the status read that makes it be forgotten.
    bus.write_byte(0x2006, 0x21).unwrap();
    let status = bus.read_byte(0x2002).unwrap();
    assert_eq!(status & 0x80, 0x80);
    assert_eq!(bus.read_byte(0x2002).unwrap() & 0x80, 0x00);

    bus.write_byte(0x2006, 0x23).unwrap();
    bus.write_byte(0x2006, 0x05).unwrap();
    bus.write_byte(0x2007, 0x77).unwrap();

    bus.write_byte(0x2006, 0x23).unwrap();
    bus.write_byte(0x2006, 0x05).unwrap();
    bus.read_byte(0x2007).unwrap();
    assert_eq!(bus.read_byte(0x2007).unwrap(), 0x77);
}

#[test]
fn ticks_are_counted_and_reach_the_picture_unit() {
    let mut bus = bus();
    bus.write_byte(0x2000, 0x80).unwrap();

    bus.tick(5);
    assert_eq!(bus.cycles(), 5);
    assert_eq!(bus.poll_nmi_status(), None);

    pass_scanlines(&mut bus, 240);
    assert_eq!(bus.poll_nmi_status(), None);
    pass_scanlines(&mut bus, 1);
    assert_eq!(bus.cycles(), 5 + 241 * 114);
    assert_eq!(bus.poll_nmi_status(), Some(1));
    assert_eq!(bus.poll_nmi_status(), None);
}

#[test]
fn load_copies_the_program_until_a_write_is_refused() {
    let mut bus = bus();

    let error = bus.load(0x0600).err().unwrap();

    // The copy runs through work RAM and its mirrors and the first two
    // registers of the picture unit, and ends at the status register.
    // Each cell keeps what came through its last mirror.
    assert_eq!(error.kind(), ErrorKind::Illegal);
    assert_eq!(bus.read_byte(0x0600).unwrap(), (0x1800usize % 251) as u8);
    assert_eq!(bus.read_byte(0x0601).unwrap(), (0x1801usize % 251) as u8);
    assert_eq!(bus.read_byte(0x05FF).unwrap(), (0x17FFusize % 251) as u8);
    assert_eq!(bus.read_byte(0x1FFF).unwrap(), (0x19FFusize % 251) as u8);

    let mut empty = Bus::new(&cartridge(0, 0));
    assert!(empty.load(0x0600).is_ok());
}

#[test]
fn load_cartridge_starts_the_bus_over() {
    let mut bus = bus();
    bus.write_byte(0x0000, 0x99).unwrap();
    bus.tick(7);

    bus.load_cartridge(&cartridge(2, 0));

    assert_eq!(bus.read_byte(0x0000).unwrap(), 0);
    assert_eq!(bus.cycles(), 0);
    assert_eq!(bus.read_byte(0xC000).unwrap(), (0x4000usize % 251) as u8);
}
