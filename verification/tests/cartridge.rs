use nes_emulator::{Cartridge, ErrorKind, Mirroring};

fn header(program_pages: u8, character_pages: u8, flags_6: u8, flags_7: u8) -> Vec<u8> {
    let mut data = vec![0x4E, 0x45, 0x53, 0x1A, program_pages, character_pages, flags_6, flags_7];
    data.resize(16, 0);
    data
}

#[test]
fn cartridge_slices_program_and_character_rom() {
    let mut data = header(1, 1, 0x01, 0x00);
    data.extend(vec![0xAA; 0x4000]);
    data.extend(vec![0xBB; 0x2000]);

    let cartridge = Cartridge::new(&data).unwrap();

    assert_eq!(cartridge.program_rom().len(), 0x4000);
    assert_eq!(cartridge.character_rom().len(), 0x2000);
    assert_eq!(cartridge.program_rom().read(0), 0xAA);
    assert_eq!(cartridge.program_rom().read(0x3FFF), 0xAA);
    assert_eq!(cartridge.character_rom().read(0), 0xBB);
    assert_eq!(cartridge.mapper(), 0);
    assert_eq!(cartridge.screen_mirroring(), Mirroring::Vertical);
}

#[test]
fn cartridge_combines_the_mapper_nibbles() {
    let data = header(0, 0, 0x10, 0x20);

    let cartridge = Cartridge::new(&data).unwrap();

    assert_eq!(cartridge.mapper(), 0x21);
    assert!(cartridge.program_rom().is_empty());
    assert!(cartridge.character_rom().is_empty());
}

#[test]
fn cartridge_reads_the_mirroring_bits() {
    assert_eq!(
        Cartridge::new(&header(0, 0, 0x00, 0)).unwrap().screen_mirroring(),
        Mirroring::Horizontal
    );
    assert_eq!(
        Cartridge::new(&header(0, 0, 0x01, 0)).unwrap().screen_mirroring(),
        Mirroring::Vertical
    );
    assert_eq!(
        Cartridge::new(&header(0, 0, 0x08, 0)).unwrap().screen_mirroring(),
        Mirroring::FourScreen
    );
    assert_eq!(
        Cartridge::new(&header(0, 0, 0x09, 0)).unwrap().screen_mirroring(),
        Mirroring::FourScreen
    );
}

#[test]
fn cartridge_skips_the_trainer() {
    let mut data = header(1, 0, 0x04, 0x00);
    data.extend(vec![0x11; 512]);
    data.extend(vec![0x22; 0x4000]);

    let cartridge = Cartridge::new(&data).unwrap();

    assert_eq!(cartridge.program_rom().len(), 0x4000);
    assert_eq!(cartridge.program_rom().read(0), 0x22);
}

#[test]
fn cartridge_refuses_a_wrong_tag() {
    let mut data = header(0, 0, 0, 0);
    data[3] = 0x1B;

    let error = Cartridge::new(&data).err().unwrap();

    assert_eq!(error.kind(), ErrorKind::Unsupported);
}

#[test]
fn cartridge_refuses_the_second_ines_generation() {
    let data = header(0, 0, 0, 0x08);

    let error = Cartridge::new(&data).err().unwrap();

    assert_eq!(error.kind(), ErrorKind::Unsupported);
}

#[test]
fn cartridge_refuses_a_truncated_image() {
    let mut data = header(1, 0, 0, 0);
    data.extend(vec![0; 0x3FFF]);
    assert_eq!(Cartridge::new(&data).err().unwrap().kind(), ErrorKind::Unsupported);

    let short = vec![0x4E, 0x45, 0x53];
    assert_eq!(Cartridge::new(&short).err().unwrap().kind(), ErrorKind::Unsupported);

    data.push(0);
    assert!(Cartridge::new(&data).is_ok());
}
