use nes_emulator::{ErrorKind, Mirroring, Ppu, Rom};

fn ppu(mirroring: Mirroring) -> Ppu {
    let character_rom = (0..0x2000).map(|i| (i % 241) as u8).collect();
    Ppu::new(Rom::new(character_rom), mirroring)
}

fn point_at(ppu: &mut Ppu, addr: u16) {
    ppu.read_status();
    ppu.write_to_ppu_addr((addr >> 8) as u8);
    ppu.write_to_ppu_addr((addr & 0xFF) as u8);
}

#[test]
fn horizontal_mirroring_pairs_the_tables_side_by_side() {
    let ppu = ppu(Mirroring::Horizontal);

    assert_eq!(ppu.mirror_vram_address(0x2000), 0x0000);
    assert_eq!(ppu.mirror_vram_address(0x23FF), 0x03FF);
    assert_eq!(ppu.mirror_vram_address(0x2400), 0x0000);
    assert_eq!(ppu.mirror_vram_address(0x2800), 0x0400);
    assert_eq!(ppu.mirror_vram_address(0x2C00), 0x0400);
    assert_eq!(ppu.mirror_vram_address(0x2FFF), 0x07FF);
    assert_eq!(ppu.mirror_vram_address(0x3005), 0x0005);
}

#[test]
fn vertical_mirroring_pairs_the_tables_one_above_the_other() {
    let ppu = ppu(Mirroring::Vertical);

    assert_eq!(ppu.mirror_vram_address(0x2000), 0x0000);
    assert_eq!(ppu.mirror_vram_address(0x2400), 0x0400);
    assert_eq!(ppu.mirror_vram_address(0x2800), 0x0000);
    assert_eq!(ppu.mirror_vram_address(0x2C00), 0x0400);
    assert_eq!(ppu.mirror_vram_address(0x2FFF), 0x07FF);
}

#[test]
fn four_screen_mirroring_keeps_the_tables_apart() {
    let mut ppu = ppu(Mirroring::FourScreen);

    assert_eq!(ppu.mirror_vram_address(0x2400), 0x0400);
    assert_eq!(ppu.mirror_vram_address(0x2C00), 0x0C00);

    // The two upper tables would be on the cartridge.
    point_at(&mut ppu, 0x2800);
    assert_eq!(ppu.write_to_data(1).err().unwrap().kind(), ErrorKind::Unsupported);
    point_at(&mut ppu, 0x2800);
    assert_eq!(ppu.read_data().err().unwrap().kind(), ErrorKind::Unsupported);
    point_at(&mut ppu, 0x27FF);
    assert!(ppu.write_to_data(1).is_ok());
}

#[test]
fn reads_below_the_palette_are_one_access_late() {
    let mut ppu = ppu(Mirroring::Horizontal);
    point_at(&mut ppu, 0x0005);

    assert_eq!(ppu.read_data().unwrap(), 0);
    assert_eq!(ppu.read_data().unwrap(), 5);
    assert_eq!(ppu.read_data().unwrap(), 6);
}

#[test]
fn nametable_writes_read_back_through_the_mirror() {
    let mut ppu = ppu(Mirroring::Horizontal);
    point_at(&mut ppu, 0x2005);
    ppu.write_to_data(0x66).unwrap();

    point_at(&mut ppu, 0x2405);
    ppu.read_data().unwrap();
    assert_eq!(ppu.read_data().unwrap(), 0x66);
}

#[test]
fn the_control_register_chooses_the_address_step() {
    let mut ppu = ppu(Mirroring::Vertical);
    point_at(&mut ppu, 0x2000);
    ppu.write_to_data(1).unwrap();
    ppu.write_to_data(2).unwrap();
    ppu.write_to_ctrl(0b0000_0100);
    ppu.write_to_data(3).unwrap();
    ppu.write_to_data(4).unwrap();

    ppu.write_to_ctrl(0);
    point_at(&mut ppu, 0x2000);
    ppu.read_data().unwrap();
    assert_eq!(ppu.read_data().unwrap(), 1);
    assert_eq!(ppu.read_data().unwrap(), 2);
    assert_eq!(ppu.read_data().unwrap(), 3);
    point_at(&mut ppu, 0x2022);
    ppu.read_data().unwrap();
    assert_eq!(ppu.read_data().unwrap(), 4);
}

#[test]
fn palette_reads_are_immediate_and_mirrored() {
    let mut ppu = ppu(Mirroring::Horizontal);
    point_at(&mut ppu, 0x3F10);
    ppu.write_to_data(0x2A).unwrap();
    point_at(&mut ppu, 0x3F01);
    ppu.write_to_data(0x15).unwrap();

    point_at(&mut ppu, 0x3F00);
    assert_eq!(ppu.read_data().unwrap(), 0x2A);
    assert_eq!(ppu.read_data().unwrap(), 0x15);
    point_at(&mut ppu, 0x3F21);
    assert_eq!(ppu.read_data().unwrap(), 0x15);
}

#[test]
fn the_address_is_folded_into_fourteen_bits() {
    let mut ppu = ppu(Mirroring::Horizontal);
    point_at(&mut ppu, 0x7FFF);
    ppu.write_to_data(0x55).unwrap();

    point_at(&mut ppu, 0x3F1F);
    assert_eq!(ppu.read_data().unwrap(), 0x55);
}

#[test]
fn the_unused_region_and_the_space_above_are_illegal() {
    let mut ppu = ppu(Mirroring::Horizontal);

    point_at(&mut ppu, 0x3000);
    assert_eq!(ppu.write_to_data(1).err().unwrap().kind(), ErrorKind::Illegal);
    point_at(&mut ppu, 0x3EFF);
    assert_eq!(ppu.read_data().err().unwrap().kind(), ErrorKind::Illegal);

    // One step beyond the last palette cell.
    point_at(&mut ppu, 0x3FFF);
    ppu.write_to_data(1).unwrap();
    assert_eq!(ppu.write_to_data(1).err().unwrap().kind(), ErrorKind::Illegal);
}

#[test]
fn writes_to_the_character_rom_are_dropped() {
    let mut ppu = ppu(Mirroring::Horizontal);
    point_at(&mut ppu, 0x0005);
    ppu.write_to_data(0xEE).unwrap();

    point_at(&mut ppu, 0x0005);
    ppu.read_data().unwrap();
    assert_eq!(ppu.read_data().unwrap(), 5);
}

#[test]
fn reads_of_absent_character_rom_are_unsupported() {
    let mut ppu = Ppu::new(Rom::new(vec![]), Mirroring::Horizontal);
    point_at(&mut ppu, 0x0000);

    assert_eq!(ppu.read_data().err().unwrap().kind(), ErrorKind::Unsupported);
}

#[test]
fn sprite_memory_writes_advance_the_address_and_reads_do_not() {
    let mut ppu = ppu(Mirroring::Horizontal);
    ppu.write_to_oam_addr(0xFF);
    ppu.write_to_oam_data(0x66);
    ppu.write_to_oam_data(0x77);

    ppu.write_to_oam_addr(0xFF);
    assert_eq!(ppu.read_oam_data(), 0x66);
    assert_eq!(ppu.read_oam_data(), 0x66);
    ppu.write_to_oam_addr(0x00);
    assert_eq!(ppu.read_oam_data(), 0x77);
}

#[test]
fn a_sprite_page_is_copied_from_the_current_address_on() {
    let mut ppu = ppu(Mirroring::Horizontal);
    let mut page = [0u8; 256];
    for i in 0..256 {
        page[i] = i as u8;
    }
    ppu.write_to_oam_addr(0x10);

    ppu.write_oam_dma(&page);

    ppu.write_to_oam_addr(0x10);
    assert_eq!(ppu.read_oam_data(), 0);
    ppu.write_to_oam_addr(0x0F);
    assert_eq!(ppu.read_oam_data(), 255);
    ppu.write_to_oam_addr(0x11);
    assert_eq!(ppu.read_oam_data(), 1);
}

#[test]
fn scroll_writes_alternate() {
    let mut ppu = ppu(Mirroring::Horizontal);

    ppu.write_to_scroll(1);
    ppu.write_to_scroll(2);
    ppu.write_to_mask(0x1E);

    // Neither register can be read back; the writes must at least leave
    // the data port alone.
    point_at(&mut ppu, 0x3F00);
    assert_eq!(ppu.read_data().unwrap(), 0);
}

#[test]
fn vertical_blank_begins_on_scanline_241() {
    let mut ppu = ppu(Mirroring::Horizontal);
    ppu.write_to_ctrl(0x80);

    assert!(!ppu.tick(340));
    assert_eq!(ppu.read_status() & 0x80, 0);
    for _ in 0..240 {
        assert!(!ppu.tick(341));
    }
    assert_eq!(ppu.poll_nmi_interrupt(), None);
    assert!(!ppu.tick(1));
    assert_eq!(ppu.nmi_interrupt, Some(1));
    assert_eq!(ppu.poll_nmi_interrupt(), Some(1));
    assert_eq!(ppu.poll_nmi_interrupt(), None);
    assert_eq!(ppu.read_status() & 0x80, 0x80);
    assert_eq!(ppu.read_status() & 0x80, 0);
}

#[test]
fn the_frame_ends_after_262_scanlines() {
    let mut ppu = ppu(Mirroring::Horizontal);
    ppu.write_to_ctrl(0x80);

    for _ in 0..261 {
        assert!(!ppu.tick(341));
    }
    assert_eq!(ppu.nmi_interrupt, Some(1));
    assert!(ppu.tick(341));
    assert_eq!(ppu.nmi_interrupt, None);
    assert_eq!(ppu.read_status() & 0x80, 0);
    assert!(!ppu.tick(341));
}

#[test]
fn without_the_control_bit_vertical_blank_raises_no_interrupt() {
    let mut ppu = ppu(Mirroring::Horizontal);

    for _ in 0..241 {
        ppu.tick(341);
    }

    assert_eq!(ppu.nmi_interrupt, None);
}

#[test]
fn enabling_interrupts_during_vertical_blank_raises_one_at_once() {
    let mut ppu = ppu(Mirroring::Horizontal);
    for _ in 0..241 {
        ppu.tick(341);
    }
    assert_eq!(ppu.poll_nmi_interrupt(), None);

    ppu.write_to_ctrl(0x80);
    assert_eq!(ppu.poll_nmi_interrupt(), Some(1));

    // Only the change from off to on counts.
    ppu.write_to_ctrl(0x80);
    assert_eq!(ppu.poll_nmi_interrupt(), None);
}
