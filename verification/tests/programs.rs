use nes_emulator::error::Result;
use nes_emulator::{Bus, Cartridge, Cpu, Rom};

fn test_data() -> Vec<Rom> {
    vec![
        Rom::new(vec![0xA9, 0x05, 0x00]),
        Rom::new(vec![0xA9, 0x00, 0x00]),
        Rom::new(vec![0xa9, 0x02, 0xaa, 0x00]),
        Rom::new(vec![0xa9, 0x02, 0xaa, 0xe8, 0x00]),
    ]
}

/// A cartridge without any ROM.
fn no_cartridge() -> Cartridge {
    let mut data = vec![0x4E, 0x45, 0x53, 0x1A, 0x00, 0x00, 0x00, 0x00];
    data.resize(16, 0);
    Cartridge::new(&data).unwrap()
}

// Executes the Rom and returns the Cpu
fn run(rom: &Rom) -> Result<Cpu> {
    let bus = Bus::new(&no_cartridge());
    let mut cpu = Cpu::new(bus);

    cpu.load_rom(rom);
    cpu.run()?;

    Ok(cpu)
}

/// An iNES image with one program ROM page that holds `program` at its
/// start, and the reset vector pointing there.
fn image(program: &[u8]) -> Vec<u8> {
    let mut data = vec![0x4E, 0x45, 0x53, 0x1A, 0x01, 0x00, 0x00, 0x00];
    data.resize(16, 0);
    let mut page = vec![0u8; 0x4000];
    page[..program.len()].copy_from_slice(program);
    page[0x3FFC] = 0x00;
    page[0x3FFD] = 0x80;
    data.extend_from_slice(&page);
    data
}

// Executes the program of a cartridge from its reset vector
fn run_from_reset(program: &[u8]) -> Result<Cpu> {
    let cartridge = Cartridge::new(&image(program))?;
    let bus = Bus::new(&cartridge);
    let mut cpu = Cpu::new(bus);

    cpu.reset()?;
    cpu.run()?;

    Ok(cpu)
}

#[test]
fn ensure_0xa9_lda_immidiate_load_data() -> Result<()> {
    let cpu = run(&test_data()[0])?;

    let status = cpu.status.bits();
    let register_a = cpu.register_a.get();

    assert_eq!(register_a, 0x05);
    assert!(status & 0b0000_0010 == 0b00);
    assert!(status & 0b1000_0000 == 0);

    Ok(())
}

#[test]
fn ensure_0xa9_lda_zero_flag() -> Result<()> {
    let cpu = run(&test_data()[1])?;

    let status = cpu.status.bits();
    assert!(status & 0b0000_0010 == 0b10);

    Ok(())
}

#[test]
fn ensure_0xaa_moves_a_to_x() -> Result<()> {
    let cpu = run(&test_data()[2])?;

    let register_x = cpu.register_x.get();
    assert_eq!(register_x, 2);

    Ok(())
}

#[test]
fn ensure_0xe8_increments_the_x_register() -> Result<()> {
    let cpu = run(&test_data()[3])?;

    let register_x = cpu.register_x.get();
    assert_eq!(register_x, 3);
    Ok(())
}

#[test]
fn lda_immediate_from_the_reset_vector() -> Result<()> {
    let cpu = run_from_reset(&[0xA9, 0x05, 0x00])?;

    assert_eq!(cpu.register_a.get(), 0x05);
    assert!(cpu.status.bits() & 0b0000_0010 == 0);
    assert!(cpu.status.bits() & 0b1000_0000 == 0);
    assert_eq!(cpu.program_counter.get(), 0x8003);
    Ok(())
}

#[test]
fn lda_of_zero_sets_the_zero_flag() -> Result<()> {
    let cpu = run_from_reset(&[0xA9, 0x00, 0x00])?;

    assert_eq!(cpu.register_a.get(), 0x00);
    assert!(cpu.status.bits() & 0b0000_0010 != 0);
    Ok(())
}

#[test]
fn lda_then_tax_leaves_both_registers_loaded() -> Result<()> {
    let cpu = run_from_reset(&[0xa9, 0x02, 0xaa, 0x00])?;

    assert_eq!(cpu.register_a.get(), 0x02);
    assert_eq!(cpu.register_x.get(), 0x02);
    Ok(())
}

#[test]
fn lda_tax_inx_counts_to_three() -> Result<()> {
    let cpu = run_from_reset(&[0xa9, 0x02, 0xaa, 0xe8, 0x00])?;

    assert_eq!(cpu.register_x.get(), 0x03);
    Ok(())
}

#[test]
fn adc_of_two_positive_bytes_overflows_into_the_sign() -> Result<()> {
    let cpu = run_from_reset(&[0x18, 0xA9, 0x50, 0x69, 0x50, 0x00])?;

    let status = cpu.status.bits();
    assert_eq!(cpu.register_a.get(), 0xA0);
    assert!(status & 0b0100_0000 != 0);
    assert!(status & 0b1000_0000 != 0);
    assert!(status & 0b0000_0001 == 0);
    Ok(())
}

#[test]
fn load_program_maps_the_program_and_the_reset_vector() -> Result<()> {
    let mut cpu = Cpu::new(Bus::new(&no_cartridge()));

    cpu.load_program(&[0xE8, 0x00]);

    assert_eq!(cpu.program_counter.get(), 0x8000);
    assert_eq!(cpu.mem_read_byte(0x8000)?, 0xE8);
    assert_eq!(cpu.mem_read_byte(0x8002)?, 0x00);
    assert_eq!(cpu.mem_read_word(0xFFFC)?, 0x8000);
    assert_eq!(cpu.mem_read_byte(0xFFFF)?, 0x00);
    cpu.program_counter.set(0);
    cpu.reset()?;
    assert_eq!(cpu.program_counter.get(), 0x8000);
    Ok(())
}

#[test]
fn a_counting_loop_adds_up() -> Result<()> {
    // LDX #$0A; LDA #$00; CLC; loop: ADC #$03; DEX; BNE loop; BRK
    let program = [0xA2, 0x0A, 0xA9, 0x00, 0x18, 0x69, 0x03, 0xCA, 0xD0, 0xFB, 0x00];
    let mut cpu = Cpu::new(Bus::new(&no_cartridge()));
    cpu.load_program(&program);

    cpu.run()?;

    assert_eq!(cpu.register_a.get(), 30);
    assert_eq!(cpu.register_x.get(), 0);
    assert_eq!(cpu.program_counter.get(), 0x800B);
    // Three loads and flags at two cycles each, ten rounds of ADC and
    // DEX at two cycles each, nine branches taken and one not.
    assert_eq!(cpu.bus.cycles(), 6 + 10 * 4 + 9 * 3 + 2);
    Ok(())
}

#[test]
fn a_subroutine_fills_memory_through_a_pointer() -> Result<()> {
    // LDA #$00; STA $10; LDA #$02; STA $11; LDY #$00; JSR fill; BRK
    // fill: LDA #$AB; next: STA ($10),Y; INY; CPY #$04; BNE next; RTS
    let program = [
        0xA9, 0x00, 0x85, 0x10, 0xA9, 0x02, 0x85, 0x11, 0xA0, 0x00, 0x20, 0x0E, 0x80, 0x00, 0xA9,
        0xAB, 0x91, 0x10, 0xC8, 0xC0, 0x04, 0xD0, 0xF9, 0x60,
    ];
    let mut cpu = Cpu::new(Bus::new(&no_cartridge()));
    cpu.load_program(&program);

    cpu.run()?;

    for addr in 0x0200..0x0204 {
        assert_eq!(cpu.mem_read_byte(addr)?, 0xAB);
    }
    assert_eq!(cpu.mem_read_byte(0x0204)?, 0x00);
    assert_eq!(cpu.register_y.get(), 4);
    assert_eq!(cpu.stack_pointer.get(), 0xFD);
    assert_eq!(cpu.program_counter.get(), 0x800E);
    Ok(())
}
