use nes_emulator::trace::{format_byte, format_word, TraceLog};
use nes_emulator::{trace, Bus, Cartridge, Cpu, ErrorKind};

fn machine() -> Cpu {
    let mut data = vec![0x4E, 0x45, 0x53, 0x1A, 1, 0, 0, 0];
    data.resize(16, 0);
    let mut page = vec![0u8; 0x4000];
    // At 0xC000: JMP $C5F5, and at 0xC5F5: LDX #$00, STX $00.
    page[0x0000] = 0x4C;
    page[0x0001] = 0xF5;
    page[0x0002] = 0xC5;
    page[0x05F5] = 0xA2;
    page[0x05F6] = 0x00;
    page[0x05F7] = 0x86;
    page[0x05F8] = 0x00;
    page[0x05F9] = 0x00;
    data.extend(page);
    Cpu::new(Bus::new(&Cartridge::new(&data).unwrap()))
}

fn machine_with(at: u16, program: &[u8]) -> Cpu {
    let mut cpu = machine();
    for (i, byte) in program.iter().enumerate() {
        cpu.mem_write_byte(at + i as u16, *byte).unwrap();
    }
    cpu.program_counter.set(at);
    cpu
}

#[test]
fn hexadecimal_is_upper_case_and_zero_padded() {
    assert_eq!(format_byte(0x00), "00");
    assert_eq!(format_byte(0x0A), "0A");
    assert_eq!(format_byte(0xF1), "F1");
    assert_eq!(format_byte(0x9C), "9C");
    assert_eq!(format_word(0x0000), "0000");
    assert_eq!(format_word(0x01AB), "01AB");
    assert_eq!(format_word(0xFEDC), "FEDC");
    assert_eq!(format_word(0x2345), "2345");
    assert_eq!(format_word(0x6789), "6789");
}

#[test]
fn trace_follows_the_reference_log() {
    let mut cpu = machine();
    cpu.program_counter.set(0xC000);
    let mut log = TraceLog::new();

    cpu.run_with_callback(&mut log).unwrap();

    assert_eq!(
        log.lines,
        vec![
            "C000  4C F5 C5  JMP $C5F5                       A:00 X:00 Y:00 P:24 SP:FD",
            "C5F5  A2 00     LDX #$00                        A:00 X:00 Y:00 P:24 SP:FD",
            "C5F7  86 00     STX $00 = 00                    A:00 X:00 Y:00 P:26 SP:FD",
            "C5F9  00        BRK                             A:00 X:00 Y:00 P:26 SP:FD",
        ]
    );
}

#[test]
fn trace_shows_implied_and_immediate_instructions() {
    let mut cpu = machine_with(0x0064, &[0xA2, 0x01, 0xCA, 0x88, 0x00]);
    cpu.register_a.set(1);
    cpu.register_x.set(2);
    cpu.register_y.set(3);
    let mut log = TraceLog::new();

    cpu.run_with_callback(&mut log).unwrap();

    assert_eq!(
        "0064  A2 01     LDX #$01                        A:01 X:02 Y:03 P:24 SP:FD",
        log.lines[0]
    );
    assert_eq!(
        "0066  CA        DEX                             A:01 X:01 Y:03 P:24 SP:FD",
        log.lines[1]
    );
    assert_eq!(
        "0067  88        DEY                             A:01 X:00 Y:03 P:26 SP:FD",
        log.lines[2]
    );
}

#[test]
fn trace_shows_what_the_operand_holds() {
    // ORA ($33),Y with the pointer at 0x33 leading to 0x0400.
    let mut cpu = machine_with(0x0064, &[0x11, 0x33]);
    cpu.mem_write_byte(0x0033, 0x00).unwrap();
    cpu.mem_write_byte(0x0034, 0x04).unwrap();
    cpu.mem_write_byte(0x0400, 0xAA).unwrap();

    assert_eq!(
        trace(&mut cpu).unwrap(),
        "0064  11 33     ORA ($33),Y = 0400 @ 0400 = AA  A:00 X:00 Y:00 P:24 SP:FD"
    );
}

#[test]
fn trace_writes_every_addressing_mode_its_own_way() {
    let cases: [(&[u8], &str); 14] = [
        (&[0xA5, 0x10], "0400  A5 10     LDA $10 = 5A"),
        (&[0xB5, 0x0E], "0400  B5 0E     LDA $0E,X @ 10 = 5A"),
        (&[0xB6, 0x0D], "0400  B6 0D     LDX $0D,Y @ 10 = 5A"),
        (&[0xAD, 0x10, 0x02], "0400  AD 10 02  LDA $0210 = 6B"),
        (&[0xBD, 0x0E, 0x02], "0400  BD 0E 02  LDA $020E,X @ 0210 = 6B"),
        (&[0xB9, 0x0D, 0x02], "0400  B9 0D 02  LDA $020D,Y @ 0210 = 6B"),
        (&[0xA1, 0x1E], "0400  A1 1E     LDA ($1E,X) @ 20 = 0210 = 6B"),
        (&[0xB1, 0x22], "0400  B1 22     LDA ($22),Y = 020D @ 0210 = 6B"),
        (&[0x0A], "0400  0A        ASL A"),
        (&[0xD0, 0xFE], "0400  D0 FE     BNE $0400"),
        (&[0x20, 0x34, 0x12], "0400  20 34 12  JSR $1234"),
        (&[0x6C, 0x20, 0x00], "0400  6C 20 00  JMP ($0020) = 0210"),
        (&[0xA7, 0x10], "0400  A7 10    *LAX $10 = 5A"),
        (&[0x1A], "0400  1A       *NOP"),
    ];
    for (program, expected) in cases {
        let mut cpu = machine_with(0x0400, program);
        cpu.register_x.set(2);
        cpu.register_y.set(3);
        cpu.mem_write_byte(0x0010, 0x5A).unwrap();
        cpu.mem_write_byte(0x0210, 0x6B).unwrap();
        cpu.mem_write_word(0x0020, 0x0210).unwrap();
        cpu.mem_write_word(0x0022, 0x020D).unwrap();
        let cycles = cpu.bus.cycles();

        let line = trace(&mut cpu).unwrap();

        assert_eq!(line.len(), 73);
        assert_eq!(&line[..47], format!("{:47}", expected));
        assert_eq!(&line[47..], " A:00 X:02 Y:03 P:24 SP:FD");
        assert_eq!(cpu.bus.cycles(), cycles);
        assert_eq!(cpu.program_counter.get(), 0x0400);
    }
}

#[test]
fn trace_shows_the_flaw_of_the_indirect_jump() {
    let mut cpu = machine_with(0x0400, &[0x6C, 0xFF, 0x02]);
    cpu.mem_write_byte(0x02FF, 0x34).unwrap();
    cpu.mem_write_byte(0x0200, 0x12).unwrap();
    cpu.mem_write_byte(0x0300, 0x56).unwrap();

    let line = trace(&mut cpu).unwrap();

    assert!(line.starts_with("0400  6C FF 02  JMP ($02FF) = 1234  "));
}

#[test]
fn trace_fails_where_the_bus_fails() {
    let mut cpu = machine_with(0x0400, &[0xAD, 0x00, 0x60]);
    assert_eq!(trace(&mut cpu).err().unwrap().kind(), ErrorKind::Unsupported);

    let mut cpu = machine_with(0x0400, &[0xAD, 0x00, 0x20]);
    assert_eq!(trace(&mut cpu).err().unwrap().kind(), ErrorKind::Illegal);

    let mut cpu = machine();
    cpu.program_counter.set(0x4020);
    assert_eq!(trace(&mut cpu).err().unwrap().kind(), ErrorKind::Unsupported);
}

#[test]
fn the_previewed_operand_is_the_one_that_the_instruction_reads() {
    let programs: [&[u8]; 8] = [
        &[0xA5, 0x10],
        &[0xB5, 0x0E],
        &[0xB6, 0x0D],
        &[0xAD, 0x10, 0x02],
        &[0xBD, 0x0E, 0x02],
        &[0xB9, 0x0D, 0x02],
        &[0xA1, 0x1E],
        &[0xB1, 0x22],
    ];
    for program in programs {
        let mut cpu = machine_with(0x0400, program);
        cpu.register_x.set(2);
        cpu.register_y.set(3);
        cpu.mem_write_byte(0x0010, 0x5A).unwrap();
        cpu.mem_write_byte(0x0210, 0x6B).unwrap();
        cpu.mem_write_word(0x0020, 0x0210).unwrap();
        cpu.mem_write_word(0x0022, 0x020D).unwrap();

        let line = trace(&mut cpu).unwrap();
        cpu.execute_next().unwrap();

        let loaded = if program[0] == 0xB6 { cpu.register_x.get() } else { cpu.register_a.get() };
        let shown = line[..47].trim_end();
        assert!(shown.ends_with(&format!("= {:02X}", loaded)), "{line}");
    }
}
