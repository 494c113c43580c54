use nes_emulator::io::{Read, Write};
use nes_emulator::text::{format_decimal, format_lower_hex, format_prefixed_hex};
use nes_emulator::{Bus, Cartridge, Component, Cpu, Error, ErrorKind, Ram};

fn bus() -> Bus {
    let mut data = vec![0x4E, 0x45, 0x53, 0x1A, 0, 0, 0, 0];
    data.resize(16, 0);
    Bus::new(&Cartridge::new(&data).unwrap())
}

#[test]
fn numbers_are_written_without_leading_zeros() {
    for number in [0u16, 1, 9, 10, 15, 16, 99, 100, 255, 256, 0x0ABC, 0xFFFF] {
        assert_eq!(format_lower_hex(number), format!("{:x}", number));
        assert_eq!(format_prefixed_hex(number), format!("{:#x}", number));
        assert_eq!(format_decimal(number), format!("{}", number));
    }
}

#[test]
fn the_processor_describes_its_registers() {
    let mut cpu = Cpu::new(bus());
    cpu.register_a.set(0x05);
    cpu.register_x.set(0xAB);
    cpu.program_counter.set(0x0600);

    assert_eq!(
        cpu.describe(),
        "CPU {
    registers: {
        a: 0x5
        x: 0xab            
        y: 0x0
    }
    program_counter: 0x600
    stack_pointer: 0xfd
    status: 0x24
}"
    );
}

#[test]
fn memory_describes_its_bytes() {
    let mut ram = Ram::default();
    ram.write(0, 7);
    ram.write(2, 255);
    ram.load(2045, &[1, 20, 100]);

    let text = ram.describe();

    let expected = ram.dump().iter().fold(String::new(), |acc, byte| format!("{acc} {byte}"));
    assert_eq!(text, format!("[{}]", expected));
    assert!(text.starts_with("[ 7 0 255 0 "));
    assert!(text.ends_with(" 0 1 20 100]"));
    assert_eq!(ram.read(2046), 20);
}

#[test]
fn errors_name_the_address_that_they_concern() {
    let mut bus = bus();

    let error = bus.write_byte(0x8000, 1).err().unwrap();
    assert_eq!(error.kind(), ErrorKind::Illegal);
    assert_eq!(error.message(), Some("attempted to write to cartridge ROM: 0x8000"));

    let error = bus.read_byte(0x6001).err().unwrap();
    assert_eq!(error.kind(), ErrorKind::Unsupported);
    assert!(error.message().unwrap().ends_with("0x6001"));

    let error = bus.read_byte(0x3FF8).err().unwrap();
    assert!(error.message().unwrap().ends_with("0x3ff8"));
}

#[test]
fn every_error_has_its_kind() {
    assert_eq!(Error::illegal("no").kind(), ErrorKind::Illegal);
    assert_eq!(Error::unsupported("no").kind(), ErrorKind::Unsupported);
    assert_eq!(Error::Uninitialized(String::from("no")).kind(), ErrorKind::Uninitialized);
    assert_eq!(Error::ExpectedParameter(3).kind(), ErrorKind::ExpectedParameter);
    assert_eq!(Error::ExpectedParameter(3).message(), None);
    let io = std::io::Error::new(std::io::ErrorKind::NotFound, "no such file");
    assert_eq!(Error::Io(io).kind(), ErrorKind::Io);
    assert_eq!(Error::illegal_at("at ", 0x10).message(), Some("at 0x10"));
    assert_eq!(Error::unsupported_at("at ", 0xABCD).message(), Some("at 0xabcd"));
}

#[test]
fn sixteen_bit_registers_count_in_a_circle() {
    let mut counter: Component<u16> = Component::new(u16::MAX);
    counter.increment();
    assert_eq!(counter.get(), 0);
    counter.decrement();
    assert_eq!(counter.get(), u16::MAX);
    counter.decrement();
    assert_eq!(counter.get(), u16::MAX - 1);
    counter.reset();
    assert_eq!(counter.get(), 0);
    counter.increment();
    assert_eq!(counter.get(), 1);

    let mut byte: Component<u8> = Component::new(9);
    byte.reset();
    assert_eq!(byte.get(), 0);
}
