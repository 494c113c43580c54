use vstd::prelude::*;
use vstd::string::StringExecFns;

pub mod addressing_mode;
pub mod execute;
pub mod flags;
pub mod instructions;
pub mod message;
pub mod opcode;
pub mod operation;
pub mod run;
pub mod state;


use crate::bus::{Bus, PROGRAM_LIMIT, PROGRAM_ROM_START};
use crate::rom::Rom;
use crate::text::{format_prefixed_hex, prefixed_hex};
use crate::cartridge::Cartridge;
use crate::component::Component;
use crate::error::{outcome, Result};
use crate::io::{Access, Read, Write};
use crate::ram::RAM_SIZE;
use flags::{with_zero_negative, CpuFlags, CARRY, NEGATIVE, ZERO};
use state::{CpuState, RESET_VECTOR, STACK_RESET};

verus! {

/// Where `load` puts the cartridge's program.
pub const LOAD_ADDRESS: u16 = 0x0600;

/// The processor. It owns the bus and reaches everything else through it.
#[derive(Debug)]
pub struct Cpu {
    pub register_a: Component<u8>,
    pub register_x: Component<u8>,
    pub register_y: Component<u8>,
    pub program_counter: Component<u16>,
    pub stack_pointer: Component<u8>,
    pub status: CpuFlags,
    pub bus: Bus,
}

impl View for Cpu {
    type V = CpuState;

    open spec fn view(&self) -> CpuState {
        CpuState {
            a: self.register_a.value(),
            x: self.register_x.value(),
            y: self.register_y.value(),
            pc: self.program_counter.value(),
            sp: self.stack_pointer.value(),
            status: self.status.bits(),
            bus: self.bus@,
        }
    }
}

impl Cpu {
    /// A processor in its reset state on `bus`, with the program counter at 0.
    pub fn new(bus: Bus) -> (cpu: Self)
        ensures
            cpu@ == CpuState::power_on(bus@),
    {
        Self {
            register_a: Component::new(0),
            register_x: Component::new(0),
            register_y: Component::new(0),
            program_counter: Component::new(0),
            stack_pointer: Component::new(STACK_RESET),
            status: CpuFlags::default(),
            bus,
        }
    }

    /// Swaps the cartridge: the bus starts over, the registers stay.
    pub fn load_cartridge(&mut self, cartridge: &Cartridge)
        ensures
            final(self)@ == (CpuState {
                bus: crate::bus::BusState::power_on(cartridge@),
                ..old(self)@
            }),
    {
        self.bus.load_cartridge(cartridge);
    }

    /// Puts `data` into the program ROM at `0x8000`, with the reset
    /// vector pointing there, and points the program counter there too.
    pub fn load_program(&mut self, data: &[u8])
        requires
            data@.len() <= PROGRAM_LIMIT,
        ensures
            final(self)@ == old(self)@.load_program(data@),
    {
        self.bus.load_program(data);
        self.program_counter.set(PROGRAM_ROM_START);
    }

    /// Puts the bytes of `rom` into the program ROM at `0x8000`, with
    /// the reset vector pointing there, and points the program counter
    /// there too.
    pub fn load_rom(&mut self, rom: &Rom)
        requires
            rom@.len() <= PROGRAM_LIMIT,
        ensures
            final(self)@ == old(self)@.load_program(rom@),
    {
        self.load_program(rom.as_slice());
    }

    /// Copies the program ROM to `LOAD_ADDRESS` through the bus and, if
    /// every byte was taken, points the program counter at it.
    pub fn load(&mut self) -> (r: Result<()>)
        ensures
            (final(self)@, outcome(r)) == old(self)@.load(),
    {
        match self.bus.load(LOAD_ADDRESS) {
            Ok(_) => {},
            Err(e) => {
                return Err(e);
            },
        }
        self.program_counter.set(LOAD_ADDRESS);

        Ok(())
    }

    /// Puts the registers into their reset state and starts at the
    /// address that the reset vector holds.
    pub fn reset(&mut self) -> (r: Result<()>)
        ensures
            (final(self)@, outcome(r)) == old(self)@.reset(),
    {
        self.register_a.reset();
        self.register_x.reset();
        self.register_y.reset();
        self.stack_pointer.set(STACK_RESET);
        self.status = self.status.reset();

        let start_addr = match self.mem_read_word(RESET_VECTOR) {
            Ok(word) => word,
            Err(e) => {
                return Err(e);
            },
        };
        self.program_counter.set(start_addr);

        Ok(())
    }

    /// The contents of work RAM.
    pub fn mem_dump(&self) -> (bytes: [u8; RAM_SIZE])
        ensures
            bytes@ == self@.bus.ram,
    {
        self.bus.dump()
    }

    /// Reads a byte through the bus.
    pub fn mem_read_byte(&mut self, addr: u16) -> (r: Result<u8>)
        ensures
            (final(self)@, outcome(r)) == old(self)@.read(addr),
            final(self)@ == (CpuState { bus: final(self)@.bus, ..old(self)@ }),
    {
        reveal(CpuState::read);
        self.bus.read_byte(addr)
    }

    /// Writes a byte through the bus.
    pub fn mem_write_byte(&mut self, addr: u16, byte: u8) -> (r: Result<()>)
        ensures
            (final(self)@, outcome(r)) == old(self)@.write(addr, byte),
            final(self)@ == (CpuState { bus: final(self)@.bus, ..old(self)@ }),
    {
        reveal(CpuState::write);
        self.bus.write_byte(addr, byte)
    }

    /// Reads a little-endian word through the bus.
    pub fn mem_read_word(&mut self, addr: u16) -> (r: Result<u16>)
        ensures
            (final(self)@, outcome(r)) == old(self)@.read_word(addr),
            final(self)@ == (CpuState { bus: final(self)@.bus, ..old(self)@ }),
    {
        reveal(CpuState::read_word);
        self.bus.read_word(addr)
    }

    /// Writes a little-endian word through the bus.
    pub fn mem_write_word(&mut self, addr: u16, word: u16) -> (r: Result<()>)
        ensures
            (final(self)@, outcome(r)) == old(self)@.write_word(addr, word),
            final(self)@ == (CpuState { bus: final(self)@.bus, ..old(self)@ }),
    {
        reveal(CpuState::write_word);
        self.bus.write_word(addr, word)
    }

    /// Lets `cycles` processor cycles pass.
    pub fn tick(&mut self, cycles: u8)
        ensures
            final(self)@ == old(self)@.tick(cycles as usize),
            final(self)@ == (CpuState { bus: final(self)@.bus, ..old(self)@ }),
    {
        reveal(CpuState::tick);
        self.bus.tick(cycles as usize);
    }

    /// Sets Carry.
    pub fn set_carry_flag(&mut self)
        ensures
            final(self)@ == old(self)@.with_status_flag(CARRY, true),
    {
        self.status.insert(CARRY);
    }

    /// Clears Carry.
    pub fn clear_carry_flag(&mut self)
        ensures
            final(self)@ == old(self)@.with_status_flag(CARRY, false),
    {
        self.status.remove(CARRY);
    }

    /// Sets Zero exactly when `result` is 0.
    pub fn update_zero_flag(&mut self, result: u8)
        ensures
            final(self)@ == old(self)@.with_status_flag(ZERO, result == 0),
    {
        if result == 0 {
            self.status.insert(ZERO);
        } else {
            self.status.remove(ZERO);
        }
    }

    /// Sets Negative exactly when the top bit of `result` is set.
    pub fn update_negative_flag(&mut self, result: u8)
        ensures
            final(self)@ == old(self)@.with_status_flag(NEGATIVE, result >= 0x80),
    {
        assert((result & 0b1000_0000 == 0) == (result < 0x80)) by (bit_vector);
        if result & 0b1000_0000 == 0 {
            self.status.remove(NEGATIVE);
        } else {
            self.status.insert(NEGATIVE);
        }
    }
}

impl Cpu {
    /// The registers, laid out for reading.
    pub open spec fn description(state: CpuState) -> Seq<char> {
        "CPU {\n    registers: {\n        a: "@ + prefixed_hex(state.a as nat)
            + "\n        x: "@ + prefixed_hex(state.x as nat) + "            \n        y: "@
            + prefixed_hex(state.y as nat) + "\n    }\n    program_counter: "@ + prefixed_hex(
            state.pc as nat,
        ) + "\n    stack_pointer: "@ + prefixed_hex(state.sp as nat) + "\n    status: "@
            + prefixed_hex(state.status as nat) + "\n}"@
    }

    /// Writes the registers down, one to a line, in hexadecimal.
    pub fn describe(&self) -> (text: String)
        ensures
            text@ == Self::description(self@),
    {
        let mut text = String::from_str("CPU {\n    registers: {\n        a: ");
        text.append(format_prefixed_hex(self.register_a.get() as u16).as_str());
        text.append("\n        x: ");
        text.append(format_prefixed_hex(self.register_x.get() as u16).as_str());
        text.append("            \n        y: ");
        text.append(format_prefixed_hex(self.register_y.get() as u16).as_str());
        text.append("\n    }\n    program_counter: ");
        text.append(format_prefixed_hex(self.program_counter.get()).as_str());
        text.append("\n    stack_pointer: ");
        text.append(format_prefixed_hex(self.stack_pointer.get() as u16).as_str());
        text.append("\n    status: ");
        text.append(format_prefixed_hex(self.status.bits() as u16).as_str());
        text.append("\n}");
        text
    }
}

impl Read for Cpu {
    open spec fn read_spec(state: CpuState, addr: u16) -> Access<CpuState, u8> {
        state.read(addr)
    }

    fn read_byte(&mut self, addr: u16) -> (r: Result<u8>) {
        reveal(CpuState::read);
        self.bus.read_byte(addr)
    }

    fn read_word(&mut self, addr: u16) -> (r: Result<u16>)
        ensures
            (final(self)@, outcome(r)) == old(self)@.read_word(addr),
    {
        reveal(CpuState::read);
        reveal(CpuState::read_word);
        self.bus.read_word(addr)
    }
}

impl Write for Cpu {
    open spec fn write_spec(state: CpuState, addr: u16, byte: u8) -> Access<CpuState, ()> {
        state.write(addr, byte)
    }

    fn write_byte(&mut self, addr: u16, byte: u8) -> (r: Result<()>) {
        reveal(CpuState::write);
        self.bus.write_byte(addr, byte)
    }

    fn write_word(&mut self, addr: u16, word: u16) -> (r: Result<()>)
        ensures
            (final(self)@, outcome(r)) == old(self)@.write_word(addr, word),
    {
        reveal(CpuState::write);
        reveal(CpuState::write_word);
        self.bus.write_word(addr, word)
    }
}

} // verus!
