//! The core of an emulator for the 6502 processor as the Nintendo
//! Entertainment System uses it: the instruction interpreter, the bus
//! that maps work RAM, the picture unit and the cartridge into the
//! processor's address space, the cartridge parser, and the trace
//! formatter. Every state transition is stated over plain values and
//! proved of the code that performs it.
pub mod bits;
pub mod bus;
pub mod cartridge;
pub mod component;
pub mod cpu;
pub mod error;
pub mod interrupt;
pub mod io;
pub mod laws;
pub mod ppu;
pub mod ram;
pub mod rom;
pub mod text;
pub mod trace;

pub use bus::Bus;
pub use cartridge::{Cartridge, Mirroring};
pub use component::Component;
pub use cpu::addressing_mode::AddressingMode;
pub use cpu::flags::CpuFlags;
pub use cpu::message::CpuMessage;
pub use cpu::opcode::OpCode;
pub use cpu::Cpu;
pub use error::{Error, ErrorKind};
pub use interrupt::{Interrupt, InterruptType};
pub use ppu::Ppu;
pub use ram::Ram;
pub use rom::Rom;
pub use trace::trace;
