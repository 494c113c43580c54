use vstd::prelude::*;
use crate::cpu::addressing_mode::AddressingMode;

verus! {

/// One row of the instruction table.
#[derive(Clone, Copy, Debug)]
pub struct OpCode {
    pub code: u8,
    /// The assembler's name for the instruction; unofficial ones start with `*`.
    pub mnemonic: &'static str,
    /// Bytes that the instruction takes, the opcode byte included.
    pub len: u8,
    /// Cycles that the instruction takes before any penalty.
    pub cycles: u8,
    pub mode: AddressingMode,
}

impl OpCode {
    pub fn new(code: u8, mnemonic: &'static str, len: u8, cycles: u8, mode: AddressingMode) -> (op:
        Self)
        ensures
            op == (OpCode { code, mnemonic, len, cycles, mode }),
    {
        Self { code, mnemonic, len, cycles, mode }
    }

    pub fn code(&self) -> (code: u8)
        ensures
            code == self.code,
    {
        self.code
    }

    pub fn mnemonic(&self) -> (mnemonic: &'static str)
        ensures
            mnemonic == self.mnemonic,
    {
        self.mnemonic
    }

    pub fn len(&self) -> (len: u8)
        ensures
            len == self.len,
    {
        self.len
    }

    pub fn cycles(&self) -> (cycles: u8)
        ensures
            cycles == self.cycles,
    {
        self.cycles
    }

    pub fn mode(&self) -> (mode: AddressingMode)
        ensures
            mode == self.mode,
    {
        self.mode
    }

    /// The table row of an opcode byte. Every byte has one.
    pub fn lookup(code: u8) -> (op: Self)
        ensures
            op == opcode_entry(code),
    {
        reveal(opcode_entry);
        match code / 16 {
            0x0 => Self::lookup_row_0(code),
            0x1 => Self::lookup_row_1(code),
            0x2 => Self::lookup_row_2(code),
            0x3 => Self::lookup_row_3(code),
            0x4 => Self::lookup_row_4(code),
            0x5 => Self::lookup_row_5(code),
            0x6 => Self::lookup_row_6(code),
            0x7 => Self::lookup_row_7(code),
            0x8 => Self::lookup_row_8(code),
            0x9 => Self::lookup_row_9(code),
            0xA => Self::lookup_row_a(code),
            0xB => Self::lookup_row_b(code),
            0xC => Self::lookup_row_c(code),
            0xD => Self::lookup_row_d(code),
            0xE => Self::lookup_row_e(code),
            _ => Self::lookup_row_f(code),
        }
    }

    fn lookup_row_0(code: u8) -> (op: Self)
        requires
            code / 16 == 0x0,
        ensures
            op == opcode_row_0(code),
    {
        match code {
            0x00 => OpCode::new(code, "BRK", 1, 7, AddressingMode::NoneAddressing),
            0x01 => OpCode::new(code, "ORA", 2, 6, AddressingMode::IndirectX),
            0x02 => OpCode::new(code, "*NOP", 1, 2, AddressingMode::NoneAddressing),
            0x03 => OpCode::new(code, "*SLO", 2, 8, AddressingMode::IndirectX),
            0x04 => OpCode::new(code, "*NOP", 2, 3, AddressingMode::ZeroPage),
            0x05 => OpCode::new(code, "ORA", 2, 3, AddressingMode::ZeroPage),
            0x06 => OpCode::new(code, "ASL", 2, 5, AddressingMode::ZeroPage),
            0x07 => OpCode::new(code, "*SLO", 2, 5, AddressingMode::ZeroPage),
            0x08 => OpCode::new(code, "PHP", 1, 3, AddressingMode::NoneAddressing),
            0x09 => OpCode::new(code, "ORA", 2, 2, AddressingMode::Immediate),
            0x0A => OpCode::new(code, "ASL", 1, 2, AddressingMode::NoneAddressing),
            0x0B => OpCode::new(code, "*ANC", 2, 2, AddressingMode::Immediate),
            0x0C => OpCode::new(code, "*NOP", 3, 4, AddressingMode::Absolute),
            0x0D => OpCode::new(code, "ORA", 3, 4, AddressingMode::Absolute),
            0x0E => OpCode::new(code, "ASL", 3, 6, AddressingMode::Absolute),
            _ => OpCode::new(code, "*SLO", 3, 6, AddressingMode::Absolute),
        }
    }

    fn lookup_row_1(code: u8) -> (op: Self)
        requires
            code / 16 == 0x1,
        ensures
            op == opcode_row_1(code),
    {
        match code {
            0x10 => OpCode::new(code, "BPL", 2, 2, AddressingMode::NoneAddressing),
            0x11 => OpCode::new(code, "ORA", 2, 5, AddressingMode::IndirectY),
            0x12 => OpCode::new(code, "*NOP", 1, 2, AddressingMode::NoneAddressing),
            0x13 => OpCode::new(code, "*SLO", 2, 8, AddressingMode::IndirectY),
            0x14 => OpCode::new(code, "*NOP", 2, 4, AddressingMode::ZeroPageX),
            0x15 => OpCode::new(code, "ORA", 2, 4, AddressingMode::ZeroPageX),
            0x16 => OpCode::new(code, "ASL", 2, 6, AddressingMode::ZeroPageX),
            0x17 => OpCode::new(code, "*SLO", 2, 6, AddressingMode::ZeroPageX),
            0x18 => OpCode::new(code, "CLC", 1, 2, AddressingMode::NoneAddressing),
            0x19 => OpCode::new(code, "ORA", 3, 4, AddressingMode::AbsoluteY),
            0x1A => OpCode::new(code, "*NOP", 1, 2, AddressingMode::NoneAddressing),
            0x1B => OpCode::new(code, "*SLO", 3, 7, AddressingMode::AbsoluteY),
            0x1C => OpCode::new(code, "*NOP", 3, 4, AddressingMode::AbsoluteX),
            0x1D => OpCode::new(code, "ORA", 3, 4, AddressingMode::AbsoluteX),
            0x1E => OpCode::new(code, "ASL", 3, 7, AddressingMode::AbsoluteX),
            _ => OpCode::new(code, "*SLO", 3, 7, AddressingMode::AbsoluteX),
        }
    }

    fn lookup_row_2(code: u8) -> (op: Self)
        requires
            code / 16 == 0x2,
        ensures
            op == opcode_row_2(code),
    {
        match code {
            0x20 => OpCode::new(code, "JSR", 3, 6, AddressingMode::NoneAddressing),
            0x21 => OpCode::new(code, "AND", 2, 6, AddressingMode::IndirectX),
            0x22 => OpCode::new(code, "*NOP", 1, 2, AddressingMode::NoneAddressing),
            0x23 => OpCode::new(code, "*RLA", 2, 8, AddressingMode::IndirectX),
            0x24 => OpCode::new(code, "BIT", 2, 3, AddressingMode::ZeroPage),
            0x25 => OpCode::new(code, "AND", 2, 3, AddressingMode::ZeroPage),
            0x26 => OpCode::new(code, "ROL", 2, 5, AddressingMode::ZeroPage),
            0x27 => OpCode::new(code, "*RLA", 2, 5, AddressingMode::ZeroPage),
            0x28 => OpCode::new(code, "PLP", 1, 4, AddressingMode::NoneAddressing),
            0x29 => OpCode::new(code, "AND", 2, 2, AddressingMode::Immediate),
            0x2A => OpCode::new(code, "ROL", 1, 2, AddressingMode::NoneAddressing),
            0x2B => OpCode::new(code, "*ANC", 2, 2, AddressingMode::Immediate),
            0x2C => OpCode::new(code, "BIT", 3, 4, AddressingMode::Absolute),
            0x2D => OpCode::new(code, "AND", 3, 4, AddressingMode::Absolute),
            0x2E => OpCode::new(code, "ROL", 3, 6, AddressingMode::Absolute),
            _ => OpCode::new(code, "*RLA", 3, 6, AddressingMode::Absolute),
        }
    }

    fn lookup_row_3(code: u8) -> (op: Self)
        requires
            code / 16 == 0x3,
        ensures
            op == opcode_row_3(code),
    {
        match code {
            0x30 => OpCode::new(code, "BMI", 2, 2, AddressingMode::NoneAddressing),
            0x31 => OpCode::new(code, "AND", 2, 5, AddressingMode::IndirectY),
            0x32 => OpCode::new(code, "*NOP", 1, 2, AddressingMode::NoneAddressing),
            0x33 => OpCode::new(code, "*RLA", 2, 8, AddressingMode::IndirectY),
            0x34 => OpCode::new(code, "*NOP", 2, 4, AddressingMode::ZeroPageX),
            0x35 => OpCode::new(code, "AND", 2, 4, AddressingMode::ZeroPageX),
            0x36 => OpCode::new(code, "ROL", 2, 6, AddressingMode::ZeroPageX),
            0x37 => OpCode::new(code, "*RLA", 2, 6, AddressingMode::ZeroPageX),
            0x38 => OpCode::new(code, "SEC", 1, 2, AddressingMode::NoneAddressing),
            0x39 => OpCode::new(code, "AND", 3, 4, AddressingMode::AbsoluteY),
            0x3A => OpCode::new(code, "*NOP", 1, 2, AddressingMode::NoneAddressing),
            0x3B => OpCode::new(code, "*RLA", 3, 7, AddressingMode::AbsoluteY),
            0x3C => OpCode::new(code, "*NOP", 3, 4, AddressingMode::AbsoluteX),
            0x3D => OpCode::new(code, "AND", 3, 4, AddressingMode::AbsoluteX),
            0x3E => OpCode::new(code, "ROL", 3, 7, AddressingMode::AbsoluteX),
            _ => OpCode::new(code, "*RLA", 3, 7, AddressingMode::AbsoluteX),
        }
    }

    fn lookup_row_4(code: u8) -> (op: Self)
        requires
            code / 16 == 0x4,
        ensures
            op == opcode_row_4(code),
    {
        match code {
            0x40 => OpCode::new(code, "RTI", 1, 6, AddressingMode::NoneAddressing),
            0x41 => OpCode::new(code, "EOR", 2, 6, AddressingMode::IndirectX),
            0x42 => OpCode::new(code, "*NOP", 1, 2, AddressingMode::NoneAddressing),
            0x43 => OpCode::new(code, "*SRE", 2, 8, AddressingMode::IndirectX),
            0x44 => OpCode::new(code, "*NOP", 2, 3, AddressingMode::ZeroPage),
            0x45 => OpCode::new(code, "EOR", 2, 3, AddressingMode::ZeroPage),
            0x46 => OpCode::new(code, "LSR", 2, 5, AddressingMode::ZeroPage),
            0x47 => OpCode::new(code, "*SRE", 2, 5, AddressingMode::ZeroPage),
            0x48 => OpCode::new(code, "PHA", 1, 3, AddressingMode::NoneAddressing),
            0x49 => OpCode::new(code, "EOR", 2, 2, AddressingMode::Immediate),
            0x4A => OpCode::new(code, "LSR", 1, 2, AddressingMode::NoneAddressing),
            0x4B => OpCode::new(code, "*ALR", 2, 2, AddressingMode::Immediate),
            0x4C => OpCode::new(code, "JMP", 3, 3, AddressingMode::NoneAddressing),
            0x4D => OpCode::new(code, "EOR", 3, 4, AddressingMode::Absolute),
            0x4E => OpCode::new(code, "LSR", 3, 6, AddressingMode::Absolute),
            _ => OpCode::new(code, "*SRE", 3, 6, AddressingMode::Absolute),
        }
    }

    fn lookup_row_5(code: u8) -> (op: Self)
        requires
            code / 16 == 0x5,
        ensures
            op == opcode_row_5(code),
    {
        match code {
            0x50 => OpCode::new(code, "BVC", 2, 2, AddressingMode::NoneAddressing),
            0x51 => OpCode::new(code, "EOR", 2, 5, AddressingMode::IndirectY),
            0x52 => OpCode::new(code, "*NOP", 1, 2, AddressingMode::NoneAddressing),
            0x53 => OpCode::new(code, "*SRE", 2, 8, AddressingMode::IndirectY),
            0x54 => OpCode::new(code, "*NOP", 2, 4, AddressingMode::ZeroPageX),
            0x55 => OpCode::new(code, "EOR", 2, 4, AddressingMode::ZeroPageX),
            0x56 => OpCode::new(code, "LSR", 2, 6, AddressingMode::ZeroPageX),
            0x57 => OpCode::new(code, "*SRE", 2, 6, AddressingMode::ZeroPageX),
            0x58 => OpCode::new(code, "CLI", 1, 2, AddressingMode::NoneAddressing),
            0x59 => OpCode::new(code, "EOR", 3, 4, AddressingMode::AbsoluteY),
            0x5A => OpCode::new(code, "*NOP", 1, 2, AddressingMode::NoneAddressing),
            0x5B => OpCode::new(code, "*SRE", 3, 7, AddressingMode::AbsoluteY),
            0x5C => OpCode::new(code, "*NOP", 3, 4, AddressingMode::AbsoluteX),
            0x5D => OpCode::new(code, "EOR", 3, 4, AddressingMode::AbsoluteX),
            0x5E => OpCode::new(code, "LSR", 3, 7, AddressingMode::AbsoluteX),
            _ => OpCode::new(code, "*SRE", 3, 7, AddressingMode::AbsoluteX),
        }
    }

    fn lookup_row_6(code: u8) -> (op: Self)
        requires
            code / 16 == 0x6,
        ensures
            op == opcode_row_6(code),
    {
        match code {
            0x60 => OpCode::new(code, "RTS", 1, 6, AddressingMode::NoneAddressing),
            0x61 => OpCode::new(code, "ADC", 2, 6, AddressingMode::IndirectX),
            0x62 => OpCode::new(code, "*NOP", 1, 2, AddressingMode::NoneAddressing),
            0x63 => OpCode::new(code, "*RRA", 2, 8, AddressingMode::IndirectX),
            0x64 => OpCode::new(code, "*NOP", 2, 3, AddressingMode::ZeroPage),
            0x65 => OpCode::new(code, "ADC", 2, 3, AddressingMode::ZeroPage),
            0x66 => OpCode::new(code, "ROR", 2, 5, AddressingMode::ZeroPage),
            0x67 => OpCode::new(code, "*RRA", 2, 5, AddressingMode::ZeroPage),
            0x68 => OpCode::new(code, "PLA", 1, 4, AddressingMode::NoneAddressing),
            0x69 => OpCode::new(code, "ADC", 2, 2, AddressingMode::Immediate),
            0x6A => OpCode::new(code, "ROR", 1, 2, AddressingMode::NoneAddressing),
            0x6B => OpCode::new(code, "*ARR", 2, 2, AddressingMode::Immediate),
            0x6C => OpCode::new(code, "JMP", 3, 5, AddressingMode::NoneAddressing),
            0x6D => OpCode::new(code, "ADC", 3, 4, AddressingMode::Absolute),
            0x6E => OpCode::new(code, "ROR", 3, 6, AddressingMode::Absolute),
            _ => OpCode::new(code, "*RRA", 3, 6, AddressingMode::Absolute),
        }
    }

    fn lookup_row_7(code: u8) -> (op: Self)
        requires
            code / 16 == 0x7,
        ensures
            op == opcode_row_7(code),
    {
        match code {
            0x70 => OpCode::new(code, "BVS", 2, 2, AddressingMode::NoneAddressing),
            0x71 => OpCode::new(code, "ADC", 2, 5, AddressingMode::IndirectY),
            0x72 => OpCode::new(code, "*NOP", 1, 2, AddressingMode::NoneAddressing),
            0x73 => OpCode::new(code, "*RRA", 2, 8, AddressingMode::IndirectY),
            0x74 => OpCode::new(code, "*NOP", 2, 4, AddressingMode::ZeroPageX),
            0x75 => OpCode::new(code, "ADC", 2, 4, AddressingMode::ZeroPageX),
            0x76 => OpCode::new(code, "ROR", 2, 6, AddressingMode::ZeroPageX),
            0x77 => OpCode::new(code, "*RRA", 2, 6, AddressingMode::ZeroPageX),
            0x78 => OpCode::new(code, "SEI", 1, 2, AddressingMode::NoneAddressing),
            0x79 => OpCode::new(code, "ADC", 3, 4, AddressingMode::AbsoluteY),
            0x7A => OpCode::new(code, "*NOP", 1, 2, AddressingMode::NoneAddressing),
            0x7B => OpCode::new(code, "*RRA", 3, 7, AddressingMode::AbsoluteY),
            0x7C => OpCode::new(code, "*NOP", 3, 4, AddressingMode::AbsoluteX),
            0x7D => OpCode::new(code, "ADC", 3, 4, AddressingMode::AbsoluteX),
            0x7E => OpCode::new(code, "ROR", 3, 7, AddressingMode::AbsoluteX),
            _ => OpCode::new(code, "*RRA", 3, 7, AddressingMode::AbsoluteX),
        }
    }

    fn lookup_row_8(code: u8) -> (op: Self)
        requires
            code / 16 == 0x8,
        ensures
            op == opcode_row_8(code),
    {
        match code {
            0x80 => OpCode::new(code, "*NOP", 2, 2, AddressingMode::Immediate),
            0x81 => OpCode::new(code, "STA", 2, 6, AddressingMode::IndirectX),
            0x82 => OpCode::new(code, "*NOP", 2, 2, AddressingMode::Immediate),
            0x83 => OpCode::new(code, "*SAX", 2, 6, AddressingMode::IndirectX),
            0x84 => OpCode::new(code, "STY", 2, 3, AddressingMode::ZeroPage),
            0x85 => OpCode::new(code, "STA", 2, 3, AddressingMode::ZeroPage),
            0x86 => OpCode::new(code, "STX", 2, 3, AddressingMode::ZeroPage),
            0x87 => OpCode::new(code, "*SAX", 2, 3, AddressingMode::ZeroPage),
            0x88 => OpCode::new(code, "DEY", 1, 2, AddressingMode::NoneAddressing),
            0x89 => OpCode::new(code, "*NOP", 2, 2, AddressingMode::Immediate),
            0x8A => OpCode::new(code, "TXA", 1, 2, AddressingMode::NoneAddressing),
            0x8B => OpCode::new(code, "*XAA", 2, 3, AddressingMode::Immediate),
            0x8C => OpCode::new(code, "STY", 3, 4, AddressingMode::Absolute),
            0x8D => OpCode::new(code, "STA", 3, 4, AddressingMode::Absolute),
            0x8E => OpCode::new(code, "STX", 3, 4, AddressingMode::Absolute),
            _ => OpCode::new(code, "*SAX", 3, 4, AddressingMode::Absolute),
        }
    }

    fn lookup_row_9(code: u8) -> (op: Self)
        requires
            code / 16 == 0x9,
        ensures
            op == opcode_row_9(code),
    {
        match code {
            0x90 => OpCode::new(code, "BCC", 2, 2, AddressingMode::NoneAddressing),
            0x91 => OpCode::new(code, "STA", 2, 6, AddressingMode::IndirectY),
            0x92 => OpCode::new(code, "*NOP", 1, 2, AddressingMode::NoneAddressing),
            0x93 => OpCode::new(code, "*AHX", 2, 8, AddressingMode::IndirectY),
            0x94 => OpCode::new(code, "STY", 2, 4, AddressingMode::ZeroPageX),
            0x95 => OpCode::new(code, "STA", 2, 4, AddressingMode::ZeroPageX),
            0x96 => OpCode::new(code, "STX", 2, 4, AddressingMode::ZeroPageY),
            0x97 => OpCode::new(code, "*SAX", 2, 4, AddressingMode::ZeroPageY),
            0x98 => OpCode::new(code, "TYA", 1, 2, AddressingMode::NoneAddressing),
            0x99 => OpCode::new(code, "STA", 3, 5, AddressingMode::AbsoluteY),
            0x9A => OpCode::new(code, "TXS", 1, 2, AddressingMode::NoneAddressing),
            0x9B => OpCode::new(code, "*TAS", 3, 2, AddressingMode::AbsoluteY),
            0x9C => OpCode::new(code, "*SHY", 3, 4, AddressingMode::AbsoluteX),
            0x9D => OpCode::new(code, "STA", 3, 5, AddressingMode::AbsoluteX),
            0x9E => OpCode::new(code, "*SHX", 3, 4, AddressingMode::AbsoluteY),
            _ => OpCode::new(code, "*AHX", 3, 4, AddressingMode::AbsoluteY),
        }
    }

    fn lookup_row_a(code: u8) -> (op: Self)
        requires
            code / 16 == 0xA,
        ensures
            op == opcode_row_a(code),
    {
        match code {
            0xA0 => OpCode::new(code, "LDY", 2, 2, AddressingMode::Immediate),
            0xA1 => OpCode::new(code, "LDA", 2, 6, AddressingMode::IndirectX),
            0xA2 => OpCode::new(code, "LDX", 2, 2, AddressingMode::Immediate),
            0xA3 => OpCode::new(code, "*LAX", 2, 6, AddressingMode::IndirectX),
            0xA4 => OpCode::new(code, "LDY", 2, 3, AddressingMode::ZeroPage),
            0xA5 => OpCode::new(code, "LDA", 2, 3, AddressingMode::ZeroPage),
            0xA6 => OpCode::new(code, "LDX", 2, 3, AddressingMode::ZeroPage),
            0xA7 => OpCode::new(code, "*LAX", 2, 3, AddressingMode::ZeroPage),
            0xA8 => OpCode::new(code, "TAY", 1, 2, AddressingMode::NoneAddressing),
            0xA9 => OpCode::new(code, "LDA", 2, 2, AddressingMode::Immediate),
            0xAA => OpCode::new(code, "TAX", 1, 2, AddressingMode::NoneAddressing),
            0xAB => OpCode::new(code, "*LXA", 2, 3, AddressingMode::Immediate),
            0xAC => OpCode::new(code, "LDY", 3, 4, AddressingMode::Absolute),
            0xAD => OpCode::new(code, "LDA", 3, 4, AddressingMode::Absolute),
            0xAE => OpCode::new(code, "LDX", 3, 4, AddressingMode::Absolute),
            _ => OpCode::new(code, "*LAX", 3, 4, AddressingMode::Absolute),
        }
    }

    fn lookup_row_b(code: u8) -> (op: Self)
        requires
            code / 16 == 0xB,
        ensures
            op == opcode_row_b(code),
    {
        match code {
            0xB0 => OpCode::new(code, "BCS", 2, 2, AddressingMode::NoneAddressing),
            0xB1 => OpCode::new(code, "LDA", 2, 5, AddressingMode::IndirectY),
            0xB2 => OpCode::new(code, "*NOP", 1, 2, AddressingMode::NoneAddressing),
            0xB3 => OpCode::new(code, "*LAX", 2, 5, AddressingMode::IndirectY),
            0xB4 => OpCode::new(code, "LDY", 2, 4, AddressingMode::ZeroPageX),
            0xB5 => OpCode::new(code, "LDA", 2, 4, AddressingMode::ZeroPageX),
            0xB6 => OpCode::new(code, "LDX", 2, 4, AddressingMode::ZeroPageY),
            0xB7 => OpCode::new(code, "*LAX", 2, 4, AddressingMode::ZeroPageY),
            0xB8 => OpCode::new(code, "CLV", 1, 2, AddressingMode::NoneAddressing),
            0xB9 => OpCode::new(code, "LDA", 3, 4, AddressingMode::AbsoluteY),
            0xBA => OpCode::new(code, "TSX", 1, 2, AddressingMode::NoneAddressing),
            0xBB => OpCode::new(code, "*LAS", 3, 2, AddressingMode::AbsoluteY),
            0xBC => OpCode::new(code, "LDY", 3, 4, AddressingMode::AbsoluteX),
            0xBD => OpCode::new(code, "LDA", 3, 4, AddressingMode::AbsoluteX),
            0xBE => OpCode::new(code, "LDX", 3, 4, AddressingMode::AbsoluteY),
            _ => OpCode::new(code, "*LAX", 3, 4, AddressingMode::AbsoluteY),
        }
    }

    fn lookup_row_c(code: u8) -> (op: Self)
        requires
            code / 16 == 0xC,
        ensures
            op == opcode_row_c(code),
    {
        match code {
            0xC0 => OpCode::new(code, "CPY", 2, 2, AddressingMode::Immediate),
            0xC1 => OpCode::new(code, "CMP", 2, 6, AddressingMode::IndirectX),
            0xC2 => OpCode::new(code, "*NOP", 2, 2, AddressingMode::Immediate),
            0xC3 => OpCode::new(code, "*DCP", 2, 8, AddressingMode::IndirectX),
            0xC4 => OpCode::new(code, "CPY", 2, 3, AddressingMode::ZeroPage),
            0xC5 => OpCode::new(code, "CMP", 2, 3, AddressingMode::ZeroPage),
            0xC6 => OpCode::new(code, "DEC", 2, 5, AddressingMode::ZeroPage),
            0xC7 => OpCode::new(code, "*DCP", 2, 5, AddressingMode::ZeroPage),
            0xC8 => OpCode::new(code, "INY", 1, 2, AddressingMode::NoneAddressing),
            0xC9 => OpCode::new(code, "CMP", 2, 2, AddressingMode::Immediate),
            0xCA => OpCode::new(code, "DEX", 1, 2, AddressingMode::NoneAddressing),
            0xCB => OpCode::new(code, "*AXS", 2, 2, AddressingMode::Immediate),
            0xCC => OpCode::new(code, "CPY", 3, 4, AddressingMode::Absolute),
            0xCD => OpCode::new(code, "CMP", 3, 4, AddressingMode::Absolute),
            0xCE => OpCode::new(code, "DEC", 3, 6, AddressingMode::Absolute),
            _ => OpCode::new(code, "*DCP", 3, 6, AddressingMode::Absolute),
        }
    }

    fn lookup_row_d(code: u8) -> (op: Self)
        requires
            code / 16 == 0xD,
        ensures
            op == opcode_row_d(code),
    {
        match code {
            0xD0 => OpCode::new(code, "BNE", 2, 2, AddressingMode::NoneAddressing),
            0xD1 => OpCode::new(code, "CMP", 2, 5, AddressingMode::IndirectY),
            0xD2 => OpCode::new(code, "*NOP", 1, 2, AddressingMode::NoneAddressing),
            0xD3 => OpCode::new(code, "*DCP", 2, 8, AddressingMode::IndirectY),
            0xD4 => OpCode::new(code, "*NOP", 2, 4, AddressingMode::ZeroPageX),
            0xD5 => OpCode::new(code, "CMP", 2, 4, AddressingMode::ZeroPageX),
            0xD6 => OpCode::new(code, "DEC", 2, 6, AddressingMode::ZeroPageX),
            0xD7 => OpCode::new(code, "*DCP", 2, 6, AddressingMode::ZeroPageX),
            0xD8 => OpCode::new(code, "CLD", 1, 2, AddressingMode::NoneAddressing),
            0xD9 => OpCode::new(code, "CMP", 3, 4, AddressingMode::AbsoluteY),
            0xDA => OpCode::new(code, "*NOP", 1, 2, AddressingMode::NoneAddressing),
            0xDB => OpCode::new(code, "*DCP", 3, 7, AddressingMode::AbsoluteY),
            0xDC => OpCode::new(code, "*NOP", 3, 4, AddressingMode::AbsoluteX),
            0xDD => OpCode::new(code, "CMP", 3, 4, AddressingMode::AbsoluteX),
            0xDE => OpCode::new(code, "DEC", 3, 7, AddressingMode::AbsoluteX),
            _ => OpCode::new(code, "*DCP", 3, 7, AddressingMode::AbsoluteX),
        }
    }

    fn lookup_row_e(code: u8) -> (op: Self)
        requires
            code / 16 == 0xE,
        ensures
            op == opcode_row_e(code),
    {
        match code {
            0xE0 => OpCode::new(code, "CPX", 2, 2, AddressingMode::Immediate),
            0xE1 => OpCode::new(code, "SBC", 2, 6, AddressingMode::IndirectX),
            0xE2 => OpCode::new(code, "*NOP", 2, 2, AddressingMode::Immediate),
            0xE3 => OpCode::new(code, "*ISB", 2, 8, AddressingMode::IndirectX),
            0xE4 => OpCode::new(code, "CPX", 2, 3, AddressingMode::ZeroPage),
            0xE5 => OpCode::new(code, "SBC", 2, 3, AddressingMode::ZeroPage),
            0xE6 => OpCode::new(code, "INC", 2, 5, AddressingMode::ZeroPage),
            0xE7 => OpCode::new(code, "*ISB", 2, 5, AddressingMode::ZeroPage),
            0xE8 => OpCode::new(code, "INX", 1, 2, AddressingMode::NoneAddressing),
            0xE9 => OpCode::new(code, "SBC", 2, 2, AddressingMode::Immediate),
            0xEA => OpCode::new(code, "NOP", 1, 2, AddressingMode::NoneAddressing),
            0xEB => OpCode::new(code, "*SBC", 2, 2, AddressingMode::Immediate),
            0xEC => OpCode::new(code, "CPX", 3, 4, AddressingMode::Absolute),
            0xED => OpCode::new(code, "SBC", 3, 4, AddressingMode::Absolute),
            0xEE => OpCode::new(code, "INC", 3, 6, AddressingMode::Absolute),
            _ => OpCode::new(code, "*ISB", 3, 6, AddressingMode::Absolute),
        }
    }

    fn lookup_row_f(code: u8) -> (op: Self)
        requires
            code / 16 == 0xF,
        ensures
            op == opcode_row_f(code),
    {
        match code {
            0xF0 => OpCode::new(code, "BEQ", 2, 2, AddressingMode::NoneAddressing),
            0xF1 => OpCode::new(code, "SBC", 2, 5, AddressingMode::IndirectY),
            0xF2 => OpCode::new(code, "*NOP", 1, 2, AddressingMode::NoneAddressing),
            0xF3 => OpCode::new(code, "*ISB", 2, 8, AddressingMode::IndirectY),
            0xF4 => OpCode::new(code, "*NOP", 2, 4, AddressingMode::ZeroPageX),
            0xF5 => OpCode::new(code, "SBC", 2, 4, AddressingMode::ZeroPageX),
            0xF6 => OpCode::new(code, "INC", 2, 6, AddressingMode::ZeroPageX),
            0xF7 => OpCode::new(code, "*ISB", 2, 6, AddressingMode::ZeroPageX),
            0xF8 => OpCode::new(code, "SED", 1, 2, AddressingMode::NoneAddressing),
            0xF9 => OpCode::new(code, "SBC", 3, 4, AddressingMode::AbsoluteY),
            0xFA => OpCode::new(code, "*NOP", 1, 2, AddressingMode::NoneAddressing),
            0xFB => OpCode::new(code, "*ISB", 3, 7, AddressingMode::AbsoluteY),
            0xFC => OpCode::new(code, "*NOP", 3, 4, AddressingMode::AbsoluteX),
            0xFD => OpCode::new(code, "SBC", 3, 4, AddressingMode::AbsoluteX),
            0xFE => OpCode::new(code, "INC", 3, 7, AddressingMode::AbsoluteX),
            _ => OpCode::new(code, "*ISB", 3, 7, AddressingMode::AbsoluteX),
        }
    }
}

/// The instruction table: for every opcode byte its mnemonic, its length
/// in bytes, its base cycle count and its addressing mode. All official
/// instructions are in it, and the unofficial ones on every other byte.
/// It is laid out as the customary matrix, one row per high nibble.
#[verifier::opaque]
pub open spec fn opcode_entry(code: u8) -> OpCode {
    match code / 16 {
        0x0 => opcode_row_0(code),
        0x1 => opcode_row_1(code),
        0x2 => opcode_row_2(code),
        0x3 => opcode_row_3(code),
        0x4 => opcode_row_4(code),
        0x5 => opcode_row_5(code),
        0x6 => opcode_row_6(code),
        0x7 => opcode_row_7(code),
        0x8 => opcode_row_8(code),
        0x9 => opcode_row_9(code),
        0xA => opcode_row_a(code),
        0xB => opcode_row_b(code),
        0xC => opcode_row_c(code),
        0xD => opcode_row_d(code),
        0xE => opcode_row_e(code),
        _ => opcode_row_f(code),
    }
}

/// Every row carries its own opcode byte, takes one to three bytes and
/// one to eight cycles.
pub proof fn lemma_entry_shape(code: u8)
    ensures
        opcode_entry(code).code == code,
        1 <= opcode_entry(code).len <= 3,
        1 <= opcode_entry(code).cycles <= 8,
{
    reveal(opcode_entry);
}

/// The length of an instruction follows from the way it finds its
/// operand: two bytes for the immediate, zero-page and indirect forms,
/// three for the absolute ones.
pub proof fn lemma_entry_length(code: u8)
    ensures
        match opcode_entry(code).mode {
            AddressingMode::Immediate
            | AddressingMode::ZeroPage
            | AddressingMode::ZeroPageX
            | AddressingMode::ZeroPageY
            | AddressingMode::IndirectX
            | AddressingMode::IndirectY => opcode_entry(code).len == 2,
            AddressingMode::Absolute
            | AddressingMode::AbsoluteX
            | AddressingMode::AbsoluteY => opcode_entry(code).len == 3,
            AddressingMode::NoneAddressing => true,
        },
{
    reveal(opcode_entry);
}

/// Row `0x0_` of the instruction table.
pub open spec fn opcode_row_0(code: u8) -> OpCode {
    match code {
        0x00 => OpCode {
            code, mnemonic: "BRK", len: 1, cycles: 7, mode: AddressingMode::NoneAddressing,
        },
        0x01 => OpCode {
            code, mnemonic: "ORA", len: 2, cycles: 6, mode: AddressingMode::IndirectX,
        },
        0x02 => OpCode {
            code, mnemonic: "*NOP", len: 1, cycles: 2, mode: AddressingMode::NoneAddressing,
        },
        0x03 => OpCode {
            code, mnemonic: "*SLO", len: 2, cycles: 8, mode: AddressingMode::IndirectX,
        },
        0x04 => OpCode {
            code, mnemonic: "*NOP", len: 2, cycles: 3, mode: AddressingMode::ZeroPage,
        },
        0x05 => OpCode { code, mnemonic: "ORA", len: 2, cycles: 3, mode: AddressingMode::ZeroPage },
        0x06 => OpCode { code, mnemonic: "ASL", len: 2, cycles: 5, mode: AddressingMode::ZeroPage },
        0x07 => OpCode {
            code, mnemonic: "*SLO", len: 2, cycles: 5, mode: AddressingMode::ZeroPage,
        },
        0x08 => OpCode {
            code, mnemonic: "PHP", len: 1, cycles: 3, mode: AddressingMode::NoneAddressing,
        },
        0x09 => OpCode {
            code, mnemonic: "ORA", len: 2, cycles: 2, mode: AddressingMode::Immediate,
        },
        0x0A => OpCode {
            code, mnemonic: "ASL", len: 1, cycles: 2, mode: AddressingMode::NoneAddressing,
        },
        0x0B => OpCode {
            code, mnemonic: "*ANC", len: 2, cycles: 2, mode: AddressingMode::Immediate,
        },
        0x0C => OpCode {
            code, mnemonic: "*NOP", len: 3, cycles: 4, mode: AddressingMode::Absolute,
        },
        0x0D => OpCode { code, mnemonic: "ORA", len: 3, cycles: 4, mode: AddressingMode::Absolute },
        0x0E => OpCode { code, mnemonic: "ASL", len: 3, cycles: 6, mode: AddressingMode::Absolute },
        _ => OpCode { code, mnemonic: "*SLO", len: 3, cycles: 6, mode: AddressingMode::Absolute },
    }
}

/// Row `0x1_` of the instruction table.
pub open spec fn opcode_row_1(code: u8) -> OpCode {
    match code {
        0x10 => OpCode {
            code, mnemonic: "BPL", len: 2, cycles: 2, mode: AddressingMode::NoneAddressing,
        },
        0x11 => OpCode {
            code, mnemonic: "ORA", len: 2, cycles: 5, mode: AddressingMode::IndirectY,
        },
        0x12 | 0x1A => OpCode {
            code, mnemonic: "*NOP", len: 1, cycles: 2, mode: AddressingMode::NoneAddressing,
        },
        0x13 => OpCode {
            code, mnemonic: "*SLO", len: 2, cycles: 8, mode: AddressingMode::IndirectY,
        },
        0x14 => OpCode {
            code, mnemonic: "*NOP", len: 2, cycles: 4, mode: AddressingMode::ZeroPageX,
        },
        0x15 => OpCode {
            code, mnemonic: "ORA", len: 2, cycles: 4, mode: AddressingMode::ZeroPageX,
        },
        0x16 => OpCode {
            code, mnemonic: "ASL", len: 2, cycles: 6, mode: AddressingMode::ZeroPageX,
        },
        0x17 => OpCode {
            code, mnemonic: "*SLO", len: 2, cycles: 6, mode: AddressingMode::ZeroPageX,
        },
        0x18 => OpCode {
            code, mnemonic: "CLC", len: 1, cycles: 2, mode: AddressingMode::NoneAddressing,
        },
        0x19 => OpCode {
            code, mnemonic: "ORA", len: 3, cycles: 4, mode: AddressingMode::AbsoluteY,
        },
        0x1B => OpCode {
            code, mnemonic: "*SLO", len: 3, cycles: 7, mode: AddressingMode::AbsoluteY,
        },
        0x1C => OpCode {
            code, mnemonic: "*NOP", len: 3, cycles: 4, mode: AddressingMode::AbsoluteX,
        },
        0x1D => OpCode {
            code, mnemonic: "ORA", len: 3, cycles: 4, mode: AddressingMode::AbsoluteX,
        },
        0x1E => OpCode {
            code, mnemonic: "ASL", len: 3, cycles: 7, mode: AddressingMode::AbsoluteX,
        },
        _ => OpCode { code, mnemonic: "*SLO", len: 3, cycles: 7, mode: AddressingMode::AbsoluteX },
    }
}

/// Row `0x2_` of the instruction table.
pub open spec fn opcode_row_2(code: u8) -> OpCode {
    match code {
        0x20 => OpCode {
            code, mnemonic: "JSR", len: 3, cycles: 6, mode: AddressingMode::NoneAddressing,
        },
        0x21 => OpCode {
            code, mnemonic: "AND", len: 2, cycles: 6, mode: AddressingMode::IndirectX,
        },
        0x22 => OpCode {
            code, mnemonic: "*NOP", len: 1, cycles: 2, mode: AddressingMode::NoneAddressing,
        },
        0x23 => OpCode {
            code, mnemonic: "*RLA", len: 2, cycles: 8, mode: AddressingMode::IndirectX,
        },
        0x24 => OpCode { code, mnemonic: "BIT", len: 2, cycles: 3, mode: AddressingMode::ZeroPage },
        0x25 => OpCode { code, mnemonic: "AND", len: 2, cycles: 3, mode: AddressingMode::ZeroPage },
        0x26 => OpCode { code, mnemonic: "ROL", len: 2, cycles: 5, mode: AddressingMode::ZeroPage },
        0x27 => OpCode {
            code, mnemonic: "*RLA", len: 2, cycles: 5, mode: AddressingMode::ZeroPage,
        },
        0x28 => OpCode {
            code, mnemonic: "PLP", len: 1, cycles: 4, mode: AddressingMode::NoneAddressing,
        },
        0x29 => OpCode {
            code, mnemonic: "AND", len: 2, cycles: 2, mode: AddressingMode::Immediate,
        },
        0x2A => OpCode {
            code, mnemonic: "ROL", len: 1, cycles: 2, mode: AddressingMode::NoneAddressing,
        },
        0x2B => OpCode {
            code, mnemonic: "*ANC", len: 2, cycles: 2, mode: AddressingMode::Immediate,
        },
        0x2C => OpCode { code, mnemonic: "BIT", len: 3, cycles: 4, mode: AddressingMode::Absolute },
        0x2D => OpCode { code, mnemonic: "AND", len: 3, cycles: 4, mode: AddressingMode::Absolute },
        0x2E => OpCode { code, mnemonic: "ROL", len: 3, cycles: 6, mode: AddressingMode::Absolute },
        _ => OpCode { code, mnemonic: "*RLA", len: 3, cycles: 6, mode: AddressingMode::Absolute },
    }
}

/// Row `0x3_` of the instruction table.
pub open spec fn opcode_row_3(code: u8) -> OpCode {
    match code {
        0x30 => OpCode {
            code, mnemonic: "BMI", len: 2, cycles: 2, mode: AddressingMode::NoneAddressing,
        },
        0x31 => OpCode {
            code, mnemonic: "AND", len: 2, cycles: 5, mode: AddressingMode::IndirectY,
        },
        0x32 | 0x3A => OpCode {
            code, mnemonic: "*NOP", len: 1, cycles: 2, mode: AddressingMode::NoneAddressing,
        },
        0x33 => OpCode {
            code, mnemonic: "*RLA", len: 2, cycles: 8, mode: AddressingMode::IndirectY,
        },
        0x34 => OpCode {
            code, mnemonic: "*NOP", len: 2, cycles: 4, mode: AddressingMode::ZeroPageX,
        },
        0x35 => OpCode {
            code, mnemonic: "AND", len: 2, cycles: 4, mode: AddressingMode::ZeroPageX,
        },
        0x36 => OpCode {
            code, mnemonic: "ROL", len: 2, cycles: 6, mode: AddressingMode::ZeroPageX,
        },
        0x37 => OpCode {
            code, mnemonic: "*RLA", len: 2, cycles: 6, mode: AddressingMode::ZeroPageX,
        },
        0x38 => OpCode {
            code, mnemonic: "SEC", len: 1, cycles: 2, mode: AddressingMode::NoneAddressing,
        },
        0x39 => OpCode {
            code, mnemonic: "AND", len: 3, cycles: 4, mode: AddressingMode::AbsoluteY,
        },
        0x3B => OpCode {
            code, mnemonic: "*RLA", len: 3, cycles: 7, mode: AddressingMode::AbsoluteY,
        },
        0x3C => OpCode {
            code, mnemonic: "*NOP", len: 3, cycles: 4, mode: AddressingMode::AbsoluteX,
        },
        0x3D => OpCode {
            code, mnemonic: "AND", len: 3, cycles: 4, mode: AddressingMode::AbsoluteX,
        },
        0x3E => OpCode {
            code, mnemonic: "ROL", len: 3, cycles: 7, mode: AddressingMode::AbsoluteX,
        },
        _ => OpCode { code, mnemonic: "*RLA", len: 3, cycles: 7, mode: AddressingMode::AbsoluteX },
    }
}

/// Row `0x4_` of the instruction table.
pub open spec fn opcode_row_4(code: u8) -> OpCode {
    match code {
        0x40 => OpCode {
            code, mnemonic: "RTI", len: 1, cycles: 6, mode: AddressingMode::NoneAddressing,
        },
        0x41 => OpCode {
            code, mnemonic: "EOR", len: 2, cycles: 6, mode: AddressingMode::IndirectX,
        },
        0x42 => OpCode {
            code, mnemonic: "*NOP", len: 1, cycles: 2, mode: AddressingMode::NoneAddressing,
        },
        0x43 => OpCode {
            code, mnemonic: "*SRE", len: 2, cycles: 8, mode: AddressingMode::IndirectX,
        },
        0x44 => OpCode {
            code, mnemonic: "*NOP", len: 2, cycles: 3, mode: AddressingMode::ZeroPage,
        },
        0x45 => OpCode { code, mnemonic: "EOR", len: 2, cycles: 3, mode: AddressingMode::ZeroPage },
        0x46 => OpCode { code, mnemonic: "LSR", len: 2, cycles: 5, mode: AddressingMode::ZeroPage },
        0x47 => OpCode {
            code, mnemonic: "*SRE", len: 2, cycles: 5, mode: AddressingMode::ZeroPage,
        },
        0x48 => OpCode {
            code, mnemonic: "PHA", len: 1, cycles: 3, mode: AddressingMode::NoneAddressing,
        },
        0x49 => OpCode {
            code, mnemonic: "EOR", len: 2, cycles: 2, mode: AddressingMode::Immediate,
        },
        0x4A => OpCode {
            code, mnemonic: "LSR", len: 1, cycles: 2, mode: AddressingMode::NoneAddressing,
        },
        0x4B => OpCode {
            code, mnemonic: "*ALR", len: 2, cycles: 2, mode: AddressingMode::Immediate,
        },
        0x4C => OpCode {
            code, mnemonic: "JMP", len: 3, cycles: 3, mode: AddressingMode::NoneAddressing,
        },
        0x4D => OpCode { code, mnemonic: "EOR", len: 3, cycles: 4, mode: AddressingMode::Absolute },
        0x4E => OpCode { code, mnemonic: "LSR", len: 3, cycles: 6, mode: AddressingMode::Absolute },
        _ => OpCode { code, mnemonic: "*SRE", len: 3, cycles: 6, mode: AddressingMode::Absolute },
    }
}

/// Row `0x5_` of the instruction table.
pub open spec fn opcode_row_5(code: u8) -> OpCode {
    match code {
        0x50 => OpCode {
            code, mnemonic: "BVC", len: 2, cycles: 2, mode: AddressingMode::NoneAddressing,
        },
        0x51 => OpCode {
            code, mnemonic: "EOR", len: 2, cycles: 5, mode: AddressingMode::IndirectY,
        },
        0x52 | 0x5A => OpCode {
            code, mnemonic: "*NOP", len: 1, cycles: 2, mode: AddressingMode::NoneAddressing,
        },
        0x53 => OpCode {
            code, mnemonic: "*SRE", len: 2, cycles: 8, mode: AddressingMode::IndirectY,
        },
        0x54 => OpCode {
            code, mnemonic: "*NOP", len: 2, cycles: 4, mode: AddressingMode::ZeroPageX,
        },
        0x55 => OpCode {
            code, mnemonic: "EOR", len: 2, cycles: 4, mode: AddressingMode::ZeroPageX,
        },
        0x56 => OpCode {
            code, mnemonic: "LSR", len: 2, cycles: 6, mode: AddressingMode::ZeroPageX,
        },
        0x57 => OpCode {
            code, mnemonic: "*SRE", len: 2, cycles: 6, mode: AddressingMode::ZeroPageX,
        },
        0x58 => OpCode {
            code, mnemonic: "CLI", len: 1, cycles: 2, mode: AddressingMode::NoneAddressing,
        },
        0x59 => OpCode {
            code, mnemonic: "EOR", len: 3, cycles: 4, mode: AddressingMode::AbsoluteY,
        },
        0x5B => OpCode {
            code, mnemonic: "*SRE", len: 3, cycles: 7, mode: AddressingMode::AbsoluteY,
        },
        0x5C => OpCode {
            code, mnemonic: "*NOP", len: 3, cycles: 4, mode: AddressingMode::AbsoluteX,
        },
        0x5D => OpCode {
            code, mnemonic: "EOR", len: 3, cycles: 4, mode: AddressingMode::AbsoluteX,
        },
        0x5E => OpCode {
            code, mnemonic: "LSR", len: 3, cycles: 7, mode: AddressingMode::AbsoluteX,
        },
        _ => OpCode { code, mnemonic: "*SRE", len: 3, cycles: 7, mode: AddressingMode::AbsoluteX },
    }
}

/// Row `0x6_` of the instruction table.
pub open spec fn opcode_row_6(code: u8) -> OpCode {
    match code {
        0x60 => OpCode {
            code, mnemonic: "RTS", len: 1, cycles: 6, mode: AddressingMode::NoneAddressing,
        },
        0x61 => OpCode {
            code, mnemonic: "ADC", len: 2, cycles: 6, mode: AddressingMode::IndirectX,
        },
        0x62 => OpCode {
            code, mnemonic: "*NOP", len: 1, cycles: 2, mode: AddressingMode::NoneAddressing,
        },
        0x63 => OpCode {
            code, mnemonic: "*RRA", len: 2, cycles: 8, mode: AddressingMode::IndirectX,
        },
        0x64 => OpCode {
            code, mnemonic: "*NOP", len: 2, cycles: 3, mode: AddressingMode::ZeroPage,
        },
        0x65 => OpCode { code, mnemonic: "ADC", len: 2, cycles: 3, mode: AddressingMode::ZeroPage },
        0x66 => OpCode { code, mnemonic: "ROR", len: 2, cycles: 5, mode: AddressingMode::ZeroPage },
        0x67 => OpCode {
            code, mnemonic: "*RRA", len: 2, cycles: 5, mode: AddressingMode::ZeroPage,
        },
        0x68 => OpCode {
            code, mnemonic: "PLA", len: 1, cycles: 4, mode: AddressingMode::NoneAddressing,
        },
        0x69 => OpCode {
            code, mnemonic: "ADC", len: 2, cycles: 2, mode: AddressingMode::Immediate,
        },
        0x6A => OpCode {
            code, mnemonic: "ROR", len: 1, cycles: 2, mode: AddressingMode::NoneAddressing,
        },
        0x6B => OpCode {
            code, mnemonic: "*ARR", len: 2, cycles: 2, mode: AddressingMode::Immediate,
        },
        0x6C => OpCode {
            code, mnemonic: "JMP", len: 3, cycles: 5, mode: AddressingMode::NoneAddressing,
        },
        0x6D => OpCode { code, mnemonic: "ADC", len: 3, cycles: 4, mode: AddressingMode::Absolute },
        0x6E => OpCode { code, mnemonic: "ROR", len: 3, cycles: 6, mode: AddressingMode::Absolute },
        _ => OpCode { code, mnemonic: "*RRA", len: 3, cycles: 6, mode: AddressingMode::Absolute },
    }
}

/// Row `0x7_` of the instruction table.
pub open spec fn opcode_row_7(code: u8) -> OpCode {
    match code {
        0x70 => OpCode {
            code, mnemonic: "BVS", len: 2, cycles: 2, mode: AddressingMode::NoneAddressing,
        },
        0x71 => OpCode {
            code, mnemonic: "ADC", len: 2, cycles: 5, mode: AddressingMode::IndirectY,
        },
        0x72 | 0x7A => OpCode {
            code, mnemonic: "*NOP", len: 1, cycles: 2, mode: AddressingMode::NoneAddressing,
        },
        0x73 => OpCode {
            code, mnemonic: "*RRA", len: 2, cycles: 8, mode: AddressingMode::IndirectY,
        },
        0x74 => OpCode {
            code, mnemonic: "*NOP", len: 2, cycles: 4, mode: AddressingMode::ZeroPageX,
        },
        0x75 => OpCode {
            code, mnemonic: "ADC", len: 2, cycles: 4, mode: AddressingMode::ZeroPageX,
        },
        0x76 => OpCode {
            code, mnemonic: "ROR", len: 2, cycles: 6, mode: AddressingMode::ZeroPageX,
        },
        0x77 => OpCode {
            code, mnemonic: "*RRA", len: 2, cycles: 6, mode: AddressingMode::ZeroPageX,
        },
        0x78 => OpCode {
            code, mnemonic: "SEI", len: 1, cycles: 2, mode: AddressingMode::NoneAddressing,
        },
        0x79 => OpCode {
            code, mnemonic: "ADC", len: 3, cycles: 4, mode: AddressingMode::AbsoluteY,
        },
        0x7B => OpCode {
            code, mnemonic: "*RRA", len: 3, cycles: 7, mode: AddressingMode::AbsoluteY,
        },
        0x7C => OpCode {
            code, mnemonic: "*NOP", len: 3, cycles: 4, mode: AddressingMode::AbsoluteX,
        },
        0x7D => OpCode {
            code, mnemonic: "ADC", len: 3, cycles: 4, mode: AddressingMode::AbsoluteX,
        },
        0x7E => OpCode {
            code, mnemonic: "ROR", len: 3, cycles: 7, mode: AddressingMode::AbsoluteX,
        },
        _ => OpCode { code, mnemonic: "*RRA", len: 3, cycles: 7, mode: AddressingMode::AbsoluteX },
    }
}

/// Row `0x8_` of the instruction table.
pub open spec fn opcode_row_8(code: u8) -> OpCode {
    match code {
        0x80 | 0x82 | 0x89 => OpCode {
            code, mnemonic: "*NOP", len: 2, cycles: 2, mode: AddressingMode::Immediate,
        },
        0x81 => OpCode {
            code, mnemonic: "STA", len: 2, cycles: 6, mode: AddressingMode::IndirectX,
        },
        0x83 => OpCode {
            code, mnemonic: "*SAX", len: 2, cycles: 6, mode: AddressingMode::IndirectX,
        },
        0x84 => OpCode { code, mnemonic: "STY", len: 2, cycles: 3, mode: AddressingMode::ZeroPage },
        0x85 => OpCode { code, mnemonic: "STA", len: 2, cycles: 3, mode: AddressingMode::ZeroPage },
        0x86 => OpCode { code, mnemonic: "STX", len: 2, cycles: 3, mode: AddressingMode::ZeroPage },
        0x87 => OpCode {
            code, mnemonic: "*SAX", len: 2, cycles: 3, mode: AddressingMode::ZeroPage,
        },
        0x88 => OpCode {
            code, mnemonic: "DEY", len: 1, cycles: 2, mode: AddressingMode::NoneAddressing,
        },
        0x8A => OpCode {
            code, mnemonic: "TXA", len: 1, cycles: 2, mode: AddressingMode::NoneAddressing,
        },
        0x8B => OpCode {
            code, mnemonic: "*XAA", len: 2, cycles: 3, mode: AddressingMode::Immediate,
        },
        0x8C => OpCode { code, mnemonic: "STY", len: 3, cycles: 4, mode: AddressingMode::Absolute },
        0x8D => OpCode { code, mnemonic: "STA", len: 3, cycles: 4, mode: AddressingMode::Absolute },
        0x8E => OpCode { code, mnemonic: "STX", len: 3, cycles: 4, mode: AddressingMode::Absolute },
        _ => OpCode { code, mnemonic: "*SAX", len: 3, cycles: 4, mode: AddressingMode::Absolute },
    }
}

/// Row `0x9_` of the instruction table.
pub open spec fn opcode_row_9(code: u8) -> OpCode {
    match code {
        0x90 => OpCode {
            code, mnemonic: "BCC", len: 2, cycles: 2, mode: AddressingMode::NoneAddressing,
        },
        0x91 => OpCode {
            code, mnemonic: "STA", len: 2, cycles: 6, mode: AddressingMode::IndirectY,
        },
        0x92 => OpCode {
            code, mnemonic: "*NOP", len: 1, cycles: 2, mode: AddressingMode::NoneAddressing,
        },
        0x93 => OpCode {
            code, mnemonic: "*AHX", len: 2, cycles: 8, mode: AddressingMode::IndirectY,
        },
        0x94 => OpCode {
            code, mnemonic: "STY", len: 2, cycles: 4, mode: AddressingMode::ZeroPageX,
        },
        0x95 => OpCode {
            code, mnemonic: "STA", len: 2, cycles: 4, mode: AddressingMode::ZeroPageX,
        },
        0x96 => OpCode {
            code, mnemonic: "STX", len: 2, cycles: 4, mode: AddressingMode::ZeroPageY,
        },
        0x97 => OpCode {
            code, mnemonic: "*SAX", len: 2, cycles: 4, mode: AddressingMode::ZeroPageY,
        },
        0x98 => OpCode {
            code, mnemonic: "TYA", len: 1, cycles: 2, mode: AddressingMode::NoneAddressing,
        },
        0x99 => OpCode {
            code, mnemonic: "STA", len: 3, cycles: 5, mode: AddressingMode::AbsoluteY,
        },
        0x9A => OpCode {
            code, mnemonic: "TXS", len: 1, cycles: 2, mode: AddressingMode::NoneAddressing,
        },
        0x9B => OpCode {
            code, mnemonic: "*TAS", len: 3, cycles: 2, mode: AddressingMode::AbsoluteY,
        },
        0x9C => OpCode {
            code, mnemonic: "*SHY", len: 3, cycles: 4, mode: AddressingMode::AbsoluteX,
        },
        0x9D => OpCode {
            code, mnemonic: "STA", len: 3, cycles: 5, mode: AddressingMode::AbsoluteX,
        },
        0x9E => OpCode {
            code, mnemonic: "*SHX", len: 3, cycles: 4, mode: AddressingMode::AbsoluteY,
        },
        _ => OpCode { code, mnemonic: "*AHX", len: 3, cycles: 4, mode: AddressingMode::AbsoluteY },
    }
}

/// Row `0xA_` of the instruction table.
pub open spec fn opcode_row_a(code: u8) -> OpCode {
    match code {
        0xA0 => OpCode {
            code, mnemonic: "LDY", len: 2, cycles: 2, mode: AddressingMode::Immediate,
        },
        0xA1 => OpCode {
            code, mnemonic: "LDA", len: 2, cycles: 6, mode: AddressingMode::IndirectX,
        },
        0xA2 => OpCode {
            code, mnemonic: "LDX", len: 2, cycles: 2, mode: AddressingMode::Immediate,
        },
        0xA3 => OpCode {
            code, mnemonic: "*LAX", len: 2, cycles: 6, mode: AddressingMode::IndirectX,
        },
        0xA4 => OpCode { code, mnemonic: "LDY", len: 2, cycles: 3, mode: AddressingMode::ZeroPage },
        0xA5 => OpCode { code, mnemonic: "LDA", len: 2, cycles: 3, mode: AddressingMode::ZeroPage },
        0xA6 => OpCode { code, mnemonic: "LDX", len: 2, cycles: 3, mode: AddressingMode::ZeroPage },
        0xA7 => OpCode {
            code, mnemonic: "*LAX", len: 2, cycles: 3, mode: AddressingMode::ZeroPage,
        },
        0xA8 => OpCode {
            code, mnemonic: "TAY", len: 1, cycles: 2, mode: AddressingMode::NoneAddressing,
        },
        0xA9 => OpCode {
            code, mnemonic: "LDA", len: 2, cycles: 2, mode: AddressingMode::Immediate,
        },
        0xAA => OpCode {
            code, mnemonic: "TAX", len: 1, cycles: 2, mode: AddressingMode::NoneAddressing,
        },
        0xAB => OpCode {
            code, mnemonic: "*LXA", len: 2, cycles: 3, mode: AddressingMode::Immediate,
        },
        0xAC => OpCode { code, mnemonic: "LDY", len: 3, cycles: 4, mode: AddressingMode::Absolute },
        0xAD => OpCode { code, mnemonic: "LDA", len: 3, cycles: 4, mode: AddressingMode::Absolute },
        0xAE => OpCode { code, mnemonic: "LDX", len: 3, cycles: 4, mode: AddressingMode::Absolute },
        _ => OpCode { code, mnemonic: "*LAX", len: 3, cycles: 4, mode: AddressingMode::Absolute },
    }
}

/// Row `0xB_` of the instruction table.
pub open spec fn opcode_row_b(code: u8) -> OpCode {
    match code {
        0xB0 => OpCode {
            code, mnemonic: "BCS", len: 2, cycles: 2, mode: AddressingMode::NoneAddressing,
        },
        0xB1 => OpCode {
            code, mnemonic: "LDA", len: 2, cycles: 5, mode: AddressingMode::IndirectY,
        },
        0xB2 => OpCode {
            code, mnemonic: "*NOP", len: 1, cycles: 2, mode: AddressingMode::NoneAddressing,
        },
        0xB3 => OpCode {
            code, mnemonic: "*LAX", len: 2, cycles: 5, mode: AddressingMode::IndirectY,
        },
        0xB4 => OpCode {
            code, mnemonic: "LDY", len: 2, cycles: 4, mode: AddressingMode::ZeroPageX,
        },
        0xB5 => OpCode {
            code, mnemonic: "LDA", len: 2, cycles: 4, mode: AddressingMode::ZeroPageX,
        },
        0xB6 => OpCode {
            code, mnemonic: "LDX", len: 2, cycles: 4, mode: AddressingMode::ZeroPageY,
        },
        0xB7 => OpCode {
            code, mnemonic: "*LAX", len: 2, cycles: 4, mode: AddressingMode::ZeroPageY,
        },
        0xB8 => OpCode {
            code, mnemonic: "CLV", len: 1, cycles: 2, mode: AddressingMode::NoneAddressing,
        },
        0xB9 => OpCode {
            code, mnemonic: "LDA", len: 3, cycles: 4, mode: AddressingMode::AbsoluteY,
        },
        0xBA => OpCode {
            code, mnemonic: "TSX", len: 1, cycles: 2, mode: AddressingMode::NoneAddressing,
        },
        0xBB => OpCode {
            code, mnemonic: "*LAS", len: 3, cycles: 2, mode: AddressingMode::AbsoluteY,
        },
        0xBC => OpCode {
            code, mnemonic: "LDY", len: 3, cycles: 4, mode: AddressingMode::AbsoluteX,
        },
        0xBD => OpCode {
            code, mnemonic: "LDA", len: 3, cycles: 4, mode: AddressingMode::AbsoluteX,
        },
        0xBE => OpCode {
            code, mnemonic: "LDX", len: 3, cycles: 4, mode: AddressingMode::AbsoluteY,
        },
        _ => OpCode { code, mnemonic: "*LAX", len: 3, cycles: 4, mode: AddressingMode::AbsoluteY },
    }
}

/// Row `0xC_` of the instruction table.
pub open spec fn opcode_row_c(code: u8) -> OpCode {
    match code {
        0xC0 => OpCode {
            code, mnemonic: "CPY", len: 2, cycles: 2, mode: AddressingMode::Immediate,
        },
        0xC1 => OpCode {
            code, mnemonic: "CMP", len: 2, cycles: 6, mode: AddressingMode::IndirectX,
        },
        0xC2 => OpCode {
            code, mnemonic: "*NOP", len: 2, cycles: 2, mode: AddressingMode::Immediate,
        },
        0xC3 => OpCode {
            code, mnemonic: "*DCP", len: 2, cycles: 8, mode: AddressingMode::IndirectX,
        },
        0xC4 => OpCode { code, mnemonic: "CPY", len: 2, cycles: 3, mode: AddressingMode::ZeroPage },
        0xC5 => OpCode { code, mnemonic: "CMP", len: 2, cycles: 3, mode: AddressingMode::ZeroPage },
        0xC6 => OpCode { code, mnemonic: "DEC", len: 2, cycles: 5, mode: AddressingMode::ZeroPage },
        0xC7 => OpCode {
            code, mnemonic: "*DCP", len: 2, cycles: 5, mode: AddressingMode::ZeroPage,
        },
        0xC8 => OpCode {
            code, mnemonic: "INY", len: 1, cycles: 2, mode: AddressingMode::NoneAddressing,
        },
        0xC9 => OpCode {
            code, mnemonic: "CMP", len: 2, cycles: 2, mode: AddressingMode::Immediate,
        },
        0xCA => OpCode {
            code, mnemonic: "DEX", len: 1, cycles: 2, mode: AddressingMode::NoneAddressing,
        },
        0xCB => OpCode {
            code, mnemonic: "*AXS", len: 2, cycles: 2, mode: AddressingMode::Immediate,
        },
        0xCC => OpCode { code, mnemonic: "CPY", len: 3, cycles: 4, mode: AddressingMode::Absolute },
        0xCD => OpCode { code, mnemonic: "CMP", len: 3, cycles: 4, mode: AddressingMode::Absolute },
        0xCE => OpCode { code, mnemonic: "DEC", len: 3, cycles: 6, mode: AddressingMode::Absolute },
        _ => OpCode { code, mnemonic: "*DCP", len: 3, cycles: 6, mode: AddressingMode::Absolute },
    }
}

/// Row `0xD_` of the instruction table.
pub open spec fn opcode_row_d(code: u8) -> OpCode {
    match code {
        0xD0 => OpCode {
            code, mnemonic: "BNE", len: 2, cycles: 2, mode: AddressingMode::NoneAddressing,
        },
        0xD1 => OpCode {
            code, mnemonic: "CMP", len: 2, cycles: 5, mode: AddressingMode::IndirectY,
        },
        0xD2 | 0xDA => OpCode {
            code, mnemonic: "*NOP", len: 1, cycles: 2, mode: AddressingMode::NoneAddressing,
        },
        0xD3 => OpCode {
            code, mnemonic: "*DCP", len: 2, cycles: 8, mode: AddressingMode::IndirectY,
        },
        0xD4 => OpCode {
            code, mnemonic: "*NOP", len: 2, cycles: 4, mode: AddressingMode::ZeroPageX,
        },
        0xD5 => OpCode {
            code, mnemonic: "CMP", len: 2, cycles: 4, mode: AddressingMode::ZeroPageX,
        },
        0xD6 => OpCode {
            code, mnemonic: "DEC", len: 2, cycles: 6, mode: AddressingMode::ZeroPageX,
        },
        0xD7 => OpCode {
            code, mnemonic: "*DCP", len: 2, cycles: 6, mode: AddressingMode::ZeroPageX,
        },
        0xD8 => OpCode {
            code, mnemonic: "CLD", len: 1, cycles: 2, mode: AddressingMode::NoneAddressing,
        },
        0xD9 => OpCode {
            code, mnemonic: "CMP", len: 3, cycles: 4, mode: AddressingMode::AbsoluteY,
        },
        0xDB => OpCode {
            code, mnemonic: "*DCP", len: 3, cycles: 7, mode: AddressingMode::AbsoluteY,
        },
        0xDC => OpCode {
            code, mnemonic: "*NOP", len: 3, cycles: 4, mode: AddressingMode::AbsoluteX,
        },
        0xDD => OpCode {
            code, mnemonic: "CMP", len: 3, cycles: 4, mode: AddressingMode::AbsoluteX,
        },
        0xDE => OpCode {
            code, mnemonic: "DEC", len: 3, cycles: 7, mode: AddressingMode::AbsoluteX,
        },
        _ => OpCode { code, mnemonic: "*DCP", len: 3, cycles: 7, mode: AddressingMode::AbsoluteX },
    }
}

/// Row `0xE_` of the instruction table.
pub open spec fn opcode_row_e(code: u8) -> OpCode {
    match code {
        0xE0 => OpCode {
            code, mnemonic: "CPX", len: 2, cycles: 2, mode: AddressingMode::Immediate,
        },
        0xE1 => OpCode {
            code, mnemonic: "SBC", len: 2, cycles: 6, mode: AddressingMode::IndirectX,
        },
        0xE2 => OpCode {
            code, mnemonic: "*NOP", len: 2, cycles: 2, mode: AddressingMode::Immediate,
        },
        0xE3 => OpCode {
            code, mnemonic: "*ISB", len: 2, cycles: 8, mode: AddressingMode::IndirectX,
        },
        0xE4 => OpCode { code, mnemonic: "CPX", len: 2, cycles: 3, mode: AddressingMode::ZeroPage },
        0xE5 => OpCode { code, mnemonic: "SBC", len: 2, cycles: 3, mode: AddressingMode::ZeroPage },
        0xE6 => OpCode { code, mnemonic: "INC", len: 2, cycles: 5, mode: AddressingMode::ZeroPage },
        0xE7 => OpCode {
            code, mnemonic: "*ISB", len: 2, cycles: 5, mode: AddressingMode::ZeroPage,
        },
        0xE8 => OpCode {
            code, mnemonic: "INX", len: 1, cycles: 2, mode: AddressingMode::NoneAddressing,
        },
        0xE9 => OpCode {
            code, mnemonic: "SBC", len: 2, cycles: 2, mode: AddressingMode::Immediate,
        },
        0xEA => OpCode {
            code, mnemonic: "NOP", len: 1, cycles: 2, mode: AddressingMode::NoneAddressing,
        },
        0xEB => OpCode {
            code, mnemonic: "*SBC", len: 2, cycles: 2, mode: AddressingMode::Immediate,
        },
        0xEC => OpCode { code, mnemonic: "CPX", len: 3, cycles: 4, mode: AddressingMode::Absolute },
        0xED => OpCode { code, mnemonic: "SBC", len: 3, cycles: 4, mode: AddressingMode::Absolute },
        0xEE => OpCode { code, mnemonic: "INC", len: 3, cycles: 6, mode: AddressingMode::Absolute },
        _ => OpCode { code, mnemonic: "*ISB", len: 3, cycles: 6, mode: AddressingMode::Absolute },
    }
}

/// Row `0xF_` of the instruction table.
pub open spec fn opcode_row_f(code: u8) -> OpCode {
    match code {
        0xF0 => OpCode {
            code, mnemonic: "BEQ", len: 2, cycles: 2, mode: AddressingMode::NoneAddressing,
        },
        0xF1 => OpCode {
            code, mnemonic: "SBC", len: 2, cycles: 5, mode: AddressingMode::IndirectY,
        },
        0xF2 | 0xFA => OpCode {
            code, mnemonic: "*NOP", len: 1, cycles: 2, mode: AddressingMode::NoneAddressing,
        },
        0xF3 => OpCode {
            code, mnemonic: "*ISB", len: 2, cycles: 8, mode: AddressingMode::IndirectY,
        },
        0xF4 => OpCode {
            code, mnemonic: "*NOP", len: 2, cycles: 4, mode: AddressingMode::ZeroPageX,
        },
        0xF5 => OpCode {
            code, mnemonic: "SBC", len: 2, cycles: 4, mode: AddressingMode::ZeroPageX,
        },
        0xF6 => OpCode {
            code, mnemonic: "INC", len: 2, cycles: 6, mode: AddressingMode::ZeroPageX,
        },
        0xF7 => OpCode {
            code, mnemonic: "*ISB", len: 2, cycles: 6, mode: AddressingMode::ZeroPageX,
        },
        0xF8 => OpCode {
            code, mnemonic: "SED", len: 1, cycles: 2, mode: AddressingMode::NoneAddressing,
        },
        0xF9 => OpCode {
            code, mnemonic: "SBC", len: 3, cycles: 4, mode: AddressingMode::AbsoluteY,
        },
        0xFB => OpCode {
            code, mnemonic: "*ISB", len: 3, cycles: 7, mode: AddressingMode::AbsoluteY,
        },
        0xFC => OpCode {
            code, mnemonic: "*NOP", len: 3, cycles: 4, mode: AddressingMode::AbsoluteX,
        },
        0xFD => OpCode {
            code, mnemonic: "SBC", len: 3, cycles: 4, mode: AddressingMode::AbsoluteX,
        },
        0xFE => OpCode {
            code, mnemonic: "INC", len: 3, cycles: 7, mode: AddressingMode::AbsoluteX,
        },
        _ => OpCode { code, mnemonic: "*ISB", len: 3, cycles: 7, mode: AddressingMode::AbsoluteX },
    }
}

} // verus!
