use vstd::prelude::*;

verus! {

/// Instructions that move a byte between registers, memory and the stack.
#[derive(Clone, Copy, Debug, PartialEq, Eq, Structural)]
pub enum Transfer {
    Lda,
    Ldx,
    Ldy,
    Sta,
    Stx,
    Sty,
    Tax,
    Tay,
    Tsx,
    Txa,
    Tya,
    Txs,
    Pha,
    Pla,
    Php,
    Plp,
}

/// Instructions that compute on the accumulator or set the flags.
#[derive(Clone, Copy, Debug, PartialEq, Eq, Structural)]
pub enum Arithmetic {
    Adc,
    Sbc,
    And,
    Eor,
    Ora,
    Cmp,
    Cpx,
    Cpy,
    Bit,
    Clc,
    Sec,
    Cld,
    Sed,
    Cli,
    Sei,
    Clv,
}

/// Instructions that rewrite a register or a byte of memory in place.
#[derive(Clone, Copy, Debug, PartialEq, Eq, Structural)]
pub enum Rewrite {
    /// `ASL` on the accumulator.
    AslA,
    /// `LSR` on the accumulator.
    LsrA,
    /// `ROL` on the accumulator.
    RolA,
    /// `ROR` on the accumulator.
    RorA,
    Asl,
    Lsr,
    Rol,
    Ror,
    Inc,
    Dec,
    Inx,
    Iny,
    Dex,
    Dey,
}

/// Instructions that steer the program counter, and those that do nothing.
#[derive(Clone, Copy, Debug, PartialEq, Eq, Structural)]
pub enum Flow {
    Jmp,
    /// `JMP` through a pointer.
    JmpIndirect,
    Jsr,
    Rts,
    Rti,
    Bne,
    Beq,
    Bpl,
    Bmi,
    Bvc,
    Bvs,
    Bcc,
    Bcs,
    /// Every no-operation that touches nothing.
    Nop,
    /// A no-operation that reads its operand.
    NopRead,
}

/// The instructions that the manufacturer never documented.
#[derive(Clone, Copy, Debug, PartialEq, Eq, Structural)]
pub enum Unofficial {
    Dcp,
    Isb,
    Slo,
    Rla,
    Sre,
    Rra,
    Lax,
    Sax,
    Axs,
    Arr,
    Anc,
    Alr,
    Lxa,
    Xaa,
    Las,
    Tas,
    /// `AHX` through a zero-page pointer.
    AhxIndirect,
    Ahx,
    Shx,
    Shy,
}

/// What an instruction does, whatever way it finds its operand.
#[derive(Clone, Copy, Debug, PartialEq, Eq, Structural)]
pub enum Operation {
    /// The halt.
    Brk,
    Transfer(Transfer),
    Arithmetic(Arithmetic),
    Rewrite(Rewrite),
    Flow(Flow),
    Unofficial(Unofficial),
}

impl Operation {
    /// The operation that an opcode byte stands for.
    pub fn decode(code: u8) -> (operation: Self)
        ensures
            operation == operation_of(code),
    {
        reveal(operation_of);
        match code / 16 {
            0x0 => Self::decode_row_0(code),
            0x1 => Self::decode_row_1(code),
            0x2 => Self::decode_row_2(code),
            0x3 => Self::decode_row_3(code),
            0x4 => Self::decode_row_4(code),
            0x5 => Self::decode_row_5(code),
            0x6 => Self::decode_row_6(code),
            0x7 => Self::decode_row_7(code),
            0x8 => Self::decode_row_8(code),
            0x9 => Self::decode_row_9(code),
            0xA => Self::decode_row_a(code),
            0xB => Self::decode_row_b(code),
            0xC => Self::decode_row_c(code),
            0xD => Self::decode_row_d(code),
            0xE => Self::decode_row_e(code),
            _ => Self::decode_row_f(code),
        }
    }

    fn decode_row_0(code: u8) -> (operation: Self)
        requires
            code / 16 == 0x0,
        ensures
            operation == operation_row_0(code),
    {
        match code {
            0x00 => Operation::Brk,
            0x01 => Operation::Arithmetic(Arithmetic::Ora),
            0x02 => Operation::Flow(Flow::Nop),
            0x03 => Operation::Unofficial(Unofficial::Slo),
            0x04 => Operation::Flow(Flow::NopRead),
            0x05 => Operation::Arithmetic(Arithmetic::Ora),
            0x06 => Operation::Rewrite(Rewrite::Asl),
            0x07 => Operation::Unofficial(Unofficial::Slo),
            0x08 => Operation::Transfer(Transfer::Php),
            0x09 => Operation::Arithmetic(Arithmetic::Ora),
            0x0A => Operation::Rewrite(Rewrite::AslA),
            0x0B => Operation::Unofficial(Unofficial::Anc),
            0x0C => Operation::Flow(Flow::NopRead),
            0x0D => Operation::Arithmetic(Arithmetic::Ora),
            0x0E => Operation::Rewrite(Rewrite::Asl),
            _ => Operation::Unofficial(Unofficial::Slo),
        }
    }

    fn decode_row_1(code: u8) -> (operation: Self)
        requires
            code / 16 == 0x1,
        ensures
            operation == operation_row_1(code),
    {
        match code {
            0x10 => Operation::Flow(Flow::Bpl),
            0x11 => Operation::Arithmetic(Arithmetic::Ora),
            0x12 => Operation::Flow(Flow::Nop),
            0x13 => Operation::Unofficial(Unofficial::Slo),
            0x14 => Operation::Flow(Flow::NopRead),
            0x15 => Operation::Arithmetic(Arithmetic::Ora),
            0x16 => Operation::Rewrite(Rewrite::Asl),
            0x17 => Operation::Unofficial(Unofficial::Slo),
            0x18 => Operation::Arithmetic(Arithmetic::Clc),
            0x19 => Operation::Arithmetic(Arithmetic::Ora),
            0x1A => Operation::Flow(Flow::Nop),
            0x1B => Operation::Unofficial(Unofficial::Slo),
            0x1C => Operation::Flow(Flow::NopRead),
            0x1D => Operation::Arithmetic(Arithmetic::Ora),
            0x1E => Operation::Rewrite(Rewrite::Asl),
            _ => Operation::Unofficial(Unofficial::Slo),
        }
    }

    fn decode_row_2(code: u8) -> (operation: Self)
        requires
            code / 16 == 0x2,
        ensures
            operation == operation_row_2(code),
    {
        match code {
            0x20 => Operation::Flow(Flow::Jsr),
            0x21 => Operation::Arithmetic(Arithmetic::And),
            0x22 => Operation::Flow(Flow::Nop),
            0x23 => Operation::Unofficial(Unofficial::Rla),
            0x24 => Operation::Arithmetic(Arithmetic::Bit),
            0x25 => Operation::Arithmetic(Arithmetic::And),
            0x26 => Operation::Rewrite(Rewrite::Rol),
            0x27 => Operation::Unofficial(Unofficial::Rla),
            0x28 => Operation::Transfer(Transfer::Plp),
            0x29 => Operation::Arithmetic(Arithmetic::And),
            0x2A => Operation::Rewrite(Rewrite::RolA),
            0x2B => Operation::Unofficial(Unofficial::Anc),
            0x2C => Operation::Arithmetic(Arithmetic::Bit),
            0x2D => Operation::Arithmetic(Arithmetic::And),
            0x2E => Operation::Rewrite(Rewrite::Rol),
            _ => Operation::Unofficial(Unofficial::Rla),
        }
    }

    fn decode_row_3(code: u8) -> (operation: Self)
        requires
            code / 16 == 0x3,
        ensures
            operation == operation_row_3(code),
    {
        match code {
            0x30 => Operation::Flow(Flow::Bmi),
            0x31 => Operation::Arithmetic(Arithmetic::And),
            0x32 => Operation::Flow(Flow::Nop),
            0x33 => Operation::Unofficial(Unofficial::Rla),
            0x34 => Operation::Flow(Flow::NopRead),
            0x35 => Operation::Arithmetic(Arithmetic::And),
            0x36 => Operation::Rewrite(Rewrite::Rol),
            0x37 => Operation::Unofficial(Unofficial::Rla),
            0x38 => Operation::Arithmetic(Arithmetic::Sec),
            0x39 => Operation::Arithmetic(Arithmetic::And),
            0x3A => Operation::Flow(Flow::Nop),
            0x3B => Operation::Unofficial(Unofficial::Rla),
            0x3C => Operation::Flow(Flow::NopRead),
            0x3D => Operation::Arithmetic(Arithmetic::And),
            0x3E => Operation::Rewrite(Rewrite::Rol),
            _ => Operation::Unofficial(Unofficial::Rla),
        }
    }

    fn decode_row_4(code: u8) -> (operation: Self)
        requires
            code / 16 == 0x4,
        ensures
            operation == operation_row_4(code),
    {
        match code {
            0x40 => Operation::Flow(Flow::Rti),
            0x41 => Operation::Arithmetic(Arithmetic::Eor),
            0x42 => Operation::Flow(Flow::Nop),
            0x43 => Operation::Unofficial(Unofficial::Sre),
            0x44 => Operation::Flow(Flow::NopRead),
            0x45 => Operation::Arithmetic(Arithmetic::Eor),
            0x46 => Operation::Rewrite(Rewrite::Lsr),
            0x47 => Operation::Unofficial(Unofficial::Sre),
            0x48 => Operation::Transfer(Transfer::Pha),
            0x49 => Operation::Arithmetic(Arithmetic::Eor),
            0x4A => Operation::Rewrite(Rewrite::LsrA),
            0x4B => Operation::Unofficial(Unofficial::Alr),
            0x4C => Operation::Flow(Flow::Jmp),
            0x4D => Operation::Arithmetic(Arithmetic::Eor),
            0x4E => Operation::Rewrite(Rewrite::Lsr),
            _ => Operation::Unofficial(Unofficial::Sre),
        }
    }

    fn decode_row_5(code: u8) -> (operation: Self)
        requires
            code / 16 == 0x5,
        ensures
            operation == operation_row_5(code),
    {
        match code {
            0x50 => Operation::Flow(Flow::Bvc),
            0x51 => Operation::Arithmetic(Arithmetic::Eor),
            0x52 => Operation::Flow(Flow::Nop),
            0x53 => Operation::Unofficial(Unofficial::Sre),
            0x54 => Operation::Flow(Flow::NopRead),
            0x55 => Operation::Arithmetic(Arithmetic::Eor),
            0x56 => Operation::Rewrite(Rewrite::Lsr),
            0x57 => Operation::Unofficial(Unofficial::Sre),
            0x58 => Operation::Arithmetic(Arithmetic::Cli),
            0x59 => Operation::Arithmetic(Arithmetic::Eor),
            0x5A => Operation::Flow(Flow::Nop),
            0x5B => Operation::Unofficial(Unofficial::Sre),
            0x5C => Operation::Flow(Flow::NopRead),
            0x5D => Operation::Arithmetic(Arithmetic::Eor),
            0x5E => Operation::Rewrite(Rewrite::Lsr),
            _ => Operation::Unofficial(Unofficial::Sre),
        }
    }

    fn decode_row_6(code: u8) -> (operation: Self)
        requires
            code / 16 == 0x6,
        ensures
            operation == operation_row_6(code),
    {
        match code {
            0x60 => Operation::Flow(Flow::Rts),
            0x61 => Operation::Arithmetic(Arithmetic::Adc),
            0x62 => Operation::Flow(Flow::Nop),
            0x63 => Operation::Unofficial(Unofficial::Rra),
            0x64 => Operation::Flow(Flow::NopRead),
            0x65 => Operation::Arithmetic(Arithmetic::Adc),
            0x66 => Operation::Rewrite(Rewrite::Ror),
            0x67 => Operation::Unofficial(Unofficial::Rra),
            0x68 => Operation::Transfer(Transfer::Pla),
            0x69 => Operation::Arithmetic(Arithmetic::Adc),
            0x6A => Operation::Rewrite(Rewrite::RorA),
            0x6B => Operation::Unofficial(Unofficial::Arr),
            0x6C => Operation::Flow(Flow::JmpIndirect),
            0x6D => Operation::Arithmetic(Arithmetic::Adc),
            0x6E => Operation::Rewrite(Rewrite::Ror),
            _ => Operation::Unofficial(Unofficial::Rra),
        }
    }

    fn decode_row_7(code: u8) -> (operation: Self)
        requires
            code / 16 == 0x7,
        ensures
            operation == operation_row_7(code),
    {
        match code {
            0x70 => Operation::Flow(Flow::Bvs),
            0x71 => Operation::Arithmetic(Arithmetic::Adc),
            0x72 => Operation::Flow(Flow::Nop),
            0x73 => Operation::Unofficial(Unofficial::Rra),
            0x74 => Operation::Flow(Flow::NopRead),
            0x75 => Operation::Arithmetic(Arithmetic::Adc),
            0x76 => Operation::Rewrite(Rewrite::Ror),
            0x77 => Operation::Unofficial(Unofficial::Rra),
            0x78 => Operation::Arithmetic(Arithmetic::Sei),
            0x79 => Operation::Arithmetic(Arithmetic::Adc),
            0x7A => Operation::Flow(Flow::Nop),
            0x7B => Operation::Unofficial(Unofficial::Rra),
            0x7C => Operation::Flow(Flow::NopRead),
            0x7D => Operation::Arithmetic(Arithmetic::Adc),
            0x7E => Operation::Rewrite(Rewrite::Ror),
            _ => Operation::Unofficial(Unofficial::Rra),
        }
    }

    fn decode_row_8(code: u8) -> (operation: Self)
        requires
            code / 16 == 0x8,
        ensures
            operation == operation_row_8(code),
    {
        match code {
            0x80 => Operation::Flow(Flow::Nop),
            0x81 => Operation::Transfer(Transfer::Sta),
            0x82 => Operation::Flow(Flow::Nop),
            0x83 => Operation::Unofficial(Unofficial::Sax),
            0x84 => Operation::Transfer(Transfer::Sty),
            0x85 => Operation::Transfer(Transfer::Sta),
            0x86 => Operation::Transfer(Transfer::Stx),
            0x87 => Operation::Unofficial(Unofficial::Sax),
            0x88 => Operation::Rewrite(Rewrite::Dey),
            0x89 => Operation::Flow(Flow::Nop),
            0x8A => Operation::Transfer(Transfer::Txa),
            0x8B => Operation::Unofficial(Unofficial::Xaa),
            0x8C => Operation::Transfer(Transfer::Sty),
            0x8D => Operation::Transfer(Transfer::Sta),
            0x8E => Operation::Transfer(Transfer::Stx),
            _ => Operation::Unofficial(Unofficial::Sax),
        }
    }

    fn decode_row_9(code: u8) -> (operation: Self)
        requires
            code / 16 == 0x9,
        ensures
            operation == operation_row_9(code),
    {
        match code {
            0x90 => Operation::Flow(Flow::Bcc),
            0x91 => Operation::Transfer(Transfer::Sta),
            0x92 => Operation::Flow(Flow::Nop),
            0x93 => Operation::Unofficial(Unofficial::AhxIndirect),
            0x94 => Operation::Transfer(Transfer::Sty),
            0x95 => Operation::Transfer(Transfer::Sta),
            0x96 => Operation::Transfer(Transfer::Stx),
            0x97 => Operation::Unofficial(Unofficial::Sax),
            0x98 => Operation::Transfer(Transfer::Tya),
            0x99 => Operation::Transfer(Transfer::Sta),
            0x9A => Operation::Transfer(Transfer::Txs),
            0x9B => Operation::Unofficial(Unofficial::Tas),
            0x9C => Operation::Unofficial(Unofficial::Shy),
            0x9D => Operation::Transfer(Transfer::Sta),
            0x9E => Operation::Unofficial(Unofficial::Shx),
            _ => Operation::Unofficial(Unofficial::Ahx),
        }
    }

    fn decode_row_a(code: u8) -> (operation: Self)
        requires
            code / 16 == 0xA,
        ensures
            operation == operation_row_a(code),
    {
        match code {
            0xA0 => Operation::Transfer(Transfer::Ldy),
            0xA1 => Operation::Transfer(Transfer::Lda),
            0xA2 => Operation::Transfer(Transfer::Ldx),
            0xA3 => Operation::Unofficial(Unofficial::Lax),
            0xA4 => Operation::Transfer(Transfer::Ldy),
            0xA5 => Operation::Transfer(Transfer::Lda),
            0xA6 => Operation::Transfer(Transfer::Ldx),
            0xA7 => Operation::Unofficial(Unofficial::Lax),
            0xA8 => Operation::Transfer(Transfer::Tay),
            0xA9 => Operation::Transfer(Transfer::Lda),
            0xAA => Operation::Transfer(Transfer::Tax),
            0xAB => Operation::Unofficial(Unofficial::Lxa),
            0xAC => Operation::Transfer(Transfer::Ldy),
            0xAD => Operation::Transfer(Transfer::Lda),
            0xAE => Operation::Transfer(Transfer::Ldx),
            _ => Operation::Unofficial(Unofficial::Lax),
        }
    }

    fn decode_row_b(code: u8) -> (operation: Self)
        requires
            code / 16 == 0xB,
        ensures
            operation == operation_row_b(code),
    {
        match code {
            0xB0 => Operation::Flow(Flow::Bcs),
            0xB1 => Operation::Transfer(Transfer::Lda),
            0xB2 => Operation::Flow(Flow::Nop),
            0xB3 => Operation::Unofficial(Unofficial::Lax),
            0xB4 => Operation::Transfer(Transfer::Ldy),
            0xB5 => Operation::Transfer(Transfer::Lda),
            0xB6 => Operation::Transfer(Transfer::Ldx),
            0xB7 => Operation::Unofficial(Unofficial::Lax),
            0xB8 => Operation::Arithmetic(Arithmetic::Clv),
            0xB9 => Operation::Transfer(Transfer::Lda),
            0xBA => Operation::Transfer(Transfer::Tsx),
            0xBB => Operation::Unofficial(Unofficial::Las),
            0xBC => Operation::Transfer(Transfer::Ldy),
            0xBD => Operation::Transfer(Transfer::Lda),
            0xBE => Operation::Transfer(Transfer::Ldx),
            _ => Operation::Unofficial(Unofficial::Lax),
        }
    }

    fn decode_row_c(code: u8) -> (operation: Self)
        requires
            code / 16 == 0xC,
        ensures
            operation == operation_row_c(code),
    {
        match code {
            0xC0 => Operation::Arithmetic(Arithmetic::Cpy),
            0xC1 => Operation::Arithmetic(Arithmetic::Cmp),
            0xC2 => Operation::Flow(Flow::Nop),
            0xC3 => Operation::Unofficial(Unofficial::Dcp),
            0xC4 => Operation::Arithmetic(Arithmetic::Cpy),
            0xC5 => Operation::Arithmetic(Arithmetic::Cmp),
            0xC6 => Operation::Rewrite(Rewrite::Dec),
            0xC7 => Operation::Unofficial(Unofficial::Dcp),
            0xC8 => Operation::Rewrite(Rewrite::Iny),
            0xC9 => Operation::Arithmetic(Arithmetic::Cmp),
            0xCA => Operation::Rewrite(Rewrite::Dex),
            0xCB => Operation::Unofficial(Unofficial::Axs),
            0xCC => Operation::Arithmetic(Arithmetic::Cpy),
            0xCD => Operation::Arithmetic(Arithmetic::Cmp),
            0xCE => Operation::Rewrite(Rewrite::Dec),
            _ => Operation::Unofficial(Unofficial::Dcp),
        }
    }

    fn decode_row_d(code: u8) -> (operation: Self)
        requires
            code / 16 == 0xD,
        ensures
            operation == operation_row_d(code),
    {
        match code {
            0xD0 => Operation::Flow(Flow::Bne),
            0xD1 => Operation::Arithmetic(Arithmetic::Cmp),
            0xD2 => Operation::Flow(Flow::Nop),
            0xD3 => Operation::Unofficial(Unofficial::Dcp),
            0xD4 => Operation::Flow(Flow::NopRead),
            0xD5 => Operation::Arithmetic(Arithmetic::Cmp),
            0xD6 => Operation::Rewrite(Rewrite::Dec),
            0xD7 => Operation::Unofficial(Unofficial::Dcp),
            0xD8 => Operation::Arithmetic(Arithmetic::Cld),
            0xD9 => Operation::Arithmetic(Arithmetic::Cmp),
            0xDA => Operation::Flow(Flow::Nop),
            0xDB => Operation::Unofficial(Unofficial::Dcp),
            0xDC => Operation::Flow(Flow::NopRead),
            0xDD => Operation::Arithmetic(Arithmetic::Cmp),
            0xDE => Operation::Rewrite(Rewrite::Dec),
            _ => Operation::Unofficial(Unofficial::Dcp),
        }
    }

    fn decode_row_e(code: u8) -> (operation: Self)
        requires
            code / 16 == 0xE,
        ensures
            operation == operation_row_e(code),
    {
        match code {
            0xE0 => Operation::Arithmetic(Arithmetic::Cpx),
            0xE1 => Operation::Arithmetic(Arithmetic::Sbc),
            0xE2 => Operation::Flow(Flow::Nop),
            0xE3 => Operation::Unofficial(Unofficial::Isb),
            0xE4 => Operation::Arithmetic(Arithmetic::Cpx),
            0xE5 => Operation::Arithmetic(Arithmetic::Sbc),
            0xE6 => Operation::Rewrite(Rewrite::Inc),
            0xE7 => Operation::Unofficial(Unofficial::Isb),
            0xE8 => Operation::Rewrite(Rewrite::Inx),
            0xE9 => Operation::Arithmetic(Arithmetic::Sbc),
            0xEA => Operation::Flow(Flow::Nop),
            0xEB => Operation::Arithmetic(Arithmetic::Sbc),
            0xEC => Operation::Arithmetic(Arithmetic::Cpx),
            0xED => Operation::Arithmetic(Arithmetic::Sbc),
            0xEE => Operation::Rewrite(Rewrite::Inc),
            _ => Operation::Unofficial(Unofficial::Isb),
        }
    }

    fn decode_row_f(code: u8) -> (operation: Self)
        requires
            code / 16 == 0xF,
        ensures
            operation == operation_row_f(code),
    {
        match code {
            0xF0 => Operation::Flow(Flow::Beq),
            0xF1 => Operation::Arithmetic(Arithmetic::Sbc),
            0xF2 => Operation::Flow(Flow::Nop),
            0xF3 => Operation::Unofficial(Unofficial::Isb),
            0xF4 => Operation::Flow(Flow::NopRead),
            0xF5 => Operation::Arithmetic(Arithmetic::Sbc),
            0xF6 => Operation::Rewrite(Rewrite::Inc),
            0xF7 => Operation::Unofficial(Unofficial::Isb),
            0xF8 => Operation::Arithmetic(Arithmetic::Sed),
            0xF9 => Operation::Arithmetic(Arithmetic::Sbc),
            0xFA => Operation::Flow(Flow::Nop),
            0xFB => Operation::Unofficial(Unofficial::Isb),
            0xFC => Operation::Flow(Flow::NopRead),
            0xFD => Operation::Arithmetic(Arithmetic::Sbc),
            0xFE => Operation::Rewrite(Rewrite::Inc),
            _ => Operation::Unofficial(Unofficial::Isb),
        }
    }
}

/// The operation that each opcode byte stands for, laid out as the
/// customary matrix, one row per high nibble.
#[verifier::opaque]
pub open spec fn operation_of(code: u8) -> Operation {
    match code / 16 {
        0x0 => operation_row_0(code),
        0x1 => operation_row_1(code),
        0x2 => operation_row_2(code),
        0x3 => operation_row_3(code),
        0x4 => operation_row_4(code),
        0x5 => operation_row_5(code),
        0x6 => operation_row_6(code),
        0x7 => operation_row_7(code),
        0x8 => operation_row_8(code),
        0x9 => operation_row_9(code),
        0xA => operation_row_a(code),
        0xB => operation_row_b(code),
        0xC => operation_row_c(code),
        0xD => operation_row_d(code),
        0xE => operation_row_e(code),
        _ => operation_row_f(code),
    }
}

/// Row `0x0_` of the opcode matrix.
pub open spec fn operation_row_0(code: u8) -> Operation {
    match code {
        0x00 => Operation::Brk,
        0x01 | 0x05 | 0x09 | 0x0D => Operation::Arithmetic(Arithmetic::Ora),
        0x02 => Operation::Flow(Flow::Nop),
        0x03 | 0x07 | 0x0F => Operation::Unofficial(Unofficial::Slo),
        0x04 | 0x0C => Operation::Flow(Flow::NopRead),
        0x06 | 0x0E => Operation::Rewrite(Rewrite::Asl),
        0x08 => Operation::Transfer(Transfer::Php),
        0x0A => Operation::Rewrite(Rewrite::AslA),
        _ => Operation::Unofficial(Unofficial::Anc),
    }
}

/// Row `0x1_` of the opcode matrix.
pub open spec fn operation_row_1(code: u8) -> Operation {
    match code {
        0x10 => Operation::Flow(Flow::Bpl),
        0x11 | 0x15 | 0x19 | 0x1D => Operation::Arithmetic(Arithmetic::Ora),
        0x12 | 0x1A => Operation::Flow(Flow::Nop),
        0x13 | 0x17 | 0x1B | 0x1F => Operation::Unofficial(Unofficial::Slo),
        0x14 | 0x1C => Operation::Flow(Flow::NopRead),
        0x16 | 0x1E => Operation::Rewrite(Rewrite::Asl),
        _ => Operation::Arithmetic(Arithmetic::Clc),
    }
}

/// Row `0x2_` of the opcode matrix.
pub open spec fn operation_row_2(code: u8) -> Operation {
    match code {
        0x20 => Operation::Flow(Flow::Jsr),
        0x21 | 0x25 | 0x29 | 0x2D => Operation::Arithmetic(Arithmetic::And),
        0x22 => Operation::Flow(Flow::Nop),
        0x23 | 0x27 | 0x2F => Operation::Unofficial(Unofficial::Rla),
        0x24 | 0x2C => Operation::Arithmetic(Arithmetic::Bit),
        0x26 | 0x2E => Operation::Rewrite(Rewrite::Rol),
        0x28 => Operation::Transfer(Transfer::Plp),
        0x2A => Operation::Rewrite(Rewrite::RolA),
        _ => Operation::Unofficial(Unofficial::Anc),
    }
}

/// Row `0x3_` of the opcode matrix.
pub open spec fn operation_row_3(code: u8) -> Operation {
    match code {
        0x30 => Operation::Flow(Flow::Bmi),
        0x31 | 0x35 | 0x39 | 0x3D => Operation::Arithmetic(Arithmetic::And),
        0x32 | 0x3A => Operation::Flow(Flow::Nop),
        0x33 | 0x37 | 0x3B | 0x3F => Operation::Unofficial(Unofficial::Rla),
        0x34 | 0x3C => Operation::Flow(Flow::NopRead),
        0x36 | 0x3E => Operation::Rewrite(Rewrite::Rol),
        _ => Operation::Arithmetic(Arithmetic::Sec),
    }
}

/// Row `0x4_` of the opcode matrix.
pub open spec fn operation_row_4(code: u8) -> Operation {
    match code {
        0x40 => Operation::Flow(Flow::Rti),
        0x41 | 0x45 | 0x49 | 0x4D => Operation::Arithmetic(Arithmetic::Eor),
        0x42 => Operation::Flow(Flow::Nop),
        0x43 | 0x47 | 0x4F => Operation::Unofficial(Unofficial::Sre),
        0x44 => Operation::Flow(Flow::NopRead),
        0x46 | 0x4E => Operation::Rewrite(Rewrite::Lsr),
        0x48 => Operation::Transfer(Transfer::Pha),
        0x4A => Operation::Rewrite(Rewrite::LsrA),
        0x4B => Operation::Unofficial(Unofficial::Alr),
        _ => Operation::Flow(Flow::Jmp),
    }
}

/// Row `0x5_` of the opcode matrix.
pub open spec fn operation_row_5(code: u8) -> Operation {
    match code {
        0x50 => Operation::Flow(Flow::Bvc),
        0x51 | 0x55 | 0x59 | 0x5D => Operation::Arithmetic(Arithmetic::Eor),
        0x52 | 0x5A => Operation::Flow(Flow::Nop),
        0x53 | 0x57 | 0x5B | 0x5F => Operation::Unofficial(Unofficial::Sre),
        0x54 | 0x5C => Operation::Flow(Flow::NopRead),
        0x56 | 0x5E => Operation::Rewrite(Rewrite::Lsr),
        _ => Operation::Arithmetic(Arithmetic::Cli),
    }
}

/// Row `0x6_` of the opcode matrix.
pub open spec fn operation_row_6(code: u8) -> Operation {
    match code {
        0x60 => Operation::Flow(Flow::Rts),
        0x61 | 0x65 | 0x69 | 0x6D => Operation::Arithmetic(Arithmetic::Adc),
        0x62 => Operation::Flow(Flow::Nop),
        0x63 | 0x67 | 0x6F => Operation::Unofficial(Unofficial::Rra),
        0x64 => Operation::Flow(Flow::NopRead),
        0x66 | 0x6E => Operation::Rewrite(Rewrite::Ror),
        0x68 => Operation::Transfer(Transfer::Pla),
        0x6A => Operation::Rewrite(Rewrite::RorA),
        0x6B => Operation::Unofficial(Unofficial::Arr),
        _ => Operation::Flow(Flow::JmpIndirect),
    }
}

/// Row `0x7_` of the opcode matrix.
pub open spec fn operation_row_7(code: u8) -> Operation {
    match code {
        0x70 => Operation::Flow(Flow::Bvs),
        0x71 | 0x75 | 0x79 | 0x7D => Operation::Arithmetic(Arithmetic::Adc),
        0x72 | 0x7A => Operation::Flow(Flow::Nop),
        0x73 | 0x77 | 0x7B | 0x7F => Operation::Unofficial(Unofficial::Rra),
        0x74 | 0x7C => Operation::Flow(Flow::NopRead),
        0x76 | 0x7E => Operation::Rewrite(Rewrite::Ror),
        _ => Operation::Arithmetic(Arithmetic::Sei),
    }
}

/// Row `0x8_` of the opcode matrix.
pub open spec fn operation_row_8(code: u8) -> Operation {
    match code {
        0x80 | 0x82 | 0x89 => Operation::Flow(Flow::Nop),
        0x81 | 0x85 | 0x8D => Operation::Transfer(Transfer::Sta),
        0x83 | 0x87 | 0x8F => Operation::Unofficial(Unofficial::Sax),
        0x84 | 0x8C => Operation::Transfer(Transfer::Sty),
        0x86 | 0x8E => Operation::Transfer(Transfer::Stx),
        0x88 => Operation::Rewrite(Rewrite::Dey),
        0x8A => Operation::Transfer(Transfer::Txa),
        _ => Operation::Unofficial(Unofficial::Xaa),
    }
}

/// Row `0x9_` of the opcode matrix.
pub open spec fn operation_row_9(code: u8) -> Operation {
    match code {
        0x90 => Operation::Flow(Flow::Bcc),
        0x91 | 0x95 | 0x99 | 0x9D => Operation::Transfer(Transfer::Sta),
        0x92 => Operation::Flow(Flow::Nop),
        0x93 => Operation::Unofficial(Unofficial::AhxIndirect),
        0x94 => Operation::Transfer(Transfer::Sty),
        0x96 => Operation::Transfer(Transfer::Stx),
        0x97 => Operation::Unofficial(Unofficial::Sax),
        0x98 => Operation::Transfer(Transfer::Tya),
        0x9A => Operation::Transfer(Transfer::Txs),
        0x9B => Operation::Unofficial(Unofficial::Tas),
        0x9C => Operation::Unofficial(Unofficial::Shy),
        0x9E => Operation::Unofficial(Unofficial::Shx),
        _ => Operation::Unofficial(Unofficial::Ahx),
    }
}

/// Row `0xA_` of the opcode matrix.
pub open spec fn operation_row_a(code: u8) -> Operation {
    match code {
        0xA0 | 0xA4 | 0xAC => Operation::Transfer(Transfer::Ldy),
        0xA1 | 0xA5 | 0xA9 | 0xAD => Operation::Transfer(Transfer::Lda),
        0xA2 | 0xA6 | 0xAE => Operation::Transfer(Transfer::Ldx),
        0xA3 | 0xA7 | 0xAF => Operation::Unofficial(Unofficial::Lax),
        0xA8 => Operation::Transfer(Transfer::Tay),
        0xAA => Operation::Transfer(Transfer::Tax),
        _ => Operation::Unofficial(Unofficial::Lxa),
    }
}

/// Row `0xB_` of the opcode matrix.
pub open spec fn operation_row_b(code: u8) -> Operation {
    match code {
        0xB0 => Operation::Flow(Flow::Bcs),
        0xB1 | 0xB5 | 0xB9 | 0xBD => Operation::Transfer(Transfer::Lda),
        0xB2 => Operation::Flow(Flow::Nop),
        0xB3 | 0xB7 | 0xBF => Operation::Unofficial(Unofficial::Lax),
        0xB4 | 0xBC => Operation::Transfer(Transfer::Ldy),
        0xB6 | 0xBE => Operation::Transfer(Transfer::Ldx),
        0xB8 => Operation::Arithmetic(Arithmetic::Clv),
        0xBA => Operation::Transfer(Transfer::Tsx),
        _ => Operation::Unofficial(Unofficial::Las),
    }
}

/// Row `0xC_` of the opcode matrix.
pub open spec fn operation_row_c(code: u8) -> Operation {
    match code {
        0xC0 | 0xC4 | 0xCC => Operation::Arithmetic(Arithmetic::Cpy),
        0xC1 | 0xC5 | 0xC9 | 0xCD => Operation::Arithmetic(Arithmetic::Cmp),
        0xC2 => Operation::Flow(Flow::Nop),
        0xC3 | 0xC7 | 0xCF => Operation::Unofficial(Unofficial::Dcp),
        0xC6 | 0xCE => Operation::Rewrite(Rewrite::Dec),
        0xC8 => Operation::Rewrite(Rewrite::Iny),
        0xCA => Operation::Rewrite(Rewrite::Dex),
        _ => Operation::Unofficial(Unofficial::Axs),
    }
}

/// Row `0xD_` of the opcode matrix.
pub open spec fn operation_row_d(code: u8) -> Operation {
    match code {
        0xD0 => Operation::Flow(Flow::Bne),
        0xD1 | 0xD5 | 0xD9 | 0xDD => Operation::Arithmetic(Arithmetic::Cmp),
        0xD2 | 0xDA => Operation::Flow(Flow::Nop),
        0xD3 | 0xD7 | 0xDB | 0xDF => Operation::Unofficial(Unofficial::Dcp),
        0xD4 | 0xDC => Operation::Flow(Flow::NopRead),
        0xD6 | 0xDE => Operation::Rewrite(Rewrite::Dec),
        _ => Operation::Arithmetic(Arithmetic::Cld),
    }
}

/// Row `0xE_` of the opcode matrix.
pub open spec fn operation_row_e(code: u8) -> Operation {
    match code {
        0xE0 | 0xE4 | 0xEC => Operation::Arithmetic(Arithmetic::Cpx),
        0xE1 | 0xE5 | 0xE9 | 0xEB | 0xED => Operation::Arithmetic(Arithmetic::Sbc),
        0xE2 | 0xEA => Operation::Flow(Flow::Nop),
        0xE3 | 0xE7 | 0xEF => Operation::Unofficial(Unofficial::Isb),
        0xE6 | 0xEE => Operation::Rewrite(Rewrite::Inc),
        _ => Operation::Rewrite(Rewrite::Inx),
    }
}

/// Row `0xF_` of the opcode matrix.
pub open spec fn operation_row_f(code: u8) -> Operation {
    match code {
        0xF0 => Operation::Flow(Flow::Beq),
        0xF1 | 0xF5 | 0xF9 | 0xFD => Operation::Arithmetic(Arithmetic::Sbc),
        0xF2 | 0xFA => Operation::Flow(Flow::Nop),
        0xF3 | 0xF7 | 0xFB | 0xFF => Operation::Unofficial(Unofficial::Isb),
        0xF4 | 0xFC => Operation::Flow(Flow::NopRead),
        0xF6 | 0xFE => Operation::Rewrite(Rewrite::Inc),
        _ => Operation::Arithmetic(Arithmetic::Sed),
    }
}

} // verus!
