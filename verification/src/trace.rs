use vstd::prelude::*;
use vstd::string::{StrSliceExecFns, StringExecFns};

use crate::bits::{high_byte, low_byte, split_word, word};
use crate::cpu::addressing_mode::AddressingMode;
use crate::cpu::instructions::relative_target;
use crate::cpu::opcode::{opcode_entry, OpCode};
use crate::cpu::run::{Observed, StepCallback};
use crate::cpu::state::{branch_target, indirect_high_address, CpuState};
use crate::cpu::Cpu;
use crate::error::{ErrorKind, Result};
use crate::io::Access;

verus! {

/// Columns that the disassembly takes before the registers follow.
pub const INSTRUCTION_COLUMNS: usize = 47;

/// Columns that the mnemonic takes.
pub const MNEMONIC_COLUMNS: usize = 4;

/// The opcode of the indirect jump.
pub const JMP_INDIRECT: u8 = 0x6C;

/// The upper-case hexadecimal digit of a number below 16.
pub open spec fn hex_digit(digit: u8) -> Seq<char> {
    match digit {
        0 => "0"@,
        1 => "1"@,
        2 => "2"@,
        3 => "3"@,
        4 => "4"@,
        5 => "5"@,
        6 => "6"@,
        7 => "7"@,
        8 => "8"@,
        9 => "9"@,
        10 => "A"@,
        11 => "B"@,
        12 => "C"@,
        13 => "D"@,
        14 => "E"@,
        _ => "F"@,
    }
}

/// A byte as two hexadecimal digits.
pub open spec fn hex2(byte: u8) -> Seq<char> {
    hex_digit(byte / 16) + hex_digit(byte % 16)
}

/// A word as four hexadecimal digits.
pub open spec fn hex4(word: u16) -> Seq<char> {
    hex2(high_byte(word)) + hex2(low_byte(word))
}

/// `count` spaces.
pub open spec fn spaces(count: nat) -> Seq<char>
    decreases count,
{
    if count == 0 {
        Seq::empty()
    } else {
        spaces((count - 1) as nat) + " "@
    }
}

/// `text`, moved to the right end of a field of `width` columns.
pub open spec fn align_right(text: Seq<char>, width: nat) -> Seq<char> {
    if text.len() < width {
        spaces((width - text.len()) as nat) + text
    } else {
        text
    }
}

/// `text`, filled up with spaces to `width` columns.
pub open spec fn align_left(text: Seq<char>, width: nat) -> Seq<char> {
    if text.len() < width {
        text + spaces((width - text.len()) as nat)
    } else {
        text
    }
}

/// The bytes of one instruction. Operand bytes that the instruction does
/// not have are 0.
#[derive(Clone, Copy, Debug)]
pub struct InstructionBytes {
    pub code: u8,
    pub first: u8,
    pub second: u8,
}

/// What a trace line shows of an operand in memory.
#[derive(Clone, Copy, Debug)]
pub struct Preview {
    pub addr: u16,
    pub value: u8,
}

/// Reads the instruction at the program counter: the opcode byte, and as
/// many operand bytes as the instruction table gives the opcode.
pub open spec fn instruction_bytes(cpu: CpuState) -> Access<CpuState, InstructionBytes> {
    let (after_code, code) = cpu.read(cpu.pc);
    match code {
        Err(kind) => (after_code, Err(kind)),
        Ok(code) => if opcode_entry(code).len < 2 {
            (after_code, Ok(InstructionBytes { code, first: 0, second: 0 }))
        } else {
            let (after_first, first) = after_code.read(cpu.pc.wrapping_add(1));
            match first {
                Err(kind) => (after_first, Err(kind)),
                Ok(first) => if opcode_entry(code).len < 3 {
                    (after_first, Ok(InstructionBytes { code, first, second: 0 }))
                } else {
                    let (after_second, second) = after_first.read(cpu.pc.wrapping_add(2));
                    match second {
                        Err(kind) => (after_second, Err(kind)),
                        Ok(second) => (after_second, Ok(InstructionBytes { code, first, second })),
                    }
                },
            }
        },
    }
}

/// The operand that the instruction at the program counter is about to
/// use: its address, and the byte there. Instructions without an operand
/// in memory show a zero for both.
pub open spec fn operand_preview(cpu: CpuState, mode: AddressingMode) -> Access<CpuState, Preview> {
    match mode {
        AddressingMode::Immediate | AddressingMode::NoneAddressing => (
            cpu,
            Ok(Preview { addr: 0, value: 0 }),
        ),
        _ => {
            let (resolved, place) = cpu.resolve(mode, cpu.pc.wrapping_add(1));
            match place {
                Err(kind) => (resolved, Err(kind)),
                Ok((addr, _)) => {
                    let (after, value) = resolved.read(addr);
                    match value {
                        Err(kind) => (after, Err(kind)),
                        Ok(value) => (after, Ok(Preview { addr, value })),
                    }
                },
            }
        },
    }
}

/// Where an indirect jump through `pointer` would lead.
pub open spec fn jump_preview(cpu: CpuState, pointer: u16) -> Access<CpuState, u16> {
    let (after_low, low) = cpu.read(pointer);
    match low {
        Err(kind) => (after_low, Err(kind)),
        Ok(low) => {
            let (after_high, high) = after_low.read(indirect_high_address(pointer));
            match high {
                Err(kind) => (after_high, Err(kind)),
                Ok(high) => (after_high, Ok(word(low, high))),
            }
        },
    }
}

/// The instruction's bytes in hexadecimal, in a field of eight columns.
pub open spec fn hex_dump(bytes: InstructionBytes, len: u8) -> Seq<char> {
    if len < 2 {
        hex2(bytes.code) + "      "@
    } else if len < 3 {
        hex2(bytes.code) + " "@ + hex2(bytes.first) + "   "@
    } else {
        hex2(bytes.code) + " "@ + hex2(bytes.first) + " "@ + hex2(bytes.second)
    }
}

/// The operand as the assembler would write it, followed by what the
/// instruction finds there. `pc` is the address of the opcode byte,
/// `jump` the target of an indirect jump.
pub open spec fn operand_text(
    opcode: OpCode,
    bytes: InstructionBytes,
    pc: u16,
    x: u8,
    y: u8,
    preview: Preview,
    jump: u16,
) -> Seq<char> {
    let address = word(bytes.first, bytes.second);
    match opcode.mode {
        AddressingMode::Immediate => "#$"@ + hex2(bytes.first),
        AddressingMode::ZeroPage => "$"@ + hex2(low_byte(preview.addr)) + " = "@ + hex2(
            preview.value,
        ),
        AddressingMode::ZeroPageX => "$"@ + hex2(bytes.first) + ",X @ "@ + hex2(
            low_byte(preview.addr),
        ) + " = "@ + hex2(preview.value),
        AddressingMode::ZeroPageY => "$"@ + hex2(bytes.first) + ",Y @ "@ + hex2(
            low_byte(preview.addr),
        ) + " = "@ + hex2(preview.value),
        AddressingMode::IndirectX => "($"@ + hex2(bytes.first) + ",X) @ "@ + hex2(
            bytes.first.wrapping_add(x),
        ) + " = "@ + hex4(preview.addr) + " = "@ + hex2(preview.value),
        AddressingMode::IndirectY => "($"@ + hex2(bytes.first) + "),Y = "@ + hex4(
            preview.addr.wrapping_sub(y as u16),
        ) + " @ "@ + hex4(preview.addr) + " = "@ + hex2(preview.value),
        AddressingMode::Absolute => "$"@ + hex4(preview.addr) + " = "@ + hex2(preview.value),
        AddressingMode::AbsoluteX => "$"@ + hex4(address) + ",X @ "@ + hex4(preview.addr)
            + " = "@ + hex2(preview.value),
        AddressingMode::AbsoluteY => "$"@ + hex4(address) + ",Y @ "@ + hex4(preview.addr)
            + " = "@ + hex2(preview.value),
        AddressingMode::NoneAddressing => if opcode.len < 2 {
            if opcode.code == 0x0A || opcode.code == 0x4A || opcode.code == 0x2A || opcode.code
                == 0x6A {
                "A"@
            } else {
                Seq::empty()
            }
        } else if opcode.len < 3 {
            "$"@ + hex4(branch_target(pc.wrapping_add(1), bytes.first))
        } else if opcode.code == JMP_INDIRECT {
            "($"@ + hex4(address) + ") = "@ + hex4(jump)
        } else {
            "$"@ + hex4(address)
        },
    }
}

/// The left part of a trace line: address, bytes, mnemonic and operand,
/// in a field of `INSTRUCTION_COLUMNS` columns.
pub open spec fn instruction_text(
    opcode: OpCode,
    bytes: InstructionBytes,
    pc: u16,
    operand: Seq<char>,
) -> Seq<char> {
    let head = hex4(pc) + "  "@ + hex_dump(bytes, opcode.len) + " "@ + align_right(
        opcode.mnemonic@,
        MNEMONIC_COLUMNS as nat,
    );
    align_left(
        if operand.len() == 0 {
            head
        } else {
            head + " "@ + operand
        },
        INSTRUCTION_COLUMNS as nat,
    )
}

/// The right part of a trace line: the registers.
pub open spec fn register_text(cpu: CpuState) -> Seq<char> {
    " A:"@ + hex2(cpu.a) + " X:"@ + hex2(cpu.x) + " Y:"@ + hex2(cpu.y) + " P:"@ + hex2(
        cpu.status,
    ) + " SP:"@ + hex2(cpu.sp)
}

/// The trace line of the instruction at the program counter, and the
/// machine after the reads that it took to write the line. No cycle
/// passes meanwhile.
pub open spec fn trace_line(cpu: CpuState) -> Access<CpuState, Seq<char>> {
    let (fetched, bytes) = instruction_bytes(cpu);
    match bytes {
        Err(kind) => (fetched, Err(kind)),
        Ok(bytes) => {
            let opcode = opcode_entry(bytes.code);
            let (previewed, preview) = operand_preview(fetched, opcode.mode);
            match preview {
                Err(kind) => (previewed, Err(kind)),
                Ok(preview) => {
                    let (followed, jump) = if bytes.code == JMP_INDIRECT {
                        jump_preview(previewed, word(bytes.first, bytes.second))
                    } else {
                        (previewed, Ok(0u16))
                    };
                    match jump {
                        Err(kind) => (followed, Err(kind)),
                        Ok(jump) => (
                            followed,
                            Ok(
                                instruction_text(
                                    opcode,
                                    bytes,
                                    cpu.pc,
                                    operand_text(
                                        opcode,
                                        bytes,
                                        cpu.pc,
                                        cpu.x,
                                        cpu.y,
                                        preview,
                                        jump,
                                    ),
                                ) + register_text(cpu),
                            ),
                        ),
                    }
                },
            }
        },
    }
}

/// What a function that yields a text yields once the error payload is
/// set aside.
pub open spec fn text_outcome(r: Result<String>) -> std::result::Result<Seq<char>, ErrorKind> {
    match r {
        Ok(text) => Ok(text@),
        Err(e) => Err(e.kind()),
    }
}

fn hex_digit_text(digit: u8) -> (text: &'static str)
    ensures
        text@ == hex_digit(digit),
{
    match digit {
        0 => "0",
        1 => "1",
        2 => "2",
        3 => "3",
        4 => "4",
        5 => "5",
        6 => "6",
        7 => "7",
        8 => "8",
        9 => "9",
        10 => "A",
        11 => "B",
        12 => "C",
        13 => "D",
        14 => "E",
        _ => "F",
    }
}

/// A byte as two upper-case hexadecimal digits.
pub fn format_byte(byte: u8) -> (text: String)
    ensures
        text@ == hex2(byte),
{
    let mut text = String::from_str(hex_digit_text(byte / 16));
    text.append(hex_digit_text(byte % 16));
    text
}

/// A word as four upper-case hexadecimal digits.
pub fn format_word(word: u16) -> (text: String)
    ensures
        text@ == hex4(word),
{
    let (lo, hi) = split_word(word);
    let mut text = format_byte(hi);
    text.append(format_byte(lo).as_str());
    text
}

fn blank(count: usize) -> (text: String)
    ensures
        text@ == spaces(count as nat),
{
    let mut text = String::new();
    let mut i: usize = 0;
    while i < count
        invariant
            i <= count,
            text@ == spaces(i as nat),
        decreases count - i,
    {
        text.append(" ");
        i += 1;
    }
    text
}

fn pad_start(text: &str, width: usize) -> (padded: String)
    ensures
        padded@ == align_right(text@, width as nat),
{
    let len = text.unicode_len();
    if len < width {
        let mut padded = blank(width - len);
        padded.append(text);
        padded
    } else {
        String::from_str(text)
    }
}

fn pad_end(text: String, width: usize) -> (padded: String)
    ensures
        padded@ == align_left(text@, width as nat),
{
    let len = text.as_str().unicode_len();
    if len < width {
        let mut padded = text;
        padded.append(blank(width - len).as_str());
        padded
    } else {
        text
    }
}

fn format_dump(bytes: InstructionBytes, len: u8) -> (text: String)
    ensures
        text@ == hex_dump(bytes, len),
{
    let mut text = format_byte(bytes.code);
    if len < 2 {
        text.append("      ");
    } else if len < 3 {
        text.append(" ");
        text.append(format_byte(bytes.first).as_str());
        text.append("   ");
    } else {
        text.append(" ");
        text.append(format_byte(bytes.first).as_str());
        text.append(" ");
        text.append(format_byte(bytes.second).as_str());
    }
    text
}

/// Writes an operand the way the reference log does.
pub fn format_operand(
    opcode: &OpCode,
    bytes: InstructionBytes,
    pc: u16,
    x: u8,
    y: u8,
    preview: Preview,
    jump: u16,
) -> (text: String)
    ensures
        text@ == operand_text(*opcode, bytes, pc, x, y, preview, jump),
{
    let address = crate::bits::make_word(bytes.first, bytes.second);
    let (addr_low, _) = split_word(preview.addr);
    match opcode.mode() {
        AddressingMode::Immediate => {
            let mut text = String::from_str("#$");
            text.append(format_byte(bytes.first).as_str());
            text
        },
        AddressingMode::ZeroPage => {
            let mut text = String::from_str("$");
            text.append(format_byte(addr_low).as_str());
            text.append(" = ");
            text.append(format_byte(preview.value).as_str());
            text
        },
        AddressingMode::ZeroPageX => {
            let mut text = String::from_str("$");
            text.append(format_byte(bytes.first).as_str());
            text.append(",X @ ");
            text.append(format_byte(addr_low).as_str());
            text.append(" = ");
            text.append(format_byte(preview.value).as_str());
            text
        },
        AddressingMode::ZeroPageY => {
            let mut text = String::from_str("$");
            text.append(format_byte(bytes.first).as_str());
            text.append(",Y @ ");
            text.append(format_byte(addr_low).as_str());
            text.append(" = ");
            text.append(format_byte(preview.value).as_str());
            text
        },
        AddressingMode::IndirectX => {
            let mut text = String::from_str("($");
            text.append(format_byte(bytes.first).as_str());
            text.append(",X) @ ");
            text.append(format_byte(bytes.first.wrapping_add(x)).as_str());
            text.append(" = ");
            text.append(format_word(preview.addr).as_str());
            text.append(" = ");
            text.append(format_byte(preview.value).as_str());
            text
        },
        AddressingMode::IndirectY => {
            let mut text = String::from_str("($");
            text.append(format_byte(bytes.first).as_str());
            text.append("),Y = ");
            text.append(format_word(preview.addr.wrapping_sub(y as u16)).as_str());
            text.append(" @ ");
            text.append(format_word(preview.addr).as_str());
            text.append(" = ");
            text.append(format_byte(preview.value).as_str());
            text
        },
        AddressingMode::Absolute => {
            let mut text = String::from_str("$");
            text.append(format_word(preview.addr).as_str());
            text.append(" = ");
            text.append(format_byte(preview.value).as_str());
            text
        },
        AddressingMode::AbsoluteX => {
            let mut text = String::from_str("$");
            text.append(format_word(address).as_str());
            text.append(",X @ ");
            text.append(format_word(preview.addr).as_str());
            text.append(" = ");
            text.append(format_byte(preview.value).as_str());
            text
        },
        AddressingMode::AbsoluteY => {
            let mut text = String::from_str("$");
            text.append(format_word(address).as_str());
            text.append(",Y @ ");
            text.append(format_word(preview.addr).as_str());
            text.append(" = ");
            text.append(format_byte(preview.value).as_str());
            text
        },
        AddressingMode::NoneAddressing => {
            let code = opcode.code();
            if opcode.len() < 2 {
                if code == 0x0A || code == 0x4A || code == 0x2A || code == 0x6A {
                    String::from_str("A")
                } else {
                    String::new()
                }
            } else if opcode.len() < 3 {
                let mut text = String::from_str("$");
                text.append(format_word(relative_target(pc.wrapping_add(1), bytes.first)).as_str());
                text
            } else if code == JMP_INDIRECT {
                let mut text = String::from_str("($");
                text.append(format_word(address).as_str());
                text.append(") = ");
                text.append(format_word(jump).as_str());
                text
            } else {
                let mut text = String::from_str("$");
                text.append(format_word(address).as_str());
                text
            }
        },
    }
}

/// Writes the left part of a trace line.
pub fn format_instruction(
    opcode: &OpCode,
    bytes: InstructionBytes,
    pc: u16,
    operand: &str,
) -> (text: String)
    ensures
        text@ == instruction_text(*opcode, bytes, pc, operand@),
{
    let mut text = format_word(pc);
    text.append("  ");
    text.append(format_dump(bytes, opcode.len()).as_str());
    text.append(" ");
    text.append(pad_start(opcode.mnemonic(), MNEMONIC_COLUMNS).as_str());
    if operand.unicode_len() != 0 {
        text.append(" ");
        text.append(operand);
    }
    pad_end(text, INSTRUCTION_COLUMNS)
}

/// Writes the right part of a trace line.
pub fn format_registers(cpu: &Cpu) -> (text: String)
    ensures
        text@ == register_text(cpu@),
{
    let mut text = String::from_str(" A:");
    text.append(format_byte(cpu.register_a.get()).as_str());
    text.append(" X:");
    text.append(format_byte(cpu.register_x.get()).as_str());
    text.append(" Y:");
    text.append(format_byte(cpu.register_y.get()).as_str());
    text.append(" P:");
    text.append(format_byte(cpu.status.bits()).as_str());
    text.append(" SP:");
    text.append(format_byte(cpu.stack_pointer.get()).as_str());
    text
}

fn read_instruction_bytes(cpu: &mut Cpu) -> (r: Result<InstructionBytes>)
    ensures
        (final(cpu)@, crate::error::outcome(r)) == instruction_bytes(old(cpu)@),
{
    let pc = cpu.program_counter.get();
    let code = match cpu.mem_read_byte(pc) {
        Ok(byte) => byte,
        Err(e) => {
            return Err(e);
        },
    };
    let len = OpCode::lookup(code).len();
    if len < 2 {
        return Ok(InstructionBytes { code, first: 0, second: 0 });
    }
    let first = match cpu.mem_read_byte(pc.wrapping_add(1)) {
        Ok(byte) => byte,
        Err(e) => {
            return Err(e);
        },
    };
    if len < 3 {
        return Ok(InstructionBytes { code, first, second: 0 });
    }
    match cpu.mem_read_byte(pc.wrapping_add(2)) {
        Ok(second) => Ok(InstructionBytes { code, first, second }),
        Err(e) => Err(e),
    }
}

fn preview_operand(cpu: &mut Cpu, mode: AddressingMode) -> (r: Result<Preview>)
    ensures
        (final(cpu)@, crate::error::outcome(r)) == operand_preview(old(cpu)@, mode),
{
    match mode {
        AddressingMode::Immediate | AddressingMode::NoneAddressing => Ok(
            Preview { addr: 0, value: 0 },
        ),
        _ => {
            let at = cpu.program_counter.get().wrapping_add(1);
            let (addr, _) = match cpu.get_absolute_address(mode, at) {
                Ok(place) => place,
                Err(e) => {
                    return Err(e);
                },
            };
            match cpu.mem_read_byte(addr) {
                Ok(value) => Ok(Preview { addr, value }),
                Err(e) => Err(e),
            }
        },
    }
}

fn preview_jump(cpu: &mut Cpu, pointer: u16) -> (r: Result<u16>)
    ensures
        (final(cpu)@, crate::error::outcome(r)) == jump_preview(old(cpu)@, pointer),
{
    let lo = match cpu.mem_read_byte(pointer) {
        Ok(byte) => byte,
        Err(e) => {
            return Err(e);
        },
    };
    let (pointer_low, _) = split_word(pointer);
    let high_addr = if pointer_low == 0xFF {
        pointer - 0xFF
    } else {
        pointer + 1
    };
    match cpu.mem_read_byte(high_addr) {
        Ok(hi) => Ok(crate::bits::make_word(lo, hi)),
        Err(e) => Err(e),
    }
}

/// Writes the trace line of the instruction that the processor is about
/// to execute: where it is, its bytes, its disassembly with the operand
/// that it will find, and the registers. The line is made by reading
/// through the bus; no cycle passes and no register changes.
pub fn trace(cpu: &mut Cpu) -> (r: Result<String>)
    ensures
        (final(cpu)@, text_outcome(r)) == trace_line(old(cpu)@),
{
    let pc = cpu.program_counter.get();
    let x = cpu.register_x.get();
    let y = cpu.register_y.get();
    let registers = format_registers(cpu);

    let bytes = match read_instruction_bytes(cpu) {
        Ok(bytes) => bytes,
        Err(e) => {
            return Err(e);
        },
    };
    let opcode = OpCode::lookup(bytes.code);
    let preview = match preview_operand(cpu, opcode.mode()) {
        Ok(preview) => preview,
        Err(e) => {
            return Err(e);
        },
    };
    let jump = if bytes.code == JMP_INDIRECT {
        match preview_jump(cpu, crate::bits::make_word(bytes.first, bytes.second)) {
            Ok(target) => target,
            Err(e) => {
                return Err(e);
            },
        }
    } else {
        0
    };
    let operand = format_operand(&opcode, bytes, pc, x, y, preview, jump);
    let mut line = format_instruction(&opcode, bytes, pc, operand.as_str());
    line.append(registers.as_str());

    Ok(line)
}

/// A step callback that keeps the trace line of every instruction that
/// the processor is about to execute.
#[derive(Debug)]
pub struct TraceLog {
    pub lines: Vec<String>,
}

impl TraceLog {
    pub fn new() -> (log: Self)
        ensures
            log.record() == Seq::<Seq<char>>::empty(),
    {
        let log = TraceLog { lines: Vec::new() };
        assert(log.record() =~= Seq::<Seq<char>>::empty());
        log
    }
}

impl StepCallback for TraceLog {
    type Record = Seq<Seq<char>>;

    /// The lines gathered so far, oldest first.
    open spec fn record(&self) -> Seq<Seq<char>> {
        self.lines@.map_values(|line: String| line@)
    }

    open spec fn on_step_spec(record: Seq<Seq<char>>, cpu: CpuState) -> Observed<Seq<Seq<char>>> {
        let (after, line) = trace_line(cpu);
        match line {
            Ok(line) => (record.push(line), after, Ok(())),
            Err(kind) => (record, after, Err(kind)),
        }
    }

    fn on_step(&mut self, cpu: &mut Cpu) -> (r: Result<()>) {
        match trace(cpu) {
            Ok(line) => {
                let ghost text = line@;
                self.lines.push(line);
                assert(self.record() =~= old(self).record().push(text));
                Ok(())
            },
            Err(e) => Err(e),
        }
    }
}

} // verus!
