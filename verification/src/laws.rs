//! Laws of the machine: statements that hold of every state, proved from
//! the definitions that the contracts of the executable code use.
use vstd::prelude::*;
use crate::bits::{has_flag, with_flag};
use crate::bus::{BusState, PROGRAM_ROM_BANK_SIZE};
use crate::cpu::addressing_mode::AddressingMode;
use crate::cpu::flags::{
    pushed_status, BREAK, BREAK2, CARRY, DECIMAL_MODE, INTERRUPT_DISABLE, NEGATIVE, OVERFLOW, ZERO,
};
use crate::cpu::message::CpuMessage;
use crate::cpu::opcode::{lemma_entry_shape, opcode_entry};
use crate::cpu::operation::{Arithmetic, Flow, Operation, Rewrite, Transfer, Unofficial};
use crate::cpu::state::{CpuState, Modify, Operand};
use crate::ppu::register::status::VBLANK_STARTED;
use crate::cartridge::Mirroring;
use crate::ppu::state::{mirror_vram, PpuState, DOTS_PER_SCANLINE, SCANLINES_PER_FRAME};
use crate::cpu::opcode::OpCode;
use crate::trace::{
    align_left, align_right, hex2, hex4, hex_digit, hex_dump, instruction_bytes, instruction_text,
    operand_preview, operand_text, register_text, spaces, trace_line, InstructionBytes, Preview,
};

verus! {

/// A flag reads back as it was written.
pub proof fn lemma_flag_written(status: u8, flag: u8, on: bool)
    requires
        is_flag(flag),
    ensures
        has_flag(with_flag(status, flag, on), flag) == on,
{
    assert((status | flag) & flag == flag) by (bit_vector);
    assert((status & !flag) & flag != flag) by (bit_vector)
        requires
            flag != 0,
    ;
}

/// Setting or clearing one flag leaves every other flag alone.
pub proof fn lemma_flag_kept(status: u8, flag: u8, other: u8, on: bool)
    requires
        is_flag(flag),
        is_flag(other),
        flag != other,
    ensures
        has_flag(with_flag(status, flag, on), other) == has_flag(status, other),
{
    assert(((status | flag) & other == other) == (status & other == other) && ((status & !flag)
        & other == other) == (status & other == other)) by (bit_vector)
        requires
            flag == 1 || flag == 2 || flag == 4 || flag == 8 || flag == 16 || flag == 32 || flag
                == 64 || flag == 128,
            other == 1 || other == 2 || other == 4 || other == 8 || other == 16 || other == 32
                || other == 64 || other == 128,
            flag != other,
    ;
}

/// The eight single-bit flags of a status byte.
pub open spec fn is_flag(flag: u8) -> bool {
    flag == CARRY || flag == ZERO || flag == INTERRUPT_DISABLE || flag == DECIMAL_MODE || flag
        == BREAK || flag == BREAK2 || flag == OVERFLOW || flag == NEGATIVE
}

/// Work RAM appears four times: a byte written through any address below
/// `0x2000` reads back through each of the four addresses that share its
/// offset within the 2 KiB of memory.
pub proof fn lemma_ram_is_mirrored(bus: BusState, addr: u16, byte: u8, k: int)
    requires
        bus.wf(),
        addr <= 0x1FFF,
        0 <= k < 4,
    ensures
        bus.write(addr, byte).1 is Ok,
        bus.write(addr, byte).0.read((addr % 0x800 + k * 0x800) as u16) == (
            bus.write(addr, byte).0,
            Ok::<u8, crate::error::ErrorKind>(byte),
        ),
{
}

/// The eight registers of the picture unit repeat every eight bytes up to
/// `0x3FFF`: an access through any address in that range is the access
/// through `0x2000 + addr % 8`.
pub proof fn lemma_ppu_registers_are_mirrored(bus: BusState, addr: u16, byte: u8)
    requires
        0x2000 <= addr <= 0x3FFF,
    ensures
        bus.write(addr, byte) == bus.write((0x2000 + addr % 8) as u16, byte),
        bus.read(addr) == bus.read((0x2000 + addr % 8) as u16),
{
}

/// Reading the status register ends vertical blank and rewinds both
/// double-write registers, whatever address in the register range the
/// read came through; the value read is the status as it was.
pub proof fn lemma_status_read_resets(bus: BusState, addr: u16)
    requires
        0x2000 <= addr <= 0x3FFF,
        addr % 8 == 2,
    ensures
        bus.read(addr).1 == Ok::<u8, crate::error::ErrorKind>(bus.ppu.status),
        !has_flag(bus.read(addr).0.ppu.status, VBLANK_STARTED),
        bus.read(addr).0.ppu.address_expects_high,
        bus.read(addr).0.ppu.scroll_expects_x,
{
    let status = bus.ppu.status;
    assert((status & !0x80u8) & 0x80u8 != 0x80u8) by (bit_vector);
}

/// A program ROM of one 16 KiB bank fills the upper half of the address
/// space twice.
pub proof fn lemma_small_program_rom_is_mirrored(bus: BusState, k: u16)
    requires
        bus.program_rom.len() == PROGRAM_ROM_BANK_SIZE,
        k < 0x4000,
    ensures
        bus.read((0xC000 + k) as u16) == bus.read((0x8000 + k) as u16),
        bus.read((0x8000 + k) as u16) == (
            bus,
            Ok::<u8, crate::error::ErrorKind>(bus.program_rom[k as int]),
        ),
{
}

/// `PHA` followed by `PLA` restores the accumulator and the stack pointer,
/// and leaves Zero and Negative describing the accumulator.
pub proof fn lemma_push_pull_accumulator(cpu: CpuState, mode: AddressingMode)
    requires
        cpu.bus.wf(),
    ensures
        ({
            let pushed = cpu.perform(Operation::Transfer(Transfer::Pha), mode);
            let pulled = pushed.0.perform(Operation::Transfer(Transfer::Pla), mode);
            &&& pushed.1 is Ok
            &&& pulled.1 is Ok
            &&& pulled.0.a == cpu.a
            &&& pulled.0.x == cpu.x
            &&& pulled.0.y == cpu.y
            &&& pulled.0.pc == cpu.pc
            &&& pulled.0.sp == cpu.sp
            &&& has_flag(pulled.0.status, ZERO) == (cpu.a == 0)
            &&& has_flag(pulled.0.status, NEGATIVE) == (cpu.a >= 0x80)
        }),
{
    reveal(CpuState::transfer);
    let pushed = cpu.push(cpu.a);
    lemma_flag_written(with_flag(pushed.status, ZERO, cpu.a == 0), NEGATIVE, cpu.a >= 0x80);
    lemma_flag_written(pushed.status, ZERO, cpu.a == 0);
    lemma_flag_kept(with_flag(pushed.status, ZERO, cpu.a == 0), NEGATIVE, ZERO, cpu.a >= 0x80);
}

/// `PHP` followed by `PLP` restores the stack pointer and every flag but
/// the two break bits: Break comes back clear, the unused bit set.
pub proof fn lemma_push_pull_status(cpu: CpuState, mode: AddressingMode, flag: u8)
    requires
        cpu.bus.wf(),
        is_flag(flag),
    ensures
        ({
            let pushed = cpu.perform(Operation::Transfer(Transfer::Php), mode);
            let pulled = pushed.0.perform(Operation::Transfer(Transfer::Plp), mode);
            &&& pushed.1 is Ok
            &&& pulled.1 is Ok
            &&& pushed.0.bus.ram[0x100 + cpu.sp] == pushed_status(cpu.status)
            &&& has_flag(pushed_status(cpu.status), BREAK)
            &&& has_flag(pushed_status(cpu.status), BREAK2)
            &&& pulled.0.sp == cpu.sp
            &&& pulled.0.a == cpu.a
            &&& has_flag(pulled.0.status, flag) == if flag == BREAK {
                false
            } else if flag == BREAK2 {
                true
            } else {
                has_flag(cpu.status, flag)
            }
        }),
{
    reveal(CpuState::transfer);
    let status = cpu.status;
    assert((((status | 0x10u8) | 0x20u8) & !0x10u8) | 0x20u8 == (status & 0xEFu8) | 0x20u8
        && ((status | 0x10u8) | 0x20u8) & 0x10u8 == 0x10u8 && ((status | 0x10u8) | 0x20u8) & 0x20u8
        == 0x20u8) by (bit_vector);
    assert((((status & 0xEFu8) | 0x20u8) & flag == flag) == if flag == 0x10u8 {
        false
    } else if flag == 0x20u8 {
        true
    } else {
        status & flag == flag
    }) by (bit_vector)
        requires
            flag == 1 || flag == 2 || flag == 4 || flag == 8 || flag == 16 || flag == 32 || flag
                == 64 || flag == 128,
    ;
}

/// The unused bit of the status is set in every byte that an instruction
/// or an interrupt pushes, and in every status that is pulled. Break is
/// set in the byte that `PHP` pushes, and clear in the byte that an
/// interrupt pushes and in every status pulled.
pub proof fn lemma_break_bits(cpu: CpuState, mode: AddressingMode)
    requires
        cpu.bus.wf(),
    ensures
        has_flag(pushed_status(cpu.status), BREAK2),
        has_flag(pushed_status(cpu.status), BREAK),
        has_flag(cpu.perform(Operation::Transfer(Transfer::Plp), mode).0.status, BREAK2),
        !has_flag(cpu.perform(Operation::Transfer(Transfer::Plp), mode).0.status, BREAK),
        has_flag(cpu.perform(Operation::Flow(Flow::Rti), mode).0.status, BREAK2),
        !has_flag(cpu.perform(Operation::Flow(Flow::Rti), mode).0.status, BREAK),
        ({
            let entered = cpu.interrupt(
                crate::interrupt::interrupt_descriptor(crate::interrupt::InterruptType::NMI),
            ).0;
            let saved = entered.bus.ram[0x100 + cpu.sp.wrapping_sub(2)];
            &&& has_flag(saved, BREAK2)
            &&& !has_flag(saved, BREAK)
            &&& has_flag(entered.status, INTERRUPT_DISABLE)
        }),
{
    reveal(CpuState::transfer);
    reveal(CpuState::flow);
    reveal(CpuState::read_word);
    reveal(CpuState::tick);
    let descriptor = crate::interrupt::interrupt_descriptor(crate::interrupt::InterruptType::NMI);
    let saved = cpu.push_word(cpu.pc).push(
        (cpu.status & !(BREAK | BREAK2)) | (descriptor.b_flag_mask & (BREAK | BREAK2)),
    ).with_status_flag(INTERRUPT_DISABLE, true);
    assert(saved.bus.ram.len() == cpu.bus.ram.len());
    assert(saved.read_word(descriptor.vector_address).0.bus.ram == saved.bus.ram);
    let pulled = cpu.top();
    let status = cpu.status;
    assert(((pulled & !0x10u8) | 0x20u8) & 0x20u8 == 0x20u8 && ((pulled & !0x10u8) | 0x20u8)
        & 0x10u8 != 0x10u8 && ((status | 0x10u8) | 0x20u8) & 0x20u8 == 0x20u8 && ((status | 0x10u8)
        | 0x20u8) & 0x10u8 == 0x10u8 && ((status & !(0x10u8 | 0x20u8)) | (0x20u8 & (0x10u8
        | 0x20u8))) & 0x20u8 == 0x20u8 && ((status & !(0x10u8 | 0x20u8)) | (0x20u8 & (0x10u8
        | 0x20u8))) & 0x10u8 != 0x10u8 && (status | 0x04u8) & 0x04u8 == 0x04u8) by (bit_vector);
}

/// Addition with carry: the accumulator takes the low eight bits of the
/// sum of accumulator, operand and carry; Carry says that the sum did not
/// fit, and Zero and Negative describe the new accumulator.
pub proof fn lemma_add_with_carry(cpu: CpuState, value: u8)
    ensures
        ({
            let sum = cpu.a + value + if cpu.carry() {
                1int
            } else {
                0int
            };
            let after = cpu.add_with_carry(value);
            &&& after.a == sum % 256
            &&& after.carry() == (sum > 255)
            &&& has_flag(after.status, ZERO) == (after.a == 0)
            &&& has_flag(after.status, NEGATIVE) == (after.a >= 0x80)
        }),
{
    let sum = cpu.a + value + if cpu.carry() {
        1int
    } else {
        0int
    };
    let result = (sum % 256) as u8;
    let carried = with_flag(cpu.status, CARRY, sum > 0xFF);
    let overflow = (value ^ result) & (result ^ cpu.a) & 0x80 != 0;
    let judged = with_flag(carried, OVERFLOW, overflow);
    let zeroed = with_flag(judged, ZERO, result == 0);
    lemma_flag_written(carried, CARRY, sum > 0xFF);
    lemma_flag_written(cpu.status, CARRY, sum > 0xFF);
    lemma_flag_kept(carried, OVERFLOW, CARRY, overflow);
    lemma_flag_kept(judged, ZERO, CARRY, result == 0);
    lemma_flag_kept(zeroed, NEGATIVE, CARRY, result >= 0x80);
    lemma_flag_written(judged, ZERO, result == 0);
    lemma_flag_kept(zeroed, NEGATIVE, ZERO, result >= 0x80);
    lemma_flag_written(zeroed, NEGATIVE, result >= 0x80);
}

/// Subtraction with borrow is addition of the complement. In numbers: the
/// accumulator takes the low eight bits of accumulator minus operand
/// minus borrow, the borrow being the inverse of Carry, and Carry says
/// that no borrow was needed.
pub proof fn lemma_subtract_with_carry(cpu: CpuState, value: u8)
    ensures
        cpu.subtract_with_carry(value) == cpu.add_with_carry(value ^ 0xFF),
        ({
            let difference = cpu.a - value - if cpu.carry() {
                0int
            } else {
                1int
            };
            let after = cpu.subtract_with_carry(value);
            &&& after.a == difference % 256
            &&& after.carry() == (difference >= 0)
        }),
{
    assert(value ^ 0xFF == 255 - value) by (bit_vector);
    lemma_add_with_carry(cpu, value ^ 0xFF);
}

/// A byte rotated left through the carry and then right through the
/// carry is the byte it was, and so is the carry.
pub proof fn lemma_rotation_is_undone(value: u8, carry: bool)
    ensures
        ({
            let left = crate::cpu::state::modified(Modify::RotateLeft, value, carry);
            let back = crate::cpu::state::modified(
                Modify::RotateRight,
                left.value,
                value >= 0x80,
            );
            &&& left.carry == Some(value >= 0x80)
            &&& back.value == value
            &&& back.carry == Some(carry)
        }),
{
}

/// Rewriting the accumulator leaves Carry as the rewrite says.
proof fn lemma_rewritten_carry(cpu: CpuState, how: Modify)
    requires
        crate::cpu::state::modified(how, cpu.a, cpu.carry()).carry is Some,
    ensures
        cpu.modify_a(how).a == crate::cpu::state::modified(how, cpu.a, cpu.carry()).value,
        Some(cpu.modify_a(how).carry()) == crate::cpu::state::modified(
            how,
            cpu.a,
            cpu.carry(),
        ).carry,
{
    let result = crate::cpu::state::modified(how, cpu.a, cpu.carry());
    let carry = result.carry->Some_0;
    let carried = with_flag(cpu.status, CARRY, carry);
    let zeroed = with_flag(carried, ZERO, result.value == 0);
    lemma_flag_written(cpu.status, CARRY, carry);
    lemma_flag_kept(carried, ZERO, CARRY, result.value == 0);
    lemma_flag_kept(zeroed, NEGATIVE, CARRY, result.value >= 0x80);
}

/// `ROL A` followed by `ROR A` gives back the accumulator and the carry.
pub proof fn lemma_rotate_round_trip(cpu: CpuState, mode: AddressingMode)
    ensures
        ({
            let left = cpu.perform(Operation::Rewrite(Rewrite::RolA), mode);
            let back = left.0.perform(Operation::Rewrite(Rewrite::RorA), mode);
            &&& left.1 is Ok
            &&& back.1 is Ok
            &&& back.0.a == cpu.a
            &&& back.0.carry() == cpu.carry()
        }),
{
    assert(cpu.perform(Operation::Rewrite(Rewrite::RolA), mode) == (
        cpu.modify_a(Modify::RotateLeft),
        Ok::<(), crate::error::ErrorKind>(()),
    )) by {
        reveal(CpuState::rewrite);
    }
    let left = cpu.modify_a(Modify::RotateLeft);
    assert(left.perform(Operation::Rewrite(Rewrite::RorA), mode) == (
        left.modify_a(Modify::RotateRight),
        Ok::<(), crate::error::ErrorKind>(()),
    )) by {
        reveal(CpuState::rewrite);
    }
    lemma_rotation_is_undone(cpu.a, cpu.carry());
    lemma_rewritten_carry(cpu, Modify::RotateLeft);
    lemma_rewritten_carry(left, Modify::RotateRight);
}

/// What a trace line shows as the operand of an instruction is what the
/// instruction finds when it runs: resolving the operand from the
/// address behind the opcode byte and reading there is the same as the
/// instruction's own fetch, which starts with the program counter at
/// that address.
pub proof fn lemma_preview_is_what_is_fetched(cpu: CpuState, mode: AddressingMode)
    requires
        mode != AddressingMode::Immediate,
        mode != AddressingMode::NoneAddressing,
    ensures
        ({
            let running = CpuState { pc: cpu.pc.wrapping_add(1), ..cpu };
            let (shown, preview) = operand_preview(cpu, mode);
            let (found, operand) = running.fetch(mode);
            &&& found == (CpuState { pc: running.pc, ..shown })
            &&& match preview {
                Ok(preview) => operand is Ok && operand->Ok_0.addr == preview.addr
                    && operand->Ok_0.value == preview.value,
                Err(kind) => operand == Err::<Operand, crate::error::ErrorKind>(kind),
            }
        }),
{
    reveal(CpuState::fetch);
    reveal(CpuState::read);
    reveal(CpuState::read_word);
}

/// No access to memory changes a register, the program ROM or the count
/// of cycles, and no read changes work RAM: a read can only change the
/// picture unit.
pub proof fn lemma_read_touches_the_picture_unit_only(cpu: CpuState, addr: u16)
    ensures
        cpu.read(addr).0 == (CpuState {
            bus: BusState { ppu: cpu.read(addr).0.bus.ppu, ..cpu.bus },
            ..cpu
        }),
        cpu.read_word(addr).0 == (CpuState {
            bus: BusState { ppu: cpu.read_word(addr).0.bus.ppu, ..cpu.bus },
            ..cpu
        }),
{
    reveal(CpuState::read);
    reveal(CpuState::read_word);
}

/// Writing a trace line is reading: it changes no register, no byte
/// of work RAM and no count of cycles. The only thing it can change is
/// the picture unit, where a read of a register has its side effect.
pub proof fn lemma_trace_only_reads(cpu: CpuState)
    ensures
        trace_line(cpu).0 == (CpuState {
            bus: BusState { ppu: trace_line(cpu).0.bus.ppu, ..cpu.bus },
            ..cpu
        }),
{
    lemma_read_touches_the_picture_unit_only(cpu, cpu.pc);
    let after_code = cpu.read(cpu.pc).0;
    lemma_read_touches_the_picture_unit_only(after_code, cpu.pc.wrapping_add(1));
    let after_first = after_code.read(cpu.pc.wrapping_add(1)).0;
    lemma_read_touches_the_picture_unit_only(after_first, cpu.pc.wrapping_add(2));
    let fetched = instruction_bytes(cpu);
    if fetched.1 is Ok {
        let bytes = fetched.1->Ok_0;
        let mode = opcode_entry(bytes.code).mode;
        let at = fetched.0.pc.wrapping_add(1);
        lemma_read_touches_the_picture_unit_only(fetched.0, at);
        let resolved = fetched.0.resolve(mode, at);
        if resolved.1 is Ok {
            lemma_read_touches_the_picture_unit_only(resolved.0, resolved.1->Ok_0.0);
        }
        let previewed = operand_preview(fetched.0, mode);
        if previewed.1 is Ok {
            let pointer = crate::bits::word(bytes.first, bytes.second);
            lemma_read_touches_the_picture_unit_only(previewed.0, pointer);
            lemma_read_touches_the_picture_unit_only(
                previewed.0.read(pointer).0,
                crate::cpu::state::indirect_high_address(pointer),
            );
        }
    }
}

/// Mirroring folds the four logical nametables onto the two physical
/// ones: side by side they pair up when the mirroring is horizontal, one
/// above the other when it is vertical, and every cell lies within the
/// 2 KiB of nametable memory.
pub proof fn lemma_nametables_pair_up(offset: u16)
    requires
        offset < 0x400,
    ensures
        mirror_vram(Mirroring::Horizontal, (0x2000 + offset) as u16) == offset,
        mirror_vram(Mirroring::Horizontal, (0x2400 + offset) as u16) == offset,
        mirror_vram(Mirroring::Horizontal, (0x2800 + offset) as u16) == 0x400 + offset,
        mirror_vram(Mirroring::Horizontal, (0x2C00 + offset) as u16) == 0x400 + offset,
        mirror_vram(Mirroring::Vertical, (0x2000 + offset) as u16) == offset,
        mirror_vram(Mirroring::Vertical, (0x2400 + offset) as u16) == 0x400 + offset,
        mirror_vram(Mirroring::Vertical, (0x2800 + offset) as u16) == offset,
        mirror_vram(Mirroring::Vertical, (0x2C00 + offset) as u16) == 0x400 + offset,
        mirror_vram(Mirroring::FourScreen, (0x2C00 + offset) as u16) == 0xC00 + offset,
{
}

/// The picture unit stays within the frame: from a position within the
/// frame, a tick of no more dots than a scanline has leads to a
/// position within the frame.
pub proof fn lemma_tick_stays_within_the_frame(ppu: PpuState, dots: usize)
    requires
        ppu.scanline < SCANLINES_PER_FRAME,
        ppu.dots < DOTS_PER_SCANLINE,
        dots <= DOTS_PER_SCANLINE,
    ensures
        ppu.tick(dots).0.scanline < SCANLINES_PER_FRAME,
        ppu.tick(dots).0.dots < DOTS_PER_SCANLINE,
        ppu.tick(dots).1 == (ppu.scanline == SCANLINES_PER_FRAME - 1 && ppu.dots + dots
            >= DOTS_PER_SCANLINE),
{
}

/// The processor cycles that pass from a state in which the bus has
/// counted `before` to one in which it has counted `after`, the counter
/// being a machine word that wraps.
pub open spec fn elapsed(before: usize, after: usize) -> int {
    if after >= before {
        after - before
    } else {
        after - before + usize::MAX + 1
    }
}

/// No access to memory takes a cycle by itself.
pub proof fn lemma_access_takes_no_cycle(cpu: CpuState, addr: u16, value: u16)
    ensures
        cpu.read(addr).0.bus.cycles == cpu.bus.cycles,
        cpu.read_word(addr).0.bus.cycles == cpu.bus.cycles,
        cpu.write(addr, value as u8).0.bus.cycles == cpu.bus.cycles,
        cpu.write_word(addr, value).0.bus.cycles == cpu.bus.cycles,
{
    reveal(CpuState::read);
    reveal(CpuState::read_word);
    reveal(CpuState::write);
    reveal(CpuState::write_word);
}

/// Finding an operand, reading it, storing to it or rewriting it takes no
/// cycle by itself.
pub proof fn lemma_operand_takes_no_cycle(
    cpu: CpuState,
    mode: AddressingMode,
    at: u16,
    value: u8,
    how: Modify,
)
    ensures
        cpu.resolve(mode, at).0.bus.cycles == cpu.bus.cycles,
        cpu.fetch(mode).0.bus.cycles == cpu.bus.cycles,
        cpu.store(mode, value).0.bus.cycles == cpu.bus.cycles,
        cpu.modify(mode, how).0.bus.cycles == cpu.bus.cycles,
{
    reveal(CpuState::fetch);
    reveal(CpuState::store);
    reveal(CpuState::modify);
    lemma_access_takes_no_cycle(cpu, at, 0);
    let found = cpu.operand_address(mode);
    lemma_access_takes_no_cycle(cpu, cpu.pc, 0);
    assert(found.0.bus.cycles == cpu.bus.cycles);
    if found.1 is Ok {
        let addr = found.1->Ok_0.0;
        lemma_access_takes_no_cycle(found.0, addr, value as u16);
        let fetched = cpu.fetch(mode);
        if fetched.1 is Ok {
            let operand = fetched.1->Ok_0;
            let result = crate::cpu::state::modified(how, operand.value, fetched.0.carry());
            lemma_access_takes_no_cycle(
                fetched.0.rewritten(result),
                operand.addr,
                result.value as u16,
            );
        }
    }
}

/// The passing of `cycles` cycles is counted.
pub proof fn lemma_tick_is_counted(cpu: CpuState, cycles: u8)
    ensures
        elapsed(cpu.bus.cycles, cpu.tick(cycles as usize).bus.cycles) == cycles,
{
    reveal(CpuState::tick);
}

/// Cycles add up, as long as fewer pass than the counter can hold.
pub proof fn lemma_elapsed_adds_up(start: usize, middle: usize, end: usize)
    requires
        elapsed(start, middle) + elapsed(middle, end) <= usize::MAX,
    ensures
        elapsed(start, end) == elapsed(start, middle) + elapsed(middle, end),
{
}

proof fn lemma_transfer_cycles(cpu: CpuState, operation: Transfer, mode: AddressingMode)
    ensures
        0 <= elapsed(cpu.bus.cycles, cpu.transfer(operation, mode).0.bus.cycles) <= 1,
{
    reveal(CpuState::transfer);
    lemma_operand_takes_no_cycle(cpu, mode, cpu.pc, cpu.a, Modify::Increment);
    lemma_operand_takes_no_cycle(cpu, mode, cpu.pc, cpu.x, Modify::Increment);
    lemma_operand_takes_no_cycle(cpu, mode, cpu.pc, cpu.y, Modify::Increment);
    let fetched = cpu.fetch(mode);
    if fetched.1 is Ok {
        let m = fetched.1->Ok_0.value;
        lemma_tick_is_counted(fetched.0.load_a(m), 1);
        lemma_tick_is_counted(fetched.0.load_x(m), 1);
        lemma_tick_is_counted(fetched.0.load_y(m), 1);
    }
}

proof fn lemma_arithmetic_cycles(cpu: CpuState, operation: Arithmetic, mode: AddressingMode)
    ensures
        0 <= elapsed(cpu.bus.cycles, cpu.arithmetic(operation, mode).0.bus.cycles) <= 1,
{
    reveal(CpuState::arithmetic);
    lemma_operand_takes_no_cycle(cpu, mode, cpu.pc, cpu.a, Modify::Increment);
    let fetched = cpu.fetch(mode);
    if fetched.1 is Ok {
        let m = fetched.1->Ok_0.value;
        lemma_tick_is_counted(fetched.0.add_with_carry(m), 1);
        lemma_tick_is_counted(fetched.0.subtract_with_carry(m), 1);
        lemma_tick_is_counted(fetched.0.load_a(fetched.0.a & m), 1);
        lemma_tick_is_counted(fetched.0.load_a(fetched.0.a ^ m), 1);
        lemma_tick_is_counted(fetched.0.load_a(fetched.0.a | m), 1);
        lemma_tick_is_counted(fetched.0.compared(cpu.a, m), 1);
        lemma_tick_is_counted(fetched.0.compared(cpu.x, m), 1);
        lemma_tick_is_counted(fetched.0.compared(cpu.y, m), 1);
    }
}

proof fn lemma_rewrite_cycles(cpu: CpuState, operation: Rewrite, mode: AddressingMode)
    ensures
        elapsed(cpu.bus.cycles, cpu.rewrite(operation, mode).0.bus.cycles) == 0,
{
    reveal(CpuState::rewrite);
    lemma_operand_takes_no_cycle(cpu, mode, cpu.pc, 0, Modify::ShiftLeft);
    lemma_operand_takes_no_cycle(cpu, mode, cpu.pc, 0, Modify::ShiftRight);
    lemma_operand_takes_no_cycle(cpu, mode, cpu.pc, 0, Modify::RotateLeft);
    lemma_operand_takes_no_cycle(cpu, mode, cpu.pc, 0, Modify::RotateRight);
    lemma_operand_takes_no_cycle(cpu, mode, cpu.pc, 0, Modify::Increment);
    lemma_operand_takes_no_cycle(cpu, mode, cpu.pc, 0, Modify::Decrement);
}

proof fn lemma_branch_cycles(cpu: CpuState, condition: bool)
    ensures
        0 <= elapsed(cpu.bus.cycles, cpu.branch(condition).0.bus.cycles) <= 2,
{
    reveal(CpuState::branch);
    lemma_access_takes_no_cycle(cpu, cpu.pc, 0);
    let next = cpu.read(cpu.pc).0;
    lemma_tick_is_counted(next, 1);
    lemma_tick_is_counted(next.tick(1), 1);
    lemma_elapsed_adds_up(cpu.bus.cycles, next.tick(1).bus.cycles, next.tick(1).tick(1).bus.cycles);
}

proof fn lemma_jump_cycles(cpu: CpuState)
    ensures
        cpu.jump_absolute().0.bus.cycles == cpu.bus.cycles,
        cpu.jump_indirect().0.bus.cycles == cpu.bus.cycles,
{
    reveal(CpuState::jump_absolute);
    reveal(CpuState::jump_indirect);
    lemma_access_takes_no_cycle(cpu, cpu.pc, 0);
    let next = cpu.read_word(cpu.pc);
    if next.1 is Ok {
        let pointer = next.1->Ok_0;
        lemma_access_takes_no_cycle(next.0, pointer, 0);
        lemma_access_takes_no_cycle(
            next.0.read(pointer).0,
            crate::cpu::state::indirect_high_address(pointer),
            0,
        );
    }
}

proof fn lemma_flow_cycles(cpu: CpuState, operation: Flow, mode: AddressingMode)
    ensures
        0 <= elapsed(cpu.bus.cycles, cpu.flow(operation, mode).0.bus.cycles) <= 2,
{
    reveal(CpuState::flow);
    lemma_jump_cycles(cpu);
    lemma_jump_cycles(cpu.push_word(cpu.pc.wrapping_add(1)));
    lemma_branch_cycles(cpu, true);
    lemma_branch_cycles(cpu, false);
    lemma_operand_takes_no_cycle(cpu, mode, cpu.pc, 0, Modify::Increment);
    let fetched = cpu.fetch(mode);
    lemma_tick_is_counted(fetched.0, 1);
}

proof fn lemma_masked_store_cycles(cpu: CpuState, index: u8, register: u8, bump: bool)
    ensures
        cpu.store_masked_absolute(index, register, bump).0.bus.cycles == cpu.bus.cycles,
        cpu.store_masked_indirect(index, register).0.bus.cycles == cpu.bus.cycles,
{
    reveal(CpuState::store_masked_absolute);
    reveal(CpuState::store_masked_indirect);
    lemma_access_takes_no_cycle(cpu, cpu.pc, 0);
    let base = cpu.read_word(cpu.pc);
    if base.1 is Ok {
        let addr = base.1->Ok_0.wrapping_add(index as u16);
        let high = crate::bits::high_byte(addr);
        lemma_access_takes_no_cycle(base.0, addr, (register & high.wrapping_add(1)) as u16);
        lemma_access_takes_no_cycle(base.0, addr, (register & high) as u16);
    }
    let pointer = cpu.read(cpu.pc);
    if pointer.1 is Ok {
        lemma_access_takes_no_cycle(pointer.0, pointer.1->Ok_0 as u16, 0);
        let base = pointer.0.read_word(pointer.1->Ok_0 as u16);
        if base.1 is Ok {
            let addr = base.1->Ok_0.wrapping_add(index as u16);
            lemma_access_takes_no_cycle(
                base.0,
                addr,
                (register & crate::bits::high_byte(addr)) as u16,
            );
        }
    }
}

proof fn lemma_unofficial_cycles(cpu: CpuState, operation: Unofficial, mode: AddressingMode)
    ensures
        0 <= elapsed(cpu.bus.cycles, cpu.unofficial(operation, mode).0.bus.cycles) <= 1,
{
    reveal(CpuState::unofficial);
    lemma_operand_takes_no_cycle(cpu, mode, cpu.pc, cpu.a & cpu.x, Modify::ShiftLeft);
    lemma_operand_takes_no_cycle(cpu, mode, cpu.pc, 0, Modify::ShiftRight);
    lemma_operand_takes_no_cycle(cpu, mode, cpu.pc, 0, Modify::RotateLeft);
    lemma_operand_takes_no_cycle(cpu, mode, cpu.pc, 0, Modify::RotateRight);
    lemma_operand_takes_no_cycle(cpu, mode, cpu.pc, 0, Modify::Increment);
    lemma_operand_takes_no_cycle(cpu, mode, cpu.pc, 0, Modify::Decrement);
    lemma_operand_takes_no_cycle(cpu.load_a(cpu.x), mode, cpu.pc, 0, Modify::Decrement);
    lemma_masked_store_cycles(cpu, cpu.y, cpu.a & cpu.x, false);
    lemma_masked_store_cycles(cpu, cpu.y, cpu.x, true);
    lemma_masked_store_cycles(cpu, cpu.x, cpu.y, true);
    lemma_masked_store_cycles(
        CpuState { sp: cpu.a & cpu.x, ..cpu },
        cpu.y,
        cpu.a & cpu.x,
        true,
    );
    let fetched = cpu.fetch(mode);
    if fetched.1 is Ok {
        let m = fetched.1->Ok_0.value;
        lemma_tick_is_counted(fetched.0.load_a(m).load_x(m), 1);
    }
}

/// An instruction takes its cycles: when an instruction has run to its
/// end, the bus has counted the base cycles that the instruction table
/// gives its opcode, and at most two more, which are the penalties for a
/// page crossed and a branch taken.
pub proof fn lemma_instruction_takes_its_cycles(cpu: CpuState)
    requires
        cpu.execute_next().1 == Ok::<CpuMessage, crate::error::ErrorKind>(CpuMessage::Continue),
    ensures
        cpu.read(cpu.pc).1 is Ok,
        ({
            let base = opcode_entry(cpu.read(cpu.pc).1->Ok_0).cycles;
            base <= elapsed(cpu.bus.cycles, cpu.execute_next().0.bus.cycles) <= base + 2
        }),
{
    lemma_access_takes_no_cycle(cpu, cpu.pc, 0);
    let fetched = cpu.read(cpu.pc);
    let code = fetched.1->Ok_0;
    let opcode = opcode_entry(code);
    lemma_entry_shape(code);
    let decoded = CpuState { pc: cpu.pc.wrapping_add(1), ..fetched.0 };
    let executed = decoded.execute(code, opcode.mode);
    match crate::cpu::operation::operation_of(code) {
        Operation::Brk => {},
        Operation::Transfer(operation) => lemma_transfer_cycles(decoded, operation, opcode.mode),
        Operation::Arithmetic(operation) => lemma_arithmetic_cycles(
            decoded,
            operation,
            opcode.mode,
        ),
        Operation::Rewrite(operation) => lemma_rewrite_cycles(decoded, operation, opcode.mode),
        Operation::Flow(operation) => lemma_flow_cycles(decoded, operation, opcode.mode),
        Operation::Unofficial(operation) => lemma_unofficial_cycles(
            decoded,
            operation,
            opcode.mode,
        ),
    }
    lemma_tick_is_counted(executed.0, opcode.cycles);
    lemma_elapsed_adds_up(
        cpu.bus.cycles,
        executed.0.bus.cycles,
        executed.0.tick(opcode.cycles as usize).bus.cycles,
    );
}

/// A hexadecimal digit is one character wide, a byte two, a word four.
pub proof fn lemma_hex_widths(byte: u8, word: u16)
    ensures
        hex_digit(byte).len() == 1,
        hex2(byte).len() == 2,
        hex4(word).len() == 4,
{
    reveal_strlit("0");
    reveal_strlit("1");
    reveal_strlit("2");
    reveal_strlit("3");
    reveal_strlit("4");
    reveal_strlit("5");
    reveal_strlit("6");
    reveal_strlit("7");
    reveal_strlit("8");
    reveal_strlit("9");
    reveal_strlit("A");
    reveal_strlit("B");
    reveal_strlit("C");
    reveal_strlit("D");
    reveal_strlit("E");
    reveal_strlit("F");
    assert forall|digit: u8| #[trigger] hex_digit(digit).len() == 1 by {}
}

/// `count` spaces are `count` characters.
pub proof fn lemma_spaces_width(count: nat)
    ensures
        spaces(count).len() == count,
    decreases count,
{
    reveal_strlit(" ");
    if count > 0 {
        lemma_spaces_width((count - 1) as nat);
    }
}

/// Aligning a text fills it up to the width of the field and never cuts it.
pub proof fn lemma_aligned_width(text: Seq<char>, width: nat)
    ensures
        align_left(text, width).len() == if text.len() < width {
            width
        } else {
            text.len()
        },
        align_right(text, width).len() == if text.len() < width {
            width
        } else {
            text.len()
        },
{
    if text.len() < width {
        lemma_spaces_width((width - text.len()) as nat);
    }
}

/// Every mnemonic of the instruction table has three characters, or four
/// with the asterisk that marks an unofficial instruction.
pub proof fn lemma_mnemonic_width(code: u8)
    ensures
        3 <= opcode_entry(code).mnemonic@.len() <= 4,
{
    reveal(opcode_entry);
    reveal_strlit("*AHX");
    reveal_strlit("*ALR");
    reveal_strlit("*ANC");
    reveal_strlit("*ARR");
    reveal_strlit("*AXS");
    reveal_strlit("*DCP");
    reveal_strlit("*ISB");
    reveal_strlit("*LAS");
    reveal_strlit("*LAX");
    reveal_strlit("*LXA");
    reveal_strlit("*NOP");
    reveal_strlit("*RLA");
    reveal_strlit("*RRA");
    reveal_strlit("*SAX");
    reveal_strlit("*SBC");
    reveal_strlit("*SHX");
    reveal_strlit("*SHY");
    reveal_strlit("*SLO");
    reveal_strlit("*SRE");
    reveal_strlit("*TAS");
    reveal_strlit("*XAA");
    reveal_strlit("ADC");
    reveal_strlit("AND");
    reveal_strlit("ASL");
    reveal_strlit("BCC");
    reveal_strlit("BCS");
    reveal_strlit("BEQ");
    reveal_strlit("BIT");
    reveal_strlit("BMI");
    reveal_strlit("BNE");
    reveal_strlit("BPL");
    reveal_strlit("BRK");
    reveal_strlit("BVC");
    reveal_strlit("BVS");
    reveal_strlit("CLC");
    reveal_strlit("CLD");
    reveal_strlit("CLI");
    reveal_strlit("CLV");
    reveal_strlit("CMP");
    reveal_strlit("CPX");
    reveal_strlit("CPY");
    reveal_strlit("DEC");
    reveal_strlit("DEX");
    reveal_strlit("DEY");
    reveal_strlit("EOR");
    reveal_strlit("INC");
    reveal_strlit("INX");
    reveal_strlit("INY");
    reveal_strlit("JMP");
    reveal_strlit("JSR");
    reveal_strlit("LDA");
    reveal_strlit("LDX");
    reveal_strlit("LDY");
    reveal_strlit("LSR");
    reveal_strlit("NOP");
    reveal_strlit("ORA");
    reveal_strlit("PHA");
    reveal_strlit("PHP");
    reveal_strlit("PLA");
    reveal_strlit("PLP");
    reveal_strlit("ROL");
    reveal_strlit("ROR");
    reveal_strlit("RTI");
    reveal_strlit("RTS");
    reveal_strlit("SBC");
    reveal_strlit("SEC");
    reveal_strlit("SED");
    reveal_strlit("SEI");
    reveal_strlit("STA");
    reveal_strlit("STX");
    reveal_strlit("STY");
    reveal_strlit("TAX");
    reveal_strlit("TAY");
    reveal_strlit("TSX");
    reveal_strlit("TXA");
    reveal_strlit("TXS");
    reveal_strlit("TYA");
}

/// The bytes of an instruction take eight columns.
pub proof fn lemma_hex_dump_width(bytes: InstructionBytes, len: u8)
    ensures
        hex_dump(bytes, len).len() == 8,
{
    lemma_hex_widths(bytes.code, 0);
    lemma_hex_widths(bytes.first, 0);
    lemma_hex_widths(bytes.second, 0);
    reveal_strlit("      ");
    reveal_strlit("   ");
    reveal_strlit(" ");
}

/// No operand takes more than 26 columns.
pub proof fn lemma_operand_width(
    opcode: OpCode,
    bytes: InstructionBytes,
    pc: u16,
    x: u8,
    y: u8,
    preview: Preview,
    jump: u16,
)
    ensures
        operand_text(opcode, bytes, pc, x, y, preview, jump).len() <= 26,
{
    assert forall|byte: u8| #[trigger] hex2(byte).len() == 2 by {
        lemma_hex_widths(byte, 0);
    }
    assert forall|word: u16| #[trigger] hex4(word).len() == 4 by {
        lemma_hex_widths(0, word);
    }
    reveal_strlit("#$");
    reveal_strlit("$");
    reveal_strlit(" = ");
    reveal_strlit(",X @ ");
    reveal_strlit(",Y @ ");
    reveal_strlit("($");
    reveal_strlit(",X) @ ");
    reveal_strlit("),Y = ");
    reveal_strlit(" @ ");
    reveal_strlit("A");
    reveal_strlit(") = ");
}

/// The registers take 26 columns.
pub proof fn lemma_register_width(cpu: CpuState)
    ensures
        register_text(cpu).len() == 26,
{
    assert forall|byte: u8| #[trigger] hex2(byte).len() == 2 by {
        lemma_hex_widths(byte, 0);
    }
    reveal_strlit(" A:");
    reveal_strlit(" X:");
    reveal_strlit(" Y:");
    reveal_strlit(" P:");
    reveal_strlit(" SP:");
}

/// Every trace line is 73 columns wide: 47 for the instruction, which
/// always fits, and 26 for the registers.
pub proof fn lemma_trace_line_width(cpu: CpuState)
    requires
        trace_line(cpu).1 is Ok,
    ensures
        trace_line(cpu).1->Ok_0.len() == 73,
{
    let bytes = instruction_bytes(cpu).1->Ok_0;
    let opcode = opcode_entry(bytes.code);
    let preview = operand_preview(instruction_bytes(cpu).0, opcode.mode);
    assert forall|jump: u16|
        (#[trigger] instruction_text(
            opcode,
            bytes,
            cpu.pc,
            operand_text(opcode, bytes, cpu.pc, cpu.x, cpu.y, preview.1->Ok_0, jump),
        )).len() == 47 by {
        let operand = operand_text(opcode, bytes, cpu.pc, cpu.x, cpu.y, preview.1->Ok_0, jump);
        lemma_operand_width(opcode, bytes, cpu.pc, cpu.x, cpu.y, preview.1->Ok_0, jump);
        lemma_mnemonic_width(bytes.code);
        lemma_hex_widths(0, cpu.pc);
        lemma_hex_dump_width(bytes, opcode.len);
        lemma_aligned_width(opcode.mnemonic@, 4);
        reveal_strlit("  ");
        reveal_strlit(" ");
        let head = hex4(cpu.pc) + "  "@ + hex_dump(bytes, opcode.len) + " "@ + align_right(
            opcode.mnemonic@,
            4,
        );
        assert(head.len() == 19);
        lemma_aligned_width(head, 47);
        lemma_aligned_width(head + " "@ + operand, 47);
    }
    lemma_register_width(cpu);
}

} // verus!
