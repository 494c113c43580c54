use vstd::prelude::*;
use crate::bits::{add16, has_flag, high_byte, low_byte, page_crossed, signed, with_flag, word};
use crate::bus::BusState;
use crate::cpu::addressing_mode::AddressingMode;
use crate::cpu::flags::{
    pulled_status, pushed_status, with_zero_negative, BREAK, BREAK2, CARRY, DECIMAL_MODE,
    INTERRUPT_DISABLE, NEGATIVE, OVERFLOW, RESET_STATUS, ZERO,
};
use crate::cpu::message::CpuMessage;
use crate::cpu::opcode::opcode_entry;
use crate::cpu::operation::{
    operation_of, Arithmetic, Flow, Operation, Rewrite, Transfer, Unofficial,
};
use crate::error::ErrorKind;
use crate::interrupt::{interrupt_descriptor, Interrupt, InterruptType};
use crate::io::Access;

verus! {

/// The stack occupies the page that starts here.
pub const STACK_START_ADDR: u16 = 0x0100;

/// The stack pointer after reset.
pub const STACK_RESET: u8 = 0xFD;

/// Where the address of the program's entry point is stored.
pub const RESET_VECTOR: u16 = 0xFFFC;

/// The processor and all it can reach, as plain values.
pub struct CpuState {
    pub a: u8,
    pub x: u8,
    pub y: u8,
    pub pc: u16,
    pub sp: u8,
    pub status: u8,
    pub bus: BusState,
}

/// An operand in memory.
#[derive(Clone, Copy, Debug)]
pub struct Operand {
    pub addr: u16,
    pub value: u8,
    /// Indexing carried the address onto another page.
    pub page_crossed: bool,
}

/// The ways in which an instruction rewrites a byte in place.
#[derive(Clone, Copy, Debug, PartialEq, Eq, Structural)]
pub enum Modify {
    ShiftLeft,
    ShiftRight,
    RotateLeft,
    RotateRight,
    Increment,
    Decrement,
}

/// What rewriting a byte yields: the new byte, and the carry that falls
/// out of a shift or rotation.
#[derive(Clone, Copy, Debug)]
pub struct Modified {
    pub value: u8,
    pub carry: Option<bool>,
}

/// The effect of `how` on `value`, with `carry_in` entering a rotation.
pub open spec fn modified(how: Modify, value: u8, carry_in: bool) -> Modified {
    match how {
        Modify::ShiftLeft => Modified {
            value: ((value * 2) % 256) as u8,
            carry: Some(value >= 0x80),
        },
        Modify::ShiftRight => Modified { value: value / 2, carry: Some(value % 2 == 1) },
        Modify::RotateLeft => Modified {
            value: ((value * 2) % 256 + if carry_in {
                1int
            } else {
                0int
            }) as u8,
            carry: Some(value >= 0x80),
        },
        Modify::RotateRight => Modified {
            value: (value / 2 + if carry_in {
                128int
            } else {
                0int
            }) as u8,
            carry: Some(value % 2 == 1),
        },
        Modify::Increment => Modified { value: value.wrapping_add(1), carry: None },
        Modify::Decrement => Modified { value: value.wrapping_sub(1), carry: None },
    }
}

/// The address that a taken branch at `pc` leads to, `pc` being the
/// address of the offset byte: the address after it, plus the offset
/// read as a signed number.
pub open spec fn branch_target(pc: u16, offset: u8) -> u16 {
    add16(pc, 1 + signed(offset))
}

/// Where an indirect jump through `pointer` finds the high byte of its
/// target: at the next address, but never beyond the pointer's own page.
pub open spec fn indirect_high_address(pointer: u16) -> u16 {
    if low_byte(pointer) == 0xFF {
        (pointer - 0xFF) as u16
    } else {
        (pointer + 1) as u16
    }
}

impl CpuState {
    /// The machine as it stands when a bus has been plugged in.
    pub open spec fn power_on(bus: BusState) -> CpuState {
        CpuState { a: 0, x: 0, y: 0, pc: 0, sp: STACK_RESET, status: RESET_STATUS, bus }
    }

    /// Whether Carry is set.
    pub open spec fn carry(self) -> bool {
        has_flag(self.status, CARRY)
    }

    /// The machine with one flag set or cleared.
    pub open spec fn with_status_flag(self, flag: u8, on: bool) -> CpuState {
        CpuState { status: with_flag(self.status, flag, on), ..self }
    }

    // Memory.

    /// A read of one byte through the bus.
    #[verifier::opaque]
    pub open spec fn read(self, addr: u16) -> Access<CpuState, u8> {
        let (bus, data) = self.bus.read(addr);
        (CpuState { bus, ..self }, data)
    }

    /// A write of one byte through the bus.
    #[verifier::opaque]
    pub open spec fn write(self, addr: u16, byte: u8) -> Access<CpuState, ()> {
        let (bus, done) = self.bus.write(addr, byte);
        (CpuState { bus, ..self }, done)
    }

    /// A read of a little-endian word through the bus.
    #[verifier::opaque]
    pub open spec fn read_word(self, addr: u16) -> Access<CpuState, u16> {
        let (bus, data) = self.bus.read_word(addr);
        (CpuState { bus, ..self }, data)
    }

    /// A write of a little-endian word through the bus.
    #[verifier::opaque]
    pub open spec fn write_word(self, addr: u16, word: u16) -> Access<CpuState, ()> {
        let (bus, done) = self.bus.write_word(addr, word);
        (CpuState { bus, ..self }, done)
    }

    /// The machine after `cycles` cycles have passed.
    #[verifier::opaque]
    pub open spec fn tick(self, cycles: usize) -> CpuState {
        CpuState { bus: self.bus.tick(cycles), ..self }
    }

    /// One more cycle if `penalty` holds.
    pub open spec fn tick_if(self, penalty: bool) -> CpuState {
        if penalty {
            self.tick(1)
        } else {
            self
        }
    }

    /// The word whose low byte is the zero-page cell `pointer` and whose
    /// high byte is the cell after it, which for `0xFF` is cell 0.
    pub open spec fn zero_page_word(self, pointer: u8) -> u16 {
        word(self.bus.ram[pointer as int], self.bus.ram[pointer.wrapping_add(1) as int])
    }

    // The stack. It lies in work RAM, so that no access to it can fail.

    /// The machine with `value` pushed: it goes where the stack pointer
    /// points, and the pointer moves down.
    pub open spec fn push(self, value: u8) -> CpuState {
        CpuState {
            sp: self.sp.wrapping_sub(1),
            bus: BusState {
                ram: self.bus.ram.update(STACK_START_ADDR + self.sp, value),
                ..self.bus
            },
            ..self
        }
    }

    /// Pushes the high byte, then the low byte.
    pub open spec fn push_word(self, value: u16) -> CpuState {
        self.push(high_byte(value)).push(low_byte(value))
    }

    /// The byte on top of the stack.
    pub open spec fn top(self) -> u8 {
        self.bus.ram[STACK_START_ADDR + self.sp.wrapping_add(1)]
    }

    /// The machine with the top byte taken off the stack.
    pub open spec fn pop(self) -> CpuState {
        CpuState { sp: self.sp.wrapping_add(1), ..self }
    }

    /// The word on top of the stack, low byte uppermost.
    pub open spec fn top_word(self) -> u16 {
        word(self.top(), self.pop().top())
    }

    // Operands.

    /// The effective address of the operand whose description starts at
    /// `at`, and whether indexing crossed a page on the way to it.
    pub open spec fn resolve(self, mode: AddressingMode, at: u16) -> Access<CpuState, (u16, bool)> {
        match mode {
            AddressingMode::ZeroPage | AddressingMode::ZeroPageX | AddressingMode::ZeroPageY
            | AddressingMode::IndirectX | AddressingMode::IndirectY => {
                let (next, data) = self.read(at);
                match data {
                    Err(kind) => (next, Err(kind)),
                    Ok(byte) => (
                        next,
                        Ok(
                            match mode {
                                AddressingMode::ZeroPage => (byte as u16, false),
                                AddressingMode::ZeroPageX => (
                                    byte.wrapping_add(self.x) as u16,
                                    false,
                                ),
                                AddressingMode::ZeroPageY => (
                                    byte.wrapping_add(self.y) as u16,
                                    false,
                                ),
                                AddressingMode::IndirectX => (
                                    next.zero_page_word(byte.wrapping_add(self.x)),
                                    false,
                                ),
                                _ => {
                                    let base = next.zero_page_word(byte);
                                    let effective = base.wrapping_add(self.y as u16);
                                    (effective, page_crossed(base, effective))
                                },
                            },
                        ),
                    ),
                }
            },
            AddressingMode::Absolute | AddressingMode::AbsoluteX | AddressingMode::AbsoluteY => {
                let (next, data) = self.read_word(at);
                match data {
                    Err(kind) => (next, Err(kind)),
                    Ok(base) => {
                        let index = match mode {
                            AddressingMode::Absolute => 0u8,
                            AddressingMode::AbsoluteX => self.x,
                            _ => self.y,
                        };
                        let effective = base.wrapping_add(index as u16);
                        (next, Ok((effective, page_crossed(base, effective))))
                    },
                }
            },
            AddressingMode::Immediate | AddressingMode::NoneAddressing => (
                self,
                Err(ErrorKind::Unsupported),
            ),
        }
    }

    /// The address of the operand of the instruction whose operand bytes
    /// start at the program counter.
    pub open spec fn operand_address(self, mode: AddressingMode) -> Access<CpuState, (u16, bool)> {
        match mode {
            AddressingMode::Immediate => (self, Ok((self.pc, false))),
            _ => self.resolve(mode, self.pc),
        }
    }

    /// Finds the operand and reads it.
    #[verifier::opaque]
    pub open spec fn fetch(self, mode: AddressingMode) -> Access<CpuState, Operand> {
        let (found, place) = self.operand_address(mode);
        match place {
            Err(kind) => (found, Err(kind)),
            Ok((addr, crossed)) => {
                let (next, data) = found.read(addr);
                match data {
                    Err(kind) => (next, Err(kind)),
                    Ok(value) => (next, Ok(Operand { addr, value, page_crossed: crossed })),
                }
            },
        }
    }

    /// Finds the operand and overwrites it with `value`.
    #[verifier::opaque]
    pub open spec fn store(self, mode: AddressingMode, value: u8) -> Access<CpuState, ()> {
        let (found, place) = self.operand_address(mode);
        match place {
            Err(kind) => (found, Err(kind)),
            Ok((addr, _)) => found.write(addr, value),
        }
    }

    // Registers and flags.

    /// The machine with `value` in the accumulator, and Zero and Negative describing it.
    pub open spec fn load_a(self, value: u8) -> CpuState {
        CpuState { a: value, status: with_zero_negative(self.status, value), ..self }
    }

    /// The machine with `value` in X, and Zero and Negative describing it.
    pub open spec fn load_x(self, value: u8) -> CpuState {
        CpuState { x: value, status: with_zero_negative(self.status, value), ..self }
    }

    /// The machine with `value` in Y, and Zero and Negative describing it.
    pub open spec fn load_y(self, value: u8) -> CpuState {
        CpuState { y: value, status: with_zero_negative(self.status, value), ..self }
    }

    /// Adds `value` and the carry to the accumulator. Carry reports a sum
    /// above 255, Overflow a sign that both addends share and the result lacks.
    pub open spec fn add_with_carry(self, value: u8) -> CpuState {
        let sum = self.a + value + if self.carry() {
            1int
        } else {
            0int
        };
        let result = (sum % 256) as u8;
        CpuState {
            a: result,
            status: with_zero_negative(
                with_flag(
                    with_flag(self.status, CARRY, sum > 0xFF),
                    OVERFLOW,
                    (value ^ result) & (result ^ self.a) & 0x80 != 0,
                ),
                result,
            ),
            ..self
        }
    }

    /// Subtraction is addition of the complement.
    pub open spec fn subtract_with_carry(self, value: u8) -> CpuState {
        self.add_with_carry(value ^ 0xFF)
    }

    /// Compares `register` with `value`: Carry says that `value` is not
    /// larger, Zero and Negative describe the 8-bit difference.
    pub open spec fn compared(self, register: u8, value: u8) -> CpuState {
        CpuState {
            status: with_zero_negative(
                with_flag(self.status, CARRY, value <= register),
                register.wrapping_sub(value),
            ),
            ..self
        }
    }

    /// The flags after `BIT`: Zero says that accumulator and operand share no bit, Negative and
    /// Overflow copy the operand's two top bits.
    pub open spec fn bit_tested(self, value: u8) -> CpuState {
        CpuState {
            status: with_flag(
                with_flag(
                    with_flag(self.status, ZERO, self.a & value == 0),
                    NEGATIVE,
                    value >= 0x80,
                ),
                OVERFLOW,
                has_flag(value, OVERFLOW),
            ),
            ..self
        }
    }

    /// The status after a byte was rewritten to `result`.
    pub open spec fn rewritten(self, result: Modified) -> CpuState {
        CpuState {
            status: with_zero_negative(
                match result.carry {
                    Some(carry) => with_flag(self.status, CARRY, carry),
                    None => self.status,
                },
                result.value,
            ),
            ..self
        }
    }

    /// Rewrites the accumulator in place.
    pub open spec fn modify_a(self, how: Modify) -> CpuState {
        let result = modified(how, self.a, self.carry());
        CpuState { a: result.value, ..self.rewritten(result) }
    }

    /// Rewrites the operand in place and yields its new value.
    #[verifier::opaque]
    pub open spec fn modify(self, mode: AddressingMode, how: Modify) -> Access<CpuState, u8> {
        let (fetched, operand) = self.fetch(mode);
        match operand {
            Err(kind) => (fetched, Err(kind)),
            Ok(operand) => {
                let result = modified(how, operand.value, fetched.carry());
                let (written, done) = fetched.rewritten(result).write(operand.addr, result.value);
                match done {
                    Err(kind) => (written, Err(kind)),
                    Ok(_) => (written, Ok(result.value)),
                }
            },
        }
    }

    // Instructions.

    /// An instruction that reads its operand, applies `effect`, and pays
    /// one cycle more where indexing crossed a page.
    pub open spec fn read_instruction(
        self,
        mode: AddressingMode,
        effect: spec_fn(CpuState, u8) -> CpuState,
    ) -> Access<CpuState, ()> {
        let (fetched, operand) = self.fetch(mode);
        match operand {
            Err(kind) => (fetched, Err(kind)),
            Ok(operand) => (effect(fetched, operand.value).tick_if(operand.page_crossed), Ok(())),
        }
    }

    /// `LDA`.
    pub open spec fn lda(self, mode: AddressingMode) -> Access<CpuState, ()> {
        self.read_instruction(mode, |s: CpuState, m: u8| s.load_a(m))
    }

    /// `LDX`.
    pub open spec fn ldx(self, mode: AddressingMode) -> Access<CpuState, ()> {
        self.read_instruction(mode, |s: CpuState, m: u8| s.load_x(m))
    }

    /// `LDY`.
    pub open spec fn ldy(self, mode: AddressingMode) -> Access<CpuState, ()> {
        self.read_instruction(mode, |s: CpuState, m: u8| s.load_y(m))
    }

    /// `AND`.
    pub open spec fn and(self, mode: AddressingMode) -> Access<CpuState, ()> {
        self.read_instruction(mode, |s: CpuState, m: u8| s.load_a(s.a & m))
    }

    /// `EOR`.
    pub open spec fn eor(self, mode: AddressingMode) -> Access<CpuState, ()> {
        self.read_instruction(mode, |s: CpuState, m: u8| s.load_a(s.a ^ m))
    }

    /// `ORA`.
    pub open spec fn ora(self, mode: AddressingMode) -> Access<CpuState, ()> {
        self.read_instruction(mode, |s: CpuState, m: u8| s.load_a(s.a | m))
    }

    /// `ADC`.
    pub open spec fn adc(self, mode: AddressingMode) -> Access<CpuState, ()> {
        self.read_instruction(mode, |s: CpuState, m: u8| s.add_with_carry(m))
    }

    /// `SBC`.
    pub open spec fn sbc(self, mode: AddressingMode) -> Access<CpuState, ()> {
        self.read_instruction(mode, |s: CpuState, m: u8| s.subtract_with_carry(m))
    }

    /// `CMP`, `CPX` and `CPY`, with the register's value for `register`.
    pub open spec fn compare(self, mode: AddressingMode, register: u8) -> Access<CpuState, ()> {
        self.read_instruction(mode, |s: CpuState, m: u8| s.compared(register, m))
    }

    /// A no-operation that still reads its operand.
    pub open spec fn nop_read(self, mode: AddressingMode) -> Access<CpuState, ()> {
        self.read_instruction(mode, |s: CpuState, m: u8| s)
    }

    /// An instruction that reads its operand and applies `effect`, at no
    /// extra cost.
    pub open spec fn flat_instruction(
        self,
        mode: AddressingMode,
        effect: spec_fn(CpuState, u8) -> CpuState,
    ) -> Access<CpuState, ()> {
        let (fetched, operand) = self.fetch(mode);
        match operand {
            Err(kind) => (fetched, Err(kind)),
            Ok(operand) => (effect(fetched, operand.value), Ok(())),
        }
    }

    /// `BIT`.
    pub open spec fn bit(self, mode: AddressingMode) -> Access<CpuState, ()> {
        self.flat_instruction(mode, |s: CpuState, m: u8| s.bit_tested(m))
    }

    /// An instruction that rewrites its operand and then applies `effect`
    /// to the new value.
    pub open spec fn modify_instruction(
        self,
        mode: AddressingMode,
        how: Modify,
        effect: spec_fn(CpuState, u8) -> CpuState,
    ) -> Access<CpuState, ()> {
        let (written, value) = self.modify(mode, how);
        match value {
            Err(kind) => (written, Err(kind)),
            Ok(value) => (effect(written, value), Ok(())),
        }
    }

    /// A branch whose condition is `condition`. A taken branch costs one
    /// cycle, and one more if it leaves the page of the next instruction.
    #[verifier::opaque]
    pub open spec fn branch(self, condition: bool) -> Access<CpuState, ()> {
        if !condition {
            (self, Ok(()))
        } else {
            let (next, data) = self.read(self.pc);
            match data {
                Err(kind) => (next, Err(kind)),
                Ok(offset) => {
                    let target = branch_target(self.pc, offset);
                    (
                        CpuState {
                            pc: target,
                            ..next.tick(1).tick_if(page_crossed(self.pc.wrapping_add(1), target))
                        },
                        Ok(()),
                    )
                },
            }
        }
    }

    /// `JMP` to the address that follows the opcode.
    #[verifier::opaque]
    pub open spec fn jump_absolute(self) -> Access<CpuState, ()> {
        let (next, data) = self.read_word(self.pc);
        match data {
            Err(kind) => (next, Err(kind)),
            Ok(target) => (CpuState { pc: target, ..next }, Ok(())),
        }
    }

    /// The indirect jump, with the processor's flaw: a pointer in the last
    /// byte of a page takes its high byte from the start of the same page.
    #[verifier::opaque]
    pub open spec fn jump_indirect(self) -> Access<CpuState, ()> {
        let (next, data) = self.read_word(self.pc);
        match data {
            Err(kind) => (next, Err(kind)),
            Ok(pointer) => {
                let (after_low, low) = next.read(pointer);
                match low {
                    Err(kind) => (after_low, Err(kind)),
                    Ok(low) => {
                        let (after_high, high) = after_low.read(indirect_high_address(pointer));
                        match high {
                            Err(kind) => (after_high, Err(kind)),
                            Ok(high) => (CpuState { pc: word(low, high), ..after_high }, Ok(())),
                        }
                    },
                }
            },
        }
    }

    /// Pushes the address of the last byte of the call, then jumps.
    pub open spec fn jump_subroutine(self) -> Access<CpuState, ()> {
        self.push_word(self.pc.wrapping_add(1)).jump_absolute()
    }

    /// `RTS`: continues behind the call whose address is on the stack.
    pub open spec fn return_subroutine(self) -> CpuState {
        CpuState { pc: self.top_word().wrapping_add(1), ..self.pop().pop() }
    }

    /// `PLP`: the status comes off the stack, Break cleared and the unused bit set.
    pub open spec fn pull_status(self) -> CpuState {
        CpuState { status: pulled_status(self.top()), ..self.pop() }
    }

    /// `RTI`: first the status comes off the stack, then the program counter.
    pub open spec fn return_interrupt(self) -> CpuState {
        let restored = self.pull_status();
        CpuState { pc: restored.top_word(), ..restored.pop().pop() }
    }

    /// Stores `register`, masked by the high byte of the target address
    /// (plus one if `bump`), at `base + index`.
    pub open spec fn store_masked(self, base: u16, index: u8, register: u8, bump: bool) -> Access<
        CpuState,
        (),
    > {
        let addr = base.wrapping_add(index as u16);
        let mask = if bump {
            high_byte(addr).wrapping_add(1)
        } else {
            high_byte(addr)
        };
        self.write(addr, register & mask)
    }

    /// `store_masked` with the base address read from the word at the
    /// program counter.
    #[verifier::opaque]
    pub open spec fn store_masked_absolute(self, index: u8, register: u8, bump: bool) -> Access<
        CpuState,
        (),
    > {
        let (next, data) = self.read_word(self.pc);
        match data {
            Err(kind) => (next, Err(kind)),
            Ok(base) => next.store_masked(base, index, register, bump),
        }
    }

    /// `store_masked` with the base address read through the zero-page
    /// pointer at the program counter.
    #[verifier::opaque]
    pub open spec fn store_masked_indirect(self, index: u8, register: u8) -> Access<CpuState, ()> {
        let (next, data) = self.read(self.pc);
        match data {
            Err(kind) => (next, Err(kind)),
            Ok(pointer) => {
                let (after, base) = next.read_word(pointer as u16);
                match base {
                    Err(kind) => (after, Err(kind)),
                    Ok(base) => after.store_masked(base, index, register, false),
                }
            },
        }
    }

    /// The accumulator after `ARR` has rotated it: Carry copies bit 6,
    /// Overflow says whether bits 5 and 6 differ.
    pub open spec fn rotated_and(self) -> CpuState {
        let rotated = self.modify_a(Modify::RotateRight);
        let bit_5 = (rotated.a >> 5) & 1;
        let bit_6 = (rotated.a >> 6) & 1;
        CpuState {
            status: with_zero_negative(
                with_flag(
                    with_flag(rotated.status, CARRY, bit_6 == 1),
                    OVERFLOW,
                    bit_5 ^ bit_6 == 1,
                ),
                rotated.a,
            ),
            ..rotated
        }
    }

    /// Enters an interrupt handler: the return address and the status go
    /// onto the stack, further interrupts are held off, and execution
    /// continues where the vector says.
    pub open spec fn interrupt(self, interrupt: Interrupt) -> Access<CpuState, ()> {
        let saved = self.push_word(self.pc).push(
            (self.status & !(BREAK | BREAK2)) | (interrupt.b_flag_mask & (BREAK | BREAK2)),
        ).with_status_flag(INTERRUPT_DISABLE, true);
        let (next, vector) = saved.read_word(interrupt.vector_address);
        match vector {
            Err(kind) => (next, Err(kind)),
            Ok(handler) => (
                CpuState { pc: handler, ..next }.tick(interrupt.cpu_cycles as usize),
                Ok(()),
            ),
        }
    }

    /// Takes the picture unit's pending interrupt, if there is one.
    pub open spec fn service_interrupts(self) -> Access<CpuState, ()> {
        let (bus, pending) = self.bus.poll_nmi();
        let polled = CpuState { bus, ..self };
        if pending is Some {
            polled.interrupt(interrupt_descriptor(InterruptType::NMI))
        } else {
            (polled, Ok(()))
        }
    }

    /// What the instruction with opcode `code` does when its operand is
    /// found by `mode`. The program counter points behind the opcode byte.
    pub open spec fn execute(self, code: u8, mode: AddressingMode) -> Access<CpuState, CpuMessage> {
        match operation_of(code) {
            Operation::Brk => (self, Ok(CpuMessage::Break)),
            operation => {
                let (next, done) = self.perform(operation, mode);
                match done {
                    Err(kind) => (next, Err(kind)),
                    Ok(_) => (next, Ok(CpuMessage::Continue)),
                }
            },
        }
    }

    /// The effect of each operation. `BRK` itself changes nothing: it
    /// only ends the run.
    pub open spec fn perform(self, operation: Operation, mode: AddressingMode) -> Access<
        CpuState,
        (),
    > {
        match operation {
            Operation::Brk => (self, Ok(())),
            Operation::Transfer(operation) => self.transfer(operation, mode),
            Operation::Arithmetic(operation) => self.arithmetic(operation, mode),
            Operation::Rewrite(operation) => self.rewrite(operation, mode),
            Operation::Flow(operation) => self.flow(operation, mode),
            Operation::Unofficial(operation) => self.unofficial(operation, mode),
        }
    }

    /// The effect of an instruction that moves a byte.
    #[verifier::opaque]
    pub open spec fn transfer(self, operation: Transfer, mode: AddressingMode) -> Access<
        CpuState,
        (),
    > {
        match operation {
            Transfer::Lda => self.lda(mode),
            Transfer::Ldx => self.ldx(mode),
            Transfer::Ldy => self.ldy(mode),
            Transfer::Sta => self.store(mode, self.a),
            Transfer::Stx => self.store(mode, self.x),
            Transfer::Sty => self.store(mode, self.y),
            Transfer::Tax => (self.load_x(self.a), Ok(())),
            Transfer::Tay => (self.load_y(self.a), Ok(())),
            Transfer::Tsx => (self.load_x(self.sp), Ok(())),
            Transfer::Txa => (self.load_a(self.x), Ok(())),
            Transfer::Tya => (self.load_a(self.y), Ok(())),
            Transfer::Txs => (CpuState { sp: self.x, ..self }, Ok(())),
            Transfer::Pha => (self.push(self.a), Ok(())),
            Transfer::Pla => (self.pop().load_a(self.top()), Ok(())),
            Transfer::Php => (self.push(pushed_status(self.status)), Ok(())),
            Transfer::Plp => (self.pull_status(), Ok(())),
        }
    }

    /// The effect of an instruction that computes on the accumulator or sets the flags.
    #[verifier::opaque]
    pub open spec fn arithmetic(self, operation: Arithmetic, mode: AddressingMode) -> Access<
        CpuState,
        (),
    > {
        match operation {
            Arithmetic::Adc => self.adc(mode),
            Arithmetic::Sbc => self.sbc(mode),
            Arithmetic::And => self.and(mode),
            Arithmetic::Eor => self.eor(mode),
            Arithmetic::Ora => self.ora(mode),
            Arithmetic::Cmp => self.compare(mode, self.a),
            Arithmetic::Cpx => self.compare(mode, self.x),
            Arithmetic::Cpy => self.compare(mode, self.y),
            Arithmetic::Bit => self.bit(mode),
            Arithmetic::Clc => (self.with_status_flag(CARRY, false), Ok(())),
            Arithmetic::Sec => (self.with_status_flag(CARRY, true), Ok(())),
            Arithmetic::Cld => (self.with_status_flag(DECIMAL_MODE, false), Ok(())),
            Arithmetic::Sed => (self.with_status_flag(DECIMAL_MODE, true), Ok(())),
            Arithmetic::Cli => (self.with_status_flag(INTERRUPT_DISABLE, false), Ok(())),
            Arithmetic::Sei => (self.with_status_flag(INTERRUPT_DISABLE, true), Ok(())),
            Arithmetic::Clv => (self.with_status_flag(OVERFLOW, false), Ok(())),
        }
    }

    /// The effect of an instruction that rewrites a register or a byte of memory.
    #[verifier::opaque]
    pub open spec fn rewrite(self, operation: Rewrite, mode: AddressingMode) -> Access<
        CpuState,
        (),
    > {
        match operation {
            Rewrite::AslA => (self.modify_a(Modify::ShiftLeft), Ok(())),
            Rewrite::LsrA => (self.modify_a(Modify::ShiftRight), Ok(())),
            Rewrite::RolA => (self.modify_a(Modify::RotateLeft), Ok(())),
            Rewrite::RorA => (self.modify_a(Modify::RotateRight), Ok(())),
            Rewrite::Asl => self.modify_instruction(
                mode,
                Modify::ShiftLeft,
                |s: CpuState, v: u8| s,
            ),
            Rewrite::Lsr => self.modify_instruction(
                mode,
                Modify::ShiftRight,
                |s: CpuState, v: u8| s,
            ),
            Rewrite::Rol => self.modify_instruction(
                mode,
                Modify::RotateLeft,
                |s: CpuState, v: u8| s,
            ),
            Rewrite::Ror => self.modify_instruction(
                mode,
                Modify::RotateRight,
                |s: CpuState, v: u8| s,
            ),
            Rewrite::Inc => self.modify_instruction(
                mode,
                Modify::Increment,
                |s: CpuState, v: u8| s,
            ),
            Rewrite::Dec => self.modify_instruction(
                mode,
                Modify::Decrement,
                |s: CpuState, v: u8| s,
            ),
            Rewrite::Inx => (self.load_x(self.x.wrapping_add(1)), Ok(())),
            Rewrite::Iny => (self.load_y(self.y.wrapping_add(1)), Ok(())),
            Rewrite::Dex => (self.load_x(self.x.wrapping_sub(1)), Ok(())),
            Rewrite::Dey => (self.load_y(self.y.wrapping_sub(1)), Ok(())),
        }
    }

    /// The effect of a jump, a branch or a no-operation.
    #[verifier::opaque]
    pub open spec fn flow(self, operation: Flow, mode: AddressingMode) -> Access<CpuState, ()> {
        match operation {
            Flow::Jmp => self.jump_absolute(),
            Flow::JmpIndirect => self.jump_indirect(),
            Flow::Jsr => self.jump_subroutine(),
            Flow::Rts => (self.return_subroutine(), Ok(())),
            Flow::Rti => (self.return_interrupt(), Ok(())),
            Flow::Bne => self.branch(!has_flag(self.status, ZERO)),
            Flow::Beq => self.branch(has_flag(self.status, ZERO)),
            Flow::Bpl => self.branch(!has_flag(self.status, NEGATIVE)),
            Flow::Bmi => self.branch(has_flag(self.status, NEGATIVE)),
            Flow::Bvc => self.branch(!has_flag(self.status, OVERFLOW)),
            Flow::Bvs => self.branch(has_flag(self.status, OVERFLOW)),
            Flow::Bcc => self.branch(!has_flag(self.status, CARRY)),
            Flow::Bcs => self.branch(has_flag(self.status, CARRY)),
            Flow::Nop => (self, Ok(())),
            Flow::NopRead => self.nop_read(mode),
        }
    }

    /// The effect of an undocumented instruction, as programs have come to rely on it.
    #[verifier::opaque]
    pub open spec fn unofficial(self, operation: Unofficial, mode: AddressingMode) -> Access<
        CpuState,
        (),
    > {
        match operation {
            Unofficial::Dcp => self.modify_instruction(
                mode,
                Modify::Decrement,
                |s: CpuState, v: u8| s.compared(s.a, v),
            ),
            Unofficial::Isb => self.modify_instruction(
                mode,
                Modify::Increment,
                |s: CpuState, v: u8| s.subtract_with_carry(v),
            ),
            Unofficial::Slo => self.modify_instruction(
                mode,
                Modify::ShiftLeft,
                |s: CpuState, v: u8| s.load_a(s.a | v),
            ),
            Unofficial::Rla => self.modify_instruction(
                mode,
                Modify::RotateLeft,
                |s: CpuState, v: u8| s.load_a(s.a & v),
            ),
            Unofficial::Sre => self.modify_instruction(
                mode,
                Modify::ShiftRight,
                |s: CpuState, v: u8| s.load_a(s.a ^ v),
            ),
            Unofficial::Rra => self.modify_instruction(
                mode,
                Modify::RotateRight,
                |s: CpuState, v: u8| s.add_with_carry(v),
            ),
            Unofficial::Lax => self.flat_instruction(
                mode,
                |s: CpuState, m: u8| s.load_a(m).load_x(m),
            ),
            Unofficial::Sax => self.store(mode, self.a & self.x),
            Unofficial::Axs => self.flat_instruction(
                mode,
                |s: CpuState, m: u8|
                    CpuState { x: (s.a & s.x).wrapping_sub(m), ..s.compared(s.a & s.x, m) },
            ),
            Unofficial::Arr => self.flat_instruction(
                mode,
                |s: CpuState, m: u8| CpuState { a: s.a & m, ..s }.rotated_and(),
            ),
            Unofficial::Anc => self.flat_instruction(
                mode,
                |s: CpuState, m: u8| s.load_a(s.a & m).with_status_flag(CARRY, (s.a & m) >= 0x80),
            ),
            Unofficial::Alr => self.flat_instruction(
                mode,
                |s: CpuState, m: u8| s.load_a(s.a & m).modify_a(Modify::ShiftRight),
            ),
            Unofficial::Lxa => self.read_instruction(
                mode,
                |s: CpuState, m: u8| s.load_a(m).load_x(m),
            ),
            Unofficial::Xaa => self.load_a(self.x).flat_instruction(
                mode,
                |s: CpuState, m: u8| s.load_a(s.a & m),
            ),
            Unofficial::Las => self.flat_instruction(
                mode,
                |s: CpuState, m: u8|
                    CpuState { sp: m & s.sp, ..s.load_a(m & s.sp).load_x(m & s.sp) },
            ),
            Unofficial::Tas => CpuState { sp: self.a & self.x, ..self }.store_masked_absolute(
                self.y,
                self.a & self.x,
                true,
            ),
            Unofficial::AhxIndirect => self.store_masked_indirect(self.y, self.a & self.x),
            Unofficial::Ahx => self.store_masked_absolute(self.y, self.a & self.x, false),
            Unofficial::Shx => self.store_masked_absolute(self.y, self.x, true),
            Unofficial::Shy => self.store_masked_absolute(self.x, self.y, true),
        }
    }

    /// Fetches the instruction at the program counter and executes it.
    /// An instruction that runs to its end takes its cycles from the bus,
    /// and where it did not set the program counter itself, the counter
    /// moves on to the next instruction. `BRK` halts: nothing is charged.
    pub open spec fn execute_next(self) -> Access<CpuState, CpuMessage> {
        let (fetched, data) = self.read(self.pc);
        match data {
            Err(kind) => (fetched, Err(kind)),
            Ok(code) => {
                let opcode = opcode_entry(code);
                let decoded = CpuState { pc: self.pc.wrapping_add(1), ..fetched };
                let (executed, message) = decoded.execute(code, opcode.mode);
                match message {
                    Err(kind) => (executed, Err(kind)),
                    Ok(CpuMessage::Break) => (executed, Ok(CpuMessage::Break)),
                    Ok(CpuMessage::Continue) => {
                        let charged = executed.tick(opcode.cycles as usize);
                        (
                            if charged.pc == decoded.pc {
                                CpuState {
                                    pc: add16(charged.pc, opcode.len - 1),
                                    ..charged
                                }
                            } else {
                                charged
                            },
                            Ok(CpuMessage::Continue),
                        )
                    },
                }
            },
        }
    }

    /// The machine with `program` in its program ROM at `0x8000`, the
    /// reset vector pointing there, and the program counter too.
    pub open spec fn load_program(self, program: Seq<u8>) -> CpuState {
        CpuState {
            pc: crate::bus::PROGRAM_ROM_START,
            bus: BusState { program_rom: crate::bus::program_image(program), ..self.bus },
            ..self
        }
    }

    /// Copies the program ROM to the load address through the bus and,
    /// if every byte was taken, points the program counter at it.
    pub open spec fn load(self) -> Access<CpuState, ()> {
        let (bus, done) = self.bus.load(crate::cpu::LOAD_ADDRESS);
        match done {
            Err(kind) => (CpuState { bus, ..self }, Err(kind)),
            Ok(_) => (CpuState { bus, pc: crate::cpu::LOAD_ADDRESS, ..self }, Ok(())),
        }
    }

    /// Puts the registers into their reset state and starts at the
    /// address that the reset vector holds.
    pub open spec fn reset(self) -> Access<CpuState, ()> {
        let cleared = CpuState { a: 0, x: 0, y: 0, sp: STACK_RESET, status: RESET_STATUS, ..self };
        let (next, vector) = cleared.read_word(RESET_VECTOR);
        match vector {
            Err(kind) => (next, Err(kind)),
            Ok(start) => (CpuState { pc: start, ..next }, Ok(())),
        }
    }
}

} // verus!
