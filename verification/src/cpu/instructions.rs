use vstd::prelude::*;
use crate::bits::{different_pages, make_word, page_crossed, split_word};
use crate::cpu::addressing_mode::AddressingMode;
use crate::cpu::flags::{pushed_status, CpuFlags, BREAK, BREAK2, CARRY, OVERFLOW, ZERO};
use crate::cpu::state::{
    branch_target, modified, CpuState, Modified, Modify, Operand, STACK_START_ADDR,
};
use crate::cpu::Cpu;
use crate::error::{outcome, Error, Result};
use crate::io::{Read, Write};


verus! {

/// Shifts and rotations, said with bit operations.
proof fn lemma_shifts(value: u8)
    ensures
        value << 1 == (value * 2) % 256,
        (value << 1) | 1 == (value * 2) % 256 + 1,
        value >> 1 == value / 2,
        (value >> 1) | 0b1000_0000 == value / 2 + 128,
        (value >> 7 == 1) == (value >= 0x80),
        (value & 1 == 1) == (value % 2 == 1),
{
    assert(value << 1 == (value * 2) % 256 && (value << 1) | 1 == (value * 2) % 256 + 1 && (value
        >> 7 == 1) == (value >= 0x80)) by (bit_vector);
    assert(value >> 1 == value / 2 && (value >> 1) | 0b1000_0000 == value / 2 + 128 && (value & 1
        == 1) == (value % 2 == 1)) by (bit_vector);
}

/// Rewrites `value` as `how` says, with `carry_in` entering a rotation.
pub fn rewrite(how: Modify, value: u8, carry_in: bool) -> (result: Modified)
    ensures
        result == modified(how, value, carry_in),
{
    proof {
        lemma_shifts(value);
    }
    match how {
        Modify::ShiftLeft => Modified { value: value << 1, carry: Some(value >> 7 == 1) },
        Modify::ShiftRight => Modified { value: value >> 1, carry: Some(value & 1 == 1) },
        Modify::RotateLeft => Modified {
            value: if carry_in {
                (value << 1) | 1
            } else {
                value << 1
            },
            carry: Some(value >> 7 == 1),
        },
        Modify::RotateRight => Modified {
            value: if carry_in {
                (value >> 1) | 0b1000_0000
            } else {
                value >> 1
            },
            carry: Some(value & 1 == 1),
        },
        Modify::Increment => Modified { value: value.wrapping_add(1), carry: None },
        Modify::Decrement => Modified { value: value.wrapping_sub(1), carry: None },
    }
}

/// Where a taken branch leads, `pc` being the address of its offset byte.
pub fn relative_target(pc: u16, offset: u8) -> (target: u16)
    ensures
        target == branch_target(pc, offset),
{
    let next = pc.wrapping_add(1);
    if offset < 0x80 {
        next.wrapping_add(offset as u16)
    } else {
        next.wrapping_sub(0x100 - offset as u16)
    }
}

impl Cpu {
    /// Whether two addresses lie on different pages.
    pub fn page_cross(&self, address_1: u16, address_2: u16) -> (crossed: bool)
        ensures
            crossed == page_crossed(address_1, address_2),
    {
        different_pages(address_1, address_2)
    }

    pub(crate) fn update_zero_and_negative_flags(&mut self, result: u8)
        ensures
            final(self)@ == (CpuState {
                status: crate::cpu::flags::with_zero_negative(old(self)@.status, result),
                ..old(self)@
            }),
    {
        self.update_zero_flag(result);
        self.update_negative_flag(result);
    }

    pub(crate) fn zero_page_word(&mut self, pointer: u8) -> (r: Result<u16>)
        ensures
            final(self)@ == old(self)@,
            r is Ok,
            r->Ok_0 == old(self)@.zero_page_word(pointer),
    {
        proof {
            self.bus.lemma_wf();
        }
        let lo = match self.bus.read_byte(pointer as u16) {
            Ok(byte) => byte,
            Err(e) => {
                return Err(e);
            },
        };
        let hi = match self.bus.read_byte(pointer.wrapping_add(1) as u16) {
            Ok(byte) => byte,
            Err(e) => {
                return Err(e);
            },
        };
        Ok(make_word(lo, hi))
    }

    /// The effective address of the operand whose description starts at
    /// `addr`, and whether indexing crossed a page on the way to it.
    pub fn get_absolute_address(&mut self, mode: AddressingMode, addr: u16) -> (r: Result<
        (u16, bool),
    >)
        ensures
            (final(self)@, outcome(r)) == old(self)@.resolve(mode, addr),
    {
        match mode {
            AddressingMode::ZeroPage => {
                match self.mem_read_byte(addr) {
                    Ok(pos) => Ok((pos as u16, false)),
                    Err(e) => Err(e),
                }
            },
            AddressingMode::ZeroPageX => {
                match self.mem_read_byte(addr) {
                    Ok(pos) => Ok((pos.wrapping_add(self.register_x.get()) as u16, false)),
                    Err(e) => Err(e),
                }
            },
            AddressingMode::ZeroPageY => {
                match self.mem_read_byte(addr) {
                    Ok(pos) => Ok((pos.wrapping_add(self.register_y.get()) as u16, false)),
                    Err(e) => Err(e),
                }
            },
            AddressingMode::Absolute => {
                match self.mem_read_word(addr) {
                    Ok(base) => Ok((base, false)),
                    Err(e) => Err(e),
                }
            },
            AddressingMode::AbsoluteX => {
                match self.mem_read_word(addr) {
                    Ok(base) => {
                        let effective = base.wrapping_add(self.register_x.get() as u16);
                        Ok((effective, self.page_cross(base, effective)))
                    },
                    Err(e) => Err(e),
                }
            },
            AddressingMode::AbsoluteY => {
                match self.mem_read_word(addr) {
                    Ok(base) => {
                        let effective = base.wrapping_add(self.register_y.get() as u16);
                        Ok((effective, self.page_cross(base, effective)))
                    },
                    Err(e) => Err(e),
                }
            },
            AddressingMode::IndirectX => {
                let base = match self.mem_read_byte(addr) {
                    Ok(byte) => byte,
                    Err(e) => {
                        return Err(e);
                    },
                };
                let ptr: u8 = base.wrapping_add(self.register_x.get());
                match self.zero_page_word(ptr) {
                    Ok(effective) => Ok((effective, false)),
                    Err(e) => Err(e),
                }
            },
            AddressingMode::IndirectY => {
                let base = match self.mem_read_byte(addr) {
                    Ok(byte) => byte,
                    Err(e) => {
                        return Err(e);
                    },
                };
                match self.zero_page_word(base) {
                    Ok(deref_base) => {
                        let deref = deref_base.wrapping_add(self.register_y.get() as u16);
                        Ok((deref, self.page_cross(deref_base, deref)))
                    },
                    Err(e) => Err(e),
                }
            },
            _ => Err(Error::unsupported("this addressing mode has no operand address")),
        }
    }

    /// The address of the operand of the instruction whose operand bytes
    /// start at the program counter.
    pub fn get_operand_address(&mut self, mode: AddressingMode) -> (r: Result<(u16, bool)>)
        ensures
            (final(self)@, outcome(r)) == old(self)@.operand_address(mode),
    {
        let program_counter = self.program_counter.get();
        match mode {
            AddressingMode::Immediate => Ok((program_counter, false)),
            _ => self.get_absolute_address(mode, program_counter),
        }
    }

    /// Finds the operand and reads it.
    pub fn fetch_operand(&mut self, mode: AddressingMode) -> (r: Result<Operand>)
        ensures
            (final(self)@, outcome(r)) == old(self)@.fetch(mode),
    {
        reveal(CpuState::fetch);
        let (addr, page_crossed) = match self.get_operand_address(mode) {
            Ok(place) => place,
            Err(e) => {
                return Err(e);
            },
        };
        match self.mem_read_byte(addr) {
            Ok(value) => Ok(Operand { addr, value, page_crossed }),
            Err(e) => Err(e),
        }
    }

    pub(crate) fn store_operand(&mut self, mode: AddressingMode, value: u8) -> (r: Result<()>)
        ensures
            (final(self)@, outcome(r)) == old(self)@.store(mode, value),
    {
        reveal(CpuState::store);
        match self.get_operand_address(mode) {
            Ok((addr, _)) => self.mem_write_byte(addr, value),
            Err(e) => Err(e),
        }
    }

    pub(crate) fn charge_page_cross(&mut self, page_crossed: bool)
        ensures
            final(self)@ == old(self)@.tick_if(page_crossed),
    {
        if page_crossed {
            self.tick(1);
        }
    }

    pub(crate) fn load_a(&mut self, value: u8)
        ensures
            final(self)@ == old(self)@.load_a(value),
    {
        self.register_a.set(value);
        self.update_zero_and_negative_flags(value);
    }

    pub(crate) fn load_x(&mut self, value: u8)
        ensures
            final(self)@ == old(self)@.load_x(value),
    {
        self.register_x.set(value);
        self.update_zero_and_negative_flags(value);
    }

    pub(crate) fn load_y(&mut self, value: u8)
        ensures
            final(self)@ == old(self)@.load_y(value),
    {
        self.register_y.set(value);
        self.update_zero_and_negative_flags(value);
    }

    /// `LDA`: loads the accumulator.
    pub fn lda(&mut self, mode: AddressingMode) -> (r: Result<()>)
        ensures
            (final(self)@, outcome(r)) == old(self)@.lda(mode),
    {
        match self.fetch_operand(mode) {
            Ok(operand) => {
                self.load_a(operand.value);
                self.charge_page_cross(operand.page_crossed);
                Ok(())
            },
            Err(e) => Err(e),
        }
    }

    /// `LDX`: loads the X register.
    pub fn ldx(&mut self, mode: AddressingMode) -> (r: Result<()>)
        ensures
            (final(self)@, outcome(r)) == old(self)@.ldx(mode),
    {
        match self.fetch_operand(mode) {
            Ok(operand) => {
                self.load_x(operand.value);
                self.charge_page_cross(operand.page_crossed);
                Ok(())
            },
            Err(e) => Err(e),
        }
    }

    /// `LDY`: loads the Y register.
    pub fn ldy(&mut self, mode: AddressingMode) -> (r: Result<()>)
        ensures
            (final(self)@, outcome(r)) == old(self)@.ldy(mode),
    {
        match self.fetch_operand(mode) {
            Ok(operand) => {
                self.load_y(operand.value);
                self.charge_page_cross(operand.page_crossed);
                Ok(())
            },
            Err(e) => Err(e),
        }
    }

    /// `STA`: stores the accumulator.
    pub fn sta(&mut self, mode: AddressingMode) -> (r: Result<()>)
        ensures
            (final(self)@, outcome(r)) == old(self)@.store(mode, old(self)@.a),
    {
        let value = self.register_a.get();
        self.store_operand(mode, value)
    }

    /// `AND`: the accumulator and the operand, bit by bit.
    pub fn and(&mut self, mode: AddressingMode) -> (r: Result<()>)
        ensures
            (final(self)@, outcome(r)) == old(self)@.and(mode),
    {
        match self.fetch_operand(mode) {
            Ok(operand) => {
                self.load_a(self.register_a.get() & operand.value);
                self.charge_page_cross(operand.page_crossed);
                Ok(())
            },
            Err(e) => Err(e),
        }
    }

    /// `EOR`: the accumulator or the operand but not both, bit by bit.
    pub fn eor(&mut self, mode: AddressingMode) -> (r: Result<()>)
        ensures
            (final(self)@, outcome(r)) == old(self)@.eor(mode),
    {
        match self.fetch_operand(mode) {
            Ok(operand) => {
                self.load_a(self.register_a.get() ^ operand.value);
                self.charge_page_cross(operand.page_crossed);
                Ok(())
            },
            Err(e) => Err(e),
        }
    }

    /// `ORA`: the accumulator or the operand, bit by bit.
    pub fn ora(&mut self, mode: AddressingMode) -> (r: Result<()>)
        ensures
            (final(self)@, outcome(r)) == old(self)@.ora(mode),
    {
        match self.fetch_operand(mode) {
            Ok(operand) => {
                self.load_a(self.register_a.get() | operand.value);
                self.charge_page_cross(operand.page_crossed);
                Ok(())
            },
            Err(e) => Err(e),
        }
    }

    /// `TAX`: copies the accumulator to X.
    pub fn tax(&mut self)
        ensures
            final(self)@ == old(self)@.load_x(old(self)@.a),
    {
        self.load_x(self.register_a.get());
    }

    /// `INX`: counts X up.
    pub fn inx(&mut self)
        ensures
            final(self)@ == old(self)@.load_x(old(self)@.x.wrapping_add(1)),
    {
        self.register_x.increment();
        self.update_zero_and_negative_flags(self.register_x.get());
    }

    /// `INY`: counts Y up.
    pub fn iny(&mut self)
        ensures
            final(self)@ == old(self)@.load_y(old(self)@.y.wrapping_add(1)),
    {
        self.register_y.increment();
        self.update_zero_and_negative_flags(self.register_y.get());
    }

    /// `DEX`: counts X down.
    pub fn dex(&mut self)
        ensures
            final(self)@ == old(self)@.load_x(old(self)@.x.wrapping_sub(1)),
    {
        self.register_x.decrement();
        self.update_zero_and_negative_flags(self.register_x.get());
    }

    /// `DEY`: counts Y down.
    pub fn dey(&mut self)
        ensures
            final(self)@ == old(self)@.load_y(old(self)@.y.wrapping_sub(1)),
    {
        self.register_y.decrement();
        self.update_zero_and_negative_flags(self.register_y.get());
    }

    /// Adds `value` and the carry to the accumulator.
    pub fn add_to_register_a(&mut self, value: u8)
        ensures
            final(self)@ == old(self)@.add_with_carry(value),
    {
        let register_a = self.register_a.get();
        let carry: u16 = if self.status.contains(CARRY) {
            1
        } else {
            0
        };
        let sum: u16 = register_a as u16 + value as u16 + carry;

        self.status.set(CARRY, sum > 0xFF);

        let result = (sum % 256) as u8;

        self.status.set(OVERFLOW, (value ^ result) & (result ^ register_a) & 0x80 != 0);
        self.register_a.set(result);
        self.update_zero_and_negative_flags(result);
    }

    /// Subtracts `value` and the borrow from the accumulator.
    pub fn subtract_from_register_a(&mut self, value: u8)
        ensures
            final(self)@ == old(self)@.subtract_with_carry(value),
    {
        self.add_to_register_a(value ^ 0xFF);
    }

    /// `ADC`: adds the operand and the carry to the accumulator.
    pub fn adc(&mut self, mode: AddressingMode) -> (r: Result<()>)
        ensures
            (final(self)@, outcome(r)) == old(self)@.adc(mode),
    {
        match self.fetch_operand(mode) {
            Ok(operand) => {
                self.add_to_register_a(operand.value);
                self.charge_page_cross(operand.page_crossed);
                Ok(())
            },
            Err(e) => Err(e),
        }
    }

    /// `SBC`: subtracts the operand and the borrow from the accumulator.
    pub fn sbc(&mut self, mode: AddressingMode) -> (r: Result<()>)
        ensures
            (final(self)@, outcome(r)) == old(self)@.sbc(mode),
    {
        match self.fetch_operand(mode) {
            Ok(operand) => {
                self.subtract_from_register_a(operand.value);
                self.charge_page_cross(operand.page_crossed);
                Ok(())
            },
            Err(e) => Err(e),
        }
    }

    pub(crate) fn compare_with(&mut self, register: u8, value: u8)
        ensures
            final(self)@ == old(self)@.compared(register, value),
    {
        self.status.set(CARRY, value <= register);
        self.update_zero_and_negative_flags(register.wrapping_sub(value));
    }

    /// `CMP`, `CPX`, `CPY`: compares a register with the operand.
    pub fn compare(&mut self, mode: AddressingMode, compare_value: u8) -> (r: Result<()>)
        ensures
            (final(self)@, outcome(r)) == old(self)@.compare(mode, compare_value),
    {
        match self.fetch_operand(mode) {
            Ok(operand) => {
                self.compare_with(compare_value, operand.value);
                self.charge_page_cross(operand.page_crossed);
                Ok(())
            },
            Err(e) => Err(e),
        }
    }

    /// `BIT`: tests the operand against the accumulator.
    pub fn bit(&mut self, mode: AddressingMode) -> (r: Result<()>)
        ensures
            (final(self)@, outcome(r)) == old(self)@.bit(mode),
    {
        match self.fetch_operand(mode) {
            Ok(operand) => {
                let value = operand.value;
                self.status.set(ZERO, self.register_a.get() & value == 0);
                self.update_negative_flag(value);
                self.status.set(OVERFLOW, value & OVERFLOW == OVERFLOW);
                Ok(())
            },
            Err(e) => Err(e),
        }
    }

    pub(crate) fn note_rewrite(&mut self, result: Modified)
        ensures
            final(self)@ == old(self)@.rewritten(result),
    {
        match result.carry {
            Some(carry) => self.status.set(CARRY, carry),
            None => {},
        }
        self.update_zero_and_negative_flags(result.value);
    }

    /// Rewrites the accumulator in place.
    pub fn modify_accumulator(&mut self, how: Modify)
        ensures
            final(self)@ == old(self)@.modify_a(how),
    {
        let result = rewrite(how, self.register_a.get(), self.status.contains(CARRY));
        self.note_rewrite(result);
        self.register_a.set(result.value);
    }

    /// Rewrites the operand in place and yields its new value.
    pub fn modify_operand(&mut self, mode: AddressingMode, how: Modify) -> (r: Result<u8>)
        ensures
            (final(self)@, outcome(r)) == old(self)@.modify(mode, how),
    {
        reveal(CpuState::modify);
        let operand = match self.fetch_operand(mode) {
            Ok(operand) => operand,
            Err(e) => {
                return Err(e);
            },
        };
        let result = rewrite(how, operand.value, self.status.contains(CARRY));
        self.note_rewrite(result);
        match self.mem_write_byte(operand.addr, result.value) {
            Ok(_) => Ok(result.value),
            Err(e) => Err(e),
        }
    }

    /// `ASL`: shifts the operand left.
    pub fn asl(&mut self, mode: AddressingMode) -> (r: Result<u8>)
        ensures
            (final(self)@, outcome(r)) == old(self)@.modify(mode, Modify::ShiftLeft),
    {
        self.modify_operand(mode, Modify::ShiftLeft)
    }

    /// `ASL A`: shifts the accumulator left.
    pub fn asl_accumulator(&mut self)
        ensures
            final(self)@ == old(self)@.modify_a(Modify::ShiftLeft),
    {
        self.modify_accumulator(Modify::ShiftLeft)
    }

    /// `LSR`: shifts the operand right.
    pub fn lsr(&mut self, mode: AddressingMode) -> (r: Result<u8>)
        ensures
            (final(self)@, outcome(r)) == old(self)@.modify(mode, Modify::ShiftRight),
    {
        self.modify_operand(mode, Modify::ShiftRight)
    }

    /// `LSR A`: shifts the accumulator right.
    pub fn lsr_accumulator(&mut self)
        ensures
            final(self)@ == old(self)@.modify_a(Modify::ShiftRight),
    {
        self.modify_accumulator(Modify::ShiftRight)
    }

    /// `ROL`: rotates the operand left through the carry.
    pub fn rol(&mut self, mode: AddressingMode) -> (r: Result<u8>)
        ensures
            (final(self)@, outcome(r)) == old(self)@.modify(mode, Modify::RotateLeft),
    {
        self.modify_operand(mode, Modify::RotateLeft)
    }

    /// `ROL A`: rotates the accumulator left through the carry.
    pub fn rol_accumulator(&mut self)
        ensures
            final(self)@ == old(self)@.modify_a(Modify::RotateLeft),
    {
        self.modify_accumulator(Modify::RotateLeft)
    }

    /// `ROR`: rotates the operand right through the carry.
    pub fn ror(&mut self, mode: AddressingMode) -> (r: Result<u8>)
        ensures
            (final(self)@, outcome(r)) == old(self)@.modify(mode, Modify::RotateRight),
    {
        self.modify_operand(mode, Modify::RotateRight)
    }

    /// `ROR A`: rotates the accumulator right through the carry.
    pub fn ror_accumulator(&mut self)
        ensures
            final(self)@ == old(self)@.modify_a(Modify::RotateRight),
    {
        self.modify_accumulator(Modify::RotateRight)
    }

    /// `INC`: counts the operand up.
    pub fn inc(&mut self, mode: AddressingMode) -> (r: Result<u8>)
        ensures
            (final(self)@, outcome(r)) == old(self)@.modify(mode, Modify::Increment),
    {
        self.modify_operand(mode, Modify::Increment)
    }

    /// `DEC`: counts the operand down.
    pub fn dec(&mut self, mode: AddressingMode) -> (r: Result<u8>)
        ensures
            (final(self)@, outcome(r)) == old(self)@.modify(mode, Modify::Decrement),
    {
        self.modify_operand(mode, Modify::Decrement)
    }

    /// Puts `value` on the stack. The stack lies in work RAM, so that
    /// this never fails.
    pub fn stack_push_byte(&mut self, value: u8) -> (r: Result<()>)
        ensures
            r is Ok,
            final(self)@ == old(self)@.push(value),
    {
        proof {
            self.bus.lemma_wf();
        }
        let addr = STACK_START_ADDR + self.stack_pointer.get() as u16;
        match self.bus.write_byte(addr, value) {
            Ok(_) => {},
            Err(e) => {
                return Err(e);
            },
        }
        self.stack_pointer.decrement();

        Ok(())
    }

    /// Pushes the high byte, then the low byte.
    pub fn stack_push_word(&mut self, value: u16) -> (r: Result<()>)
        ensures
            r is Ok,
            final(self)@ == old(self)@.push_word(value),
    {
        let (lo, hi) = split_word(value);

        match self.stack_push_byte(hi) {
            Ok(_) => self.stack_push_byte(lo),
            Err(e) => Err(e),
        }
    }

    /// Takes the top byte off the stack.
    pub fn stack_pop_byte(&mut self) -> (r: Result<u8>)
        ensures
            r is Ok,
            r->Ok_0 == old(self)@.top(),
            final(self)@ == old(self)@.pop(),
    {
        proof {
            self.bus.lemma_wf();
        }
        self.stack_pointer.increment();

        self.bus.read_byte(STACK_START_ADDR + self.stack_pointer.get() as u16)
    }

    /// Takes the top word off the stack, low byte first.
    pub fn stack_pop_word(&mut self) -> (r: Result<u16>)
        ensures
            r is Ok,
            r->Ok_0 == old(self)@.top_word(),
            final(self)@ == old(self)@.pop().pop(),
    {
        let lo = match self.stack_pop_byte() {
            Ok(byte) => byte,
            Err(e) => {
                return Err(e);
            },
        };
        let hi = match self.stack_pop_byte() {
            Ok(byte) => byte,
            Err(e) => {
                return Err(e);
            },
        };
        Ok(make_word(lo, hi))
    }

    /// `PLA`: pulls the accumulator from the stack.
    pub fn pla(&mut self) -> (r: Result<()>)
        ensures
            r is Ok,
            final(self)@ == old(self)@.pop().load_a(old(self)@.top()),
    {
        match self.stack_pop_byte() {
            Ok(value) => {
                self.load_a(value);
                Ok(())
            },
            Err(e) => Err(e),
        }
    }

    /// `PLP`: pulls the status from the stack.
    pub fn plp(&mut self) -> (r: Result<()>)
        ensures
            r is Ok,
            final(self)@ == old(self)@.pull_status(),
    {
        match self.stack_pop_byte() {
            Ok(value) => {
                self.status = CpuFlags::from_bits_truncate(value);
                self.status.remove(BREAK);
                self.status.insert(BREAK2);
                Ok(())
            },
            Err(e) => Err(e),
        }
    }

    /// `PHP`: pushes the status, with both break bits set.
    pub fn php(&mut self) -> (r: Result<()>)
        ensures
            r is Ok,
            final(self)@ == old(self)@.push(pushed_status(old(self)@.status)),
    {
        let mut flags = self.status;

        flags.insert(BREAK);
        flags.insert(BREAK2);

        self.stack_push_byte(flags.bits())
    }

    /// A branch whose condition is `condition`.
    pub fn branch(&mut self, condition: bool) -> (r: Result<()>)
        ensures
            (final(self)@, outcome(r)) == old(self)@.branch(condition),
    {
        reveal(CpuState::branch);
        if condition {
            let program_counter = self.program_counter.get();
            let jump = match self.mem_read_byte(program_counter) {
                Ok(byte) => byte,
                Err(e) => {
                    return Err(e);
                },
            };
            let jump_addr = relative_target(program_counter, jump);

            self.tick(1);
            if self.page_cross(program_counter.wrapping_add(1), jump_addr) {
                self.tick(1);
            }
            self.program_counter.set(jump_addr);
        }
        Ok(())
    }

    /// `JMP`: continues at the address that follows the opcode.
    pub fn jump_absolute(&mut self) -> (r: Result<()>)
        ensures
            (final(self)@, outcome(r)) == old(self)@.jump_absolute(),
    {
        reveal(CpuState::jump_absolute);
        match self.mem_read_word(self.program_counter.get()) {
            Ok(addr) => {
                self.program_counter.set(addr);
                Ok(())
            },
            Err(e) => Err(e),
        }
    }

    /// The indirect jump, flaw included.
    pub fn jump_indirect(&mut self) -> (r: Result<()>)
        ensures
            (final(self)@, outcome(r)) == old(self)@.jump_indirect(),
    {
        reveal(CpuState::jump_indirect);
        let addr = match self.mem_read_word(self.program_counter.get()) {
            Ok(word) => word,
            Err(e) => {
                return Err(e);
            },
        };
        let lo = match self.mem_read_byte(addr) {
            Ok(byte) => byte,
            Err(e) => {
                return Err(e);
            },
        };
        let (pointer_low, _) = split_word(addr);
        let high_addr = if pointer_low == 0xFF {
            addr - 0xFF
        } else {
            addr + 1
        };
        let hi = match self.mem_read_byte(high_addr) {
            Ok(byte) => byte,
            Err(e) => {
                return Err(e);
            },
        };
        self.program_counter.set(make_word(lo, hi));
        Ok(())
    }

    /// `JSR`: remembers where it came from, then jumps.
    pub fn jump_subroutine(&mut self) -> (r: Result<()>)
        ensures
            (final(self)@, outcome(r)) == old(self)@.jump_subroutine(),
    {
        let program_counter = self.program_counter.get();
        match self.stack_push_word(program_counter.wrapping_add(1)) {
            Ok(_) => self.jump_absolute(),
            Err(e) => Err(e),
        }
    }

    /// `RTS`: continues behind the call that led here.
    pub fn return_subroutine(&mut self) -> (r: Result<()>)
        ensures
            r is Ok,
            final(self)@ == old(self)@.return_subroutine(),
    {
        match self.stack_pop_word() {
            Ok(value) => {
                self.program_counter.set(value.wrapping_add(1));
                Ok(())
            },
            Err(e) => Err(e),
        }
    }

    /// `RTI`: restores the status and continues where the interrupt struck.
    pub fn return_interrupt(&mut self) -> (r: Result<()>)
        ensures
            r is Ok,
            final(self)@ == old(self)@.return_interrupt(),
    {
        match self.plp() {
            Ok(_) => {},
            Err(e) => {
                return Err(e);
            },
        }
        match self.stack_pop_word() {
            Ok(value) => {
                self.program_counter.set(value);
                Ok(())
            },
            Err(e) => Err(e),
        }
    }
}

} // verus!
