use vstd::prelude::*;
use crate::bits::split_word;
use crate::cpu::addressing_mode::AddressingMode;
use crate::cpu::flags::{
    BREAK, BREAK2, CARRY, DECIMAL_MODE, INTERRUPT_DISABLE, NEGATIVE, OVERFLOW, ZERO,
};
use crate::cpu::message::CpuMessage;
use crate::cpu::opcode::{lemma_entry_shape, OpCode};
use crate::cpu::operation::{Arithmetic, Flow, Operation, Rewrite, Transfer, Unofficial};
use crate::cpu::state::CpuState;
use crate::cpu::Cpu;
use crate::error::{outcome, Result};
use crate::interrupt::{Interrupt, InterruptType};


verus! {

impl Cpu {
    fn store_masked(&mut self, base: u16, index: u8, register: u8, bump: bool) -> (r: Result<()>)
        ensures
            (final(self)@, outcome(r)) == old(self)@.store_masked(base, index, register, bump),
    {
        let addr = base.wrapping_add(index as u16);
        let (_, high) = split_word(addr);
        let mask = if bump {
            high.wrapping_add(1)
        } else {
            high
        };
        self.mem_write_byte(addr, register & mask)
    }

    fn store_masked_absolute(&mut self, index: u8, register: u8, bump: bool) -> (r: Result<()>)
        ensures
            (final(self)@, outcome(r)) == old(self)@.store_masked_absolute(index, register, bump),
    {
        reveal(CpuState::store_masked_absolute);
        match self.mem_read_word(self.program_counter.get()) {
            Ok(base) => self.store_masked(base, index, register, bump),
            Err(e) => Err(e),
        }
    }

    fn store_masked_indirect(&mut self, index: u8, register: u8) -> (r: Result<()>)
        ensures
            (final(self)@, outcome(r)) == old(self)@.store_masked_indirect(index, register),
    {
        reveal(CpuState::store_masked_indirect);
        let pointer = match self.mem_read_byte(self.program_counter.get()) {
            Ok(byte) => byte,
            Err(e) => {
                return Err(e);
            },
        };
        match self.mem_read_word(pointer as u16) {
            Ok(base) => self.store_masked(base, index, register, false),
            Err(e) => Err(e),
        }
    }

    fn rotate_after_and(&mut self)
        ensures
            final(self)@ == old(self)@.rotated_and(),
    {
        self.ror_accumulator();

        let result = self.register_a.get();
        let bit_5 = (result >> 5) & 1;
        let bit_6 = (result >> 6) & 1;

        self.status.set(CARRY, bit_6 == 1);
        self.status.set(OVERFLOW, bit_5 ^ bit_6 == 1);
        self.update_zero_and_negative_flags(result);
    }

    fn handle_transfer(&mut self, operation: Transfer, mode: AddressingMode) -> (r: Result<()>)
        ensures
            (final(self)@, outcome(r)) == old(self)@.transfer(operation, mode),
    {
        reveal(CpuState::transfer);
        match operation {
            Transfer::Lda => self.lda(mode),
            Transfer::Ldx => self.ldx(mode),
            Transfer::Ldy => self.ldy(mode),
            Transfer::Sta => self.sta(mode),
            Transfer::Stx => self.store_operand(mode, self.register_x.get()),
            Transfer::Sty => self.store_operand(mode, self.register_y.get()),
            Transfer::Tax => {
                self.tax();
                Ok(())
            },
            Transfer::Tay => {
                self.load_y(self.register_a.get());
                Ok(())
            },
            Transfer::Tsx => {
                self.load_x(self.stack_pointer.get());
                Ok(())
            },
            Transfer::Txa => {
                self.load_a(self.register_x.get());
                Ok(())
            },
            Transfer::Tya => {
                self.load_a(self.register_y.get());
                Ok(())
            },
            Transfer::Txs => {
                self.stack_pointer.set(self.register_x.get());
                Ok(())
            },
            Transfer::Pha => self.stack_push_byte(self.register_a.get()),
            Transfer::Pla => self.pla(),
            Transfer::Php => self.php(),
            Transfer::Plp => self.plp(),
        }
    }

    fn handle_arithmetic(&mut self, operation: Arithmetic, mode: AddressingMode) -> (r: Result<()>)
        ensures
            (final(self)@, outcome(r)) == old(self)@.arithmetic(operation, mode),
    {
        reveal(CpuState::arithmetic);
        match operation {
            Arithmetic::Adc => self.adc(mode),
            Arithmetic::Sbc => self.sbc(mode),
            Arithmetic::And => self.and(mode),
            Arithmetic::Eor => self.eor(mode),
            Arithmetic::Ora => self.ora(mode),
            Arithmetic::Cmp => self.compare(mode, self.register_a.get()),
            Arithmetic::Cpx => self.compare(mode, self.register_x.get()),
            Arithmetic::Cpy => self.compare(mode, self.register_y.get()),
            Arithmetic::Bit => self.bit(mode),
            Arithmetic::Clc => {
                self.clear_carry_flag();
                Ok(())
            },
            Arithmetic::Sec => {
                self.set_carry_flag();
                Ok(())
            },
            Arithmetic::Cld => {
                self.status.remove(DECIMAL_MODE);
                Ok(())
            },
            Arithmetic::Sed => {
                self.status.insert(DECIMAL_MODE);
                Ok(())
            },
            Arithmetic::Cli => {
                self.status.remove(INTERRUPT_DISABLE);
                Ok(())
            },
            Arithmetic::Sei => {
                self.status.insert(INTERRUPT_DISABLE);
                Ok(())
            },
            Arithmetic::Clv => {
                self.status.remove(OVERFLOW);
                Ok(())
            },
        }
    }

    fn handle_rewrite(&mut self, operation: Rewrite, mode: AddressingMode) -> (r: Result<()>)
        ensures
            (final(self)@, outcome(r)) == old(self)@.rewrite(operation, mode),
    {
        reveal(CpuState::rewrite);
        match operation {
            Rewrite::AslA => {
                self.asl_accumulator();
                Ok(())
            },
            Rewrite::LsrA => {
                self.lsr_accumulator();
                Ok(())
            },
            Rewrite::RolA => {
                self.rol_accumulator();
                Ok(())
            },
            Rewrite::RorA => {
                self.ror_accumulator();
                Ok(())
            },
            Rewrite::Asl => match self.asl(mode) {
                Ok(_) => Ok(()),
                Err(e) => Err(e),
            },
            Rewrite::Lsr => match self.lsr(mode) {
                Ok(_) => Ok(()),
                Err(e) => Err(e),
            },
            Rewrite::Rol => match self.rol(mode) {
                Ok(_) => Ok(()),
                Err(e) => Err(e),
            },
            Rewrite::Ror => match self.ror(mode) {
                Ok(_) => Ok(()),
                Err(e) => Err(e),
            },
            Rewrite::Inc => match self.inc(mode) {
                Ok(_) => Ok(()),
                Err(e) => Err(e),
            },
            Rewrite::Dec => match self.dec(mode) {
                Ok(_) => Ok(()),
                Err(e) => Err(e),
            },
            Rewrite::Inx => {
                self.inx();
                Ok(())
            },
            Rewrite::Iny => {
                self.iny();
                Ok(())
            },
            Rewrite::Dex => {
                self.dex();
                Ok(())
            },
            Rewrite::Dey => {
                self.dey();
                Ok(())
            },
        }
    }

    fn handle_flow(&mut self, operation: Flow, mode: AddressingMode) -> (r: Result<()>)
        ensures
            (final(self)@, outcome(r)) == old(self)@.flow(operation, mode),
    {
        reveal(CpuState::flow);
        match operation {
            Flow::Jmp => self.jump_absolute(),
            Flow::JmpIndirect => self.jump_indirect(),
            Flow::Jsr => self.jump_subroutine(),
            Flow::Rts => self.return_subroutine(),
            Flow::Rti => self.return_interrupt(),
            Flow::Bne => self.branch(!self.status.contains(ZERO)),
            Flow::Beq => self.branch(self.status.contains(ZERO)),
            Flow::Bpl => self.branch(!self.status.contains(NEGATIVE)),
            Flow::Bmi => self.branch(self.status.contains(NEGATIVE)),
            Flow::Bvc => self.branch(!self.status.contains(OVERFLOW)),
            Flow::Bvs => self.branch(self.status.contains(OVERFLOW)),
            Flow::Bcc => self.branch(!self.status.contains(CARRY)),
            Flow::Bcs => self.branch(self.status.contains(CARRY)),
            Flow::Nop => Ok(()),
            Flow::NopRead => match self.fetch_operand(mode) {
                Ok(operand) => {
                    self.charge_page_cross(operand.page_crossed);
                    Ok(())
                },
                Err(e) => Err(e),
            },
        }
    }

    fn handle_unofficial(&mut self, operation: Unofficial, mode: AddressingMode) -> (r: Result<()>)
        ensures
            (final(self)@, outcome(r)) == old(self)@.unofficial(operation, mode),
    {
        reveal(CpuState::unofficial);
        match operation {
            Unofficial::Dcp => match self.dec(mode) {
                Ok(data) => {
                    self.compare_with(self.register_a.get(), data);
                    Ok(())
                },
                Err(e) => Err(e),
            },
            Unofficial::Isb => match self.inc(mode) {
                Ok(data) => {
                    self.subtract_from_register_a(data);
                    Ok(())
                },
                Err(e) => Err(e),
            },
            Unofficial::Slo => match self.asl(mode) {
                Ok(data) => {
                    self.load_a(self.register_a.get() | data);
                    Ok(())
                },
                Err(e) => Err(e),
            },
            Unofficial::Rla => match self.rol(mode) {
                Ok(data) => {
                    self.load_a(self.register_a.get() & data);
                    Ok(())
                },
                Err(e) => Err(e),
            },
            Unofficial::Sre => match self.lsr(mode) {
                Ok(data) => {
                    self.load_a(self.register_a.get() ^ data);
                    Ok(())
                },
                Err(e) => Err(e),
            },
            Unofficial::Rra => match self.ror(mode) {
                Ok(data) => {
                    self.add_to_register_a(data);
                    Ok(())
                },
                Err(e) => Err(e),
            },
            Unofficial::Lax => match self.fetch_operand(mode) {
                Ok(operand) => {
                    self.load_a(operand.value);
                    self.load_x(operand.value);
                    Ok(())
                },
                Err(e) => Err(e),
            },
            Unofficial::Sax => self.store_operand(
                mode,
                self.register_a.get() & self.register_x.get(),
            ),
            Unofficial::Axs => match self.fetch_operand(mode) {
                Ok(operand) => {
                    let a_and_x = self.register_a.get() & self.register_x.get();
                    self.compare_with(a_and_x, operand.value);
                    self.register_x.set(a_and_x.wrapping_sub(operand.value));
                    Ok(())
                },
                Err(e) => Err(e),
            },
            Unofficial::Arr => match self.fetch_operand(mode) {
                Ok(operand) => {
                    self.register_a.set(self.register_a.get() & operand.value);
                    self.rotate_after_and();
                    Ok(())
                },
                Err(e) => Err(e),
            },
            Unofficial::Anc => match self.fetch_operand(mode) {
                Ok(operand) => {
                    let data = self.register_a.get() & operand.value;
                    self.load_a(data);
                    self.status.set(CARRY, data >= 0x80);
                    Ok(())
                },
                Err(e) => Err(e),
            },
            Unofficial::Alr => match self.fetch_operand(mode) {
                Ok(operand) => {
                    self.load_a(self.register_a.get() & operand.value);
                    self.lsr_accumulator();
                    Ok(())
                },
                Err(e) => Err(e),
            },
            Unofficial::Lxa => match self.fetch_operand(mode) {
                Ok(operand) => {
                    self.load_a(operand.value);
                    self.load_x(operand.value);
                    self.charge_page_cross(operand.page_crossed);
                    Ok(())
                },
                Err(e) => Err(e),
            },
            Unofficial::Xaa => {
                self.load_a(self.register_x.get());
                match self.fetch_operand(mode) {
                    Ok(operand) => {
                        self.load_a(self.register_a.get() & operand.value);
                        Ok(())
                    },
                    Err(e) => Err(e),
                }
            },
            Unofficial::Las => match self.fetch_operand(mode) {
                Ok(operand) => {
                    let data = operand.value & self.stack_pointer.get();
                    self.load_a(data);
                    self.load_x(data);
                    self.stack_pointer.set(data);
                    Ok(())
                },
                Err(e) => Err(e),
            },
            Unofficial::Tas => {
                let data = self.register_a.get() & self.register_x.get();
                self.stack_pointer.set(data);
                self.store_masked_absolute(self.register_y.get(), data, true)
            },
            Unofficial::AhxIndirect => self.store_masked_indirect(
                self.register_y.get(),
                self.register_a.get() & self.register_x.get(),
            ),
            Unofficial::Ahx => self.store_masked_absolute(
                self.register_y.get(),
                self.register_a.get() & self.register_x.get(),
                false,
            ),
            Unofficial::Shx => self.store_masked_absolute(
                self.register_y.get(),
                self.register_x.get(),
                true,
            ),
            Unofficial::Shy => self.store_masked_absolute(
                self.register_x.get(),
                self.register_y.get(),
                true,
            ),
        }
    }

    /// Executes the instruction `opcode`, whose operand bytes start at
    /// the program counter.
    pub fn handle_opcode(&mut self, opcode: &OpCode) -> (r: Result<CpuMessage>)
        ensures
            (final(self)@, outcome(r)) == old(self)@.execute(opcode.code, opcode.mode),
    {
        let mode = opcode.mode();
        let done = match Operation::decode(opcode.code()) {
            Operation::Brk => {
                return Ok(CpuMessage::Break);
            },
            Operation::Transfer(operation) => self.handle_transfer(operation, mode),
            Operation::Arithmetic(operation) => self.handle_arithmetic(operation, mode),
            Operation::Rewrite(operation) => self.handle_rewrite(operation, mode),
            Operation::Flow(operation) => self.handle_flow(operation, mode),
            Operation::Unofficial(operation) => self.handle_unofficial(operation, mode),
        };
        match done {
            Ok(_) => Ok(CpuMessage::Continue),
            Err(e) => Err(e),
        }
    }

    /// Enters the handler of `interrupt`.
    pub fn interrupt(&mut self, interrupt: Interrupt) -> (r: Result<()>)
        ensures
            (final(self)@, outcome(r)) == old(self)@.interrupt(interrupt),
    {
        match self.stack_push_word(self.program_counter.get()) {
            Ok(_) => {},
            Err(e) => {
                return Err(e);
            },
        }
        let saved = (self.status.bits() & !(BREAK | BREAK2)) | (interrupt.b_flag_mask & (BREAK
            | BREAK2));
        match self.stack_push_byte(saved) {
            Ok(_) => {},
            Err(e) => {
                return Err(e);
            },
        }
        self.status.insert(INTERRUPT_DISABLE);

        match self.mem_read_word(interrupt.vector_address) {
            Ok(handler) => {
                self.program_counter.set(handler);
                self.tick(interrupt.cpu_cycles);
                Ok(())
            },
            Err(e) => Err(e),
        }
    }

    /// Takes the picture unit's pending interrupt, if there is one.
    pub fn service_interrupts(&mut self) -> (r: Result<()>)
        ensures
            (final(self)@, outcome(r)) == old(self)@.service_interrupts(),
    {
        if self.bus.poll_nmi_status().is_some() {
            self.interrupt(Interrupt::descriptor(InterruptType::NMI))
        } else {
            Ok(())
        }
    }

    /// Fetches the instruction at the program counter and executes it.
    pub fn execute_next(&mut self) -> (r: Result<CpuMessage>)
        ensures
            (final(self)@, outcome(r)) == old(self)@.execute_next(),
    {
        let program_counter = self.program_counter.get();
        let code = match self.mem_read_byte(program_counter) {
            Ok(byte) => byte,
            Err(e) => {
                return Err(e);
            },
        };
        self.program_counter.increment();
        let program_counter = self.program_counter.get();
        let opcode = OpCode::lookup(code);
        proof {
            lemma_entry_shape(code);
        }

        match self.handle_opcode(&opcode) {
            Ok(CpuMessage::Break) => {
                return Ok(CpuMessage::Break);
            },
            Ok(CpuMessage::Continue) => {},
            Err(e) => {
                return Err(e);
            },
        }
        self.tick(opcode.cycles());

        if program_counter == self.program_counter.get() {
            self.program_counter.set(program_counter.wrapping_add((opcode.len() - 1) as u16));
        }
        Ok(CpuMessage::Continue)
    }
}

} // verus!
