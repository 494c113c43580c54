use nes_emulator::cpu::run::{NoCallback, StepCallback};
use nes_emulator::error::Result;
use nes_emulator::{AddressingMode, Bus, Cartridge, Cpu, CpuMessage, ErrorKind, OpCode};

const CARRY: u8 = 0b0000_0001;
const ZERO: u8 = 0b0000_0010;
const INTERRUPT_DISABLE: u8 = 0b0000_0100;
const BREAK: u8 = 0b0001_0000;
const BREAK2: u8 = 0b0010_0000;
const OVERFLOW: u8 = 0b0100_0000;
const NEGATIVE: u8 = 0b1000_0000;

/// A machine whose program ROM holds the interrupt vector 0x0300 and the
/// reset vector 0x8000, and zeros elsewhere.
fn machine() -> Cpu {
    let mut data = vec![0x4E, 0x45, 0x53, 0x1A, 1, 0, 0, 0];
    data.resize(16, 0);
    let mut page = vec![0u8; 0x4000];
    page[0x3FFA] = 0x00;
    page[0x3FFB] = 0x03;
    page[0x3FFC] = 0x00;
    page[0x3FFD] = 0x80;
    data.extend(page);
    Cpu::new(Bus::new(&Cartridge::new(&data).unwrap()))
}

/// A machine with `program` in work RAM at `at`, about to execute it.
fn machine_with(at: u16, program: &[u8]) -> Cpu {
    let mut cpu = machine();
    for (i, byte) in program.iter().enumerate() {
        cpu.mem_write_byte(at + i as u16, *byte).unwrap();
    }
    cpu.program_counter.set(at);
    cpu
}

fn step(cpu: &mut Cpu) -> usize {
    let before = cpu.bus.cycles();
    assert_eq!(cpu.execute_next().unwrap(), CpuMessage::Continue);
    cpu.bus.cycles() - before
}

fn flag(cpu: &Cpu, flag: u8) -> bool {
    cpu.status.bits() & flag == flag
}

#[test]
fn a_new_machine_is_in_its_reset_state() {
    let mut cpu = machine();

    assert_eq!(cpu.stack_pointer.get(), 0xFD);
    assert_eq!(cpu.status.bits(), 0b0010_0100);

    cpu.register_a.set(1);
    cpu.register_x.set(2);
    cpu.register_y.set(3);
    cpu.stack_pointer.set(4);
    cpu.status.insert(CARRY);
    cpu.reset().unwrap();

    assert_eq!(cpu.register_a.get(), 0);
    assert_eq!(cpu.register_x.get(), 0);
    assert_eq!(cpu.register_y.get(), 0);
    assert_eq!(cpu.stack_pointer.get(), 0xFD);
    assert_eq!(cpu.status.bits(), 0b0010_0100);
    assert_eq!(cpu.program_counter.get(), 0x8000);
}

#[test]
fn the_indirect_jump_wraps_within_the_page_of_its_pointer() {
    let mut cpu = machine_with(0x0400, &[0x6C, 0xFF, 0x02]);
    cpu.mem_write_byte(0x02FF, 0x34).unwrap();
    cpu.mem_write_byte(0x0200, 0x12).unwrap();
    cpu.mem_write_byte(0x0300, 0x56).unwrap();

    assert_eq!(step(&mut cpu), 5);

    assert_eq!(cpu.program_counter.get(), 0x1234);
}

#[test]
fn the_indirect_jump_reads_the_next_byte_elsewhere() {
    let mut cpu = machine_with(0x0400, &[0x6C, 0x80, 0x02]);
    cpu.mem_write_word(0x0280, 0x5678).unwrap();

    step(&mut cpu);

    assert_eq!(cpu.program_counter.get(), 0x5678);
}

#[test]
fn a_branch_not_taken_costs_its_base_cycles() {
    let mut cpu = machine_with(0x0010, &[0xF0, 0x05]);

    assert_eq!(step(&mut cpu), 2);

    assert_eq!(cpu.program_counter.get(), 0x0012);
}

#[test]
fn a_branch_taken_costs_one_cycle_more() {
    let mut cpu = machine_with(0x0010, &[0xD0, 0x05]);

    assert_eq!(step(&mut cpu), 3);

    assert_eq!(cpu.program_counter.get(), 0x0017);
}

#[test]
fn a_branch_onto_another_page_costs_two_cycles_more() {
    let mut cpu = machine_with(0x00F0, &[0xD0, 0x20]);

    assert_eq!(step(&mut cpu), 4);

    assert_eq!(cpu.program_counter.get(), 0x0112);
}

#[test]
fn a_branch_can_lead_backwards() {
    let mut cpu = machine_with(0x0410, &[0xD0, 0xFB]);

    assert_eq!(step(&mut cpu), 3);
    assert_eq!(cpu.program_counter.get(), 0x040D);

    let mut cpu = machine_with(0x0400, &[0xD0, 0x80]);
    assert_eq!(step(&mut cpu), 4);
    assert_eq!(cpu.program_counter.get(), 0x0382);
}

#[test]
fn every_branch_tests_its_own_flag() {
    let cases: [(u8, u8, bool); 8] = [
        (0xD0, ZERO, false),
        (0xF0, ZERO, true),
        (0x10, NEGATIVE, false),
        (0x30, NEGATIVE, true),
        (0x50, OVERFLOW, false),
        (0x70, OVERFLOW, true),
        (0x90, CARRY, false),
        (0xB0, CARRY, true),
    ];
    for (code, tested, taken_when_set) in cases {
        let mut cpu = machine_with(0x0010, &[code, 0x02]);
        cpu.status.insert(tested);
        step(&mut cpu);
        assert_eq!(cpu.program_counter.get() == 0x0014, taken_when_set);

        let mut cpu = machine_with(0x0010, &[code, 0x02]);
        cpu.status.remove(tested);
        step(&mut cpu);
        assert_eq!(cpu.program_counter.get() == 0x0014, !taken_when_set);
    }
}

#[test]
fn the_indexed_indirect_pointer_wraps_within_the_zero_page() {
    let mut cpu = machine_with(0x0400, &[0xA1, 0xFF]);
    cpu.mem_write_byte(0x00FF, 0x34).unwrap();
    cpu.mem_write_byte(0x0000, 0x02).unwrap();
    cpu.mem_write_byte(0x0100, 0x07).unwrap();
    cpu.mem_write_byte(0x0234, 0x99).unwrap();

    assert_eq!(step(&mut cpu), 6);

    assert_eq!(cpu.register_a.get(), 0x99);
    assert_eq!(cpu.program_counter.get(), 0x0402);
}

#[test]
fn the_index_is_added_to_the_pointer_modulo_256() {
    let mut cpu = machine_with(0x0400, &[0xA1, 0xF0]);
    cpu.register_x.set(0x20);
    cpu.mem_write_word(0x0010, 0x0234).unwrap();
    cpu.mem_write_byte(0x0234, 0x42).unwrap();

    step(&mut cpu);

    assert_eq!(cpu.register_a.get(), 0x42);
}

fn resolve(cpu: &mut Cpu, mode: AddressingMode) -> (u16, bool) {
    cpu.get_absolute_address(mode, 0x0010).unwrap()
}

#[test]
fn addressing_modes_resolve_as_the_processor_manual_says() {
    let mut cpu = machine();
    cpu.register_x.set(0x04);
    cpu.register_y.set(0x10);
    cpu.mem_write_byte(0x0010, 0xFE).unwrap();
    cpu.mem_write_byte(0x0011, 0x02).unwrap();
    cpu.mem_write_word(0x0002, 0x0345).unwrap();
    cpu.mem_write_word(0x00FE, 0x02F8).unwrap();

    assert_eq!(resolve(&mut cpu, AddressingMode::ZeroPage), (0x00FE, false));
    assert_eq!(resolve(&mut cpu, AddressingMode::ZeroPageX), (0x0002, false));
    assert_eq!(resolve(&mut cpu, AddressingMode::ZeroPageY), (0x000E, false));
    assert_eq!(resolve(&mut cpu, AddressingMode::Absolute), (0x02FE, false));
    assert_eq!(resolve(&mut cpu, AddressingMode::AbsoluteX), (0x0302, true));
    assert_eq!(resolve(&mut cpu, AddressingMode::AbsoluteY), (0x030E, true));
    assert_eq!(resolve(&mut cpu, AddressingMode::IndirectX), (0x0345, false));
    assert_eq!(resolve(&mut cpu, AddressingMode::IndirectY), (0x0308, true));

    cpu.register_x.set(0x01);
    assert_eq!(resolve(&mut cpu, AddressingMode::AbsoluteX), (0x02FF, false));

    cpu.program_counter.set(0x0010);
    assert_eq!(cpu.get_operand_address(AddressingMode::Immediate).unwrap(), (0x0010, false));
    assert_eq!(cpu.get_operand_address(AddressingMode::ZeroPage).unwrap(), (0x00FE, false));
}

#[test]
fn modes_without_an_operand_address_are_unsupported() {
    let mut cpu = machine();

    let error = cpu.get_absolute_address(AddressingMode::Immediate, 0).err().unwrap();
    assert_eq!(error.kind(), ErrorKind::Unsupported);
    let error = cpu.get_operand_address(AddressingMode::NoneAddressing).err().unwrap();
    assert_eq!(error.kind(), ErrorKind::Unsupported);
    let error = cpu.lda(AddressingMode::NoneAddressing).err().unwrap();
    assert_eq!(error.kind(), ErrorKind::Unsupported);
}

#[test]
fn a_read_across_a_page_costs_one_cycle_more() {
    let mut cpu = machine_with(0x0400, &[0xBD, 0xFF, 0x01, 0xBD, 0xFE, 0x01]);
    cpu.register_x.set(1);
    cpu.mem_write_byte(0x0200, 0x77).unwrap();

    assert_eq!(step(&mut cpu), 5);
    assert_eq!(cpu.register_a.get(), 0x77);
    assert_eq!(step(&mut cpu), 4);
    assert_eq!(cpu.program_counter.get(), 0x0406);
}

#[test]
fn a_store_across_a_page_costs_nothing_more() {
    let mut cpu = machine_with(0x0400, &[0x9D, 0xFF, 0x01]);
    cpu.register_x.set(1);
    cpu.register_a.set(0x5A);

    assert_eq!(step(&mut cpu), 5);

    assert_eq!(cpu.mem_read_byte(0x0200).unwrap(), 0x5A);
    assert_eq!(cpu.status.bits(), 0b0010_0100);
}

#[test]
fn pushing_and_pulling_the_accumulator_restores_it() {
    for a in [0x00u8, 0x01, 0x7F, 0x80, 0xFF] {
        let mut cpu = machine_with(0x0400, &[0x48, 0xA9, 0x55, 0x68]);
        cpu.register_a.set(a);

        assert_eq!(step(&mut cpu), 3);
        assert_eq!(cpu.stack_pointer.get(), 0xFC);
        assert_eq!(cpu.mem_read_byte(0x01FD).unwrap(), a);
        step(&mut cpu);
        assert_eq!(step(&mut cpu), 4);

        assert_eq!(cpu.register_a.get(), a);
        assert_eq!(cpu.stack_pointer.get(), 0xFD);
        assert_eq!(flag(&cpu, ZERO), a == 0);
        assert_eq!(flag(&cpu, NEGATIVE), a >= 0x80);
    }
}

#[test]
fn pushing_and_pulling_the_status_restores_all_but_the_break_bits() {
    for status in [0x00u8, 0xFF, 0b1100_0011, 0b0001_0000, 0b0010_0000] {
        let mut cpu = machine_with(0x0400, &[0x08, 0x28]);
        cpu.status = nes_emulator::CpuFlags::from_bits_truncate(status);

        step(&mut cpu);
        assert_eq!(cpu.mem_read_byte(0x01FD).unwrap(), status | BREAK | BREAK2);
        assert_eq!(cpu.status.bits(), status);
        cpu.status = nes_emulator::CpuFlags::from_bits_truncate(!status);
        step(&mut cpu);

        assert_eq!(cpu.status.bits(), (status & !BREAK) | BREAK2);
        assert_eq!(cpu.stack_pointer.get(), 0xFD);
    }
}

#[test]
fn the_stack_pointer_wraps() {
    let mut cpu = machine();
    cpu.stack_pointer.set(0x00);

    cpu.stack_push_byte(0xAB).unwrap();
    assert_eq!(cpu.stack_pointer.get(), 0xFF);
    assert_eq!(cpu.mem_read_byte(0x0100).unwrap(), 0xAB);
    cpu.stack_push_word(0x1234).unwrap();
    assert_eq!(cpu.mem_read_byte(0x01FF).unwrap(), 0x12);
    assert_eq!(cpu.mem_read_byte(0x01FE).unwrap(), 0x34);

    assert_eq!(cpu.stack_pop_word().unwrap(), 0x1234);
    assert_eq!(cpu.stack_pop_byte().unwrap(), 0xAB);
    assert_eq!(cpu.stack_pointer.get(), 0x00);
}

#[test]
fn addition_follows_the_sum_of_accumulator_operand_and_carry() {
    for a in [0x00u8, 0x01, 0x50, 0x7F, 0x80, 0xD0, 0xFF] {
        for m in [0x00u8, 0x01, 0x10, 0x50, 0x7F, 0x80, 0x90, 0xFF] {
            for carry in [false, true] {
                let mut cpu = machine();
                cpu.register_a.set(a);
                cpu.status.set(CARRY, carry);

                cpu.add_to_register_a(m);

                let sum = a as u16 + m as u16 + carry as u16;
                let result = cpu.register_a.get();
                assert_eq!(result, (sum % 256) as u8);
                assert_eq!(flag(&cpu, CARRY), sum > 255);
                assert_eq!(flag(&cpu, ZERO), result == 0);
                assert_eq!(flag(&cpu, NEGATIVE), result >= 0x80);
                let signed = a as i8 as i16 + m as i8 as i16 + carry as i16;
                assert_eq!(flag(&cpu, OVERFLOW), !(-128..=127).contains(&signed));
            }
        }
    }
}

#[test]
fn subtraction_is_addition_of_the_complement() {
    for a in [0x00u8, 0x01, 0x50, 0x7F, 0x80, 0xD0, 0xFF] {
        for m in [0x00u8, 0x01, 0x10, 0x50, 0x7F, 0x80, 0xF0, 0xFF] {
            for carry in [false, true] {
                let mut subtracted = machine_with(0x0400, &[0xE9, m]);
                subtracted.register_a.set(a);
                subtracted.status.set(CARRY, carry);
                let mut added = machine_with(0x0400, &[0x69, m ^ 0xFF]);
                added.register_a.set(a);
                added.status.set(CARRY, carry);

                step(&mut subtracted);
                step(&mut added);

                assert_eq!(subtracted.register_a.get(), added.register_a.get());
                assert_eq!(subtracted.status.bits(), added.status.bits());
                let difference = a as i16 - m as i16 - (1 - carry as i16);
                assert_eq!(subtracted.register_a.get(), difference.rem_euclid(256) as u8);
                assert_eq!(flag(&subtracted, CARRY), difference >= 0);
            }
        }
    }
}

#[test]
fn sbc_with_exact_values() {
    let mut cpu = machine_with(0x0400, &[0x38, 0xA9, 0x50, 0xE9, 0xF0]);
    step(&mut cpu);
    step(&mut cpu);
    step(&mut cpu);

    assert_eq!(cpu.register_a.get(), 0x60);
    assert!(!flag(&cpu, CARRY));
    assert!(!flag(&cpu, OVERFLOW));
    assert!(!flag(&cpu, NEGATIVE));

    let mut cpu = machine_with(0x0400, &[0x38, 0xA9, 0x50, 0xE9, 0xB0]);
    step(&mut cpu);
    step(&mut cpu);
    step(&mut cpu);

    assert_eq!(cpu.register_a.get(), 0xA0);
    assert!(!flag(&cpu, CARRY));
    assert!(flag(&cpu, OVERFLOW));
    assert!(flag(&cpu, NEGATIVE));
}

#[test]
fn rotating_left_and_right_restores_accumulator_and_carry() {
    for a in [0x00u8, 0x01, 0x55, 0x80, 0xAA, 0xFF] {
        for carry in [false, true] {
            let mut cpu = machine_with(0x0400, &[0x2A, 0x6A]);
            cpu.register_a.set(a);
            cpu.status.set(CARRY, carry);

            assert_eq!(step(&mut cpu), 2);
            assert_eq!(cpu.register_a.get(), (a << 1) | carry as u8);
            assert_eq!(flag(&cpu, CARRY), a >= 0x80);
            step(&mut cpu);

            assert_eq!(cpu.register_a.get(), a);
            assert_eq!(flag(&cpu, CARRY), carry);
        }
    }
}

#[test]
fn shifts_report_the_bit_that_falls_out_and_describe_the_result() {
    let mut cpu = machine_with(0x0400, &[0x0A, 0x4A, 0x4A]);
    cpu.register_a.set(0x81);

    step(&mut cpu);
    assert_eq!(cpu.register_a.get(), 0x02);
    assert!(flag(&cpu, CARRY));
    assert!(!flag(&cpu, ZERO));
    assert!(!flag(&cpu, NEGATIVE));
    step(&mut cpu);
    assert_eq!(cpu.register_a.get(), 0x01);
    assert!(!flag(&cpu, CARRY));
    step(&mut cpu);
    assert_eq!(cpu.register_a.get(), 0x00);
    assert!(flag(&cpu, CARRY));
    assert!(flag(&cpu, ZERO));
}

#[test]
fn memory_is_rewritten_in_place() {
    let mut cpu = machine_with(
        0x0400,
        &[0x06, 0x10, 0x66, 0x10, 0xE6, 0x11, 0xC6, 0x12, 0x26, 0x13, 0x46, 0x14],
    );
    cpu.mem_write_byte(0x0010, 0xC0).unwrap();
    cpu.mem_write_byte(0x0011, 0xFF).unwrap();
    cpu.mem_write_byte(0x0012, 0x00).unwrap();
    cpu.mem_write_byte(0x0013, 0x80).unwrap();
    cpu.mem_write_byte(0x0014, 0x03).unwrap();

    assert_eq!(step(&mut cpu), 5);
    assert_eq!(cpu.mem_read_byte(0x0010).unwrap(), 0x80);
    assert!(flag(&cpu, CARRY) && flag(&cpu, NEGATIVE));
    step(&mut cpu);
    assert_eq!(cpu.mem_read_byte(0x0010).unwrap(), 0xC0);
    assert!(!flag(&cpu, CARRY));
    step(&mut cpu);
    assert_eq!(cpu.mem_read_byte(0x0011).unwrap(), 0x00);
    assert!(flag(&cpu, ZERO));
    step(&mut cpu);
    assert_eq!(cpu.mem_read_byte(0x0012).unwrap(), 0xFF);
    assert!(flag(&cpu, NEGATIVE));
    step(&mut cpu);
    assert_eq!(cpu.mem_read_byte(0x0013).unwrap(), 0x00);
    assert!(flag(&cpu, CARRY) && flag(&cpu, ZERO));
    step(&mut cpu);
    assert_eq!(cpu.mem_read_byte(0x0014).unwrap(), 0x01);
    assert!(flag(&cpu, CARRY));
    assert_eq!(cpu.program_counter.get(), 0x040C);
}

#[test]
fn compare_sets_carry_when_the_register_is_not_smaller() {
    let cases: [(u8, u8, bool, bool, bool); 6] = [
        (0x10, 0x10, true, true, false),
        (0x10, 0x11, false, false, true),
        (0x11, 0x10, true, false, false),
        (0xFF, 0x00, true, false, true),
        (0x00, 0xFF, false, false, false),
        (0x00, 0x00, true, true, false),
    ];
    for (register, operand, carry, zero, negative) in cases {
        for (code, which) in [(0xC9u8, 0), (0xE0, 1), (0xC0, 2)] {
            let mut cpu = machine_with(0x0400, &[code, operand]);
            match which {
                0 => cpu.register_a.set(register),
                1 => cpu.register_x.set(register),
                _ => cpu.register_y.set(register),
            }
            cpu.status.set(CARRY, !carry);

            assert_eq!(step(&mut cpu), 2);

            assert_eq!(flag(&cpu, CARRY), carry);
            assert_eq!(flag(&cpu, ZERO), zero);
            assert_eq!(flag(&cpu, NEGATIVE), negative);
        }
    }
}

#[test]
fn bit_copies_the_two_top_bits_of_the_operand() {
    let mut cpu = machine_with(0x0400, &[0x24, 0x10, 0x24, 0x11]);
    cpu.register_a.set(0x0F);
    cpu.mem_write_byte(0x0010, 0xC0).unwrap();
    cpu.mem_write_byte(0x0011, 0x01).unwrap();

    step(&mut cpu);
    assert!(flag(&cpu, ZERO) && flag(&cpu, NEGATIVE) && flag(&cpu, OVERFLOW));
    step(&mut cpu);
    assert!(!flag(&cpu, ZERO) && !flag(&cpu, NEGATIVE) && !flag(&cpu, OVERFLOW));
    assert_eq!(cpu.register_a.get(), 0x0F);
}

#[test]
fn logic_instructions_describe_the_accumulator() {
    let mut cpu = machine_with(0x0400, &[0x29, 0x0F, 0x49, 0xFF, 0x09, 0x0A, 0x29, 0x00]);
    cpu.register_a.set(0x3C);

    step(&mut cpu);
    assert_eq!(cpu.register_a.get(), 0x0C);
    step(&mut cpu);
    assert_eq!(cpu.register_a.get(), 0xF3);
    assert!(flag(&cpu, NEGATIVE));
    step(&mut cpu);
    assert_eq!(cpu.register_a.get(), 0xFB);
    step(&mut cpu);
    assert_eq!(cpu.register_a.get(), 0x00);
    assert!(flag(&cpu, ZERO) && !flag(&cpu, NEGATIVE));
}

#[test]
fn transfers_copy_and_describe_what_they_copy() {
    let mut cpu = machine_with(0x0400, &[0xA8, 0xBA, 0x8A, 0x98, 0x9A]);
    cpu.register_a.set(0x80);

    step(&mut cpu);
    assert_eq!(cpu.register_y.get(), 0x80);
    assert!(flag(&cpu, NEGATIVE));
    step(&mut cpu);
    assert_eq!(cpu.register_x.get(), 0xFD);
    cpu.register_x.set(0x00);
    step(&mut cpu);
    assert_eq!(cpu.register_a.get(), 0x00);
    assert!(flag(&cpu, ZERO));
    step(&mut cpu);
    assert_eq!(cpu.register_a.get(), 0x80);
    let status = cpu.status.bits();
    cpu.register_x.set(0x00);
    step(&mut cpu);
    assert_eq!(cpu.stack_pointer.get(), 0x00);
    assert_eq!(cpu.status.bits(), status);
}

#[test]
fn counters_wrap() {
    let mut cpu = machine_with(0x0400, &[0xE8, 0xCA, 0xCA, 0xC8, 0x88, 0x88]);
    cpu.register_x.set(0xFF);
    cpu.register_y.set(0xFF);

    step(&mut cpu);
    assert_eq!(cpu.register_x.get(), 0x00);
    assert!(flag(&cpu, ZERO));
    step(&mut cpu);
    assert_eq!(cpu.register_x.get(), 0xFF);
    assert!(flag(&cpu, NEGATIVE));
    step(&mut cpu);
    assert_eq!(cpu.register_x.get(), 0xFE);
    step(&mut cpu);
    assert_eq!(cpu.register_y.get(), 0x00);
    step(&mut cpu);
    step(&mut cpu);
    assert_eq!(cpu.register_y.get(), 0xFE);
}

#[test]
fn flag_instructions_touch_one_flag_each() {
    let mut cpu = machine_with(0x0400, &[0x38, 0xF8, 0x78, 0x18, 0xD8, 0x58, 0xB8]);
    cpu.status = nes_emulator::CpuFlags::from_bits_truncate(OVERFLOW);

    step(&mut cpu);
    assert_eq!(cpu.status.bits(), OVERFLOW | CARRY);
    step(&mut cpu);
    assert_eq!(cpu.status.bits(), OVERFLOW | CARRY | 0x08);
    step(&mut cpu);
    assert_eq!(cpu.status.bits(), OVERFLOW | CARRY | 0x08 | INTERRUPT_DISABLE);
    step(&mut cpu);
    step(&mut cpu);
    step(&mut cpu);
    assert_eq!(cpu.status.bits(), OVERFLOW);
    assert_eq!(step(&mut cpu), 2);
    assert_eq!(cpu.status.bits(), 0);
}

#[test]
fn a_subroutine_call_returns_behind_the_call() {
    let mut cpu = machine_with(0x0400, &[0x20, 0x10, 0x04, 0xE8]);
    cpu.mem_write_byte(0x0410, 0x60).unwrap();

    assert_eq!(step(&mut cpu), 6);
    assert_eq!(cpu.program_counter.get(), 0x0410);
    assert_eq!(cpu.stack_pointer.get(), 0xFB);
    assert_eq!(cpu.mem_read_word(0x01FC).unwrap(), 0x0402);
    assert_eq!(step(&mut cpu), 6);
    assert_eq!(cpu.program_counter.get(), 0x0403);
    assert_eq!(cpu.stack_pointer.get(), 0xFD);
}

#[test]
fn return_from_interrupt_restores_status_and_address() {
    let mut cpu = machine_with(0x0400, &[0x40]);
    cpu.stack_push_word(0x1234).unwrap();
    cpu.stack_push_byte(0xFF).unwrap();

    assert_eq!(step(&mut cpu), 6);

    assert_eq!(cpu.program_counter.get(), 0x1234);
    assert_eq!(cpu.status.bits(), 0xEF);
    assert_eq!(cpu.stack_pointer.get(), 0xFD);
}

#[test]
fn a_pending_interrupt_is_taken_before_the_next_instruction() {
    let mut cpu = machine_with(0x0400, &[0xEA]);
    cpu.mem_write_byte(0x2000, 0x80).unwrap();
    for _ in 0..241 {
        cpu.bus.tick(114);
    }
    cpu.status = nes_emulator::CpuFlags::from_bits_truncate(0b1101_0011);
    let cycles = cpu.bus.cycles();

    cpu.service_interrupts().unwrap();

    assert_eq!(cpu.program_counter.get(), 0x0300);
    assert_eq!(cpu.stack_pointer.get(), 0xFA);
    assert_eq!(cpu.mem_read_word(0x01FC).unwrap(), 0x0400);
    assert_eq!(cpu.mem_read_byte(0x01FB).unwrap(), 0b1110_0011);
    assert_eq!(cpu.status.bits(), 0b1101_0111);
    assert_eq!(cpu.bus.cycles(), cycles + 2);

    cpu.service_interrupts().unwrap();
    assert_eq!(cpu.program_counter.get(), 0x0300);
    assert_eq!(cpu.stack_pointer.get(), 0xFA);
}

#[test]
fn the_halt_charges_nothing_and_ends_the_run() {
    let mut cpu = machine_with(0x0400, &[0xE8, 0x00, 0xE8]);

    cpu.run().unwrap();

    assert_eq!(cpu.register_x.get(), 1);
    assert_eq!(cpu.program_counter.get(), 0x0402);
    assert_eq!(cpu.bus.cycles(), 2);
}

#[test]
fn an_illegal_access_ends_the_run() {
    let mut cpu = machine_with(0x0400, &[0xE8, 0x8D, 0x00, 0x80, 0xE8, 0x00]);

    let error = cpu.run().err().unwrap();

    assert_eq!(error.kind(), ErrorKind::Illegal);
    assert_eq!(cpu.register_x.get(), 1);
    assert_eq!(cpu.program_counter.get(), 0x0402);
}

#[test]
fn an_unsupported_region_ends_the_run() {
    let mut cpu = machine_with(0x0400, &[0xAD, 0x16, 0x40, 0x00]);

    let error = cpu.run().err().unwrap();

    assert_eq!(error.kind(), ErrorKind::Unsupported);
}

struct Counter {
    steps: usize,
    limit: usize,
}

impl StepCallback for Counter {
    type Record = ();

    fn on_step(&mut self, cpu: &mut Cpu) -> Result<()> {
        if self.steps == self.limit {
            return Err(nes_emulator::Error::Uninitialized(format!(
                "stopped at {:#x}",
                cpu.program_counter.get()
            )));
        }
        self.steps += 1;
        Ok(())
    }
}

#[test]
fn the_callback_sees_every_instruction_and_can_end_the_run() {
    let program = [0xE8, 0xE8, 0xE8, 0x00];
    let mut cpu = machine_with(0x0400, &program);
    let mut counter = Counter { steps: 0, limit: 10 };

    cpu.run_with_callback(&mut counter).unwrap();

    assert_eq!(counter.steps, 4);
    assert_eq!(cpu.register_x.get(), 3);

    let mut cpu = machine_with(0x0400, &program);
    let mut counter = Counter { steps: 0, limit: 2 };

    let error = cpu.run_with_callback(&mut counter).err().unwrap();

    assert_eq!(error.kind(), ErrorKind::Uninitialized);
    assert_eq!(cpu.register_x.get(), 2);

    let mut cpu = machine_with(0x0400, &program);
    cpu.run_with_callback(&mut NoCallback).unwrap();
    assert_eq!(cpu.register_x.get(), 3);
}

#[test]
fn load_points_the_program_counter_at_the_copy() {
    let mut data = vec![0x4E, 0x45, 0x53, 0x1A, 0, 0, 0, 0];
    data.resize(16, 0);
    let mut cpu = Cpu::new(Bus::new(&Cartridge::new(&data).unwrap()));

    cpu.load().unwrap();
    assert_eq!(cpu.program_counter.get(), 0x0600);

    let mut cpu = machine();
    assert_eq!(cpu.load().err().unwrap().kind(), ErrorKind::Illegal);
    assert_eq!(cpu.program_counter.get(), 0x0000);
}

#[test]
fn every_opcode_has_a_row_with_its_own_byte() {
    let mut official = 0;
    for code in 0..=255u8 {
        let opcode = OpCode::lookup(code);
        assert_eq!(opcode.code(), code);
        assert!((1..=3).contains(&opcode.len()));
        assert!((1..=8).contains(&opcode.cycles()));
        match opcode.mode() {
            AddressingMode::Immediate
            | AddressingMode::ZeroPage
            | AddressingMode::ZeroPageX
            | AddressingMode::ZeroPageY
            | AddressingMode::IndirectX
            | AddressingMode::IndirectY => assert_eq!(opcode.len(), 2),
            AddressingMode::Absolute | AddressingMode::AbsoluteX | AddressingMode::AbsoluteY => {
                assert_eq!(opcode.len(), 3)
            }
            AddressingMode::NoneAddressing => {}
        }
        if !opcode.mnemonic().starts_with('*') {
            official += 1;
            assert_eq!(opcode.mnemonic().len(), 3);
        } else {
            assert_eq!(opcode.mnemonic().len(), 4);
        }
    }
    assert_eq!(official, 151);

    let lda = OpCode::lookup(0xA9);
    assert_eq!(lda.mnemonic(), "LDA");
    assert_eq!((lda.len(), lda.cycles()), (2, 2));
    let jmp = OpCode::lookup(0x6C);
    assert_eq!(jmp.mnemonic(), "JMP");
    assert_eq!((jmp.len(), jmp.cycles()), (3, 5));
    assert_eq!(jmp.mode(), AddressingMode::NoneAddressing);
    let dcp = OpCode::lookup(0xC3);
    assert_eq!(dcp.mnemonic(), "*DCP");
    assert_eq!((dcp.len(), dcp.cycles()), (2, 8));
    assert_eq!(dcp.mode(), AddressingMode::IndirectX);
}

#[test]
fn every_instruction_that_runs_takes_at_least_its_base_cycles() {
    for code in 1..=255u8 {
        let mut cpu = machine_with(0x0400, &[code, 0x10, 0x02]);
        let opcode = OpCode::lookup(code);
        let before = cpu.bus.cycles();
        match cpu.execute_next() {
            Ok(CpuMessage::Continue) => {
                let spent = cpu.bus.cycles() - before;
                assert!(spent >= opcode.cycles() as usize);
                assert!(spent <= opcode.cycles() as usize + 2);
            }
            Ok(CpuMessage::Break) => panic!("only opcode 0 halts"),
            Err(_) => {}
        }
    }
}

#[test]
fn unofficial_loads_and_stores() {
    let mut cpu = machine_with(0x0400, &[0xA7, 0x10, 0x87, 0x11, 0xAB, 0x0F]);
    cpu.mem_write_byte(0x0010, 0xF3).unwrap();

    assert_eq!(step(&mut cpu), 3);
    assert_eq!(cpu.register_a.get(), 0xF3);
    assert_eq!(cpu.register_x.get(), 0xF3);
    assert!(flag(&cpu, NEGATIVE));
    cpu.register_x.set(0x0F);
    step(&mut cpu);
    assert_eq!(cpu.mem_read_byte(0x0011).unwrap(), 0x03);
    step(&mut cpu);
    assert_eq!(cpu.register_a.get(), 0x0F);
    assert_eq!(cpu.register_x.get(), 0x0F);
}

#[test]
fn unofficial_rewrites_combine_with_the_accumulator() {
    // DCP: decrement, then compare.
    let mut cpu = machine_with(0x0400, &[0xC7, 0x10]);
    cpu.mem_write_byte(0x0010, 0x11).unwrap();
    cpu.register_a.set(0x10);
    cpu.status.set(CARRY, false);
    assert_eq!(step(&mut cpu), 5);
    assert_eq!(cpu.mem_read_byte(0x0010).unwrap(), 0x10);
    assert!(flag(&cpu, CARRY) && flag(&cpu, ZERO));

    // DCP clears the carry when the accumulator is smaller.
    let mut cpu = machine_with(0x0400, &[0xC7, 0x10]);
    cpu.mem_write_byte(0x0010, 0x21).unwrap();
    cpu.register_a.set(0x10);
    cpu.status.set(CARRY, true);
    step(&mut cpu);
    assert!(!flag(&cpu, CARRY));

    // ISB: increment, then subtract with borrow.
    let mut cpu = machine_with(0x0400, &[0xE7, 0x10]);
    cpu.mem_write_byte(0x0010, 0x0F).unwrap();
    cpu.register_a.set(0x30);
    cpu.status.set(CARRY, true);
    step(&mut cpu);
    assert_eq!(cpu.mem_read_byte(0x0010).unwrap(), 0x10);
    assert_eq!(cpu.register_a.get(), 0x20);
    assert!(flag(&cpu, CARRY));

    // SLO: shift left, then or.
    let mut cpu = machine_with(0x0400, &[0x07, 0x10]);
    cpu.mem_write_byte(0x0010, 0x81).unwrap();
    cpu.register_a.set(0x10);
    step(&mut cpu);
    assert_eq!(cpu.mem_read_byte(0x0010).unwrap(), 0x02);
    assert_eq!(cpu.register_a.get(), 0x12);
    assert!(flag(&cpu, CARRY));

    // RLA: rotate left, then and.
    let mut cpu = machine_with(0x0400, &[0x27, 0x10]);
    cpu.mem_write_byte(0x0010, 0x41).unwrap();
    cpu.register_a.set(0xF0);
    cpu.status.set(CARRY, true);
    step(&mut cpu);
    assert_eq!(cpu.mem_read_byte(0x0010).unwrap(), 0x83);
    assert_eq!(cpu.register_a.get(), 0x80);
    assert!(!flag(&cpu, CARRY) && flag(&cpu, NEGATIVE));

    // SRE: shift right, then exclusive or.
    let mut cpu = machine_with(0x0400, &[0x47, 0x10]);
    cpu.mem_write_byte(0x0010, 0x03).unwrap();
    cpu.register_a.set(0x01);
    step(&mut cpu);
    assert_eq!(cpu.mem_read_byte(0x0010).unwrap(), 0x01);
    assert_eq!(cpu.register_a.get(), 0x00);
    assert!(flag(&cpu, CARRY) && flag(&cpu, ZERO));

    // RRA: rotate right, then add with the carry that fell out.
    let mut cpu = machine_with(0x0400, &[0x67, 0x10]);
    cpu.mem_write_byte(0x0010, 0x03).unwrap();
    cpu.register_a.set(0x10);
    cpu.status.set(CARRY, false);
    step(&mut cpu);
    assert_eq!(cpu.mem_read_byte(0x0010).unwrap(), 0x01);
    assert_eq!(cpu.register_a.get(), 0x12);
    assert!(!flag(&cpu, CARRY));
}

#[test]
fn unofficial_immediate_instructions() {
    // AXS: X = (A & X) - operand, flags as a comparison.
    let mut cpu = machine_with(0x0400, &[0xCB, 0x02]);
    cpu.register_a.set(0x0F);
    cpu.register_x.set(0x3C);
    step(&mut cpu);
    assert_eq!(cpu.register_x.get(), 0x0A);
    assert!(flag(&cpu, CARRY) && !flag(&cpu, ZERO));

    // ANC: and, then the sign goes into the carry.
    let mut cpu = machine_with(0x0400, &[0x0B, 0xF0]);
    cpu.register_a.set(0x81);
    step(&mut cpu);
    assert_eq!(cpu.register_a.get(), 0x80);
    assert!(flag(&cpu, CARRY) && flag(&cpu, NEGATIVE));

    // ALR: and, then shift right.
    let mut cpu = machine_with(0x0400, &[0x4B, 0x0F]);
    cpu.register_a.set(0xF3);
    step(&mut cpu);
    assert_eq!(cpu.register_a.get(), 0x01);
    assert!(flag(&cpu, CARRY));

    // ARR: and, rotate right, carry from bit 6, overflow from bits 5 and 6.
    let mut cpu = machine_with(0x0400, &[0x6B, 0xFF]);
    cpu.register_a.set(0x80);
    cpu.status.set(CARRY, true);
    step(&mut cpu);
    assert_eq!(cpu.register_a.get(), 0xC0);
    assert!(flag(&cpu, CARRY) && flag(&cpu, OVERFLOW) && flag(&cpu, NEGATIVE));

    // The unofficial SBC is the official one.
    let mut cpu = machine_with(0x0400, &[0xEB, 0x01]);
    cpu.register_a.set(0x03);
    cpu.status.set(CARRY, true);
    step(&mut cpu);
    assert_eq!(cpu.register_a.get(), 0x02);
}

#[test]
fn no_operations_move_on_and_charge_their_cycles() {
    let mut cpu = machine_with(0x0400, &[0xEA, 0x1A, 0x80, 0x55, 0x04, 0x10, 0x1C, 0xFF, 0x01]);
    cpu.register_x.set(1);
    let status = cpu.status.bits();

    assert_eq!(step(&mut cpu), 2);
    assert_eq!(step(&mut cpu), 2);
    assert_eq!(step(&mut cpu), 2);
    assert_eq!(cpu.program_counter.get(), 0x0404);
    assert_eq!(step(&mut cpu), 3);
    assert_eq!(step(&mut cpu), 5);
    assert_eq!(cpu.program_counter.get(), 0x0409);
    assert_eq!(cpu.status.bits(), status);
    assert_eq!(cpu.register_a.get(), 0);
}
