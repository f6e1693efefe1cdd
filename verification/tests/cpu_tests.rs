//! End-to-end scenarios on the execution engine: flag updates, arithmetic
//! edge cases, stack and interrupt protocol, cycle accounting, and the
//! halt behavior of the KIL family.

use mos6502::cpu::Cpu;
use mos6502::interrupt::InterruptType;
use mos6502::memory::{Memory, Stack};

fn cpu_with_program(program: &[u8]) -> Cpu {
    let mut cpu = Cpu::new();
    cpu.pc = 0x0200;
    for (i, b) in program.iter().enumerate() {
        cpu.write_u8(0x0200 + i as u16, *b);
    }
    cpu
}

#[test]
fn lda_immediate_sets_negative_clears_zero() {
    let mut cpu = cpu_with_program(&[0xA9, 0xFF]); // LDA #$FF
    let cycles = cpu.step();
    assert_eq!(cpu.acc, 0xFF);
    assert!(cpu.flags.negative);
    assert!(!cpu.flags.zero);
    assert_eq!(cycles, 2);
    assert_eq!(cpu.pc, 0x0202);
}

#[test]
fn lda_immediate_zero_sets_zero_clears_negative() {
    let mut cpu = cpu_with_program(&[0xA9, 0x00]); // LDA #$00
    cpu.acc = 0x55;
    cpu.flags.negative = true;
    cpu.step();
    assert_eq!(cpu.acc, 0x00);
    assert!(cpu.flags.zero);
    assert!(!cpu.flags.negative);
}

#[test]
fn adc_positive_overflow() {
    // 0x7F + 0x01 with Carry clear: positive + positive = negative.
    let mut cpu = cpu_with_program(&[0x69, 0x01]); // ADC #$01
    cpu.acc = 0x7F;
    cpu.flags.carry = false;
    cpu.step();
    assert_eq!(cpu.acc, 0x80);
    assert!(cpu.flags.overflow);
    assert!(!cpu.flags.carry);
    assert!(cpu.flags.negative);
    assert!(!cpu.flags.zero);
}

#[test]
fn adc_negative_overflow_with_carry_out() {
    // 0x80 + 0x80 with Carry clear: wraps to zero with Carry and Overflow.
    let mut cpu = cpu_with_program(&[0x69, 0x80]); // ADC #$80
    cpu.acc = 0x80;
    cpu.flags.carry = false;
    cpu.step();
    assert_eq!(cpu.acc, 0x00);
    assert!(cpu.flags.carry);
    assert!(cpu.flags.overflow);
    assert!(cpu.flags.zero);
}

#[test]
fn adc_uses_carry_in() {
    let mut cpu = cpu_with_program(&[0x69, 0x01]);
    cpu.acc = 0x01;
    cpu.flags.carry = true;
    cpu.step();
    assert_eq!(cpu.acc, 0x03);
    assert!(!cpu.flags.carry);
}

#[test]
fn adc_then_sbc_round_trip_on_accumulator() {
    // ADC with Carry clear then SBC of the same operand with Carry set
    // restores the accumulator.
    for (a, b) in [(0x00u8, 0x00u8), (0x12, 0x34), (0x7F, 0x01), (0x80, 0x80), (0xFF, 0xFF)] {
        let mut cpu = cpu_with_program(&[0x69, b, 0x38, 0xE9, b]); // ADC #b; SEC; SBC #b
        cpu.acc = a;
        cpu.flags.carry = false;
        cpu.step(); // ADC
        cpu.step(); // SEC restores Carry for the subtraction
        cpu.step(); // SBC
        assert_eq!(cpu.acc, a);
    }
}

#[test]
fn sbc_sets_borrow_flags() {
    // 0x10 - 0x20 with Carry set: borrows, Carry ends clear.
    let mut cpu = cpu_with_program(&[0xE9, 0x20]); // SBC #$20
    cpu.acc = 0x10;
    cpu.flags.carry = true;
    cpu.step();
    assert_eq!(cpu.acc, 0xF0);
    assert!(!cpu.flags.carry);
    assert!(cpu.flags.negative);
}

#[test]
fn cmp_flags_follow_unsigned_order() {
    let mut cpu = cpu_with_program(&[0xC9, 0x30]); // CMP #$30
    cpu.acc = 0x40;
    cpu.step();
    assert!(cpu.flags.carry); // 0x40 >= 0x30: no borrow
    assert!(!cpu.flags.zero);

    let mut cpu = cpu_with_program(&[0xC9, 0x40]);
    cpu.acc = 0x40;
    cpu.step();
    assert!(cpu.flags.carry);
    assert!(cpu.flags.zero);

    let mut cpu = cpu_with_program(&[0xC9, 0x50]);
    cpu.acc = 0x40;
    cpu.step();
    assert!(!cpu.flags.carry);
}

#[test]
fn page_crossing_read_costs_extra_cycle() {
    // LDA $10F0,X with X = 5: same page, base cycles only.
    let mut cpu = cpu_with_program(&[0xBD, 0xF0, 0x10]);
    cpu.x = 0x05;
    cpu.write_u8(0x10F5, 0x42);
    let cycles = cpu.step();
    assert_eq!(cpu.acc, 0x42);
    assert_eq!(cycles, 4);

    // LDA $10FF,X with X = 5: page crossed, one extra cycle.
    let mut cpu = cpu_with_program(&[0xBD, 0xFF, 0x10]);
    cpu.x = 0x05;
    cpu.write_u8(0x1104, 0x24);
    let cycles = cpu.step();
    assert_eq!(cpu.acc, 0x24);
    assert_eq!(cycles, 5);
}

#[test]
fn store_pays_no_page_crossing_penalty() {
    // STA $10FF,X with X = 5 crosses a page but always costs 5 cycles.
    let mut cpu = cpu_with_program(&[0x9D, 0xFF, 0x10]);
    cpu.x = 0x05;
    cpu.acc = 0x77;
    let cycles = cpu.step();
    assert_eq!(cpu.read_u8(0x1104), 0x77);
    assert_eq!(cycles, 5);
}

#[test]
fn branch_cycle_accounting() {
    // Not taken: base 2 cycles.
    let mut cpu = cpu_with_program(&[0xF0, 0x02]); // BEQ +2
    cpu.flags.zero = false;
    let cycles = cpu.step();
    assert_eq!(cpu.pc, 0x0202);
    assert_eq!(cycles, 2);

    // Taken, same page: 3 cycles.
    let mut cpu = cpu_with_program(&[0xF0, 0x02]);
    cpu.flags.zero = true;
    let cycles = cpu.step();
    assert_eq!(cpu.pc, 0x0204);
    assert_eq!(cycles, 3);

    // Taken, different page: 4 cycles.
    let mut cpu = Cpu::new();
    cpu.pc = 0x02F0;
    cpu.write_u8(0x02F0, 0xF0); // BEQ +0x20
    cpu.write_u8(0x02F1, 0x20);
    cpu.flags.zero = true;
    let cycles = cpu.step();
    assert_eq!(cpu.pc, 0x0312);
    assert_eq!(cycles, 4);
}

#[test]
fn branch_backwards_with_negative_offset() {
    let mut cpu = cpu_with_program(&[0xD0, 0xFB]); // BNE -5
    cpu.flags.zero = false;
    cpu.step();
    assert_eq!(cpu.pc, 0x01FD); // 0x0202 - 5
}

#[test]
fn inc_memory_wraps_and_sets_zero() {
    let mut cpu = cpu_with_program(&[0xE6, 0x10]); // INC $10
    cpu.write_u8(0x0010, 0xFF);
    let cycles = cpu.step();
    assert_eq!(cpu.read_u8(0x0010), 0x00);
    assert!(cpu.flags.zero);
    assert_eq!(cycles, 5);
}

#[test]
fn asl_accumulator_shifts_into_carry() {
    let mut cpu = cpu_with_program(&[0x0A]); // ASL A
    cpu.acc = 0x81;
    let cycles = cpu.step();
    assert_eq!(cpu.acc, 0x02);
    assert!(cpu.flags.carry);
    assert!(!cpu.flags.negative);
    assert_eq!(cycles, 2);
}

#[test]
fn rotates_feed_carry_into_vacated_bit() {
    let mut cpu = cpu_with_program(&[0x2A]); // ROL A
    cpu.acc = 0x40;
    cpu.flags.carry = true;
    cpu.step();
    assert_eq!(cpu.acc, 0x81);
    assert!(!cpu.flags.carry);

    let mut cpu = cpu_with_program(&[0x6A]); // ROR A
    cpu.acc = 0x01;
    cpu.flags.carry = true;
    cpu.step();
    assert_eq!(cpu.acc, 0x80);
    assert!(cpu.flags.carry);
}

#[test]
fn bit_sets_flags_from_operand() {
    let mut cpu = cpu_with_program(&[0x24, 0x10]); // BIT $10
    cpu.write_u8(0x0010, 0xC0);
    cpu.acc = 0x0F;
    cpu.step();
    assert!(cpu.flags.zero); // 0x0F & 0xC0 == 0
    assert!(cpu.flags.overflow); // bit 6
    assert!(cpu.flags.negative); // bit 7
}

#[test]
fn stack_push_pull_round_trip() {
    let mut cpu = cpu_with_program(&[0x48, 0xA9, 0x00, 0x68]); // PHA; LDA #0; PLA
    cpu.acc = 0x42;
    cpu.step(); // PHA
    assert_eq!(cpu.read_u8(0x01FD), 0x42);
    assert_eq!(cpu.sp, 0xFC);
    cpu.step(); // LDA #0
    assert_eq!(cpu.acc, 0x00);
    cpu.step(); // PLA
    assert_eq!(cpu.acc, 0x42);
    assert_eq!(cpu.sp, 0xFD);
    assert!(!cpu.flags.zero);
}

#[test]
fn php_packs_always_one_bit() {
    let mut cpu = cpu_with_program(&[0x08]); // PHP
    cpu.flags.carry = false;
    cpu.flags.zero = false;
    cpu.flags.interrupt_disable = false;
    cpu.flags.decimal = false;
    cpu.flags.brk = false;
    cpu.flags.overflow = false;
    cpu.flags.negative = false;
    cpu.step();
    assert_eq!(cpu.read_u8(0x01FD), 0x20); // only the always-one bit
}

#[test]
fn jsr_rts_round_trip() {
    let mut cpu = cpu_with_program(&[0x20, 0x00, 0x90]); // JSR $9000
    cpu.write_u8(0x9000, 0x60); // RTS
    let cycles = cpu.step();
    assert_eq!(cpu.pc, 0x9000);
    assert_eq!(cycles, 6);
    // The address of the last byte of the JSR (0x0202) is on the stack.
    assert_eq!(cpu.read_u8(0x01FD), 0x02);
    assert_eq!(cpu.read_u8(0x01FC), 0x02);
    let cycles = cpu.step(); // RTS
    assert_eq!(cpu.pc, 0x0203);
    assert_eq!(cycles, 6);
    assert_eq!(cpu.sp, 0xFD);
}

#[test]
fn brk_rti_round_trip_restores_pc_and_status() {
    let mut cpu = cpu_with_program(&[0x00]); // BRK
    cpu.flags.interrupt_disable = false;
    cpu.flags.carry = true;
    cpu.flags.negative = true;
    let before = cpu.flags;
    cpu.write_u8(0xFFFE, 0x00);
    cpu.write_u8(0xFFFF, 0x80); // handler at 0x8000
    cpu.write_u8(0x8000, 0x40); // RTI

    let cycles = cpu.step(); // BRK
    assert_eq!(cpu.pc, 0x8000);
    assert_eq!(cycles, 7);
    assert!(cpu.flags.interrupt_disable);
    // Return address 0x0201 and the status byte are on the stack.
    assert_eq!(cpu.read_u8(0x01FD), 0x02);
    assert_eq!(cpu.read_u8(0x01FC), 0x01);
    assert_eq!(cpu.sp, 0xFA);

    let cycles = cpu.step(); // RTI
    assert_eq!(cycles, 6);
    assert_eq!(cpu.pc, 0x0201);
    assert_eq!(cpu.flags, before);
    assert_eq!(cpu.sp, 0xFD);
}

#[test]
fn brk_is_suppressed_while_interrupts_disabled() {
    let mut cpu = cpu_with_program(&[0x00]); // BRK
    cpu.flags.interrupt_disable = true;
    cpu.write_u8(0xFFFE, 0x00);
    cpu.write_u8(0xFFFF, 0x80);
    cpu.step();
    assert_eq!(cpu.pc, 0x0201); // only the opcode fetch moved the pc
    assert_eq!(cpu.sp, 0xFD); // nothing pushed
}

#[test]
fn irq_respects_interrupt_disable_nmi_does_not() {
    let mut cpu = Cpu::new();
    cpu.pc = 0x0300;
    cpu.flags.interrupt_disable = true;
    cpu.write_u8(0xFFFE, 0x00);
    cpu.write_u8(0xFFFF, 0x90);
    cpu.raise(InterruptType::IRQ);
    assert_eq!(cpu.pc, 0x0300); // suppressed

    cpu.write_u8(0xFFFA, 0x00);
    cpu.write_u8(0xFFFB, 0xA0);
    cpu.raise(InterruptType::NMI);
    assert_eq!(cpu.pc, 0xA000); // never suppressed
    // Return address 0x0300 was pushed.
    assert_eq!(cpu.read_u8(0x01FD), 0x03);
    assert_eq!(cpu.read_u8(0x01FC), 0x00);
}

#[test]
fn irq_taken_when_enabled() {
    let mut cpu = Cpu::new();
    cpu.pc = 0x0300;
    cpu.flags.interrupt_disable = false;
    cpu.write_u8(0xFFFE, 0x34);
    cpu.write_u8(0xFFFF, 0x12);
    cpu.raise(InterruptType::IRQ);
    assert_eq!(cpu.pc, 0x1234);
    assert!(cpu.flags.interrupt_disable);
}

#[test]
fn reset_moves_stack_pointer_and_vectors() {
    let mut cpu = Cpu::new();
    cpu.flags.interrupt_disable = false;
    cpu.write_u8(0xFFFC, 0x00);
    cpu.write_u8(0xFFFD, 0xC0);
    cpu.reset();
    assert_eq!(cpu.sp, 0xFA); // 0xFD - 3, nothing pushed
    assert!(cpu.flags.interrupt_disable);
    assert_eq!(cpu.pc, 0xC000);
}

#[test]
fn kil_halts_and_step_becomes_a_no_op() {
    let mut cpu = cpu_with_program(&[0x02, 0xA9, 0xFF]); // KIL; LDA #$FF
    let cycles = cpu.step();
    assert!(cpu.halted);
    assert_eq!(cycles, 2);
    let pc = cpu.pc;
    let cycles = cpu.step(); // halted: nothing happens
    assert_eq!(cycles, 0);
    assert_eq!(cpu.pc, pc);
    assert_eq!(cpu.acc, 0x00);
}

#[test]
fn transfers_refresh_zero_and_negative() {
    let mut cpu = cpu_with_program(&[0xAA]); // TAX
    cpu.acc = 0x80;
    cpu.step();
    assert_eq!(cpu.x, 0x80);
    assert!(cpu.flags.negative);

    let mut cpu = cpu_with_program(&[0x9A]); // TXS: no flags
    cpu.x = 0x00;
    cpu.flags.zero = false;
    cpu.step();
    assert_eq!(cpu.sp, 0x00);
    assert!(!cpu.flags.zero);
}

#[test]
fn undocumented_lax_loads_both_registers() {
    let mut cpu = cpu_with_program(&[0xA7, 0x10]); // LAX $10
    cpu.write_u8(0x0010, 0x5A);
    cpu.step();
    assert_eq!(cpu.acc, 0x5A);
    assert_eq!(cpu.x, 0x5A);
}

#[test]
fn undocumented_sax_stores_a_and_x() {
    let mut cpu = cpu_with_program(&[0x87, 0x10]); // SAX $10
    cpu.acc = 0xF0;
    cpu.x = 0x3C;
    cpu.step();
    assert_eq!(cpu.read_u8(0x0010), 0x30);
}

#[test]
fn undocumented_dcp_decrements_then_compares() {
    let mut cpu = cpu_with_program(&[0xC7, 0x10]); // DCP $10
    cpu.write_u8(0x0010, 0x43);
    cpu.acc = 0x42;
    cpu.step();
    assert_eq!(cpu.read_u8(0x0010), 0x42);
    assert!(cpu.flags.zero); // acc == decremented value
    assert!(cpu.flags.carry);
}

#[test]
fn flag_instructions_touch_exactly_one_flag() {
    let mut cpu = cpu_with_program(&[0x38, 0x18, 0x78, 0x58, 0xF8, 0xD8, 0xB8]);
    cpu.flags.overflow = true;
    cpu.step(); // SEC
    assert!(cpu.flags.carry);
    cpu.step(); // CLC
    assert!(!cpu.flags.carry);
    cpu.step(); // SEI
    assert!(cpu.flags.interrupt_disable);
    cpu.step(); // CLI
    assert!(!cpu.flags.interrupt_disable);
    cpu.step(); // SED
    assert!(cpu.flags.decimal);
    cpu.step(); // CLD
    assert!(!cpu.flags.decimal);
    cpu.step(); // CLV
    assert!(!cpu.flags.overflow);
}

#[test]
fn jmp_indirect_uses_page_wrap_quirk() {
    let mut cpu = Cpu::new();
    cpu.pc = 0x0500;
    cpu.write_u8(0x0500, 0x6C); // JMP ($02FF)
    cpu.write_u8(0x0501, 0xFF);
    cpu.write_u8(0x0502, 0x02);
    cpu.write_u8(0x02FF, 0x34);
    cpu.write_u8(0x0200, 0x12); // high byte from start of the same page
    cpu.write_u8(0x0300, 0x99);
    let cycles = cpu.step();
    assert_eq!(cpu.pc, 0x1234);
    assert_eq!(cycles, 5);
}

#[test]
fn execute_runs_a_program_fragment() {
    let mut cpu = Cpu::new();
    cpu.pc = 0x0200;
    // LDA #$05; ADC #$03
    let cycles = cpu.execute(&[0xA9, 0x05, 0x69, 0x03]);
    assert_eq!(cpu.acc, 0x08);
    assert_eq!(cycles, 4);
    assert_eq!(cpu.pc, 0x0204);
}

#[test]
fn execute_stops_at_a_halt() {
    let mut cpu = Cpu::new();
    cpu.pc = 0x0200;
    // LDA #$01; KIL; LDA #$FF (never reached)
    let cycles = cpu.execute(&[0xA9, 0x01, 0x02, 0xA9, 0xFF]);
    assert!(cpu.halted);
    assert_eq!(cpu.acc, 0x01);
    assert_eq!(cycles, 4);
}

#[test]
fn sixteen_bit_memory_and_stack_helpers() {
    let mut cpu = Cpu::new();
    cpu.write_u16(0x0300, 0x1234);
    assert_eq!(cpu.read_u8(0x0300), 0x34);
    assert_eq!(cpu.read_u8(0x0301), 0x12);
    assert_eq!(cpu.read_u16(0x0300), 0x1234);

    cpu.push_u16(0xBEEF);
    assert_eq!(cpu.sp, 0xFB);
    assert_eq!(cpu.pop_u16(), 0xBEEF);
    assert_eq!(cpu.sp, 0xFD);
}

#[test]
fn read_u16_wraps_at_top_of_memory() {
    let mut cpu = Cpu::new();
    cpu.write_u8(0xFFFF, 0x34);
    cpu.write_u8(0x0000, 0x12);
    assert_eq!(cpu.read_u16(0xFFFF), 0x1234);
}

#[test]
fn execute_with_empty_fragment_does_nothing() {
    let mut cpu = Cpu::new();
    cpu.pc = 0x0200;
    let cycles = cpu.execute(&[]);
    assert_eq!(cycles, 0);
    assert_eq!(cpu.pc, 0x0200);
}

#[test]
fn memory_trait_reads_and_writes() {
    let mut cpu = Cpu::new();
    Memory::write(&mut cpu, 0x1234, 0xAB);
    assert_eq!(Memory::read(&cpu, 0x1234), 0xAB);
}

#[test]
fn stack_trait_push_pop_round_trip() {
    let mut cpu = Cpu::new();
    Stack::push(&mut cpu, 0x5A);
    assert_eq!(cpu.sp, 0xFC);
    assert_eq!(Stack::pop(&mut cpu), 0x5A);
    assert_eq!(cpu.sp, 0xFD);
}

#[test]
fn stack_pointer_wraps_inside_its_page() {
    let mut cpu = Cpu::new();
    cpu.sp = 0x00;
    cpu.stack_push(0x11); // writes 0x0100, pointer wraps to 0xFF
    assert_eq!(cpu.read_u8(0x0100), 0x11);
    assert_eq!(cpu.sp, 0xFF);
    assert_eq!(cpu.stack_pop(), 0x11); // pointer wraps back to 0x00
    assert_eq!(cpu.sp, 0x00);
}

#[test]
fn undocumented_sbc_variant_behaves_like_sbc() {
    let mut a = cpu_with_program(&[0xE9, 0x05]); // SBC #$05
    a.acc = 0x10;
    a.flags.carry = true;
    a.step();

    let mut b = cpu_with_program(&[0xEB, 0x05]); // undocumented SBC #$05
    b.acc = 0x10;
    b.flags.carry = true;
    b.step();

    assert_eq!(a.acc, b.acc);
    assert_eq!(a.flags, b.flags);
    assert_eq!(a.acc, 0x0B);
}

#[test]
fn undocumented_slo_shifts_then_ors() {
    let mut cpu = cpu_with_program(&[0x07, 0x10]); // SLO $10
    cpu.write_u8(0x0010, 0x81);
    cpu.acc = 0x01;
    cpu.step();
    assert_eq!(cpu.read_u8(0x0010), 0x02); // shifted value written back
    assert_eq!(cpu.acc, 0x03); // accumulator ORed with it
    assert!(cpu.flags.carry); // bit 7 shifted out
}

#[test]
fn eor_and_ora_refresh_flags() {
    let mut cpu = cpu_with_program(&[0x49, 0xFF]); // EOR #$FF
    cpu.acc = 0xFF;
    cpu.step();
    assert_eq!(cpu.acc, 0x00);
    assert!(cpu.flags.zero);

    let mut cpu = cpu_with_program(&[0x09, 0x80]); // ORA #$80
    cpu.acc = 0x01;
    cpu.step();
    assert_eq!(cpu.acc, 0x81);
    assert!(cpu.flags.negative);
}

#[test]
fn power_up_state_matches_hardware_defaults() {
    let cpu = Cpu::new();
    assert_eq!(cpu.pc, 0x34);
    assert_eq!(cpu.sp, 0xFD);
    assert_eq!(cpu.acc, 0);
    assert_eq!(cpu.x, 0);
    assert_eq!(cpu.y, 0);
    assert!(cpu.flags.interrupt_disable);
    assert!(cpu.flags.brk);
    assert!(!cpu.halted);
    let defaulted = Cpu::default();
    assert_eq!(defaulted.pc, cpu.pc);
    assert_eq!(defaulted.sp, cpu.sp);
}
