//! The decode tables: totality of the full table, spot checks of its
//! entries, and the decode-error path of the documented-only table.

use mos6502::addressing::AddressingModes;
use mos6502::cpu::Cpu;
use mos6502::errors::NotFoundError;
use mos6502::flags::Flags;
use mos6502::instruction::{Instruction, Op};
use mos6502::interrupt::{Interrupt, InterruptType};
use mos6502::opcodes::Opcode;

#[test]
fn full_table_covers_every_byte() {
    for b in 0u16..=255 {
        let ins = Instruction::from_opcode(b as u8);
        assert_eq!(ins.opcode, b as u8);
        assert!(ins.len >= 1 && ins.len <= 3);
        assert!(ins.cycle >= 2 && ins.cycle <= 8);
    }
}

#[test]
fn table_entries_match_reference_listings() {
    let ins = Instruction::from_opcode(0x69); // ADC immediate
    assert_eq!((ins.len, ins.cycle), (2, 2));
    assert_eq!(ins.addressing_mode, AddressingModes::Immediate);
    assert_eq!(ins.op, Op::Adc);

    let ins = Instruction::from_opcode(0x00); // BRK
    assert_eq!((ins.len, ins.cycle), (1, 7));
    assert_eq!(ins.addressing_mode, AddressingModes::Implied);
    assert_eq!(ins.op, Op::Brk);

    let ins = Instruction::from_opcode(0x6C); // JMP indirect
    assert_eq!((ins.len, ins.cycle), (3, 5));
    assert_eq!(ins.addressing_mode, AddressingModes::Indirect);
    assert_eq!(ins.op, Op::Jmp);

    let ins = Instruction::from_opcode(0xBD); // LDA absolute,X
    assert_eq!((ins.len, ins.cycle), (3, 4));
    assert_eq!(ins.addressing_mode, AddressingModes::AbsoluteX);
    assert_eq!(ins.op, Op::Lda);

    let ins = Instruction::from_opcode(0x96); // STX zero page,Y
    assert_eq!((ins.len, ins.cycle), (2, 4));
    assert_eq!(ins.addressing_mode, AddressingModes::ZeroPageY);
    assert_eq!(ins.op, Op::Stx);

    let ins = Instruction::from_opcode(0xA3); // LAX (indirect,X), undocumented
    assert_eq!((ins.len, ins.cycle), (2, 6));
    assert_eq!(ins.addressing_mode, AddressingModes::IndirectX);
    assert_eq!(ins.op, Op::Lax);

    let ins = Instruction::from_opcode(0xEB); // SBC immediate, undocumented
    assert_eq!(ins.op, Op::Sbc);

    let ins = Instruction::from_opcode(0x02); // KIL
    assert_eq!(ins.op, Op::Kil);
    assert_eq!((ins.len, ins.cycle), (1, 2));
}

#[test]
fn instruction_new_builds_the_descriptor() {
    let ins = Instruction::new(0x69, 2, 2, AddressingModes::Immediate, Op::Adc);
    assert_eq!(ins, Instruction::from_opcode(0x69));
}

#[test]
fn cpu_decode_is_total_and_pure() {
    let cpu = Cpu::new();
    let before = (cpu.pc, cpu.sp, cpu.acc, cpu.x, cpu.y, cpu.flags);
    for b in 0u16..=255 {
        let r = cpu.decode(b as u8);
        assert!(r.is_ok());
        assert_eq!(r.unwrap(), Instruction::from_opcode(b as u8));
    }
    assert_eq!(before, (cpu.pc, cpu.sp, cpu.acc, cpu.x, cpu.y, cpu.flags));
}

#[test]
fn documented_table_agrees_with_full_table() {
    let o = Opcode::match_opcode(0x69).unwrap(); // ADC immediate
    let ins = Instruction::from_opcode(0x69);
    assert_eq!(o.code, 0x69);
    assert_eq!(o.len, ins.len);
    assert_eq!(o.cycle, ins.cycle);
    assert_eq!(o.addressing_mode, ins.addressing_mode);

    let o = Opcode::match_opcode(0x20).unwrap(); // JSR
    assert_eq!((o.len, o.cycle), (3, 6));
}

#[test]
fn truncated_table_reports_missing_bytes() {
    // Bytes absent from the documented-only table come back as decode
    // errors naming the byte, and decoding mutates nothing.
    let cpu = Cpu::new();
    let before = (cpu.pc, cpu.sp, cpu.acc, cpu.x, cpu.y, cpu.flags);
    for b in [0x02u8, 0x80, 0xA3, 0xEB, 0xFF] {
        let r = Opcode::match_opcode(b);
        assert!(r.is_err());
        assert_eq!(r.unwrap_err().opcode(), b);
    }
    assert_eq!(before, (cpu.pc, cpu.sp, cpu.acc, cpu.x, cpu.y, cpu.flags));
}

#[test]
fn opcode_new_builds_the_descriptor() {
    let o = Opcode::new(0x69, 2, 2, AddressingModes::Immediate);
    assert_eq!(o, Opcode::match_opcode(0x69).unwrap());
}

#[test]
fn documented_entries_always_agree_with_full_table() {
    for b in 0u16..=255 {
        let b = b as u8;
        match Opcode::match_opcode(b) {
            Ok(o) => {
                let ins = Instruction::from_opcode(b);
                assert_eq!(o.code, b);
                assert_eq!(o.len, ins.len);
                assert_eq!(o.cycle, ins.cycle);
                assert_eq!(o.addressing_mode, ins.addressing_mode);
            },
            Err(e) => assert_eq!(e.opcode(), b),
        }
    }
}

#[test]
fn not_found_error_carries_the_byte() {
    let e = NotFoundError::new(0xAB);
    assert_eq!(e.opcode(), 0xAB);
}

#[test]
fn interrupt_descriptors_use_fixed_vectors() {
    assert_eq!(Interrupt::of(InterruptType::Reset).vec_addr, 0xFFFC);
    assert_eq!(Interrupt::of(InterruptType::NMI).vec_addr, 0xFFFA);
    assert_eq!(Interrupt::of(InterruptType::IRQ).vec_addr, 0xFFFE);
    assert_eq!(Interrupt::of(InterruptType::BRK).vec_addr, 0xFFFE);
    assert_eq!(Interrupt::of(InterruptType::BRK).int_type, InterruptType::BRK);
}

#[test]
fn flags_pack_and_unpack_round_trip() {
    let f = Flags {
        carry: true,
        zero: false,
        interrupt_disable: true,
        decimal: false,
        brk: true,
        overflow: false,
        negative: true,
    };
    let b = f.to_byte();
    assert_eq!(b, 0x01 + 0x04 + 0x10 + 0x20 + 0x80);
    assert_eq!(Flags::from_byte(b), f);

    // The always-one bit reads back as 1 whatever was stored.
    let all_clear = Flags {
        carry: false,
        zero: false,
        interrupt_disable: false,
        decimal: false,
        brk: false,
        overflow: false,
        negative: false,
    };
    assert_eq!(all_clear.to_byte(), 0x20);
    assert_eq!(Flags::from_byte(0xFF).to_byte(), 0xFF);
}
