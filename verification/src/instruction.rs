//! The instruction decode table: a total mapping from every opcode byte to
//! its metadata (semantic operation, encoded length, base cycle count and
//! addressing mode), covering the documented instructions and the
//! undocumented ones (LAX, SAX, SLO, RLA, DCP, ISC, SRE, RRA, the KIL
//! family, and the rest) that real NES software relies on.
//!
//! The table is laid out as the classic 16-by-16 opcode matrix: one
//! function per high nibble, indexed by the low nibble.
//! `Instruction::from_opcode` is the executable table; `decode_spec` is the
//! same matrix as a specification-level function, and the two are proved to
//! agree on every byte.

use vstd::prelude::*;

use crate::addressing::AddressingModes;

verus! {

/// The semantic operations of the 6502, documented and undocumented.
#[derive(Clone, Copy, Debug, PartialEq, Eq, Structural)]
pub enum Op {
    Adc,
    Ahx,
    Alr,
    Anc,
    And,
    Arr,
    Asl,
    Axs,
    Bcc,
    Bcs,
    Beq,
    Bit,
    Bmi,
    Bne,
    Bpl,
    Brk,
    Bvc,
    Bvs,
    Clc,
    Cld,
    Cli,
    Clv,
    Cmp,
    Cpx,
    Cpy,
    Dcp,
    Dec,
    Dex,
    Dey,
    Eor,
    Inc,
    Inx,
    Iny,
    Isc,
    Jmp,
    Jsr,
    Kil,
    Las,
    Lax,
    Lda,
    Ldx,
    Ldy,
    Lsr,
    Lxa,
    Nop,
    Ora,
    Pha,
    Php,
    Pla,
    Plp,
    Rla,
    Rol,
    Ror,
    Rra,
    Rti,
    Rts,
    Sax,
    Sbc,
    Sec,
    Sed,
    Sei,
    Shx,
    Shy,
    Slo,
    Sre,
    Sta,
    Stx,
    Sty,
    Tas,
    Tax,
    Tay,
    Tsx,
    Txa,
    Txs,
    Tya,
    Xaa,
}

/// Metadata for one opcode: the byte itself, the encoded length in bytes
/// (opcode plus operand), the base cycle count, the addressing mode, and the
/// semantic operation the engine applies.
#[derive(Clone, Copy, Debug, PartialEq, Eq, Structural)]
pub struct Instruction {
    pub opcode: u8,
    pub len: u8,
    pub cycle: u8,
    pub addressing_mode: AddressingModes,
    pub op: Op,
}

impl Instruction {
    pub fn new(opcode: u8, len: u8, cycle: u8, addressing_mode: AddressingModes, op: Op) -> (r:
        Self)
        ensures
            r == (Instruction { opcode, len, cycle, addressing_mode, op }),
    {
        Instruction { opcode, len, cycle, addressing_mode, op }
    }

    /// Decode an opcode byte.  The table is total: every one of the 256
    /// byte values has an entry, and the result is exactly `decode_spec`.
    pub fn from_opcode(opcode: u8) -> (r: Self)
        ensures
            r == decode_spec(opcode),
    {
        match opcode / 0x10 {
            0x0 => Self::row_0(opcode),
            0x1 => Self::row_1(opcode),
            0x2 => Self::row_2(opcode),
            0x3 => Self::row_3(opcode),
            0x4 => Self::row_4(opcode),
            0x5 => Self::row_5(opcode),
            0x6 => Self::row_6(opcode),
            0x7 => Self::row_7(opcode),
            0x8 => Self::row_8(opcode),
            0x9 => Self::row_9(opcode),
            0xA => Self::row_a(opcode),
            0xB => Self::row_b(opcode),
            0xC => Self::row_c(opcode),
            0xD => Self::row_d(opcode),
            0xE => Self::row_e(opcode),
            _ => Self::row_f(opcode),
        }
    }

    /// Opcodes 0x00 through 0x0F.
    fn row_0(opcode: u8) -> (r: Instruction)
        requires
            opcode / 0x10 == 0x0,
        ensures
            r == decode_row_0(opcode),
    {
        match opcode % 0x10 {
            0x0 => Instruction::new(opcode, 1, 7, AddressingModes::Implied, Op::Brk),  // BRK
            0x1 => Instruction::new(opcode, 2, 6, AddressingModes::IndirectX, Op::Ora),  // ORA
            0x2 => Instruction::new(opcode, 1, 2, AddressingModes::Implied, Op::Kil),  // KIL
            0x3 => Instruction::new(opcode, 2, 8, AddressingModes::IndirectX, Op::Slo),  // SLO
            0x4 => Instruction::new(opcode, 2, 3, AddressingModes::ZeroPage, Op::Nop),  // NOP
            0x5 => Instruction::new(opcode, 2, 3, AddressingModes::ZeroPage, Op::Ora),  // ORA
            0x6 => Instruction::new(opcode, 2, 5, AddressingModes::ZeroPage, Op::Asl),  // ASL
            0x7 => Instruction::new(opcode, 2, 5, AddressingModes::ZeroPage, Op::Slo),  // SLO
            0x8 => Instruction::new(opcode, 1, 3, AddressingModes::Implied, Op::Php),  // PHP
            0x9 => Instruction::new(opcode, 2, 2, AddressingModes::Immediate, Op::Ora),  // ORA
            0xA => Instruction::new(opcode, 1, 2, AddressingModes::Accum, Op::Asl),  // ASL
            0xB => Instruction::new(opcode, 2, 2, AddressingModes::Immediate, Op::Anc),  // ANC
            0xC => Instruction::new(opcode, 3, 4, AddressingModes::Absolute, Op::Nop),  // NOP
            0xD => Instruction::new(opcode, 3, 4, AddressingModes::Absolute, Op::Ora),  // ORA
            0xE => Instruction::new(opcode, 3, 6, AddressingModes::Absolute, Op::Asl),  // ASL
            _ => Instruction::new(opcode, 3, 6, AddressingModes::Absolute, Op::Slo),  // SLO
        }
    }

    /// Opcodes 0x10 through 0x1F.
    fn row_1(opcode: u8) -> (r: Instruction)
        requires
            opcode / 0x10 == 0x1,
        ensures
            r == decode_row_1(opcode),
    {
        match opcode % 0x10 {
            0x0 => Instruction::new(opcode, 2, 2, AddressingModes::Relative, Op::Bpl),  // BPL
            0x1 => Instruction::new(opcode, 2, 5, AddressingModes::IndirectY, Op::Ora),  // ORA
            0x2 => Instruction::new(opcode, 1, 2, AddressingModes::Implied, Op::Kil),  // KIL
            0x3 => Instruction::new(opcode, 2, 8, AddressingModes::IndirectY, Op::Slo),  // SLO
            0x4 => Instruction::new(opcode, 2, 4, AddressingModes::ZeroPageX, Op::Nop),  // NOP
            0x5 => Instruction::new(opcode, 2, 4, AddressingModes::ZeroPageX, Op::Ora),  // ORA
            0x6 => Instruction::new(opcode, 2, 6, AddressingModes::ZeroPageX, Op::Asl),  // ASL
            0x7 => Instruction::new(opcode, 2, 6, AddressingModes::ZeroPageX, Op::Slo),  // SLO
            0x8 => Instruction::new(opcode, 1, 2, AddressingModes::Implied, Op::Clc),  // CLC
            0x9 => Instruction::new(opcode, 3, 4, AddressingModes::AbsoluteY, Op::Ora),  // ORA
            0xA => Instruction::new(opcode, 1, 2, AddressingModes::Implied, Op::Nop),  // NOP
            0xB => Instruction::new(opcode, 3, 7, AddressingModes::AbsoluteY, Op::Slo),  // SLO
            0xC => Instruction::new(opcode, 3, 4, AddressingModes::AbsoluteX, Op::Nop),  // NOP
            0xD => Instruction::new(opcode, 3, 4, AddressingModes::AbsoluteX, Op::Ora),  // ORA
            0xE => Instruction::new(opcode, 3, 7, AddressingModes::AbsoluteX, Op::Asl),  // ASL
            _ => Instruction::new(opcode, 3, 7, AddressingModes::AbsoluteX, Op::Slo),  // SLO
        }
    }

    /// Opcodes 0x20 through 0x2F.
    fn row_2(opcode: u8) -> (r: Instruction)
        requires
            opcode / 0x10 == 0x2,
        ensures
            r == decode_row_2(opcode),
    {
        match opcode % 0x10 {
            0x0 => Instruction::new(opcode, 3, 6, AddressingModes::Absolute, Op::Jsr),  // JSR
            0x1 => Instruction::new(opcode, 2, 6, AddressingModes::IndirectX, Op::And),  // AND
            0x2 => Instruction::new(opcode, 1, 2, AddressingModes::Implied, Op::Kil),  // KIL
            0x3 => Instruction::new(opcode, 2, 8, AddressingModes::IndirectX, Op::Rla),  // RLA
            0x4 => Instruction::new(opcode, 2, 3, AddressingModes::ZeroPage, Op::Bit),  // BIT
            0x5 => Instruction::new(opcode, 2, 3, AddressingModes::ZeroPage, Op::And),  // AND
            0x6 => Instruction::new(opcode, 2, 5, AddressingModes::ZeroPage, Op::Rol),  // ROL
            0x7 => Instruction::new(opcode, 2, 5, AddressingModes::ZeroPage, Op::Rla),  // RLA
            0x8 => Instruction::new(opcode, 1, 4, AddressingModes::Implied, Op::Plp),  // PLP
            0x9 => Instruction::new(opcode, 2, 2, AddressingModes::Immediate, Op::And),  // AND
            0xA => Instruction::new(opcode, 1, 2, AddressingModes::Accum, Op::Rol),  // ROL
            0xB => Instruction::new(opcode, 2, 2, AddressingModes::Immediate, Op::Anc),  // ANC
            0xC => Instruction::new(opcode, 3, 4, AddressingModes::Absolute, Op::Bit),  // BIT
            0xD => Instruction::new(opcode, 3, 4, AddressingModes::Absolute, Op::And),  // AND
            0xE => Instruction::new(opcode, 3, 6, AddressingModes::Absolute, Op::Rol),  // ROL
            _ => Instruction::new(opcode, 3, 6, AddressingModes::Absolute, Op::Rla),  // RLA
        }
    }

    /// Opcodes 0x30 through 0x3F.
    fn row_3(opcode: u8) -> (r: Instruction)
        requires
            opcode / 0x10 == 0x3,
        ensures
            r == decode_row_3(opcode),
    {
        match opcode % 0x10 {
            0x0 => Instruction::new(opcode, 2, 2, AddressingModes::Relative, Op::Bmi),  // BMI
            0x1 => Instruction::new(opcode, 2, 5, AddressingModes::IndirectY, Op::And),  // AND
            0x2 => Instruction::new(opcode, 1, 2, AddressingModes::Implied, Op::Kil),  // KIL
            0x3 => Instruction::new(opcode, 2, 8, AddressingModes::IndirectY, Op::Rla),  // RLA
            0x4 => Instruction::new(opcode, 2, 4, AddressingModes::ZeroPageX, Op::Nop),  // NOP
            0x5 => Instruction::new(opcode, 2, 4, AddressingModes::ZeroPageX, Op::And),  // AND
            0x6 => Instruction::new(opcode, 2, 6, AddressingModes::ZeroPageX, Op::Rol),  // ROL
            0x7 => Instruction::new(opcode, 2, 6, AddressingModes::ZeroPageX, Op::Rla),  // RLA
            0x8 => Instruction::new(opcode, 1, 2, AddressingModes::Implied, Op::Sec),  // SEC
            0x9 => Instruction::new(opcode, 3, 4, AddressingModes::AbsoluteY, Op::And),  // AND
            0xA => Instruction::new(opcode, 1, 2, AddressingModes::Implied, Op::Nop),  // NOP
            0xB => Instruction::new(opcode, 3, 7, AddressingModes::AbsoluteY, Op::Rla),  // RLA
            0xC => Instruction::new(opcode, 3, 4, AddressingModes::AbsoluteX, Op::Nop),  // NOP
            0xD => Instruction::new(opcode, 3, 4, AddressingModes::AbsoluteX, Op::And),  // AND
            0xE => Instruction::new(opcode, 3, 7, AddressingModes::AbsoluteX, Op::Rol),  // ROL
            _ => Instruction::new(opcode, 3, 7, AddressingModes::AbsoluteX, Op::Rla),  // RLA
        }
    }

    /// Opcodes 0x40 through 0x4F.
    fn row_4(opcode: u8) -> (r: Instruction)
        requires
            opcode / 0x10 == 0x4,
        ensures
            r == decode_row_4(opcode),
    {
        match opcode % 0x10 {
            0x0 => Instruction::new(opcode, 1, 6, AddressingModes::Implied, Op::Rti),  // RTI
            0x1 => Instruction::new(opcode, 2, 6, AddressingModes::IndirectX, Op::Eor),  // EOR
            0x2 => Instruction::new(opcode, 1, 2, AddressingModes::Implied, Op::Kil),  // KIL
            0x3 => Instruction::new(opcode, 2, 8, AddressingModes::IndirectX, Op::Sre),  // SRE
            0x4 => Instruction::new(opcode, 2, 3, AddressingModes::ZeroPage, Op::Nop),  // NOP
            0x5 => Instruction::new(opcode, 2, 3, AddressingModes::ZeroPage, Op::Eor),  // EOR
            0x6 => Instruction::new(opcode, 2, 5, AddressingModes::ZeroPage, Op::Lsr),  // LSR
            0x7 => Instruction::new(opcode, 2, 5, AddressingModes::ZeroPage, Op::Sre),  // SRE
            0x8 => Instruction::new(opcode, 1, 3, AddressingModes::Implied, Op::Pha),  // PHA
            0x9 => Instruction::new(opcode, 2, 2, AddressingModes::Immediate, Op::Eor),  // EOR
            0xA => Instruction::new(opcode, 1, 2, AddressingModes::Accum, Op::Lsr),  // LSR
            0xB => Instruction::new(opcode, 2, 2, AddressingModes::Immediate, Op::Alr),  // ALR
            0xC => Instruction::new(opcode, 3, 3, AddressingModes::Absolute, Op::Jmp),  // JMP
            0xD => Instruction::new(opcode, 3, 4, AddressingModes::Absolute, Op::Eor),  // EOR
            0xE => Instruction::new(opcode, 3, 6, AddressingModes::Absolute, Op::Lsr),  // LSR
            _ => Instruction::new(opcode, 3, 6, AddressingModes::Absolute, Op::Sre),  // SRE
        }
    }

    /// Opcodes 0x50 through 0x5F.
    fn row_5(opcode: u8) -> (r: Instruction)
        requires
            opcode / 0x10 == 0x5,
        ensures
            r == decode_row_5(opcode),
    {
        match opcode % 0x10 {
            0x0 => Instruction::new(opcode, 2, 2, AddressingModes::Relative, Op::Bvc),  // BVC
            0x1 => Instruction::new(opcode, 2, 5, AddressingModes::IndirectY, Op::Eor),  // EOR
            0x2 => Instruction::new(opcode, 1, 2, AddressingModes::Implied, Op::Kil),  // KIL
            0x3 => Instruction::new(opcode, 2, 8, AddressingModes::IndirectY, Op::Sre),  // SRE
            0x4 => Instruction::new(opcode, 2, 4, AddressingModes::ZeroPageX, Op::Nop),  // NOP
            0x5 => Instruction::new(opcode, 2, 4, AddressingModes::ZeroPageX, Op::Eor),  // EOR
            0x6 => Instruction::new(opcode, 2, 6, AddressingModes::ZeroPageX, Op::Lsr),  // LSR
            0x7 => Instruction::new(opcode, 2, 6, AddressingModes::ZeroPageX, Op::Sre),  // SRE
            0x8 => Instruction::new(opcode, 1, 2, AddressingModes::Implied, Op::Cli),  // CLI
            0x9 => Instruction::new(opcode, 3, 4, AddressingModes::AbsoluteY, Op::Eor),  // EOR
            0xA => Instruction::new(opcode, 1, 2, AddressingModes::Implied, Op::Nop),  // NOP
            0xB => Instruction::new(opcode, 3, 7, AddressingModes::AbsoluteY, Op::Sre),  // SRE
            0xC => Instruction::new(opcode, 3, 4, AddressingModes::AbsoluteX, Op::Nop),  // NOP
            0xD => Instruction::new(opcode, 3, 4, AddressingModes::AbsoluteX, Op::Eor),  // EOR
            0xE => Instruction::new(opcode, 3, 7, AddressingModes::AbsoluteX, Op::Lsr),  // LSR
            _ => Instruction::new(opcode, 3, 7, AddressingModes::AbsoluteX, Op::Sre),  // SRE
        }
    }

    /// Opcodes 0x60 through 0x6F.
    fn row_6(opcode: u8) -> (r: Instruction)
        requires
            opcode / 0x10 == 0x6,
        ensures
            r == decode_row_6(opcode),
    {
        match opcode % 0x10 {
            0x0 => Instruction::new(opcode, 1, 6, AddressingModes::Implied, Op::Rts),  // RTS
            0x1 => Instruction::new(opcode, 2, 6, AddressingModes::IndirectX, Op::Adc),  // ADC
            0x2 => Instruction::new(opcode, 1, 2, AddressingModes::Implied, Op::Kil),  // KIL
            0x3 => Instruction::new(opcode, 2, 8, AddressingModes::IndirectX, Op::Rra),  // RRA
            0x4 => Instruction::new(opcode, 2, 3, AddressingModes::ZeroPage, Op::Nop),  // NOP
            0x5 => Instruction::new(opcode, 2, 3, AddressingModes::ZeroPage, Op::Adc),  // ADC
            0x6 => Instruction::new(opcode, 2, 5, AddressingModes::ZeroPage, Op::Ror),  // ROR
            0x7 => Instruction::new(opcode, 2, 5, AddressingModes::ZeroPage, Op::Rra),  // RRA
            0x8 => Instruction::new(opcode, 1, 4, AddressingModes::Implied, Op::Pla),  // PLA
            0x9 => Instruction::new(opcode, 2, 2, AddressingModes::Immediate, Op::Adc),  // ADC
            0xA => Instruction::new(opcode, 1, 2, AddressingModes::Accum, Op::Ror),  // ROR
            0xB => Instruction::new(opcode, 2, 2, AddressingModes::Immediate, Op::Arr),  // ARR
            0xC => Instruction::new(opcode, 3, 5, AddressingModes::Indirect, Op::Jmp),  // JMP
            0xD => Instruction::new(opcode, 3, 4, AddressingModes::Absolute, Op::Adc),  // ADC
            0xE => Instruction::new(opcode, 3, 6, AddressingModes::Absolute, Op::Ror),  // ROR
            _ => Instruction::new(opcode, 3, 6, AddressingModes::Absolute, Op::Rra),  // RRA
        }
    }

    /// Opcodes 0x70 through 0x7F.
    fn row_7(opcode: u8) -> (r: Instruction)
        requires
            opcode / 0x10 == 0x7,
        ensures
            r == decode_row_7(opcode),
    {
        match opcode % 0x10 {
            0x0 => Instruction::new(opcode, 2, 2, AddressingModes::Relative, Op::Bvs),  // BVS
            0x1 => Instruction::new(opcode, 2, 5, AddressingModes::IndirectY, Op::Adc),  // ADC
            0x2 => Instruction::new(opcode, 1, 2, AddressingModes::Implied, Op::Kil),  // KIL
            0x3 => Instruction::new(opcode, 2, 8, AddressingModes::IndirectY, Op::Rra),  // RRA
            0x4 => Instruction::new(opcode, 2, 4, AddressingModes::ZeroPageX, Op::Nop),  // NOP
            0x5 => Instruction::new(opcode, 2, 4, AddressingModes::ZeroPageX, Op::Adc),  // ADC
            0x6 => Instruction::new(opcode, 2, 6, AddressingModes::ZeroPageX, Op::Ror),  // ROR
            0x7 => Instruction::new(opcode, 2, 6, AddressingModes::ZeroPageX, Op::Rra),  // RRA
            0x8 => Instruction::new(opcode, 1, 2, AddressingModes::Implied, Op::Sei),  // SEI
            0x9 => Instruction::new(opcode, 3, 4, AddressingModes::AbsoluteY, Op::Adc),  // ADC
            0xA => Instruction::new(opcode, 1, 2, AddressingModes::Implied, Op::Nop),  // NOP
            0xB => Instruction::new(opcode, 3, 7, AddressingModes::AbsoluteY, Op::Rra),  // RRA
            0xC => Instruction::new(opcode, 3, 4, AddressingModes::AbsoluteX, Op::Nop),  // NOP
            0xD => Instruction::new(opcode, 3, 4, AddressingModes::AbsoluteX, Op::Adc),  // ADC
            0xE => Instruction::new(opcode, 3, 7, AddressingModes::AbsoluteX, Op::Ror),  // ROR
            _ => Instruction::new(opcode, 3, 7, AddressingModes::AbsoluteX, Op::Rra),  // RRA
        }
    }

    /// Opcodes 0x80 through 0x8F.
    fn row_8(opcode: u8) -> (r: Instruction)
        requires
            opcode / 0x10 == 0x8,
        ensures
            r == decode_row_8(opcode),
    {
        match opcode % 0x10 {
            0x0 => Instruction::new(opcode, 2, 2, AddressingModes::Immediate, Op::Nop),  // NOP
            0x1 => Instruction::new(opcode, 2, 6, AddressingModes::IndirectX, Op::Sta),  // STA
            0x2 => Instruction::new(opcode, 2, 2, AddressingModes::Immediate, Op::Nop),  // NOP
            0x3 => Instruction::new(opcode, 2, 6, AddressingModes::IndirectX, Op::Sax),  // SAX
            0x4 => Instruction::new(opcode, 2, 3, AddressingModes::ZeroPage, Op::Sty),  // STY
            0x5 => Instruction::new(opcode, 2, 3, AddressingModes::ZeroPage, Op::Sta),  // STA
            0x6 => Instruction::new(opcode, 2, 3, AddressingModes::ZeroPage, Op::Stx),  // STX
            0x7 => Instruction::new(opcode, 2, 3, AddressingModes::ZeroPage, Op::Sax),  // SAX
            0x8 => Instruction::new(opcode, 1, 2, AddressingModes::Implied, Op::Dey),  // DEY
            0x9 => Instruction::new(opcode, 2, 2, AddressingModes::Immediate, Op::Nop),  // NOP
            0xA => Instruction::new(opcode, 1, 2, AddressingModes::Implied, Op::Txa),  // TXA
            0xB => Instruction::new(opcode, 2, 3, AddressingModes::Immediate, Op::Xaa),  // XAA
            0xC => Instruction::new(opcode, 3, 4, AddressingModes::Absolute, Op::Sty),  // STY
            0xD => Instruction::new(opcode, 3, 4, AddressingModes::Absolute, Op::Sta),  // STA
            0xE => Instruction::new(opcode, 3, 4, AddressingModes::Absolute, Op::Stx),  // STX
            _ => Instruction::new(opcode, 3, 4, AddressingModes::Absolute, Op::Sax),  // SAX
        }
    }

    /// Opcodes 0x90 through 0x9F.
    fn row_9(opcode: u8) -> (r: Instruction)
        requires
            opcode / 0x10 == 0x9,
        ensures
            r == decode_row_9(opcode),
    {
        match opcode % 0x10 {
            0x0 => Instruction::new(opcode, 2, 2, AddressingModes::Relative, Op::Bcc),  // BCC
            0x1 => Instruction::new(opcode, 2, 6, AddressingModes::IndirectY, Op::Sta),  // STA
            0x2 => Instruction::new(opcode, 1, 2, AddressingModes::Implied, Op::Kil),  // KIL
            0x3 => Instruction::new(opcode, 2, 8, AddressingModes::IndirectY, Op::Ahx),  // AHX
            0x4 => Instruction::new(opcode, 2, 4, AddressingModes::ZeroPageX, Op::Sty),  // STY
            0x5 => Instruction::new(opcode, 2, 4, AddressingModes::ZeroPageX, Op::Sta),  // STA
            0x6 => Instruction::new(opcode, 2, 4, AddressingModes::ZeroPageY, Op::Stx),  // STX
            0x7 => Instruction::new(opcode, 2, 4, AddressingModes::ZeroPageY, Op::Sax),  // SAX
            0x8 => Instruction::new(opcode, 1, 2, AddressingModes::Implied, Op::Tya),  // TYA
            0x9 => Instruction::new(opcode, 3, 5, AddressingModes::AbsoluteY, Op::Sta),  // STA
            0xA => Instruction::new(opcode, 1, 2, AddressingModes::Implied, Op::Txs),  // TXS
            0xB => Instruction::new(opcode, 3, 2, AddressingModes::AbsoluteY, Op::Tas),  // TAS
            0xC => Instruction::new(opcode, 3, 4, AddressingModes::AbsoluteX, Op::Shy),  // SHY
            0xD => Instruction::new(opcode, 3, 5, AddressingModes::AbsoluteX, Op::Sta),  // STA
            0xE => Instruction::new(opcode, 3, 4, AddressingModes::AbsoluteY, Op::Shx),  // SHX
            _ => Instruction::new(opcode, 3, 4, AddressingModes::AbsoluteY, Op::Ahx),  // AHX
        }
    }

    /// Opcodes 0xA0 through 0xAF.
    fn row_a(opcode: u8) -> (r: Instruction)
        requires
            opcode / 0x10 == 0xA,
        ensures
            r == decode_row_a(opcode),
    {
        match opcode % 0x10 {
            0x0 => Instruction::new(opcode, 2, 2, AddressingModes::Immediate, Op::Ldy),  // LDY
            0x1 => Instruction::new(opcode, 2, 6, AddressingModes::IndirectX, Op::Lda),  // LDA
            0x2 => Instruction::new(opcode, 2, 2, AddressingModes::Immediate, Op::Ldx),  // LDX
            0x3 => Instruction::new(opcode, 2, 6, AddressingModes::IndirectX, Op::Lax),  // LAX
            0x4 => Instruction::new(opcode, 2, 3, AddressingModes::ZeroPage, Op::Ldy),  // LDY
            0x5 => Instruction::new(opcode, 2, 3, AddressingModes::ZeroPage, Op::Lda),  // LDA
            0x6 => Instruction::new(opcode, 2, 3, AddressingModes::ZeroPage, Op::Ldx),  // LDX
            0x7 => Instruction::new(opcode, 2, 3, AddressingModes::ZeroPage, Op::Lax),  // LAX
            0x8 => Instruction::new(opcode, 1, 2, AddressingModes::Implied, Op::Tay),  // TAY
            0x9 => Instruction::new(opcode, 2, 2, AddressingModes::Immediate, Op::Lda),  // LDA
            0xA => Instruction::new(opcode, 1, 2, AddressingModes::Implied, Op::Tax),  // TAX
            0xB => Instruction::new(opcode, 2, 3, AddressingModes::Immediate, Op::Lxa),  // LXA
            0xC => Instruction::new(opcode, 3, 4, AddressingModes::Absolute, Op::Ldy),  // LDY
            0xD => Instruction::new(opcode, 3, 4, AddressingModes::Absolute, Op::Lda),  // LDA
            0xE => Instruction::new(opcode, 3, 4, AddressingModes::Absolute, Op::Ldx),  // LDX
            _ => Instruction::new(opcode, 3, 4, AddressingModes::Absolute, Op::Lax),  // LAX
        }
    }

    /// Opcodes 0xB0 through 0xBF.
    fn row_b(opcode: u8) -> (r: Instruction)
        requires
            opcode / 0x10 == 0xB,
        ensures
            r == decode_row_b(opcode),
    {
        match opcode % 0x10 {
            0x0 => Instruction::new(opcode, 2, 2, AddressingModes::Relative, Op::Bcs),  // BCS
            0x1 => Instruction::new(opcode, 2, 5, AddressingModes::IndirectY, Op::Lda),  // LDA
            0x2 => Instruction::new(opcode, 1, 2, AddressingModes::Implied, Op::Kil),  // KIL
            0x3 => Instruction::new(opcode, 2, 5, AddressingModes::IndirectY, Op::Lax),  // LAX
            0x4 => Instruction::new(opcode, 2, 4, AddressingModes::ZeroPageX, Op::Ldy),  // LDY
            0x5 => Instruction::new(opcode, 2, 4, AddressingModes::ZeroPageX, Op::Lda),  // LDA
            0x6 => Instruction::new(opcode, 2, 4, AddressingModes::ZeroPageY, Op::Ldx),  // LDX
            0x7 => Instruction::new(opcode, 2, 4, AddressingModes::ZeroPageY, Op::Lax),  // LAX
            0x8 => Instruction::new(opcode, 1, 2, AddressingModes::Implied, Op::Clv),  // CLV
            0x9 => Instruction::new(opcode, 3, 4, AddressingModes::AbsoluteY, Op::Lda),  // LDA
            0xA => Instruction::new(opcode, 1, 2, AddressingModes::Implied, Op::Tsx),  // TSX
            0xB => Instruction::new(opcode, 3, 2, AddressingModes::AbsoluteY, Op::Las),  // LAS
            0xC => Instruction::new(opcode, 3, 4, AddressingModes::AbsoluteX, Op::Ldy),  // LDY
            0xD => Instruction::new(opcode, 3, 4, AddressingModes::AbsoluteX, Op::Lda),  // LDA
            0xE => Instruction::new(opcode, 3, 4, AddressingModes::AbsoluteY, Op::Ldx),  // LDX
            _ => Instruction::new(opcode, 3, 4, AddressingModes::AbsoluteY, Op::Lax),  // LAX
        }
    }

    /// Opcodes 0xC0 through 0xCF.
    fn row_c(opcode: u8) -> (r: Instruction)
        requires
            opcode / 0x10 == 0xC,
        ensures
            r == decode_row_c(opcode),
    {
        match opcode % 0x10 {
            0x0 => Instruction::new(opcode, 2, 2, AddressingModes::Immediate, Op::Cpy),  // CPY
            0x1 => Instruction::new(opcode, 2, 6, AddressingModes::IndirectX, Op::Cmp),  // CMP
            0x2 => Instruction::new(opcode, 2, 2, AddressingModes::Immediate, Op::Nop),  // NOP
            0x3 => Instruction::new(opcode, 2, 8, AddressingModes::IndirectX, Op::Dcp),  // DCP
            0x4 => Instruction::new(opcode, 2, 3, AddressingModes::ZeroPage, Op::Cpy),  // CPY
            0x5 => Instruction::new(opcode, 2, 3, AddressingModes::ZeroPage, Op::Cmp),  // CMP
            0x6 => Instruction::new(opcode, 2, 5, AddressingModes::ZeroPage, Op::Dec),  // DEC
            0x7 => Instruction::new(opcode, 2, 5, AddressingModes::ZeroPage, Op::Dcp),  // DCP
            0x8 => Instruction::new(opcode, 1, 2, AddressingModes::Implied, Op::Iny),  // INY
            0x9 => Instruction::new(opcode, 2, 2, AddressingModes::Immediate, Op::Cmp),  // CMP
            0xA => Instruction::new(opcode, 1, 2, AddressingModes::Implied, Op::Dex),  // DEX
            0xB => Instruction::new(opcode, 2, 2, AddressingModes::Immediate, Op::Axs),  // AXS
            0xC => Instruction::new(opcode, 3, 4, AddressingModes::Absolute, Op::Cpy),  // CPY
            0xD => Instruction::new(opcode, 3, 4, AddressingModes::Absolute, Op::Cmp),  // CMP
            0xE => Instruction::new(opcode, 3, 6, AddressingModes::Absolute, Op::Dec),  // DEC
            _ => Instruction::new(opcode, 3, 6, AddressingModes::Absolute, Op::Dcp),  // DCP
        }
    }

    /// Opcodes 0xD0 through 0xDF.
    fn row_d(opcode: u8) -> (r: Instruction)
        requires
            opcode / 0x10 == 0xD,
        ensures
            r == decode_row_d(opcode),
    {
        match opcode % 0x10 {
            0x0 => Instruction::new(opcode, 2, 2, AddressingModes::Relative, Op::Bne),  // BNE
            0x1 => Instruction::new(opcode, 2, 5, AddressingModes::IndirectY, Op::Cmp),  // CMP
            0x2 => Instruction::new(opcode, 1, 2, AddressingModes::Implied, Op::Kil),  // KIL
            0x3 => Instruction::new(opcode, 2, 8, AddressingModes::IndirectY, Op::Dcp),  // DCP
            0x4 => Instruction::new(opcode, 2, 4, AddressingModes::ZeroPageX, Op::Nop),  // NOP
            0x5 => Instruction::new(opcode, 2, 4, AddressingModes::ZeroPageX, Op::Cmp),  // CMP
            0x6 => Instruction::new(opcode, 2, 6, AddressingModes::ZeroPageX, Op::Dec),  // DEC
            0x7 => Instruction::new(opcode, 2, 6, AddressingModes::ZeroPageX, Op::Dcp),  // DCP
            0x8 => Instruction::new(opcode, 1, 2, AddressingModes::Implied, Op::Cld),  // CLD
            0x9 => Instruction::new(opcode, 3, 4, AddressingModes::AbsoluteY, Op::Cmp),  // CMP
            0xA => Instruction::new(opcode, 1, 2, AddressingModes::Implied, Op::Nop),  // NOP
            0xB => Instruction::new(opcode, 3, 7, AddressingModes::AbsoluteY, Op::Dcp),  // DCP
            0xC => Instruction::new(opcode, 3, 4, AddressingModes::AbsoluteX, Op::Nop),  // NOP
            0xD => Instruction::new(opcode, 3, 4, AddressingModes::AbsoluteX, Op::Cmp),  // CMP
            0xE => Instruction::new(opcode, 3, 7, AddressingModes::AbsoluteX, Op::Dec),  // DEC
            _ => Instruction::new(opcode, 3, 7, AddressingModes::AbsoluteX, Op::Dcp),  // DCP
        }
    }

    /// Opcodes 0xE0 through 0xEF.
    fn row_e(opcode: u8) -> (r: Instruction)
        requires
            opcode / 0x10 == 0xE,
        ensures
            r == decode_row_e(opcode),
    {
        match opcode % 0x10 {
            0x0 => Instruction::new(opcode, 2, 2, AddressingModes::Immediate, Op::Cpx),  // CPX
            0x1 => Instruction::new(opcode, 2, 6, AddressingModes::IndirectX, Op::Sbc),  // SBC
            0x2 => Instruction::new(opcode, 2, 2, AddressingModes::Immediate, Op::Nop),  // NOP
            0x3 => Instruction::new(opcode, 2, 8, AddressingModes::IndirectX, Op::Isc),  // ISC
            0x4 => Instruction::new(opcode, 2, 3, AddressingModes::ZeroPage, Op::Cpx),  // CPX
            0x5 => Instruction::new(opcode, 2, 3, AddressingModes::ZeroPage, Op::Sbc),  // SBC
            0x6 => Instruction::new(opcode, 2, 5, AddressingModes::ZeroPage, Op::Inc),  // INC
            0x7 => Instruction::new(opcode, 2, 5, AddressingModes::ZeroPage, Op::Isc),  // ISC
            0x8 => Instruction::new(opcode, 1, 2, AddressingModes::Implied, Op::Inx),  // INX
            0x9 => Instruction::new(opcode, 2, 2, AddressingModes::Immediate, Op::Sbc),  // SBC
            0xA => Instruction::new(opcode, 1, 2, AddressingModes::Implied, Op::Nop),  // NOP
            0xB => Instruction::new(opcode, 2, 2, AddressingModes::Immediate, Op::Sbc),  // SBC
            0xC => Instruction::new(opcode, 3, 4, AddressingModes::Absolute, Op::Cpx),  // CPX
            0xD => Instruction::new(opcode, 3, 4, AddressingModes::Absolute, Op::Sbc),  // SBC
            0xE => Instruction::new(opcode, 3, 6, AddressingModes::Absolute, Op::Inc),  // INC
            _ => Instruction::new(opcode, 3, 6, AddressingModes::Absolute, Op::Isc),  // ISC
        }
    }

    /// Opcodes 0xF0 through 0xFF.
    fn row_f(opcode: u8) -> (r: Instruction)
        requires
            opcode / 0x10 == 0xF,
        ensures
            r == decode_row_f(opcode),
    {
        match opcode % 0x10 {
            0x0 => Instruction::new(opcode, 2, 2, AddressingModes::Relative, Op::Beq),  // BEQ
            0x1 => Instruction::new(opcode, 2, 5, AddressingModes::IndirectY, Op::Sbc),  // SBC
            0x2 => Instruction::new(opcode, 1, 2, AddressingModes::Implied, Op::Kil),  // KIL
            0x3 => Instruction::new(opcode, 2, 8, AddressingModes::IndirectY, Op::Isc),  // ISC
            0x4 => Instruction::new(opcode, 2, 4, AddressingModes::ZeroPageX, Op::Nop),  // NOP
            0x5 => Instruction::new(opcode, 2, 4, AddressingModes::ZeroPageX, Op::Sbc),  // SBC
            0x6 => Instruction::new(opcode, 2, 6, AddressingModes::ZeroPageX, Op::Inc),  // INC
            0x7 => Instruction::new(opcode, 2, 6, AddressingModes::ZeroPageX, Op::Isc),  // ISC
            0x8 => Instruction::new(opcode, 1, 2, AddressingModes::Implied, Op::Sed),  // SED
            0x9 => Instruction::new(opcode, 3, 4, AddressingModes::AbsoluteY, Op::Sbc),  // SBC
            0xA => Instruction::new(opcode, 1, 2, AddressingModes::Implied, Op::Nop),  // NOP
            0xB => Instruction::new(opcode, 3, 7, AddressingModes::AbsoluteY, Op::Isc),  // ISC
            0xC => Instruction::new(opcode, 3, 4, AddressingModes::AbsoluteX, Op::Nop),  // NOP
            0xD => Instruction::new(opcode, 3, 4, AddressingModes::AbsoluteX, Op::Sbc),  // SBC
            0xE => Instruction::new(opcode, 3, 7, AddressingModes::AbsoluteX, Op::Inc),  // INC
            _ => Instruction::new(opcode, 3, 7, AddressingModes::AbsoluteX, Op::Isc),  // ISC
        }
    }

}

/// The decode table over the ghost model: the metadata every opcode byte
/// maps to.  Dispatches on the opcode's high nibble to the matrix row.
pub open spec fn decode_spec(opcode: u8) -> Instruction {
    match opcode / 0x10 {
        0x0 => decode_row_0(opcode),
        0x1 => decode_row_1(opcode),
        0x2 => decode_row_2(opcode),
        0x3 => decode_row_3(opcode),
        0x4 => decode_row_4(opcode),
        0x5 => decode_row_5(opcode),
        0x6 => decode_row_6(opcode),
        0x7 => decode_row_7(opcode),
        0x8 => decode_row_8(opcode),
        0x9 => decode_row_9(opcode),
        0xA => decode_row_a(opcode),
        0xB => decode_row_b(opcode),
        0xC => decode_row_c(opcode),
        0xD => decode_row_d(opcode),
        0xE => decode_row_e(opcode),
        _ => decode_row_f(opcode),
    }
}

/// Row 0x0 of the opcode matrix: opcodes 0x00 through 0x0F.
pub open spec fn decode_row_0(opcode: u8) -> Instruction {
    match opcode % 0x10 {
        0x0 => Instruction { opcode, len: 1, cycle: 7, addressing_mode: AddressingModes::Implied, op: Op::Brk },  // BRK
        0x1 => Instruction { opcode, len: 2, cycle: 6, addressing_mode: AddressingModes::IndirectX, op: Op::Ora },  // ORA
        0x2 => Instruction { opcode, len: 1, cycle: 2, addressing_mode: AddressingModes::Implied, op: Op::Kil },  // KIL
        0x3 => Instruction { opcode, len: 2, cycle: 8, addressing_mode: AddressingModes::IndirectX, op: Op::Slo },  // SLO
        0x4 => Instruction { opcode, len: 2, cycle: 3, addressing_mode: AddressingModes::ZeroPage, op: Op::Nop },  // NOP
        0x5 => Instruction { opcode, len: 2, cycle: 3, addressing_mode: AddressingModes::ZeroPage, op: Op::Ora },  // ORA
        0x6 => Instruction { opcode, len: 2, cycle: 5, addressing_mode: AddressingModes::ZeroPage, op: Op::Asl },  // ASL
        0x7 => Instruction { opcode, len: 2, cycle: 5, addressing_mode: AddressingModes::ZeroPage, op: Op::Slo },  // SLO
        0x8 => Instruction { opcode, len: 1, cycle: 3, addressing_mode: AddressingModes::Implied, op: Op::Php },  // PHP
        0x9 => Instruction { opcode, len: 2, cycle: 2, addressing_mode: AddressingModes::Immediate, op: Op::Ora },  // ORA
        0xA => Instruction { opcode, len: 1, cycle: 2, addressing_mode: AddressingModes::Accum, op: Op::Asl },  // ASL
        0xB => Instruction { opcode, len: 2, cycle: 2, addressing_mode: AddressingModes::Immediate, op: Op::Anc },  // ANC
        0xC => Instruction { opcode, len: 3, cycle: 4, addressing_mode: AddressingModes::Absolute, op: Op::Nop },  // NOP
        0xD => Instruction { opcode, len: 3, cycle: 4, addressing_mode: AddressingModes::Absolute, op: Op::Ora },  // ORA
        0xE => Instruction { opcode, len: 3, cycle: 6, addressing_mode: AddressingModes::Absolute, op: Op::Asl },  // ASL
        _ => Instruction { opcode, len: 3, cycle: 6, addressing_mode: AddressingModes::Absolute, op: Op::Slo },  // SLO
    }
}

/// Row 0x1 of the opcode matrix: opcodes 0x10 through 0x1F.
pub open spec fn decode_row_1(opcode: u8) -> Instruction {
    match opcode % 0x10 {
        0x0 => Instruction { opcode, len: 2, cycle: 2, addressing_mode: AddressingModes::Relative, op: Op::Bpl },  // BPL
        0x1 => Instruction { opcode, len: 2, cycle: 5, addressing_mode: AddressingModes::IndirectY, op: Op::Ora },  // ORA
        0x2 => Instruction { opcode, len: 1, cycle: 2, addressing_mode: AddressingModes::Implied, op: Op::Kil },  // KIL
        0x3 => Instruction { opcode, len: 2, cycle: 8, addressing_mode: AddressingModes::IndirectY, op: Op::Slo },  // SLO
        0x4 => Instruction { opcode, len: 2, cycle: 4, addressing_mode: AddressingModes::ZeroPageX, op: Op::Nop },  // NOP
        0x5 => Instruction { opcode, len: 2, cycle: 4, addressing_mode: AddressingModes::ZeroPageX, op: Op::Ora },  // ORA
        0x6 => Instruction { opcode, len: 2, cycle: 6, addressing_mode: AddressingModes::ZeroPageX, op: Op::Asl },  // ASL
        0x7 => Instruction { opcode, len: 2, cycle: 6, addressing_mode: AddressingModes::ZeroPageX, op: Op::Slo },  // SLO
        0x8 => Instruction { opcode, len: 1, cycle: 2, addressing_mode: AddressingModes::Implied, op: Op::Clc },  // CLC
        0x9 => Instruction { opcode, len: 3, cycle: 4, addressing_mode: AddressingModes::AbsoluteY, op: Op::Ora },  // ORA
        0xA => Instruction { opcode, len: 1, cycle: 2, addressing_mode: AddressingModes::Implied, op: Op::Nop },  // NOP
        0xB => Instruction { opcode, len: 3, cycle: 7, addressing_mode: AddressingModes::AbsoluteY, op: Op::Slo },  // SLO
        0xC => Instruction { opcode, len: 3, cycle: 4, addressing_mode: AddressingModes::AbsoluteX, op: Op::Nop },  // NOP
        0xD => Instruction { opcode, len: 3, cycle: 4, addressing_mode: AddressingModes::AbsoluteX, op: Op::Ora },  // ORA
        0xE => Instruction { opcode, len: 3, cycle: 7, addressing_mode: AddressingModes::AbsoluteX, op: Op::Asl },  // ASL
        _ => Instruction { opcode, len: 3, cycle: 7, addressing_mode: AddressingModes::AbsoluteX, op: Op::Slo },  // SLO
    }
}

/// Row 0x2 of the opcode matrix: opcodes 0x20 through 0x2F.
pub open spec fn decode_row_2(opcode: u8) -> Instruction {
    match opcode % 0x10 {
        0x0 => Instruction { opcode, len: 3, cycle: 6, addressing_mode: AddressingModes::Absolute, op: Op::Jsr },  // JSR
        0x1 => Instruction { opcode, len: 2, cycle: 6, addressing_mode: AddressingModes::IndirectX, op: Op::And },  // AND
        0x2 => Instruction { opcode, len: 1, cycle: 2, addressing_mode: AddressingModes::Implied, op: Op::Kil },  // KIL
        0x3 => Instruction { opcode, len: 2, cycle: 8, addressing_mode: AddressingModes::IndirectX, op: Op::Rla },  // RLA
        0x4 => Instruction { opcode, len: 2, cycle: 3, addressing_mode: AddressingModes::ZeroPage, op: Op::Bit },  // BIT
        0x5 => Instruction { opcode, len: 2, cycle: 3, addressing_mode: AddressingModes::ZeroPage, op: Op::And },  // AND
        0x6 => Instruction { opcode, len: 2, cycle: 5, addressing_mode: AddressingModes::ZeroPage, op: Op::Rol },  // ROL
        0x7 => Instruction { opcode, len: 2, cycle: 5, addressing_mode: AddressingModes::ZeroPage, op: Op::Rla },  // RLA
        0x8 => Instruction { opcode, len: 1, cycle: 4, addressing_mode: AddressingModes::Implied, op: Op::Plp },  // PLP
        0x9 => Instruction { opcode, len: 2, cycle: 2, addressing_mode: AddressingModes::Immediate, op: Op::And },  // AND
        0xA => Instruction { opcode, len: 1, cycle: 2, addressing_mode: AddressingModes::Accum, op: Op::Rol },  // ROL
        0xB => Instruction { opcode, len: 2, cycle: 2, addressing_mode: AddressingModes::Immediate, op: Op::Anc },  // ANC
        0xC => Instruction { opcode, len: 3, cycle: 4, addressing_mode: AddressingModes::Absolute, op: Op::Bit },  // BIT
        0xD => Instruction { opcode, len: 3, cycle: 4, addressing_mode: AddressingModes::Absolute, op: Op::And },  // AND
        0xE => Instruction { opcode, len: 3, cycle: 6, addressing_mode: AddressingModes::Absolute, op: Op::Rol },  // ROL
        _ => Instruction { opcode, len: 3, cycle: 6, addressing_mode: AddressingModes::Absolute, op: Op::Rla },  // RLA
    }
}

/// Row 0x3 of the opcode matrix: opcodes 0x30 through 0x3F.
pub open spec fn decode_row_3(opcode: u8) -> Instruction {
    match opcode % 0x10 {
        0x0 => Instruction { opcode, len: 2, cycle: 2, addressing_mode: AddressingModes::Relative, op: Op::Bmi },  // BMI
        0x1 => Instruction { opcode, len: 2, cycle: 5, addressing_mode: AddressingModes::IndirectY, op: Op::And },  // AND
        0x2 => Instruction { opcode, len: 1, cycle: 2, addressing_mode: AddressingModes::Implied, op: Op::Kil },  // KIL
        0x3 => Instruction { opcode, len: 2, cycle: 8, addressing_mode: AddressingModes::IndirectY, op: Op::Rla },  // RLA
        0x4 => Instruction { opcode, len: 2, cycle: 4, addressing_mode: AddressingModes::ZeroPageX, op: Op::Nop },  // NOP
        0x5 => Instruction { opcode, len: 2, cycle: 4, addressing_mode: AddressingModes::ZeroPageX, op: Op::And },  // AND
        0x6 => Instruction { opcode, len: 2, cycle: 6, addressing_mode: AddressingModes::ZeroPageX, op: Op::Rol },  // ROL
        0x7 => Instruction { opcode, len: 2, cycle: 6, addressing_mode: AddressingModes::ZeroPageX, op: Op::Rla },  // RLA
        0x8 => Instruction { opcode, len: 1, cycle: 2, addressing_mode: AddressingModes::Implied, op: Op::Sec },  // SEC
        0x9 => Instruction { opcode, len: 3, cycle: 4, addressing_mode: AddressingModes::AbsoluteY, op: Op::And },  // AND
        0xA => Instruction { opcode, len: 1, cycle: 2, addressing_mode: AddressingModes::Implied, op: Op::Nop },  // NOP
        0xB => Instruction { opcode, len: 3, cycle: 7, addressing_mode: AddressingModes::AbsoluteY, op: Op::Rla },  // RLA
        0xC => Instruction { opcode, len: 3, cycle: 4, addressing_mode: AddressingModes::AbsoluteX, op: Op::Nop },  // NOP
        0xD => Instruction { opcode, len: 3, cycle: 4, addressing_mode: AddressingModes::AbsoluteX, op: Op::And },  // AND
        0xE => Instruction { opcode, len: 3, cycle: 7, addressing_mode: AddressingModes::AbsoluteX, op: Op::Rol },  // ROL
        _ => Instruction { opcode, len: 3, cycle: 7, addressing_mode: AddressingModes::AbsoluteX, op: Op::Rla },  // RLA
    }
}

/// Row 0x4 of the opcode matrix: opcodes 0x40 through 0x4F.
pub open spec fn decode_row_4(opcode: u8) -> Instruction {
    match opcode % 0x10 {
        0x0 => Instruction { opcode, len: 1, cycle: 6, addressing_mode: AddressingModes::Implied, op: Op::Rti },  // RTI
        0x1 => Instruction { opcode, len: 2, cycle: 6, addressing_mode: AddressingModes::IndirectX, op: Op::Eor },  // EOR
        0x2 => Instruction { opcode, len: 1, cycle: 2, addressing_mode: AddressingModes::Implied, op: Op::Kil },  // KIL
        0x3 => Instruction { opcode, len: 2, cycle: 8, addressing_mode: AddressingModes::IndirectX, op: Op::Sre },  // SRE
        0x4 => Instruction { opcode, len: 2, cycle: 3, addressing_mode: AddressingModes::ZeroPage, op: Op::Nop },  // NOP
        0x5 => Instruction { opcode, len: 2, cycle: 3, addressing_mode: AddressingModes::ZeroPage, op: Op::Eor },  // EOR
        0x6 => Instruction { opcode, len: 2, cycle: 5, addressing_mode: AddressingModes::ZeroPage, op: Op::Lsr },  // LSR
        0x7 => Instruction { opcode, len: 2, cycle: 5, addressing_mode: AddressingModes::ZeroPage, op: Op::Sre },  // SRE
        0x8 => Instruction { opcode, len: 1, cycle: 3, addressing_mode: AddressingModes::Implied, op: Op::Pha },  // PHA
        0x9 => Instruction { opcode, len: 2, cycle: 2, addressing_mode: AddressingModes::Immediate, op: Op::Eor },  // EOR
        0xA => Instruction { opcode, len: 1, cycle: 2, addressing_mode: AddressingModes::Accum, op: Op::Lsr },  // LSR
        0xB => Instruction { opcode, len: 2, cycle: 2, addressing_mode: AddressingModes::Immediate, op: Op::Alr },  // ALR
        0xC => Instruction { opcode, len: 3, cycle: 3, addressing_mode: AddressingModes::Absolute, op: Op::Jmp },  // JMP
        0xD => Instruction { opcode, len: 3, cycle: 4, addressing_mode: AddressingModes::Absolute, op: Op::Eor },  // EOR
        0xE => Instruction { opcode, len: 3, cycle: 6, addressing_mode: AddressingModes::Absolute, op: Op::Lsr },  // LSR
        _ => Instruction { opcode, len: 3, cycle: 6, addressing_mode: AddressingModes::Absolute, op: Op::Sre },  // SRE
    }
}

/// Row 0x5 of the opcode matrix: opcodes 0x50 through 0x5F.
pub open spec fn decode_row_5(opcode: u8) -> Instruction {
    match opcode % 0x10 {
        0x0 => Instruction { opcode, len: 2, cycle: 2, addressing_mode: AddressingModes::Relative, op: Op::Bvc },  // BVC
        0x1 => Instruction { opcode, len: 2, cycle: 5, addressing_mode: AddressingModes::IndirectY, op: Op::Eor },  // EOR
        0x2 => Instruction { opcode, len: 1, cycle: 2, addressing_mode: AddressingModes::Implied, op: Op::Kil },  // KIL
        0x3 => Instruction { opcode, len: 2, cycle: 8, addressing_mode: AddressingModes::IndirectY, op: Op::Sre },  // SRE
        0x4 => Instruction { opcode, len: 2, cycle: 4, addressing_mode: AddressingModes::ZeroPageX, op: Op::Nop },  // NOP
        0x5 => Instruction { opcode, len: 2, cycle: 4, addressing_mode: AddressingModes::ZeroPageX, op: Op::Eor },  // EOR
        0x6 => Instruction { opcode, len: 2, cycle: 6, addressing_mode: AddressingModes::ZeroPageX, op: Op::Lsr },  // LSR
        0x7 => Instruction { opcode, len: 2, cycle: 6, addressing_mode: AddressingModes::ZeroPageX, op: Op::Sre },  // SRE
        0x8 => Instruction { opcode, len: 1, cycle: 2, addressing_mode: AddressingModes::Implied, op: Op::Cli },  // CLI
        0x9 => Instruction { opcode, len: 3, cycle: 4, addressing_mode: AddressingModes::AbsoluteY, op: Op::Eor },  // EOR
        0xA => Instruction { opcode, len: 1, cycle: 2, addressing_mode: AddressingModes::Implied, op: Op::Nop },  // NOP
        0xB => Instruction { opcode, len: 3, cycle: 7, addressing_mode: AddressingModes::AbsoluteY, op: Op::Sre },  // SRE
        0xC => Instruction { opcode, len: 3, cycle: 4, addressing_mode: AddressingModes::AbsoluteX, op: Op::Nop },  // NOP
        0xD => Instruction { opcode, len: 3, cycle: 4, addressing_mode: AddressingModes::AbsoluteX, op: Op::Eor },  // EOR
        0xE => Instruction { opcode, len: 3, cycle: 7, addressing_mode: AddressingModes::AbsoluteX, op: Op::Lsr },  // LSR
        _ => Instruction { opcode, len: 3, cycle: 7, addressing_mode: AddressingModes::AbsoluteX, op: Op::Sre },  // SRE
    }
}

/// Row 0x6 of the opcode matrix: opcodes 0x60 through 0x6F.
pub open spec fn decode_row_6(opcode: u8) -> Instruction {
    match opcode % 0x10 {
        0x0 => Instruction { opcode, len: 1, cycle: 6, addressing_mode: AddressingModes::Implied, op: Op::Rts },  // RTS
        0x1 => Instruction { opcode, len: 2, cycle: 6, addressing_mode: AddressingModes::IndirectX, op: Op::Adc },  // ADC
        0x2 => Instruction { opcode, len: 1, cycle: 2, addressing_mode: AddressingModes::Implied, op: Op::Kil },  // KIL
        0x3 => Instruction { opcode, len: 2, cycle: 8, addressing_mode: AddressingModes::IndirectX, op: Op::Rra },  // RRA
        0x4 => Instruction { opcode, len: 2, cycle: 3, addressing_mode: AddressingModes::ZeroPage, op: Op::Nop },  // NOP
        0x5 => Instruction { opcode, len: 2, cycle: 3, addressing_mode: AddressingModes::ZeroPage, op: Op::Adc },  // ADC
        0x6 => Instruction { opcode, len: 2, cycle: 5, addressing_mode: AddressingModes::ZeroPage, op: Op::Ror },  // ROR
        0x7 => Instruction { opcode, len: 2, cycle: 5, addressing_mode: AddressingModes::ZeroPage, op: Op::Rra },  // RRA
        0x8 => Instruction { opcode, len: 1, cycle: 4, addressing_mode: AddressingModes::Implied, op: Op::Pla },  // PLA
        0x9 => Instruction { opcode, len: 2, cycle: 2, addressing_mode: AddressingModes::Immediate, op: Op::Adc },  // ADC
        0xA => Instruction { opcode, len: 1, cycle: 2, addressing_mode: AddressingModes::Accum, op: Op::Ror },  // ROR
        0xB => Instruction { opcode, len: 2, cycle: 2, addressing_mode: AddressingModes::Immediate, op: Op::Arr },  // ARR
        0xC => Instruction { opcode, len: 3, cycle: 5, addressing_mode: AddressingModes::Indirect, op: Op::Jmp },  // JMP
        0xD => Instruction { opcode, len: 3, cycle: 4, addressing_mode: AddressingModes::Absolute, op: Op::Adc },  // ADC
        0xE => Instruction { opcode, len: 3, cycle: 6, addressing_mode: AddressingModes::Absolute, op: Op::Ror },  // ROR
        _ => Instruction { opcode, len: 3, cycle: 6, addressing_mode: AddressingModes::Absolute, op: Op::Rra },  // RRA
    }
}

/// Row 0x7 of the opcode matrix: opcodes 0x70 through 0x7F.
pub open spec fn decode_row_7(opcode: u8) -> Instruction {
    match opcode % 0x10 {
        0x0 => Instruction { opcode, len: 2, cycle: 2, addressing_mode: AddressingModes::Relative, op: Op::Bvs },  // BVS
        0x1 => Instruction { opcode, len: 2, cycle: 5, addressing_mode: AddressingModes::IndirectY, op: Op::Adc },  // ADC
        0x2 => Instruction { opcode, len: 1, cycle: 2, addressing_mode: AddressingModes::Implied, op: Op::Kil },  // KIL
        0x3 => Instruction { opcode, len: 2, cycle: 8, addressing_mode: AddressingModes::IndirectY, op: Op::Rra },  // RRA
        0x4 => Instruction { opcode, len: 2, cycle: 4, addressing_mode: AddressingModes::ZeroPageX, op: Op::Nop },  // NOP
        0x5 => Instruction { opcode, len: 2, cycle: 4, addressing_mode: AddressingModes::ZeroPageX, op: Op::Adc },  // ADC
        0x6 => Instruction { opcode, len: 2, cycle: 6, addressing_mode: AddressingModes::ZeroPageX, op: Op::Ror },  // ROR
        0x7 => Instruction { opcode, len: 2, cycle: 6, addressing_mode: AddressingModes::ZeroPageX, op: Op::Rra },  // RRA
        0x8 => Instruction { opcode, len: 1, cycle: 2, addressing_mode: AddressingModes::Implied, op: Op::Sei },  // SEI
        0x9 => Instruction { opcode, len: 3, cycle: 4, addressing_mode: AddressingModes::AbsoluteY, op: Op::Adc },  // ADC
        0xA => Instruction { opcode, len: 1, cycle: 2, addressing_mode: AddressingModes::Implied, op: Op::Nop },  // NOP
        0xB => Instruction { opcode, len: 3, cycle: 7, addressing_mode: AddressingModes::AbsoluteY, op: Op::Rra },  // RRA
        0xC => Instruction { opcode, len: 3, cycle: 4, addressing_mode: AddressingModes::AbsoluteX, op: Op::Nop },  // NOP
        0xD => Instruction { opcode, len: 3, cycle: 4, addressing_mode: AddressingModes::AbsoluteX, op: Op::Adc },  // ADC
        0xE => Instruction { opcode, len: 3, cycle: 7, addressing_mode: AddressingModes::AbsoluteX, op: Op::Ror },  // ROR
        _ => Instruction { opcode, len: 3, cycle: 7, addressing_mode: AddressingModes::AbsoluteX, op: Op::Rra },  // RRA
    }
}

/// Row 0x8 of the opcode matrix: opcodes 0x80 through 0x8F.
pub open spec fn decode_row_8(opcode: u8) -> Instruction {
    match opcode % 0x10 {
        0x0 => Instruction { opcode, len: 2, cycle: 2, addressing_mode: AddressingModes::Immediate, op: Op::Nop },  // NOP
        0x1 => Instruction { opcode, len: 2, cycle: 6, addressing_mode: AddressingModes::IndirectX, op: Op::Sta },  // STA
        0x2 => Instruction { opcode, len: 2, cycle: 2, addressing_mode: AddressingModes::Immediate, op: Op::Nop },  // NOP
        0x3 => Instruction { opcode, len: 2, cycle: 6, addressing_mode: AddressingModes::IndirectX, op: Op::Sax },  // SAX
        0x4 => Instruction { opcode, len: 2, cycle: 3, addressing_mode: AddressingModes::ZeroPage, op: Op::Sty },  // STY
        0x5 => Instruction { opcode, len: 2, cycle: 3, addressing_mode: AddressingModes::ZeroPage, op: Op::Sta },  // STA
        0x6 => Instruction { opcode, len: 2, cycle: 3, addressing_mode: AddressingModes::ZeroPage, op: Op::Stx },  // STX
        0x7 => Instruction { opcode, len: 2, cycle: 3, addressing_mode: AddressingModes::ZeroPage, op: Op::Sax },  // SAX
        0x8 => Instruction { opcode, len: 1, cycle: 2, addressing_mode: AddressingModes::Implied, op: Op::Dey },  // DEY
        0x9 => Instruction { opcode, len: 2, cycle: 2, addressing_mode: AddressingModes::Immediate, op: Op::Nop },  // NOP
        0xA => Instruction { opcode, len: 1, cycle: 2, addressing_mode: AddressingModes::Implied, op: Op::Txa },  // TXA
        0xB => Instruction { opcode, len: 2, cycle: 3, addressing_mode: AddressingModes::Immediate, op: Op::Xaa },  // XAA
        0xC => Instruction { opcode, len: 3, cycle: 4, addressing_mode: AddressingModes::Absolute, op: Op::Sty },  // STY
        0xD => Instruction { opcode, len: 3, cycle: 4, addressing_mode: AddressingModes::Absolute, op: Op::Sta },  // STA
        0xE => Instruction { opcode, len: 3, cycle: 4, addressing_mode: AddressingModes::Absolute, op: Op::Stx },  // STX
        _ => Instruction { opcode, len: 3, cycle: 4, addressing_mode: AddressingModes::Absolute, op: Op::Sax },  // SAX
    }
}

/// Row 0x9 of the opcode matrix: opcodes 0x90 through 0x9F.
pub open spec fn decode_row_9(opcode: u8) -> Instruction {
    match opcode % 0x10 {
        0x0 => Instruction { opcode, len: 2, cycle: 2, addressing_mode: AddressingModes::Relative, op: Op::Bcc },  // BCC
        0x1 => Instruction { opcode, len: 2, cycle: 6, addressing_mode: AddressingModes::IndirectY, op: Op::Sta },  // STA
        0x2 => Instruction { opcode, len: 1, cycle: 2, addressing_mode: AddressingModes::Implied, op: Op::Kil },  // KIL
        0x3 => Instruction { opcode, len: 2, cycle: 8, addressing_mode: AddressingModes::IndirectY, op: Op::Ahx },  // AHX
        0x4 => Instruction { opcode, len: 2, cycle: 4, addressing_mode: AddressingModes::ZeroPageX, op: Op::Sty },  // STY
        0x5 => Instruction { opcode, len: 2, cycle: 4, addressing_mode: AddressingModes::ZeroPageX, op: Op::Sta },  // STA
        0x6 => Instruction { opcode, len: 2, cycle: 4, addressing_mode: AddressingModes::ZeroPageY, op: Op::Stx },  // STX
        0x7 => Instruction { opcode, len: 2, cycle: 4, addressing_mode: AddressingModes::ZeroPageY, op: Op::Sax },  // SAX
        0x8 => Instruction { opcode, len: 1, cycle: 2, addressing_mode: AddressingModes::Implied, op: Op::Tya },  // TYA
        0x9 => Instruction { opcode, len: 3, cycle: 5, addressing_mode: AddressingModes::AbsoluteY, op: Op::Sta },  // STA
        0xA => Instruction { opcode, len: 1, cycle: 2, addressing_mode: AddressingModes::Implied, op: Op::Txs },  // TXS
        0xB => Instruction { opcode, len: 3, cycle: 2, addressing_mode: AddressingModes::AbsoluteY, op: Op::Tas },  // TAS
        0xC => Instruction { opcode, len: 3, cycle: 4, addressing_mode: AddressingModes::AbsoluteX, op: Op::Shy },  // SHY
        0xD => Instruction { opcode, len: 3, cycle: 5, addressing_mode: AddressingModes::AbsoluteX, op: Op::Sta },  // STA
        0xE => Instruction { opcode, len: 3, cycle: 4, addressing_mode: AddressingModes::AbsoluteY, op: Op::Shx },  // SHX
        _ => Instruction { opcode, len: 3, cycle: 4, addressing_mode: AddressingModes::AbsoluteY, op: Op::Ahx },  // AHX
    }
}

/// Row 0xA of the opcode matrix: opcodes 0xA0 through 0xAF.
pub open spec fn decode_row_a(opcode: u8) -> Instruction {
    match opcode % 0x10 {
        0x0 => Instruction { opcode, len: 2, cycle: 2, addressing_mode: AddressingModes::Immediate, op: Op::Ldy },  // LDY
        0x1 => Instruction { opcode, len: 2, cycle: 6, addressing_mode: AddressingModes::IndirectX, op: Op::Lda },  // LDA
        0x2 => Instruction { opcode, len: 2, cycle: 2, addressing_mode: AddressingModes::Immediate, op: Op::Ldx },  // LDX
        0x3 => Instruction { opcode, len: 2, cycle: 6, addressing_mode: AddressingModes::IndirectX, op: Op::Lax },  // LAX
        0x4 => Instruction { opcode, len: 2, cycle: 3, addressing_mode: AddressingModes::ZeroPage, op: Op::Ldy },  // LDY
        0x5 => Instruction { opcode, len: 2, cycle: 3, addressing_mode: AddressingModes::ZeroPage, op: Op::Lda },  // LDA
        0x6 => Instruction { opcode, len: 2, cycle: 3, addressing_mode: AddressingModes::ZeroPage, op: Op::Ldx },  // LDX
        0x7 => Instruction { opcode, len: 2, cycle: 3, addressing_mode: AddressingModes::ZeroPage, op: Op::Lax },  // LAX
        0x8 => Instruction { opcode, len: 1, cycle: 2, addressing_mode: AddressingModes::Implied, op: Op::Tay },  // TAY
        0x9 => Instruction { opcode, len: 2, cycle: 2, addressing_mode: AddressingModes::Immediate, op: Op::Lda },  // LDA
        0xA => Instruction { opcode, len: 1, cycle: 2, addressing_mode: AddressingModes::Implied, op: Op::Tax },  // TAX
        0xB => Instruction { opcode, len: 2, cycle: 3, addressing_mode: AddressingModes::Immediate, op: Op::Lxa },  // LXA
        0xC => Instruction { opcode, len: 3, cycle: 4, addressing_mode: AddressingModes::Absolute, op: Op::Ldy },  // LDY
        0xD => Instruction { opcode, len: 3, cycle: 4, addressing_mode: AddressingModes::Absolute, op: Op::Lda },  // LDA
        0xE => Instruction { opcode, len: 3, cycle: 4, addressing_mode: AddressingModes::Absolute, op: Op::Ldx },  // LDX
        _ => Instruction { opcode, len: 3, cycle: 4, addressing_mode: AddressingModes::Absolute, op: Op::Lax },  // LAX
    }
}

/// Row 0xB of the opcode matrix: opcodes 0xB0 through 0xBF.
pub open spec fn decode_row_b(opcode: u8) -> Instruction {
    match opcode % 0x10 {
        0x0 => Instruction { opcode, len: 2, cycle: 2, addressing_mode: AddressingModes::Relative, op: Op::Bcs },  // BCS
        0x1 => Instruction { opcode, len: 2, cycle: 5, addressing_mode: AddressingModes::IndirectY, op: Op::Lda },  // LDA
        0x2 => Instruction { opcode, len: 1, cycle: 2, addressing_mode: AddressingModes::Implied, op: Op::Kil },  // KIL
        0x3 => Instruction { opcode, len: 2, cycle: 5, addressing_mode: AddressingModes::IndirectY, op: Op::Lax },  // LAX
        0x4 => Instruction { opcode, len: 2, cycle: 4, addressing_mode: AddressingModes::ZeroPageX, op: Op::Ldy },  // LDY
        0x5 => Instruction { opcode, len: 2, cycle: 4, addressing_mode: AddressingModes::ZeroPageX, op: Op::Lda },  // LDA
        0x6 => Instruction { opcode, len: 2, cycle: 4, addressing_mode: AddressingModes::ZeroPageY, op: Op::Ldx },  // LDX
        0x7 => Instruction { opcode, len: 2, cycle: 4, addressing_mode: AddressingModes::ZeroPageY, op: Op::Lax },  // LAX
        0x8 => Instruction { opcode, len: 1, cycle: 2, addressing_mode: AddressingModes::Implied, op: Op::Clv },  // CLV
        0x9 => Instruction { opcode, len: 3, cycle: 4, addressing_mode: AddressingModes::AbsoluteY, op: Op::Lda },  // LDA
        0xA => Instruction { opcode, len: 1, cycle: 2, addressing_mode: AddressingModes::Implied, op: Op::Tsx },  // TSX
        0xB => Instruction { opcode, len: 3, cycle: 2, addressing_mode: AddressingModes::AbsoluteY, op: Op::Las },  // LAS
        0xC => Instruction { opcode, len: 3, cycle: 4, addressing_mode: AddressingModes::AbsoluteX, op: Op::Ldy },  // LDY
        0xD => Instruction { opcode, len: 3, cycle: 4, addressing_mode: AddressingModes::AbsoluteX, op: Op::Lda },  // LDA
        0xE => Instruction { opcode, len: 3, cycle: 4, addressing_mode: AddressingModes::AbsoluteY, op: Op::Ldx },  // LDX
        _ => Instruction { opcode, len: 3, cycle: 4, addressing_mode: AddressingModes::AbsoluteY, op: Op::Lax },  // LAX
    }
}

/// Row 0xC of the opcode matrix: opcodes 0xC0 through 0xCF.
pub open spec fn decode_row_c(opcode: u8) -> Instruction {
    match opcode % 0x10 {
        0x0 => Instruction { opcode, len: 2, cycle: 2, addressing_mode: AddressingModes::Immediate, op: Op::Cpy },  // CPY
        0x1 => Instruction { opcode, len: 2, cycle: 6, addressing_mode: AddressingModes::IndirectX, op: Op::Cmp },  // CMP
        0x2 => Instruction { opcode, len: 2, cycle: 2, addressing_mode: AddressingModes::Immediate, op: Op::Nop },  // NOP
        0x3 => Instruction { opcode, len: 2, cycle: 8, addressing_mode: AddressingModes::IndirectX, op: Op::Dcp },  // DCP
        0x4 => Instruction { opcode, len: 2, cycle: 3, addressing_mode: AddressingModes::ZeroPage, op: Op::Cpy },  // CPY
        0x5 => Instruction { opcode, len: 2, cycle: 3, addressing_mode: AddressingModes::ZeroPage, op: Op::Cmp },  // CMP
        0x6 => Instruction { opcode, len: 2, cycle: 5, addressing_mode: AddressingModes::ZeroPage, op: Op::Dec },  // DEC
        0x7 => Instruction { opcode, len: 2, cycle: 5, addressing_mode: AddressingModes::ZeroPage, op: Op::Dcp },  // DCP
        0x8 => Instruction { opcode, len: 1, cycle: 2, addressing_mode: AddressingModes::Implied, op: Op::Iny },  // INY
        0x9 => Instruction { opcode, len: 2, cycle: 2, addressing_mode: AddressingModes::Immediate, op: Op::Cmp },  // CMP
        0xA => Instruction { opcode, len: 1, cycle: 2, addressing_mode: AddressingModes::Implied, op: Op::Dex },  // DEX
        0xB => Instruction { opcode, len: 2, cycle: 2, addressing_mode: AddressingModes::Immediate, op: Op::Axs },  // AXS
        0xC => Instruction { opcode, len: 3, cycle: 4, addressing_mode: AddressingModes::Absolute, op: Op::Cpy },  // CPY
        0xD => Instruction { opcode, len: 3, cycle: 4, addressing_mode: AddressingModes::Absolute, op: Op::Cmp },  // CMP
        0xE => Instruction { opcode, len: 3, cycle: 6, addressing_mode: AddressingModes::Absolute, op: Op::Dec },  // DEC
        _ => Instruction { opcode, len: 3, cycle: 6, addressing_mode: AddressingModes::Absolute, op: Op::Dcp },  // DCP
    }
}

/// Row 0xD of the opcode matrix: opcodes 0xD0 through 0xDF.
pub open spec fn decode_row_d(opcode: u8) -> Instruction {
    match opcode % 0x10 {
        0x0 => Instruction { opcode, len: 2, cycle: 2, addressing_mode: AddressingModes::Relative, op: Op::Bne },  // BNE
        0x1 => Instruction { opcode, len: 2, cycle: 5, addressing_mode: AddressingModes::IndirectY, op: Op::Cmp },  // CMP
        0x2 => Instruction { opcode, len: 1, cycle: 2, addressing_mode: AddressingModes::Implied, op: Op::Kil },  // KIL
        0x3 => Instruction { opcode, len: 2, cycle: 8, addressing_mode: AddressingModes::IndirectY, op: Op::Dcp },  // DCP
        0x4 => Instruction { opcode, len: 2, cycle: 4, addressing_mode: AddressingModes::ZeroPageX, op: Op::Nop },  // NOP
        0x5 => Instruction { opcode, len: 2, cycle: 4, addressing_mode: AddressingModes::ZeroPageX, op: Op::Cmp },  // CMP
        0x6 => Instruction { opcode, len: 2, cycle: 6, addressing_mode: AddressingModes::ZeroPageX, op: Op::Dec },  // DEC
        0x7 => Instruction { opcode, len: 2, cycle: 6, addressing_mode: AddressingModes::ZeroPageX, op: Op::Dcp },  // DCP
        0x8 => Instruction { opcode, len: 1, cycle: 2, addressing_mode: AddressingModes::Implied, op: Op::Cld },  // CLD
        0x9 => Instruction { opcode, len: 3, cycle: 4, addressing_mode: AddressingModes::AbsoluteY, op: Op::Cmp },  // CMP
        0xA => Instruction { opcode, len: 1, cycle: 2, addressing_mode: AddressingModes::Implied, op: Op::Nop },  // NOP
        0xB => Instruction { opcode, len: 3, cycle: 7, addressing_mode: AddressingModes::AbsoluteY, op: Op::Dcp },  // DCP
        0xC => Instruction { opcode, len: 3, cycle: 4, addressing_mode: AddressingModes::AbsoluteX, op: Op::Nop },  // NOP
        0xD => Instruction { opcode, len: 3, cycle: 4, addressing_mode: AddressingModes::AbsoluteX, op: Op::Cmp },  // CMP
        0xE => Instruction { opcode, len: 3, cycle: 7, addressing_mode: AddressingModes::AbsoluteX, op: Op::Dec },  // DEC
        _ => Instruction { opcode, len: 3, cycle: 7, addressing_mode: AddressingModes::AbsoluteX, op: Op::Dcp },  // DCP
    }
}

/// Row 0xE of the opcode matrix: opcodes 0xE0 through 0xEF.
pub open spec fn decode_row_e(opcode: u8) -> Instruction {
    match opcode % 0x10 {
        0x0 => Instruction { opcode, len: 2, cycle: 2, addressing_mode: AddressingModes::Immediate, op: Op::Cpx },  // CPX
        0x1 => Instruction { opcode, len: 2, cycle: 6, addressing_mode: AddressingModes::IndirectX, op: Op::Sbc },  // SBC
        0x2 => Instruction { opcode, len: 2, cycle: 2, addressing_mode: AddressingModes::Immediate, op: Op::Nop },  // NOP
        0x3 => Instruction { opcode, len: 2, cycle: 8, addressing_mode: AddressingModes::IndirectX, op: Op::Isc },  // ISC
        0x4 => Instruction { opcode, len: 2, cycle: 3, addressing_mode: AddressingModes::ZeroPage, op: Op::Cpx },  // CPX
        0x5 => Instruction { opcode, len: 2, cycle: 3, addressing_mode: AddressingModes::ZeroPage, op: Op::Sbc },  // SBC
        0x6 => Instruction { opcode, len: 2, cycle: 5, addressing_mode: AddressingModes::ZeroPage, op: Op::Inc },  // INC
        0x7 => Instruction { opcode, len: 2, cycle: 5, addressing_mode: AddressingModes::ZeroPage, op: Op::Isc },  // ISC
        0x8 => Instruction { opcode, len: 1, cycle: 2, addressing_mode: AddressingModes::Implied, op: Op::Inx },  // INX
        0x9 => Instruction { opcode, len: 2, cycle: 2, addressing_mode: AddressingModes::Immediate, op: Op::Sbc },  // SBC
        0xA => Instruction { opcode, len: 1, cycle: 2, addressing_mode: AddressingModes::Implied, op: Op::Nop },  // NOP
        0xB => Instruction { opcode, len: 2, cycle: 2, addressing_mode: AddressingModes::Immediate, op: Op::Sbc },  // SBC
        0xC => Instruction { opcode, len: 3, cycle: 4, addressing_mode: AddressingModes::Absolute, op: Op::Cpx },  // CPX
        0xD => Instruction { opcode, len: 3, cycle: 4, addressing_mode: AddressingModes::Absolute, op: Op::Sbc },  // SBC
        0xE => Instruction { opcode, len: 3, cycle: 6, addressing_mode: AddressingModes::Absolute, op: Op::Inc },  // INC
        _ => Instruction { opcode, len: 3, cycle: 6, addressing_mode: AddressingModes::Absolute, op: Op::Isc },  // ISC
    }
}

/// Row 0xF of the opcode matrix: opcodes 0xF0 through 0xFF.
pub open spec fn decode_row_f(opcode: u8) -> Instruction {
    match opcode % 0x10 {
        0x0 => Instruction { opcode, len: 2, cycle: 2, addressing_mode: AddressingModes::Relative, op: Op::Beq },  // BEQ
        0x1 => Instruction { opcode, len: 2, cycle: 5, addressing_mode: AddressingModes::IndirectY, op: Op::Sbc },  // SBC
        0x2 => Instruction { opcode, len: 1, cycle: 2, addressing_mode: AddressingModes::Implied, op: Op::Kil },  // KIL
        0x3 => Instruction { opcode, len: 2, cycle: 8, addressing_mode: AddressingModes::IndirectY, op: Op::Isc },  // ISC
        0x4 => Instruction { opcode, len: 2, cycle: 4, addressing_mode: AddressingModes::ZeroPageX, op: Op::Nop },  // NOP
        0x5 => Instruction { opcode, len: 2, cycle: 4, addressing_mode: AddressingModes::ZeroPageX, op: Op::Sbc },  // SBC
        0x6 => Instruction { opcode, len: 2, cycle: 6, addressing_mode: AddressingModes::ZeroPageX, op: Op::Inc },  // INC
        0x7 => Instruction { opcode, len: 2, cycle: 6, addressing_mode: AddressingModes::ZeroPageX, op: Op::Isc },  // ISC
        0x8 => Instruction { opcode, len: 1, cycle: 2, addressing_mode: AddressingModes::Implied, op: Op::Sed },  // SED
        0x9 => Instruction { opcode, len: 3, cycle: 4, addressing_mode: AddressingModes::AbsoluteY, op: Op::Sbc },  // SBC
        0xA => Instruction { opcode, len: 1, cycle: 2, addressing_mode: AddressingModes::Implied, op: Op::Nop },  // NOP
        0xB => Instruction { opcode, len: 3, cycle: 7, addressing_mode: AddressingModes::AbsoluteY, op: Op::Isc },  // ISC
        0xC => Instruction { opcode, len: 3, cycle: 4, addressing_mode: AddressingModes::AbsoluteX, op: Op::Nop },  // NOP
        0xD => Instruction { opcode, len: 3, cycle: 4, addressing_mode: AddressingModes::AbsoluteX, op: Op::Sbc },  // SBC
        0xE => Instruction { opcode, len: 3, cycle: 7, addressing_mode: AddressingModes::AbsoluteX, op: Op::Inc },  // INC
        _ => Instruction { opcode, len: 3, cycle: 7, addressing_mode: AddressingModes::AbsoluteX, op: Op::Isc },  // ISC
    }
}

/// Internal consistency of the table: every entry's encoded length is one
/// opcode byte plus exactly the operand bytes its addressing mode
/// consumes.
pub proof fn lemma_decode_len_consistent(opcode: u8)
    ensures
        decode_spec(opcode).len == 1 + decode_spec(opcode).addressing_mode.operand_len(),
{
}

/// The table maps every byte to itself: the descriptor's opcode field is
/// the byte that was decoded.
pub proof fn lemma_decode_opcode_field(opcode: u8)
    ensures
        decode_spec(opcode).opcode == opcode,
{
}

} // verus!
