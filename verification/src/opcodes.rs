//! A partial decode table covering only the documented instruction set.
//!
//! Unlike the total table in `Instruction::from_opcode`, this table rejects
//! every byte outside the documented set with a `NotFoundError` carrying
//! the byte, exercising the decode-error path of the engine's interface:
//! decoding is pure, so a failed decode mutates nothing.  Entries shared
//! with the total table agree with it exactly.

use vstd::prelude::*;

use crate::addressing::AddressingModes;
use crate::errors::NotFoundError;
use crate::instruction::decode_spec;

verus! {

/// Metadata for one documented opcode: the byte, encoded length, base
/// cycle count and addressing mode.
#[derive(Clone, Copy, Debug, PartialEq, Eq, Structural)]
pub struct Opcode {
    pub code: u8,
    pub len: u8,
    pub cycle: u8,
    pub addressing_mode: AddressingModes,
}

/// Whether a byte is one of the documented opcodes.  Laid out by the
/// opcode's high nibble, as the decode matrix is.
pub open spec fn is_documented(code: u8) -> bool {
    match code / 0x10 {
        0x0 => match code % 0x10 { 0x0 | 0x1 | 0x5 | 0x6 | 0x8 | 0x9 | 0xA | 0xD | 0xE => true, _ => false },
        0x1 => match code % 0x10 { 0x0 | 0x1 | 0x5 | 0x6 | 0x8 | 0x9 | 0xD | 0xE => true, _ => false },
        0x2 => match code % 0x10 { 0x0 | 0x1 | 0x4 | 0x5 | 0x6 | 0x8 | 0x9 | 0xA | 0xC | 0xD | 0xE => true, _ => false },
        0x3 => match code % 0x10 { 0x0 | 0x1 | 0x5 | 0x6 | 0x8 | 0x9 | 0xD | 0xE => true, _ => false },
        0x4 => match code % 0x10 { 0x0 | 0x1 | 0x5 | 0x6 | 0x8 | 0x9 | 0xA | 0xC | 0xD | 0xE => true, _ => false },
        0x5 => match code % 0x10 { 0x0 | 0x1 | 0x5 | 0x6 | 0x8 | 0x9 | 0xD | 0xE => true, _ => false },
        0x6 => match code % 0x10 { 0x0 | 0x1 | 0x5 | 0x6 | 0x8 | 0x9 | 0xA | 0xC | 0xD | 0xE => true, _ => false },
        0x7 => match code % 0x10 { 0x0 | 0x1 | 0x5 | 0x6 | 0x8 | 0x9 | 0xD | 0xE => true, _ => false },
        0x8 => match code % 0x10 { 0x1 | 0x4 | 0x5 | 0x6 | 0x8 | 0xA | 0xC | 0xD | 0xE => true, _ => false },
        0x9 => match code % 0x10 { 0x0 | 0x1 | 0x4 | 0x5 | 0x6 | 0x8 | 0x9 | 0xA | 0xD => true, _ => false },
        0xA => match code % 0x10 { 0x0 | 0x1 | 0x2 | 0x4 | 0x5 | 0x6 | 0x8 | 0x9 | 0xA | 0xC | 0xD | 0xE => true, _ => false },
        0xB => match code % 0x10 { 0x1 | 0x4 | 0x5 | 0x6 | 0x8 | 0x9 | 0xA | 0xC | 0xD | 0xE => true, _ => false },
        0xC => match code % 0x10 { 0x0 | 0x1 | 0x4 | 0x5 | 0x6 | 0x8 | 0x9 | 0xA | 0xC | 0xD | 0xE => true, _ => false },
        0xD => match code % 0x10 { 0x0 | 0x1 | 0x5 | 0x6 | 0x8 | 0x9 | 0xD | 0xE => true, _ => false },
        0xE => match code % 0x10 { 0x0 | 0x1 | 0x4 | 0x5 | 0x6 | 0x8 | 0x9 | 0xA | 0xC | 0xD | 0xE => true, _ => false },
        _ => match code % 0x10 { 0x0 | 0x1 | 0x5 | 0x6 | 0x8 | 0x9 | 0xD | 0xE => true, _ => false },
    }
}

impl Opcode {
    pub fn new(code: u8, len: u8, cycle: u8, addressing_mode: AddressingModes) -> (r: Self)
        ensures
            r == (Opcode { code, len, cycle, addressing_mode }),
    {
        Opcode { code, len, cycle, addressing_mode }
    }

    /// Decode a byte against the documented set alone.  A documented byte
    /// yields exactly the total table's entry for it; any other byte is
    /// reported as a decode error naming the byte.
    #[verifier::rlimit(100)]
    pub fn match_opcode(code: u8) -> (r: Result<Opcode, NotFoundError>)
        ensures
            is_documented(code) ==> (r matches Ok(o) && o == (Opcode {
                code,
                len: decode_spec(code).len,
                cycle: decode_spec(code).cycle,
                addressing_mode: decode_spec(code).addressing_mode,
            })),
            !is_documented(code) ==> (r matches Err(e) && e.spec_opcode() == code),
    {
        match code {
            // ADC
            0x61 => Ok(Opcode::new(code, 2, 6, AddressingModes::IndirectX)),
            0x65 => Ok(Opcode::new(code, 2, 3, AddressingModes::ZeroPage)),
            0x69 => Ok(Opcode::new(code, 2, 2, AddressingModes::Immediate)),
            0x6D => Ok(Opcode::new(code, 3, 4, AddressingModes::Absolute)),
            0x71 => Ok(Opcode::new(code, 2, 5, AddressingModes::IndirectY)),
            0x75 => Ok(Opcode::new(code, 2, 4, AddressingModes::ZeroPageX)),
            0x79 => Ok(Opcode::new(code, 3, 4, AddressingModes::AbsoluteY)),
            0x7D => Ok(Opcode::new(code, 3, 4, AddressingModes::AbsoluteX)),
            // AND
            0x21 => Ok(Opcode::new(code, 2, 6, AddressingModes::IndirectX)),
            0x25 => Ok(Opcode::new(code, 2, 3, AddressingModes::ZeroPage)),
            0x29 => Ok(Opcode::new(code, 2, 2, AddressingModes::Immediate)),
            0x2D => Ok(Opcode::new(code, 3, 4, AddressingModes::Absolute)),
            0x31 => Ok(Opcode::new(code, 2, 5, AddressingModes::IndirectY)),
            0x35 => Ok(Opcode::new(code, 2, 4, AddressingModes::ZeroPageX)),
            0x39 => Ok(Opcode::new(code, 3, 4, AddressingModes::AbsoluteY)),
            0x3D => Ok(Opcode::new(code, 3, 4, AddressingModes::AbsoluteX)),
            // ASL
            0x06 => Ok(Opcode::new(code, 2, 5, AddressingModes::ZeroPage)),
            0x0A => Ok(Opcode::new(code, 1, 2, AddressingModes::Accum)),
            0x0E => Ok(Opcode::new(code, 3, 6, AddressingModes::Absolute)),
            0x16 => Ok(Opcode::new(code, 2, 6, AddressingModes::ZeroPageX)),
            0x1E => Ok(Opcode::new(code, 3, 7, AddressingModes::AbsoluteX)),
            // BCC
            0x90 => Ok(Opcode::new(code, 2, 2, AddressingModes::Relative)),
            // BEQ
            0xF0 => Ok(Opcode::new(code, 2, 2, AddressingModes::Relative)),
            // BIT
            0x24 => Ok(Opcode::new(code, 2, 3, AddressingModes::ZeroPage)),
            0x2C => Ok(Opcode::new(code, 3, 4, AddressingModes::Absolute)),
            // BMI
            0x30 => Ok(Opcode::new(code, 2, 2, AddressingModes::Relative)),
            // BNE
            0xD0 => Ok(Opcode::new(code, 2, 2, AddressingModes::Relative)),
            // BPL
            0x10 => Ok(Opcode::new(code, 2, 2, AddressingModes::Relative)),
            // BRK
            0x00 => Ok(Opcode::new(code, 1, 7, AddressingModes::Implied)),
            // BVC
            0x50 => Ok(Opcode::new(code, 2, 2, AddressingModes::Relative)),
            // BVS
            0x70 => Ok(Opcode::new(code, 2, 2, AddressingModes::Relative)),
            // CLC
            0x18 => Ok(Opcode::new(code, 1, 2, AddressingModes::Implied)),
            // CLD
            0xD8 => Ok(Opcode::new(code, 1, 2, AddressingModes::Implied)),
            // CLI
            0x58 => Ok(Opcode::new(code, 1, 2, AddressingModes::Implied)),
            // CLV
            0xB8 => Ok(Opcode::new(code, 1, 2, AddressingModes::Implied)),
            // CMP
            0xC1 => Ok(Opcode::new(code, 2, 6, AddressingModes::IndirectX)),
            0xC5 => Ok(Opcode::new(code, 2, 3, AddressingModes::ZeroPage)),
            0xC9 => Ok(Opcode::new(code, 2, 2, AddressingModes::Immediate)),
            0xCD => Ok(Opcode::new(code, 3, 4, AddressingModes::Absolute)),
            0xD1 => Ok(Opcode::new(code, 2, 5, AddressingModes::IndirectY)),
            0xD5 => Ok(Opcode::new(code, 2, 4, AddressingModes::ZeroPageX)),
            0xD9 => Ok(Opcode::new(code, 3, 4, AddressingModes::AbsoluteY)),
            0xDD => Ok(Opcode::new(code, 3, 4, AddressingModes::AbsoluteX)),
            // CPX
            0xE0 => Ok(Opcode::new(code, 2, 2, AddressingModes::Immediate)),
            0xE4 => Ok(Opcode::new(code, 2, 3, AddressingModes::ZeroPage)),
            0xEC => Ok(Opcode::new(code, 3, 4, AddressingModes::Absolute)),
            // CPY
            0xC0 => Ok(Opcode::new(code, 2, 2, AddressingModes::Immediate)),
            0xC4 => Ok(Opcode::new(code, 2, 3, AddressingModes::ZeroPage)),
            0xCC => Ok(Opcode::new(code, 3, 4, AddressingModes::Absolute)),
            // DEC
            0xC6 => Ok(Opcode::new(code, 2, 5, AddressingModes::ZeroPage)),
            0xCE => Ok(Opcode::new(code, 3, 6, AddressingModes::Absolute)),
            0xD6 => Ok(Opcode::new(code, 2, 6, AddressingModes::ZeroPageX)),
            0xDE => Ok(Opcode::new(code, 3, 7, AddressingModes::AbsoluteX)),
            // DEX
            0xCA => Ok(Opcode::new(code, 1, 2, AddressingModes::Implied)),
            // DEY
            0x88 => Ok(Opcode::new(code, 1, 2, AddressingModes::Implied)),
            // EOR
            0x41 => Ok(Opcode::new(code, 2, 6, AddressingModes::IndirectX)),
            0x45 => Ok(Opcode::new(code, 2, 3, AddressingModes::ZeroPage)),
            0x49 => Ok(Opcode::new(code, 2, 2, AddressingModes::Immediate)),
            0x4D => Ok(Opcode::new(code, 3, 4, AddressingModes::Absolute)),
            0x51 => Ok(Opcode::new(code, 2, 5, AddressingModes::IndirectY)),
            0x55 => Ok(Opcode::new(code, 2, 4, AddressingModes::ZeroPageX)),
            0x59 => Ok(Opcode::new(code, 3, 4, AddressingModes::AbsoluteY)),
            0x5D => Ok(Opcode::new(code, 3, 4, AddressingModes::AbsoluteX)),
            // INC
            0xE6 => Ok(Opcode::new(code, 2, 5, AddressingModes::ZeroPage)),
            0xEE => Ok(Opcode::new(code, 3, 6, AddressingModes::Absolute)),
            0xF6 => Ok(Opcode::new(code, 2, 6, AddressingModes::ZeroPageX)),
            0xFE => Ok(Opcode::new(code, 3, 7, AddressingModes::AbsoluteX)),
            // INX
            0xE8 => Ok(Opcode::new(code, 1, 2, AddressingModes::Implied)),
            // INY
            0xC8 => Ok(Opcode::new(code, 1, 2, AddressingModes::Implied)),
            // JMP
            0x4C => Ok(Opcode::new(code, 3, 3, AddressingModes::Absolute)),
            0x6C => Ok(Opcode::new(code, 3, 5, AddressingModes::Indirect)),
            // JSR
            0x20 => Ok(Opcode::new(code, 3, 6, AddressingModes::Absolute)),
            // LDA
            0xA1 => Ok(Opcode::new(code, 2, 6, AddressingModes::IndirectX)),
            0xA5 => Ok(Opcode::new(code, 2, 3, AddressingModes::ZeroPage)),
            0xA9 => Ok(Opcode::new(code, 2, 2, AddressingModes::Immediate)),
            0xAD => Ok(Opcode::new(code, 3, 4, AddressingModes::Absolute)),
            0xB1 => Ok(Opcode::new(code, 2, 5, AddressingModes::IndirectY)),
            0xB5 => Ok(Opcode::new(code, 2, 4, AddressingModes::ZeroPageX)),
            0xB9 => Ok(Opcode::new(code, 3, 4, AddressingModes::AbsoluteY)),
            0xBD => Ok(Opcode::new(code, 3, 4, AddressingModes::AbsoluteX)),
            // LDX
            0xA2 => Ok(Opcode::new(code, 2, 2, AddressingModes::Immediate)),
            0xA6 => Ok(Opcode::new(code, 2, 3, AddressingModes::ZeroPage)),
            0xAE => Ok(Opcode::new(code, 3, 4, AddressingModes::Absolute)),
            0xB6 => Ok(Opcode::new(code, 2, 4, AddressingModes::ZeroPageY)),
            0xBE => Ok(Opcode::new(code, 3, 4, AddressingModes::AbsoluteY)),
            // LDY
            0xA0 => Ok(Opcode::new(code, 2, 2, AddressingModes::Immediate)),
            0xA4 => Ok(Opcode::new(code, 2, 3, AddressingModes::ZeroPage)),
            0xAC => Ok(Opcode::new(code, 3, 4, AddressingModes::Absolute)),
            0xB4 => Ok(Opcode::new(code, 2, 4, AddressingModes::ZeroPageX)),
            0xBC => Ok(Opcode::new(code, 3, 4, AddressingModes::AbsoluteX)),
            // LSR
            0x46 => Ok(Opcode::new(code, 2, 5, AddressingModes::ZeroPage)),
            0x4A => Ok(Opcode::new(code, 1, 2, AddressingModes::Accum)),
            0x4E => Ok(Opcode::new(code, 3, 6, AddressingModes::Absolute)),
            0x56 => Ok(Opcode::new(code, 2, 6, AddressingModes::ZeroPageX)),
            0x5E => Ok(Opcode::new(code, 3, 7, AddressingModes::AbsoluteX)),
            // NOP
            0xEA => Ok(Opcode::new(code, 1, 2, AddressingModes::Implied)),
            // ORA
            0x01 => Ok(Opcode::new(code, 2, 6, AddressingModes::IndirectX)),
            0x05 => Ok(Opcode::new(code, 2, 3, AddressingModes::ZeroPage)),
            0x09 => Ok(Opcode::new(code, 2, 2, AddressingModes::Immediate)),
            0x0D => Ok(Opcode::new(code, 3, 4, AddressingModes::Absolute)),
            0x11 => Ok(Opcode::new(code, 2, 5, AddressingModes::IndirectY)),
            0x15 => Ok(Opcode::new(code, 2, 4, AddressingModes::ZeroPageX)),
            0x19 => Ok(Opcode::new(code, 3, 4, AddressingModes::AbsoluteY)),
            0x1D => Ok(Opcode::new(code, 3, 4, AddressingModes::AbsoluteX)),
            // PHA
            0x48 => Ok(Opcode::new(code, 1, 3, AddressingModes::Implied)),
            // PHP
            0x08 => Ok(Opcode::new(code, 1, 3, AddressingModes::Implied)),
            // PLA
            0x68 => Ok(Opcode::new(code, 1, 4, AddressingModes::Implied)),
            // PLP
            0x28 => Ok(Opcode::new(code, 1, 4, AddressingModes::Implied)),
            // ROL
            0x26 => Ok(Opcode::new(code, 2, 5, AddressingModes::ZeroPage)),
            0x2A => Ok(Opcode::new(code, 1, 2, AddressingModes::Accum)),
            0x2E => Ok(Opcode::new(code, 3, 6, AddressingModes::Absolute)),
            0x36 => Ok(Opcode::new(code, 2, 6, AddressingModes::ZeroPageX)),
            0x3E => Ok(Opcode::new(code, 3, 7, AddressingModes::AbsoluteX)),
            // ROR
            0x66 => Ok(Opcode::new(code, 2, 5, AddressingModes::ZeroPage)),
            0x6A => Ok(Opcode::new(code, 1, 2, AddressingModes::Accum)),
            0x6E => Ok(Opcode::new(code, 3, 6, AddressingModes::Absolute)),
            0x76 => Ok(Opcode::new(code, 2, 6, AddressingModes::ZeroPageX)),
            0x7E => Ok(Opcode::new(code, 3, 7, AddressingModes::AbsoluteX)),
            // RTI
            0x40 => Ok(Opcode::new(code, 1, 6, AddressingModes::Implied)),
            // RTS
            0x60 => Ok(Opcode::new(code, 1, 6, AddressingModes::Implied)),
            // SBC
            0xE1 => Ok(Opcode::new(code, 2, 6, AddressingModes::IndirectX)),
            0xE5 => Ok(Opcode::new(code, 2, 3, AddressingModes::ZeroPage)),
            0xE9 => Ok(Opcode::new(code, 2, 2, AddressingModes::Immediate)),
            0xED => Ok(Opcode::new(code, 3, 4, AddressingModes::Absolute)),
            0xF1 => Ok(Opcode::new(code, 2, 5, AddressingModes::IndirectY)),
            0xF5 => Ok(Opcode::new(code, 2, 4, AddressingModes::ZeroPageX)),
            0xF9 => Ok(Opcode::new(code, 3, 4, AddressingModes::AbsoluteY)),
            0xFD => Ok(Opcode::new(code, 3, 4, AddressingModes::AbsoluteX)),
            // SEC
            0x38 => Ok(Opcode::new(code, 1, 2, AddressingModes::Implied)),
            // SED
            0xF8 => Ok(Opcode::new(code, 1, 2, AddressingModes::Implied)),
            // SEI
            0x78 => Ok(Opcode::new(code, 1, 2, AddressingModes::Implied)),
            // STA
            0x81 => Ok(Opcode::new(code, 2, 6, AddressingModes::IndirectX)),
            0x85 => Ok(Opcode::new(code, 2, 3, AddressingModes::ZeroPage)),
            0x8D => Ok(Opcode::new(code, 3, 4, AddressingModes::Absolute)),
            0x91 => Ok(Opcode::new(code, 2, 6, AddressingModes::IndirectY)),
            0x95 => Ok(Opcode::new(code, 2, 4, AddressingModes::ZeroPageX)),
            0x99 => Ok(Opcode::new(code, 3, 5, AddressingModes::AbsoluteY)),
            0x9D => Ok(Opcode::new(code, 3, 5, AddressingModes::AbsoluteX)),
            // STX
            0x86 => Ok(Opcode::new(code, 2, 3, AddressingModes::ZeroPage)),
            0x8E => Ok(Opcode::new(code, 3, 4, AddressingModes::Absolute)),
            0x96 => Ok(Opcode::new(code, 2, 4, AddressingModes::ZeroPageY)),
            // STY
            0x84 => Ok(Opcode::new(code, 2, 3, AddressingModes::ZeroPage)),
            0x8C => Ok(Opcode::new(code, 3, 4, AddressingModes::Absolute)),
            0x94 => Ok(Opcode::new(code, 2, 4, AddressingModes::ZeroPageX)),
            // TAX
            0xAA => Ok(Opcode::new(code, 1, 2, AddressingModes::Implied)),
            // TAY
            0xA8 => Ok(Opcode::new(code, 1, 2, AddressingModes::Implied)),
            // TSX
            0xBA => Ok(Opcode::new(code, 1, 2, AddressingModes::Implied)),
            // TXA
            0x8A => Ok(Opcode::new(code, 1, 2, AddressingModes::Implied)),
            // TXS
            0x9A => Ok(Opcode::new(code, 1, 2, AddressingModes::Implied)),
            // TYA
            0x98 => Ok(Opcode::new(code, 1, 2, AddressingModes::Implied)),
            _ => Err(NotFoundError::new(code)),
        }
    }
}

} // verus!
