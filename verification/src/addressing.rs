//! The thirteen addressing modes and their resolution semantics.
//!
//! A resolver consumes the operand bytes after the opcode (advancing the
//! program counter past them), and yields an effective address where the
//! mode has one, plus a flag recording whether indexing crossed a 256-byte
//! page boundary (which costs an extra cycle on read instructions).
//! `resolve_spec` is the specification all executable resolvers are proved
//! against.

use vstd::prelude::*;

use crate::cpu::Cpu;
use crate::semantics::operand_of;
use crate::state::{make_addr, page_of, wadd16, wadd8, CpuState};

verus! {

/// The closed set of addressing modes of the 6502.
#[derive(Clone, Copy, Debug, PartialEq, Eq, Structural)]
pub enum AddressingModes {
    Absolute,
    AbsoluteX,
    AbsoluteY,
    Accum,
    Immediate,
    Implied,
    Indirect,
    IndirectX,
    IndirectY,
    Relative,
    ZeroPage,
    ZeroPageX,
    ZeroPageY,
}

impl AddressingModes {
    /// Number of operand bytes the mode consumes after the opcode byte.
    pub open spec fn operand_len(self) -> u16 {
        match self {
            AddressingModes::Accum => 0,
            AddressingModes::Implied => 0,
            AddressingModes::Absolute => 2,
            AddressingModes::AbsoluteX => 2,
            AddressingModes::AbsoluteY => 2,
            AddressingModes::Indirect => 2,
            _ => 1,
        }
    }
}

/// Outcome of resolving an addressing mode: the program counter after the
/// operand bytes, the effective address if the mode has one, and whether
/// indexing crossed a page.
pub ghost struct Resolved {
    pub pc: u16,
    pub addr: Option<u16>,
    pub crossed: bool,
}

/// The address the two-byte little-endian operand at `pc` denotes.
pub open spec fn abs_operand(s: CpuState, pc: u16) -> u16 {
    make_addr(s.read(pc), s.read(wadd16(pc, 1)))
}

/// The pointer target of the Indirect mode, reproducing the hardware quirk:
/// when the pointer's low byte is 0xFF, the target's high byte is fetched
/// from the start of the pointer's own page, not from the next page.
pub open spec fn indirect_target(s: CpuState, ptr: u16) -> u16 {
    let lo = s.read(ptr);
    let hi = if ptr % 0x100 == 0xFF {
        s.read((ptr - 0xFF) as u16)
    } else {
        s.read((ptr + 1) as u16)
    };
    make_addr(lo, hi)
}

/// The 16-bit address held at a zero-page location, with the high byte read
/// from the following zero-page slot, wrapping inside the zero page.
pub open spec fn zero_page_pointer(s: CpuState, zp: u8) -> u16 {
    make_addr(s.read(zp as u16), s.read(wadd8(zp, 1) as u16))
}

/// The operand byte of the Relative mode, sign-extended to 16 bits: a byte
/// with its top bit set is a negative two's-complement offset.
pub open spec fn sign_extend(off: u8) -> u16 {
    if off >= 0x80 {
        (off + 0xFF00) as u16
    } else {
        off as u16
    }
}

/// The branch target of the Relative mode: the operand byte is a
/// two's-complement offset from the program counter after the operand.
pub open spec fn relative_target(pc_after: u16, off: u8) -> u16 {
    wadd16(pc_after, sign_extend(off))
}

/// Resolution of every addressing mode over the machine model.  Only the
/// program counter moves; memory and registers are read, never written.
pub open spec fn resolve_spec(s: CpuState, mode: AddressingModes) -> Resolved {
    match mode {
        AddressingModes::Accum => Resolved { pc: s.pc, addr: None, crossed: false },
        AddressingModes::Implied => Resolved { pc: s.pc, addr: None, crossed: false },
        AddressingModes::Immediate => Resolved {
            pc: wadd16(s.pc, 1),
            addr: Some(s.pc),
            crossed: false,
        },
        AddressingModes::ZeroPage => Resolved {
            pc: wadd16(s.pc, 1),
            addr: Some(s.read(s.pc) as u16),
            crossed: false,
        },
        AddressingModes::ZeroPageX => Resolved {
            pc: wadd16(s.pc, 1),
            addr: Some(wadd8(s.read(s.pc), s.x) as u16),
            crossed: false,
        },
        AddressingModes::ZeroPageY => Resolved {
            pc: wadd16(s.pc, 1),
            addr: Some(wadd8(s.read(s.pc), s.y) as u16),
            crossed: false,
        },
        AddressingModes::Absolute => Resolved {
            pc: wadd16(s.pc, 2),
            addr: Some(abs_operand(s, s.pc)),
            crossed: false,
        },
        AddressingModes::AbsoluteX => {
            let base = abs_operand(s, s.pc);
            let a = wadd16(base, s.x as u16);
            Resolved { pc: wadd16(s.pc, 2), addr: Some(a), crossed: page_of(a) != page_of(base) }
        },
        AddressingModes::AbsoluteY => {
            let base = abs_operand(s, s.pc);
            let a = wadd16(base, s.y as u16);
            Resolved { pc: wadd16(s.pc, 2), addr: Some(a), crossed: page_of(a) != page_of(base) }
        },
        AddressingModes::Indirect => {
            let ptr = abs_operand(s, s.pc);
            Resolved { pc: wadd16(s.pc, 2), addr: Some(indirect_target(s, ptr)), crossed: false }
        },
        AddressingModes::IndirectX => {
            let zp = wadd8(s.read(s.pc), s.x);
            Resolved { pc: wadd16(s.pc, 1), addr: Some(zero_page_pointer(s, zp)), crossed: false }
        },
        AddressingModes::IndirectY => {
            let base = zero_page_pointer(s, s.read(s.pc));
            let a = wadd16(base, s.y as u16);
            Resolved { pc: wadd16(s.pc, 1), addr: Some(a), crossed: page_of(a) != page_of(base) }
        },
        AddressingModes::Relative => {
            let pc1 = wadd16(s.pc, 1);
            Resolved {
                pc: pc1,
                addr: Some(relative_target(pc1, s.read(s.pc))),
                crossed: false,
            }
        },
    }
}

/// Result of fetching an operand: the value where the mode yields one
/// (`None` for Implied), and whether resolution crossed a page and owes an
/// extra cycle.
#[derive(Debug, Clone, Copy, PartialEq, Eq, Structural)]
pub struct Fetched {
    value: Option<u8>,
    add_cycle: bool,
}

impl Fetched {
    /// The operand value carried, if any.
    pub closed spec fn spec_value(self) -> Option<u8> {
        self.value
    }

    /// Whether an extra cycle is owed for a page crossing.
    pub closed spec fn spec_add_cycle(self) -> bool {
        self.add_cycle
    }

    /// A fetched value together with its page-crossing flag.
    pub fn some(value: u8, add_cycle: bool) -> (r: Self)
        ensures
            r.spec_value() == Some(value),
            r.spec_add_cycle() == add_cycle,
    {
        Self { value: Some(value), add_cycle }
    }

    /// A fetched value that cannot owe an extra cycle.
    pub fn no_cycle(value: u8) -> (r: Self)
        ensures
            r.spec_value() == Some(value),
            !r.spec_add_cycle(),
    {
        Self { value: Some(value), add_cycle: false }
    }

    /// No operand value: the result of the Implied mode.
    pub fn none() -> (r: Self)
        ensures
            r.spec_value() is None,
            !r.spec_add_cycle(),
    {
        Self { value: None, add_cycle: false }
    }

    pub fn value(&self) -> (r: Option<u8>)
        ensures
            r == self.spec_value(),
    {
        self.value
    }

    pub fn add_cycle(&self) -> (r: bool)
        ensures
            r == self.spec_add_cycle(),
    {
        self.add_cycle
    }

    pub fn is_some(&self) -> (r: bool)
        ensures
            r == (self.spec_value() is Some),
    {
        self.value.is_some()
    }

    pub fn is_none(&self) -> (r: bool)
        ensures
            r == (self.spec_value() is None),
    {
        self.value.is_none()
    }
}

/// One addressing-mode strategy.  Each implementor names its mode, and
/// `fetch` is its resolution: it consumes the operand bytes, moving the
/// program counter past them and touching nothing else, and yields the
/// operand (none for Implied, the accumulator for Accumulator mode) with
/// the page-crossing flag.
pub trait AddressingMode {
    /// The mode this strategy resolves.
    spec fn mode(&self) -> AddressingModes;

    /// Fetch the operand for this mode from the CPU at its program counter.
    fn fetch(&mut self, ctx: &mut Cpu) -> (r: Fetched)
        requires
            old(ctx).wf(),
        ensures
            final(ctx).wf(),
            ({
                let rs = resolve_spec(old(ctx)@, old(self).mode());
                final(ctx)@ == old(ctx)@.with_pc(rs.pc) && r.spec_add_cycle() == rs.crossed && (
                match old(self).mode() {
                    AddressingModes::Implied => r.spec_value() is None,
                    _ => r.spec_value() == Some(
                        operand_of(old(ctx)@.with_pc(rs.pc), rs.addr),
                    ),
                })
            }),
    ;
}

/// Absolute addressing: a 16-bit little-endian address from the next two
/// bytes.
pub struct Absolute;

impl AddressingMode for Absolute {
    open spec fn mode(&self) -> AddressingModes {
        AddressingModes::Absolute
    }

    fn fetch(&mut self, ctx: &mut Cpu) -> (r: Fetched) {
        ctx.fetch_operand(AddressingModes::Absolute)
    }
}

/// Absolute,X addressing: index X added to the full 16-bit address, with a
/// page-crossing penalty.
pub struct AbsoluteX;

impl AddressingMode for AbsoluteX {
    open spec fn mode(&self) -> AddressingModes {
        AddressingModes::AbsoluteX
    }

    fn fetch(&mut self, ctx: &mut Cpu) -> (r: Fetched) {
        ctx.fetch_operand(AddressingModes::AbsoluteX)
    }
}

/// Absolute,Y addressing: index Y added to the full 16-bit address, with a
/// page-crossing penalty.
pub struct AbsoluteY;

impl AddressingMode for AbsoluteY {
    open spec fn mode(&self) -> AddressingModes {
        AddressingModes::AbsoluteY
    }

    fn fetch(&mut self, ctx: &mut Cpu) -> (r: Fetched) {
        ctx.fetch_operand(AddressingModes::AbsoluteY)
    }
}

/// Accumulator mode: the operand is the accumulator itself; no memory is
/// addressed.
pub struct Accum;

impl AddressingMode for Accum {
    open spec fn mode(&self) -> AddressingModes {
        AddressingModes::Accum
    }

    fn fetch(&mut self, ctx: &mut Cpu) -> (r: Fetched) {
        ctx.fetch_operand(AddressingModes::Accum)
    }
}

/// Immediate addressing: the operand byte follows the opcode directly.
pub struct Immediate;

impl AddressingMode for Immediate {
    open spec fn mode(&self) -> AddressingModes {
        AddressingModes::Immediate
    }

    fn fetch(&mut self, ctx: &mut Cpu) -> (r: Fetched) {
        ctx.fetch_operand(AddressingModes::Immediate)
    }
}

/// Implied mode: the instruction names no operand at all.
pub struct Implied;

impl AddressingMode for Implied {
    open spec fn mode(&self) -> AddressingModes {
        AddressingModes::Implied
    }

    fn fetch(&mut self, ctx: &mut Cpu) -> (r: Fetched) {
        ctx.fetch_operand(AddressingModes::Implied)
    }
}

/// Indirect addressing: the target address is read through a 16-bit
/// pointer, with the hardware's page-wrap quirk on the high byte.
pub struct Indirect;

impl AddressingMode for Indirect {
    open spec fn mode(&self) -> AddressingModes {
        AddressingModes::Indirect
    }

    fn fetch(&mut self, ctx: &mut Cpu) -> (r: Fetched) {
        ctx.fetch_operand(AddressingModes::Indirect)
    }
}

/// Indirect,X addressing: X is added to the operand byte inside the zero
/// page before the pointer is read.
pub struct IndirectX;

impl AddressingMode for IndirectX {
    open spec fn mode(&self) -> AddressingModes {
        AddressingModes::IndirectX
    }

    fn fetch(&mut self, ctx: &mut Cpu) -> (r: Fetched) {
        ctx.fetch_operand(AddressingModes::IndirectX)
    }
}

/// Indirect,Y addressing: a zero-page pointer is read, then Y is added to
/// the full address, with a page-crossing penalty.
pub struct IndirectY;

impl AddressingMode for IndirectY {
    open spec fn mode(&self) -> AddressingModes {
        AddressingModes::IndirectY
    }

    fn fetch(&mut self, ctx: &mut Cpu) -> (r: Fetched) {
        ctx.fetch_operand(AddressingModes::IndirectY)
    }
}

/// Relative addressing: a signed offset from the program counter, used by
/// branches.
pub struct Relative;

impl AddressingMode for Relative {
    open spec fn mode(&self) -> AddressingModes {
        AddressingModes::Relative
    }

    fn fetch(&mut self, ctx: &mut Cpu) -> (r: Fetched) {
        ctx.fetch_operand(AddressingModes::Relative)
    }
}

/// Zero Page addressing: the operand byte is the address's low byte.
pub struct ZeroPage;

impl AddressingMode for ZeroPage {
    open spec fn mode(&self) -> AddressingModes {
        AddressingModes::ZeroPage
    }

    fn fetch(&mut self, ctx: &mut Cpu) -> (r: Fetched) {
        ctx.fetch_operand(AddressingModes::ZeroPage)
    }
}

/// Zero Page,X addressing: X is added with 8-bit wraparound; the address
/// never leaves the zero page.
pub struct ZeroPageX;

impl AddressingMode for ZeroPageX {
    open spec fn mode(&self) -> AddressingModes {
        AddressingModes::ZeroPageX
    }

    fn fetch(&mut self, ctx: &mut Cpu) -> (r: Fetched) {
        ctx.fetch_operand(AddressingModes::ZeroPageX)
    }
}

/// Zero Page,Y addressing: as Zero Page,X but with index Y.
pub struct ZeroPageY;

impl AddressingMode for ZeroPageY {
    open spec fn mode(&self) -> AddressingModes {
        AddressingModes::ZeroPageY
    }

    fn fetch(&mut self, ctx: &mut Cpu) -> (r: Fetched) {
        ctx.fetch_operand(AddressingModes::ZeroPageY)
    }
}

} // verus!
