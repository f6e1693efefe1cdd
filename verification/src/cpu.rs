//! The executable CPU: registers, flags, the flat 64 KiB memory and the
//! halt latch, with every operation proved equal to its effect on the ghost
//! model `CpuState`.
//!
//! `step` runs exactly one fetch-decode-execute round and returns the
//! cycles consumed; it is proved equal to the specification interpreter
//! `step_spec`.  `raise` applies the interrupt vectoring protocol, and
//! `execute` runs a program fragment one instruction at a time.

use vstd::prelude::*;

use crate::addressing::{abs_operand, resolve_spec, zero_page_pointer, AddressingModes, Fetched};
use crate::errors::NotFoundError;
use crate::flags::Flags;
use crate::instruction::{decode_spec, Instruction, Op};
use crate::interrupt::{interrupt_spec, InterruptType, IRQ_VECTOR, NMI_VECTOR, RESET_VECTOR};
use crate::semantics::{load_program_spec, operand_of, run_spec, step_spec};
use crate::state::{addr_hi, addr_lo, make_addr, page_of, wadd16, CpuState, MEMORY_SIZE, STACK_PAGE};

verus! {

/// Power-up value of the program counter.
pub const INITIAL_PC: u16 = 0x34;

/// Power-up value of the stack pointer (an offset into the stack page).
pub const INITIAL_SP: u8 = 0xFD;

/// The CPU with its flat 64 KiB address space.
pub struct Cpu {
    /// Program counter: address of the next opcode byte.
    pub pc: u16,
    /// Stack pointer: offset into the fixed stack page 0x0100..=0x01FF.
    pub sp: u8,
    /// Accumulator.
    pub acc: u8,
    /// Index register X.
    pub x: u8,
    /// Index register Y.
    pub y: u8,
    /// Status flags.
    pub flags: Flags,
    /// The flat byte-addressable memory; always `MEMORY_SIZE` bytes.
    pub memory: Vec<u8>,
    /// Set once a KIL opcode has locked the CPU; a halted CPU ignores
    /// further steps.
    pub halted: bool,
}

/// The machine state at power-up: registers cleared, Interrupt-Disable and
/// Break set, memory all zero, not halted.
pub open spec fn initial_state() -> CpuState {
    CpuState {
        pc: INITIAL_PC,
        sp: INITIAL_SP,
        acc: 0,
        x: 0,
        y: 0,
        flags: Flags::power_up_spec(),
        mem: Seq::new(MEMORY_SIZE as nat, |i: int| 0u8),
        halted: false,
    }
}

impl View for Cpu {
    type V = CpuState;

    open spec fn view(&self) -> CpuState {
        CpuState {
            pc: self.pc,
            sp: self.sp,
            acc: self.acc,
            x: self.x,
            y: self.y,
            flags: self.flags,
            mem: self.memory@,
            halted: self.halted,
        }
    }
}

impl Cpu {
    /// The CPU is well formed when its memory covers the whole 16-bit space.
    pub open spec fn wf(&self) -> bool {
        self@.wf()
    }

    /// A CPU in the power-up state.
    pub fn new() -> (r: Cpu)
        ensures
            r.wf(),
            r@ == initial_state(),
    {
        let memory = vec![0u8; MEMORY_SIZE];
        proof {
            assert(memory@ =~= Seq::new(MEMORY_SIZE as nat, |i: int| 0u8));
        }
        Cpu {
            pc: INITIAL_PC,
            sp: INITIAL_SP,
            acc: 0,
            x: 0,
            y: 0,
            flags: Flags::power_up(),
            memory,
            halted: false,
        }
    }

    /// Read the byte at an address.
    pub fn read_u8(&self, address: u16) -> (r: u8)
        requires
            self.wf(),
        ensures
            r == self@.read(address),
    {
        self.memory[address as usize]
    }

    /// Write one byte at an address.
    pub fn write_u8(&mut self, address: u16, value: u8)
        requires
            old(self).wf(),
        ensures
            final(self).wf(),
            final(self)@ == old(self)@.with_mem(address, value),
    {
        self.memory[address as usize] = value;
    }

    /// Read a 16-bit little-endian value; the high byte comes from the
    /// following address, wrapping at the top of the space.
    pub fn read_u16(&self, address: u16) -> (r: u16)
        requires
            self.wf(),
        ensures
            r == self@.read16(address),
    {
        let lo = self.read_u8(address);
        let hi = self.read_u8(address.wrapping_add(1));
        (lo as u16) + (hi as u16) * 0x100
    }

    /// Write a 16-bit little-endian value: the low byte at the address,
    /// the high byte at the following address, wrapping at the top of the
    /// space.
    pub fn write_u16(&mut self, address: u16, value: u16)
        requires
            old(self).wf(),
        ensures
            final(self).wf(),
            final(self)@ == old(self)@.with_mem(address, addr_lo(value)).with_mem(
                wadd16(address, 1),
                addr_hi(value),
            ),
    {
        self.write_u8(address, (value % 0x100) as u8);
        self.write_u8(address.wrapping_add(1), (value / 0x100) as u8);
    }

    /// Push one byte: store it at the current stack slot, then move the
    /// pointer one slot down, wrapping inside the fixed page.
    pub fn stack_push(&mut self, value: u8)
        requires
            old(self).wf(),
        ensures
            final(self).wf(),
            final(self)@ == old(self)@.push(value),
    {
        let a = STACK_PAGE + (self.sp as u16);
        self.write_u8(a, value);
        self.sp = self.sp.wrapping_sub(1);
    }

    /// Pop one byte: move the pointer one slot up, wrapping inside the
    /// fixed page, then read the byte there.
    pub fn stack_pop(&mut self) -> (r: u8)
        requires
            old(self).wf(),
        ensures
            final(self).wf(),
            final(self)@ == old(self)@.pop_state(),
            r == old(self)@.pop_value(),
    {
        self.sp = self.sp.wrapping_add(1);
        self.read_u8(STACK_PAGE + (self.sp as u16))
    }

    /// Push a 16-bit value: high byte first, so that `pop_u16` is its
    /// exact mirror.
    pub fn push_u16(&mut self, value: u16)
        requires
            old(self).wf(),
        ensures
            final(self).wf(),
            final(self)@ == old(self)@.push(addr_hi(value)).push(addr_lo(value)),
    {
        self.stack_push((value / 0x100) as u8);
        self.stack_push((value % 0x100) as u8);
    }

    /// Pop a 16-bit value pushed by `push_u16`: low byte first.
    pub fn pop_u16(&mut self) -> (r: u16)
        requires
            old(self).wf(),
        ensures
            final(self).wf(),
            final(self)@ == old(self)@.pop_state().pop_state(),
            r == make_addr(old(self)@.pop_value(), old(self)@.pop_state().pop_value()),
    {
        let lo = self.stack_pop();
        let hi = self.stack_pop();
        (lo as u16) + (hi as u16) * 0x100
    }

    /// Resolve Immediate addressing: the operand is the byte at the program
    /// counter itself; one byte is consumed.
    pub fn addr_immediate(&mut self) -> (r: u16)
        requires
            old(self).wf(),
        ensures
            final(self).wf(),
            ({
                let rs = resolve_spec(old(self)@, AddressingModes::Immediate);
                final(self)@ == old(self)@.with_pc(rs.pc) && rs.addr == Some(r)
            }),
    {
        let a = self.pc;
        self.pc = self.pc.wrapping_add(1);
        a
    }

    /// Resolve Zero Page addressing: the operand byte is the low byte of
    /// the address, the high byte is zero.
    pub fn addr_zero_page(&mut self) -> (r: u16)
        requires
            old(self).wf(),
        ensures
            final(self).wf(),
            ({
                let rs = resolve_spec(old(self)@, AddressingModes::ZeroPage);
                final(self)@ == old(self)@.with_pc(rs.pc) && rs.addr == Some(r)
            }),
            r <= 0xFF,
    {
        let off = self.read_u8(self.pc);
        self.pc = self.pc.wrapping_add(1);
        off as u16
    }

    /// Resolve Zero Page,X addressing: index X is added to the operand byte
    /// with 8-bit wraparound, so the address never leaves the zero page.
    pub fn addr_zero_page_x(&mut self) -> (r: u16)
        requires
            old(self).wf(),
        ensures
            final(self).wf(),
            ({
                let rs = resolve_spec(old(self)@, AddressingModes::ZeroPageX);
                final(self)@ == old(self)@.with_pc(rs.pc) && rs.addr == Some(r)
            }),
            r <= 0xFF,
    {
        let base = self.read_u8(self.pc);
        self.pc = self.pc.wrapping_add(1);
        base.wrapping_add(self.x) as u16
    }

    /// Resolve Zero Page,Y addressing: as Zero Page,X but with index Y.
    pub fn addr_zero_page_y(&mut self) -> (r: u16)
        requires
            old(self).wf(),
        ensures
            final(self).wf(),
            ({
                let rs = resolve_spec(old(self)@, AddressingModes::ZeroPageY);
                final(self)@ == old(self)@.with_pc(rs.pc) && rs.addr == Some(r)
            }),
            r <= 0xFF,
    {
        let base = self.read_u8(self.pc);
        self.pc = self.pc.wrapping_add(1);
        base.wrapping_add(self.y) as u16
    }

    /// Resolve Absolute addressing: a 16-bit little-endian address read
    /// from the next two bytes.
    pub fn addr_absolute(&mut self) -> (r: u16)
        requires
            old(self).wf(),
        ensures
            final(self).wf(),
            ({
                let rs = resolve_spec(old(self)@, AddressingModes::Absolute);
                final(self)@ == old(self)@.with_pc(rs.pc) && rs.addr == Some(r)
            }),
    {
        let lo = self.read_u8(self.pc);
        self.pc = self.pc.wrapping_add(1);
        let hi = self.read_u8(self.pc);
        self.pc = self.pc.wrapping_add(1);
        (lo as u16) + (hi as u16) * 0x100
    }

    /// Resolve Absolute,X addressing: index X is added to the full 16-bit
    /// address.  The returned flag is set exactly when the addition changed
    /// the address's high byte (a page crossing, costing read instructions
    /// an extra cycle).
    pub fn addr_absolute_x(&mut self) -> (r: (u16, bool))
        requires
            old(self).wf(),
        ensures
            final(self).wf(),
            ({
                let rs = resolve_spec(old(self)@, AddressingModes::AbsoluteX);
                final(self)@ == old(self)@.with_pc(rs.pc) && rs.addr == Some(r.0) && rs.crossed
                    == r.1
            }),
            ({
                let base = abs_operand(old(self)@, old(self)@.pc);
                r.1 <==> page_of(wadd16(base, old(self)@.x as u16)) != page_of(base)
            }),
    {
        let lo = self.read_u8(self.pc);
        self.pc = self.pc.wrapping_add(1);
        let hi = self.read_u8(self.pc);
        self.pc = self.pc.wrapping_add(1);
        let base = (lo as u16) + (hi as u16) * 0x100;
        let a = base.wrapping_add(self.x as u16);
        (a, a / 0x100 != base / 0x100)
    }

    /// Resolve Absolute,Y addressing: as Absolute,X but with index Y.
    pub fn addr_absolute_y(&mut self) -> (r: (u16, bool))
        requires
            old(self).wf(),
        ensures
            final(self).wf(),
            ({
                let rs = resolve_spec(old(self)@, AddressingModes::AbsoluteY);
                final(self)@ == old(self)@.with_pc(rs.pc) && rs.addr == Some(r.0) && rs.crossed
                    == r.1
            }),
            ({
                let base = abs_operand(old(self)@, old(self)@.pc);
                r.1 <==> page_of(wadd16(base, old(self)@.y as u16)) != page_of(base)
            }),
    {
        let lo = self.read_u8(self.pc);
        self.pc = self.pc.wrapping_add(1);
        let hi = self.read_u8(self.pc);
        self.pc = self.pc.wrapping_add(1);
        let base = (lo as u16) + (hi as u16) * 0x100;
        let a = base.wrapping_add(self.y as u16);
        (a, a / 0x100 != base / 0x100)
    }

    /// Resolve Indirect addressing, reproducing the hardware quirk: when
    /// the pointer's low byte is 0xFF, the target's high byte is fetched
    /// from the start of the pointer's own page instead of the next page.
    pub fn addr_indirect(&mut self) -> (r: u16)
        requires
            old(self).wf(),
        ensures
            final(self).wf(),
            ({
                let rs = resolve_spec(old(self)@, AddressingModes::Indirect);
                final(self)@ == old(self)@.with_pc(rs.pc) && rs.addr == Some(r)
            }),
            ({
                let ptr = abs_operand(old(self)@, old(self)@.pc);
                ptr % 0x100 == 0xFF ==> addr_hi(r) == old(self)@.read((ptr - 0xFF) as u16)
            }),
    {
        let ptr_lo = self.read_u8(self.pc);
        self.pc = self.pc.wrapping_add(1);
        let ptr_hi = self.read_u8(self.pc);
        self.pc = self.pc.wrapping_add(1);
        let ptr = (ptr_lo as u16) + (ptr_hi as u16) * 0x100;
        proof {
            crate::state::lemma_make_addr_parts(ptr_lo, ptr_hi);
        }
        let lo = self.read_u8(ptr);
        let hi = if ptr_lo == 0xFF {
            self.read_u8((ptr_hi as u16) * 0x100)
        } else {
            self.read_u8(ptr + 1)
        };
        let target = (lo as u16) + (hi as u16) * 0x100;
        proof {
            crate::state::lemma_make_addr_parts(lo, hi);
        }
        target
    }

    /// Resolve Indirect,X addressing: index X is added to the operand byte
    /// with 8-bit wraparound, and the 16-bit address is read from that
    /// zero-page location and the following zero-page byte.
    pub fn addr_indirect_x(&mut self) -> (r: u16)
        requires
            old(self).wf(),
        ensures
            final(self).wf(),
            ({
                let rs = resolve_spec(old(self)@, AddressingModes::IndirectX);
                final(self)@ == old(self)@.with_pc(rs.pc) && rs.addr == Some(r)
            }),
    {
        let base = self.read_u8(self.pc);
        self.pc = self.pc.wrapping_add(1);
        let zp = base.wrapping_add(self.x);
        let lo = self.read_u8(zp as u16);
        let hi = self.read_u8(zp.wrapping_add(1) as u16);
        (lo as u16) + (hi as u16) * 0x100
    }

    /// Resolve Indirect,Y addressing: a 16-bit address is read from the
    /// zero page, then index Y is added to it.  The returned flag is set
    /// exactly when the addition changed the address's high byte.
    pub fn addr_indirect_y(&mut self) -> (r: (u16, bool))
        requires
            old(self).wf(),
        ensures
            final(self).wf(),
            ({
                let rs = resolve_spec(old(self)@, AddressingModes::IndirectY);
                final(self)@ == old(self)@.with_pc(rs.pc) && rs.addr == Some(r.0) && rs.crossed
                    == r.1
            }),
            ({
                let base = zero_page_pointer(old(self)@, old(self)@.read(old(self)@.pc));
                r.1 <==> page_of(wadd16(base, old(self)@.y as u16)) != page_of(base)
            }),
    {
        let zp = self.read_u8(self.pc);
        self.pc = self.pc.wrapping_add(1);
        let lo = self.read_u8(zp as u16);
        let hi = self.read_u8(zp.wrapping_add(1) as u16);
        let base = (lo as u16) + (hi as u16) * 0x100;
        let a = base.wrapping_add(self.y as u16);
        (a, a / 0x100 != base / 0x100)
    }

    /// Resolve Relative addressing: the operand byte is a two's-complement
    /// offset applied to the program counter after the operand.
    pub fn addr_relative(&mut self) -> (r: u16)
        requires
            old(self).wf(),
        ensures
            final(self).wf(),
            ({
                let rs = resolve_spec(old(self)@, AddressingModes::Relative);
                final(self)@ == old(self)@.with_pc(rs.pc) && rs.addr == Some(r)
            }),
    {
        let off = self.read_u8(self.pc);
        self.pc = self.pc.wrapping_add(1);
        let ext: u16 = if off >= 0x80 {
            (off as u16) + 0xFF00
        } else {
            off as u16
        };
        self.pc.wrapping_add(ext)
    }

    /// Resolve any addressing mode: the effective address where the mode
    /// has one (`None` for Accumulator and Implied, which never address
    /// memory), and whether resolution crossed a page.
    pub fn resolve(&mut self, mode: AddressingModes) -> (r: (Option<u16>, bool))
        requires
            old(self).wf(),
        ensures
            final(self).wf(),
            ({
                let rs = resolve_spec(old(self)@, mode);
                final(self)@ == old(self)@.with_pc(rs.pc) && r.0 == rs.addr && r.1 == rs.crossed
            }),
    {
        match mode {
            AddressingModes::Accum => (None, false),
            AddressingModes::Implied => (None, false),
            AddressingModes::Immediate => (Some(self.addr_immediate()), false),
            AddressingModes::ZeroPage => (Some(self.addr_zero_page()), false),
            AddressingModes::ZeroPageX => (Some(self.addr_zero_page_x()), false),
            AddressingModes::ZeroPageY => (Some(self.addr_zero_page_y()), false),
            AddressingModes::Absolute => (Some(self.addr_absolute()), false),
            AddressingModes::AbsoluteX => {
                let (a, c) = self.addr_absolute_x();
                (Some(a), c)
            },
            AddressingModes::AbsoluteY => {
                let (a, c) = self.addr_absolute_y();
                (Some(a), c)
            },
            AddressingModes::Indirect => (Some(self.addr_indirect()), false),
            AddressingModes::IndirectX => (Some(self.addr_indirect_x()), false),
            AddressingModes::IndirectY => {
                let (a, c) = self.addr_indirect_y();
                (Some(a), c)
            },
            AddressingModes::Relative => (Some(self.addr_relative()), false),
        }
    }

    /// Fetch the operand for a mode: resolve it and read the byte at the
    /// effective address (the accumulator for Accumulator mode, nothing for
    /// Implied), together with the page-crossing flag.
    pub fn fetch_operand(&mut self, mode: AddressingModes) -> (r: Fetched)
        requires
            old(self).wf(),
        ensures
            final(self).wf(),
            ({
                let rs = resolve_spec(old(self)@, mode);
                final(self)@ == old(self)@.with_pc(rs.pc) && r.spec_add_cycle() == rs.crossed
                    && (match mode {
                    AddressingModes::Implied => r.spec_value() is None,
                    _ => r.spec_value() == Some(
                        operand_of(old(self)@.with_pc(rs.pc), rs.addr),
                    ),
                })
            }),
    {
        match mode {
            AddressingModes::Implied => Fetched::none(),
            AddressingModes::Accum => Fetched::no_cycle(self.acc),
            _ => {
                let (addr, crossed) = self.resolve(mode);
                match addr {
                    Some(a) => {
                        let v = self.read_u8(a);
                        Fetched::some(v, crossed)
                    },
                    None => Fetched::none(),
                }
            },
        }
    }

    /// Refresh Zero and Negative from a value, as every load and transfer
    /// does.
    pub fn set_zn(&mut self, value: u8)
        ensures
            final(self)@ == (CpuState {
                flags: crate::semantics::zn_flags(old(self)@.flags, value),
                ..old(self)@
            }),
    {
        self.flags.zero = value == 0;
        self.flags.negative = value >= 0x80;
    }

    /// The operand byte for a resolved address: the byte there, or the
    /// accumulator when the mode yielded none (Accumulator mode).
    pub fn operand(&self, addr: Option<u16>) -> (r: u8)
        requires
            self.wf(),
        ensures
            r == operand_of(self@, addr),
    {
        match addr {
            Some(a) => self.read_u8(a),
            None => self.acc,
        }
    }

    /// Put a read-modify-write result at its target: the effective address,
    /// or the accumulator when the mode yielded none.
    pub fn store_to(&mut self, target: Option<u16>, value: u8)
        requires
            old(self).wf(),
        ensures
            final(self).wf(),
            final(self)@ == crate::semantics::store_result(old(self)@, target, value),
    {
        match target {
            Some(a) => self.write_u8(a, value),
            None => self.acc = value,
        }
    }

    /// Write a store instruction's value; stores have no accumulator form,
    /// so without an address nothing happens.
    pub fn store_value(&mut self, target: Option<u16>, value: u8)
        requires
            old(self).wf(),
        ensures
            final(self).wf(),
            final(self)@ == crate::semantics::store_mem(old(self)@, target, value),
    {
        match target {
            Some(a) => self.write_u8(a, value),
            None => (),
        }
    }

    /// Load a value into the accumulator, refreshing Zero and Negative.
    pub fn load_acc(&mut self, value: u8)
        ensures
            final(self)@ == crate::semantics::set_acc_zn(old(self)@, value),
    {
        self.acc = value;
        self.set_zn(value);
    }

    /// Load a value into index X, refreshing Zero and Negative.
    pub fn load_x(&mut self, value: u8)
        ensures
            final(self)@ == crate::semantics::set_x_zn(old(self)@, value),
    {
        self.x = value;
        self.set_zn(value);
    }

    /// Load a value into index Y, refreshing Zero and Negative.
    pub fn load_y(&mut self, value: u8)
        ensures
            final(self)@ == crate::semantics::set_y_zn(old(self)@, value),
    {
        self.y = value;
        self.set_zn(value);
    }

    /// Add with carry: accumulator plus operand plus carry-in, setting
    /// Carry from the 9-bit sum, Overflow from the sign rule, and
    /// Zero/Negative from the result.
    pub fn op_adc(&mut self, m: u8)
        ensures
            final(self)@ == crate::semantics::adc_state(old(self)@, m),
    {
        let a = self.acc;
        let c: u16 = if self.flags.carry {
            1
        } else {
            0
        };
        let sum: u16 = (a as u16) + (m as u16) + c;
        let r: u8 = if sum > 0xFF {
            (sum - 0x100) as u8
        } else {
            sum as u8
        };
        self.flags.carry = sum > 0xFF;
        self.flags.overflow = ((a >= 0x80) == (m >= 0x80)) && ((r >= 0x80) != (a >= 0x80));
        self.flags.zero = r == 0;
        self.flags.negative = r >= 0x80;
        self.acc = r;
    }

    /// Subtract with carry: ADC of the operand's ones' complement.
    pub fn op_sbc(&mut self, m: u8)
        ensures
            final(self)@ == crate::semantics::sbc_state(old(self)@, m),
    {
        self.op_adc(0xFF - m);
    }

    /// Compare a register with an operand: Carry iff no borrow, Zero iff
    /// equal, Negative from the wrapping difference.
    pub fn op_cmp(&mut self, reg: u8, m: u8)
        ensures
            final(self)@ == (CpuState {
                flags: crate::semantics::cmp_flags(old(self)@.flags, reg, m),
                ..old(self)@
            }),
    {
        self.flags.carry = reg >= m;
        self.flags.zero = reg == m;
        self.flags.negative = reg.wrapping_sub(m) >= 0x80;
    }

    /// Finish a shift or rotate: set Carry from the bit shifted out,
    /// Zero/Negative from the result, and write the result back.
    pub fn apply_shift(&mut self, target: Option<u16>, res: u8, carry_out: bool)
        requires
            old(self).wf(),
        ensures
            final(self).wf(),
            final(self)@ == crate::semantics::shift_state(old(self)@, target, res, carry_out),
    {
        self.flags.carry = carry_out;
        self.flags.zero = res == 0;
        self.flags.negative = res >= 0x80;
        self.store_to(target, res);
    }

    /// Take or skip a branch: a taken branch retargets the program counter
    /// and costs one extra cycle, plus another on a page change.
    pub fn do_branch(&mut self, ins: Instruction, addr: Option<u16>, taken: bool) -> (cycles: u8)
        requires
            old(self).wf(),
        ensures
            final(self).wf(),
            ({
                let o = crate::semantics::branch_outcome(old(self)@, ins, addr, taken);
                final(self)@ == o.state && cycles == o.cycles
            }),
    {
        match addr {
            Some(t) => {
                if taken {
                    let crossed = t / 0x100 != self.pc / 0x100;
                    self.pc = t;
                    if crossed {
                        ins.cycle.wrapping_add(1).wrapping_add(1)
                    } else {
                        ins.cycle.wrapping_add(1)
                    }
                } else {
                    ins.cycle
                }
            },
            None => ins.cycle,
        }
    }

    /// The shared interrupt entry: push the return program counter (high
    /// byte first) and the packed status, set Interrupt-Disable, and load
    /// the program counter from the vector.
    fn enter_interrupt(&mut self, vec: u16)
        requires
            old(self).wf(),
        ensures
            final(self).wf(),
            final(self)@ == crate::interrupt::interrupt_entry(old(self)@, vec),
    {
        let pc = self.pc;
        self.push_u16(pc);
        let b = self.flags.to_byte();
        self.stack_push(b);
        self.flags.interrupt_disable = true;
        self.pc = self.read_u16(vec);
    }

    /// Raise an interrupt, applying the vectoring protocol: NMI and Reset
    /// are never suppressed; IRQ and BRK are ignored while
    /// Interrupt-Disable is set.  Reset pushes nothing: it moves the stack
    /// pointer down three slots, sets Interrupt-Disable and vectors.
    pub fn raise(&mut self, kind: InterruptType)
        requires
            old(self).wf(),
        ensures
            final(self).wf(),
            final(self)@ == interrupt_spec(old(self)@, kind),
    {
        match kind {
            InterruptType::Reset => {
                self.sp = self.sp.wrapping_sub(3);
                self.flags.interrupt_disable = true;
                self.pc = self.read_u16(RESET_VECTOR);
            },
            InterruptType::NMI => self.enter_interrupt(NMI_VECTOR),
            InterruptType::IRQ => {
                if !self.flags.interrupt_disable {
                    self.enter_interrupt(IRQ_VECTOR);
                }
            },
            InterruptType::BRK => {
                if !self.flags.interrupt_disable {
                    self.enter_interrupt(IRQ_VECTOR);
                }
            },
        }
    }

    /// Read-class instructions: they only consume their operand, and pay
    /// the page-crossing penalty.
    #[verifier::rlimit(100)]
    fn apply_read_op(&mut self, ins: Instruction, addr: Option<u16>, crossed: bool) -> (cycles: u8)
        requires
            old(self).wf(),
            ins.op is Adc || ins.op is Sbc || ins.op is And || ins.op is Ora ||
                ins.op is Eor || ins.op is Cmp || ins.op is Cpx || ins.op is Cpy ||
                ins.op is Bit || ins.op is Lda || ins.op is Ldx || ins.op is Ldy ||
                ins.op is Lax || ins.op is Las || ins.op is Nop,
        ensures
            final(self).wf(),
            ({
                let o = crate::semantics::operate_spec(old(self)@, ins, addr, crossed);
                final(self)@ == o.state && cycles == o.cycles
            }),
    {
        proof {
            reveal(crate::semantics::read_op_spec);
        }
        match ins.op {
            Op::Adc => {
                let m = self.operand(addr);
                self.op_adc(m);
                page_penalty(ins.cycle, crossed)
            },
            Op::Sbc => {
                let m = self.operand(addr);
                self.op_sbc(m);
                page_penalty(ins.cycle, crossed)
            },
            Op::And => {
                let m = self.operand(addr);
                let v = self.acc & m;
                self.load_acc(v);
                page_penalty(ins.cycle, crossed)
            },
            Op::Ora => {
                let m = self.operand(addr);
                let v = self.acc | m;
                self.load_acc(v);
                page_penalty(ins.cycle, crossed)
            },
            Op::Eor => {
                let m = self.operand(addr);
                let v = self.acc ^ m;
                self.load_acc(v);
                page_penalty(ins.cycle, crossed)
            },
            Op::Cmp => {
                let m = self.operand(addr);
                let reg = self.acc;
                self.op_cmp(reg, m);
                page_penalty(ins.cycle, crossed)
            },
            Op::Cpx => {
                let m = self.operand(addr);
                let reg = self.x;
                self.op_cmp(reg, m);
                page_penalty(ins.cycle, crossed)
            },
            Op::Cpy => {
                let m = self.operand(addr);
                let reg = self.y;
                self.op_cmp(reg, m);
                page_penalty(ins.cycle, crossed)
            },
            Op::Bit => {
                let m = self.operand(addr);
                self.flags.zero = (self.acc & m) == 0;
                self.flags.overflow = (m / 0x40) % 2 == 1;
                self.flags.negative = m >= 0x80;
                page_penalty(ins.cycle, crossed)
            },
            Op::Lda => {
                let m = self.operand(addr);
                self.load_acc(m);
                page_penalty(ins.cycle, crossed)
            },
            Op::Ldx => {
                let m = self.operand(addr);
                self.load_x(m);
                page_penalty(ins.cycle, crossed)
            },
            Op::Ldy => {
                let m = self.operand(addr);
                self.load_y(m);
                page_penalty(ins.cycle, crossed)
            },
            Op::Lax => {
                let m = self.operand(addr);
                self.acc = m;
                self.x = m;
                self.set_zn(m);
                page_penalty(ins.cycle, crossed)
            },
            Op::Las => {
                let m = self.operand(addr);
                let v = m & self.sp;
                self.acc = v;
                self.x = v;
                self.sp = v;
                self.set_zn(v);
                page_penalty(ins.cycle, crossed)
            },
            Op::Nop => {
                page_penalty(ins.cycle, crossed)
            },
            _ => ins.cycle,
        }
    }

    /// The immediate-only undocumented arithmetic instructions.
    #[verifier::rlimit(100)]
    fn apply_imm_op(&mut self, ins: Instruction, addr: Option<u16>, crossed: bool) -> (cycles: u8)
        requires
            old(self).wf(),
            ins.op is Anc || ins.op is Alr || ins.op is Arr || ins.op is Axs ||
                ins.op is Lxa || ins.op is Xaa,
        ensures
            final(self).wf(),
            ({
                let o = crate::semantics::operate_spec(old(self)@, ins, addr, crossed);
                final(self)@ == o.state && cycles == o.cycles
            }),
    {
        proof {
            reveal(crate::semantics::imm_op_spec);
        }
        match ins.op {
            Op::Anc => {
                let m = self.operand(addr);
                let a2 = self.acc & m;
                self.acc = a2;
                self.flags.carry = a2 >= 0x80;
                self.flags.zero = a2 == 0;
                self.flags.negative = a2 >= 0x80;
                ins.cycle
            },
            Op::Alr => {
                let m = self.operand(addr);
                let a2 = self.acc & m;
                let res = a2 / 2;
                self.acc = res;
                self.flags.carry = a2 % 2 == 1;
                self.flags.zero = res == 0;
                self.flags.negative = res >= 0x80;
                ins.cycle
            },
            Op::Arr => {
                let m = self.operand(addr);
                let a2 = self.acc & m;
                let res = a2 / 2 + (if self.flags.carry {
                    0x80
                } else {
                    0
                });
                self.acc = res;
                self.flags.carry = (res / 0x40) % 2 == 1;
                self.flags.overflow = ((res / 0x40) % 2 == 1) != ((res / 0x20) % 2 == 1);
                self.flags.zero = res == 0;
                self.flags.negative = res >= 0x80;
                ins.cycle
            },
            Op::Axs => {
                let m = self.operand(addr);
                let t = self.acc & self.x;
                let res = t.wrapping_sub(m);
                self.x = res;
                self.flags.carry = t >= m;
                self.flags.zero = res == 0;
                self.flags.negative = res >= 0x80;
                ins.cycle
            },
            Op::Lxa => {
                let m = self.operand(addr);
                self.acc = m;
                self.x = m;
                self.set_zn(m);
                ins.cycle
            },
            Op::Xaa => {
                let m = self.operand(addr);
                let v = self.x & m;
                self.acc = v;
                self.set_zn(v);
                ins.cycle
            },
            _ => ins.cycle,
        }
    }

    /// Shifts, rotates, and memory increments and decrements.
    #[verifier::rlimit(100)]
    fn apply_shift_op(&mut self, ins: Instruction, addr: Option<u16>, crossed: bool) -> (cycles: u8)
        requires
            old(self).wf(),
            ins.op is Asl || ins.op is Lsr || ins.op is Rol || ins.op is Ror ||
                ins.op is Inc || ins.op is Dec,
        ensures
            final(self).wf(),
            ({
                let o = crate::semantics::operate_spec(old(self)@, ins, addr, crossed);
                final(self)@ == o.state && cycles == o.cycles
            }),
    {
        proof {
            reveal(crate::semantics::shift_op_spec);
        }
        match ins.op {
            Op::Asl => {
                let m = self.operand(addr);
                let res = if m >= 0x80 {
                    ((m as u16) * 2 - 0x100) as u8
                } else {
                    m * 2
                };
                self.apply_shift(addr, res, m >= 0x80);
                ins.cycle
            },
            Op::Lsr => {
                let m = self.operand(addr);
                self.apply_shift(addr, m / 2, m % 2 == 1);
                ins.cycle
            },
            Op::Rol => {
                let m = self.operand(addr);
                let c: u16 = if self.flags.carry {
                    1
                } else {
                    0
                };
                let sum = (m as u16) * 2 + c;
                let res = if sum > 0xFF {
                    (sum - 0x100) as u8
                } else {
                    sum as u8
                };
                self.apply_shift(addr, res, m >= 0x80);
                ins.cycle
            },
            Op::Ror => {
                let m = self.operand(addr);
                let res = m / 2 + (if self.flags.carry {
                    0x80
                } else {
                    0
                });
                self.apply_shift(addr, res, m % 2 == 1);
                ins.cycle
            },
            Op::Inc => {
                let m = self.operand(addr);
                let res = m.wrapping_add(1);
                self.set_zn(res);
                self.store_to(addr, res);
                ins.cycle
            },
            Op::Dec => {
                let m = self.operand(addr);
                let res = m.wrapping_sub(1);
                self.set_zn(res);
                self.store_to(addr, res);
                ins.cycle
            },
            _ => ins.cycle,
        }
    }

    /// The undocumented combined read-modify-write instructions, each a
    /// shift or step fused with an arithmetic or logical operation.
    #[verifier::rlimit(100)]
    fn apply_rmw_op(&mut self, ins: Instruction, addr: Option<u16>, crossed: bool) -> (cycles: u8)
        requires
            old(self).wf(),
            ins.op is Slo || ins.op is Rla || ins.op is Sre || ins.op is Rra ||
                ins.op is Dcp || ins.op is Isc,
        ensures
            final(self).wf(),
            ({
                let o = crate::semantics::operate_spec(old(self)@, ins, addr, crossed);
                final(self)@ == o.state && cycles == o.cycles
            }),
    {
        proof {
            reveal(crate::semantics::rmw_op_spec);
        }
        match ins.op {
            Op::Slo => {
                let m = self.operand(addr);
                let res = if m >= 0x80 {
                    ((m as u16) * 2 - 0x100) as u8
                } else {
                    m * 2
                };
                let a2 = self.acc | res;
                self.flags.carry = m >= 0x80;
                self.flags.zero = a2 == 0;
                self.flags.negative = a2 >= 0x80;
                self.acc = a2;
                self.store_to(addr, res);
                ins.cycle
            },
            Op::Rla => {
                let m = self.operand(addr);
                let c: u16 = if self.flags.carry {
                    1
                } else {
                    0
                };
                let sum = (m as u16) * 2 + c;
                let res = if sum > 0xFF {
                    (sum - 0x100) as u8
                } else {
                    sum as u8
                };
                let a2 = self.acc & res;
                self.flags.carry = m >= 0x80;
                self.flags.zero = a2 == 0;
                self.flags.negative = a2 >= 0x80;
                self.acc = a2;
                self.store_to(addr, res);
                ins.cycle
            },
            Op::Sre => {
                let m = self.operand(addr);
                let res = m / 2;
                let a2 = self.acc ^ res;
                self.flags.carry = m % 2 == 1;
                self.flags.zero = a2 == 0;
                self.flags.negative = a2 >= 0x80;
                self.acc = a2;
                self.store_to(addr, res);
                ins.cycle
            },
            Op::Rra => {
                let m = self.operand(addr);
                let res = m / 2 + (if self.flags.carry {
                    0x80
                } else {
                    0
                });
                self.store_to(addr, res);
                self.flags.carry = m % 2 == 1;
                self.op_adc(res);
                ins.cycle
            },
            Op::Dcp => {
                let m = self.operand(addr);
                let res = m.wrapping_sub(1);
                let reg = self.acc;
                self.op_cmp(reg, res);
                self.store_to(addr, res);
                ins.cycle
            },
            Op::Isc => {
                let m = self.operand(addr);
                let res = m.wrapping_add(1);
                self.store_to(addr, res);
                self.op_sbc(res);
                ins.cycle
            },
            _ => ins.cycle,
        }
    }

    /// Store instructions, including the unstable high-byte stores.
    #[verifier::rlimit(100)]
    fn apply_store_op(&mut self, ins: Instruction, addr: Option<u16>, crossed: bool) -> (cycles: u8)
        requires
            old(self).wf(),
            ins.op is Sta || ins.op is Stx || ins.op is Sty || ins.op is Sax ||
                ins.op is Shx || ins.op is Shy || ins.op is Ahx || ins.op is Tas,
        ensures
            final(self).wf(),
            ({
                let o = crate::semantics::operate_spec(old(self)@, ins, addr, crossed);
                final(self)@ == o.state && cycles == o.cycles
            }),
    {
        proof {
            reveal(crate::semantics::store_op_spec);
        }
        match ins.op {
            Op::Sta => {
                let v = self.acc;
                self.store_value(addr, v);
                ins.cycle
            },
            Op::Stx => {
                let v = self.x;
                self.store_value(addr, v);
                ins.cycle
            },
            Op::Sty => {
                let v = self.y;
                self.store_value(addr, v);
                ins.cycle
            },
            Op::Sax => {
                let v = self.acc & self.x;
                self.store_value(addr, v);
                ins.cycle
            },
            Op::Shx => {
                match addr {
                    Some(a) => {
                        let v = self.x & ((a / 0x100) as u8).wrapping_add(1);
                        self.write_u8(a, v);
                    },
                    None => (),
                }
                ins.cycle
            },
            Op::Shy => {
                match addr {
                    Some(a) => {
                        let v = self.y & ((a / 0x100) as u8).wrapping_add(1);
                        self.write_u8(a, v);
                    },
                    None => (),
                }
                ins.cycle
            },
            Op::Ahx => {
                match addr {
                    Some(a) => {
                        let v = self.acc & self.x & ((a / 0x100) as u8).wrapping_add(1);
                        self.write_u8(a, v);
                    },
                    None => (),
                }
                ins.cycle
            },
            Op::Tas => {
                let v = self.acc & self.x;
                self.sp = v;
                match addr {
                    Some(a) => {
                        let w = v & ((a / 0x100) as u8).wrapping_add(1);
                        self.write_u8(a, w);
                    },
                    None => (),
                }
                ins.cycle
            },
            _ => ins.cycle,
        }
    }

    /// The eight conditional branches, one per testable flag value.
    #[verifier::rlimit(100)]
    fn apply_branch_op(&mut self, ins: Instruction, addr: Option<u16>, crossed: bool) -> (cycles: u8)
        requires
            old(self).wf(),
            ins.op is Bcc || ins.op is Bcs || ins.op is Bne || ins.op is Beq ||
                ins.op is Bpl || ins.op is Bmi || ins.op is Bvc || ins.op is Bvs,
        ensures
            final(self).wf(),
            ({
                let o = crate::semantics::operate_spec(old(self)@, ins, addr, crossed);
                final(self)@ == o.state && cycles == o.cycles
            }),
    {
        proof {
            reveal(crate::semantics::branch_op_spec);
        }
        match ins.op {
            Op::Bcc => {
                let taken = !self.flags.carry;
                self.do_branch(ins, addr, taken)
            },
            Op::Bcs => {
                let taken = self.flags.carry;
                self.do_branch(ins, addr, taken)
            },
            Op::Bne => {
                let taken = !self.flags.zero;
                self.do_branch(ins, addr, taken)
            },
            Op::Beq => {
                let taken = self.flags.zero;
                self.do_branch(ins, addr, taken)
            },
            Op::Bpl => {
                let taken = !self.flags.negative;
                self.do_branch(ins, addr, taken)
            },
            Op::Bmi => {
                let taken = self.flags.negative;
                self.do_branch(ins, addr, taken)
            },
            Op::Bvc => {
                let taken = !self.flags.overflow;
                self.do_branch(ins, addr, taken)
            },
            Op::Bvs => {
                let taken = self.flags.overflow;
                self.do_branch(ins, addr, taken)
            },
            _ => ins.cycle,
        }
    }

    /// Jumps, subroutine and interrupt returns, stack pushes and pulls,
    /// BRK and the KIL halt family.
    #[verifier::rlimit(100)]
    fn apply_system_op(&mut self, ins: Instruction, addr: Option<u16>, crossed: bool) -> (cycles: u8)
        requires
            old(self).wf(),
            ins.op is Jmp || ins.op is Jsr || ins.op is Rts || ins.op is Rti ||
                ins.op is Pha || ins.op is Php || ins.op is Pla || ins.op is Plp ||
                ins.op is Brk || ins.op is Kil,
        ensures
            final(self).wf(),
            ({
                let o = crate::semantics::operate_spec(old(self)@, ins, addr, crossed);
                final(self)@ == o.state && cycles == o.cycles
            }),
    {
        proof {
            reveal(crate::semantics::system_op_spec);
        }
        match ins.op {
            Op::Jmp => {
                match addr {
                    Some(t) => self.pc = t,
                    None => (),
                }
                ins.cycle
            },
            Op::Jsr => {
                match addr {
                    Some(t) => {
                        let ret = self.pc.wrapping_sub(1);
                        self.push_u16(ret);
                        self.pc = t;
                    },
                    None => (),
                }
                ins.cycle
            },
            Op::Rts => {
                let ret = self.pop_u16();
                self.pc = ret.wrapping_add(1);
                ins.cycle
            },
            Op::Rti => {
                let fv = self.stack_pop();
                self.flags = Flags::from_byte(fv);
                let ret = self.pop_u16();
                self.pc = ret;
                ins.cycle
            },
            Op::Pha => {
                let v = self.acc;
                self.stack_push(v);
                ins.cycle
            },
            Op::Php => {
                let b = self.flags.to_byte();
                self.stack_push(b);
                ins.cycle
            },
            Op::Pla => {
                let v = self.stack_pop();
                self.load_acc(v);
                ins.cycle
            },
            Op::Plp => {
                let v = self.stack_pop();
                self.flags = Flags::from_byte(v);
                ins.cycle
            },
            Op::Brk => {
                self.raise(InterruptType::BRK);
                ins.cycle
            },
            Op::Kil => {
                self.halted = true;
                ins.cycle
            },
            _ => ins.cycle,
        }
    }

    /// Flag instructions, register transfers, and register increments
    /// and decrements.
    #[verifier::rlimit(100)]
    fn apply_reg_op(&mut self, ins: Instruction, addr: Option<u16>, crossed: bool) -> (cycles: u8)
        requires
            old(self).wf(),
            ins.op is Clc || ins.op is Sec || ins.op is Cli || ins.op is Sei ||
                ins.op is Cld || ins.op is Sed || ins.op is Clv || ins.op is Tax ||
                ins.op is Tay || ins.op is Txa || ins.op is Tya || ins.op is Tsx ||
                ins.op is Txs || ins.op is Inx || ins.op is Iny || ins.op is Dex ||
                ins.op is Dey,
        ensures
            final(self).wf(),
            ({
                let o = crate::semantics::operate_spec(old(self)@, ins, addr, crossed);
                final(self)@ == o.state && cycles == o.cycles
            }),
    {
        proof {
            reveal(crate::semantics::reg_op_spec);
        }
        match ins.op {
            Op::Clc => {
                self.flags.carry = false;
                ins.cycle
            },
            Op::Sec => {
                self.flags.carry = true;
                ins.cycle
            },
            Op::Cli => {
                self.flags.interrupt_disable = false;
                ins.cycle
            },
            Op::Sei => {
                self.flags.interrupt_disable = true;
                ins.cycle
            },
            Op::Cld => {
                self.flags.decimal = false;
                ins.cycle
            },
            Op::Sed => {
                self.flags.decimal = true;
                ins.cycle
            },
            Op::Clv => {
                self.flags.overflow = false;
                ins.cycle
            },
            Op::Tax => {
                let v = self.acc;
                self.load_x(v);
                ins.cycle
            },
            Op::Tay => {
                let v = self.acc;
                self.load_y(v);
                ins.cycle
            },
            Op::Txa => {
                let v = self.x;
                self.load_acc(v);
                ins.cycle
            },
            Op::Tya => {
                let v = self.y;
                self.load_acc(v);
                ins.cycle
            },
            Op::Tsx => {
                let v = self.sp;
                self.load_x(v);
                ins.cycle
            },
            Op::Txs => {
                self.sp = self.x;
                ins.cycle
            },
            Op::Inx => {
                let v = self.x.wrapping_add(1);
                self.load_x(v);
                ins.cycle
            },
            Op::Iny => {
                let v = self.y.wrapping_add(1);
                self.load_y(v);
                ins.cycle
            },
            Op::Dex => {
                let v = self.x.wrapping_sub(1);
                self.load_x(v);
                ins.cycle
            },
            Op::Dey => {
                let v = self.y.wrapping_sub(1);
                self.load_y(v);
                ins.cycle
            },
            _ => ins.cycle,
        }
    }

    /// Apply one decoded instruction to the machine after its operand has
    /// been resolved, returning the cycles consumed.
    pub fn apply_op(&mut self, ins: Instruction, addr: Option<u16>, crossed: bool) -> (cycles: u8)
        requires
            old(self).wf(),
        ensures
            final(self).wf(),
            ({
                let o = crate::semantics::operate_spec(old(self)@, ins, addr, crossed);
                final(self)@ == o.state && cycles == o.cycles
            }),
    {
        match ins.op {
            Op::Adc | Op::Sbc | Op::And | Op::Ora | Op::Eor | Op::Cmp | Op::Cpx | Op::Cpy |
            Op::Bit | Op::Lda | Op::Ldx | Op::Ldy | Op::Lax | Op::Las | Op::Nop => self.apply_read_op(ins, addr, crossed),
            Op::Anc | Op::Alr | Op::Arr | Op::Axs | Op::Lxa | Op::Xaa => self.apply_imm_op(ins, addr, crossed),
            Op::Asl | Op::Lsr | Op::Rol | Op::Ror | Op::Inc | Op::Dec => self.apply_shift_op(
                ins,
                addr,
                crossed,
            ),
            Op::Slo | Op::Rla | Op::Sre | Op::Rra | Op::Dcp | Op::Isc => self.apply_rmw_op(
                ins,
                addr,
                crossed,
            ),
            Op::Sta | Op::Stx | Op::Sty | Op::Sax | Op::Shx | Op::Shy | Op::Ahx | Op::Tas => self.apply_store_op(ins, addr, crossed),
            Op::Bcc | Op::Bcs | Op::Bne | Op::Beq | Op::Bpl | Op::Bmi | Op::Bvc | Op::Bvs => self.apply_branch_op(ins, addr, crossed),
            Op::Jmp | Op::Jsr | Op::Rts | Op::Rti | Op::Pha | Op::Php | Op::Pla | Op::Plp |
            Op::Brk | Op::Kil => self.apply_system_op(ins, addr, crossed),
            Op::Clc | Op::Sec | Op::Cli | Op::Sei | Op::Cld | Op::Sed | Op::Clv | Op::Tax |
            Op::Tay | Op::Txa | Op::Tya | Op::Tsx | Op::Txs | Op::Inx | Op::Iny |
            Op::Dex | Op::Dey => self.apply_reg_op(ins, addr, crossed),
        }
    }

    /// Execute exactly one instruction: fetch the opcode at the program
    /// counter, decode it through the total table, resolve its addressing
    /// mode and apply its semantics, returning the cycles consumed.  A
    /// halted CPU (after a KIL opcode) does nothing and returns 0.
    pub fn step(&mut self) -> (cycles: u8)
        requires
            old(self).wf(),
        ensures
            final(self).wf(),
            final(self)@ == step_spec(old(self)@).state,
            cycles == step_spec(old(self)@).cycles,
    {
        if self.halted {
            return 0;
        }
        let opcode = self.read_u8(self.pc);
        self.pc = self.pc.wrapping_add(1);
        let ins = Instruction::from_opcode(opcode);
        let (addr, crossed) = self.resolve(ins.addressing_mode);
        self.apply_op(ins, addr, crossed)
    }

    /// Reset the CPU: the stack pointer moves down three slots, nothing is
    /// pushed, Interrupt-Disable is set, and the program counter is loaded
    /// from the reset vector.
    pub fn reset(&mut self)
        requires
            old(self).wf(),
        ensures
            final(self).wf(),
            final(self)@ == interrupt_spec(old(self)@, InterruptType::Reset),
    {
        self.raise(InterruptType::Reset);
    }

    /// Decode an opcode byte.  The table is total over all 256 byte values,
    /// so decoding always succeeds; the `Result` is the decode interface
    /// shared with partial tables, whose missing entries surface as a
    /// `NotFoundError` rather than a panic.
    pub fn decode(&self, opcode: u8) -> (r: Result<Instruction, NotFoundError>)
        ensures
            r matches Ok(ins) && ins == decode_spec(opcode),
    {
        Ok(Instruction::from_opcode(opcode))
    }

    /// Copy a program fragment into memory at the current program counter
    /// and run it: execute one instruction at a time while the program
    /// counter stays inside the fragment and the CPU has not halted, at
    /// most one instruction per fragment byte.  Returns the total cycles
    /// consumed.
    pub fn execute(&mut self, opcodes: &[u8]) -> (cycles: u64)
        requires
            old(self).wf(),
            old(self)@.pc + opcodes@.len() <= 0x10000,
        ensures
            final(self).wf(),
            ({
                let loaded = load_program_spec(old(self)@, old(self)@.pc, opcodes@);
                let o = run_spec(
                    loaded,
                    old(self)@.pc,
                    old(self)@.pc + opcodes@.len(),
                    opcodes@.len() as nat,
                );
                final(self)@ == o.state && cycles == o.cycles
            }),
    {
        let start = self.pc;
        let len = opcodes.len();
        let ghost s0 = self@;
        let ghost loaded = load_program_spec(s0, start, opcodes@);
        let ghost end = start + opcodes@.len();

        let mut i: usize = 0;
        while i < len
            invariant
                self.wf(),
                i <= len,
                len == opcodes@.len(),
                start == s0.pc,
                start + len <= 0x10000,
                self@.mem.len() == 0x10000,
                forall|j: int|
                    0 <= j < 0x10000 ==> self@.mem[j] == (if start <= j < start + i {
                        opcodes@[j - start]
                    } else {
                        s0.mem[j]
                    }),
                self@ == (CpuState { mem: self@.mem, ..s0 }),
            decreases len - i,
        {
            self.write_u8(start + (i as u16), opcodes[i]);
            i += 1;
        }
        proof {
            assert(self@.mem =~= loaded.mem);
        }

        let mut steps: usize = 0;
        let mut cycles: u64 = 0;
        while steps < len && !self.halted && start <= self.pc && ((self.pc as u64) < (start as u64)
            + (len as u64))
            invariant
                self.wf(),
                steps <= len,
                len == opcodes@.len(),
                end == start + len,
                start + len <= 0x10000,
                cycles <= steps * 255,
                run_spec(loaded, start, end, len as nat).state == run_spec(
                    self@,
                    start,
                    end,
                    (len - steps) as nat,
                ).state,
                run_spec(loaded, start, end, len as nat).cycles == cycles + run_spec(
                    self@,
                    start,
                    end,
                    (len - steps) as nat,
                ).cycles,
            decreases len - steps,
        {
            let c = self.step();
            cycles = cycles + (c as u64);
            steps += 1;
        }
        cycles
    }
}

impl Default for Cpu {
    fn default() -> (r: Cpu)
        ensures
            r.wf(),
            r@ == initial_state(),
    {
        Cpu::new()
    }
}

/// Base cycles plus one when indexing crossed a page.
fn page_penalty(base: u8, crossed: bool) -> (r: u8)
    ensures
        r == crate::semantics::page_cycles(base, crossed),
{
    if crossed {
        base.wrapping_add(1)
    } else {
        base
    }
}

} // verus!
