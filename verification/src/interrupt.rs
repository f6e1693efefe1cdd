//! Interrupt kinds, their fixed vector addresses, and the vectoring
//! protocol over the ghost model.
//!
//! Entry for NMI, IRQ and BRK pushes the program counter (high byte first)
//! and the packed status byte, sets Interrupt-Disable, and loads the
//! program counter from the vector.  IRQ and BRK are suppressed while
//! Interrupt-Disable is set; NMI and Reset never are.  Reset pushes
//! nothing: it only moves the stack pointer down by three slots and sets
//! Interrupt-Disable before vectoring.

use vstd::prelude::*;

use crate::flags::{byte_of_flags, Flags};
use crate::state::{addr_hi, addr_lo, wsub8, CpuState};

verus! {

/// Vector address holding the entry point taken on reset.
pub const RESET_VECTOR: u16 = 0xFFFC;

/// Vector address holding the entry point taken on a non-maskable interrupt.
pub const NMI_VECTOR: u16 = 0xFFFA;

/// Vector address shared by maskable interrupts and the BRK instruction.
pub const IRQ_VECTOR: u16 = 0xFFFE;

/// The four interrupt kinds of the CPU.
#[derive(Clone, Copy, Debug, PartialEq, Eq, Structural)]
pub enum InterruptType {
    Reset,
    NMI,
    IRQ,
    BRK,
}

/// An interrupt kind paired with the vector address it reads its entry
/// point from.
#[derive(Clone, Copy, Debug, PartialEq, Eq, Structural)]
pub struct Interrupt {
    pub int_type: InterruptType,
    pub vec_addr: u16,
}

/// The vector address associated with each interrupt kind.
pub open spec fn vector_of(kind: InterruptType) -> u16 {
    match kind {
        InterruptType::Reset => RESET_VECTOR,
        InterruptType::NMI => NMI_VECTOR,
        InterruptType::IRQ => IRQ_VECTOR,
        InterruptType::BRK => IRQ_VECTOR,
    }
}

impl Interrupt {
    /// The descriptor for an interrupt kind: the kind together with its
    /// fixed vector address.
    pub fn of(kind: InterruptType) -> (r: Interrupt)
        ensures
            r.int_type == kind,
            r.vec_addr == vector_of(kind),
    {
        let vec_addr = match kind {
            InterruptType::Reset => RESET_VECTOR,
            InterruptType::NMI => NMI_VECTOR,
            InterruptType::IRQ => IRQ_VECTOR,
            InterruptType::BRK => IRQ_VECTOR,
        };
        Interrupt { int_type: kind, vec_addr }
    }
}

/// The entry protocol shared by NMI, IRQ and BRK: push the return program
/// counter high byte then low byte, push the packed status byte, set
/// Interrupt-Disable, and load the program counter from the vector (read
/// after the pushes).
pub open spec fn interrupt_entry(s: CpuState, vec: u16) -> CpuState {
    let pushed = s.push(addr_hi(s.pc)).push(addr_lo(s.pc)).push(byte_of_flags(s.flags));
    CpuState {
        pc: pushed.read16(vec),
        flags: Flags { interrupt_disable: true, ..s.flags },
        ..pushed
    }
}

/// The effect of raising each interrupt kind on the machine model.
pub open spec fn interrupt_spec(s: CpuState, kind: InterruptType) -> CpuState {
    match kind {
        InterruptType::Reset => CpuState {
            sp: wsub8(s.sp, 3),
            flags: Flags { interrupt_disable: true, ..s.flags },
            pc: s.read16(RESET_VECTOR),
            ..s
        },
        InterruptType::NMI => interrupt_entry(s, NMI_VECTOR),
        InterruptType::IRQ => if s.flags.interrupt_disable {
            s
        } else {
            interrupt_entry(s, IRQ_VECTOR)
        },
        InterruptType::BRK => if s.flags.interrupt_disable {
            s
        } else {
            interrupt_entry(s, IRQ_VECTOR)
        },
    }
}

} // verus!
