//! The memory and stack capabilities the core consumes, stated as traits
//! over an abstract byte sequence so a full system can place other devices
//! behind them.
//!
//! The stack layers on byte access: `push` writes at the current stack
//! slot then moves the pointer one slot toward lower addresses inside the
//! fixed page; `pop` moves it one slot up and reads.  The pointer wraps
//! inside the page and never leaves it.

use vstd::prelude::*;

use crate::cpu::Cpu;
use crate::state::{wadd8, wsub8, STACK_PAGE};

verus! {

/// Byte read/write over the full 16-bit address space.
pub trait Memory {
    /// The bytes held, as a sequence indexed by address.
    spec fn mem(&self) -> Seq<u8>;

    /// Well-formedness of the carrier (for the CPU: the memory covers the
    /// whole space).
    spec fn mem_wf(&self) -> bool;

    /// Read the byte at an address.
    fn read(&self, address: u16) -> (r: u8)
        requires
            self.mem_wf(),
        ensures
            r == self.mem()[address as int],
    ;

    /// Write one byte at an address; no other byte changes.
    fn write(&mut self, address: u16, value: u8)
        requires
            old(self).mem_wf(),
        ensures
            final(self).mem_wf(),
            final(self).mem() == old(self).mem().update(address as int, value),
    ;
}

/// The last-in-first-out region used for call and interrupt bookkeeping,
/// living in the fixed stack page.
pub trait Stack: Memory {
    /// The stack pointer: an offset into the fixed stack page.
    spec fn stack_pointer(&self) -> u8;

    /// Push a byte: write it at the current stack slot, then move the
    /// pointer one slot toward lower addresses, wrapping inside the page.
    fn push(&mut self, value: u8)
        requires
            old(self).mem_wf(),
        ensures
            final(self).mem_wf(),
            final(self).mem() == old(self).mem().update(
                STACK_PAGE + old(self).stack_pointer(),
                value,
            ),
            final(self).stack_pointer() == wsub8(old(self).stack_pointer(), 1),
    ;

    /// Pop a byte: move the pointer one slot toward higher addresses,
    /// wrapping inside the page, then read the byte there.
    fn pop(&mut self) -> (r: u8)
        requires
            old(self).mem_wf(),
        ensures
            final(self).mem_wf(),
            final(self).mem() == old(self).mem(),
            final(self).stack_pointer() == wadd8(old(self).stack_pointer(), 1),
            r == old(self).mem()[STACK_PAGE + wadd8(old(self).stack_pointer(), 1)],
    ;
}

impl Memory for Cpu {
    open spec fn mem(&self) -> Seq<u8> {
        self@.mem
    }

    open spec fn mem_wf(&self) -> bool {
        self.wf()
    }

    fn read(&self, address: u16) -> (r: u8) {
        self.read_u8(address)
    }

    fn write(&mut self, address: u16, value: u8) {
        self.write_u8(address, value)
    }
}

impl Stack for Cpu {
    open spec fn stack_pointer(&self) -> u8 {
        self.sp
    }

    fn push(&mut self, value: u8) {
        self.stack_push(value)
    }

    fn pop(&mut self) -> (r: u8) {
        self.stack_pop()
    }
}

} // verus!
