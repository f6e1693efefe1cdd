//! The ghost model of the machine: registers, flags, memory and the halt
//! latch as one mathematical value, together with the arithmetic helpers
//! (wrapping addition, byte splitting, page extraction) that the
//! specifications are written over.

use vstd::prelude::*;

use crate::flags::Flags;

verus! {

/// Number of addressable bytes: the full 16-bit space.
pub const MEMORY_SIZE: usize = 0x10000;

/// High byte of the fixed stack page: the stack lives at 0x0100..=0x01FF.
pub const STACK_PAGE: u16 = 0x0100;

/// The machine as a mathematical value.  `mem` always has length
/// `MEMORY_SIZE`; the stack pointer is an offset into the fixed stack page.
pub ghost struct CpuState {
    pub pc: u16,
    pub sp: u8,
    pub acc: u8,
    pub x: u8,
    pub y: u8,
    pub flags: Flags,
    pub mem: Seq<u8>,
    pub halted: bool,
}

/// 8-bit addition that wraps modulo 256.
pub open spec fn wadd8(a: u8, b: u8) -> u8 {
    if a + b > 0xFF {
        (a + b - 0x100) as u8
    } else {
        (a + b) as u8
    }
}

/// 8-bit subtraction that wraps modulo 256.
pub open spec fn wsub8(a: u8, b: u8) -> u8 {
    if a - b < 0 {
        (a - b + 0x100) as u8
    } else {
        (a - b) as u8
    }
}

/// 16-bit addition that wraps modulo 65536.
pub open spec fn wadd16(a: u16, b: u16) -> u16 {
    if a + b > 0xFFFF {
        (a + b - 0x10000) as u16
    } else {
        (a + b) as u16
    }
}

/// 16-bit subtraction that wraps modulo 65536.
pub open spec fn wsub16(a: u16, b: u16) -> u16 {
    if a - b < 0 {
        (a - b + 0x10000) as u16
    } else {
        (a - b) as u16
    }
}

/// The 256-byte page an address belongs to (its high byte).
pub open spec fn page_of(a: u16) -> u16 {
    a / 0x100
}

/// Low byte of a 16-bit address.
pub open spec fn addr_lo(a: u16) -> u8 {
    (a % 0x100) as u8
}

/// High byte of a 16-bit address.
pub open spec fn addr_hi(a: u16) -> u8 {
    (a / 0x100) as u8
}

/// A 16-bit address from its little-endian bytes.
pub open spec fn make_addr(lo: u8, hi: u8) -> u16 {
    (lo + hi * 0x100) as u16
}

/// Splitting an address built from two bytes gives those bytes back.
pub proof fn lemma_make_addr_parts(lo: u8, hi: u8)
    ensures
        make_addr(lo, hi) % 0x100 == lo,
        make_addr(lo, hi) / 0x100 == hi,
        addr_lo(make_addr(lo, hi)) == lo,
        addr_hi(make_addr(lo, hi)) == hi,
{
    assert((lo + hi * 0x100) % 0x100 == lo && (lo + hi * 0x100) / 0x100 == hi)
        by (nonlinear_arith)
        requires
            lo < 0x100,
            hi < 0x100,
    ;
}

impl CpuState {
    /// The model is well formed when its memory covers the whole space.
    pub open spec fn wf(self) -> bool {
        self.mem.len() == MEMORY_SIZE
    }

    /// The byte stored at an address.
    pub open spec fn read(self, a: u16) -> u8 {
        self.mem[a as int]
    }

    /// A 16-bit little-endian value read at an address; the high byte comes
    /// from the following address, wrapping at the top of the space.
    pub open spec fn read16(self, a: u16) -> u16 {
        make_addr(self.read(a), self.read(wadd16(a, 1)))
    }

    /// The state with one byte of memory replaced.
    pub open spec fn with_mem(self, a: u16, v: u8) -> CpuState {
        CpuState { mem: self.mem.update(a as int, v), ..self }
    }

    /// The state with the program counter replaced.
    pub open spec fn with_pc(self, pc: u16) -> CpuState {
        CpuState { pc, ..self }
    }

    /// The state after pushing one byte: the byte lands at the current stack
    /// slot and the pointer moves one slot toward lower addresses, wrapping
    /// inside the fixed page.
    pub open spec fn push(self, v: u8) -> CpuState {
        CpuState {
            sp: wsub8(self.sp, 1),
            ..self.with_mem((STACK_PAGE + self.sp) as u16, v)
        }
    }

    /// The value a pop returns: the pointer moves one slot toward higher
    /// addresses (wrapping inside the page) and the byte there is read.
    pub open spec fn pop_value(self) -> u8 {
        self.read((STACK_PAGE + wadd8(self.sp, 1)) as u16)
    }

    /// The state after popping one byte.
    pub open spec fn pop_state(self) -> CpuState {
        CpuState { sp: wadd8(self.sp, 1), ..self }
    }
}

} // verus!
