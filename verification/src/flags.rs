//! The 6502 status register, kept as one boolean per condition bit.
//!
//! The hardware packs the flags into one byte when software reads them back
//! (PHP, BRK) and unpacks a byte on PLP and RTI.  Bit 5 has no storage on the
//! real chip and always reads back as 1; `Flags::to_byte` reproduces that.

use vstd::prelude::*;

verus! {

/// Condition codes of the CPU, one field per status bit.
///
/// Bit order in the packed byte, from bit 0 upward: Carry, Zero,
/// Interrupt-Disable, Decimal, Break, always-one, Overflow, Negative.
#[derive(Clone, Copy, Debug, PartialEq, Eq, Structural)]
pub struct Flags {
    pub carry: bool,
    pub zero: bool,
    pub interrupt_disable: bool,
    pub decimal: bool,
    pub brk: bool,
    pub overflow: bool,
    pub negative: bool,
}

/// The packed byte for a flag set; bit 5 is always 1.
pub open spec fn byte_of_flags(f: Flags) -> u8 {
    ((if f.carry {
        1int
    } else {
        0int
    }) + (if f.zero {
        2int
    } else {
        0int
    }) + (if f.interrupt_disable {
        4int
    } else {
        0int
    }) + (if f.decimal {
        8int
    } else {
        0int
    }) + (if f.brk {
        16int
    } else {
        0int
    }) + 32int + (if f.overflow {
        64int
    } else {
        0int
    }) + (if f.negative {
        128int
    } else {
        0int
    })) as u8
}

/// The flag set encoded by a packed byte.  Bits 4 (Break) and 5 (always-one)
/// carry no independent state on read-back: Break is taken as stored and the
/// always-one bit is discarded.
pub open spec fn flags_of_byte(v: u8) -> Flags {
    Flags {
        carry: v % 2 == 1,
        zero: (v / 2) % 2 == 1,
        interrupt_disable: (v / 4) % 2 == 1,
        decimal: (v / 8) % 2 == 1,
        brk: (v / 16) % 2 == 1,
        overflow: (v / 64) % 2 == 1,
        negative: v >= 128,
    }
}

impl Flags {
    /// The power-up value: Interrupt-Disable and Break set, the rest clear.
    pub fn power_up() -> (r: Flags)
        ensures
            r == Flags::power_up_spec(),
    {
        Flags {
            carry: false,
            zero: false,
            interrupt_disable: true,
            decimal: false,
            brk: true,
            overflow: false,
            negative: false,
        }
    }

    pub open spec fn power_up_spec() -> Flags {
        Flags {
            carry: false,
            zero: false,
            interrupt_disable: true,
            decimal: false,
            brk: true,
            overflow: false,
            negative: false,
        }
    }

    /// Pack the flags into one byte, with bit 5 forced to 1 as the hardware
    /// does whenever software reads the status register.
    pub fn to_byte(&self) -> (r: u8)
        ensures
            r == byte_of_flags(*self),
    {
        (if self.carry {
            1u8
        } else {
            0u8
        }) + (if self.zero {
            2u8
        } else {
            0u8
        }) + (if self.interrupt_disable {
            4u8
        } else {
            0u8
        }) + (if self.decimal {
            8u8
        } else {
            0u8
        }) + (if self.brk {
            16u8
        } else {
            0u8
        }) + 32u8 + (if self.overflow {
            64u8
        } else {
            0u8
        }) + (if self.negative {
            128u8
        } else {
            0u8
        })
    }

    /// Unpack a byte into a flag set, as PLP and RTI do.
    pub fn from_byte(v: u8) -> (r: Flags)
        ensures
            r == flags_of_byte(v),
    {
        Flags {
            carry: v % 2 == 1,
            zero: (v / 2) % 2 == 1,
            interrupt_disable: (v / 4) % 2 == 1,
            decimal: (v / 8) % 2 == 1,
            brk: (v / 16) % 2 == 1,
            overflow: (v / 64) % 2 == 1,
            negative: v >= 128,
        }
    }
}

/// Unpacking the packed form of any flag set yields that flag set back:
/// no observable flag is lost by a push/pull round trip through memory.
pub proof fn lemma_flags_byte_round_trip(f: Flags)
    ensures
        flags_of_byte(byte_of_flags(f)) == f,
{
}

} // verus!
