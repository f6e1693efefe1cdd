//! The decode error: an opcode byte for which a table has no entry,
//! carried back to the caller rather than panicking, so a driver can treat
//! it as a diagnostic.

use vstd::prelude::*;

verus! {

/// Error returned when an opcode byte is not present in a decode table.
/// It records the offending byte.
#[derive(Clone, Copy, Debug, PartialEq, Eq, Structural)]
pub struct NotFoundError {
    opcode: u8,
}

impl NotFoundError {
    /// The opcode byte that had no table entry.
    pub closed spec fn spec_opcode(self) -> u8 {
        self.opcode
    }

    pub fn new(opcode: u8) -> (r: Self)
        ensures
            r.spec_opcode() == opcode,
    {
        Self { opcode }
    }

    pub fn opcode(&self) -> (r: u8)
        ensures
            r == self.spec_opcode(),
    {
        self.opcode
    }
}

} // verus!
