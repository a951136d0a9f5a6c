//! The instruction surface of the ledger: the operation tags a caller can
//! request.

use vstd::prelude::*;

verus! {

/// The operations of the ledger.  The single operation is `Vote`:
/// cast-or-retract a vote.
#[derive(Clone, Copy, PartialEq, Eq, Structural, Debug)]
pub enum ProgramInstruction {
    Vote,
}

impl ProgramInstruction {
    /// The instruction named by a leading tag byte, if any.
    pub open spec fn spec_from_u8(value: u8) -> Option<ProgramInstruction> {
        if value == 0 {
            Some(ProgramInstruction::Vote)
        } else {
            None
        }
    }

    /// Exec twin of [`ProgramInstruction::spec_from_u8`].
    pub fn from_u8(value: u8) -> (r: Option<ProgramInstruction>)
        ensures
            r == Self::spec_from_u8(value),
    {
        if value == 0 {
            Some(ProgramInstruction::Vote)
        } else {
            None
        }
    }

    /// The leading tag byte that names this instruction; decoding it yields
    /// the instruction back.
    pub fn as_u8(self) -> (r: u8)
        ensures
            Self::spec_from_u8(r) == Some(self),
    {
        match self {
            ProgramInstruction::Vote => 0,
        }
    }
}

} // verus!
