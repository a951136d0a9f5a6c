//! The error taxonomy of the ledger.  Every failed operation surfaces one of
//! these kinds and leaves storage untouched.

use vstd::prelude::*;

verus! {

/// Everything that can go wrong while processing a vote.
#[derive(Clone, Copy, PartialEq, Eq, Structural, Debug)]
pub enum SnsReputationError {
    /// The account is already initialized.
    AlreadyInitialized,
    /// A decoded record's discriminator tag does not match the expected one.
    DataTypeMismatch,
    /// An account has the wrong owner.
    WrongOwner,
    /// The account is uninitialized.
    Uninitialized,
    /// The requested vote has the same sign as the voter's existing vote.
    AlreadyVoted,
    /// A retraction was requested but no active vote exists for the pair.
    NoVoteExists,
    /// A non-retracting vote was cast with no stake records supplied.
    MissingStakeAccount,
    /// A supplied stake record fails ownership, authorization or lockup checks.
    InvalidStakeAccount,
    /// A supplied account does not sit at the record's deterministic address.
    WrongKey,
    /// The instruction byte stream could not be decoded.
    InvalidInstruction,
    /// Fewer accounts were supplied than the operation works on.
    NotEnoughAccountKeys,
    /// Checked arithmetic failed: an internal-invariant violation surfaced as
    /// a fatal error.
    Overflow,
}

impl SnsReputationError {
    /// The stable numeric code of this error kind.
    pub open spec fn spec_error_code(self) -> u32 {
        match self {
            SnsReputationError::AlreadyInitialized => 0,
            SnsReputationError::DataTypeMismatch => 1,
            SnsReputationError::WrongOwner => 2,
            SnsReputationError::Uninitialized => 3,
            SnsReputationError::AlreadyVoted => 4,
            SnsReputationError::NoVoteExists => 5,
            SnsReputationError::MissingStakeAccount => 6,
            SnsReputationError::InvalidStakeAccount => 7,
            SnsReputationError::WrongKey => 8,
            SnsReputationError::InvalidInstruction => 9,
            SnsReputationError::NotEnoughAccountKeys => 10,
            SnsReputationError::Overflow => 11,
        }
    }

    /// Exec twin of [`SnsReputationError::spec_error_code`].
    pub fn error_code(self) -> (r: u32)
        ensures
            r == self.spec_error_code(),
    {
        match self {
            SnsReputationError::AlreadyInitialized => 0,
            SnsReputationError::DataTypeMismatch => 1,
            SnsReputationError::WrongOwner => 2,
            SnsReputationError::Uninitialized => 3,
            SnsReputationError::AlreadyVoted => 4,
            SnsReputationError::NoVoteExists => 5,
            SnsReputationError::MissingStakeAccount => 6,
            SnsReputationError::InvalidStakeAccount => 7,
            SnsReputationError::WrongKey => 8,
            SnsReputationError::InvalidInstruction => 9,
            SnsReputationError::NotEnoughAccountKeys => 10,
            SnsReputationError::Overflow => 11,
        }
    }

    /// A human-readable description of this error kind.
    pub fn message(self) -> (r: &'static str)
        ensures
            match self {
                SnsReputationError::AlreadyInitialized => r@
                    == "This account is already initialized"@,
                SnsReputationError::DataTypeMismatch => r@ == "Data type mismatch"@,
                SnsReputationError::WrongOwner => r@ == "Wrong account owner"@,
                SnsReputationError::Uninitialized => r@ == "Account is uninitialized"@,
                SnsReputationError::AlreadyVoted => r@ == "Already voted"@,
                SnsReputationError::NoVoteExists => r@ == "No vote exists"@,
                SnsReputationError::MissingStakeAccount => r@
                    == "A valid stake account is necessary to be allowed to vote"@,
                SnsReputationError::InvalidStakeAccount => r@
                    == "A valid stake account is necessary to be allowed to vote"@,
                SnsReputationError::WrongKey => r@
                    == "Account does not match the derived record address"@,
                SnsReputationError::InvalidInstruction => r@ == "Invalid instruction data"@,
                SnsReputationError::NotEnoughAccountKeys => r@ == "Not enough accounts supplied"@,
                SnsReputationError::Overflow => r@ == "Arithmetic overflow"@,
            },
    {
        match self {
            SnsReputationError::AlreadyInitialized => "This account is already initialized",
            SnsReputationError::DataTypeMismatch => "Data type mismatch",
            SnsReputationError::WrongOwner => "Wrong account owner",
            SnsReputationError::Uninitialized => "Account is uninitialized",
            SnsReputationError::AlreadyVoted => "Already voted",
            SnsReputationError::NoVoteExists => "No vote exists",
            SnsReputationError::MissingStakeAccount => {
                "A valid stake account is necessary to be allowed to vote"
            },
            SnsReputationError::InvalidStakeAccount => {
                "A valid stake account is necessary to be allowed to vote"
            },
            SnsReputationError::WrongKey => "Account does not match the derived record address",
            SnsReputationError::InvalidInstruction => "Invalid instruction data",
            SnsReputationError::NotEnoughAccountKeys => "Not enough accounts supplied",
            SnsReputationError::Overflow => "Arithmetic overflow",
        }
    }
}

} // verus!
