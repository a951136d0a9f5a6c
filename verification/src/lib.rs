//! A reputation-voting ledger.
//!
//! Any account (the voter) may cast a weighted up- or down-vote on another
//! account (the votee).  The ledger keeps two kinds of persistent records:
//! a per-votee [`state::reputation_score::ReputationScore`] with the running
//! totals of active vote weight, and a per-(votee, voter)
//! [`state::user_vote::UserVote`] holding that voter's single active vote.
//! The vote state machine in [`processor::vote`] creates, flips and retracts
//! votes while preserving the arithmetic invariants that tie the two records
//! together.

pub mod error;
pub mod instruction;
pub mod processor;
pub mod state;
