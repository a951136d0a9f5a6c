//! The per-votee aggregate record: running totals of all currently active
//! up- and down-vote weight, together with the derivation nonce of its
//! deterministic address.

use vstd::assert_seqs_equal;
use vstd::prelude::*;

use crate::error::SnsReputationError;
use crate::state::{derive_program_address, program_address_of, write_u64_le, Address, Tag};

verus! {

/// Byte length of an encoded record: an 8-byte tag, the 1-byte nonce and two
/// 8-byte totals.
pub const REPUTATION_SCORE_RECORD_LEN: usize = 25;

/// The per-votee aggregate score.  Created lazily on the first vote ever cast
/// for a votee and never deleted afterwards.
#[derive(Clone, Copy, PartialEq, Eq, Structural, Debug)]
pub struct ReputationScore {
    /// The derivation salt of this record's deterministic address; fixed at
    /// creation.
    pub nonce: u8,
    /// Sum of the absolute weights of all currently active upvotes.
    pub upvote: u64,
    /// Sum of the absolute weights of all currently active downvotes.
    pub downvote: u64,
}

impl ReputationScore {
    /// The exact persisted layout:
    /// `[tag: 8 bytes][nonce: 1 byte][upvote: 8 bytes][downvote: 8 bytes]`,
    /// all integers little-endian.
    pub open spec fn spec_to_bytes(self) -> Seq<u8> {
        vstd::bytes::spec_u64_to_le_bytes(Tag::ReputationScore.spec_as_u64()) + seq![self.nonce]
            + vstd::bytes::spec_u64_to_le_bytes(self.upvote) + vstd::bytes::spec_u64_to_le_bytes(
            self.downvote,
        )
    }

    /// The record held by `buffer`, or `None` when the buffer is too short or
    /// its leading tag is not the expected one.
    pub open spec fn spec_decode(buffer: Seq<u8>, expected_tag: Tag) -> Option<ReputationScore> {
        if buffer.len() >= REPUTATION_SCORE_RECORD_LEN && vstd::bytes::spec_u64_from_le_bytes(
            buffer.subrange(0, 8),
        ) == expected_tag.spec_as_u64() {
            Some(
                ReputationScore {
                    nonce: buffer[8],
                    upvote: vstd::bytes::spec_u64_from_le_bytes(buffer.subrange(9, 17)),
                    downvote: vstd::bytes::spec_u64_from_le_bytes(buffer.subrange(17, 25)),
                },
            )
        } else {
            None
        }
    }

    /// Decodes a record from `buffer`.  Fails with `DataTypeMismatch` exactly
    /// when the buffer cannot hold a record or its discriminator tag
    /// disagrees with `expected_tag`.
    pub fn from_buffer(buffer: &[u8], expected_tag: Tag) -> (r: Result<
        ReputationScore,
        SnsReputationError,
    >)
        ensures
            match r {
                Ok(score) => Self::spec_decode(buffer@, expected_tag) == Some(score),
                Err(e) => {
                    &&& Self::spec_decode(buffer@, expected_tag) is None
                    &&& e == SnsReputationError::DataTypeMismatch
                },
            },
    {
        if buffer.len() < REPUTATION_SCORE_RECORD_LEN {
            return Err(SnsReputationError::DataTypeMismatch);
        }
        let tag = vstd::bytes::u64_from_le_bytes(vstd::slice::slice_subrange(buffer, 0, 8));
        if tag != expected_tag.as_u64() {
            return Err(SnsReputationError::DataTypeMismatch);
        }
        let nonce = *vstd::slice::slice_index_get(buffer, 8);
        let upvote = vstd::bytes::u64_from_le_bytes(vstd::slice::slice_subrange(buffer, 9, 17));
        let downvote = vstd::bytes::u64_from_le_bytes(vstd::slice::slice_subrange(buffer, 17, 25));
        Ok(ReputationScore { nonce, upvote, downvote })
    }

    /// The deterministic address and nonce of the votee's aggregate record,
    /// or `None` when the host's derivation has no valid address for the
    /// votee.
    pub fn find_key(program_id: &Address, user_address: &Address) -> (r: Option<(Address, u8)>)
        ensures
            match (r, program_address_of(seq![user_address@], program_id@)) {
                (Some(k), Some(d)) => k.0@ == d.0 && k.1 == d.1,
                (None, None) => true,
                _ => false,
            },
    {
        let mut seeds: Vec<Vec<u8>> = Vec::new();
        seeds.push(vstd::slice::slice_to_vec(vstd::array::array_as_slice(&user_address.bytes)));
        let r = derive_program_address(&seeds, program_id);
        proof {
            assert(seeds@.map_values(|s: Vec<u8>| s@) =~= seq![user_address@]);
        }
        r
    }

    /// Encodes the record into the first `REPUTATION_SCORE_RECORD_LEN` bytes
    /// of the caller-provided storage, leaving any trailing bytes unchanged.
    pub fn save(&self, dst: &mut Vec<u8>)
        requires
            old(dst)@.len() >= REPUTATION_SCORE_RECORD_LEN,
        ensures
            final(dst)@.len() == old(dst)@.len(),
            final(dst)@.subrange(0, REPUTATION_SCORE_RECORD_LEN as int) == self.spec_to_bytes(),
            forall|i: int|
                REPUTATION_SCORE_RECORD_LEN <= i < old(dst)@.len() ==> final(dst)@[i] == old(
                    dst,
                )@[i],
    {
        write_u64_le(dst, 0, Tag::ReputationScore.as_u64());
        dst[8] = self.nonce;
        write_u64_le(dst, 9, self.upvote);
        write_u64_le(dst, 17, self.downvote);
        proof {
            vstd::bytes::lemma_auto_spec_u64_to_from_le_bytes();
            assert_seqs_equal!(
                final(dst)@.subrange(0, REPUTATION_SCORE_RECORD_LEN as int)
                    == self.spec_to_bytes()
            );
        }
    }

    /// Decoding an encoded record under the `ReputationScore` tag yields the
    /// record back, whatever trailing bytes follow it.
    pub proof fn lemma_round_trip(self, rest: Seq<u8>)
        ensures
            Self::spec_decode(self.spec_to_bytes() + rest, Tag::ReputationScore) == Some(self),
    {
        vstd::bytes::lemma_auto_spec_u64_to_from_le_bytes();
        let b = self.spec_to_bytes() + rest;
        assert_seqs_equal!(
            b.subrange(0, 8)
                == vstd::bytes::spec_u64_to_le_bytes(Tag::ReputationScore.spec_as_u64())
        );
        assert_seqs_equal!(b.subrange(9, 17) == vstd::bytes::spec_u64_to_le_bytes(self.upvote));
        assert_seqs_equal!(b.subrange(17, 25) == vstd::bytes::spec_u64_to_le_bytes(self.downvote));
        assert(b[8] == self.nonce);
    }
}

} // verus!
