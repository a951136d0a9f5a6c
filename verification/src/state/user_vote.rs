//! The per-(votee, voter) record of a voter's single active vote.

use vstd::assert_seqs_equal;
use vstd::prelude::*;

use crate::error::SnsReputationError;
use crate::state::{
    derive_program_address, program_address_of, read_bytes32, write_bytes32, write_u64_le, Address,
    Tag,
};

verus! {

/// Byte length of an encoded record: an 8-byte tag, the 8-byte signed weight
/// and two 32-byte addresses.
pub const USER_VOTE_RECORD_LEN: usize = 80;

/// The voter's single active vote on a votee.  Created on the first
/// non-retracting vote, overwritten on a direction change, destroyed on
/// retraction.
#[derive(Clone, Copy, PartialEq, Debug)]
pub struct UserVote {
    /// The voter's current contribution: the sign encodes direction
    /// (positive is up), the magnitude the stake weight at cast time.
    pub value: i64,
    /// Votee address, immutable identity metadata.
    pub votee: Address,
    /// Voter address, immutable identity metadata.
    pub voter: Address,
}

/// The exact persisted layout of a vote record with the given fields:
/// `[tag: 8 bytes][signed weight: 8 bytes][votee: 32 bytes][voter: 32 bytes]`,
/// integers little-endian.
pub open spec fn spec_user_vote_bytes(value: i64, votee: Seq<u8>, voter: Seq<u8>) -> Seq<u8> {
    vstd::bytes::spec_u64_to_le_bytes(Tag::UserVote.spec_as_u64()) + vstd::bytes::spec_u64_to_le_bytes(
        value as u64,
    ) + votee + voter
}

/// Whether `buffer` holds a record with the expected discriminator tag.
pub open spec fn spec_user_vote_header_ok(buffer: Seq<u8>, expected_tag: Tag) -> bool {
    buffer.len() >= USER_VOTE_RECORD_LEN && vstd::bytes::spec_u64_from_le_bytes(
        buffer.subrange(0, 8),
    ) == expected_tag.spec_as_u64()
}

/// The signed weight stored in `buffer`.
pub open spec fn spec_user_vote_value(buffer: Seq<u8>) -> i64 {
    vstd::bytes::spec_u64_from_le_bytes(buffer.subrange(8, 16)) as i64
}

/// The votee address bytes stored in `buffer`.
pub open spec fn spec_user_vote_votee(buffer: Seq<u8>) -> Seq<u8> {
    buffer.subrange(16, 48)
}

/// The voter address bytes stored in `buffer`.
pub open spec fn spec_user_vote_voter(buffer: Seq<u8>) -> Seq<u8> {
    buffer.subrange(48, 80)
}

impl UserVote {
    /// The exact persisted layout of this record.
    pub open spec fn spec_to_bytes(self) -> Seq<u8> {
        spec_user_vote_bytes(self.value, self.votee@, self.voter@)
    }

    /// Decodes a record from `buffer`.  Fails with `DataTypeMismatch` exactly
    /// when the buffer cannot hold a record or its discriminator tag
    /// disagrees with `expected_tag`.
    pub fn from_buffer(buffer: &[u8], expected_tag: Tag) -> (r: Result<
        UserVote,
        SnsReputationError,
    >)
        ensures
            match r {
                Ok(vote) => {
                    &&& spec_user_vote_header_ok(buffer@, expected_tag)
                    &&& vote.value == spec_user_vote_value(buffer@)
                    &&& vote.votee@ == spec_user_vote_votee(buffer@)
                    &&& vote.voter@ == spec_user_vote_voter(buffer@)
                },
                Err(e) => {
                    &&& !spec_user_vote_header_ok(buffer@, expected_tag)
                    &&& e == SnsReputationError::DataTypeMismatch
                },
            },
    {
        if buffer.len() < USER_VOTE_RECORD_LEN {
            return Err(SnsReputationError::DataTypeMismatch);
        }
        let tag = vstd::bytes::u64_from_le_bytes(vstd::slice::slice_subrange(buffer, 0, 8));
        if tag != expected_tag.as_u64() {
            return Err(SnsReputationError::DataTypeMismatch);
        }
        let value = vstd::bytes::u64_from_le_bytes(vstd::slice::slice_subrange(buffer, 8, 16))
            as i64;
        let votee = Address { bytes: read_bytes32(buffer, 16) };
        let voter = Address { bytes: read_bytes32(buffer, 48) };
        Ok(UserVote { value, votee, voter })
    }

    /// The deterministic address and nonce of the vote record of the
    /// `(votee, voter)` pair given by `addresses`, or `None` when the host's
    /// derivation has no valid address for the pair.
    pub fn find_key(program_id: &Address, addresses: &(Address, Address)) -> (r: Option<
        (Address, u8),
    >)
        ensures
            match (r, program_address_of(seq![addresses.0@, addresses.1@], program_id@)) {
                (Some(k), Some(d)) => k.0@ == d.0 && k.1 == d.1,
                (None, None) => true,
                _ => false,
            },
    {
        let mut seeds: Vec<Vec<u8>> = Vec::new();
        seeds.push(vstd::slice::slice_to_vec(vstd::array::array_as_slice(&addresses.0.bytes)));
        seeds.push(vstd::slice::slice_to_vec(vstd::array::array_as_slice(&addresses.1.bytes)));
        let r = derive_program_address(&seeds, program_id);
        proof {
            assert(seeds@.map_values(|s: Vec<u8>| s@) =~= seq![addresses.0@, addresses.1@]);
        }
        r
    }

    /// Encodes the record into the first `USER_VOTE_RECORD_LEN` bytes of the
    /// caller-provided storage, leaving any trailing bytes unchanged.
    pub fn save(&self, dst: &mut Vec<u8>)
        requires
            old(dst)@.len() >= USER_VOTE_RECORD_LEN,
        ensures
            final(dst)@.len() == old(dst)@.len(),
            final(dst)@.subrange(0, USER_VOTE_RECORD_LEN as int) == self.spec_to_bytes(),
            forall|i: int|
                USER_VOTE_RECORD_LEN <= i < old(dst)@.len() ==> final(dst)@[i] == old(dst)@[i],
    {
        write_u64_le(dst, 0, Tag::UserVote.as_u64());
        write_u64_le(dst, 8, self.value as u64);
        write_bytes32(dst, 16, &self.votee.bytes);
        write_bytes32(dst, 48, &self.voter.bytes);
        proof {
            vstd::bytes::lemma_auto_spec_u64_to_from_le_bytes();
            assert_seqs_equal!(
                final(dst)@.subrange(0, USER_VOTE_RECORD_LEN as int) == self.spec_to_bytes()
            );
        }
    }

    /// Uniqueness: the deterministic address of a pair's vote record is a
    /// pure function of the (votee, voter) pair and the deriving program.
    /// Equal pairs always derive equal addresses, so the address itself is
    /// the constraint that keeps at most one active vote record per pair.
    pub proof fn lemma_vote_record_address_unique(
        program_id: Address,
        votee1: Address,
        voter1: Address,
        votee2: Address,
        voter2: Address,
    )
        requires
            votee1@ == votee2@,
            voter1@ == voter2@,
        ensures
            program_address_of(seq![votee1@, voter1@], program_id@) == program_address_of(
                seq![votee2@, voter2@],
                program_id@,
            ),
    {
        assert(seq![votee1@, voter1@] =~= seq![votee2@, voter2@]);
    }

    /// Decoding an encoded record under the `UserVote` tag yields the record
    /// back, whatever trailing bytes follow it.
    pub proof fn lemma_round_trip(self, rest: Seq<u8>)
        ensures
            spec_user_vote_header_ok(self.spec_to_bytes() + rest, Tag::UserVote),
            spec_user_vote_value(self.spec_to_bytes() + rest) == self.value,
            spec_user_vote_votee(self.spec_to_bytes() + rest) == self.votee@,
            spec_user_vote_voter(self.spec_to_bytes() + rest) == self.voter@,
    {
        lemma_user_vote_bytes_round_trip(self.value, self.votee@, self.voter@, rest);
    }
}

/// Decoding an encoded vote record under the `UserVote` tag yields its
/// fields back, whatever trailing bytes follow it.
pub proof fn lemma_user_vote_bytes_round_trip(
    value: i64,
    votee: Seq<u8>,
    voter: Seq<u8>,
    rest: Seq<u8>,
)
    requires
        votee.len() == 32,
        voter.len() == 32,
    ensures
        spec_user_vote_header_ok(spec_user_vote_bytes(value, votee, voter) + rest, Tag::UserVote),
        spec_user_vote_value(spec_user_vote_bytes(value, votee, voter) + rest) == value,
        spec_user_vote_votee(spec_user_vote_bytes(value, votee, voter) + rest) == votee,
        spec_user_vote_voter(spec_user_vote_bytes(value, votee, voter) + rest) == voter,
{
    vstd::bytes::lemma_auto_spec_u64_to_from_le_bytes();
    let b = spec_user_vote_bytes(value, votee, voter) + rest;
    assert_seqs_equal!(
        b.subrange(0, 8) == vstd::bytes::spec_u64_to_le_bytes(Tag::UserVote.spec_as_u64())
    );
    assert_seqs_equal!(b.subrange(8, 16) == vstd::bytes::spec_u64_to_le_bytes(value as u64));
    assert(((value as u64) as i64) == value) by (bit_vector);
    assert_seqs_equal!(b.subrange(16, 48) == votee);
    assert_seqs_equal!(b.subrange(48, 80) == voter);
}

} // verus!
