//! Common state datatypes: addresses, record tags, vote values, and the
//! model of a backing storage account.

use vstd::prelude::*;

pub mod reputation_score;
pub mod user_vote;

verus! {

/// A fixed-width account address, the identity of every stored record and of
/// every participant.
#[derive(Clone, Copy, Debug)]
pub struct Address {
    pub bytes: [u8; 32],
}

impl View for Address {
    type V = Seq<u8>;

    open spec fn view(&self) -> Seq<u8> {
        self.bytes@
    }
}

impl PartialEq for Address {
    fn eq(&self, other: &Address) -> (r: bool) {
        let mut j: usize = 0;
        while j < 32
            invariant
                j <= 32,
                forall|i: int| 0 <= i < j ==> self.bytes@[i] == other.bytes@[i],
            decreases 32 - j,
        {
            if self.bytes[j] != other.bytes[j] {
                return false;
            }
            j = j + 1;
        }
        proof {
            assert(self.bytes@ =~= other.bytes@);
        }
        true
    }
}

impl vstd::std_specs::cmp::PartialEqSpecImpl for Address {
    open spec fn obeys_eq_spec() -> bool {
        true
    }

    open spec fn eq_spec(&self, other: &Address) -> bool {
        self.bytes@ == other.bytes@
    }
}

/// The record discriminator: a type identifier written as the first bytes of
/// every persisted record and checked on every read.
#[derive(Clone, Copy, PartialEq, Eq, Structural, Debug)]
pub enum Tag {
    Uninitialized,
    ReputationScore,
    UserVote,
}

impl Tag {
    /// The fixed-width integer value written to storage for this tag.
    pub open spec fn spec_as_u64(self) -> u64 {
        match self {
            Tag::Uninitialized => 0,
            Tag::ReputationScore => 1,
            Tag::UserVote => 2,
        }
    }

    /// Exec twin of [`Tag::spec_as_u64`].
    pub fn as_u64(self) -> (r: u64)
        ensures
            r == self.spec_as_u64(),
    {
        match self {
            Tag::Uninitialized => 0,
            Tag::ReputationScore => 1,
            Tag::UserVote => 2,
        }
    }
}

/// The ternary input of every vote call.  `NoVote` retracts an existing vote;
/// it is never the content of a stored record.
#[derive(Clone, Copy, PartialEq, Eq, Structural, Debug)]
pub enum VoteValue {
    NoVote,
    Downvote,
    Upvote,
}

impl VoteValue {
    /// The sign this vote value contributes to a stored signed weight.
    pub open spec fn spec_sign(self) -> int {
        match self {
            VoteValue::NoVote => 0,
            VoteValue::Downvote => -1,
            VoteValue::Upvote => 1,
        }
    }

    /// Exec twin of [`VoteValue::spec_sign`].
    pub fn sign(self) -> (r: i64)
        ensures
            r as int == self.spec_sign(),
    {
        match self {
            VoteValue::NoVote => 0,
            VoteValue::Downvote => -1,
            VoteValue::Upvote => 1,
        }
    }

    /// The vote value named by its serialized variant index, if any.
    pub open spec fn spec_from_u8(value: u8) -> Option<VoteValue> {
        if value == 0 {
            Some(VoteValue::NoVote)
        } else if value == 1 {
            Some(VoteValue::Downvote)
        } else if value == 2 {
            Some(VoteValue::Upvote)
        } else {
            None
        }
    }

    /// Exec twin of [`VoteValue::spec_from_u8`].
    pub fn from_u8(value: u8) -> (r: Option<VoteValue>)
        ensures
            r == Self::spec_from_u8(value),
    {
        if value == 0 {
            Some(VoteValue::NoVote)
        } else if value == 1 {
            Some(VoteValue::Downvote)
        } else if value == 2 {
            Some(VoteValue::Upvote)
        } else {
            None
        }
    }

    /// The serialized variant index of this vote value; decoding it yields
    /// the value back.
    pub fn as_u8(self) -> (r: u8)
        ensures
            Self::spec_from_u8(r) == Some(self),
    {
        match self {
            VoteValue::NoVote => 0,
            VoteValue::Downvote => 1,
            VoteValue::Upvote => 2,
        }
    }
}

/// The sign of a stored signed weight.
pub open spec fn spec_signum(x: int) -> int {
    if x > 0 {
        1
    } else if x < 0 {
        -1
    } else {
        0
    }
}

/// The state of one backing storage slot: its deterministic address, the
/// balance that funds it, and its raw record bytes.  An empty `data` means
/// the slot is unallocated.
#[derive(PartialEq, Debug)]
pub struct StoredAccount {
    pub key: Address,
    pub lamports: u64,
    pub data: Vec<u8>,
}

/// Writes the eight little-endian bytes of `x` at `offset`, leaving every
/// other byte of `dst` unchanged.
pub fn write_u64_le(dst: &mut Vec<u8>, offset: usize, x: u64)
    requires
        offset + 8 <= old(dst)@.len(),
    ensures
        final(dst)@.len() == old(dst)@.len(),
        final(dst)@.subrange(offset as int, offset + 8) == vstd::bytes::spec_u64_to_le_bytes(x),
        forall|i: int|
            0 <= i < old(dst)@.len() && !(offset <= i < offset + 8) ==> final(dst)@[i] == old(
                dst,
            )@[i],
{
    let bytes = vstd::bytes::u64_to_le_bytes(x);
    let n: usize = dst.len();
    let mut j: usize = 0;
    while j < 8
        invariant
            j <= 8,
            n == dst@.len(),
            offset + 8 <= dst@.len(),
            bytes@ == vstd::bytes::spec_u64_to_le_bytes(x),
            bytes@.len() == 8,
            dst@.len() == old(dst)@.len(),
            forall|i: int| offset <= i < offset + j ==> dst@[i] == bytes@[i - offset],
            forall|i: int|
                0 <= i < old(dst)@.len() && !(offset <= i < offset + j) ==> dst@[i] == old(
                    dst,
                )@[i],
        decreases 8 - j,
    {
        let b = bytes[j];
        dst[offset + j] = b;
        j = j + 1;
    }
    proof {
        assert(final(dst)@.subrange(offset as int, offset + 8) =~= vstd::bytes::spec_u64_to_le_bytes(
            x,
        ));
    }
}

/// Writes the 32 bytes of `src` at `offset`, leaving every other byte of
/// `dst` unchanged.
pub fn write_bytes32(dst: &mut Vec<u8>, offset: usize, src: &[u8; 32])
    requires
        offset + 32 <= old(dst)@.len(),
    ensures
        final(dst)@.len() == old(dst)@.len(),
        final(dst)@.subrange(offset as int, offset + 32) == src@,
        forall|i: int|
            0 <= i < old(dst)@.len() && !(offset <= i < offset + 32) ==> final(dst)@[i] == old(
                dst,
            )@[i],
{
    let n: usize = dst.len();
    let mut j: usize = 0;
    while j < 32
        invariant
            j <= 32,
            n == dst@.len(),
            offset + 32 <= dst@.len(),
            dst@.len() == old(dst)@.len(),
            forall|i: int| offset <= i < offset + j ==> dst@[i] == src@[i - offset],
            forall|i: int|
                0 <= i < old(dst)@.len() && !(offset <= i < offset + j) ==> dst@[i] == old(
                    dst,
                )@[i],
        decreases 32 - j,
    {
        let b = src[j];
        dst[offset + j] = b;
        j = j + 1;
    }
    proof {
        assert(final(dst)@.subrange(offset as int, offset + 32) =~= src@);
    }
}

/// What `Pubkey::try_find_program_address` answers for a given seed list and
/// program id: the derived address and its bump nonce, a pure function of
/// the two arguments.
pub uninterp spec fn program_address_of(seeds: Seq<Seq<u8>>, program_id: Seq<u8>) -> Option<
    (Seq<u8>, u8),
>;

/// Relies on `solana_program::pubkey::Pubkey::try_find_program_address`: the
/// derived address and bump nonce depend on the seed list and program id
/// alone (a deterministic search over SHA-256 digests), and `None` comes
/// back exactly when no bump nonce yields a valid derived address.
#[verifier::external_body]
pub(crate) fn derive_program_address(seeds: &Vec<Vec<u8>>, program_id: &Address) -> (r: Option<
    (Address, u8),
>)
    ensures
        match (r, program_address_of(seeds@.map_values(|s: Vec<u8>| s@), program_id@)) {
            (Some(k), Some(d)) => k.0@ == d.0 && k.1 == d.1,
            (None, None) => true,
            _ => false,
        },
{
    let pid = solana_program::pubkey::Pubkey::new_from_array(program_id.bytes);
    let seed_slices: Vec<&[u8]> = seeds.iter().map(|s| s.as_slice()).collect();
    match solana_program::pubkey::Pubkey::try_find_program_address(&seed_slices, &pid) {
        Some((key, nonce)) => Some((Address { bytes: key.to_bytes() }, nonce)),
        None => None,
    }
}

/// Reads 32 bytes starting at `offset` into a fresh fixed-width array.
pub fn read_bytes32(src: &[u8], offset: usize) -> (r: [u8; 32])
    requires
        offset + 32 <= src@.len(),
    ensures
        r@ == src@.subrange(offset as int, offset + 32),
{
    let mut out: [u8; 32] = [0u8; 32];
    let n: usize = src.len();
    let mut j: usize = 0;
    while j < 32
        invariant
            j <= 32,
            n == src@.len(),
            offset + 32 <= src@.len(),
            forall|i: int| 0 <= i < j ==> out@[i] == src@[offset + i],
        decreases 32 - j,
    {
        let b = *vstd::slice::slice_index_get(src, offset + j);
        out[j] = b;
        j = j + 1;
    }
    proof {
        assert(out@ =~= src@.subrange(offset as int, offset + 32));
    }
    out
}

} // verus!
