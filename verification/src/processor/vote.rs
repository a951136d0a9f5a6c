//! The cast-or-retract operation: stake-weight evaluation, the vote state
//! machine, and the lifecycle of the two records backing it.

use vstd::prelude::*;

use crate::error::SnsReputationError;
use crate::state::{program_address_of, spec_signum, Address, StoredAccount, Tag, VoteValue};
use crate::state::reputation_score::{ReputationScore, REPUTATION_SCORE_RECORD_LEN};
use crate::state::user_vote::{
    lemma_user_vote_bytes_round_trip, spec_user_vote_bytes, spec_user_vote_header_ok,
    spec_user_vote_value, spec_user_vote_votee, spec_user_vote_voter, UserVote,
    USER_VOTE_RECORD_LEN,
};

verus! {

/// Minimum number of epochs a stake must have been locked before it counts
/// towards a vote's weight.
pub const MIN_LOCKUP_EPOCHS: u64 = 2;

/// The parameters of a vote call.
#[derive(Clone, Copy, PartialEq, Debug)]
pub struct Params {
    /// The votee: the account being voted on.
    pub user_key: Address,
    /// The requested vote.
    pub vote_value: VoteValue,
}

/// Whether a byte stream holds exactly one encoded [`Params`] value: the
/// 32-byte votee address followed by one valid vote-value byte.
pub open spec fn spec_params_ok(data: Seq<u8>) -> bool {
    data.len() == 33 && VoteValue::spec_from_u8(data[32]) is Some
}

impl Params {
    /// Decodes the call parameters from an instruction byte stream that
    /// must hold exactly the 32-byte votee address followed by the vote
    /// value's variant index.
    pub fn try_from_slice(data: &[u8]) -> (r: Result<Params, SnsReputationError>)
        ensures
            match r {
                Ok(p) => {
                    &&& spec_params_ok(data@)
                    &&& p.user_key@ == data@.subrange(0, 32)
                    &&& Some(p.vote_value) == VoteValue::spec_from_u8(data@[32])
                },
                Err(e) => {
                    &&& !spec_params_ok(data@)
                    &&& e == SnsReputationError::InvalidInstruction
                },
            },
    {
        if data.len() != 33 {
            return Err(SnsReputationError::InvalidInstruction);
        }
        let vote_value = match VoteValue::from_u8(*vstd::slice::slice_index_get(data, 32)) {
            Some(v) => v,
            None => {
                return Err(SnsReputationError::InvalidInstruction);
            },
        };
        let user_key = Address { bytes: crate::state::read_bytes32(data, 0) };
        Ok(Params { user_key, vote_value })
    }
}

/// The accounts one vote operation works on, in the order the caller
/// supplies them; any further accounts are the voter's stake records.
pub struct Accounts<'a, T> {
    /// The host's system program, which performs allocation.
    pub system_program: &'a T,
    /// The voter, also the fee payer funding and receiving rent balances.
    pub voter: &'a T,
    /// The votee's aggregate record account.
    pub reputation_state_account: &'a T,
    /// The pair's vote record account.
    pub user_vote_state_account: &'a T,
    /// The voter's stake record accounts.
    pub voter_stake_accounts: &'a [T],
}

impl<'a, T> Accounts<'a, T> {
    /// Splits a caller-supplied account list into its named roles, failing
    /// when fewer than the four fixed accounts are present.
    pub fn parse(accounts: &'a [T]) -> (r: Result<Accounts<'a, T>, SnsReputationError>)
        ensures
            match r {
                Ok(a) => {
                    &&& accounts@.len() >= 4
                    &&& *a.system_program == accounts@[0]
                    &&& *a.voter == accounts@[1]
                    &&& *a.reputation_state_account == accounts@[2]
                    &&& *a.user_vote_state_account == accounts@[3]
                    &&& a.voter_stake_accounts@ == accounts@.skip(4)
                },
                Err(e) => {
                    &&& accounts@.len() < 4
                    &&& e == SnsReputationError::NotEnoughAccountKeys
                },
            },
    {
        if accounts.len() < 4 {
            return Err(SnsReputationError::NotEnoughAccountKeys);
        }
        let n: usize = accounts.len();
        proof {
            assert(accounts@.subrange(4, n as int) =~= accounts@.skip(4));
        }
        Ok(
            Accounts {
                system_program: vstd::slice::slice_index_get(accounts, 0),
                voter: vstd::slice::slice_index_get(accounts, 1),
                reputation_state_account: vstd::slice::slice_index_get(accounts, 2),
                user_vote_state_account: vstd::slice::slice_index_get(accounts, 3),
                voter_stake_accounts: vstd::slice::slice_subrange(accounts, 4, n),
            },
        )
    }
}

/// What a delegated stake record says, as far as the vote weight is
/// concerned: who authorized it, since when it is locked, and how much it
/// delegates.
#[derive(Clone, Copy, PartialEq, Debug)]
pub struct StakeDelegation {
    /// The authority that must equal the voter.
    pub staker: Address,
    /// The epoch the delegation became active.
    pub activation_epoch: u64,
    /// The delegated amount.
    pub stake: u64,
}

/// One externally supplied stake record: the owner of its backing account
/// and, when the account holds an active delegation, that delegation.
#[derive(Clone, Copy, PartialEq, Debug)]
pub struct StakeRecord {
    /// The owner of the record's backing account; must be the external
    /// stake-management authority.
    pub owner: Address,
    /// The delegation the record holds, or `None` when it holds no active
    /// delegation (or could not be read as one).
    pub delegation: Option<StakeDelegation>,
}

/// How the weight of a non-retracting vote is determined: from the voter's
/// locked stake, or as a fixed weight of one for non-production
/// environments.  An explicit configuration switch, never a silent default.
#[derive(Clone, Copy, PartialEq, Eq, Structural, Debug)]
pub enum WeightingPolicy {
    /// Sum the delegated stake of the voter's qualifying stake records.
    StakeWeighted,
    /// Every vote weighs one; stake records are ignored.
    FixedWeightOne,
}

/// Whether one stake record qualifies: owned by the stake-management
/// authority `stake_program`, authorized by `voter`, and locked since at
/// least `MIN_LOCKUP_EPOCHS` epochs before `current_epoch`.
pub open spec fn spec_stake_record_valid(
    rec: StakeRecord,
    voter: Address,
    stake_program: Address,
    current_epoch: u64,
) -> bool {
    &&& rec.owner@ == stake_program@
    &&& (rec.delegation matches Some(d) && d.staker@ == voter@ && current_epoch
        >= d.activation_epoch + MIN_LOCKUP_EPOCHS)
}

/// The delegated amount a record contributes to the weight.
pub open spec fn spec_record_stake(rec: StakeRecord) -> int {
    match rec.delegation {
        Some(d) => d.stake as int,
        None => 0,
    }
}

/// The sum of the delegated amounts of `records`.  No deduplication:
/// supplying the same record twice counts it twice.
pub open spec fn spec_stake_sum(records: Seq<StakeRecord>) -> int
    decreases records.len(),
{
    if records.len() == 0 {
        0
    } else {
        spec_stake_sum(records.drop_last()) + spec_record_stake(records.last())
    }
}

/// The sum of a one-longer prefix is the sum of the prefix plus the next
/// record's stake.
pub proof fn lemma_stake_sum_snoc(records: Seq<StakeRecord>, k: int)
    requires
        0 <= k < records.len(),
    ensures
        spec_stake_sum(records.subrange(0, k + 1)) == spec_stake_sum(records.subrange(0, k))
            + spec_record_stake(records[k]),
{
    assert(records.subrange(0, k + 1).drop_last() =~= records.subrange(0, k));
    assert(records.subrange(0, k + 1).last() == records[k]);
}

/// The scan of the stake-weight evaluator, from an accumulated weight `acc`:
/// stops with `InvalidStakeAccount` at the first record that does not
/// qualify, with `Overflow` when the running sum leaves the machine range,
/// and yields the final sum otherwise.
pub open spec fn spec_evaluate_from(
    records: Seq<StakeRecord>,
    voter: Address,
    stake_program: Address,
    current_epoch: u64,
    acc: u64,
) -> Result<u64, SnsReputationError>
    decreases records.len(),
{
    if records.len() == 0 {
        Ok(acc)
    } else if !spec_stake_record_valid(records[0], voter, stake_program, current_epoch) {
        Err(SnsReputationError::InvalidStakeAccount)
    } else if acc + spec_record_stake(records[0]) > u64::MAX {
        Err(SnsReputationError::Overflow)
    } else {
        spec_evaluate_from(
            records.skip(1),
            voter,
            stake_program,
            current_epoch,
            (acc + spec_record_stake(records[0])) as u64,
        )
    }
}

/// What the stake-weight evaluator answers: `MissingStakeAccount` on an
/// empty record list, otherwise the scan of [`spec_evaluate_from`] started
/// at zero.
pub open spec fn spec_evaluate(
    records: Seq<StakeRecord>,
    voter: Address,
    stake_program: Address,
    current_epoch: u64,
) -> Result<u64, SnsReputationError> {
    if records.len() == 0 {
        Err(SnsReputationError::MissingStakeAccount)
    } else {
        spec_evaluate_from(records, voter, stake_program, current_epoch, 0)
    }
}

/// The stake-weight evaluator: produces the single non-negative weight of a
/// non-retracting vote from the voter's stake records, scanning them in
/// order and failing fast on the first record that does not qualify.
pub fn compute_vote_weight(
    stake_records: &Vec<StakeRecord>,
    voter: &Address,
    stake_program: &Address,
    current_epoch: u64,
) -> (r: Result<u64, SnsReputationError>)
    ensures
        r == spec_evaluate(stake_records@, *voter, *stake_program, current_epoch),
        match r {
            Ok(w) => {
                &&& stake_records@.len() > 0
                &&& forall|i: int|
                    0 <= i < stake_records@.len() ==> spec_stake_record_valid(
                        stake_records@[i],
                        *voter,
                        *stake_program,
                        current_epoch,
                    )
                &&& w == spec_stake_sum(stake_records@)
            },
            Err(e) => {
                ||| (e == SnsReputationError::MissingStakeAccount && stake_records@.len() == 0)
                ||| (e == SnsReputationError::InvalidStakeAccount && exists|k: int|
                    0 <= k < stake_records@.len() && !spec_stake_record_valid(
                        #[trigger] stake_records@[k],
                        *voter,
                        *stake_program,
                        current_epoch,
                    ) && (forall|i: int|
                        0 <= i < k ==> spec_stake_record_valid(
                            #[trigger] stake_records@[i],
                            *voter,
                            *stake_program,
                            current_epoch,
                        )) && spec_stake_sum(stake_records@.subrange(0, k)) <= u64::MAX)
                ||| (e == SnsReputationError::Overflow && exists|k: int|
                    0 <= k < stake_records@.len() && (forall|i: int|
                        0 <= i <= k ==> spec_stake_record_valid(
                            #[trigger] stake_records@[i],
                            *voter,
                            *stake_program,
                            current_epoch,
                        )) && #[trigger] spec_stake_sum(stake_records@.subrange(0, k))
                        <= u64::MAX && spec_stake_sum(stake_records@.subrange(0, k + 1))
                        > u64::MAX)
            },
        },
{
    let n: usize = stake_records.len();
    if n == 0 {
        return Err(SnsReputationError::MissingStakeAccount);
    }
    let mut total: u64 = 0;
    let mut idx: usize = 0;
    proof {
        assert(stake_records@.skip(0) =~= stake_records@);
    }
    while idx < n
        invariant
            n == stake_records@.len(),
            idx <= n,
            forall|i: int|
                0 <= i < idx ==> spec_stake_record_valid(
                    #[trigger] stake_records@[i],
                    *voter,
                    *stake_program,
                    current_epoch,
                ),
            total == spec_stake_sum(stake_records@.subrange(0, idx as int)),
            spec_evaluate_from(
                stake_records@.skip(idx as int),
                *voter,
                *stake_program,
                current_epoch,
                total,
            ) == spec_evaluate_from(stake_records@, *voter, *stake_program, current_epoch, 0),
        decreases n - idx,
    {
        proof {
            assert(stake_records@.skip(idx as int)[0] == stake_records@[idx as int]);
            assert(stake_records@.skip(idx as int).skip(1) =~= stake_records@.skip(idx + 1));
        }
        let rec = stake_records[idx];
        let mut ok: bool = rec.owner == *stake_program;
        match rec.delegation {
            Some(d) => {
                if !(d.staker == *voter) {
                    ok = false;
                }
                if current_epoch < MIN_LOCKUP_EPOCHS || d.activation_epoch > current_epoch
                    - MIN_LOCKUP_EPOCHS {
                    ok = false;
                }
            },
            None => {
                ok = false;
            },
        }
        if !ok {
            proof {
                assert(!spec_stake_record_valid(
                    stake_records@[idx as int],
                    *voter,
                    *stake_program,
                    current_epoch,
                ));
            }
            return Err(SnsReputationError::InvalidStakeAccount);
        }
        let stake_amount: u64 = match rec.delegation {
            Some(d) => d.stake,
            None => 0,
        };
        proof {
            lemma_stake_sum_snoc(stake_records@, idx as int);
        }
        match total.checked_add(stake_amount) {
            Some(t) => {
                total = t;
            },
            None => {
                return Err(SnsReputationError::Overflow);
            },
        }
        idx = idx + 1;
    }
    proof {
        assert(stake_records@.subrange(0, n as int) =~= stake_records@);
        assert(stake_records@.skip(n as int).len() == 0);
    }
    Ok(total)
}

/// The context the host supplies to one operation: the clock, the identity
/// of the external stake-management authority, and the minimum balances its
/// rent model requires for each record's backing storage.
#[derive(Clone, Copy, PartialEq, Debug)]
pub struct HostContext {
    /// The current epoch of the host's clock.
    pub current_epoch: u64,
    /// The owner every qualifying stake record must have.
    pub stake_program: Address,
    /// The balance that must fund a freshly allocated aggregate record.
    pub reputation_score_rent: u64,
    /// The balance that must fund a freshly allocated vote record.
    pub user_vote_rent: u64,
}

/// The weight the requested vote carries: zero for a retraction (the
/// evaluator is not invoked), one under the fixed-weight policy, and the
/// evaluated stake weight otherwise.
pub open spec fn spec_requested_weight(
    requested: VoteValue,
    policy: WeightingPolicy,
    stake_records: Seq<StakeRecord>,
    voter: Address,
    ctx: HostContext,
) -> Result<u64, SnsReputationError> {
    if requested is NoVote {
        Ok(0u64)
    } else {
        match policy {
            WeightingPolicy::StakeWeighted => spec_evaluate(
                stake_records,
                voter,
                ctx.stake_program,
                ctx.current_epoch,
            ),
            WeightingPolicy::FixedWeightOne => Ok(1u64),
        }
    }
}

/// The transition table of the vote state machine.  Given the previous
/// aggregate score, the previous signed weight of the pair's vote record
/// (`None` when no record exists), the requested vote and its freshly
/// computed weight, it yields the next score and the next signed weight
/// (`None` means the record is destroyed or stays absent), or the exact
/// error that rejects the transition:
///
/// - no record and `NoVote` requested: `NoVoteExists`;
/// - a record whose sign equals the requested sign: `AlreadyVoted`;
/// - any bucket total or signed weight that leaves its machine range:
///   `Overflow`;
/// - otherwise: create, retract or flip, adjusting only the matching
///   buckets by exactly the weights involved.
pub open spec fn spec_apply_vote(
    score: ReputationScore,
    existing: Option<i64>,
    requested: VoteValue,
    weight: u64,
) -> Result<(ReputationScore, Option<i64>), SnsReputationError> {
    match existing {
        None => {
            if requested is NoVote {
                Err(SnsReputationError::NoVoteExists)
            } else if weight > i64::MAX {
                Err(SnsReputationError::Overflow)
            } else if requested is Upvote {
                if score.upvote + weight > u64::MAX {
                    Err(SnsReputationError::Overflow)
                } else {
                    Ok(
                        (
                            ReputationScore {
                                upvote: (score.upvote + weight) as u64,
                                ..score
                            },
                            Some(weight as i64),
                        ),
                    )
                }
            } else {
                if score.downvote + weight > u64::MAX {
                    Err(SnsReputationError::Overflow)
                } else {
                    Ok(
                        (
                            ReputationScore {
                                downvote: (score.downvote + weight) as u64,
                                ..score
                            },
                            Some((-(weight as int)) as i64),
                        ),
                    )
                }
            }
        },
        Some(e) => {
            if spec_signum(e as int) == requested.spec_sign() {
                Err(SnsReputationError::AlreadyVoted)
            } else if requested is NoVote {
                if e > 0 {
                    if score.upvote < e {
                        Err(SnsReputationError::Overflow)
                    } else {
                        Ok((ReputationScore { upvote: (score.upvote - e) as u64, ..score }, None))
                    }
                } else {
                    if score.downvote < -(e as int) {
                        Err(SnsReputationError::Overflow)
                    } else {
                        Ok(
                            (
                                ReputationScore {
                                    downvote: (score.downvote - -(e as int)) as u64,
                                    ..score
                                },
                                None,
                            ),
                        )
                    }
                }
            } else if weight > i64::MAX {
                Err(SnsReputationError::Overflow)
            } else if requested is Upvote {
                if score.upvote + weight > u64::MAX {
                    Err(SnsReputationError::Overflow)
                } else if score.downvote < vstd::math::abs(e as int) {
                    Err(SnsReputationError::Overflow)
                } else {
                    Ok(
                        (
                            ReputationScore {
                                upvote: (score.upvote + weight) as u64,
                                downvote: (score.downvote - vstd::math::abs(e as int)) as u64,
                                ..score
                            },
                            Some(weight as i64),
                        ),
                    )
                }
            } else {
                if score.downvote + weight > u64::MAX {
                    Err(SnsReputationError::Overflow)
                } else if score.upvote < vstd::math::abs(e as int) {
                    Err(SnsReputationError::Overflow)
                } else {
                    Ok(
                        (
                            ReputationScore {
                                downvote: (score.downvote + weight) as u64,
                                upvote: (score.upvote - vstd::math::abs(e as int)) as u64,
                                ..score
                            },
                            Some((-(weight as int)) as i64),
                        ),
                    )
                }
            }
        },
    }
}

/// The absolute value of a signed weight.
fn abs_i64(x: i64) -> (r: u64)
    ensures
        r as int == vstd::math::abs(x as int),
{
    if x >= 0 {
        x as u64
    } else {
        (-(x as i128)) as u64
    }
}

/// Exec twin of [`spec_apply_vote`]: performs one transition of the vote
/// state machine with checked arithmetic.
pub fn apply_vote(
    score: &ReputationScore,
    existing: Option<i64>,
    requested: VoteValue,
    weight: u64,
) -> (r: Result<(ReputationScore, Option<i64>), SnsReputationError>)
    ensures
        r == spec_apply_vote(*score, existing, requested, weight),
{
    match existing {
        None => {
            if matches!(requested, VoteValue::NoVote) {
                return Err(SnsReputationError::NoVoteExists);
            }
            if weight > i64::MAX as u64 {
                return Err(SnsReputationError::Overflow);
            }
            if matches!(requested, VoteValue::Upvote) {
                match score.upvote.checked_add(weight) {
                    Some(up) => Ok(
                        (ReputationScore { upvote: up, ..*score }, Some(weight as i64)),
                    ),
                    None => Err(SnsReputationError::Overflow),
                }
            } else {
                match score.downvote.checked_add(weight) {
                    Some(down) => Ok(
                        (ReputationScore { downvote: down, ..*score }, Some(-(weight as i64))),
                    ),
                    None => Err(SnsReputationError::Overflow),
                }
            }
        },
        Some(e) => {
            let existing_sign: i64 = if e > 0 {
                1
            } else if e < 0 {
                -1
            } else {
                0
            };
            if existing_sign == requested.sign() {
                return Err(SnsReputationError::AlreadyVoted);
            }
            let existing_weight = abs_i64(e);
            if matches!(requested, VoteValue::NoVote) {
                if e > 0 {
                    match score.upvote.checked_sub(existing_weight) {
                        Some(up) => Ok((ReputationScore { upvote: up, ..*score }, None)),
                        None => Err(SnsReputationError::Overflow),
                    }
                } else {
                    match score.downvote.checked_sub(existing_weight) {
                        Some(down) => Ok((ReputationScore { downvote: down, ..*score }, None)),
                        None => Err(SnsReputationError::Overflow),
                    }
                }
            } else {
                if weight > i64::MAX as u64 {
                    return Err(SnsReputationError::Overflow);
                }
                if matches!(requested, VoteValue::Upvote) {
                    match (score.upvote.checked_add(weight), score.downvote.checked_sub(
                        existing_weight,
                    )) {
                        (Some(up), Some(down)) => Ok(
                            (
                                ReputationScore { upvote: up, downvote: down, ..*score },
                                Some(weight as i64),
                            ),
                        ),
                        _ => Err(SnsReputationError::Overflow),
                    }
                } else {
                    match (score.downvote.checked_add(weight), score.upvote.checked_sub(
                        existing_weight,
                    )) {
                        (Some(down), Some(up)) => Ok(
                            (
                                ReputationScore { upvote: up, downvote: down, ..*score },
                                Some(-(weight as i64)),
                            ),
                        ),
                        _ => Err(SnsReputationError::Overflow),
                    }
                }
            }
        },
    }
}

/// What one whole operation leaves behind when it succeeds: the payer's
/// balance and, for each of the two record accounts, its balance and its
/// raw bytes.  Empty bytes mean the account's storage is reclaimed.
pub ghost struct ProcessOutcome {
    pub payer_lamports: u64,
    pub score_lamports: u64,
    pub score_data: Seq<u8>,
    pub vote_lamports: u64,
    pub vote_data: Seq<u8>,
}

/// Loading or lazily creating the aggregate record.  On an unallocated
/// account, the payer funds the rent of a fresh zero-initialized record
/// carrying the derivation nonce; on an allocated one, the record is
/// decoded under its tag.  Yields the record, the account's balance after,
/// and the payer's balance after.
pub open spec fn spec_score_stage(
    account: StoredAccount,
    payer_lamports: u64,
    rent: u64,
    nonce: u8,
) -> Result<(ReputationScore, u64, u64), SnsReputationError> {
    if account.data@.len() == 0 {
        if payer_lamports < rent {
            Err(SnsReputationError::Overflow)
        } else if account.lamports + rent > u64::MAX {
            Err(SnsReputationError::Overflow)
        } else {
            Ok(
                (
                    ReputationScore { nonce, upvote: 0, downvote: 0 },
                    (account.lamports + rent) as u64,
                    (payer_lamports - rent) as u64,
                ),
            )
        }
    } else {
        match ReputationScore::spec_decode(account.data@, Tag::ReputationScore) {
            Some(score) => Ok((score, account.lamports, payer_lamports)),
            None => Err(SnsReputationError::DataTypeMismatch),
        }
    }
}

/// The pair's existing vote, read from its account: `None` when the account
/// is unallocated, otherwise the stored signed weight with the stored votee
/// and voter address bytes, or `DataTypeMismatch` when the account bytes do
/// not hold a vote record.
pub open spec fn spec_existing_vote(account: StoredAccount) -> Result<
    Option<(i64, Seq<u8>, Seq<u8>)>,
    SnsReputationError,
> {
    if account.data@.len() == 0 {
        Ok(None)
    } else if spec_user_vote_header_ok(account.data@, Tag::UserVote) {
        Ok(
            Some(
                (
                    spec_user_vote_value(account.data@),
                    spec_user_vote_votee(account.data@),
                    spec_user_vote_voter(account.data@),
                ),
            ),
        )
    } else {
        Err(SnsReputationError::DataTypeMismatch)
    }
}

/// The functional model of one whole cast-or-retract operation, composed of
/// the stages the executable `process` walks through in the same order:
/// derived-address checks, weight evaluation, aggregate-record load or
/// creation, vote-record load, the state-machine transition, and the
/// lifecycle of the vote record's backing storage.  An error leaves no
/// outcome: the caller's storage stays as it was.
pub open spec fn spec_process(
    program_id: Address,
    voter: Address,
    payer_lamports: u64,
    reputation_state_account: StoredAccount,
    user_vote_state_account: StoredAccount,
    stake_records: Seq<StakeRecord>,
    params: Params,
    policy: WeightingPolicy,
    ctx: HostContext,
) -> Result<ProcessOutcome, SnsReputationError> {
    match program_address_of(seq![params.user_key@], program_id@) {
        None => Err(SnsReputationError::WrongKey),
        Some(sk) => if sk.0 != reputation_state_account.key@ {
            Err(SnsReputationError::WrongKey)
        } else {
            match spec_requested_weight(params.vote_value, policy, stake_records, voter, ctx) {
                Err(e) => Err(e),
                Ok(weight) => match spec_score_stage(
                    reputation_state_account,
                    payer_lamports,
                    ctx.reputation_score_rent,
                    sk.1,
                ) {
                    Err(e) => Err(e),
                    Ok(score_stage) => match program_address_of(
                        seq![params.user_key@, voter@],
                        program_id@,
                    ) {
                        None => Err(SnsReputationError::WrongKey),
                        Some(vk) => if vk.0 != user_vote_state_account.key@ {
                            Err(SnsReputationError::WrongKey)
                        } else {
                            match spec_existing_vote(user_vote_state_account) {
                                Err(e) => Err(e),
                                Ok(existing) => spec_finish_stage(
                                    voter,
                                    reputation_state_account,
                                    user_vote_state_account,
                                    params,
                                    ctx,
                                    weight,
                                    score_stage,
                                    existing,
                                ),
                            }
                        },
                    },
                },
            }
        },
    }
}

/// The tail of the functional model: the state-machine transition and the
/// resulting writes, allocation or reclamation.
pub open spec fn spec_finish_stage(
    voter: Address,
    reputation_state_account: StoredAccount,
    user_vote_state_account: StoredAccount,
    params: Params,
    ctx: HostContext,
    weight: u64,
    score_stage: (ReputationScore, u64, u64),
    existing: Option<(i64, Seq<u8>, Seq<u8>)>,
) -> Result<ProcessOutcome, SnsReputationError> {
    let existing_value: Option<i64> = match existing {
        Some(t) => Some(t.0),
        None => None,
    };
    match spec_apply_vote(score_stage.0, existing_value, params.vote_value, weight) {
        Err(e) => Err(e),
        Ok(transition) => {
            let score_data = if reputation_state_account.data@.len() == 0 {
                transition.0.spec_to_bytes()
            } else {
                transition.0.spec_to_bytes() + reputation_state_account.data@.skip(
                    REPUTATION_SCORE_RECORD_LEN as int,
                )
            };
            match (existing, transition.1) {
                (None, Some(v)) => {
                    if score_stage.2 < ctx.user_vote_rent {
                        Err(SnsReputationError::Overflow)
                    } else if user_vote_state_account.lamports + ctx.user_vote_rent > u64::MAX {
                        Err(SnsReputationError::Overflow)
                    } else {
                        Ok(
                            ProcessOutcome {
                                payer_lamports: (score_stage.2 - ctx.user_vote_rent) as u64,
                                score_lamports: score_stage.1,
                                score_data,
                                vote_lamports: (user_vote_state_account.lamports
                                    + ctx.user_vote_rent) as u64,
                                vote_data: spec_user_vote_bytes(v, params.user_key@, voter@),
                            },
                        )
                    }
                },
                (Some(t), Some(v)) => Ok(
                    ProcessOutcome {
                        payer_lamports: score_stage.2,
                        score_lamports: score_stage.1,
                        score_data,
                        vote_lamports: user_vote_state_account.lamports,
                        vote_data: spec_user_vote_bytes(v, t.1, t.2)
                            + user_vote_state_account.data@.skip(USER_VOTE_RECORD_LEN as int),
                    },
                ),
                (Some(_), None) => {
                    if score_stage.2 + user_vote_state_account.lamports > u64::MAX {
                        Err(SnsReputationError::Overflow)
                    } else {
                        Ok(
                            ProcessOutcome {
                                payer_lamports: (score_stage.2
                                    + user_vote_state_account.lamports) as u64,
                                score_lamports: score_stage.1,
                                score_data,
                                vote_lamports: 0,
                                vote_data: Seq::<u8>::empty(),
                            },
                        )
                    }
                },
                // not reachable: a transition from "no record" either fails
                // or yields a record
                (None, None) => Err(SnsReputationError::NoVoteExists),
            }
        },
    }
}

/// What a successful operation writes always decodes back: the written
/// aggregate bytes hold a record under the aggregate tag, and the written
/// vote bytes, whenever the record survives, hold a record under the vote
/// tag — no operation can leave type-confused storage behind.
pub proof fn lemma_process_outcome_decodes(
    program_id: Address,
    voter: Address,
    payer_lamports: u64,
    reputation_state_account: StoredAccount,
    user_vote_state_account: StoredAccount,
    stake_records: Seq<StakeRecord>,
    params: Params,
    policy: WeightingPolicy,
    ctx: HostContext,
    out: ProcessOutcome,
)
    requires
        spec_process(
            program_id,
            voter,
            payer_lamports,
            reputation_state_account,
            user_vote_state_account,
            stake_records,
            params,
            policy,
            ctx,
        ) == Ok::<ProcessOutcome, SnsReputationError>(out),
    ensures
        ReputationScore::spec_decode(out.score_data, Tag::ReputationScore) is Some,
        out.vote_data.len() > 0 ==> spec_user_vote_header_ok(out.vote_data, Tag::UserVote),
{
    match program_address_of(seq![params.user_key@], program_id@) {
        None => {},
        Some(sk) => {
            match spec_requested_weight(params.vote_value, policy, stake_records, voter, ctx) {
                Err(_) => {},
                Ok(weight) => {
                    match spec_score_stage(
                        reputation_state_account,
                        payer_lamports,
                        ctx.reputation_score_rent,
                        sk.1,
                    ) {
                        Err(_) => {},
                        Ok(score_stage) => {
                            match spec_existing_vote(user_vote_state_account) {
                                Err(_) => {},
                                Ok(existing) => {
                                    let existing_value: Option<i64> = match existing {
                                        Some(t) => Some(t.0),
                                        None => None,
                                    };
                                    match spec_apply_vote(
                                        score_stage.0,
                                        existing_value,
                                        params.vote_value,
                                        weight,
                                    ) {
                                        Err(_) => {},
                                        Ok(transition) => {
                                            if reputation_state_account.data@.len() == 0 {
                                                transition.0.lemma_round_trip(Seq::<u8>::empty());
                                                assert(transition.0.spec_to_bytes()
                                                    + Seq::<u8>::empty()
                                                    =~= transition.0.spec_to_bytes());
                                            } else {
                                                transition.0.lemma_round_trip(
                                                    reputation_state_account.data@.skip(
                                                        REPUTATION_SCORE_RECORD_LEN as int,
                                                    ),
                                                );
                                            }
                                            match (existing, transition.1) {
                                                (None, Some(v)) => {
                                                    lemma_user_vote_bytes_round_trip(
                                                        v,
                                                        params.user_key@,
                                                        voter@,
                                                        Seq::<u8>::empty(),
                                                    );
                                                    assert(spec_user_vote_bytes(
                                                        v,
                                                        params.user_key@,
                                                        voter@,
                                                    ) + Seq::<u8>::empty() =~= spec_user_vote_bytes(
                                                        v,
                                                        params.user_key@,
                                                        voter@,
                                                    ));
                                                },
                                                (Some(t), Some(v)) => {
                                                    lemma_user_vote_bytes_round_trip(
                                                        v,
                                                        t.1,
                                                        t.2,
                                                        user_vote_state_account.data@.skip(
                                                            USER_VOTE_RECORD_LEN as int,
                                                        ),
                                                    );
                                                },
                                                _ => {},
                                            }
                                        },
                                    }
                                },
                            }
                        },
                    }
                },
            }
        },
    }
}

/// The positive part of a signed weight.
pub open spec fn spec_pos_part(v: int) -> int {
    if v > 0 {
        v
    } else {
        0
    }
}

/// The negative part of a signed weight, as a non-negative number.
pub open spec fn spec_neg_part(v: int) -> int {
    if v < 0 {
        -v
    } else {
        0
    }
}

/// The summed positive parts of a votee's active signed weights.
pub open spec fn spec_sum_pos(votes: Seq<int>) -> int
    decreases votes.len(),
{
    if votes.len() == 0 {
        0
    } else {
        spec_sum_pos(votes.drop_last()) + spec_pos_part(votes.last())
    }
}

/// The summed negative parts of a votee's active signed weights.
pub open spec fn spec_sum_neg(votes: Seq<int>) -> int
    decreases votes.len(),
{
    if votes.len() == 0 {
        0
    } else {
        spec_sum_neg(votes.drop_last()) + spec_neg_part(votes.last())
    }
}

/// The summed absolute values of a votee's active signed weights.
pub open spec fn spec_sum_abs(votes: Seq<int>) -> int
    decreases votes.len(),
{
    if votes.len() == 0 {
        0
    } else {
        spec_sum_abs(votes.drop_last()) + vstd::math::abs(votes.last())
    }
}

/// The conservation invariant between a votee's aggregate score and the
/// signed weights of all of the votee's currently active vote records:
/// each bucket equals the summed weight of the votes on its side.
pub open spec fn spec_conserves(score: ReputationScore, votes: Seq<int>) -> bool {
    &&& score.upvote == spec_sum_pos(votes)
    &&& score.downvote == spec_sum_neg(votes)
}

proof fn lemma_sum_pos_update(votes: Seq<int>, i: int, x: int)
    requires
        0 <= i < votes.len(),
    ensures
        spec_sum_pos(votes.update(i, x)) == spec_sum_pos(votes) - spec_pos_part(votes[i])
            + spec_pos_part(x),
    decreases votes.len(),
{
    if i == votes.len() - 1 {
        assert(votes.update(i, x).drop_last() =~= votes.drop_last());
    } else {
        assert(votes.update(i, x).drop_last() =~= votes.drop_last().update(i, x));
        lemma_sum_pos_update(votes.drop_last(), i, x);
    }
}

proof fn lemma_sum_neg_update(votes: Seq<int>, i: int, x: int)
    requires
        0 <= i < votes.len(),
    ensures
        spec_sum_neg(votes.update(i, x)) == spec_sum_neg(votes) - spec_neg_part(votes[i])
            + spec_neg_part(x),
    decreases votes.len(),
{
    if i == votes.len() - 1 {
        assert(votes.update(i, x).drop_last() =~= votes.drop_last());
    } else {
        assert(votes.update(i, x).drop_last() =~= votes.drop_last().update(i, x));
        lemma_sum_neg_update(votes.drop_last(), i, x);
    }
}

proof fn lemma_sum_pos_remove(votes: Seq<int>, i: int)
    requires
        0 <= i < votes.len(),
    ensures
        spec_sum_pos(votes.remove(i)) == spec_sum_pos(votes) - spec_pos_part(votes[i]),
    decreases votes.len(),
{
    if i == votes.len() - 1 {
        assert(votes.remove(i) =~= votes.drop_last());
    } else {
        assert(votes.remove(i).drop_last() =~= votes.drop_last().remove(i));
        lemma_sum_pos_remove(votes.drop_last(), i);
        assert(votes.remove(i).last() == votes.last());
    }
}

proof fn lemma_sum_neg_remove(votes: Seq<int>, i: int)
    requires
        0 <= i < votes.len(),
    ensures
        spec_sum_neg(votes.remove(i)) == spec_sum_neg(votes) - spec_neg_part(votes[i]),
    decreases votes.len(),
{
    if i == votes.len() - 1 {
        assert(votes.remove(i) =~= votes.drop_last());
    } else {
        assert(votes.remove(i).drop_last() =~= votes.drop_last().remove(i));
        lemma_sum_neg_remove(votes.drop_last(), i);
        assert(votes.remove(i).last() == votes.last());
    }
}

/// Conservation, stated as the spec describes it: the two bucket totals of
/// a conserving score add up to the summed absolute weight of all the
/// votee's active votes.
pub proof fn lemma_conservation_totals(score: ReputationScore, votes: Seq<int>)
    requires
        spec_conserves(score, votes),
    ensures
        score.upvote + score.downvote == spec_sum_abs(votes),
    decreases votes.len(),
{
    lemma_sum_abs_split(votes);
}

proof fn lemma_sum_abs_split(votes: Seq<int>)
    ensures
        spec_sum_abs(votes) == spec_sum_pos(votes) + spec_sum_neg(votes),
    decreases votes.len(),
{
    if votes.len() > 0 {
        lemma_sum_abs_split(votes.drop_last());
    }
}

/// Conservation is preserved by a first vote: when the pair had no record
/// and the transition succeeds, the new record's signed weight joins the
/// votee's active votes and both buckets still conserve.
pub proof fn lemma_conservation_first_vote(
    score: ReputationScore,
    votes: Seq<int>,
    requested: VoteValue,
    weight: u64,
    s1: ReputationScore,
    sv: i64,
)
    requires
        spec_conserves(score, votes),
        spec_apply_vote(score, None, requested, weight) == Ok::<
            (ReputationScore, Option<i64>),
            SnsReputationError,
        >((s1, Some(sv))),
    ensures
        spec_conserves(s1, votes.push(sv as int)),
{
    assert(votes.push(sv as int).drop_last() =~= votes);
}

/// Conservation is preserved by a changed vote: when the pair's record held
/// `e` and the transition flips it to a new signed weight, the votee's
/// votes updated at the record's position still conserve.
pub proof fn lemma_conservation_changed_vote(
    score: ReputationScore,
    votes: Seq<int>,
    i: int,
    e: i64,
    requested: VoteValue,
    weight: u64,
    s1: ReputationScore,
    sv: i64,
)
    requires
        spec_conserves(score, votes),
        0 <= i < votes.len(),
        votes[i] == e as int,
        spec_apply_vote(score, Some(e), requested, weight) == Ok::<
            (ReputationScore, Option<i64>),
            SnsReputationError,
        >((s1, Some(sv))),
    ensures
        spec_conserves(s1, votes.update(i, sv as int)),
{
    lemma_sum_pos_update(votes, i, sv as int);
    lemma_sum_neg_update(votes, i, sv as int);
}

/// Conservation is preserved by a retraction: when the pair's record held
/// `e` and the transition deletes it, the votee's votes with the record's
/// entry removed still conserve.
pub proof fn lemma_conservation_retracted_vote(
    score: ReputationScore,
    votes: Seq<int>,
    i: int,
    e: i64,
    weight: u64,
    s1: ReputationScore,
)
    requires
        spec_conserves(score, votes),
        0 <= i < votes.len(),
        votes[i] == e as int,
        spec_apply_vote(score, Some(e), VoteValue::NoVote, weight) == Ok::<
            (ReputationScore, Option<i64>),
            SnsReputationError,
        >((s1, None)),
    ensures
        spec_conserves(s1, votes.remove(i)),
{
    lemma_sum_pos_remove(votes, i);
    lemma_sum_neg_remove(votes, i);
}

/// Retraction never double-counts: it removes exactly the existing weight
/// from exactly the bucket matching the stored sign, leaves the other
/// bucket untouched, deletes the record, and a later vote by the same pair
/// is treated as a fresh creation, never rejected as `AlreadyVoted`.
pub proof fn lemma_retraction_exact(
    score: ReputationScore,
    e: i64,
    weight: u64,
    s1: ReputationScore,
    requested: VoteValue,
    weight2: u64,
)
    requires
        spec_apply_vote(score, Some(e), VoteValue::NoVote, weight) == Ok::<
            (ReputationScore, Option<i64>),
            SnsReputationError,
        >((s1, None)),
        requested != VoteValue::NoVote,
    ensures
        e > 0 ==> s1.upvote == score.upvote - e && s1.downvote == score.downvote,
        e < 0 ==> s1.downvote == score.downvote + e && s1.upvote == score.upvote,
        s1.nonce == score.nonce,
        spec_apply_vote(s1, None, requested, weight2) != Err::<
            (ReputationScore, Option<i64>),
            SnsReputationError,
        >(SnsReputationError::AlreadyVoted),
{
}

/// Idempotent rejection: a requested vote whose sign equals the sign of the
/// pair's stored vote is rejected with `AlreadyVoted`, whatever its weight.
pub proof fn lemma_same_sign_rejected(
    score: ReputationScore,
    e: i64,
    requested: VoteValue,
    weight: u64,
)
    requires
        spec_signum(e as int) == requested.spec_sign(),
    ensures
        spec_apply_vote(score, Some(e), requested, weight) == Err::<
            (ReputationScore, Option<i64>),
            SnsReputationError,
        >(SnsReputationError::AlreadyVoted),
{
}

/// Voting the same way twice in a row is rejected the second time: a
/// successful non-retracting vote of nonzero weight leaves a record whose
/// sign repeats the request, so repeating the request fails `AlreadyVoted`
/// — and, the rejection being an error, the ledger state is unchanged by
/// it.
pub proof fn lemma_repeat_vote_rejected(
    score: ReputationScore,
    existing: Option<i64>,
    requested: VoteValue,
    weight: u64,
    weight2: u64,
    s1: ReputationScore,
    sv: i64,
)
    requires
        requested != VoteValue::NoVote,
        weight > 0,
        spec_apply_vote(score, existing, requested, weight) == Ok::<
            (ReputationScore, Option<i64>),
            SnsReputationError,
        >((s1, Some(sv))),
    ensures
        spec_apply_vote(s1, Some(sv), requested, weight2) == Err::<
            (ReputationScore, Option<i64>),
            SnsReputationError,
        >(SnsReputationError::AlreadyVoted),
{
}

/// A fresh all-zero byte buffer of the given length.
fn zero_vec(len: usize) -> (r: Vec<u8>)
    ensures
        r@.len() == len,
        forall|i: int| 0 <= i < len ==> r@[i] == 0u8,
{
    let mut v: Vec<u8> = Vec::new();
    let mut j: usize = 0;
    while j < len
        invariant
            j <= len,
            v@.len() == j,
            forall|i: int| 0 <= i < j ==> v@[i] == 0u8,
        decreases len - j,
    {
        v.push(0u8);
        j = j + 1;
    }
    v
}

/// Processes one whole cast-or-retract operation against the caller's
/// storage: checks that both accounts sit at their deterministic addresses,
/// evaluates the vote's weight, loads or lazily creates the aggregate
/// record, runs the vote state machine, and commits the resulting record
/// writes, allocation or reclamation — or fails with the exact error of
/// [`spec_process`] while leaving the payer's balance and both accounts
/// byte-identical to their state before the call.
#[verifier::rlimit(100)]
#[verifier::spinoff_prover]
pub fn process(
    program_id: &Address,
    voter: &Address,
    payer_lamports: &mut u64,
    reputation_state_account: &mut StoredAccount,
    user_vote_state_account: &mut StoredAccount,
    stake_records: &Vec<StakeRecord>,
    params: &Params,
    policy: WeightingPolicy,
    ctx: &HostContext,
) -> (r: Result<(), SnsReputationError>)
    ensures
        ({
            let res = spec_process(
                *program_id,
                *voter,
                *old(payer_lamports),
                *old(reputation_state_account),
                *old(user_vote_state_account),
                stake_records@,
                *params,
                policy,
                *ctx,
            );
            match r {
                Ok(()) => {
                    &&& res matches Ok(out)
                    &&& *final(payer_lamports) == out.payer_lamports
                    &&& final(reputation_state_account).key == old(reputation_state_account).key
                    &&& final(reputation_state_account).lamports == out.score_lamports
                    &&& final(reputation_state_account).data@ == out.score_data
                    &&& final(user_vote_state_account).key == old(user_vote_state_account).key
                    &&& final(user_vote_state_account).lamports == out.vote_lamports
                    &&& final(user_vote_state_account).data@ == out.vote_data
                },
                Err(e) => {
                    &&& res == Err::<ProcessOutcome, SnsReputationError>(e)
                    &&& *final(payer_lamports) == *old(payer_lamports)
                    &&& *final(reputation_state_account) == *old(reputation_state_account)
                    &&& *final(user_vote_state_account) == *old(user_vote_state_account)
                },
            }
        }),
{
    // The aggregate record must sit at the votee's derived address.
    let (score_key, score_nonce) = match ReputationScore::find_key(program_id, &params.user_key) {
        Some(k) => k,
        None => {
            return Err(SnsReputationError::WrongKey);
        },
    };
    if !(reputation_state_account.key == score_key) {
        return Err(SnsReputationError::WrongKey);
    }
    // The weight of the requested vote; a retraction reads its weight from
    // the existing record instead.
    let weight: u64 = if !matches!(params.vote_value, VoteValue::NoVote) {
        match policy {
            WeightingPolicy::StakeWeighted => {
                match compute_vote_weight(
                    stake_records,
                    voter,
                    &ctx.stake_program,
                    ctx.current_epoch,
                ) {
                    Ok(w) => w,
                    Err(e) => {
                        return Err(e);
                    },
                }
            },
            WeightingPolicy::FixedWeightOne => 1,
        }
    } else {
        0
    };
    // Load the aggregate record, or plan its lazy creation funded by the
    // payer.
    let score_created: bool = reputation_state_account.data.len() == 0;
    let mut new_payer: u64 = *payer_lamports;
    let mut new_score_lamports: u64 = reputation_state_account.lamports;
    let score0: ReputationScore = if score_created {
        new_payer = match new_payer.checked_sub(ctx.reputation_score_rent) {
            Some(v) => v,
            None => {
                return Err(SnsReputationError::Overflow);
            },
        };
        new_score_lamports = match new_score_lamports.checked_add(ctx.reputation_score_rent) {
            Some(v) => v,
            None => {
                return Err(SnsReputationError::Overflow);
            },
        };
        ReputationScore { nonce: score_nonce, upvote: 0, downvote: 0 }
    } else {
        match ReputationScore::from_buffer(
            reputation_state_account.data.as_slice(),
            Tag::ReputationScore,
        ) {
            Ok(s) => s,
            Err(e) => {
                return Err(e);
            },
        }
    };
    // The vote record must sit at the pair's derived address.
    let vote_key = match UserVote::find_key(program_id, &(params.user_key, *voter)) {
        Some(k) => k.0,
        None => {
            return Err(SnsReputationError::WrongKey);
        },
    };
    if !(user_vote_state_account.key == vote_key) {
        return Err(SnsReputationError::WrongKey);
    }
    // The pair's existing vote, if its record is allocated.
    let existing_vote: Option<UserVote> = if user_vote_state_account.data.len() != 0 {
        match UserVote::from_buffer(user_vote_state_account.data.as_slice(), Tag::UserVote) {
            Ok(v) => Some(v),
            Err(e) => {
                return Err(e);
            },
        }
    } else {
        None
    };
    let existing_value: Option<i64> = match existing_vote {
        Some(v) => Some(v.value),
        None => None,
    };
    // One transition of the vote state machine.
    let (score1, new_value) = match apply_vote(&score0, existing_value, params.vote_value, weight) {
        Ok(t) => t,
        Err(e) => {
            return Err(e);
        },
    };
    // The vote record's lifecycle: allocate on a first vote, overwrite on a
    // direction change, reclaim on a retraction.
    let mut new_vote_lamports: u64 = user_vote_state_account.lamports;
    let new_vote_record: Option<UserVote> = match new_value {
        Some(v) => {
            match existing_vote {
                None => {
                    new_payer = match new_payer.checked_sub(ctx.user_vote_rent) {
                        Some(p) => p,
                        None => {
                            return Err(SnsReputationError::Overflow);
                        },
                    };
                    new_vote_lamports = match new_vote_lamports.checked_add(ctx.user_vote_rent) {
                        Some(l) => l,
                        None => {
                            return Err(SnsReputationError::Overflow);
                        },
                    };
                    Some(UserVote { value: v, votee: params.user_key, voter: *voter })
                },
                Some(uv) => Some(UserVote { value: v, votee: uv.votee, voter: uv.voter }),
            }
        },
        None => {
            // Full retraction: the record's entire balance goes back to the
            // payer and its storage is reclaimed.
            new_payer = match new_payer.checked_add(user_vote_state_account.lamports) {
                Some(p) => p,
                None => {
                    return Err(SnsReputationError::Overflow);
                },
            };
            new_vote_lamports = 0;
            None
        },
    };
    // Every check passed: commit the whole operation.
    *payer_lamports = new_payer;
    reputation_state_account.lamports = new_score_lamports;
    if score_created {
        let mut buf = zero_vec(REPUTATION_SCORE_RECORD_LEN);
        score1.save(&mut buf);
        proof {
            assert(buf@ =~= score1.spec_to_bytes());
        }
        reputation_state_account.data = buf;
    } else {
        score1.save(&mut reputation_state_account.data);
        proof {
            assert(final(reputation_state_account).data@ =~= score1.spec_to_bytes() + old(
                reputation_state_account,
            ).data@.skip(REPUTATION_SCORE_RECORD_LEN as int));
        }
    }
    user_vote_state_account.lamports = new_vote_lamports;
    match new_vote_record {
        Some(record) => {
            match existing_vote {
                None => {
                    let mut buf = zero_vec(USER_VOTE_RECORD_LEN);
                    record.save(&mut buf);
                    proof {
                        assert(buf@ =~= record.spec_to_bytes());
                    }
                    user_vote_state_account.data = buf;
                },
                Some(_) => {
                    record.save(&mut user_vote_state_account.data);
                    proof {
                        assert(final(user_vote_state_account).data@ =~= record.spec_to_bytes()
                            + old(user_vote_state_account).data@.skip(USER_VOTE_RECORD_LEN as int));
                    }
                },
            }
        },
        None => {
            user_vote_state_account.data = Vec::new();
            proof {
                assert(final(user_vote_state_account).data@ =~= Seq::<u8>::empty());
            }
        },
    }
    Ok(())
}

} // verus!

