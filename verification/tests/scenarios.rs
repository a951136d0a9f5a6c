//! The stake-weighted scenarios: a weight-5 upvote, its rejected repeat,
//! the flip to a downvote, the retraction with its exact refund, a
//! retraction by a voter who never voted, and a vote backed by a stake
//! record owned by the wrong authority.

use sns_reputation::error::SnsReputationError;
use sns_reputation::processor::vote::{
    process, HostContext, Params, StakeDelegation, StakeRecord, WeightingPolicy,
};
use sns_reputation::state::reputation_score::ReputationScore;
use sns_reputation::state::user_vote::UserVote;
use sns_reputation::state::{Address, StoredAccount, Tag, VoteValue};

fn addr(byte: u8) -> Address {
    Address { bytes: [byte; 32] }
}

fn ctx() -> HostContext {
    HostContext {
        current_epoch: 50,
        stake_program: addr(3),
        reputation_score_rent: 100,
        user_vote_rent: 200,
    }
}

fn qualifying_stake(voter: Address, amount: u64) -> StakeRecord {
    StakeRecord {
        owner: addr(3),
        delegation: Some(StakeDelegation {
            staker: voter,
            activation_epoch: 10,
            stake: amount,
        }),
    }
}

struct Ledger {
    program_id: Address,
    votee: Address,
    payer_lamports: u64,
    reputation_account: StoredAccount,
}

fn fresh_ledger() -> Ledger {
    let program_id = addr(9);
    let votee = addr(1);
    let (reputation_state, _) = ReputationScore::find_key(&program_id, &votee).unwrap();
    Ledger {
        program_id,
        votee,
        payer_lamports: 1_000_000,
        reputation_account: StoredAccount {
            key: reputation_state,
            lamports: 0,
            data: Vec::new(),
        },
    }
}

fn vote_account_for(ledger: &Ledger, voter: Address) -> StoredAccount {
    let (key, _) = UserVote::find_key(&ledger.program_id, &(ledger.votee, voter)).unwrap();
    StoredAccount {
        key,
        lamports: 0,
        data: Vec::new(),
    }
}

fn cast(
    ledger: &mut Ledger,
    vote_account: &mut StoredAccount,
    voter: Address,
    stake_records: &Vec<StakeRecord>,
    vote_value: VoteValue,
) -> Result<(), SnsReputationError> {
    process(
        &ledger.program_id,
        &voter,
        &mut ledger.payer_lamports,
        &mut ledger.reputation_account,
        vote_account,
        stake_records,
        &Params {
            user_key: ledger.votee,
            vote_value,
        },
        WeightingPolicy::StakeWeighted,
        &ctx(),
    )
}

fn score_of(ledger: &Ledger) -> ReputationScore {
    ReputationScore::from_buffer(&ledger.reputation_account.data, Tag::ReputationScore).unwrap()
}

#[test]
fn scenario_first_upvote_weight_five() {
    let mut ledger = fresh_ledger();
    let voter = addr(2);
    let mut vote_account = vote_account_for(&ledger, voter);
    let stakes = vec![qualifying_stake(voter, 5)];

    cast(&mut ledger, &mut vote_account, voter, &stakes, VoteValue::Upvote).unwrap();

    let score = score_of(&ledger);
    assert_eq!(score.upvote, 5);
    assert_eq!(score.downvote, 0);
    let vote = UserVote::from_buffer(&vote_account.data, Tag::UserVote).unwrap();
    assert_eq!(vote.value, 5);
    assert_eq!(vote.votee, ledger.votee);
    assert_eq!(vote.voter, voter);
}

#[test]
fn scenario_repeated_upvote_rejected() {
    let mut ledger = fresh_ledger();
    let voter = addr(2);
    let mut vote_account = vote_account_for(&ledger, voter);
    let stakes = vec![qualifying_stake(voter, 5)];

    cast(&mut ledger, &mut vote_account, voter, &stakes, VoteValue::Upvote).unwrap();

    let payer_before = ledger.payer_lamports;
    let score_data_before = ledger.reputation_account.data.clone();
    let vote_data_before = vote_account.data.clone();

    let result = cast(&mut ledger, &mut vote_account, voter, &stakes, VoteValue::Upvote);
    assert_eq!(result, Err(SnsReputationError::AlreadyVoted));

    // State is byte-identical to what it was before the rejected operation.
    assert_eq!(ledger.payer_lamports, payer_before);
    assert_eq!(ledger.reputation_account.data, score_data_before);
    assert_eq!(vote_account.data, vote_data_before);
}

#[test]
fn scenario_flip_to_downvote() {
    let mut ledger = fresh_ledger();
    let voter = addr(2);
    let mut vote_account = vote_account_for(&ledger, voter);
    let stakes = vec![qualifying_stake(voter, 5)];

    cast(&mut ledger, &mut vote_account, voter, &stakes, VoteValue::Upvote).unwrap();
    cast(&mut ledger, &mut vote_account, voter, &stakes, VoteValue::Downvote).unwrap();

    let score = score_of(&ledger);
    assert_eq!(score.upvote, 0);
    assert_eq!(score.downvote, 5);
    let vote = UserVote::from_buffer(&vote_account.data, Tag::UserVote).unwrap();
    assert_eq!(vote.value, -5);
}

#[test]
fn scenario_retraction_refunds_and_deletes() {
    let mut ledger = fresh_ledger();
    let voter = addr(2);
    let mut vote_account = vote_account_for(&ledger, voter);
    let stakes = vec![qualifying_stake(voter, 5)];

    cast(&mut ledger, &mut vote_account, voter, &stakes, VoteValue::Upvote).unwrap();
    cast(&mut ledger, &mut vote_account, voter, &stakes, VoteValue::Downvote).unwrap();

    let payer_before = ledger.payer_lamports;
    let record_balance = vote_account.lamports;
    assert!(record_balance > 0);

    cast(&mut ledger, &mut vote_account, voter, &stakes, VoteValue::NoVote).unwrap();

    let score = score_of(&ledger);
    assert_eq!(score.upvote, 0);
    assert_eq!(score.downvote, 0);
    assert!(vote_account.data.is_empty());
    assert_eq!(vote_account.lamports, 0);
    // The payer gets back exactly the balance the record held.
    assert_eq!(ledger.payer_lamports, payer_before + record_balance);
}

#[test]
fn scenario_retraction_without_vote_rejected() {
    let mut ledger = fresh_ledger();
    let voter_a = addr(2);
    let mut account_a = vote_account_for(&ledger, voter_a);
    let stakes = vec![qualifying_stake(voter_a, 5)];
    cast(&mut ledger, &mut account_a, voter_a, &stakes, VoteValue::Upvote).unwrap();

    // Voter B never voted for this votee; the aggregate record exists, but
    // retraction state is scoped to the pair, not to the votee.
    let voter_b = addr(4);
    let mut account_b = vote_account_for(&ledger, voter_b);
    let score_data_before = ledger.reputation_account.data.clone();
    let payer_before = ledger.payer_lamports;

    let result = cast(&mut ledger, &mut account_b, voter_b, &Vec::new(), VoteValue::NoVote);
    assert_eq!(result, Err(SnsReputationError::NoVoteExists));
    assert!(account_b.data.is_empty());
    assert_eq!(account_b.lamports, 0);
    assert_eq!(ledger.reputation_account.data, score_data_before);
    assert_eq!(ledger.payer_lamports, payer_before);
}

#[test]
fn conservation_across_two_voters() {
    // After every operation, upvote_total + downvote_total equals the sum
    // of the absolute signed weights of the active vote records.
    let mut ledger = fresh_ledger();
    let voter_a = addr(2);
    let voter_b = addr(4);
    let mut account_a = vote_account_for(&ledger, voter_a);
    let mut account_b = vote_account_for(&ledger, voter_b);
    let stakes_a = vec![qualifying_stake(voter_a, 5)];
    let stakes_b = vec![qualifying_stake(voter_b, 12)];

    cast(&mut ledger, &mut account_a, voter_a, &stakes_a, VoteValue::Upvote).unwrap();
    cast(&mut ledger, &mut account_b, voter_b, &stakes_b, VoteValue::Downvote).unwrap();

    let score = score_of(&ledger);
    assert_eq!(score.upvote, 5);
    assert_eq!(score.downvote, 12);
    let weight_a = UserVote::from_buffer(&account_a.data, Tag::UserVote)
        .unwrap()
        .value
        .unsigned_abs();
    let weight_b = UserVote::from_buffer(&account_b.data, Tag::UserVote)
        .unwrap()
        .value
        .unsigned_abs();
    assert_eq!(score.upvote + score.downvote, weight_a + weight_b);

    // A flips to a downvote; the totals still conserve.
    cast(&mut ledger, &mut account_a, voter_a, &stakes_a, VoteValue::Downvote).unwrap();
    let score = score_of(&ledger);
    assert_eq!(score.upvote + score.downvote, 17);

    // B retracts; only B's weight leaves the totals.
    cast(&mut ledger, &mut account_b, voter_b, &stakes_b, VoteValue::NoVote).unwrap();
    let score = score_of(&ledger);
    assert_eq!(score.upvote, 0);
    assert_eq!(score.downvote, 5);
}

#[test]
fn scenario_stake_owned_by_wrong_authority_rejected() {
    let mut ledger = fresh_ledger();
    let voter_c = addr(5);
    let mut account_c = vote_account_for(&ledger, voter_c);
    let mut stake = qualifying_stake(voter_c, 5);
    stake.owner = addr(6);  // not the stake-management authority
    let stakes = vec![stake];

    let payer_before = ledger.payer_lamports;
    let result = cast(&mut ledger, &mut account_c, voter_c, &stakes, VoteValue::Upvote);
    assert_eq!(result, Err(SnsReputationError::InvalidStakeAccount));
    // No records were created or mutated.
    assert!(ledger.reputation_account.data.is_empty());
    assert!(account_c.data.is_empty());
    assert_eq!(ledger.payer_lamports, payer_before);
}
