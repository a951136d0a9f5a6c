//! The deterministic address derivation: stable across calls, distinct
//! between the per-votee and per-pair namespaces, and identical to what the
//! host's own derivation computes for the same seeds.

use sns_reputation::state::reputation_score::ReputationScore;
use sns_reputation::state::user_vote::UserVote;
use sns_reputation::state::Address;
use solana_program::pubkey::Pubkey;

fn addr(byte: u8) -> Address {
    Address { bytes: [byte; 32] }
}

#[test]
fn reputation_key_is_deterministic() {
    let program_id = addr(9);
    let votee = addr(1);
    let first = ReputationScore::find_key(&program_id, &votee).unwrap();
    let second = ReputationScore::find_key(&program_id, &votee).unwrap();
    assert_eq!(first, second);
}

#[test]
fn user_vote_key_is_deterministic() {
    let program_id = addr(9);
    let pair = (addr(1), addr(2));
    let first = UserVote::find_key(&program_id, &pair).unwrap();
    let second = UserVote::find_key(&program_id, &pair).unwrap();
    assert_eq!(first, second);
}

#[test]
fn derived_keys_differ_from_their_inputs() {
    let program_id = addr(9);
    let votee = addr(1);
    let (key, _) = ReputationScore::find_key(&program_id, &votee).unwrap();
    assert_ne!(key, votee);
    assert_ne!(key, program_id);
}

#[test]
fn votee_and_pair_namespaces_do_not_collide_here() {
    let program_id = addr(9);
    let votee = addr(1);
    let voter = addr(2);
    let (score_key, _) = ReputationScore::find_key(&program_id, &votee).unwrap();
    let (vote_key, _) = UserVote::find_key(&program_id, &(votee, voter)).unwrap();
    assert_ne!(score_key, vote_key);
}

#[test]
fn different_voters_get_different_vote_records() {
    let program_id = addr(9);
    let votee = addr(1);
    let (key_a, _) = UserVote::find_key(&program_id, &(votee, addr(2))).unwrap();
    let (key_b, _) = UserVote::find_key(&program_id, &(votee, addr(4))).unwrap();
    assert_ne!(key_a, key_b);
}

#[test]
fn reputation_key_matches_host_derivation() {
    let program_id = addr(9);
    let votee = addr(1);
    let (key, nonce) = ReputationScore::find_key(&program_id, &votee).unwrap();
    let pid = Pubkey::new_from_array(program_id.bytes);
    let (expected, expected_nonce) =
        Pubkey::find_program_address(&[votee.bytes.as_ref()], &pid);
    assert_eq!(key.bytes, expected.to_bytes());
    assert_eq!(nonce, expected_nonce);
}

#[test]
fn user_vote_key_matches_host_derivation() {
    let program_id = addr(9);
    let votee = addr(1);
    let voter = addr(2);
    let (key, nonce) = UserVote::find_key(&program_id, &(votee, voter)).unwrap();
    let pid = Pubkey::new_from_array(program_id.bytes);
    let (expected, expected_nonce) =
        Pubkey::find_program_address(&[votee.bytes.as_ref(), voter.bytes.as_ref()], &pid);
    assert_eq!(key.bytes, expected.to_bytes());
    assert_eq!(nonce, expected_nonce);
}
