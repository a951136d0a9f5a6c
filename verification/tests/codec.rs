//! The record codec: exact byte layouts, round trips, and tag rejection.

use sns_reputation::error::SnsReputationError;
use sns_reputation::state::reputation_score::{ReputationScore, REPUTATION_SCORE_RECORD_LEN};
use sns_reputation::state::user_vote::{UserVote, USER_VOTE_RECORD_LEN};
use sns_reputation::state::{Address, Tag, VoteValue};

#[test]
fn reputation_score_exact_layout() {
    let score = ReputationScore {
        nonce: 0xAB,
        upvote: 0x0102030405060708,
        downvote: 9,
    };
    let mut buf = vec![0u8; REPUTATION_SCORE_RECORD_LEN];
    score.save(&mut buf);

    let mut expected = Vec::new();
    expected.extend_from_slice(&1u64.to_le_bytes()); // Tag::ReputationScore
    expected.push(0xAB);
    expected.extend_from_slice(&0x0102030405060708u64.to_le_bytes());
    expected.extend_from_slice(&9u64.to_le_bytes());
    assert_eq!(buf, expected);
}

#[test]
fn reputation_score_round_trip() {
    let score = ReputationScore {
        nonce: 254,
        upvote: u64::MAX,
        downvote: 0,
    };
    let mut buf = vec![0u8; REPUTATION_SCORE_RECORD_LEN];
    score.save(&mut buf);
    let decoded = ReputationScore::from_buffer(&buf, Tag::ReputationScore).unwrap();
    assert_eq!(decoded, score);
}

#[test]
fn reputation_score_save_keeps_trailing_bytes() {
    let score = ReputationScore {
        nonce: 1,
        upvote: 2,
        downvote: 3,
    };
    let mut buf = vec![0xEEu8; REPUTATION_SCORE_RECORD_LEN + 4];
    score.save(&mut buf);
    assert_eq!(&buf[REPUTATION_SCORE_RECORD_LEN..], &[0xEE, 0xEE, 0xEE, 0xEE]);
    let decoded = ReputationScore::from_buffer(&buf, Tag::ReputationScore).unwrap();
    assert_eq!(decoded, score);
}

#[test]
fn reputation_score_wrong_tag_rejected() {
    let score = ReputationScore {
        nonce: 1,
        upvote: 2,
        downvote: 3,
    };
    let mut buf = vec![0u8; REPUTATION_SCORE_RECORD_LEN];
    score.save(&mut buf);
    assert_eq!(
        ReputationScore::from_buffer(&buf, Tag::UserVote),
        Err(SnsReputationError::DataTypeMismatch)
    );
    assert_eq!(
        ReputationScore::from_buffer(&buf, Tag::Uninitialized),
        Err(SnsReputationError::DataTypeMismatch)
    );
}

#[test]
fn reputation_score_short_buffer_rejected() {
    assert_eq!(
        ReputationScore::from_buffer(&[1, 0, 0], Tag::ReputationScore),
        Err(SnsReputationError::DataTypeMismatch)
    );
    assert_eq!(
        ReputationScore::from_buffer(&[], Tag::ReputationScore),
        Err(SnsReputationError::DataTypeMismatch)
    );
}

#[test]
fn user_vote_exact_layout() {
    let vote = UserVote {
        value: -5,
        votee: Address { bytes: [0x11; 32] },
        voter: Address { bytes: [0x22; 32] },
    };
    let mut buf = vec![0u8; USER_VOTE_RECORD_LEN];
    vote.save(&mut buf);

    let mut expected = Vec::new();
    expected.extend_from_slice(&2u64.to_le_bytes()); // Tag::UserVote
    expected.extend_from_slice(&(-5i64 as u64).to_le_bytes());
    expected.extend_from_slice(&[0x11; 32]);
    expected.extend_from_slice(&[0x22; 32]);
    assert_eq!(buf, expected);
}

#[test]
fn user_vote_round_trip() {
    let vote = UserVote {
        value: i64::MIN,
        votee: Address { bytes: [7; 32] },
        voter: Address { bytes: [8; 32] },
    };
    let mut buf = vec![0u8; USER_VOTE_RECORD_LEN];
    vote.save(&mut buf);
    let decoded = UserVote::from_buffer(&buf, Tag::UserVote).unwrap();
    assert_eq!(decoded, vote);
}

#[test]
fn user_vote_wrong_tag_rejected() {
    let vote = UserVote {
        value: 3,
        votee: Address { bytes: [0; 32] },
        voter: Address { bytes: [1; 32] },
    };
    let mut buf = vec![0u8; USER_VOTE_RECORD_LEN];
    vote.save(&mut buf);
    assert_eq!(
        UserVote::from_buffer(&buf, Tag::ReputationScore),
        Err(SnsReputationError::DataTypeMismatch)
    );
}

#[test]
fn user_vote_short_buffer_rejected() {
    let buf = vec![0u8; USER_VOTE_RECORD_LEN - 1];
    assert_eq!(
        UserVote::from_buffer(&buf, Tag::UserVote),
        Err(SnsReputationError::DataTypeMismatch)
    );
}

#[test]
fn tag_values_are_stable() {
    assert_eq!(Tag::Uninitialized.as_u64(), 0);
    assert_eq!(Tag::ReputationScore.as_u64(), 1);
    assert_eq!(Tag::UserVote.as_u64(), 2);
}

#[test]
fn vote_value_signs_and_indices() {
    assert_eq!(VoteValue::NoVote.sign(), 0);
    assert_eq!(VoteValue::Downvote.sign(), -1);
    assert_eq!(VoteValue::Upvote.sign(), 1);
    assert_eq!(VoteValue::from_u8(0), Some(VoteValue::NoVote));
    assert_eq!(VoteValue::from_u8(1), Some(VoteValue::Downvote));
    assert_eq!(VoteValue::from_u8(2), Some(VoteValue::Upvote));
    assert_eq!(VoteValue::from_u8(3), None);
}

#[test]
fn error_codes_are_stable() {
    assert_eq!(SnsReputationError::AlreadyInitialized.error_code(), 0);
    assert_eq!(SnsReputationError::DataTypeMismatch.error_code(), 1);
    assert_eq!(SnsReputationError::WrongOwner.error_code(), 2);
    assert_eq!(SnsReputationError::Uninitialized.error_code(), 3);
    assert_eq!(SnsReputationError::AlreadyVoted.error_code(), 4);
    assert_eq!(SnsReputationError::NoVoteExists.error_code(), 5);
    assert_eq!(SnsReputationError::MissingStakeAccount.error_code(), 6);
    assert_eq!(SnsReputationError::InvalidStakeAccount.error_code(), 7);
}

#[test]
fn error_messages() {
    assert_eq!(SnsReputationError::AlreadyVoted.message(), "Already voted");
    assert_eq!(SnsReputationError::NoVoteExists.message(), "No vote exists");
    assert_eq!(
        SnsReputationError::DataTypeMismatch.message(),
        "Data type mismatch"
    );
}
