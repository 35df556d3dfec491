//! End-to-end tests of the governance engine's lifecycle operations.

use governance::engine::GovernanceState;
use governance::types::{GovernanceConfig, GovernanceError, ProposalStatus, ProposalType, VoteType};

const ALICE: u64 = 1;
const BOB: u64 = 2;
const CAROL: u64 = 3;

fn engine(quorum: u64) -> GovernanceState {
    GovernanceState::new(GovernanceConfig { min_creation_power: 100, quorum })
}

fn engine_with_creator(quorum: u64) -> GovernanceState {
    let mut s = engine(quorum);
    s.mint_test_tokens(ALICE, 100).unwrap();
    s
}

#[test]
fn create_proposal_starts_active_with_zero_tallies() {
    let mut s = engine_with_creator(100);
    let p = s
        .create_proposal(
            ALICE,
            String::from("fund the library"),
            String::from("allocate budget"),
            ProposalType::BudgetAllocation,
            7 * 24 * 60 * 60,
            1_000,
        )
        .unwrap();
    assert_eq!(p.id, 0);
    assert_eq!(p.creator, ALICE);
    assert_eq!(p.title, "fund the library");
    assert_eq!(p.description, "allocate budget");
    assert_eq!(p.status, ProposalStatus::Active);
    assert_eq!(p.voting_start, 1_000);
    assert_eq!(p.voting_end, 1_000 + 7 * 24 * 60 * 60 * 1_000_000_000);
    assert_eq!(p.created_at, 1_000);
    assert_eq!(p.yes_votes, 0);
    assert_eq!(p.no_votes, 0);
    assert_eq!(p.abstain_votes, 0);
    assert_eq!(p.min_votes_required, 100);
    assert_eq!(p.execution_timestamp, None);
}

#[test]
fn create_proposal_ids_increase_and_are_never_reused() {
    let mut s = engine_with_creator(100);
    for expected in 0..5u64 {
        let p = s
            .create_proposal(
                ALICE,
                String::from("p"),
                String::from("d"),
                ProposalType::Other,
                60,
                1_000,
            )
            .unwrap();
        assert_eq!(p.id, expected);
    }
    assert_eq!(s.get_proposals().len(), 5);
}

#[test]
fn create_proposal_requires_creation_power() {
    let mut s = engine(100);
    s.mint_test_tokens(ALICE, 99).unwrap();
    let r = s.create_proposal(
        ALICE,
        String::from("p"),
        String::from("d"),
        ProposalType::Other,
        60,
        1_000,
    );
    assert_eq!(r.unwrap_err(), GovernanceError::Unauthorized);
    assert!(s.get_proposals().is_empty());
}

#[test]
fn create_proposal_overflowing_window_fails() {
    let mut s = engine_with_creator(100);
    let r = s.create_proposal(
        ALICE,
        String::from("p"),
        String::from("d"),
        ProposalType::Other,
        u64::MAX,
        1_000,
    );
    assert_eq!(r.unwrap_err(), GovernanceError::Overflow);
    assert!(s.get_proposals().is_empty());
}

#[test]
fn quorum_with_yes_majority_passes() {
    // quorum 100; 60 Yes + 50 Yes = 110 >= 100 and 110 > 0: Passed.
    let mut s = engine_with_creator(100);
    s.mint_test_tokens(BOB, 60).unwrap();
    s.mint_test_tokens(CAROL, 50).unwrap();
    s.create_proposal(ALICE, String::from("p"), String::from("d"), ProposalType::Other, 60, 0)
        .unwrap();
    s.vote(BOB, 0, VoteType::Yes, 10).unwrap();
    assert_eq!(s.get_proposal(0).unwrap().status, ProposalStatus::Active);
    s.vote(CAROL, 0, VoteType::Yes, 20).unwrap();
    let p = s.get_proposal(0).unwrap();
    assert_eq!(p.yes_votes, 110);
    assert_eq!(p.no_votes, 0);
    assert_eq!(p.status, ProposalStatus::Passed);
}

#[test]
fn quorum_with_no_majority_rejects() {
    // quorum 100; 60 No + 50 Yes = 110 >= 100 and 60 > 50: Rejected.
    let mut s = engine_with_creator(100);
    s.mint_test_tokens(BOB, 60).unwrap();
    s.mint_test_tokens(CAROL, 50).unwrap();
    s.create_proposal(ALICE, String::from("p"), String::from("d"), ProposalType::Other, 60, 0)
        .unwrap();
    s.vote(BOB, 0, VoteType::No, 10).unwrap();
    s.vote(CAROL, 0, VoteType::Yes, 20).unwrap();
    let p = s.get_proposal(0).unwrap();
    assert_eq!(p.yes_votes, 50);
    assert_eq!(p.no_votes, 60);
    assert_eq!(p.status, ProposalStatus::Rejected);
}

#[test]
fn tie_at_quorum_rejects() {
    // quorum 100; 50 Yes + 50 No = 100 >= 100 and yes == no: Rejected.
    let mut s = engine_with_creator(100);
    s.mint_test_tokens(BOB, 50).unwrap();
    s.mint_test_tokens(CAROL, 50).unwrap();
    s.create_proposal(ALICE, String::from("p"), String::from("d"), ProposalType::Other, 60, 0)
        .unwrap();
    s.vote(BOB, 0, VoteType::Yes, 10).unwrap();
    s.vote(CAROL, 0, VoteType::No, 20).unwrap();
    let p = s.get_proposal(0).unwrap();
    assert_eq!(p.status, ProposalStatus::Rejected);
}

#[test]
fn abstain_counts_toward_quorum_only() {
    // quorum 100; 60 Abstain + 50 Yes = 110 >= 100 and 50 > 0: Passed.
    let mut s = engine_with_creator(100);
    s.mint_test_tokens(BOB, 60).unwrap();
    s.mint_test_tokens(CAROL, 50).unwrap();
    s.create_proposal(ALICE, String::from("p"), String::from("d"), ProposalType::Other, 60, 0)
        .unwrap();
    s.vote(BOB, 0, VoteType::Abstain, 10).unwrap();
    s.vote(CAROL, 0, VoteType::Yes, 20).unwrap();
    let p = s.get_proposal(0).unwrap();
    assert_eq!(p.abstain_votes, 60);
    assert_eq!(p.status, ProposalStatus::Passed);
}

#[test]
fn double_vote_fails_and_leaves_tallies_unchanged() {
    let mut s = engine_with_creator(1_000);
    s.mint_test_tokens(BOB, 60).unwrap();
    s.create_proposal(ALICE, String::from("p"), String::from("d"), ProposalType::Other, 60, 0)
        .unwrap();
    s.vote(BOB, 0, VoteType::Yes, 10).unwrap();
    let before = s.get_proposal(0).unwrap();
    let r = s.vote(BOB, 0, VoteType::No, 20);
    assert_eq!(r.unwrap_err(), GovernanceError::AlreadyVoted);
    let after = s.get_proposal(0).unwrap();
    assert_eq!(after.yes_votes, before.yes_votes);
    assert_eq!(after.no_votes, before.no_votes);
    assert_eq!(after.abstain_votes, before.abstain_votes);
    assert_eq!(s.get_proposal_votes(0).len(), 1);
}

#[test]
fn vote_after_voting_end_fails_votingclosed() {
    let mut s = engine_with_creator(1_000);
    s.mint_test_tokens(BOB, 60).unwrap();
    s.create_proposal(ALICE, String::from("p"), String::from("d"), ProposalType::Other, 60, 0)
        .unwrap();
    let end = s.get_proposal(0).unwrap().voting_end;
    let r = s.vote(BOB, 0, VoteType::Yes, end + 1);
    assert_eq!(r.unwrap_err(), GovernanceError::VotingClosed);
    let p = s.get_proposal(0).unwrap();
    assert_eq!(p.status, ProposalStatus::Active);
    assert_eq!(p.yes_votes + p.no_votes + p.abstain_votes, 0);
}

#[test]
fn vote_exactly_at_voting_end_is_still_open() {
    let mut s = engine_with_creator(1_000);
    s.mint_test_tokens(BOB, 60).unwrap();
    s.create_proposal(ALICE, String::from("p"), String::from("d"), ProposalType::Other, 60, 0)
        .unwrap();
    let end = s.get_proposal(0).unwrap().voting_end;
    assert!(s.vote(BOB, 0, VoteType::Yes, end).is_ok());
}

#[test]
fn vote_on_unknown_proposal_fails_notfound() {
    let mut s = engine_with_creator(100);
    s.mint_test_tokens(BOB, 60).unwrap();
    let r = s.vote(BOB, 7, VoteType::Yes, 10);
    assert_eq!(r.unwrap_err(), GovernanceError::NotFound);
}

#[test]
fn vote_without_power_fails_novotingpower() {
    let mut s = engine_with_creator(100);
    s.create_proposal(ALICE, String::from("p"), String::from("d"), ProposalType::Other, 60, 0)
        .unwrap();
    let r = s.vote(BOB, 0, VoteType::Yes, 10);
    assert_eq!(r.unwrap_err(), GovernanceError::NoVotingPower);
}

#[test]
fn vote_on_concluded_proposal_fails_notactive() {
    let mut s = engine_with_creator(100);
    s.mint_test_tokens(BOB, 200).unwrap();
    s.mint_test_tokens(CAROL, 10).unwrap();
    s.create_proposal(ALICE, String::from("p"), String::from("d"), ProposalType::Other, 60, 0)
        .unwrap();
    s.vote(BOB, 0, VoteType::Yes, 10).unwrap();
    assert_eq!(s.get_proposal(0).unwrap().status, ProposalStatus::Passed);
    let r = s.vote(CAROL, 0, VoteType::Yes, 20);
    assert_eq!(r.unwrap_err(), GovernanceError::ProposalNotActive);
}

#[test]
fn tally_overflow_is_reported_and_commits_nothing() {
    // Quorum at u64::MAX keeps the proposal active after a huge Yes vote;
    // the next Yes vote would overflow the bucket and must fail cleanly.
    let mut s = engine_with_creator(u64::MAX);
    s.mint_test_tokens(BOB, u64::MAX - 1).unwrap();
    s.mint_test_tokens(CAROL, 2).unwrap();
    s.create_proposal(ALICE, String::from("p"), String::from("d"), ProposalType::Other, 60, 0)
        .unwrap();
    s.vote(BOB, 0, VoteType::Yes, 10).unwrap();
    assert_eq!(s.get_proposal(0).unwrap().status, ProposalStatus::Active);
    let r = s.vote(CAROL, 0, VoteType::Yes, 20);
    assert_eq!(r.unwrap_err(), GovernanceError::Overflow);
    let p = s.get_proposal(0).unwrap();
    assert_eq!(p.yes_votes, u64::MAX - 1);
    assert_eq!(s.get_proposal_votes(0).len(), 1);
}

#[test]
fn vote_snapshots_power_at_cast_time() {
    let mut s = engine_with_creator(1_000);
    s.mint_test_tokens(BOB, 60).unwrap();
    s.create_proposal(ALICE, String::from("p"), String::from("d"), ProposalType::Other, 60, 0)
        .unwrap();
    let v = s.vote(BOB, 0, VoteType::Yes, 10).unwrap();
    assert_eq!(v.voting_power, 60);
    // growing the balance afterwards changes no recorded vote or tally
    s.mint_test_tokens(BOB, 1_000).unwrap();
    assert_eq!(s.get_proposal(0).unwrap().yes_votes, 60);
    assert_eq!(s.get_proposal_votes(0)[0].voting_power, 60);
}

#[test]
fn cancel_by_non_creator_fails_forbidden() {
    let mut s = engine_with_creator(100);
    s.create_proposal(ALICE, String::from("p"), String::from("d"), ProposalType::Other, 60, 0)
        .unwrap();
    let r = s.cancel_proposal(BOB, 0);
    assert_eq!(r.unwrap_err(), GovernanceError::Forbidden);
    assert_eq!(s.get_proposal(0).unwrap().status, ProposalStatus::Active);
}

#[test]
fn cancel_by_creator_moves_to_canceled() {
    let mut s = engine_with_creator(100);
    s.create_proposal(ALICE, String::from("p"), String::from("d"), ProposalType::Other, 60, 0)
        .unwrap();
    let p = s.cancel_proposal(ALICE, 0).unwrap();
    assert_eq!(p.status, ProposalStatus::Canceled);
    // canceled is terminal: no vote, cancel or execute succeeds afterwards
    s.mint_test_tokens(BOB, 60).unwrap();
    assert_eq!(
        s.vote(BOB, 0, VoteType::Yes, 10).unwrap_err(),
        GovernanceError::ProposalNotActive
    );
    assert_eq!(
        s.cancel_proposal(ALICE, 0).unwrap_err(),
        GovernanceError::ProposalNotActive
    );
    assert_eq!(
        s.execute_proposal(ALICE, 0, 20).unwrap_err(),
        GovernanceError::NotPassed
    );
    assert_eq!(s.get_proposal(0).unwrap().status, ProposalStatus::Canceled);
}

#[test]
fn cancel_unknown_proposal_fails_notfound() {
    let mut s = engine_with_creator(100);
    assert_eq!(s.cancel_proposal(ALICE, 3).unwrap_err(), GovernanceError::NotFound);
}

#[test]
fn execute_passed_proposal_stamps_timestamp_once() {
    let mut s = engine_with_creator(100);
    s.mint_test_tokens(BOB, 200).unwrap();
    s.create_proposal(ALICE, String::from("p"), String::from("d"), ProposalType::Other, 60, 0)
        .unwrap();
    s.vote(BOB, 0, VoteType::Yes, 10).unwrap();
    assert_eq!(s.get_proposal(0).unwrap().status, ProposalStatus::Passed);
    let p = s.execute_proposal(ALICE, 0, 77).unwrap();
    assert_eq!(p.status, ProposalStatus::Executed);
    assert_eq!(p.execution_timestamp, Some(77));
    // a second execution attempt fails and changes nothing
    let r = s.execute_proposal(ALICE, 0, 99);
    assert_eq!(r.unwrap_err(), GovernanceError::NotPassed);
    let p2 = s.get_proposal(0).unwrap();
    assert_eq!(p2.status, ProposalStatus::Executed);
    assert_eq!(p2.execution_timestamp, Some(77));
}

#[test]
fn execute_by_non_creator_fails_forbidden() {
    let mut s = engine_with_creator(100);
    s.mint_test_tokens(BOB, 200).unwrap();
    s.create_proposal(ALICE, String::from("p"), String::from("d"), ProposalType::Other, 60, 0)
        .unwrap();
    s.vote(BOB, 0, VoteType::Yes, 10).unwrap();
    let r = s.execute_proposal(BOB, 0, 20);
    assert_eq!(r.unwrap_err(), GovernanceError::Forbidden);
    assert_eq!(s.get_proposal(0).unwrap().status, ProposalStatus::Passed);
}

#[test]
fn execute_active_proposal_fails_notpassed() {
    let mut s = engine_with_creator(100);
    s.create_proposal(ALICE, String::from("p"), String::from("d"), ProposalType::Other, 60, 0)
        .unwrap();
    let r = s.execute_proposal(ALICE, 0, 20);
    assert_eq!(r.unwrap_err(), GovernanceError::NotPassed);
}

#[test]
fn execute_unknown_proposal_fails_notfound() {
    let mut s = engine_with_creator(100);
    assert_eq!(s.execute_proposal(ALICE, 3, 20).unwrap_err(), GovernanceError::NotFound);
}

#[test]
fn tallies_always_equal_sum_of_recorded_votes() {
    let mut s = engine_with_creator(1_000);
    s.mint_test_tokens(BOB, 60).unwrap();
    s.mint_test_tokens(CAROL, 50).unwrap();
    s.mint_test_tokens(ALICE, 0).unwrap();
    s.create_proposal(ALICE, String::from("p"), String::from("d"), ProposalType::Other, 60, 0)
        .unwrap();
    s.vote(BOB, 0, VoteType::Yes, 10).unwrap();
    s.vote(CAROL, 0, VoteType::No, 20).unwrap();
    s.vote(ALICE, 0, VoteType::Abstain, 30).unwrap();
    let p = s.get_proposal(0).unwrap();
    let votes = s.get_proposal_votes(0);
    let total: u64 = votes.iter().map(|v| v.voting_power).sum();
    assert_eq!(p.yes_votes + p.no_votes + p.abstain_votes, total);
    assert_eq!(total, 210);
}

#[test]
fn no_duplicate_vote_pairs_across_proposals() {
    // one voter may vote on two proposals, but only once on each
    let mut s = engine_with_creator(1_000);
    s.mint_test_tokens(BOB, 60).unwrap();
    s.create_proposal(ALICE, String::from("a"), String::from("d"), ProposalType::Other, 60, 0)
        .unwrap();
    s.create_proposal(ALICE, String::from("b"), String::from("d"), ProposalType::Other, 60, 0)
        .unwrap();
    s.vote(BOB, 0, VoteType::Yes, 10).unwrap();
    s.vote(BOB, 1, VoteType::No, 20).unwrap();
    assert_eq!(s.vote(BOB, 0, VoteType::No, 30).unwrap_err(), GovernanceError::AlreadyVoted);
    assert_eq!(s.vote(BOB, 1, VoteType::No, 30).unwrap_err(), GovernanceError::AlreadyVoted);
    let all = s.get_user_votes(BOB);
    assert_eq!(all.len(), 2);
    assert!(all[0].proposal_id != all[1].proposal_id);
}

#[test]
fn queries_report_votes_by_proposal_and_by_voter() {
    let mut s = engine_with_creator(1_000);
    s.mint_test_tokens(BOB, 60).unwrap();
    s.mint_test_tokens(CAROL, 50).unwrap();
    s.create_proposal(ALICE, String::from("a"), String::from("d"), ProposalType::Other, 60, 0)
        .unwrap();
    s.create_proposal(ALICE, String::from("b"), String::from("d"), ProposalType::Other, 60, 0)
        .unwrap();
    s.vote(BOB, 0, VoteType::Yes, 10).unwrap();
    s.vote(CAROL, 0, VoteType::No, 20).unwrap();
    s.vote(BOB, 1, VoteType::Abstain, 30).unwrap();
    let on_first = s.get_proposal_votes(0);
    assert_eq!(on_first.len(), 2);
    assert_eq!(on_first[0].user, BOB);
    assert_eq!(on_first[0].vote_type, VoteType::Yes);
    assert_eq!(on_first[1].user, CAROL);
    let by_bob = s.get_user_votes(BOB);
    assert_eq!(by_bob.len(), 2);
    assert_eq!(by_bob[0].proposal_id, 0);
    assert_eq!(by_bob[1].proposal_id, 1);
    assert_eq!(by_bob[1].vote_type, VoteType::Abstain);
    assert!(s.get_proposal_votes(9).is_empty());
    assert!(s.get_user_votes(9).is_empty());
}

#[test]
fn get_proposal_returns_none_for_unknown_id() {
    let s = engine(100);
    assert!(s.get_proposal(0).is_none());
    assert!(s.get_proposals().is_empty());
}

#[test]
fn balances_and_voting_power_track_minting() {
    let mut s = engine(100);
    assert_eq!(s.get_token_balance(ALICE), 0);
    assert_eq!(s.get_voting_power(ALICE), 0);
    s.mint_test_tokens(ALICE, 40).unwrap();
    s.mint_test_tokens(ALICE, 2).unwrap();
    s.mint_test_tokens(BOB, 7).unwrap();
    assert_eq!(s.get_token_balance(ALICE), 42);
    assert_eq!(s.get_voting_power(ALICE), 42);
    assert_eq!(s.get_token_balance(BOB), 7);
}

#[test]
fn minting_over_u64_max_fails_overflow() {
    let mut s = engine(100);
    s.mint_test_tokens(ALICE, u64::MAX).unwrap();
    let r = s.mint_test_tokens(ALICE, 1);
    assert_eq!(r.unwrap_err(), GovernanceError::Overflow);
    assert_eq!(s.get_token_balance(ALICE), u64::MAX);
}
