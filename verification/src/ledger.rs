//! The vote ledger model: spec-level sums of voting power over a sequence of
//! recorded votes, the one-vote-per-voter-per-proposal condition, and the
//! lemmas that relate them.
//!
//! The executable ledger is the `Vec<UserVote>` inside the engine state;
//! these spec functions and lemmas give it its mathematical meaning.

use vstd::prelude::*;
use crate::types::{UserVote, VoteType};

verus! {

/// No two votes in `votes` share the same `(proposal_id, user)` pair.
pub open spec fn votes_unique(votes: Seq<UserVote>) -> bool {
    forall|i: int, j: int| #![trigger votes[i], votes[j]]
        0 <= i < votes.len() && 0 <= j < votes.len() && i != j ==> !(
            votes[i].proposal_id == votes[j].proposal_id && votes[i].user == votes[j].user
        )
}

/// Some vote in `votes` was cast by `user` on proposal `pid`.
pub open spec fn spec_has_voted(votes: Seq<UserVote>, pid: u64, user: u64) -> bool {
    exists|i: int|
        0 <= i < votes.len() && (#[trigger] votes[i]).proposal_id == pid && votes[i].user == user
}

/// Total voting power of all votes in `votes` cast on proposal `pid`.
pub open spec fn power_sum(votes: Seq<UserVote>, pid: u64) -> int
    decreases votes.len(),
{
    if votes.len() == 0 {
        0
    } else {
        power_sum(votes.drop_last(), pid) + if votes.last().proposal_id == pid {
            votes.last().voting_power as int
        } else {
            0
        }
    }
}

/// Total voting power of the votes in `votes` cast on proposal `pid` with
/// choice `choice`.
pub open spec fn choice_power_sum(votes: Seq<UserVote>, pid: u64, choice: VoteType) -> int
    decreases votes.len(),
{
    if votes.len() == 0 {
        0
    } else {
        choice_power_sum(votes.drop_last(), pid, choice) + if votes.last().proposal_id == pid
            && votes.last().vote_type == choice {
            votes.last().voting_power as int
        } else {
            0
        }
    }
}

/// The total power cast on a proposal splits into the three per-choice sums:
/// every vote's power lands in exactly one bucket, and the buckets together
/// account for every vote.
pub proof fn lemma_power_sum_splits(votes: Seq<UserVote>, pid: u64)
    ensures
        power_sum(votes, pid) == choice_power_sum(votes, pid, VoteType::Yes)
            + choice_power_sum(votes, pid, VoteType::No)
            + choice_power_sum(votes, pid, VoteType::Abstain),
    decreases votes.len(),
{
    if votes.len() > 0 {
        lemma_power_sum_splits(votes.drop_last(), pid);
    }
}

/// A proposal no vote was cast on has power sums of zero.
pub proof fn lemma_sums_zero_when_absent(votes: Seq<UserVote>, pid: u64, choice: VoteType)
    requires
        forall|i: int| 0 <= i < votes.len() ==> (#[trigger] votes[i]).proposal_id != pid,
    ensures
        power_sum(votes, pid) == 0,
        choice_power_sum(votes, pid, choice) == 0,
    decreases votes.len(),
{
    if votes.len() > 0 {
        assert(forall|i: int| 0 <= i < votes.drop_last().len()
            ==> (#[trigger] votes.drop_last()[i]).proposal_id != pid);
        lemma_sums_zero_when_absent(votes.drop_last(), pid, choice);
    }
}

/// Appending a vote whose `(proposal_id, user)` pair is not yet recorded
/// keeps the ledger free of duplicate pairs.
pub proof fn lemma_unique_push(votes: Seq<UserVote>, v: UserVote)
    requires
        votes_unique(votes),
        !spec_has_voted(votes, v.proposal_id, v.user),
    ensures
        votes_unique(votes.push(v)),
{
    let pushed = votes.push(v);
    assert forall|i: int, j: int|
        0 <= i < pushed.len() && 0 <= j < pushed.len() && i != j implies !(
        pushed[i].proposal_id == pushed[j].proposal_id && pushed[i].user == pushed[j].user) by {
        if i < votes.len() && j < votes.len() {
            assert(pushed[i] == votes[i]);
            assert(pushed[j] == votes[j]);
        } else if i < votes.len() {
            assert(pushed[j] == v);
            if pushed[i].proposal_id == v.proposal_id && pushed[i].user == v.user {
                assert(spec_has_voted(votes, v.proposal_id, v.user));
            }
        } else {
            assert(pushed[i] == v);
            if pushed[j].proposal_id == v.proposal_id && pushed[j].user == v.user {
                assert(spec_has_voted(votes, v.proposal_id, v.user));
            }
        }
    }
}

/// The subsequence of `votes` cast on proposal `pid`, in casting order.
pub open spec fn votes_of_proposal(votes: Seq<UserVote>, pid: u64) -> Seq<UserVote>
    decreases votes.len(),
{
    if votes.len() == 0 {
        Seq::empty()
    } else {
        let prefix = votes_of_proposal(votes.drop_last(), pid);
        if votes.last().proposal_id == pid {
            prefix.push(votes.last())
        } else {
            prefix
        }
    }
}

/// The subsequence of `votes` cast by `user`, in casting order.
pub open spec fn votes_of_user(votes: Seq<UserVote>, user: u64) -> Seq<UserVote>
    decreases votes.len(),
{
    if votes.len() == 0 {
        Seq::empty()
    } else {
        let prefix = votes_of_user(votes.drop_last(), user);
        if votes.last().user == user {
            prefix.push(votes.last())
        } else {
            prefix
        }
    }
}

/// Appending a vote appends it to its proposal's and its voter's
/// subsequences and leaves every other subsequence unchanged.
pub proof fn lemma_projections_push(votes: Seq<UserVote>, v: UserVote, pid: u64, user: u64)
    ensures
        votes_of_proposal(votes.push(v), pid) == if v.proposal_id == pid {
            votes_of_proposal(votes, pid).push(v)
        } else {
            votes_of_proposal(votes, pid)
        },
        votes_of_user(votes.push(v), user) == if v.user == user {
            votes_of_user(votes, user).push(v)
        } else {
            votes_of_user(votes, user)
        },
{
    assert(votes.push(v).drop_last() =~= votes);
    assert(votes.push(v).last() == v);
}

/// Appending a vote adds its power to the sums for its own proposal and
/// choice, and leaves every other sum unchanged.
pub proof fn lemma_sums_push(votes: Seq<UserVote>, v: UserVote, pid: u64, choice: VoteType)
    ensures
        power_sum(votes.push(v), pid) == power_sum(votes, pid) + if v.proposal_id == pid {
            v.voting_power as int
        } else {
            0
        },
        choice_power_sum(votes.push(v), pid, choice) == choice_power_sum(votes, pid, choice)
            + if v.proposal_id == pid && v.vote_type == choice {
            v.voting_power as int
        } else {
            0
        },
{
    assert(votes.push(v).drop_last() =~= votes);
    assert(votes.push(v).last() == v);
}

} // verus!
