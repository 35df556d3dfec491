//! Pure tallying rules: applying a weighted vote to the running tallies and
//! evaluating quorum satisfaction and majority.

use vstd::prelude::*;
use crate::types::{GovernanceError, Proposal, ProposalStatus, VoteType};

verus! {

/// What evaluating a proposal's tallies yields.
#[derive(Clone, Copy, PartialEq, Eq, Structural, Debug)]
pub enum Outcome {
    /// Quorum not yet reached: total voting power below `min_votes_required`.
    StillActive,
    /// Quorum reached and strictly more `Yes` than `No` power.
    Passed,
    /// Quorum reached and `Yes` power does not exceed `No` power
    /// (ties reject).
    Rejected,
}

/// The tally bucket of `p` that a vote with choice `choice` adds to.
pub open spec fn spec_bucket(p: Proposal, choice: VoteType) -> u64 {
    match choice {
        VoteType::Yes => p.yes_votes,
        VoteType::No => p.no_votes,
        VoteType::Abstain => p.abstain_votes,
    }
}

/// The tallies of `p` after a vote of weight `power` for `choice`, as
/// unbounded integers: `(yes, no, abstain)`.
pub open spec fn spec_apply_vote(p: Proposal, choice: VoteType, power: u64) -> (int, int, int) {
    match choice {
        VoteType::Yes => (p.yes_votes + power, p.no_votes as int, p.abstain_votes as int),
        VoteType::No => (p.yes_votes as int, p.no_votes + power, p.abstain_votes as int),
        VoteType::Abstain => (p.yes_votes as int, p.no_votes as int, p.abstain_votes + power),
    }
}

/// The outcome of evaluating tallies `(yes, no, abstain)` against the quorum
/// threshold `min`: still active below quorum, otherwise passed exactly when
/// `yes > no`.
pub open spec fn spec_evaluate_tallies(yes: int, no: int, abstain: int, min: int) -> Outcome {
    if yes + no + abstain < min {
        Outcome::StillActive
    } else if yes > no {
        Outcome::Passed
    } else {
        Outcome::Rejected
    }
}

/// The outcome of evaluating `p`'s current tallies against its own quorum
/// threshold.
pub open spec fn spec_evaluate(p: Proposal) -> Outcome {
    spec_evaluate_tallies(p.yes_votes as int, p.no_votes as int, p.abstain_votes as int, p.min_votes_required as int)
}

/// Adds `power` to the tally bucket of `p` matching `choice`, with
/// overflow-checked arithmetic. Returns the updated `(yes, no, abstain)`
/// tallies, or `Overflow` exactly when the sum would not fit in `u64`.
pub fn apply_vote(p: &Proposal, choice: VoteType, power: u64) -> (r: Result<(u64, u64, u64), GovernanceError>)
    ensures
        spec_bucket(*p, choice) + power <= u64::MAX ==>
            (r matches Ok(t) && (t.0 as int, t.1 as int, t.2 as int) == spec_apply_vote(*p, choice, power)),
        spec_bucket(*p, choice) + power > u64::MAX ==> r == Err::<(u64, u64, u64), GovernanceError>(GovernanceError::Overflow),
{
    let bucket = match choice {
        VoteType::Yes => p.yes_votes,
        VoteType::No => p.no_votes,
        VoteType::Abstain => p.abstain_votes,
    };
    match bucket.checked_add(power) {
        Some(updated) => {
            let tallies = match choice {
                VoteType::Yes => (updated, p.no_votes, p.abstain_votes),
                VoteType::No => (p.yes_votes, updated, p.abstain_votes),
                VoteType::Abstain => (p.yes_votes, p.no_votes, updated),
            };
            Ok(tallies)
        },
        None => Err(GovernanceError::Overflow),
    }
}

/// Evaluates `p`'s current tallies: `StillActive` while total voting power is
/// below `p.min_votes_required`; otherwise `Passed` exactly when
/// `yes_votes > no_votes`, and `Rejected` on ties or a `No` majority.
///
/// Side-effect-free; the result depends on the tallies and threshold alone.
pub fn evaluate(p: &Proposal) -> (o: Outcome)
    ensures
        o == spec_evaluate(*p),
{
    let yes = p.yes_votes;
    let no = p.no_votes;
    let abstain = p.abstain_votes;
    // Total fits in u128, so quorum comparison needs no overflow check.
    let total: u128 = yes as u128 + no as u128 + abstain as u128;
    if total < p.min_votes_required as u128 {
        Outcome::StillActive
    } else if yes > no {
        Outcome::Passed
    } else {
        Outcome::Rejected
    }
}

/// Evaluation depends on the tallies and threshold alone: two proposals with
/// equal tallies and equal quorum thresholds evaluate to the same outcome, so
/// evaluating twice on the same tallies yields the same outcome.
pub proof fn lemma_evaluate_deterministic(p1: Proposal, p2: Proposal)
    requires
        p1.yes_votes == p2.yes_votes,
        p1.no_votes == p2.no_votes,
        p1.abstain_votes == p2.abstain_votes,
        p1.min_votes_required == p2.min_votes_required,
    ensures
        spec_evaluate(p1) == spec_evaluate(p2),
{
}

/// A proposal status may only move forward along the lifecycle state machine
/// in a single transition: stay put, conclude an `Active` proposal, or
/// execute a `Passed` one.
pub open spec fn status_step(before: ProposalStatus, after: ProposalStatus) -> bool {
    ||| after == before
    ||| (before == ProposalStatus::Active
        && (after == ProposalStatus::Passed || after == ProposalStatus::Rejected
            || after == ProposalStatus::Canceled))
    ||| (before == ProposalStatus::Passed && after == ProposalStatus::Executed)
}

/// `Rejected`, `Executed` and `Canceled` are terminal: no transition leaves
/// them.
pub proof fn lemma_terminal_status_is_final(before: ProposalStatus, after: ProposalStatus)
    requires
        status_step(before, after),
        before == ProposalStatus::Rejected || before == ProposalStatus::Executed
            || before == ProposalStatus::Canceled,
    ensures
        after == before,
{
}

/// A proposal never skips from `Active` straight to `Executed`: the only way
/// into `Executed` is from `Passed` (or staying there).
pub proof fn lemma_executed_only_from_passed(before: ProposalStatus, after: ProposalStatus)
    requires
        status_step(before, after),
        after == ProposalStatus::Executed,
    ensures
        before == ProposalStatus::Passed || before == ProposalStatus::Executed,
{
}

} // verus!
