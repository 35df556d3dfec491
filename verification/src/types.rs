//! Core data records of the governance engine: proposals, votes, token
//! accounts, and the error kinds that operations report.

use vstd::prelude::*;

verus! {

/// The lifecycle states of a proposal.
///
/// Transitions only ever move forward: `Active` may become `Passed`,
/// `Rejected` or `Canceled`; `Passed` may become `Executed`; `Rejected`,
/// `Executed` and `Canceled` are terminal.
#[derive(Clone, Copy, PartialEq, Eq, Structural, Debug)]
pub enum ProposalStatus {
    Active,
    Passed,
    Rejected,
    Executed,
    Canceled,
}

/// The choice a voter casts.
#[derive(Clone, Copy, PartialEq, Eq, Structural, Debug)]
pub enum VoteType {
    Yes,
    No,
    Abstain,
}

/// The category of a proposal. Carried as data; no rule depends on it.
#[derive(Clone, Copy, PartialEq, Eq, Structural, Debug)]
pub enum ProposalType {
    FeatureRequest,
    BudgetAllocation,
    PolicyChange,
    MembershipRule,
    TokenIssuance,
    Other,
}

/// The error kinds an operation can report. Every error is terminal and
/// leaves the engine state unchanged.
#[derive(Clone, Copy, PartialEq, Eq, Structural, Debug)]
pub enum GovernanceError {
    /// No proposal with the given identifier exists.
    NotFound,
    /// The caller lacks the required authority (is not the creator).
    Forbidden,
    /// The operation is only valid while the proposal is `Active`.
    ProposalNotActive,
    /// Execution is only valid while the proposal is `Passed`.
    NotPassed,
    /// The voting window has closed (`now` is past `voting_end`).
    VotingClosed,
    /// The caller has already cast a vote on this proposal.
    AlreadyVoted,
    /// The caller's voting power is zero.
    NoVotingPower,
    /// Tally or timestamp arithmetic would exceed the representable range.
    Overflow,
    /// The caller's voting power is below the minimum required to create
    /// a proposal.
    Unauthorized,
}

/// A single governance decision record with a bounded voting window.
///
/// Identified by `id`, which the engine assigns strictly increasingly and
/// never reuses. All timestamps are in nanoseconds.
#[derive(Debug)]
pub struct Proposal {
    /// Unique, monotonically assigned identifier.
    pub id: u64,
    /// Opaque identity of the caller that created the proposal.
    pub creator: u64,
    pub title: String,
    pub description: String,
    pub proposal_type: ProposalType,
    /// Start of the voting window; equals `created_at`.
    pub voting_start: u64,
    /// End of the voting window; strictly after `voting_start`.
    pub voting_end: u64,
    pub status: ProposalStatus,
    /// Sum of the voting power of all voters who chose `Yes`.
    pub yes_votes: u64,
    /// Sum of the voting power of all voters who chose `No`.
    pub no_votes: u64,
    /// Sum of the voting power of all voters who chose `Abstain`.
    pub abstain_votes: u64,
    /// Quorum threshold: total voting power required before the proposal
    /// can conclude. Always positive.
    pub min_votes_required: u64,
    /// Set exactly once, on the transition into `Executed`.
    pub execution_timestamp: Option<u64>,
    pub created_at: u64,
}

impl Clone for Proposal {
    fn clone(&self) -> (res: Self)
        ensures
            res == *self,
    {
        Proposal {
            id: self.id,
            creator: self.creator,
            title: self.title.clone(),
            description: self.description.clone(),
            proposal_type: self.proposal_type,
            voting_start: self.voting_start,
            voting_end: self.voting_end,
            status: self.status,
            yes_votes: self.yes_votes,
            no_votes: self.no_votes,
            abstain_votes: self.abstain_votes,
            min_votes_required: self.min_votes_required,
            execution_timestamp: self.execution_timestamp,
            created_at: self.created_at,
        }
    }
}

/// A vote cast by one caller on one proposal.
///
/// At most one `UserVote` per `(proposal_id, user)` pair ever exists, and a
/// vote is immutable once recorded. `voting_power` is snapshotted at cast
/// time and never re-read.
#[derive(Clone, Copy, PartialEq, Eq, Structural, Debug)]
pub struct UserVote {
    pub proposal_id: u64,
    /// Opaque identity of the voter.
    pub user: u64,
    pub vote_type: VoteType,
    /// The voter's power at the moment the vote was cast.
    pub voting_power: u64,
    pub timestamp: u64,
}

/// One caller's voting-token balance. Balances double as voting power.
#[derive(Clone, Copy, PartialEq, Eq, Structural, Debug)]
pub struct TokenAccount {
    pub owner: u64,
    pub amount: u64,
}

/// Policy parameters of the engine, fixed at construction.
#[derive(Clone, Copy, PartialEq, Eq, Structural, Debug)]
pub struct GovernanceConfig {
    /// Minimum voting power a caller needs to create a proposal.
    pub min_creation_power: u64,
    /// Quorum threshold stamped into every new proposal as
    /// `min_votes_required`. Always positive.
    pub quorum: u64,
}

} // verus!
