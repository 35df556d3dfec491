//! The governance engine: owned proposal store, vote ledger and token
//! accounts behind a single state holder, with the lifecycle operations.
//!
//! The host hands every operation the already-authenticated caller identity
//! and the current time (nanoseconds) as plain values; the engine does no
//! I/O of its own.

use vstd::prelude::*;
use crate::types::{
    GovernanceConfig, GovernanceError, Proposal, ProposalStatus, ProposalType, TokenAccount,
    UserVote, VoteType,
};
use crate::ledger::{
    choice_power_sum, lemma_power_sum_splits, lemma_projections_push, lemma_sums_push,
    lemma_sums_zero_when_absent, lemma_unique_push, power_sum, spec_has_voted,
    votes_of_proposal, votes_of_user, votes_unique,
};
use crate::tally::{
    apply_vote, evaluate, spec_apply_vote, spec_bucket, spec_evaluate_tallies, status_step,
    Outcome,
};

verus! {

/// The caller's voting-token balance in `accounts`, scanning from the front;
/// zero for a caller with no account. With unique owners this is the balance
/// of the owner's single account.
pub open spec fn balance_in(accounts: Seq<TokenAccount>, owner: u64) -> u64
    decreases accounts.len(),
{
    if accounts.len() == 0 {
        0
    } else if accounts[0].owner == owner {
        accounts[0].amount
    } else {
        balance_in(accounts.skip(1), owner)
    }
}

/// No two accounts in `accounts` share an owner.
pub open spec fn accounts_unique(accounts: Seq<TokenAccount>) -> bool {
    forall|i: int, j: int| #![trigger accounts[i], accounts[j]]
        0 <= i < accounts.len() && 0 <= j < accounts.len() && i != j
            ==> accounts[i].owner != accounts[j].owner
}

/// `balance_in` is a first-match lookup: at an index `j` before which no
/// account has the same owner, the lookup yields that account's amount, and
/// replacing that account's amount changes the lookup for that owner alone.
pub proof fn lemma_balance_first_match(accounts: Seq<TokenAccount>, j: int, amount: u64)
    requires
        0 <= j < accounts.len(),
        forall|i: int| 0 <= i < j ==> (#[trigger] accounts[i]).owner != accounts[j].owner,
    ensures
        balance_in(accounts, accounts[j].owner) == accounts[j].amount,
        balance_in(
            accounts.update(j, TokenAccount { owner: accounts[j].owner, amount }),
            accounts[j].owner,
        ) == amount,
        forall|o: u64| o != accounts[j].owner ==> balance_in(
            accounts.update(j, TokenAccount { owner: accounts[j].owner, amount }),
            o,
        ) == balance_in(accounts, o),
    decreases j,
{
    let owner = accounts[j].owner;
    let updated = accounts.update(j, TokenAccount { owner, amount });
    if j == 0 {
        assert(updated.skip(1) =~= accounts.skip(1));
    } else {
        assert(updated[0] == accounts[0]);
        assert(accounts[0].owner != owner);
        assert(updated.skip(1) =~= accounts.skip(1).update(
            j - 1,
            TokenAccount { owner, amount },
        ));
        assert(accounts.skip(1)[j - 1] == accounts[j]);
        assert(forall|i: int| 0 <= i < j - 1
            ==> (#[trigger] accounts.skip(1)[i]).owner != owner);
        lemma_balance_first_match(accounts.skip(1), j - 1, amount);
        assert forall|o: u64| o != owner implies balance_in(updated, o) == balance_in(
            accounts,
            o,
        ) by {
            if accounts[0].owner != o {
                assert(balance_in(updated, o) == balance_in(updated.skip(1), o));
                assert(balance_in(accounts, o) == balance_in(accounts.skip(1), o));
            }
        }
    }
}

/// Appending an account for a previously unknown owner gives that owner its
/// amount as balance and leaves every other owner's balance unchanged.
pub proof fn lemma_balance_push(accounts: Seq<TokenAccount>, a: TokenAccount)
    requires
        forall|i: int| 0 <= i < accounts.len() ==> (#[trigger] accounts[i]).owner != a.owner,
    ensures
        balance_in(accounts.push(a), a.owner) == a.amount,
        forall|o: u64| o != a.owner ==> balance_in(accounts.push(a), o) == balance_in(
            accounts,
            o,
        ),
    decreases accounts.len(),
{
    let pushed = accounts.push(a);
    if accounts.len() == 0 {
        assert(pushed[0] == a);
        assert forall|o: u64| o != a.owner implies balance_in(pushed, o) == balance_in(
            accounts,
            o,
        ) by {
            assert(pushed.skip(1) =~= Seq::<TokenAccount>::empty());
            assert(balance_in(pushed, o) == balance_in(pushed.skip(1), o));
            assert(balance_in(Seq::<TokenAccount>::empty(), o) == 0);
            assert(balance_in(accounts, o) == 0);
        }
    } else {
        assert(pushed[0] == accounts[0]);
        assert(pushed.skip(1) =~= accounts.skip(1).push(a));
        assert(forall|i: int| 0 <= i < accounts.skip(1).len()
            ==> (#[trigger] accounts.skip(1)[i]).owner != a.owner);
        lemma_balance_push(accounts.skip(1), a);
        assert(accounts[0].owner != a.owner);
        assert(balance_in(pushed, a.owner) == balance_in(pushed.skip(1), a.owner));
        assert forall|o: u64| o != a.owner implies balance_in(pushed, o) == balance_in(
            accounts,
            o,
        ) by {
            if accounts[0].owner != o {
                assert(balance_in(pushed, o) == balance_in(pushed.skip(1), o));
                assert(balance_in(accounts, o) == balance_in(accounts.skip(1), o));
            }
        }
    }
}

/// A single stored proposal is well formed with respect to the vote ledger:
/// its identifier is its position in the store, its voting window is
/// non-empty, its quorum threshold is positive, each tally bucket equals the
/// ledger's per-choice power sum, an `Active` proposal is always short of
/// quorum (auto-conclusion leaves no concluded proposal `Active`), and the
/// execution timestamp is set exactly on `Executed`.
pub open spec fn wf_proposal(p: Proposal, id: int, votes: Seq<UserVote>) -> bool {
    &&& p.id == id
    &&& p.voting_end > p.voting_start
    &&& p.min_votes_required >= 1
    &&& p.yes_votes == choice_power_sum(votes, p.id, VoteType::Yes)
    &&& p.no_votes == choice_power_sum(votes, p.id, VoteType::No)
    &&& p.abstain_votes == choice_power_sum(votes, p.id, VoteType::Abstain)
    &&& (p.status == ProposalStatus::Active ==> p.yes_votes + p.no_votes + p.abstain_votes
        < p.min_votes_required)
    &&& (p.execution_timestamp is Some <==> p.status == ProposalStatus::Executed)
}

/// `p` with its status replaced by `status` and everything else unchanged.
pub open spec fn spec_with_status(p: Proposal, status: ProposalStatus) -> Proposal {
    Proposal { status, ..p }
}

/// `p` with its status replaced by `Executed` and its execution timestamp
/// stamped with `now`; everything else unchanged.
pub open spec fn spec_executed(p: Proposal, now: u64) -> Proposal {
    Proposal { status: ProposalStatus::Executed, execution_timestamp: Some(now), ..p }
}

/// The proposal `p` after a vote of weight `power` for `choice` commits:
/// the matching tally bucket grows by `power`, and if the new totals reach
/// quorum the proposal auto-concludes to `Passed` or `Rejected`.
///
/// Meaningful only when the grown bucket still fits in `u64`; `vote` reports
/// `Overflow` instead of committing otherwise.
pub open spec fn spec_proposal_after_vote(p: Proposal, choice: VoteType, power: u64) -> Proposal {
    let tallies = spec_apply_vote(p, choice, power);
    let outcome = spec_evaluate_tallies(
        tallies.0,
        tallies.1,
        tallies.2,
        p.min_votes_required as int,
    );
    Proposal {
        yes_votes: tallies.0 as u64,
        no_votes: tallies.1 as u64,
        abstain_votes: tallies.2 as u64,
        status: if outcome == Outcome::Passed {
            ProposalStatus::Passed
        } else if outcome == Outcome::Rejected {
            ProposalStatus::Rejected
        } else {
            p.status
        },
        ..p
    }
}

/// The governance engine state: policy configuration, the proposal store,
/// the append-only vote ledger, and the voting-token accounts.
pub struct GovernanceState {
    config: GovernanceConfig,
    proposals: Vec<Proposal>,
    votes: Vec<UserVote>,
    accounts: Vec<TokenAccount>,
}

impl GovernanceState {
    /// The policy parameters the engine was constructed with.
    pub closed spec fn spec_config(self) -> GovernanceConfig {
        self.config
    }

    /// The stored proposals, in order of creation; a proposal's identifier
    /// is its position.
    pub closed spec fn spec_proposals(self) -> Seq<Proposal> {
        self.proposals@
    }

    /// The recorded votes, in order of casting.
    pub closed spec fn spec_votes(self) -> Seq<UserVote> {
        self.votes@
    }

    /// The token accounts backing voting power.
    pub closed spec fn spec_accounts(self) -> Seq<TokenAccount> {
        self.accounts@
    }

    /// The voting power of `owner`: the balance of their token account, or
    /// zero without one.
    pub open spec fn spec_balance_of(self, owner: u64) -> u64 {
        balance_in(self.spec_accounts(), owner)
    }

    /// A proposal with identifier `pid` exists.
    pub open spec fn proposal_exists(self, pid: u64) -> bool {
        pid < self.spec_proposals().len()
    }

    /// The stored proposal with identifier `pid`.
    pub open spec fn proposal_at(self, pid: u64) -> Proposal {
        self.spec_proposals()[pid as int]
    }

    /// `user` has a recorded vote on proposal `pid`.
    pub open spec fn spec_has_voted_on(self, pid: u64, user: u64) -> bool {
        spec_has_voted(self.spec_votes(), pid, user)
    }

    /// Well-formedness of the whole engine state: a positive quorum
    /// threshold, every proposal well formed against the ledger, at most one
    /// vote per `(proposal_id, voter)` pair, every vote cast on an existing
    /// proposal, and at most one token account per owner.
    pub open spec fn wf(self) -> bool {
        &&& self.spec_config().quorum >= 1
        &&& forall|i: int| 0 <= i < self.spec_proposals().len()
            ==> wf_proposal(#[trigger] self.spec_proposals()[i], i, self.spec_votes())
        &&& votes_unique(self.spec_votes())
        &&& forall|i: int| 0 <= i < self.spec_votes().len()
            ==> (#[trigger] self.spec_votes()[i]).proposal_id < self.spec_proposals().len()
        &&& accounts_unique(self.spec_accounts())
    }

    /// Creates an empty engine with the given policy parameters.
    pub fn new(config: GovernanceConfig) -> (s: Self)
        requires
            config.quorum >= 1,
        ensures
            s.wf(),
            s.spec_config() == config,
            s.spec_proposals() == Seq::<Proposal>::empty(),
            s.spec_votes() == Seq::<UserVote>::empty(),
            s.spec_accounts() == Seq::<TokenAccount>::empty(),
    {
        let s = GovernanceState {
            config,
            proposals: Vec::new(),
            votes: Vec::new(),
            accounts: Vec::new(),
        };
        assert(s.spec_proposals() =~= Seq::<Proposal>::empty());
        assert(s.spec_votes() =~= Seq::<UserVote>::empty());
        assert(s.spec_accounts() =~= Seq::<TokenAccount>::empty());
        s
    }

    /// The caller's voting-token balance; zero for a caller with no account.
    pub fn get_token_balance(&self, caller: u64) -> (r: u64)
        ensures
            r == self.spec_balance_of(caller),
    {
        let n = self.accounts.len();
        let mut k: usize = 0;
        assert(self.spec_accounts().skip(0) =~= self.spec_accounts());
        while k < n
            invariant
                n == self.spec_accounts().len(),
                0 <= k <= n,
                balance_in(self.spec_accounts(), caller) == balance_in(
                    self.spec_accounts().skip(k as int),
                    caller,
                ),
                forall|i: int| 0 <= i < k ==> (#[trigger] self.spec_accounts()[i]).owner != caller,
            decreases n - k,
        {
            let account = &self.accounts[k];
            if account.owner == caller {
                assert(self.spec_accounts().skip(k as int)[0] == self.spec_accounts()[k as int]);
                return account.amount;
            }
            assert(self.spec_accounts().skip(k as int).skip(1) =~= self.spec_accounts().skip(
                k as int + 1,
            ));
            k = k + 1;
        }
        assert(self.spec_accounts().skip(k as int).len() == 0);
        0
    }

    /// The caller's voting power; in this engine it equals the token
    /// balance.
    pub fn get_voting_power(&self, caller: u64) -> (r: u64)
        ensures
            r == self.spec_balance_of(caller),
    {
        self.get_token_balance(caller)
    }

    /// Whether `user` has a recorded vote on proposal `proposal_id`.
    fn has_voted(&self, proposal_id: u64, user: u64) -> (r: bool)
        ensures
            r == spec_has_voted(self.spec_votes(), proposal_id, user),
    {
        let n = self.votes.len();
        let mut k: usize = 0;
        while k < n
            invariant
                n == self.spec_votes().len(),
                0 <= k <= n,
                forall|i: int| 0 <= i < k ==> !((#[trigger] self.spec_votes()[i]).proposal_id
                    == proposal_id && self.spec_votes()[i].user == user),
            decreases n - k,
        {
            let v = &self.votes[k];
            if v.proposal_id == proposal_id && v.user == user {
                assert(spec_has_voted(self.spec_votes(), proposal_id, user));
                return true;
            }
            k = k + 1;
        }
        false
    }

    /// Why `create_proposal` would reject this call, or `None` if it is
    /// owed success: `Unauthorized` when the caller's voting power is below
    /// the configured creation minimum, `Overflow` when the voting window's
    /// end would not fit in a `u64` nanosecond timestamp.
    pub open spec fn spec_create_error(self, caller: u64, voting_period_seconds: u64, now: u64)
        -> Option<GovernanceError> {
        if self.spec_balance_of(caller) < self.spec_config().min_creation_power {
            Some(GovernanceError::Unauthorized)
        } else if now + voting_period_seconds * 1_000_000_000 > u64::MAX {
            Some(GovernanceError::Overflow)
        } else {
            None
        }
    }

    /// Creates a new proposal. The caller needs voting power of at least the
    /// configured creation minimum; the voting window runs from `now` for
    /// `voting_period_seconds`, and the new proposal starts `Active` with
    /// zero tallies and the configured quorum threshold. Its identifier is
    /// one past the previously newest: identifiers are assigned strictly
    /// increasingly and never reused.
    pub fn create_proposal(
        &mut self,
        caller: u64,
        title: String,
        description: String,
        proposal_type: ProposalType,
        voting_period_seconds: u64,
        now: u64,
    ) -> (r: Result<Proposal, GovernanceError>)
        requires
            old(self).wf(),
            voting_period_seconds >= 1,
        ensures
            final(self).wf(),
            final(self).spec_config() == old(self).spec_config(),
            final(self).spec_votes() == old(self).spec_votes(),
            final(self).spec_accounts() == old(self).spec_accounts(),
            match r {
                Err(e) => Some(e) == old(self).spec_create_error(
                    caller,
                    voting_period_seconds,
                    now,
                ) && *final(self) == *old(self),
                Ok(p) => {
                    &&& old(self).spec_create_error(caller, voting_period_seconds, now) is None
                    &&& final(self).spec_proposals() == old(self).spec_proposals().push(p)
                    &&& p.id == old(self).spec_proposals().len()
                    &&& p.creator == caller
                    &&& p.title == title
                    &&& p.description == description
                    &&& p.proposal_type == proposal_type
                    &&& p.voting_start == now
                    &&& p.voting_end == now + voting_period_seconds * 1_000_000_000
                    &&& p.status == ProposalStatus::Active
                    &&& p.yes_votes == 0
                    &&& p.no_votes == 0
                    &&& p.abstain_votes == 0
                    &&& p.min_votes_required == old(self).spec_config().quorum
                    &&& p.execution_timestamp is None
                    &&& p.created_at == now
                },
            },
    {
        let balance = self.get_token_balance(caller);
        if balance < self.config.min_creation_power {
            return Err(GovernanceError::Unauthorized);
        }
        let period_ns = match voting_period_seconds.checked_mul(1_000_000_000) {
            Some(x) => x,
            None => {
                return Err(GovernanceError::Overflow);
            },
        };
        let voting_end = match now.checked_add(period_ns) {
            Some(x) => x,
            None => {
                return Err(GovernanceError::Overflow);
            },
        };
        let id = self.proposals.len() as u64;
        let proposal = Proposal {
            id,
            creator: caller,
            title,
            description,
            proposal_type,
            voting_start: now,
            voting_end,
            status: ProposalStatus::Active,
            yes_votes: 0,
            no_votes: 0,
            abstain_votes: 0,
            min_votes_required: self.config.quorum,
            execution_timestamp: None,
            created_at: now,
        };
        let result = proposal.clone();
        self.proposals.push(proposal);
        proof {
            let votes = self.spec_votes();
            assert forall|i: int| 0 <= i < self.spec_proposals().len() implies wf_proposal(
                #[trigger] self.spec_proposals()[i],
                i,
                votes,
            ) by {
                if i == old(self).spec_proposals().len() {
                    assert(forall|k: int| 0 <= k < votes.len()
                        ==> (#[trigger] votes[k]).proposal_id != id);
                    lemma_sums_zero_when_absent(votes, id, VoteType::Yes);
                    lemma_sums_zero_when_absent(votes, id, VoteType::No);
                    lemma_sums_zero_when_absent(votes, id, VoteType::Abstain);
                }
            }
        }
        Ok(result)
    }

    /// Why `vote` would reject this call, or `None` if it is owed success.
    /// The checks apply in this order: the proposal must exist (`NotFound`),
    /// be `Active` (`ProposalNotActive`), with `now` inside its voting
    /// window (`VotingClosed`); the caller must have nonzero voting power
    /// (`NoVotingPower`) and no earlier vote on this proposal
    /// (`AlreadyVoted`); and the grown tally bucket must fit in `u64`
    /// (`Overflow`).
    pub open spec fn spec_vote_error(self, caller: u64, pid: u64, choice: VoteType, now: u64)
        -> Option<GovernanceError> {
        if !self.proposal_exists(pid) {
            Some(GovernanceError::NotFound)
        } else if self.proposal_at(pid).status != ProposalStatus::Active {
            Some(GovernanceError::ProposalNotActive)
        } else if now > self.proposal_at(pid).voting_end {
            Some(GovernanceError::VotingClosed)
        } else if self.spec_balance_of(caller) == 0 {
            Some(GovernanceError::NoVotingPower)
        } else if self.spec_has_voted_on(pid, caller) {
            Some(GovernanceError::AlreadyVoted)
        } else if spec_bucket(self.proposal_at(pid), choice) + self.spec_balance_of(caller)
            > u64::MAX {
            Some(GovernanceError::Overflow)
        } else {
            None
        }
    }

    /// Casts a weighted vote by `caller` on proposal `proposal_id`.
    ///
    /// On success the vote is recorded exactly once with the caller's
    /// current voting power snapshotted, the matching tally bucket grows by
    /// that power, and the proposal auto-concludes to `Passed` or `Rejected`
    /// if the new totals reach quorum. On any error nothing changes. The
    /// whole check-and-commit runs atomically: the engine is handed the
    /// caller's power as part of its own state, so no stale pre-suspension
    /// read can be committed.
    pub fn vote(&mut self, caller: u64, proposal_id: u64, choice: VoteType, now: u64) -> (r:
        Result<UserVote, GovernanceError>)
        requires
            old(self).wf(),
        ensures
            final(self).wf(),
            final(self).spec_config() == old(self).spec_config(),
            final(self).spec_accounts() == old(self).spec_accounts(),
            final(self).spec_proposals().len() == old(self).spec_proposals().len(),
            forall|i: int| 0 <= i < old(self).spec_proposals().len() ==> status_step(
                (#[trigger] old(self).spec_proposals()[i]).status,
                final(self).spec_proposals()[i].status,
            ),
            match r {
                Err(e) => Some(e) == old(self).spec_vote_error(caller, proposal_id, choice, now)
                    && *final(self) == *old(self),
                Ok(v) => {
                    &&& old(self).spec_vote_error(caller, proposal_id, choice, now) is None
                    &&& v == (UserVote {
                        proposal_id,
                        user: caller,
                        vote_type: choice,
                        voting_power: old(self).spec_balance_of(caller),
                        timestamp: now,
                    })
                    &&& final(self).spec_votes() == old(self).spec_votes().push(v)
                    &&& final(self).spec_proposals() == old(self).spec_proposals().update(
                        proposal_id as int,
                        spec_proposal_after_vote(
                            old(self).proposal_at(proposal_id),
                            choice,
                            old(self).spec_balance_of(caller),
                        ),
                    )
                },
            },
    {
        if proposal_id >= self.proposals.len() as u64 {
            return Err(GovernanceError::NotFound);
        }
        let idx = proposal_id as usize;
        if self.proposals[idx].status != ProposalStatus::Active {
            return Err(GovernanceError::ProposalNotActive);
        }
        if now > self.proposals[idx].voting_end {
            return Err(GovernanceError::VotingClosed);
        }
        let power = self.get_token_balance(caller);
        if power == 0 {
            return Err(GovernanceError::NoVotingPower);
        }
        if self.has_voted(proposal_id, caller) {
            return Err(GovernanceError::AlreadyVoted);
        }
        let tallies = match apply_vote(&self.proposals[idx], choice, power) {
            Ok(t) => t,
            Err(e) => {
                return Err(e);
            },
        };
        let mut updated = self.proposals[idx].clone();
        updated.yes_votes = tallies.0;
        updated.no_votes = tallies.1;
        updated.abstain_votes = tallies.2;
        let outcome = evaluate(&updated);
        if outcome == Outcome::Passed {
            updated.status = ProposalStatus::Passed;
        } else if outcome == Outcome::Rejected {
            updated.status = ProposalStatus::Rejected;
        }
        let user_vote = UserVote {
            proposal_id,
            user: caller,
            vote_type: choice,
            voting_power: power,
            timestamp: now,
        };
        self.votes.push(user_vote);
        self.proposals.set(idx, updated);
        proof {
            let old_votes = old(self).spec_votes();
            let new_votes = self.spec_votes();
            let p_old = old(self).proposal_at(proposal_id);
            let p_new = spec_proposal_after_vote(p_old, choice, power);
            assert(new_votes == old_votes.push(user_vote));
            assert(updated == p_new);
            lemma_unique_push(old_votes, user_vote);
            assert forall|i: int| 0 <= i < self.spec_proposals().len() implies wf_proposal(
                #[trigger] self.spec_proposals()[i],
                i,
                new_votes,
            ) by {
                let q = old(self).spec_proposals()[i];
                assert(wf_proposal(q, i, old_votes));
                lemma_sums_push(old_votes, user_vote, q.id, VoteType::Yes);
                lemma_sums_push(old_votes, user_vote, q.id, VoteType::No);
                lemma_sums_push(old_votes, user_vote, q.id, VoteType::Abstain);
                if i == proposal_id as int {
                    assert(self.spec_proposals()[i] == p_new);
                } else {
                    assert(q.id != proposal_id);
                    assert(self.spec_proposals()[i] == q);
                }
            }
        }
        Ok(user_vote)
    }

    /// Why `cancel_proposal` would reject this call, or `None` if it is
    /// owed success: the proposal must exist (`NotFound`), the caller must
    /// be its creator (`Forbidden`), and it must still be `Active`
    /// (`ProposalNotActive`).
    pub open spec fn spec_cancel_error(self, caller: u64, pid: u64) -> Option<GovernanceError> {
        if !self.proposal_exists(pid) {
            Some(GovernanceError::NotFound)
        } else if self.proposal_at(pid).creator != caller {
            Some(GovernanceError::Forbidden)
        } else if self.proposal_at(pid).status != ProposalStatus::Active {
            Some(GovernanceError::ProposalNotActive)
        } else {
            None
        }
    }

    /// Cancels an `Active` proposal. Only the proposal's creator may cancel;
    /// the proposal moves to the terminal `Canceled` state and everything
    /// else, tallies included, stays as it was. On any error nothing
    /// changes.
    pub fn cancel_proposal(&mut self, caller: u64, proposal_id: u64) -> (r: Result<
        Proposal,
        GovernanceError,
    >)
        requires
            old(self).wf(),
        ensures
            final(self).wf(),
            final(self).spec_config() == old(self).spec_config(),
            final(self).spec_votes() == old(self).spec_votes(),
            final(self).spec_accounts() == old(self).spec_accounts(),
            final(self).spec_proposals().len() == old(self).spec_proposals().len(),
            forall|i: int| 0 <= i < old(self).spec_proposals().len() ==> status_step(
                (#[trigger] old(self).spec_proposals()[i]).status,
                final(self).spec_proposals()[i].status,
            ),
            match r {
                Err(e) => Some(e) == old(self).spec_cancel_error(caller, proposal_id)
                    && *final(self) == *old(self),
                Ok(p) => {
                    &&& old(self).spec_cancel_error(caller, proposal_id) is None
                    &&& p == spec_with_status(
                        old(self).proposal_at(proposal_id),
                        ProposalStatus::Canceled,
                    )
                    &&& final(self).spec_proposals() == old(self).spec_proposals().update(
                        proposal_id as int,
                        p,
                    )
                },
            },
    {
        if proposal_id >= self.proposals.len() as u64 {
            return Err(GovernanceError::NotFound);
        }
        let idx = proposal_id as usize;
        if self.proposals[idx].creator != caller {
            return Err(GovernanceError::Forbidden);
        }
        if self.proposals[idx].status != ProposalStatus::Active {
            return Err(GovernanceError::ProposalNotActive);
        }
        let mut updated = self.proposals[idx].clone();
        updated.status = ProposalStatus::Canceled;
        let result = updated.clone();
        self.proposals.set(idx, updated);
        proof {
            assert forall|i: int| 0 <= i < self.spec_proposals().len() implies wf_proposal(
                #[trigger] self.spec_proposals()[i],
                i,
                self.spec_votes(),
            ) by {
                assert(wf_proposal(old(self).spec_proposals()[i], i, old(self).spec_votes()));
            }
        }
        Ok(result)
    }

    /// Why `execute_proposal` would reject this call, or `None` if it is
    /// owed success: the proposal must exist (`NotFound`), the caller must
    /// be its creator (`Forbidden`), and it must have concluded as `Passed`
    /// (`NotPassed`).
    pub open spec fn spec_execute_error(self, caller: u64, pid: u64) -> Option<GovernanceError> {
        if !self.proposal_exists(pid) {
            Some(GovernanceError::NotFound)
        } else if self.proposal_at(pid).creator != caller {
            Some(GovernanceError::Forbidden)
        } else if self.proposal_at(pid).status != ProposalStatus::Passed {
            Some(GovernanceError::NotPassed)
        } else {
            None
        }
    }

    /// Executes a `Passed` proposal. Only the proposal's creator may
    /// execute, giving a human checkpoint between the tallied outcome and
    /// any side-effecting action taken on the proposal's behalf. The
    /// proposal moves to the terminal `Executed` state and its execution
    /// timestamp is stamped with `now`, exactly once. On any error nothing
    /// changes; in particular a second execution attempt fails `NotPassed`.
    pub fn execute_proposal(&mut self, caller: u64, proposal_id: u64, now: u64) -> (r: Result<
        Proposal,
        GovernanceError,
    >)
        requires
            old(self).wf(),
        ensures
            final(self).wf(),
            final(self).spec_config() == old(self).spec_config(),
            final(self).spec_votes() == old(self).spec_votes(),
            final(self).spec_accounts() == old(self).spec_accounts(),
            final(self).spec_proposals().len() == old(self).spec_proposals().len(),
            forall|i: int| 0 <= i < old(self).spec_proposals().len() ==> status_step(
                (#[trigger] old(self).spec_proposals()[i]).status,
                final(self).spec_proposals()[i].status,
            ),
            match r {
                Err(e) => Some(e) == old(self).spec_execute_error(caller, proposal_id)
                    && *final(self) == *old(self),
                Ok(p) => {
                    &&& old(self).spec_execute_error(caller, proposal_id) is None
                    &&& p == spec_executed(old(self).proposal_at(proposal_id), now)
                    &&& final(self).spec_proposals() == old(self).spec_proposals().update(
                        proposal_id as int,
                        p,
                    )
                },
            },
    {
        if proposal_id >= self.proposals.len() as u64 {
            return Err(GovernanceError::NotFound);
        }
        let idx = proposal_id as usize;
        if self.proposals[idx].creator != caller {
            return Err(GovernanceError::Forbidden);
        }
        if self.proposals[idx].status != ProposalStatus::Passed {
            return Err(GovernanceError::NotPassed);
        }
        let mut updated = self.proposals[idx].clone();
        updated.status = ProposalStatus::Executed;
        updated.execution_timestamp = Some(now);
        let result = updated.clone();
        self.proposals.set(idx, updated);
        proof {
            assert forall|i: int| 0 <= i < self.spec_proposals().len() implies wf_proposal(
                #[trigger] self.spec_proposals()[i],
                i,
                self.spec_votes(),
            ) by {
                assert(wf_proposal(old(self).spec_proposals()[i], i, old(self).spec_votes()));
            }
        }
        Ok(result)
    }

    /// Adds `amount` voting tokens to the caller's balance, creating the
    /// account if needed; a convenience for seeding voting power. Fails with
    /// `Overflow`, changing nothing, exactly when the grown balance would
    /// not fit in `u64`.
    pub fn mint_test_tokens(&mut self, caller: u64, amount: u64) -> (r: Result<
        (),
        GovernanceError,
    >)
        requires
            old(self).wf(),
        ensures
            final(self).wf(),
            final(self).spec_config() == old(self).spec_config(),
            final(self).spec_proposals() == old(self).spec_proposals(),
            final(self).spec_votes() == old(self).spec_votes(),
            forall|o: u64| o != caller ==> final(self).spec_balance_of(o)
                == old(self).spec_balance_of(o),
            match r {
                Err(e) => {
                    &&& e == GovernanceError::Overflow
                    &&& old(self).spec_balance_of(caller) + amount > u64::MAX
                    &&& *final(self) == *old(self)
                },
                Ok(u) => {
                    &&& old(self).spec_balance_of(caller) + amount <= u64::MAX
                    &&& final(self).spec_balance_of(caller) == old(self).spec_balance_of(caller)
                        + amount
                },
            },
    {
        match self.account_index(caller) {
            Some(j) => {
                let current = self.accounts[j].amount;
                proof {
                    lemma_balance_first_match(self.spec_accounts(), j as int, 0);
                }
                match current.checked_add(amount) {
                    Some(total) => {
                        proof {
                            lemma_balance_first_match(self.spec_accounts(), j as int, total);
                        }
                        self.accounts.set(j, TokenAccount { owner: caller, amount: total });
                        proof {
                            assert forall|a: int, b: int|
                                0 <= a < self.spec_accounts().len() && 0 <= b
                                    < self.spec_accounts().len() && a != b implies (
                            #[trigger] self.spec_accounts()[a]).owner != (
                            #[trigger] self.spec_accounts()[b]).owner by {
                                assert(self.spec_accounts()[a].owner
                                    == old(self).spec_accounts()[a].owner);
                                assert(self.spec_accounts()[b].owner
                                    == old(self).spec_accounts()[b].owner);
                            }
                        }
                        proof {
                            assert forall|i: int| 0 <= i < self.spec_proposals().len()
                                implies wf_proposal(
                                #[trigger] self.spec_proposals()[i],
                                i,
                                self.spec_votes(),
                            ) by {
                                assert(wf_proposal(
                                    old(self).spec_proposals()[i],
                                    i,
                                    old(self).spec_votes(),
                                ));
                                assert(self.spec_proposals()[i]
                                    == old(self).spec_proposals()[i]);
                            }
                        }
                        Ok(())
                    },
                    None => Err(GovernanceError::Overflow),
                }
            },
            None => {
                proof {
                    lemma_balance_absent(self.spec_accounts(), caller);
                    lemma_balance_push(
                        self.spec_accounts(),
                        TokenAccount { owner: caller, amount },
                    );
                }
                self.accounts.push(TokenAccount { owner: caller, amount });
                proof {
                    assert forall|a: int, b: int|
                        0 <= a < self.spec_accounts().len() && 0 <= b
                            < self.spec_accounts().len() && a != b implies (
                    #[trigger] self.spec_accounts()[a]).owner != (
                    #[trigger] self.spec_accounts()[b]).owner by {
                        let prev = old(self).spec_accounts();
                        if a < prev.len() && b < prev.len() {
                            assert(self.spec_accounts()[a] == prev[a]);
                            assert(self.spec_accounts()[b] == prev[b]);
                        } else if a < prev.len() {
                            assert(self.spec_accounts()[a] == prev[a]);
                            assert(self.spec_accounts()[b].owner == caller);
                        } else {
                            assert(self.spec_accounts()[a].owner == caller);
                            assert(self.spec_accounts()[b] == prev[b]);
                        }
                    }
                }
                proof {
                    assert forall|i: int| 0 <= i < self.spec_proposals().len()
                        implies wf_proposal(
                        #[trigger] self.spec_proposals()[i],
                        i,
                        self.spec_votes(),
                    ) by {
                        assert(wf_proposal(
                            old(self).spec_proposals()[i],
                            i,
                            old(self).spec_votes(),
                        ));
                        assert(self.spec_proposals()[i] == old(self).spec_proposals()[i]);
                    }
                }
                Ok(())
            },
        }
    }

    /// The position of `owner`'s token account, or `None` without one.
    fn account_index(&self, owner: u64) -> (r: Option<usize>)
        ensures
            match r {
                Some(j) => {
                    &&& j < self.spec_accounts().len()
                    &&& self.spec_accounts()[j as int].owner == owner
                    &&& forall|i: int| 0 <= i < j
                        ==> (#[trigger] self.spec_accounts()[i]).owner != owner
                },
                None => forall|i: int| 0 <= i < self.spec_accounts().len()
                    ==> (#[trigger] self.spec_accounts()[i]).owner != owner,
            },
    {
        let n = self.accounts.len();
        let mut k: usize = 0;
        while k < n
            invariant
                n == self.spec_accounts().len(),
                0 <= k <= n,
                forall|i: int| 0 <= i < k ==> (#[trigger] self.spec_accounts()[i]).owner
                    != owner,
            decreases n - k,
        {
            if self.accounts[k].owner == owner {
                return Some(k);
            }
            k = k + 1;
        }
        None
    }

    /// The proposal with identifier `proposal_id`, or `None` if no such
    /// proposal exists.
    pub fn get_proposal(&self, proposal_id: u64) -> (r: Option<Proposal>)
        ensures
            match r {
                Some(p) => self.proposal_exists(proposal_id) && p == self.proposal_at(
                    proposal_id,
                ),
                None => !self.proposal_exists(proposal_id),
            },
    {
        if proposal_id >= self.proposals.len() as u64 {
            return None;
        }
        Some(self.proposals[proposal_id as usize].clone())
    }

    /// All proposals, in order of creation.
    pub fn get_proposals(&self) -> (r: Vec<Proposal>)
        ensures
            r@ == self.spec_proposals(),
    {
        let r = self.proposals.clone();
        proof {
            assert forall|i: int| 0 <= i < r@.len() implies r@[i] == self.spec_proposals()[i] by {
                assert(cloned::<Proposal>(self.spec_proposals()[i], r@[i]));
            }
            assert(r@ =~= self.spec_proposals());
        }
        r
    }

    /// All votes recorded on proposal `proposal_id`, in casting order.
    pub fn get_proposal_votes(&self, proposal_id: u64) -> (r: Vec<UserVote>)
        ensures
            r@ == votes_of_proposal(self.spec_votes(), proposal_id),
    {
        let n = self.votes.len();
        let mut r: Vec<UserVote> = Vec::new();
        let mut k: usize = 0;
        proof {
            assert(self.spec_votes().take(0) =~= Seq::<UserVote>::empty());
            assert(r@ =~= votes_of_proposal(self.spec_votes().take(0), proposal_id));
        }
        while k < n
            invariant
                n == self.spec_votes().len(),
                0 <= k <= n,
                r@ == votes_of_proposal(self.spec_votes().take(k as int), proposal_id),
            decreases n - k,
        {
            let v = self.votes[k];
            proof {
                assert(self.spec_votes().take(k as int + 1) =~= self.spec_votes().take(
                    k as int,
                ).push(self.spec_votes()[k as int]));
                lemma_projections_push(
                    self.spec_votes().take(k as int),
                    self.spec_votes()[k as int],
                    proposal_id,
                    0,
                );
            }
            if v.proposal_id == proposal_id {
                r.push(v);
            }
            k = k + 1;
        }
        proof {
            assert(self.spec_votes().take(n as int) =~= self.spec_votes());
        }
        r
    }

    /// All votes cast by `caller`, in casting order.
    pub fn get_user_votes(&self, caller: u64) -> (r: Vec<UserVote>)
        ensures
            r@ == votes_of_user(self.spec_votes(), caller),
    {
        let n = self.votes.len();
        let mut r: Vec<UserVote> = Vec::new();
        let mut k: usize = 0;
        proof {
            assert(self.spec_votes().take(0) =~= Seq::<UserVote>::empty());
            assert(r@ =~= votes_of_user(self.spec_votes().take(0), caller));
        }
        while k < n
            invariant
                n == self.spec_votes().len(),
                0 <= k <= n,
                r@ == votes_of_user(self.spec_votes().take(k as int), caller),
            decreases n - k,
        {
            let v = self.votes[k];
            proof {
                assert(self.spec_votes().take(k as int + 1) =~= self.spec_votes().take(
                    k as int,
                ).push(self.spec_votes()[k as int]));
                lemma_projections_push(
                    self.spec_votes().take(k as int),
                    self.spec_votes()[k as int],
                    0,
                    caller,
                );
            }
            if v.user == caller {
                r.push(v);
            }
            k = k + 1;
        }
        proof {
            assert(self.spec_votes().take(n as int) =~= self.spec_votes());
        }
        r
    }
}

/// No account for `owner` means a balance of zero.
pub proof fn lemma_balance_absent(accounts: Seq<TokenAccount>, owner: u64)
    requires
        forall|i: int| 0 <= i < accounts.len() ==> (#[trigger] accounts[i]).owner != owner,
    ensures
        balance_in(accounts, owner) == 0,
    decreases accounts.len(),
{
    if accounts.len() > 0 {
        assert(forall|i: int| 0 <= i < accounts.skip(1).len()
            ==> (#[trigger] accounts.skip(1)[i]).owner != owner);
        lemma_balance_absent(accounts.skip(1), owner);
    }
}

/// Every proposal's tallies account exactly for the ledger: the sum of the
/// three tally buckets equals the total voting power of all votes recorded
/// for that proposal. No vote is ever partially applied.
pub proof fn lemma_tallies_match_ledger(s: GovernanceState, pid: u64)
    requires
        s.wf(),
        s.proposal_exists(pid),
    ensures
        s.proposal_at(pid).yes_votes + s.proposal_at(pid).no_votes
            + s.proposal_at(pid).abstain_votes == power_sum(s.spec_votes(), pid),
{
    lemma_power_sum_splits(s.spec_votes(), pid);
}

/// No two recorded votes share the same `(proposal_id, voter)` pair: every
/// voter votes at most once on each proposal.
pub proof fn lemma_one_vote_per_pair(s: GovernanceState, i: int, j: int)
    requires
        s.wf(),
        0 <= i < s.spec_votes().len(),
        0 <= j < s.spec_votes().len(),
        i != j,
    ensures
        !(s.spec_votes()[i].proposal_id == s.spec_votes()[j].proposal_id
            && s.spec_votes()[i].user == s.spec_votes()[j].user),
{
}

} // verus!
