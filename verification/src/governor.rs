//! The governance engine: proposal lifecycle, vote admission, and
//! single-shot execution.
//!
//! The engine owns the proposal store (one record per proposal, ids assigned
//! sequentially from 1), the vote ledger (per-proposal weighted tallies and
//! per-(proposal, account) vote receipts), and the two configuration
//! scalars fixed at construction. It is a strictly serialized state
//! machine: each operation takes the environment's readings — the clock,
//! the caller, the token oracle's answers — as plain arguments, and a
//! successful `execute` returns the one transfer the host must issue.

use vstd::prelude::*;
use crate::tally::ProposalVote;
use crate::tally::VoteType;
use crate::tally::cast_vote;
use crate::tally::tally_after;
use crate::tally::vote_weight;

verus! {

/// An account of the hosting ledger, reduced to its numeric identity; the
/// engine only ever stores and compares accounts.
pub type AccountId = u128;

/// A quantity of governance tokens.
pub type Balance = u128;

/// A clock reading in seconds.
pub type Timestamp = u64;

/// Proposal identifier, assigned sequentially starting at 1, never reused.
pub type ProposalId = u64;

/// Seconds per minute: proposal durations arrive in minutes.
pub const ONE_MINUTE: u64 = 60;

/// The closed set of ways an operation can fail. Every failure is returned
/// as a value; the engine itself never aborts.
#[derive(Clone, Copy, Debug, PartialEq, Eq, Structural)]
pub enum GovernorError {
    ProposalNotFound,
    ProposalAlreadyExecuted,
    QuorumNotReached,
    ProposalNotAccepted,
    AmountShouldNotBeZero,
    DurationError,
    VotePeriodEnded,
    AlreadyVoted,
    TxFailed,
}

/// A pending request to transfer `amount` tokens to `to`, voted on within
/// the window from `vote_start` to `vote_end` (inclusive).
#[derive(Clone, Copy, Debug, PartialEq, Eq, Structural)]
pub struct Proposal {
    pub to: AccountId,
    pub vote_start: Timestamp,
    pub vote_end: Timestamp,
    pub executed: bool,
    pub amount: Balance,
}

/// The transfer a successful `execute` instructs the token oracle to
/// perform: `amount` tokens to the proposal's beneficiary.
#[derive(Clone, Copy, Debug, PartialEq, Eq, Structural)]
pub struct TokenTransfer {
    pub to: AccountId,
    pub amount: Balance,
}

/// The mathematical state of the engine: the proposal store, the vote
/// ledger (tallies and receipts), the id counter, and the two
/// configuration scalars.
#[verifier::ext_equal]
pub ghost struct GovView {
    pub proposals: Seq<Proposal>,
    pub proposal_votes: Seq<ProposalVote>,
    pub votes: Seq<(ProposalId, AccountId)>,
    pub next_proposal_id: ProposalId,
    pub quorum: u8,
    pub governance_token: AccountId,
}

impl GovView {
    /// A proposal with this id exists: ids 1 through the count of
    /// proposals created are exactly the live ids.
    pub open spec fn has_proposal(self, id: ProposalId) -> bool {
        1 <= id <= self.proposals.len()
    }

    /// The proposal record stored under `id`.
    pub open spec fn proposal_of(self, id: ProposalId) -> Proposal
        recommends
            self.has_proposal(id),
    {
        self.proposals[id - 1]
    }

    /// The weighted tally stored for proposal `id`.
    pub open spec fn tally_of(self, id: ProposalId) -> ProposalVote
        recommends
            self.has_proposal(id),
            self.wf(),
    {
        self.proposal_votes[id - 1]
    }

    /// `account` holds a vote receipt for proposal `id`.
    pub open spec fn has_voted(self, id: ProposalId, account: AccountId) -> bool {
        self.votes.contains((id, account))
    }

    /// Well-formedness, established by `Governor::new` and preserved by
    /// every operation: every proposal has exactly one tally, created
    /// together; the id counter equals the count of proposals created; at
    /// most one receipt per (proposal, account) pair ever exists; and each
    /// tally is bounded by one hundred weight points per receipt, so tally
    /// arithmetic never overflows.
    pub open spec fn wf(self) -> bool {
        &&& self.proposal_votes.len() == self.proposals.len()
        &&& self.next_proposal_id == self.proposals.len()
        &&& (forall|i: int, j: int|
            0 <= i < j < self.votes.len() ==> self.votes[i] != self.votes[j])
        &&& (forall|i: int|
            0 <= i < self.proposal_votes.len() ==> (#[trigger] self.proposal_votes[i]).for_votes
                + self.proposal_votes[i].against_votes <= 100 * self.votes.len())
    }
}

/// Folds the token oracle's verdict on the transfer that `execute` issued
/// into the operation's final result: an accepted transfer completes the
/// execution, a rejected one surfaces as `TxFailed`. The proposal stays
/// executed either way, so operators can detect an executed-but-unpaid
/// proposal through `get_proposal` and remediate it outside the engine.
pub fn settle_execution(transfer_accepted: bool) -> (r: Result<(), GovernorError>)
    ensures
        transfer_accepted ==> r == Ok::<(), GovernorError>(()),
        !transfer_accepted ==> r == Err::<(), GovernorError>(GovernorError::TxFailed),
{
    if transfer_accepted {
        Ok(())
    } else {
        Err(GovernorError::TxFailed)
    }
}

/// The governance engine: sole owner and mutator of the proposal store and
/// the vote ledger.
pub struct Governor {
    proposals: Vec<Proposal>,
    proposal_votes: Vec<ProposalVote>,
    votes: Vec<(ProposalId, AccountId)>,
    next_proposal_id: ProposalId,
    quorum: u8,
    governance_token: AccountId,
}

impl View for Governor {
    type V = GovView;

    closed spec fn view(&self) -> GovView {
        GovView {
            proposals: self.proposals@,
            proposal_votes: self.proposal_votes@,
            votes: self.votes@,
            next_proposal_id: self.next_proposal_id,
            quorum: self.quorum,
            governance_token: self.governance_token,
        }
    }
}

impl Governor {
    /// A fresh engine bound to its token oracle and quorum threshold, with
    /// no proposals, no tallies, and no receipts. Both configuration
    /// scalars are fixed for the engine's lifetime.
    pub fn new(governance_token: AccountId, quorum: u8) -> (r: Governor)
        ensures
            r@.wf(),
            r@.proposals == Seq::<Proposal>::empty(),
            r@.proposal_votes == Seq::<ProposalVote>::empty(),
            r@.votes == Seq::<(ProposalId, AccountId)>::empty(),
            r@.next_proposal_id == 0,
            r@.quorum == quorum,
            r@.governance_token == governance_token,
    {
        Governor {
            proposals: Vec::new(),
            proposal_votes: Vec::new(),
            votes: Vec::new(),
            next_proposal_id: 0,
            quorum,
            governance_token,
        }
    }

    /// The id most recently assigned, which is also the count of proposals
    /// created so far; the next proposal receives this plus one.
    pub fn next_proposal_id(&self) -> (r: ProposalId)
        ensures
            r == self@.next_proposal_id,
    {
        self.next_proposal_id
    }

    /// The proposal stored under `proposal_id`, or `None` when no proposal
    /// with that id was ever created.
    pub fn get_proposal(&self, proposal_id: ProposalId) -> (r: Option<Proposal>)
        ensures
            self@.has_proposal(proposal_id) ==> r == Some(self@.proposal_of(proposal_id)),
            !self@.has_proposal(proposal_id) ==> r == None::<Proposal>,
    {
        if proposal_id == 0 || proposal_id > self.proposals.len() as u64 {
            None
        } else {
            Some(self.proposals[(proposal_id - 1) as usize])
        }
    }

    /// The weighted tally of proposal `proposal_id`, or `None` when no
    /// such proposal exists.
    pub fn get_proposal_votes(&self, proposal_id: ProposalId) -> (r: Option<ProposalVote>)
        requires
            self@.wf(),
        ensures
            self@.has_proposal(proposal_id) ==> r == Some(self@.tally_of(proposal_id)),
            !self@.has_proposal(proposal_id) ==> r == None::<ProposalVote>,
    {
        if proposal_id == 0 || proposal_id > self.proposal_votes.len() as u64 {
            None
        } else {
            Some(self.proposal_votes[(proposal_id - 1) as usize])
        }
    }

    /// Creates a proposal to transfer `amount` tokens to `to`, open for
    /// voting from `now` until `now` plus `duration` minutes.
    ///
    /// A zero amount fails with `AmountShouldNotBeZero` and a zero
    /// duration with `DurationError`, both before any state is written.
    /// Otherwise the next id is assigned and exactly one proposal and one
    /// zeroed tally are appended; receipts and configuration are
    /// untouched. The voting window must fit the clock's range, and the id
    /// counter must have room, as the caller can check beforehand.
    pub fn propose(
        &mut self,
        now: Timestamp,
        to: AccountId,
        amount: Balance,
        duration: u64,
    ) -> (r: Result<(), GovernorError>)
        requires
            old(self)@.wf(),
            now + duration * ONE_MINUTE <= u64::MAX,
            old(self)@.next_proposal_id < u64::MAX,
        ensures
            final(self)@.wf(),
            amount == 0 ==> r == Err::<(), GovernorError>(GovernorError::AmountShouldNotBeZero)
                && final(self)@ == old(self)@,
            amount != 0 && duration == 0 ==> r == Err::<(), GovernorError>(
                GovernorError::DurationError,
            ) && final(self)@ == old(self)@,
            amount != 0 && duration != 0 ==> ({
                &&& r == Ok::<(), GovernorError>(())
                &&& final(self)@.proposals == old(self)@.proposals.push(
                    (Proposal {
                        to,
                        vote_start: now,
                        vote_end: (now + duration * ONE_MINUTE) as u64,
                        executed: false,
                        amount,
                    }),
                )
                &&& final(self)@.proposal_votes == old(self)@.proposal_votes.push(
                    (ProposalVote { for_votes: 0, against_votes: 0 }),
                )
                &&& final(self)@.votes == old(self)@.votes
                &&& final(self)@.next_proposal_id == old(self)@.next_proposal_id + 1
                &&& final(self)@.quorum == old(self)@.quorum
                &&& final(self)@.governance_token == old(self)@.governance_token
            }),
    {
        if amount == 0 {
            return Err(GovernorError::AmountShouldNotBeZero);
        }
        if duration == 0 {
            return Err(GovernorError::DurationError);
        }
        let proposal = Proposal {
            to,
            vote_start: now,
            vote_end: now + duration * ONE_MINUTE,
            executed: false,
            amount,
        };
        self.next_proposal_id = self.next_proposal_id + 1;
        self.proposals.push(proposal);
        self.proposal_votes.push(ProposalVote { for_votes: 0, against_votes: 0 });
        proof {
            assert forall|i: int, j: int|
                0 <= i < j < self@.votes.len() implies self@.votes[i] != self@.votes[j] by {
                assert(old(self)@.votes[i] != old(self)@.votes[j]);
            }
            assert forall|i: int|
                0 <= i < self@.proposal_votes.len() implies (
            #[trigger] self@.proposal_votes[i]).for_votes
                + self@.proposal_votes[i].against_votes <= 100 * self@.votes.len() by {
                if i < old(self)@.proposal_votes.len() {
                    assert(self@.proposal_votes[i] == old(self)@.proposal_votes[i]);
                } else {
                    assert(self@.proposal_votes[i] == (ProposalVote {
                        for_votes: 0,
                        against_votes: 0,
                    }));
                }
            }
        }
        Ok(())
    }

    /// Casts the caller's vote on proposal `proposal_id`, weighted by the
    /// caller's share of the token supply at vote time.
    ///
    /// The checks run in order: a missing proposal fails with
    /// `ProposalNotFound`, an already-executed one with
    /// `ProposalAlreadyExecuted`, a clock past the voting window with
    /// `VotePeriodEnded`, and an existing receipt for this caller with
    /// `AlreadyVoted`; each failure leaves all state unchanged. Otherwise
    /// exactly one receipt is recorded and the caller's weight — balance
    /// times one hundred, divided by supply, rounded down — is added to
    /// the chosen side of the proposal's tally.
    ///
    /// The host supplies the token oracle's live readings. A zero total
    /// supply is a fatal token-configuration fault the host must rule out
    /// before calling; a sane token also never reports a balance above
    /// its supply, nor a supply so large that scaling it to percentage
    /// points overflows the balance type.
    pub fn vote(
        &mut self,
        now: Timestamp,
        caller: AccountId,
        caller_balance: Balance,
        total_supply: Balance,
        proposal_id: ProposalId,
        vote: VoteType,
    ) -> (r: Result<(), GovernorError>)
        requires
            old(self)@.wf(),
            total_supply > 0,
            caller_balance <= total_supply,
            total_supply <= u128::MAX / 100,
        ensures
            final(self)@.wf(),
            !old(self)@.has_proposal(proposal_id) ==> ({
                &&& r == Err::<(), GovernorError>(GovernorError::ProposalNotFound)
                &&& final(self)@ == old(self)@
            }),
            old(self)@.has_proposal(proposal_id) && old(self)@.proposal_of(proposal_id).executed
                ==> ({
                &&& r == Err::<(), GovernorError>(GovernorError::ProposalAlreadyExecuted)
                &&& final(self)@ == old(self)@
            }),
            old(self)@.has_proposal(proposal_id) && !old(self)@.proposal_of(proposal_id).executed
                && now > old(self)@.proposal_of(proposal_id).vote_end ==> ({
                &&& r == Err::<(), GovernorError>(GovernorError::VotePeriodEnded)
                &&& final(self)@ == old(self)@
            }),
            old(self)@.has_proposal(proposal_id) && !old(self)@.proposal_of(proposal_id).executed
                && now <= old(self)@.proposal_of(proposal_id).vote_end
                && old(self)@.has_voted(proposal_id, caller) ==> ({
                &&& r == Err::<(), GovernorError>(GovernorError::AlreadyVoted)
                &&& final(self)@ == old(self)@
            }),
            old(self)@.has_proposal(proposal_id) && !old(self)@.proposal_of(proposal_id).executed
                && now <= old(self)@.proposal_of(proposal_id).vote_end
                && !old(self)@.has_voted(proposal_id, caller) ==> ({
                &&& r == Ok::<(), GovernorError>(())
                &&& final(self)@.votes == old(self)@.votes.push((proposal_id, caller))
                &&& final(self)@.proposal_votes == old(self)@.proposal_votes.update(
                    proposal_id - 1,
                    tally_after(
                        old(self)@.tally_of(proposal_id),
                        vote,
                        vote_weight(caller_balance, total_supply),
                    ),
                )
                &&& final(self)@.proposals == old(self)@.proposals
                &&& final(self)@.next_proposal_id == old(self)@.next_proposal_id
                &&& final(self)@.quorum == old(self)@.quorum
                &&& final(self)@.governance_token == old(self)@.governance_token
            }),
    {
        if proposal_id == 0 || proposal_id > self.proposals.len() as u64 {
            return Err(GovernorError::ProposalNotFound);
        }
        let idx: usize = (proposal_id - 1) as usize;
        let p = self.proposals[idx];
        if p.executed {
            return Err(GovernorError::ProposalAlreadyExecuted);
        }
        if p.vote_end < now {
            return Err(GovernorError::VotePeriodEnded);
        }
        if self.has_receipt(proposal_id, caller) {
            return Err(GovernorError::AlreadyVoted);
        }
        let receipts_before: usize = self.votes.len();
        self.votes.push((proposal_id, caller));
        proof {
            assert forall|i: int, j: int|
                0 <= i < j < self@.votes.len() implies self@.votes[i] != self@.votes[j] by {
                if j < receipts_before {
                    assert(old(self)@.votes[i] != old(self)@.votes[j]);
                } else {
                    assert(self@.votes[i] == old(self)@.votes[i]);
                    assert(!old(self)@.votes.contains((proposal_id, caller)));
                }
            }
        }
        let weight: u128 = caller_balance * 100 / total_supply;
        proof {
            assert(caller_balance * 100 <= total_supply * 100);
            vstd::arithmetic::div_mod::lemma_div_is_ordered(
                (caller_balance * 100) as int,
                (total_supply * 100) as int,
                total_supply as int,
            );
            vstd::arithmetic::div_mod::lemma_div_multiples_vanish(100, total_supply as int);
            assert(total_supply * 100 == (total_supply as int) * 100);
            assert(weight <= 100);
        }
        let mut t = self.proposal_votes[idx];
        proof {
            assert(old(self)@.proposal_votes[idx as int].for_votes
                + old(self)@.proposal_votes[idx as int].against_votes <= 100 * receipts_before);
        }
        match vote {
            VoteType::Against => {
                t.against_votes = t.against_votes + weight;
            },
            VoteType::For => {
                t.for_votes = t.for_votes + weight;
            },
        }
        self.proposal_votes[idx] = t;
        proof {
            assert forall|i: int|
                0 <= i < self@.proposal_votes.len() implies (
            #[trigger] self@.proposal_votes[i]).for_votes
                + self@.proposal_votes[i].against_votes <= 100 * self@.votes.len() by {
                assert(old(self)@.proposal_votes[i].for_votes
                    + old(self)@.proposal_votes[i].against_votes <= 100 * receipts_before);
                if i != idx as int {
                    assert(self@.proposal_votes[i] == old(self)@.proposal_votes[i]);
                }
            }
            assert(self@.proposal_votes =~= old(self)@.proposal_votes.update(
                proposal_id - 1,
                tally_after(
                    old(self)@.tally_of(proposal_id),
                    vote,
                    vote_weight(caller_balance, total_supply),
                ),
            ));
        }
        Ok(())
    }

    /// Executes proposal `proposal_id` once its vote has passed, returning
    /// the transfer the token oracle must perform.
    ///
    /// A missing proposal fails with `ProposalNotFound` and an
    /// already-executed one with `ProposalAlreadyExecuted`. A combined
    /// weight below the quorum fails with `QuorumNotReached`, and a tie or
    /// against-majority with `ProposalNotAccepted`; all four leave state
    /// unchanged. Once the gates pass, `executed` is durably set first,
    /// and the one transfer of the proposal's amount to its beneficiary is
    /// returned for the host to issue second; `settle_execution` folds the
    /// oracle's verdict on it into the operation's result. Because the
    /// flip precedes the payout, a rejected payout permanently blocks
    /// re-execution rather than risking a double spend.
    pub fn execute(&mut self, proposal_id: ProposalId) -> (r: Result<
        TokenTransfer,
        GovernorError,
    >)
        requires
            old(self)@.wf(),
        ensures
            final(self)@.wf(),
            !old(self)@.has_proposal(proposal_id) ==> ({
                &&& r == Err::<TokenTransfer, GovernorError>(GovernorError::ProposalNotFound)
                &&& final(self)@ == old(self)@
            }),
            old(self)@.has_proposal(proposal_id) && old(self)@.proposal_of(proposal_id).executed
                ==> ({
                &&& r == Err::<TokenTransfer, GovernorError>(GovernorError::ProposalAlreadyExecuted)
                &&& final(self)@ == old(self)@
            }),
            old(self)@.has_proposal(proposal_id) && !old(self)@.proposal_of(proposal_id).executed
                && old(self)@.tally_of(proposal_id).for_votes + old(self)@.tally_of(
                proposal_id,
            ).against_votes < old(self)@.quorum ==> ({
                &&& r == Err::<TokenTransfer, GovernorError>(GovernorError::QuorumNotReached)
                &&& final(self)@ == old(self)@
            }),
            old(self)@.has_proposal(proposal_id) && !old(self)@.proposal_of(proposal_id).executed
                && old(self)@.tally_of(proposal_id).for_votes + old(self)@.tally_of(
                proposal_id,
            ).against_votes >= old(self)@.quorum && old(self)@.tally_of(proposal_id).for_votes
                <= old(self)@.tally_of(proposal_id).against_votes ==> ({
                &&& r == Err::<TokenTransfer, GovernorError>(GovernorError::ProposalNotAccepted)
                &&& final(self)@ == old(self)@
            }),
            old(self)@.has_proposal(proposal_id) && !old(self)@.proposal_of(proposal_id).executed
                && old(self)@.tally_of(proposal_id).for_votes + old(self)@.tally_of(
                proposal_id,
            ).against_votes >= old(self)@.quorum && old(self)@.tally_of(proposal_id).for_votes
                > old(self)@.tally_of(proposal_id).against_votes ==> ({
                &&& final(self)@.proposals == old(self)@.proposals.update(
                    proposal_id - 1,
                    (Proposal { executed: true, ..old(self)@.proposal_of(proposal_id) }),
                )
                &&& final(self)@.proposal_votes == old(self)@.proposal_votes
                &&& final(self)@.votes == old(self)@.votes
                &&& final(self)@.next_proposal_id == old(self)@.next_proposal_id
                &&& final(self)@.quorum == old(self)@.quorum
                &&& final(self)@.governance_token == old(self)@.governance_token
                &&& r == Ok::<TokenTransfer, GovernorError>(
                    (TokenTransfer {
                        to: old(self)@.proposal_of(proposal_id).to,
                        amount: old(self)@.proposal_of(proposal_id).amount,
                    }),
                )
            }),
    {
        if proposal_id == 0 || proposal_id > self.proposals.len() as u64 {
            return Err(GovernorError::ProposalNotFound);
        }
        let idx: usize = (proposal_id - 1) as usize;
        let p = self.proposals[idx];
        if p.executed {
            return Err(GovernorError::ProposalAlreadyExecuted);
        }
        let t = self.proposal_votes[idx];
        let receipts: usize = self.votes.len();
        proof {
            assert(old(self)@.proposal_votes[idx as int].for_votes
                + old(self)@.proposal_votes[idx as int].against_votes <= 100 * receipts);
        }
        let total_weight: u128 = t.against_votes + t.for_votes;
        if total_weight < self.quorum as u128 {
            return Err(GovernorError::QuorumNotReached);
        }
        if t.for_votes <= t.against_votes {
            return Err(GovernorError::ProposalNotAccepted);
        }
        self.proposals[idx] = Proposal {
            to: p.to,
            vote_start: p.vote_start,
            vote_end: p.vote_end,
            executed: true,
            amount: p.amount,
        };
        proof {
            assert forall|i: int, j: int|
                0 <= i < j < self@.votes.len() implies self@.votes[i] != self@.votes[j] by {
                assert(old(self)@.votes[i] != old(self)@.votes[j]);
            }
            assert forall|i: int|
                0 <= i < self@.proposal_votes.len() implies (
            #[trigger] self@.proposal_votes[i]).for_votes
                + self@.proposal_votes[i].against_votes <= 100 * self@.votes.len() by {
                assert(old(self)@.proposal_votes[i].for_votes
                    + old(self)@.proposal_votes[i].against_votes <= 100 * old(self)@.votes.len());
            }
        }
        Ok(TokenTransfer { to: p.to, amount: p.amount })
    }

    /// Whether `account` already holds a vote receipt for `proposal_id`.
    fn has_receipt(&self, proposal_id: ProposalId, account: AccountId) -> (r: bool)
        ensures
            r == self@.has_voted(proposal_id, account),
    {
        let n: usize = self.votes.len();
        let mut i: usize = 0;
        while i < n
            invariant
                n == self.votes@.len(),
                0 <= i <= n,
                forall|k: int| 0 <= k < i ==> self.votes@[k] != (proposal_id, account),
            decreases n - i,
        {
            let (pid, acct) = self.votes[i];
            if pid == proposal_id && acct == account {
                assert(self.votes@[i as int] == (proposal_id, account));
                return true;
            }
            assert(self.votes@[i as int] != (proposal_id, account));
            i = i + 1;
        }
        false
    }
}

} // verus!
