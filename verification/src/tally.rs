//! Vote choices, per-proposal tallies, and the weighted-tally arithmetic.
//!
//! A vote's weight is the voter's token balance expressed as a whole
//! percentage of the total token supply at vote time. Tallies accumulate
//! weights additively, so the order in which votes arrive never matters;
//! `lemma_tally_votes_permutation` states that law.

use vstd::prelude::*;

verus! {

/// The two ways an account can vote on a proposal.
#[derive(Clone, Copy, Debug, PartialEq, Eq, Structural)]
pub enum VoteType {
    Against,
    For,
}

/// Aggregated weighted tallies for one proposal, created zeroed together
/// with the proposal and only ever increased by `Governor::vote`.
#[derive(Clone, Copy, Debug, PartialEq, Eq, Structural)]
pub struct ProposalVote {
    pub for_votes: u128,
    pub against_votes: u128,
}

/// Voting weight of an account: its balance as a whole percentage of the
/// total token supply, rounded down. Any balance under one percent of the
/// supply truncates to zero.
pub open spec fn vote_weight(balance: u128, supply: u128) -> int
    recommends
        supply > 0,
{
    (balance as int) * 100 / (supply as int)
}

/// One weighted vote folded into a running `(for, against)` tally.
pub open spec fn cast_vote(t: (int, int), choice: VoteType, weight: int) -> (int, int) {
    match choice {
        VoteType::For => (t.0 + weight, t.1),
        VoteType::Against => (t.0, t.1 + weight),
    }
}

/// A sequence of weighted ballots folded into a tally, first ballot first.
pub open spec fn tally_votes(t: (int, int), ballots: Seq<(VoteType, int)>) -> (int, int)
    decreases ballots.len(),
{
    if ballots.len() == 0 {
        t
    } else {
        tally_votes(cast_vote(t, ballots[0].0, ballots[0].1), ballots.drop_first())
    }
}

/// The tally stored for a proposal after one vote of the given choice and
/// weight is folded in.
pub open spec fn tally_after(t: ProposalVote, choice: VoteType, weight: int) -> ProposalVote {
    let folded = cast_vote((t.for_votes as int, t.against_votes as int), choice, weight);
    ProposalVote { for_votes: folded.0 as u128, against_votes: folded.1 as u128 }
}

/// Appending one ballot to a sequence extends the fold by one
/// `cast_vote` step — the step each successful `Governor::vote` applies
/// to the stored tally.
pub proof fn lemma_tally_votes_push(
    t: (int, int),
    ballots: Seq<(VoteType, int)>,
    ballot: (VoteType, int),
)
    ensures
        tally_votes(t, ballots.push(ballot)) == cast_vote(
            tally_votes(t, ballots),
            ballot.0,
            ballot.1,
        ),
    decreases ballots.len(),
{
    if ballots.len() == 0 {
        let pushed = ballots.push(ballot);
        assert(pushed[0] == ballot);
        assert(pushed.drop_first() =~= Seq::<(VoteType, int)>::empty());
        assert(tally_votes(t, pushed) == tally_votes(
            cast_vote(t, ballot.0, ballot.1),
            pushed.drop_first(),
        ));
        assert(tally_votes(cast_vote(t, ballot.0, ballot.1), pushed.drop_first()) == cast_vote(
            t,
            ballot.0,
            ballot.1,
        ));
        assert(tally_votes(t, ballots) == t);
    } else {
        let stepped = cast_vote(t, ballots[0].0, ballots[0].1);
        assert(ballots.push(ballot)[0] == ballots[0]);
        assert(ballots.push(ballot).drop_first() =~= ballots.drop_first().push(ballot));
        assert(tally_votes(t, ballots.push(ballot)) == tally_votes(
            stepped,
            ballots.drop_first().push(ballot),
        ));
        lemma_tally_votes_push(stepped, ballots.drop_first(), ballot);
    }
}

/// Folding two consecutive ballots commutes: additions to the two sides of
/// a tally are independent and addition itself is commutative.
proof fn lemma_cast_vote_commutes(t: (int, int), c1: VoteType, w1: int, c2: VoteType, w2: int)
    ensures
        cast_vote(cast_vote(t, c1, w1), c2, w2) == cast_vote(cast_vote(t, c2, w2), c1, w1),
{
}

/// Any ballot of a sequence can be folded in first: the remaining ballots,
/// in their original order, then produce the same final tally.
proof fn lemma_tally_votes_pull(t: (int, int), ballots: Seq<(VoteType, int)>, j: int)
    requires
        0 <= j < ballots.len(),
    ensures
        tally_votes(t, ballots) == tally_votes(
            cast_vote(t, ballots[j].0, ballots[j].1),
            ballots.remove(j),
        ),
    decreases j,
{
    if j == 0 {
        assert(ballots.remove(0) =~= ballots.drop_first());
    } else {
        let first = ballots[0];
        let picked = ballots[j];
        let t_first = cast_vote(t, first.0, first.1);
        let t_picked = cast_vote(t, picked.0, picked.1);
        let rest = ballots.drop_first();
        lemma_tally_votes_pull(t_first, rest, j - 1);
        lemma_cast_vote_commutes(t, first.0, first.1, picked.0, picked.1);
        assert(ballots.remove(j).drop_first() =~= rest.remove(j - 1));
        assert(ballots.remove(j)[0] == first);
        assert(tally_votes(t_picked, ballots.remove(j)) == tally_votes(
            cast_vote(t_picked, first.0, first.1),
            rest.remove(j - 1),
        ));
        assert(tally_votes(t, ballots) == tally_votes(t_first, rest));
    }
}

/// Law: weight accumulation is additive and order-independent. Folding any
/// two rearrangements of the same ballots — the same multiset of
/// (choice, weight) pairs — into the same starting tally yields the same
/// final `for` and `against` weights.
pub proof fn lemma_tally_votes_permutation(
    t: (int, int),
    a: Seq<(VoteType, int)>,
    b: Seq<(VoteType, int)>,
)
    requires
        a.to_multiset() == b.to_multiset(),
    ensures
        tally_votes(t, a) == tally_votes(t, b),
    decreases a.len(),
{
    broadcast use vstd::seq_lib::group_to_multiset_ensures;

    if a.len() == 0 {
        assert(b.to_multiset().len() == 0);
        assert(b.len() == 0);
    } else {
        let x = a[0];
        assert(a.contains(x));
        assert(b.to_multiset().count(x) > 0);
        assert(b.contains(x));
        let j = choose|j: int| 0 <= j < b.len() && b[j] == x;
        assert(a.remove(0) =~= a.drop_first());
        assert(a.drop_first().to_multiset() == a.to_multiset().remove(x));
        assert(b.remove(j).to_multiset() == b.to_multiset().remove(x));
        lemma_tally_votes_pull(t, b, j);
        lemma_tally_votes_permutation(cast_vote(t, x.0, x.1), a.drop_first(), b.remove(j));
    }
}

} // verus!
