//! The counting law of the tallies: over any sequence of successful votes on
//! a pair, side A's tally grows by exactly the number of votes that selected
//! side A, side B's by the rest, and neither tally ever decreases.

use vstd::prelude::*;

use crate::state::Pair;

verus! {

/// How many selectors in the sequence chose side A.
pub open spec fn count_true(votes: Seq<bool>) -> int
    decreases votes.len(),
{
    if votes.len() == 0 {
        0
    } else {
        count_true(votes.drop_last()) + if votes.last() {
            1int
        } else {
            0int
        }
    }
}

/// The pair after a whole sequence of successful votes, applied in order.
pub open spec fn after_votes(p: Pair, votes: Seq<bool>) -> Pair
    decreases votes.len(),
{
    if votes.len() == 0 {
        p
    } else {
        after_votes(p, votes.drop_last()).after_vote(votes.last())
    }
}

/// The number of votes for one side never lies outside the sequence.
pub proof fn lemma_count_true_bounds(votes: Seq<bool>)
    ensures
        0 <= count_true(votes) <= votes.len(),
    decreases votes.len(),
{
    if votes.len() > 0 {
        lemma_count_true_bounds(votes.drop_last());
    }
}

/// Tally counting: a sequence of votes raises side A's tally by exactly the
/// number of votes that selected side A and side B's by the number that
/// selected side B; neither tally decreases, and the names and links stay as
/// they were. The tallies must have room for the whole sequence.
pub proof fn lemma_tally_counts(p: Pair, votes: Seq<bool>)
    requires
        p.a_vote + count_true(votes) <= u16::MAX,
        p.b_vote + votes.len() - count_true(votes) <= u16::MAX,
    ensures
        after_votes(p, votes).a_vote == p.a_vote + count_true(votes),
        after_votes(p, votes).b_vote == p.b_vote + votes.len() - count_true(votes),
        after_votes(p, votes).a_vote >= p.a_vote,
        after_votes(p, votes).b_vote >= p.b_vote,
        after_votes(p, votes).a_name == p.a_name,
        after_votes(p, votes).a_link == p.a_link,
        after_votes(p, votes).b_name == p.b_name,
        after_votes(p, votes).b_link == p.b_link,
    decreases votes.len(),
{
    lemma_count_true_bounds(votes);
    if votes.len() > 0 {
        lemma_count_true_bounds(votes.drop_last());
        lemma_tally_counts(p, votes.drop_last());
    }
}

} // verus!
