use vstd::prelude::*;

use crate::error::ErrorCode;
use crate::instructions::{candidate_outcome, close_outcome, open_at, vote_outcome};
use crate::poll::{PollView, MAX_VOTERS};

verus! {

/// One identity votes twice on an open poll, both times for a listed candidate:
/// the first vote is taken, the second is refused with `AlreadyVoted`, and the
/// counts show exactly one more vote, for the first choice.
pub proof fn lemma_vote_twice(v: PollView, id: Seq<u8>, voter: Seq<u8>, first: int, second: int)
    requires
        v.wf(),
        open_at(Some(v), id),
        0 <= first < v.candidates.len(),
        0 <= second < v.candidates.len(),
        !v.voters.contains(voter),
        v.voters.len() < MAX_VOTERS,
    ensures
        vote_outcome(Some(v), id, voter, first) == Ok::<(), ErrorCode>(()),
        v.with_vote(voter, first).wf(),
        vote_outcome(Some(v.with_vote(voter, first)), id, voter, second) == Err::<(), ErrorCode>(
            ErrorCode::AlreadyVoted,
        ),
        v.with_vote(voter, first).tally[first] == v.tally[first] + 1,
        forall|i: int|
            0 <= i < v.tally.len() && i != first ==> #[trigger] v.with_vote(voter, first).tally[i]
                == v.tally[i],
        v.with_vote(voter, first).voter_set() == v.voter_set().insert(voter),
{
    let w = v.with_vote(voter, first);
    assert(w.voters.last() == voter);
    assert(w.voters.contains(voter));
    assert forall|i: int| 0 <= i < w.tally.len() implies #[trigger] w.tally[i] <= w.voters.len() by {
        if i != first {
            assert(w.tally[i] == v.tally[i]);
        }
    }
    assert forall|i: int| 0 <= i < w.candidates.len() implies crate::poll::valid_label(
        #[trigger] w.candidates[i],
    ) by {}
    assert(w.voter_set() =~= v.voter_set().insert(voter)) by {
        assert forall|k: Seq<u8>| w.voter_set().contains(k) <==> v.voter_set().insert(
            voter,
        ).contains(k) by {
            if w.voters.contains(k) && k != voter {
                let j = choose|j: int| 0 <= j < w.voters.len() && w.voters[j] == k;
                assert(v.voters[j] == k);
            }
            if v.voters.contains(k) {
                let j = choose|j: int| 0 <= j < v.voters.len() && v.voters[j] == k;
                assert(w.voters[j] == k);
            }
        }
    }
}

/// A closed poll is terminal: adding a candidate, voting and closing are all
/// refused with `NotInitialized`, whoever asks.
pub proof fn lemma_closed_is_terminal(
    v: PollView,
    id: Seq<u8>,
    caller: Seq<u8>,
    name: Seq<char>,
    index: int,
)
    ensures
        !v.closed().active,
        candidate_outcome(Some(v.closed()), id, name) == Err::<(), ErrorCode>(
            ErrorCode::NotInitialized,
        ),
        vote_outcome(Some(v.closed()), id, caller, index) == Err::<(), ErrorCode>(
            ErrorCode::NotInitialized,
        ),
        close_outcome(Some(v.closed()), id, caller) == Err::<(), ErrorCode>(
            ErrorCode::NotInitialized,
        ),
{
}

} // verus!
