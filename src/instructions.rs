use vstd::prelude::*;

use crate::error::ErrorCode;
use crate::key::Pubkey;
use crate::poll::{
    check_creation, contains_key, contains_name, text_fits, texts, valid_creation, valid_label,
    Poll, PollView, MAX_CANDIDATES, MAX_CANDIDATE_LEN, MAX_VOTERS,
};

verus! {

/// What `create_poll` works on: the record found at the poll's address, if any,
/// and the authenticated caller.
pub struct CreatePoll {
    pub poll: Option<Poll>,
    pub user: Pubkey,
}

/// What `create_candidate` works on.
pub struct CreateCandidate {
    pub poll: Option<Poll>,
    pub user: Pubkey,
}

/// What `vote` works on.
pub struct Vote {
    pub poll: Option<Poll>,
    pub user: Pubkey,
}

/// What `close_poll` works on.
pub struct ClosePoll {
    pub poll: Option<Poll>,
    pub user: Pubkey,
}

/// The content of a storage slot.
pub open spec fn slot_view(slot: Option<Poll>) -> Option<PollView> {
    match slot {
        Some(p) => Some(p@),
        None => None,
    }
}

/// A slot that is empty or holds a well-formed record.
pub open spec fn slot_wf(slot: Option<Poll>) -> bool {
    slot is Some ==> slot->0.wf()
}

/// The slot holds the poll with address `id`, and that poll is open.
pub open spec fn open_at(slot: Option<PollView>, id: Seq<u8>) -> bool {
    slot is Some && slot->0.id == id && slot->0.active
}

/// The result `create_poll` owes.
pub open spec fn create_outcome(
    slot: Option<PollView>,
    question: Seq<char>,
    candidates: Seq<Seq<char>>,
) -> Result<(), ErrorCode> {
    if slot is Some {
        Err(ErrorCode::AlreadyExists)
    } else if !valid_creation(question, candidates) {
        Err(ErrorCode::InvalidInput)
    } else {
        Ok(())
    }
}

/// The result `create_candidate` owes.
pub open spec fn candidate_outcome(slot: Option<PollView>, id: Seq<u8>, name: Seq<char>) -> Result<
    (),
    ErrorCode,
> {
    if !open_at(slot, id) {
        Err(ErrorCode::NotInitialized)
    } else if slot->0.candidates.contains(name) {
        Err(ErrorCode::DuplicateCandidate)
    } else if !valid_label(name) {
        Err(ErrorCode::InvalidInput)
    } else if slot->0.candidates.len() >= MAX_CANDIDATES {
        Err(ErrorCode::CapacityExceeded)
    } else {
        Ok(())
    }
}

/// The result `vote` owes.
pub open spec fn vote_outcome(slot: Option<PollView>, id: Seq<u8>, voter: Seq<u8>, index: int) -> Result<
    (),
    ErrorCode,
> {
    if !open_at(slot, id) {
        Err(ErrorCode::NotInitialized)
    } else if index >= slot->0.candidates.len() {
        Err(ErrorCode::InvalidOptionIndex)
    } else if slot->0.voters.contains(voter) {
        Err(ErrorCode::AlreadyVoted)
    } else if slot->0.voters.len() >= MAX_VOTERS {
        Err(ErrorCode::CapacityExceeded)
    } else {
        Ok(())
    }
}

/// The result `close_poll` owes.
pub open spec fn close_outcome(slot: Option<PollView>, id: Seq<u8>, caller: Seq<u8>) -> Result<
    (),
    ErrorCode,
> {
    if !open_at(slot, id) {
        Err(ErrorCode::NotInitialized)
    } else if slot->0.creator != caller {
        Err(ErrorCode::Unauthorized)
    } else {
        Ok(())
    }
}

/// Creates a poll at an empty address: every count zero, no voters, open,
/// with the caller as creator. Fails with `AlreadyExists` where a record
/// occupies the address, and with `InvalidInput` where the question or the
/// candidates break the storage bounds, the list is empty or has a repeat.
pub fn create_poll(
    ctx: &mut CreatePoll,
    poll_id: Pubkey,
    question: String,
    candidates: Vec<String>,
) -> (r: Result<(), ErrorCode>)
    ensures
        r == create_outcome(slot_view(old(ctx).poll), question@, texts(candidates@)),
        final(ctx).user == old(ctx).user,
        r is Err ==> final(ctx).poll == old(ctx).poll,
        r is Ok ==> slot_view(final(ctx).poll) == Some(
            PollView::fresh(poll_id@, old(ctx).user@, question@, texts(candidates@)),
        ),
        r is Ok ==> slot_wf(final(ctx).poll),
        r is Ok ==> ({
            let p = final(ctx).poll->0;
            &&& p.tally@.len() == p.candidates@.len()
            &&& forall|i: int| 0 <= i < p.tally@.len() ==> #[trigger] p.tally@[i] == 0
            &&& p.active
        }),
{
    if ctx.poll.is_some() {
        return Err(ErrorCode::AlreadyExists);
    }
    if !check_creation(&question, &candidates) {
        return Err(ErrorCode::InvalidInput);
    }
    let mut tally: Vec<u32> = Vec::new();
    let mut i: usize = 0;
    while i < candidates.len()
        invariant
            0 <= i <= candidates.len(),
            tally@ == Seq::new(i as nat, |j: int| 0u32),
        decreases candidates.len() - i,
    {
        tally.push(0);
        i = i + 1;
        assert(tally@ =~= Seq::new(i as nat, |j: int| 0u32));
    }
    let voters: Vec<Pubkey> = Vec::new();
    let poll = Poll {
        id: poll_id,
        creator: ctx.user,
        question,
        candidates,
        tally,
        active: true,
        voters,
    };
    assert(poll@.voters =~= Seq::empty());
    assert(poll@ == PollView::fresh(poll_id@, ctx.user@, poll.question@, poll@.candidates));
    ctx.poll = Some(poll);
    Ok(())
}

/// Appends a candidate, with a count of zero, to the open poll at `poll_id`.
/// Any caller may do this while the poll is open. Fails with `NotInitialized`
/// where no open poll stands there, `DuplicateCandidate` where the name is
/// already on it, `InvalidInput` where the name is too long, and
/// `CapacityExceeded` where the poll holds `MAX_CANDIDATES` already.
pub fn create_candidate(
    ctx: &mut CreateCandidate,
    poll_id: Pubkey,
    candidate_name: String,
) -> (r: Result<(), ErrorCode>)
    requires
        slot_wf(old(ctx).poll),
    ensures
        r == candidate_outcome(slot_view(old(ctx).poll), poll_id@, candidate_name@),
        final(ctx).user == old(ctx).user,
        slot_wf(final(ctx).poll),
        r is Err ==> final(ctx).poll == old(ctx).poll,
        r is Ok ==> slot_view(final(ctx).poll) == Some(
            old(ctx).poll->0@.with_candidate(candidate_name@),
        ),
        open_at(slot_view(old(ctx).poll), poll_id@) && old(ctx).poll->0@.candidates.contains(
            candidate_name@,
        ) ==> r == Err::<(), ErrorCode>(ErrorCode::DuplicateCandidate)
            && final(ctx).poll->0.candidates@.len() == old(ctx).poll->0.candidates@.len(),
{
    match &ctx.poll {
        None => {
            return Err(ErrorCode::NotInitialized);
        },
        Some(p) => {
            if !p.id.same_as(&poll_id) || !p.active {
                return Err(ErrorCode::NotInitialized);
            }
            if contains_name(&p.candidates, &candidate_name) {
                return Err(ErrorCode::DuplicateCandidate);
            }
            if !text_fits(&candidate_name, MAX_CANDIDATE_LEN) {
                return Err(ErrorCode::InvalidInput);
            }
            if p.candidates.len() >= MAX_CANDIDATES {
                return Err(ErrorCode::CapacityExceeded);
            }
        },
    }
    let ghost before = ctx.poll->0@;
    let mut p = ctx.poll.take().unwrap();
    let ghost name = candidate_name@;
    p.candidates.push(candidate_name);
    p.tally.push(0);
    assert(p@.candidates =~= before.candidates.push(name));
    assert(p@ == before.with_candidate(name));
    assert forall|i: int| 0 <= i < p@.candidates.len() implies valid_label(
        #[trigger] p@.candidates[i],
    ) by {
        if i < before.candidates.len() {
            assert(p@.candidates[i] == before.candidates[i]);
        }
    }
    ctx.poll = Some(p);
    Ok(())
}

/// Records a vote of the caller for the candidate at `option_index` of the
/// open poll at `poll_id`: the caller joins the voters and that count rises by
/// one, together. Fails with `NotInitialized` where no open poll stands there,
/// `InvalidOptionIndex` where the index is past the candidates,
/// `AlreadyVoted` where the caller has voted on it, and `CapacityExceeded`
/// where it has `MAX_VOTERS` voters already.
pub fn vote(ctx: &mut Vote, poll_id: Pubkey, option_index: u64) -> (r: Result<(), ErrorCode>)
    requires
        slot_wf(old(ctx).poll),
    ensures
        r == vote_outcome(
            slot_view(old(ctx).poll),
            poll_id@,
            old(ctx).user@,
            option_index as int,
        ),
        final(ctx).user == old(ctx).user,
        slot_wf(final(ctx).poll),
        r is Err ==> final(ctx).poll == old(ctx).poll,
        r is Ok ==> slot_view(final(ctx).poll) == Some(
            old(ctx).poll->0@.with_vote(old(ctx).user@, option_index as int),
        ),
        open_at(slot_view(old(ctx).poll), poll_id@) && option_index >= old(
            ctx,
        ).poll->0.candidates@.len() ==> r == Err::<(), ErrorCode>(ErrorCode::InvalidOptionIndex)
            && final(ctx).poll->0.tally == old(ctx).poll->0.tally,
{
    match &ctx.poll {
        None => {
            return Err(ErrorCode::NotInitialized);
        },
        Some(p) => {
            if !p.id.same_as(&poll_id) || !p.active {
                return Err(ErrorCode::NotInitialized);
            }
            if option_index >= p.candidates.len() as u64 {
                return Err(ErrorCode::InvalidOptionIndex);
            }
            if contains_key(&p.voters, &ctx.user) {
                return Err(ErrorCode::AlreadyVoted);
            }
            if p.voters.len() >= MAX_VOTERS {
                return Err(ErrorCode::CapacityExceeded);
            }
        },
    }
    let ghost before = ctx.poll->0@;
    let mut p = ctx.poll.take().unwrap();
    let idx = option_index as usize;
    p.voters.push(ctx.user);
    let count = p.tally[idx];
    p.tally[idx] = count + 1;
    assert(p@.voters =~= before.voters.push(ctx.user@));
    assert(p@.tally =~= before.tally.update(idx as int, (count + 1) as u32));
    assert(p@ == before.with_vote(ctx.user@, option_index as int));
    assert forall|i: int| 0 <= i < p@.tally.len() implies #[trigger] p@.tally[i]
        <= p@.voters.len() by {
        if i != idx as int {
            assert(p@.tally[i] == before.tally[i]);
        }
    }
    ctx.poll = Some(p);
    Ok(())
}

/// Closes the open poll at `poll_id` for good; its results stay readable.
/// Fails with `NotInitialized` where no open poll stands there, and with
/// `Unauthorized` where the caller is not its creator.
pub fn close_poll(ctx: &mut ClosePoll, poll_id: Pubkey) -> (r: Result<(), ErrorCode>)
    requires
        slot_wf(old(ctx).poll),
    ensures
        r == close_outcome(slot_view(old(ctx).poll), poll_id@, old(ctx).user@),
        final(ctx).user == old(ctx).user,
        slot_wf(final(ctx).poll),
        r is Err ==> final(ctx).poll == old(ctx).poll,
        r is Ok ==> slot_view(final(ctx).poll) == Some(old(ctx).poll->0@.closed()),
        open_at(slot_view(old(ctx).poll), poll_id@) && old(ctx).poll->0.creator@ != old(
            ctx,
        ).user@ ==> r == Err::<(), ErrorCode>(ErrorCode::Unauthorized)
            && final(ctx).poll->0.active == old(ctx).poll->0.active,
{
    match &ctx.poll {
        None => {
            return Err(ErrorCode::NotInitialized);
        },
        Some(p) => {
            if !p.id.same_as(&poll_id) || !p.active {
                return Err(ErrorCode::NotInitialized);
            }
            if !p.creator.same_as(&ctx.user) {
                return Err(ErrorCode::Unauthorized);
            }
        },
    }
    let mut p = ctx.poll.take().unwrap();
    p.active = false;
    ctx.poll = Some(p);
    Ok(())
}

/// The record of the poll at `poll_id`, open or closed. Fails with `NotFound`
/// where no such record stands in the slot.
pub fn get_poll(slot: &Option<Poll>, poll_id: Pubkey) -> (r: Result<&Poll, ErrorCode>)
    ensures
        match r {
            Ok(p) => slot is Some && *p == slot->0 && p.id@ == poll_id@,
            Err(e) => e == ErrorCode::NotFound && !(slot is Some && slot->0.id@ == poll_id@),
        },
{
    match slot {
        Some(p) => {
            if p.id.same_as(&poll_id) {
                Ok(p)
            } else {
                Err(ErrorCode::NotFound)
            }
        },
        None => Err(ErrorCode::NotFound),
    }
}

} // verus!
