use vstd::prelude::*;
use vstd::utf8::encode_utf8;

use crate::key::Pubkey;

verus! {

/// Longest question, in bytes of UTF-8.
pub const MAX_QUESTION_LEN: usize = 200;

/// Longest candidate name, in bytes of UTF-8.
pub const MAX_CANDIDATE_LEN: usize = 50;

/// Most candidates a poll can hold.
pub const MAX_CANDIDATES: usize = 10;

/// Most distinct voters a poll can record.
pub const MAX_VOTERS: usize = 100;

/// Length of a text in bytes of UTF-8, as storage counts it.
pub open spec fn text_len(s: Seq<char>) -> nat {
    encode_utf8(s).len()
}

/// The texts of a list of strings.
pub open spec fn texts(v: Seq<String>) -> Seq<Seq<char>> {
    v.map_values(|s: String| s@)
}

/// The byte strings of a list of identities.
pub open spec fn keys(v: Seq<Pubkey>) -> Seq<Seq<u8>> {
    v.map_values(|k: Pubkey| k@)
}

/// A candidate name that fits in storage.
pub open spec fn valid_label(name: Seq<char>) -> bool {
    text_len(name) <= MAX_CANDIDATE_LEN
}

/// What a new poll must satisfy: a question that fits, between one and
/// `MAX_CANDIDATES` candidates, each fitting, none repeated.
pub open spec fn valid_creation(question: Seq<char>, candidates: Seq<Seq<char>>) -> bool {
    &&& text_len(question) <= MAX_QUESTION_LEN
    &&& 1 <= candidates.len() <= MAX_CANDIDATES
    &&& candidates.no_duplicates()
    &&& forall|i: int| 0 <= i < candidates.len() ==> valid_label(#[trigger] candidates[i])
}

/// One poll record.
pub struct Poll {
    /// Address of the poll, fixed at creation.
    pub id: Pubkey,
    /// Who created the poll; the only one who may close it.
    pub creator: Pubkey,
    pub question: String,
    /// Candidate names, unique, in the order they were added.
    pub candidates: Vec<String>,
    /// `tally[i]` counts the votes for `candidates[i]`.
    pub tally: Vec<u32>,
    /// True from creation until the poll is closed.
    pub active: bool,
    /// Everyone who has voted, each once.
    pub voters: Vec<Pubkey>,
}

/// The mathematical content of a poll record.
pub struct PollView {
    pub id: Seq<u8>,
    pub creator: Seq<u8>,
    pub question: Seq<char>,
    pub candidates: Seq<Seq<char>>,
    pub tally: Seq<u32>,
    pub active: bool,
    pub voters: Seq<Seq<u8>>,
}

impl View for Poll {
    type V = PollView;

    open spec fn view(&self) -> PollView {
        PollView {
            id: self.id@,
            creator: self.creator@,
            question: self.question@,
            candidates: texts(self.candidates@),
            tally: self.tally@,
            active: self.active,
            voters: keys(self.voters@),
        }
    }
}

impl PollView {
    /// The invariants every stored record keeps.
    pub open spec fn wf(&self) -> bool {
        &&& self.tally.len() == self.candidates.len()
        &&& valid_creation(self.question, self.candidates)
        &&& self.voters.no_duplicates()
        &&& self.voters.len() <= MAX_VOTERS
        &&& forall|i: int| 0 <= i < self.tally.len() ==> #[trigger] self.tally[i] <= self.voters.len()
    }

    /// The set of identities that have voted.
    pub open spec fn voter_set(&self) -> Set<Seq<u8>> {
        self.voters.to_set()
    }

    /// A fresh poll: every count zero, no voters, open.
    pub open spec fn fresh(
        id: Seq<u8>,
        creator: Seq<u8>,
        question: Seq<char>,
        candidates: Seq<Seq<char>>,
    ) -> PollView {
        PollView {
            id,
            creator,
            question,
            candidates,
            tally: Seq::new(candidates.len(), |i: int| 0u32),
            active: true,
            voters: Seq::empty(),
        }
    }

    /// This poll with one more candidate, whose count starts at zero.
    pub open spec fn with_candidate(self, name: Seq<char>) -> PollView {
        PollView { candidates: self.candidates.push(name), tally: self.tally.push(0u32), ..self }
    }

    /// This poll after `voter` voted for the candidate at `index`.
    pub open spec fn with_vote(self, voter: Seq<u8>, index: int) -> PollView {
        PollView {
            tally: self.tally.update(index, (self.tally[index] + 1) as u32),
            voters: self.voters.push(voter),
            ..self
        }
    }

    /// This poll, closed.
    pub open spec fn closed(self) -> PollView {
        PollView { active: false, ..self }
    }
}

impl Poll {
    /// The invariants every stored record keeps.
    pub open spec fn wf(&self) -> bool {
        self@.wf()
    }

    /// Whether this record keeps the invariants: what a record read back from
    /// storage is tested with before an operation works on it.
    pub fn is_well_formed(&self) -> (r: bool)
        ensures
            r == self.wf(),
    {
        if self.tally.len() != self.candidates.len() || !check_creation(
            &self.question,
            &self.candidates,
        ) {
            return false;
        }
        let n = self.voters.len();
        if n > MAX_VOTERS {
            return false;
        }
        let mut i: usize = 0;
        while i < self.tally.len()
            invariant
                0 <= i <= self.tally.len(),
                n == self@.voters.len(),
                forall|j: int| 0 <= j < i ==> #[trigger] self@.tally[j] <= n,
            decreases self.tally.len() - i,
        {
            if self.tally[i] as usize > n {
                return false;
            }
            i = i + 1;
        }
        let ghost vs = self@.voters;
        let mut i: usize = 0;
        while i < n
            invariant
                0 <= i <= n,
                n == self.voters@.len(),
                vs == keys(self.voters@),
                forall|j: int, k: int| 0 <= j < k < i ==> vs[j] != vs[k],
            decreases n - i,
        {
            let mut j: usize = 0;
            while j < i
                invariant
                    0 <= j <= i < n,
                    n == self.voters@.len(),
                    vs == keys(self.voters@),
                    forall|m: int| 0 <= m < j ==> vs[m] != vs[i as int],
                decreases i - j,
            {
                if self.voters[j].same_as(&self.voters[i]) {
                    assert(vs[j as int] == vs[i as int]);
                    assert(!vs.no_duplicates());
                    return false;
                }
                j = j + 1;
            }
            i = i + 1;
        }
        true
    }
}

/// Whether a text fits in `max` bytes of UTF-8.
pub(crate) fn text_fits(s: &String, max: usize) -> (r: bool)
    ensures
        r == (text_len(s@) <= max),
{
    s.as_str().as_bytes().len() <= max
}

/// Whether `name` is among `names`.
pub(crate) fn contains_name(names: &Vec<String>, name: &String) -> (r: bool)
    ensures
        r == texts(names@).contains(name@),
{
    let mut i: usize = 0;
    while i < names.len()
        invariant
            0 <= i <= names.len(),
            forall|j: int| 0 <= j < i ==> texts(names@)[j] != name@,
        decreases names.len() - i,
    {
        if names[i] == *name {
            assert(texts(names@)[i as int] == name@);
            return true;
        }
        i = i + 1;
    }
    false
}

/// Whether `key` is among `keys`.
pub(crate) fn contains_key(list: &Vec<Pubkey>, key: &Pubkey) -> (r: bool)
    ensures
        r == keys(list@).contains(key@),
{
    let mut i: usize = 0;
    while i < list.len()
        invariant
            0 <= i <= list.len(),
            forall|j: int| 0 <= j < i ==> keys(list@)[j] != key@,
        decreases list.len() - i,
    {
        if list[i].same_as(key) {
            assert(keys(list@)[i as int] == key@);
            return true;
        }
        i = i + 1;
    }
    false
}

/// Whether a question and candidate list may start a poll.
pub fn check_creation(question: &String, candidates: &Vec<String>) -> (r: bool)
    ensures
        r == valid_creation(question@, texts(candidates@)),
{
    let ghost names = texts(candidates@);
    if !text_fits(question, MAX_QUESTION_LEN) {
        return false;
    }
    if candidates.len() == 0 || candidates.len() > MAX_CANDIDATES {
        return false;
    }
    let mut i: usize = 0;
    while i < candidates.len()
        invariant
            0 <= i <= candidates.len(),
            names == texts(candidates@),
            forall|j: int| 0 <= j < i ==> valid_label(#[trigger] names[j]),
            forall|j: int, k: int| 0 <= j < k < i ==> names[j] != names[k],
        decreases candidates.len() - i,
    {
        if !text_fits(&candidates[i], MAX_CANDIDATE_LEN) {
            assert(!valid_label(names[i as int]));
            return false;
        }
        let mut j: usize = 0;
        while j < i
            invariant
                0 <= j <= i < candidates.len(),
                names == texts(candidates@),
                forall|m: int| 0 <= m < j ==> names[m] != names[i as int],
            decreases i - j,
        {
            if candidates[j] == candidates[i] {
                assert(names[j as int] == names[i as int]);
                assert(!names.no_duplicates());
                return false;
            }
            j = j + 1;
        }
        i = i + 1;
    }
    true
}

} // verus!
