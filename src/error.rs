use vstd::prelude::*;

verus! {

/// Why an operation on a poll was refused. A refused operation leaves the
/// record as it was.
#[derive(Clone, Copy, Debug, PartialEq, Eq, Structural)]
pub enum ErrorCode {
    /// A record already occupies the poll's address.
    AlreadyExists,
    /// No open poll stands at the address: none was created, or it was closed.
    NotInitialized,
    /// Oversized text, an empty candidate list, or repeated candidates.
    InvalidInput,
    /// The candidate's name is already on the poll.
    DuplicateCandidate,
    /// The record would hold more candidates or voters than storage allows.
    CapacityExceeded,
    /// The chosen option is not an index of the candidate list.
    InvalidOptionIndex,
    /// The caller has already voted on this poll.
    AlreadyVoted,
    /// Only the poll's creator may do this.
    Unauthorized,
    /// No record stands at the address.
    NotFound,
}

} // verus!
