//! A poll-voting ledger: one poll record holds a question, its candidates, a
//! tally aligned with them, the identities that have voted, its creator and
//! whether it is still open. The operations here validate and mutate one such
//! record; where it is stored and who signed the request is the caller's part.
//!
//! Two policies are deliberate. Closing a poll clears its `active` flag and
//! keeps the record, so results stay readable. Adding a candidate asks for no
//! authority: any caller may add one while the poll is open.
pub mod key;
pub mod error;
pub mod poll;
pub mod instructions;
pub mod laws;
