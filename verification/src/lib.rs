//! Core logic of a group-chat moderation agent: newly joined members are
//! challenged with a timed arithmetic question and removed when they fail to
//! answer in time, messages holding banned substrings are flagged for
//! deletion, and moderators can ask for a user's removal.
//!
//! Everything stateful lives in the verification registry, a map from member
//! to outstanding challenge. Its atomic take-and-remove operation arbitrates
//! the race between a correct answer and the deadline timer: at most one of
//! the two ever observes the pending entry, so each member gets at most one
//! terminal resolution.

pub mod challenge;
pub mod filter;
pub mod intake;
pub mod kick;
pub mod laws;
pub mod parse;
pub mod registry;
pub mod workflow;
