//! The verification registry: the shared store of outstanding challenges.
//!
//! It maps a member's identifier to the challenge that was posted when the
//! member joined. The registry is the single point of coordination between
//! the answer-intake path and the deadline-timer path; its `take_if_present`
//! operation reads and removes an entry in one step, so that of two racing
//! resolvers at most one ever observes the entry as present.

use vstd::prelude::*;
use std::collections::HashMap;

verus! {

broadcast use vstd::std_specs::hash::group_hash_axioms;

/// One outstanding challenge: the answer the member must give and the chat
/// the challenge was issued in.
#[derive(Clone, Copy, Debug, PartialEq, Eq, Structural)]
pub struct PendingVerification {
    /// The correct response to the question that was posted.
    pub expected_answer: i32,
    /// The chat the member joined and must be banned from on timeout.
    pub origin_chat: i64,
}

/// The mapping from member identifier to outstanding challenge. At most one
/// entry exists per member; an entry is removed exactly once, by whichever of
/// the answer path and the deadline path first calls `take_if_present`.
pub struct Registry {
    map: HashMap<u64, PendingVerification>,
}

impl View for Registry {
    type V = Map<u64, PendingVerification>;

    closed spec fn view(&self) -> Map<u64, PendingVerification> {
        self.map@
    }
}

impl Registry {
    /// An empty registry: no member is under challenge.
    pub fn new() -> (r: Registry)
        ensures
            r@ == Map::<u64, PendingVerification>::empty(),
    {
        Registry { map: HashMap::new() }
    }

    /// Inserts or overwrites the entry for `member_id` (last write wins).
    pub fn put(&mut self, member_id: u64, pending: PendingVerification)
        ensures
            final(self)@ == old(self)@.insert(member_id, pending),
    {
        self.map.insert(member_id, pending);
    }

    /// Non-destructive read of the entry for `member_id`.
    pub fn get(&self, member_id: u64) -> (r: Option<PendingVerification>)
        ensures
            r == (if self@.contains_key(member_id) {
                Some(self@[member_id])
            } else {
                Option::<PendingVerification>::None
            }),
    {
        match self.map.get(&member_id) {
            Some(p) => Some(*p),
            None => None,
        }
    }

    /// Whether `member_id` is currently under challenge.
    pub fn contains(&self, member_id: u64) -> (r: bool)
        ensures
            r == self@.contains_key(member_id),
    {
        self.map.contains_key(&member_id)
    }

    /// Atomically reads and removes the entry for `member_id`: the only safe
    /// way to resolve a pending verification. Even when two callers race on
    /// the same key, exactly one of them observes a present result.
    pub fn take_if_present(&mut self, member_id: u64) -> (r: Option<PendingVerification>)
        ensures
            final(self)@ == (if old(self)@.contains_key(member_id) {
                old(self)@.remove(member_id)
            } else {
                old(self)@
            }),
            !final(self)@.contains_key(member_id),
            r == (if old(self)@.contains_key(member_id) {
                Some(old(self)@[member_id])
            } else {
                Option::<PendingVerification>::None
            }),
    {
        let r = self.map.remove(&member_id);
        proof {
            if !old(self)@.contains_key(member_id) {
                assert(old(self)@.remove(member_id) =~= old(self)@);
            }
        }
        r
    }
}

} // verus!
