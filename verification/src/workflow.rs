//! The verification workflow around one member's challenge.
//!
//! When a member joins, a challenge is generated and posted, and the pending
//! entry is registered; an independent deadline timer is started. When the
//! timer fires, the entry is taken atomically: if it is still present the
//! member is banned, and if it is gone the member was already resolved and
//! the late firing is a harmless no-op.

use vstd::prelude::*;
use crate::challenge::Challenge;
use crate::registry::PendingVerification;
use crate::registry::Registry;

verus! {

/// What the deadline timer must do once it has fired and consulted the
/// registry.
#[derive(Clone, Copy, Debug, PartialEq, Eq, Structural)]
pub enum DeadlineOutcome {
    /// The entry was still present: the member failed to answer in time and
    /// must be banned from the chat the challenge was issued in, with a
    /// timeout notice posted there.
    Ban { member_id: u64, origin_chat: i64 },
    /// The entry was gone: the member was already resolved, so the timer
    /// takes no action.
    AlreadyResolved,
}

/// The registry after a member's challenge is registered.
pub open spec fn spec_register(
    m: Map<u64, PendingVerification>,
    member_id: u64,
    expected_answer: i32,
    origin_chat: i64,
) -> Map<u64, PendingVerification> {
    m.insert(member_id, (PendingVerification { expected_answer, origin_chat }))
}

/// What the deadline does to the registry and which action it demands: a
/// present entry is consumed and turns into a ban, an absent one into no
/// action at all.
pub open spec fn spec_deadline(m: Map<u64, PendingVerification>, member_id: u64) -> (
    DeadlineOutcome,
    Map<u64, PendingVerification>,
) {
    if m.contains_key(member_id) {
        (
            (DeadlineOutcome::Ban { member_id, origin_chat: m[member_id].origin_chat }),
            m.remove(member_id),
        )
    } else {
        (DeadlineOutcome::AlreadyResolved, m)
    }
}

/// Registers the pending entry for a member whose challenge was just posted:
/// the member is now under challenge, with the challenge's sum as the
/// expected answer and the joined chat as the chat to ban from on timeout.
pub fn register_pending(reg: &mut Registry, member_id: u64, c: Challenge, origin_chat: i64)
    ensures
        final(reg)@ == spec_register(old(reg)@, member_id, c.expected_answer, origin_chat),
        final(reg)@.contains_key(member_id),
        final(reg)@[member_id] == (PendingVerification {
            expected_answer: c.expected_answer,
            origin_chat,
        }),
{
    reg.put(
        member_id,
        PendingVerification { expected_answer: c.expected_answer, origin_chat },
    );
}

/// The deadline timer's resolution step, run when the timer for `member_id`
/// fires: takes the entry atomically and says whether the member must be
/// banned. Of the timeout path and the answer path, at most one ever
/// observes the entry, so at most one terminal resolution is produced.
pub fn resolve_deadline(reg: &mut Registry, member_id: u64) -> (r: DeadlineOutcome)
    ensures
        r == spec_deadline(old(reg)@, member_id).0,
        final(reg)@ == spec_deadline(old(reg)@, member_id).1,
        !final(reg)@.contains_key(member_id),
{
    match reg.take_if_present(member_id) {
        Some(info) => DeadlineOutcome::Ban { member_id, origin_chat: info.origin_chat },
        None => DeadlineOutcome::AlreadyResolved,
    }
}

} // verus!
