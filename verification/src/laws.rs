//! The laws of the verification workflow: what must hold of every registry
//! state, not just of any one run. Each is proved over the same spec
//! functions the executable functions' contracts are stated in.

use vstd::prelude::*;
use crate::intake::AnswerOutcome;
use crate::intake::spec_verify_answer;
use crate::parse::spec_parse_i32;
use crate::registry::PendingVerification;
use crate::workflow::DeadlineOutcome;
use crate::workflow::spec_deadline;

verus! {

/// Law: for every member, at most one terminal resolution is ever produced,
/// however closely the correct answer and the deadline race. Whichever of
/// the two paths consumes the entry first, the other finds it gone: an
/// accepted answer leaves nothing for the deadline to ban, and a fired
/// deadline leaves nothing for an answer to accept.
pub proof fn lemma_at_most_one_resolution(
    m: Map<u64, PendingVerification>,
    member_id: u64,
    text: Seq<u8>,
)
    ensures
        spec_verify_answer(m, member_id, text).0 is Accepted ==> spec_deadline(
            spec_verify_answer(m, member_id, text).1,
            member_id,
        ).0 is AlreadyResolved,
        spec_deadline(m, member_id).0 is Ban ==> !(spec_verify_answer(
            spec_deadline(m, member_id).1,
            member_id,
            text,
        ).0 is Accepted),
{
}

/// Law: a member under challenge who submits the correct answer is accepted,
/// and a deadline that fires afterwards bans nobody: its take finds the
/// entry already gone and resolves to no action.
pub proof fn lemma_correct_answer_never_timed_out(
    m: Map<u64, PendingVerification>,
    member_id: u64,
    text: Seq<u8>,
)
    requires
        m.contains_key(member_id),
        spec_parse_i32(text) == Some(m[member_id].expected_answer),
    ensures
        spec_verify_answer(m, member_id, text).0 == (AnswerOutcome::Accepted {
            origin_chat: m[member_id].origin_chat,
        }),
        spec_deadline(spec_verify_answer(m, member_id, text).1, member_id).0
            == DeadlineOutcome::AlreadyResolved,
{
}

/// Law: a wrong answer never removes the member from the registry. The
/// submission alone changes nothing: the entry stays, with the same expected
/// answer, and the member may retry any number of times.
pub proof fn lemma_wrong_answer_keeps_entry(
    m: Map<u64, PendingVerification>,
    member_id: u64,
    text: Seq<u8>,
)
    requires
        m.contains_key(member_id),
        spec_parse_i32(text) is Some,
        spec_parse_i32(text) != Some(m[member_id].expected_answer),
    ensures
        spec_verify_answer(m, member_id, text).0 == (AnswerOutcome::WrongAnswer {
            origin_chat: m[member_id].origin_chat,
        }),
        spec_verify_answer(m, member_id, text).1 == m,
        spec_verify_answer(m, member_id, text).1.contains_key(member_id),
        spec_verify_answer(m, member_id, text).1[member_id] == m[member_id],
{
}

/// Law: resolving one member touches no other member's entry. Whatever the
/// answer path or the deadline path does for `member_id`, every other
/// member's pending challenge is exactly as it was.
pub proof fn lemma_members_are_independent(
    m: Map<u64, PendingVerification>,
    member_id: u64,
    other_id: u64,
    text: Seq<u8>,
)
    requires
        member_id != other_id,
    ensures
        spec_verify_answer(m, member_id, text).1.contains_key(other_id) == m.contains_key(other_id),
        m.contains_key(other_id) ==> spec_verify_answer(m, member_id, text).1[other_id]
            == m[other_id],
        spec_deadline(m, member_id).1.contains_key(other_id) == m.contains_key(other_id),
        m.contains_key(other_id) ==> spec_deadline(m, member_id).1[other_id] == m[other_id],
{
}

} // verus!
