//! Answer intake: evaluating an inbound text message against the registry.
//!
//! Every text message with a sender is offered here. If the whole text is an
//! integer and the sender is under challenge, a correct value resolves the
//! challenge through the registry's atomic take; a wrong value leaves the
//! entry untouched so the member may retry until correct or until timeout.

use vstd::prelude::*;
use crate::parse::parse_i32;
use crate::parse::spec_parse_i32;
use crate::registry::PendingVerification;
use crate::registry::Registry;

verus! {

/// What answer intake decided for one inbound message.
#[derive(Clone, Copy, Debug, PartialEq, Eq, Structural)]
pub enum AnswerOutcome {
    /// The text is not an integer: not an answer at all, the message falls
    /// through to the content filter with no action taken here.
    NotAnInteger,
    /// The sender has no pending entry: not under challenge, no action.
    NoPending,
    /// The value equals the expected answer: the entry was consumed and an
    /// acceptance message is owed to the chat the challenge was issued in.
    Accepted { origin_chat: i64 },
    /// The value differs from the expected answer: the entry is left in
    /// place and a wrong-answer notice is owed to that chat.
    WrongAnswer { origin_chat: i64 },
}

/// What answer intake does with a message: the outcome, and the registry
/// after it. Only a correct answer from a member under challenge changes the
/// registry, by removing that member's entry.
pub open spec fn spec_verify_answer(
    m: Map<u64, PendingVerification>,
    sender_id: u64,
    text: Seq<u8>,
) -> (AnswerOutcome, Map<u64, PendingVerification>) {
    match spec_parse_i32(text) {
        None => (AnswerOutcome::NotAnInteger, m),
        Some(n) => if !m.contains_key(sender_id) {
            (AnswerOutcome::NoPending, m)
        } else if n == m[sender_id].expected_answer {
            ((AnswerOutcome::Accepted { origin_chat: m[sender_id].origin_chat }), m.remove(sender_id))
        } else {
            ((AnswerOutcome::WrongAnswer { origin_chat: m[sender_id].origin_chat }), m)
        },
    }
}

/// Evaluates one text message from `sender_id` against the registry. A
/// correct answer is resolved through the atomic take, so it can never
/// collide with the deadline path; a wrong answer, a non-integer text or an
/// absent entry leave the registry exactly as it was.
pub fn verify_answer(reg: &mut Registry, sender_id: u64, text: &Vec<u8>) -> (r: AnswerOutcome)
    ensures
        r == spec_verify_answer(old(reg)@, sender_id, text@).0,
        final(reg)@ == spec_verify_answer(old(reg)@, sender_id, text@).1,
        !(r is Accepted) ==> final(reg)@ == old(reg)@,
        r is Accepted ==> !final(reg)@.contains_key(sender_id),
{
    match parse_i32(text) {
        None => AnswerOutcome::NotAnInteger,
        Some(n) => {
            match reg.get(sender_id) {
                None => AnswerOutcome::NoPending,
                Some(info) => {
                    if n == info.expected_answer {
                        // Time may pass between a read and a decision in the
                        // concurrent setting, so resolution goes through the
                        // atomic take, never through the earlier read alone.
                        match reg.take_if_present(sender_id) {
                            Some(taken) => AnswerOutcome::Accepted {
                                origin_chat: taken.origin_chat,
                            },
                            None => AnswerOutcome::Accepted { origin_chat: info.origin_chat },
                        }
                    } else {
                        AnswerOutcome::WrongAnswer { origin_chat: info.origin_chat }
                    }
                },
            }
        },
    }
}

} // verus!
