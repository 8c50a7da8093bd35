//! The moderator kick command: a stateless handler, independent of the
//! verification workflow. The command must be sent as a reply; the author of
//! the replied-to message is the user to ban from the current chat.

use vstd::prelude::*;

verus! {

/// What the kick command handler must do.
#[derive(Clone, Copy, Debug, PartialEq, Eq, Structural)]
pub enum KickOutcome {
    /// The command replied to a message with a known author: ban that user
    /// from the chat the command was issued in.
    Ban { chat_id: i64, user_id: u64 },
    /// The command replied to a message without an author: nothing to ban,
    /// no action.
    NoAuthor,
    /// The command was not a reply: post a usage hint to the invoking chat.
    UsageHint { chat_id: i64 },
}

/// Decides the kick command for a message in `chat_id`. `reply_author` is
/// absent when the command was not a reply at all, and holds the replied-to
/// message's author when that message has one.
pub fn kick_decision(chat_id: i64, reply_author: Option<Option<u64>>) -> (r: KickOutcome)
    ensures
        r == (match reply_author {
            Some(Some(user_id)) => (KickOutcome::Ban { chat_id, user_id }),
            Some(None) => KickOutcome::NoAuthor,
            None => (KickOutcome::UsageHint { chat_id }),
        }),
{
    match reply_author {
        Some(Some(user_id)) => KickOutcome::Ban { chat_id, user_id },
        Some(None) => KickOutcome::NoAuthor,
        None => KickOutcome::UsageHint { chat_id },
    }
}

} // verus!
