use chat_guard::challenge::generate_challenge;
use chat_guard::challenge::make_challenge;
use chat_guard::intake::verify_answer;
use chat_guard::intake::AnswerOutcome;
use chat_guard::kick::kick_decision;
use chat_guard::kick::KickOutcome;
use chat_guard::registry::PendingVerification;
use chat_guard::registry::Registry;
use chat_guard::workflow::register_pending;
use chat_guard::workflow::resolve_deadline;
use chat_guard::workflow::DeadlineOutcome;

fn bytes(s: &str) -> Vec<u8> {
    s.as_bytes().to_vec()
}

const CHAT: i64 = -1001234;

#[test]
fn challenge_answer_is_sum_in_range() {
    for _ in 0..200 {
        let c = generate_challenge();
        assert!(1 <= c.a && c.a <= 10);
        assert!(1 <= c.b && c.b <= 10);
        assert_eq!(c.expected_answer, c.a + c.b);
        assert!(2 <= c.expected_answer && c.expected_answer <= 20);
    }
}

#[test]
fn make_challenge_exact() {
    let c = make_challenge(3, 4);
    assert_eq!(c.a, 3);
    assert_eq!(c.b, 4);
    assert_eq!(c.expected_answer, 7);
}

// Member joins, generator returns (3, 4); the member replies "7" well before
// the deadline: acceptance, and the registry no longer holds the member.
#[test]
fn correct_answer_accepts_and_clears_entry() {
    let mut reg = Registry::new();
    let c = make_challenge(3, 4);
    register_pending(&mut reg, 42, c, CHAT);
    assert!(reg.contains(42));

    let r = verify_answer(&mut reg, 42, &bytes("7"));
    assert_eq!(r, AnswerOutcome::Accepted { origin_chat: CHAT });
    assert!(!reg.contains(42));

    // The timer still fires later; its take finds nothing and it does nothing.
    let d = resolve_deadline(&mut reg, 42);
    assert_eq!(d, DeadlineOutcome::AlreadyResolved);
}

// Member replies "5" first: wrong-answer notice, entry kept; then "7": accepted.
#[test]
fn wrong_then_correct_answer() {
    let mut reg = Registry::new();
    register_pending(&mut reg, 42, make_challenge(3, 4), CHAT);

    let r1 = verify_answer(&mut reg, 42, &bytes("5"));
    assert_eq!(r1, AnswerOutcome::WrongAnswer { origin_chat: CHAT });
    assert!(reg.contains(42));
    assert_eq!(
        reg.get(42),
        Some(PendingVerification { expected_answer: 7, origin_chat: CHAT })
    );

    let r2 = verify_answer(&mut reg, 42, &bytes("7"));
    assert_eq!(r2, AnswerOutcome::Accepted { origin_chat: CHAT });
    assert!(!reg.contains(42));
}

// No reply ever arrives: the deadline bans the member from the origin chat;
// a delayed correct answer afterwards finds no entry and produces no response.
#[test]
fn timeout_bans_and_late_answer_is_ignored() {
    let mut reg = Registry::new();
    register_pending(&mut reg, 42, make_challenge(3, 4), CHAT);

    let d = resolve_deadline(&mut reg, 42);
    assert_eq!(d, DeadlineOutcome::Ban { member_id: 42, origin_chat: CHAT });
    assert!(!reg.contains(42));

    let late = verify_answer(&mut reg, 42, &bytes("7"));
    assert_eq!(late, AnswerOutcome::NoPending);
}

// Two members join in one event: independent questions, independent entries;
// one member answering correctly leaves the other's entry untouched.
#[test]
fn simultaneous_joiners_are_independent() {
    let mut reg = Registry::new();
    register_pending(&mut reg, 1, make_challenge(3, 4), CHAT);
    register_pending(&mut reg, 2, make_challenge(9, 10), CHAT);

    let r = verify_answer(&mut reg, 1, &bytes("7"));
    assert_eq!(r, AnswerOutcome::Accepted { origin_chat: CHAT });
    assert!(!reg.contains(1));
    assert!(reg.contains(2));
    assert_eq!(
        reg.get(2),
        Some(PendingVerification { expected_answer: 19, origin_chat: CHAT })
    );

    // The second member's challenge still resolves on its own terms.
    let r2 = verify_answer(&mut reg, 2, &bytes("19"));
    assert_eq!(r2, AnswerOutcome::Accepted { origin_chat: CHAT });
}

#[test]
fn at_most_one_resolution_either_order() {
    // Answer first: the later deadline resolves to no action.
    let mut reg = Registry::new();
    register_pending(&mut reg, 7, make_challenge(1, 1), CHAT);
    assert_eq!(
        verify_answer(&mut reg, 7, &bytes("2")),
        AnswerOutcome::Accepted { origin_chat: CHAT }
    );
    assert_eq!(resolve_deadline(&mut reg, 7), DeadlineOutcome::AlreadyResolved);

    // Deadline first: the later answer finds no entry.
    let mut reg2 = Registry::new();
    register_pending(&mut reg2, 7, make_challenge(1, 1), CHAT);
    assert_eq!(
        resolve_deadline(&mut reg2, 7),
        DeadlineOutcome::Ban { member_id: 7, origin_chat: CHAT }
    );
    assert_eq!(verify_answer(&mut reg2, 7, &bytes("2")), AnswerOutcome::NoPending);
}

#[test]
fn non_integer_text_is_not_an_answer() {
    let mut reg = Registry::new();
    register_pending(&mut reg, 42, make_challenge(3, 4), CHAT);
    let r = verify_answer(&mut reg, 42, &bytes("seven"));
    assert_eq!(r, AnswerOutcome::NotAnInteger);
    assert!(reg.contains(42));
}

#[test]
fn answer_without_pending_entry_does_nothing() {
    let mut reg = Registry::new();
    let r = verify_answer(&mut reg, 42, &bytes("7"));
    assert_eq!(r, AnswerOutcome::NoPending);
}

#[test]
fn put_overwrites_last_write_wins() {
    let mut reg = Registry::new();
    reg.put(1, PendingVerification { expected_answer: 3, origin_chat: CHAT });
    reg.put(1, PendingVerification { expected_answer: 9, origin_chat: CHAT });
    assert_eq!(
        reg.take_if_present(1),
        Some(PendingVerification { expected_answer: 9, origin_chat: CHAT })
    );
    assert_eq!(reg.take_if_present(1), None);
}

#[test]
fn kick_requires_a_reply() {
    assert_eq!(
        kick_decision(CHAT, Some(Some(99))),
        KickOutcome::Ban { chat_id: CHAT, user_id: 99 }
    );
    assert_eq!(kick_decision(CHAT, Some(None)), KickOutcome::NoAuthor);
    assert_eq!(kick_decision(CHAT, None), KickOutcome::UsageHint { chat_id: CHAT });
}
