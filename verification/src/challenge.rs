//! The challenge generator: a human-solvable arithmetic question for a newly
//! joined member. Two operands are drawn from 1 through 10 and the member
//! must reply with their sum within the deadline.

use vstd::prelude::*;
use rand::Rng;

verus! {

/// One generated question: the two operands shown to the member and the sum
/// the member must reply with.
#[derive(Clone, Copy, Debug, PartialEq, Eq, Structural)]
pub struct Challenge {
    /// First operand of the question, in 1 through 10.
    pub a: i32,
    /// Second operand of the question, in 1 through 10.
    pub b: i32,
    /// The correct response: the sum of the two operands.
    pub expected_answer: i32,
}

/// A well-formed challenge: both operands lie in 1 through 10 and the
/// expected answer is exactly their sum.
pub open spec fn challenge_wf(c: Challenge) -> bool {
    &&& 1 <= c.a <= 10
    &&& 1 <= c.b <= 10
    &&& c.expected_answer == c.a + c.b
}

/// Builds the challenge for the given operands; the expected answer is their
/// sum and therefore lies in 2 through 20.
pub fn make_challenge(a: i32, b: i32) -> (c: Challenge)
    requires
        1 <= a <= 10,
        1 <= b <= 10,
    ensures
        c.a == a,
        c.b == b,
        c.expected_answer == a + b,
        challenge_wf(c),
        2 <= c.expected_answer <= 20,
{
    Challenge { a, b, expected_answer: a + b }
}

/// Relies on rand::thread_rng and rand::Rng::gen_range: for the non-empty
/// range 1..11 the call returns a value drawn uniformly from it, so the
/// result lies in 1 through 10. Nothing else holds of any one outcome.
#[verifier::external_body]
fn random_operand() -> (r: i32)
    ensures
        1 <= r <= 10,
{
    rand::thread_rng().gen_range(1..11)
}

/// Draws both operands independently at random and returns the resulting
/// challenge. Re-callable indefinitely; no state, no failure modes.
pub fn generate_challenge() -> (c: Challenge)
    ensures
        challenge_wf(c),
        2 <= c.expected_answer <= 20,
{
    let a = random_operand();
    let b = random_operand();
    make_challenge(a, b)
}

} // verus!
