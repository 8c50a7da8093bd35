//! The content filter: a stateless predicate over a fixed set of banned
//! substrings. It sees every text message, whatever the sender's
//! verification status; on a match the message is to be deleted and a notice
//! posted. Texts are handled as their UTF-8 bytes.

use vstd::prelude::*;

verus! {

/// Whether `pat` occurs in `text` starting at position `i`.
pub open spec fn contains_sub_at(text: Seq<u8>, pat: Seq<u8>, i: int) -> bool {
    &&& 0 <= i
    &&& i + pat.len() <= text.len()
    &&& text.subrange(i, i + pat.len()) == pat
}

/// Whether `pat` occurs anywhere in `text` as a contiguous substring.
pub open spec fn contains_sub(text: Seq<u8>, pat: Seq<u8>) -> bool {
    exists|i: int| contains_sub_at(text, pat, i)
}

/// The UTF-8 bytes of the banned word for unsolicited advertising.
pub open spec fn word_advert() -> Seq<u8> {
    seq![0xe5u8, 0xb9u8, 0xbfu8, 0xe5u8, 0x91u8, 0x8au8]
}

/// The UTF-8 bytes of the banned word for junk content.
pub open spec fn word_junk() -> Seq<u8> {
    seq![0xe5u8, 0x9eu8, 0x83u8, 0xe5u8, 0x9cu8, 0xbeu8]
}

/// The UTF-8 bytes of the banned phrase for malicious links.
pub open spec fn word_malicious_link() -> Seq<u8> {
    seq![0xe6u8, 0x81u8, 0xb6u8, 0xe6u8, 0x84u8, 0x8fu8, 0xe9u8, 0x93u8, 0xbeu8, 0xe6u8, 0x8eu8, 0xa5u8]
}

/// The fixed list of banned substrings.
pub open spec fn spec_banned_words() -> Seq<Seq<u8>> {
    seq![word_advert(), word_junk(), word_malicious_link()]
}

/// Whether a text contains any banned substring and must therefore be
/// deleted with a notice posted.
pub open spec fn is_banned(text: Seq<u8>) -> bool {
    exists|k: int|
        0 <= k < spec_banned_words().len() && contains_sub(text, #[trigger] spec_banned_words()[k])
}

/// Whether `pat` occurs in `text` as a contiguous run of bytes, by a direct
/// scan of every starting position.
pub fn find_substring(text: &Vec<u8>, pat: &Vec<u8>) -> (r: bool)
    ensures
        r == contains_sub(text@, pat@),
{
    let n = text.len();
    let m = pat.len();
    if m > n {
        return false;
    }
    let mut i: usize = 0;
    while i <= n - m
        invariant
            m <= n,
            n == text@.len(),
            m == pat@.len(),
            i <= n - m + 1,
            forall|k: int| 0 <= k < i ==> !contains_sub_at(text@, pat@, k),
        decreases n - m - i + 1,
    {
        let mut j: usize = 0;
        while j < m && text[i + j] == pat[j]
            invariant
                m <= n,
                n == text@.len(),
                m == pat@.len(),
                i <= n - m,
                j <= m,
                forall|k: int| 0 <= k < j ==> text@[i + k] == pat@[k],
            decreases m - j,
        {
            j = j + 1;
        }
        if j == m {
            proof {
                assert(text@.subrange(i as int, i + m) =~= pat@);
                assert(contains_sub_at(text@, pat@, i as int));
            }
            return true;
        }
        proof {
            assert(text@[i + j] != pat@[j as int]);
            assert(!contains_sub_at(text@, pat@, i as int)) by {
                if contains_sub_at(text@, pat@, i as int) {
                    assert(text@.subrange(i as int, i + m)[j as int] == text@[i + j]);
                }
            }
        }
        i = i + 1;
    }
    proof {
        assert(!contains_sub(text@, pat@)) by {
            if contains_sub(text@, pat@) {
                let w = choose|w: int| contains_sub_at(text@, pat@, w);
                assert(w < i);
            }
        }
    }
    false
}

/// Whether the text contains any of the given words.
pub fn contains_any(text: &Vec<u8>, words: &Vec<Vec<u8>>) -> (r: bool)
    ensures
        r == (exists|k: int| 0 <= k < words@.len() && contains_sub(text@, #[trigger] words@[k]@)),
{
    let mut k: usize = 0;
    while k < words.len()
        invariant
            k <= words@.len(),
            forall|j: int| 0 <= j < k ==> !contains_sub(text@, #[trigger] words@[j]@),
        decreases words@.len() - k,
    {
        if find_substring(text, &words[k]) {
            return true;
        }
        k = k + 1;
    }
    false
}

/// The banned words, as the list the filter scans every message for.
pub fn banned_words() -> (r: Vec<Vec<u8>>)
    ensures
        r@.len() == spec_banned_words().len(),
        forall|k: int| 0 <= k < r@.len() ==> #[trigger] r@[k]@ == spec_banned_words()[k],
{
    let w0: Vec<u8> = vec![0xe5, 0xb9, 0xbf, 0xe5, 0x91, 0x8a];
    let w1: Vec<u8> = vec![0xe5, 0x9e, 0x83, 0xe5, 0x9c, 0xbe];
    let w2: Vec<u8> = vec![0xe6, 0x81, 0xb6, 0xe6, 0x84, 0x8f, 0xe9, 0x93, 0xbe, 0xe6, 0x8e, 0xa5];
    proof {
        assert(w0@ =~= word_advert());
        assert(w1@ =~= word_junk());
        assert(w2@ =~= word_malicious_link());
    }
    let r: Vec<Vec<u8>> = vec![w0, w1, w2];
    r
}

/// Whether the message must be deleted: true exactly when the text holds a
/// banned substring. Independent of all verification state.
pub fn message_violates(text: &Vec<u8>) -> (r: bool)
    ensures
        r == is_banned(text@),
{
    let words = banned_words();
    let r = contains_any(text, &words);
    proof {
        if r {
            let k = choose|k: int| 0 <= k < words@.len() && contains_sub(text@, #[trigger] words@[k]@);
            assert(contains_sub(text@, spec_banned_words()[k]));
        } else if is_banned(text@) {
            let k = choose|k: int|
                0 <= k < spec_banned_words().len() && contains_sub(
                    text@,
                    #[trigger] spec_banned_words()[k],
                );
            assert(contains_sub(text@, words@[k]@));
        }
    }
    r
}

} // verus!
