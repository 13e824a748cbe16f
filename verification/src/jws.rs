//! The compact form of a signed token: three segments separated by dots.

use vstd::prelude::*;

verus! {

/// How many full stops `text` holds.
pub open spec fn dot_count(text: Seq<char>) -> nat
    decreases text.len(),
{
    if text.len() == 0 {
        0
    } else {
        dot_count(text.drop_last()) + if text.last() == '.' {
            1nat
        } else {
            0nat
        }
    }
}

/// How many dot-separated segments `token` consists of. The empty text is
/// one empty segment.
pub open spec fn segment_count(token: Seq<char>) -> nat {
    dot_count(token) + 1
}

/// The bytes that the claims segment of `token`, its second dot-separated
/// segment, stands for in unpadded base64url; `None` where there is no second
/// segment or it is not such an encoding.
pub uninterp spec fn jws_payload(token: Seq<char>) -> Option<Seq<u8>>;

/// The views of what decoding returned.
pub open spec fn payload_bytes(decoded: Option<Vec<u8>>) -> Option<Seq<u8>> {
    match decoded {
        None => None,
        Some(bytes) => Some(bytes@),
    }
}

/// Splits `token` with `biscuit::jws::Compact::new_encoded` and decodes its
/// second segment with `unverified_payload`, read as plain bytes. No
/// signature is checked. The contract only names the outcome: it is the same
/// for the same token.
#[verifier::external_body]
pub(crate) fn unverified_payload(token: &str) -> (decoded: Option<Vec<u8>>)
    ensures
        payload_bytes(decoded) == jws_payload(token@),
{
    biscuit::jws::Compact::<Vec<u8>, biscuit::Empty>::new_encoded(token).unverified_payload().ok()
}

/// Concatenation adds up the full stops.
pub proof fn lemma_dot_count_concat(a: Seq<char>, b: Seq<char>)
    ensures
        dot_count(a + b) == dot_count(a) + dot_count(b),
    decreases b.len(),
{
    if b.len() == 0 {
        assert(a + b == a);
    } else {
        assert((a + b).drop_last() == a + b.drop_last());
        lemma_dot_count_concat(a, b.drop_last());
    }
}

/// A full stop alone counts one.
pub proof fn lemma_dot_count_one()
    ensures
        dot_count(seq!['.']) == 1,
{
    assert(seq!['.'].drop_last() =~= Seq::<char>::empty());
    assert(dot_count(seq!['.'].drop_last()) == 0);
}

/// A text without a full stop counts none.
pub proof fn lemma_dot_count_none(a: Seq<char>)
    requires
        forall|i: int| 0 <= i < a.len() ==> a[i] != '.',
    ensures
        dot_count(a) == 0,
    decreases a.len(),
{
    if a.len() > 0 {
        lemma_dot_count_none(a.drop_last());
    }
}

/// Tells whether `token` consists of exactly three dot-separated segments.
pub fn has_three_segments(token: &str) -> (b: bool)
    ensures
        b == (segment_count(token@) == 3),
{
    let mut seen: u8 = 0;
    for c in it: token.chars()
        invariant
            it.seq() == token@,
            seen <= 3,
            seen < 3 ==> seen == dot_count(token@.take(it.index() as int)),
            seen == 3 ==> dot_count(token@.take(it.index() as int)) >= 3,
    {
        assert(token@.take(it.index() + 1).drop_last() == token@.take(it.index() as int));
        if c == '.' && seen < 3 {
            seen = seen + 1;
        }
    }
    assert(token@.take(token@.len() as int) == token@);
    seen == 2
}

} // verus!
