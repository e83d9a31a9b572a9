//! Text carried in frames: UTF-8 in a run of bytes, and fixed-width fields
//! padded with NUL.

use vstd::prelude::*;
use vstd::utf8::{decode_utf8, valid_utf8};

verus! {

/// `String::from_utf8`: succeeds exactly on well-formed UTF-8, and then holds
/// the characters that the bytes encode.
#[verifier::external_body]
pub(crate) fn string_from_utf8(bytes: Vec<u8>) -> (r: Option<String>)
    ensures
        r is Some <==> valid_utf8(bytes@),
        r is Some ==> r->0@ == decode_utf8(bytes@),
{
    match String::from_utf8(bytes) {
        Ok(text) => Some(text),
        Err(_) => None,
    }
}

/// The characters that `bytes` encode, where they are well-formed UTF-8.
pub open spec fn text_of(bytes: Seq<u8>) -> Option<Seq<char>> {
    if valid_utf8(bytes) {
        Some(decode_utf8(bytes))
    } else {
        None
    }
}

/// How many bytes of `field` come before its first NUL; the whole length
/// where it holds none.
pub open spec fn text_len(field: Seq<u8>) -> int
    decreases field.len(),
{
    if field.len() == 0 || field[0] == 0 {
        0
    } else {
        1 + text_len(field.drop_first())
    }
}

/// The text of a NUL-padded field: what its bytes before the first NUL
/// encode.
pub open spec fn field_text(field: Seq<u8>) -> Option<Seq<char>> {
    text_of(field.take(text_len(field)))
}

/// `text_len` is the index of the first NUL, or the length.
pub proof fn lemma_text_len(field: Seq<u8>)
    ensures
        0 <= text_len(field) <= field.len(),
        forall|i: int| 0 <= i < text_len(field) ==> field[i] != 0,
        text_len(field) < field.len() ==> field[text_len(field)] == 0,
    decreases field.len(),
{
    if field.len() == 0 || field[0] == 0 {
    } else {
        let rest = field.drop_first();
        lemma_text_len(rest);
        assert forall|i: int| 0 <= i < text_len(field) implies field[i] != 0 by {
            if i > 0 {
                assert(field[i] == rest[i - 1]);
            }
        }
    }
}

/// An index that is at a NUL or the end, with no NUL before it, is `text_len`.
pub proof fn lemma_text_len_is(field: Seq<u8>, n: int)
    requires
        0 <= n <= field.len(),
        forall|i: int| 0 <= i < n ==> field[i] != 0,
        n < field.len() ==> field[n] == 0,
    ensures
        text_len(field) == n,
{
    lemma_text_len(field);
    let m = text_len(field);
    if m < n {
        assert(field[m] == 0);
    } else if n < m {
        assert(field[n] != 0);
    }
}

/// Decodes a NUL-padded text field.
pub(crate) fn read_text(field: &[u8]) -> (text: Option<String>)
    ensures
        text is Some <==> field_text(field@) is Some,
        text is Some ==> text->0@ == field_text(field@)->0,
{
    let mut kept: Vec<u8> = Vec::new();
    let mut i: usize = 0;
    while i < field.len() && field[i] != 0
        invariant
            i <= field@.len(),
            kept@ == field@.take(i as int),
            forall|k: int| 0 <= k < i ==> field@[k] != 0,
        decreases field@.len() - i,
    {
        kept.push(field[i]);
        assert(field@.take(i + 1) == field@.take(i as int).push(field@[i as int]));
        i = i + 1;
    }
    proof {
        lemma_text_len_is(field@, i as int);
    }
    string_from_utf8(kept)
}

} // verus!
