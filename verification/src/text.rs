//! Text as the server sends it: a buffer of bytes that ends at the first zero
//! byte, or nothing at all.

use vstd::prelude::*;
use vstd::slice::slice_subrange;
use vstd::utf8::decode_utf8;
use vstd::utf8::valid_utf8;

verus! {

/// The number of bytes of `bytes` that stand before its first zero byte; all
/// of them if it holds none.
pub open spec fn terminated_len(bytes: Seq<u8>) -> int
    decreases bytes.len(),
{
    if bytes.len() == 0 || bytes[0] == 0 {
        0
    } else {
        1 + terminated_len(bytes.subrange(1, bytes.len() as int))
    }
}

/// The bytes of `bytes` that stand before its first zero byte.
pub open spec fn terminated(bytes: Seq<u8>) -> Seq<u8> {
    bytes.subrange(0, terminated_len(bytes))
}

/// The text that a raw payload holds: the characters that its bytes, up to
/// the first zero byte, encode. A missing payload holds no text, and neither
/// do bytes that are no valid encoding.
pub open spec fn text_of(raw: Option<Seq<u8>>) -> Option<Seq<char>> {
    match raw {
        Some(bytes) => if valid_utf8(terminated(bytes)) {
            Some(decode_utf8(terminated(bytes)))
        } else {
            None
        },
        None => None,
    }
}

/// The view of a raw payload.
pub open spec fn raw_view(raw: Option<&[u8]>) -> Option<Seq<u8>> {
    match raw {
        Some(bytes) => Some(bytes@),
        None => None,
    }
}

/// The view of a decoded text.
pub open spec fn text_view(text: Option<&str>) -> Option<Seq<char>> {
    match text {
        Some(s) => Some(s@),
        None => None,
    }
}

/// A position with no zero byte before it and none missing at it is the
/// terminated length.
pub proof fn lemma_terminated_len_unique(bytes: Seq<u8>, n: int)
    requires
        0 <= n <= bytes.len(),
        forall|i: int| 0 <= i < n ==> bytes[i] != 0,
        n < bytes.len() ==> bytes[n] == 0,
    ensures
        terminated_len(bytes) == n,
    decreases bytes.len(),
{
    if bytes.len() == 0 || bytes[0] == 0 {
        if n > 0 {
            assert(bytes[0] != 0);
        }
    } else {
        let rest = bytes.subrange(1, bytes.len() as int);
        assert(n > 0);
        assert forall|i: int| 0 <= i < n - 1 implies rest[i] != 0 by {
            assert(rest[i] == bytes[i + 1]);
        }
        lemma_terminated_len_unique(rest, n - 1);
    }
}

/// Cuts a buffer at its first zero byte.
pub fn until_nul(bytes: &[u8]) -> (head: &[u8])
    ensures
        head@ == terminated(bytes@),
{
    let mut n: usize = 0;
    while n < bytes.len() && bytes[n] != 0
        invariant
            n <= bytes@.len(),
            forall|i: int| 0 <= i < n ==> bytes@[i] != 0,
        decreases bytes@.len() - n,
    {
        n = n + 1;
    }
    proof {
        lemma_terminated_len_unique(bytes@, n as int);
    }
    slice_subrange(bytes, 0, n)
}

/// Reads bytes as UTF-8 with `std::str::from_utf8`. The text is there exactly
/// when the bytes are a valid encoding, and then holds the characters that
/// they encode.
#[verifier::external_body]
fn str_from_utf8(bytes: &[u8]) -> (text: Option<&str>)
    ensures
        text is Some <==> valid_utf8(bytes@),
        text matches Some(s) ==> s@ == decode_utf8(bytes@),
{
    std::str::from_utf8(bytes).ok()
}

/// Decodes a raw payload into text.
pub fn decode_text<'a>(raw: Option<&'a [u8]>) -> (text: Option<&'a str>)
    ensures
        text_view(text) == text_of(raw_view(raw)),
{
    match raw {
        Some(bytes) => str_from_utf8(until_nul(bytes)),
        None => None,
    }
}

} // verus!
