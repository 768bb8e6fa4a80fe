//! Text helpers: comparing strings, decoding header values, searching.

use actix_web::http::header::HeaderValue;
use vstd::prelude::*;
use vstd::utf8::*;

verus! {

/// Whether `a` and `b` hold the same text.
pub fn text_eq(a: &str, b: &str) -> (same: bool)
    ensures
        same == (a@ == b@),
{
    let x = a.as_bytes();
    let y = b.as_bytes();
    if x.len() != y.len() {
        return false;
    }
    let mut i: usize = 0;
    while i < x.len()
        invariant
            x@ == encode_utf8(a@),
            y@ == encode_utf8(b@),
            x@.len() == y@.len(),
            i <= x@.len(),
            forall|j: int| 0 <= j < i ==> x@[j] == y@[j],
        decreases x@.len() - i,
    {
        if x[i] != y[i] {
            return false;
        }
        i += 1;
    }
    proof {
        // Equal encodings decode to equal texts.
        assert(x@ =~= y@);
        encode_utf8_decode_utf8(a@);
        encode_utf8_decode_utf8(b@);
    }
    true
}

/// A byte that a header value may show as text: printable ASCII or a tab.
pub open spec fn is_visible_ascii(b: u8) -> bool {
    (32 <= b && b < 127) || b == 9
}

/// Whether every byte of `bytes` is visible ASCII.
pub open spec fn all_visible_ascii(bytes: Seq<u8>) -> bool {
    forall|i: int| 0 <= i < bytes.len() ==> is_visible_ascii(#[trigger] bytes[i])
}

/// The characters that ASCII bytes stand for, one per byte.
pub open spec fn ascii_chars(bytes: Seq<u8>) -> Seq<char> {
    Seq::new(bytes.len(), |i: int| bytes[i] as char)
}

/// Whether `needle` occurs in `hay` as a contiguous run.
pub open spec fn occurs_in(needle: Seq<char>, hay: Seq<char>) -> bool {
    exists|i: int|
        0 <= i && i + needle.len() <= hay.len() && #[trigger] hay.subrange(
            i,
            i + needle.len(),
        ) == needle
}

/// Calls `HeaderValue::from_bytes` and then `HeaderValue::to_str` of the
/// `http` crate, as `actix_web` re-exports it. `to_str` yields the value as
/// text when every byte is printable ASCII or a tab and fails otherwise;
/// `from_bytes` refuses only bytes that `to_str` would refuse too. So the
/// result is the bytes read as ASCII when all are visible, and `None` when
/// one is not.
#[verifier::external_body]
pub(crate) fn header_text(value: &[u8]) -> (text: Option<String>)
    ensures
        text matches Some(t) ==> all_visible_ascii(value@) && t@ == ascii_chars(value@),
        text is None ==> !all_visible_ascii(value@),
{
    match HeaderValue::from_bytes(value) {
        Ok(v) => match v.to_str() {
            Ok(s) => Some(s.to_string()),
            Err(_) => None,
        },
        Err(_) => None,
    }
}

/// std's error for bytes that are not UTF-8.
#[verifier::external_type_specification]
#[verifier::external_body]
pub struct ExFromUtf8Error(std::string::FromUtf8Error);

/// std's `String::from_utf8` succeeds exactly on valid UTF-8, and the string
/// then holds the text that the bytes encode.
pub assume_specification[ String::from_utf8 ](bytes: Vec<u8>) -> (text: Result<
    String,
    std::string::FromUtf8Error,
>)
    ensures
        match text {
            Ok(t) => valid_utf8(bytes@) && t@ == decode_utf8(bytes@),
            Err(_) => !valid_utf8(bytes@),
        },
;

/// Calls std's `str::contains` with a string pattern, which is true exactly
/// when the pattern equals some sub-slice of the string.
#[verifier::external_body]
pub(crate) fn contains_text(hay: &str, needle: &str) -> (found: bool)
    ensures
        found == occurs_in(needle@, hay@),
{
    hay.contains(needle)
}

} // verus!
