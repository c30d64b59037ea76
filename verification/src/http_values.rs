//! What the `http` crate decides about header values and status codes.

use vstd::prelude::*;

verus! {

/// A byte that `HeaderValue::to_str` accepts: tab or visible ASCII.
pub open spec fn visible_header_byte(b: u8) -> bool {
    b == 9 || (32 <= b && b < 127)
}

/// Every byte of `b` is tab or visible ASCII.
pub open spec fn header_text_ok(b: Seq<u8>) -> bool {
    forall|i: int| 0 <= i < b.len() ==> visible_header_byte(#[trigger] b[i])
}

/// The characters of bytes read one byte per character.
pub open spec fn bytes_as_chars(b: Seq<u8>) -> Seq<char> {
    Seq::new(b.len(), |i: int| b[i] as char)
}

/// A character that `HeaderValue::from_str` accepts: tab, or any character whose
/// UTF-8 bytes are all at least 32 and none is 127.
pub open spec fn header_value_char(c: char) -> bool {
    c == '\t' || (c as u32 >= 32 && c as u32 != 127)
}

/// `http::HeaderValue::from_bytes` followed by `HeaderValue::to_str`. Claimed, as
/// the `http` source shows: a text comes back exactly when every byte is a tab or
/// visible ASCII, and then it is the bytes read as characters.
#[verifier::external_body]
pub(crate) fn header_value_text(bytes: &[u8]) -> (r: Option<String>)
    ensures
        r is Some <==> header_text_ok(bytes@),
        r matches Some(s) ==> s@ == bytes_as_chars(bytes@),
{
    match http::HeaderValue::from_bytes(bytes) {
        Ok(value) => match value.to_str() {
            Ok(s) => Some(s.to_string()),
            Err(_) => None,
        },
        Err(_) => None,
    }
}

/// `http::HeaderValue::from_str(s).is_ok()`. Claimed, as the `http` source shows:
/// true exactly when every character of `s` is a valid header-value character.
#[verifier::external_body]
pub(crate) fn is_header_value(s: &str) -> (r: bool)
    ensures
        r == forall|i: int| 0 <= i < s@.len() ==> header_value_char(#[trigger] s@[i]),
{
    http::HeaderValue::from_str(s).is_ok()
}

/// `http::StatusCode::from_u16(code)` then `is_success`. Claimed, as the `http`
/// source shows: true exactly for codes 200 to 299 (a code outside 100..=999
/// is no status code and counts as no success).
#[verifier::external_body]
pub(crate) fn status_is_success(code: u16) -> (r: bool)
    ensures
        r == (200 <= code && code < 300),
{
    match http::StatusCode::from_u16(code) {
        Ok(status) => status.is_success(),
        Err(_) => false,
    }
}

} // verus!
