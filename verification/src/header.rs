//! Header values as text: what `http` accepts as a textual header value.

use vstd::prelude::*;

verus! {

/// A byte that `http::HeaderValue::to_str` accepts: visible ASCII or a tab.
pub open spec fn is_visible_ascii(b: u8) -> bool {
    (32 <= b && b < 127) || b == 9
}

/// The header value reads as text: every byte is visible ASCII or a tab.
pub open spec fn is_header_text(value: Seq<u8>) -> bool {
    forall|i: int| 0 <= i < value.len() ==> is_visible_ascii(#[trigger] value[i])
}

/// The text of a header value whose bytes are all ASCII.
pub open spec fn header_text(value: Seq<u8>) -> Seq<char> {
    value.map_values(|b: u8| b as char)
}

/// `http::HeaderValue::to_str` on the header value with these bytes (made a
/// `HeaderValue` by `HeaderValue::from_bytes`, which accepts every byte that
/// `to_str` accepts). The crate's source accepts exactly the values whose bytes
/// are all visible ASCII or tabs, and reads each byte as one character.
#[verifier::external_body]
pub(crate) fn header_value_to_str(value: &[u8]) -> (text: Option<String>)
    ensures
        text is Some <==> is_header_text(value@),
        text matches Some(t) ==> t@ == header_text(value@),
{
    match http::HeaderValue::from_bytes(value) {
        Ok(v) => v.to_str().ok().map(str::to_owned),
        Err(_) => None,
    }
}

} // verus!
