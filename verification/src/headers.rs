//! Reading request headers out of the HTTP layer's header map.
//!
//! The header map and its values belong to the `http` crate, which `axum`
//! hands on. What this module believes of them without proof is gathered in
//! the first half of the file; everything after it is proved from that.

use axum::http::header::ToStrError;
use axum::http::{HeaderMap, HeaderValue};
use vstd::prelude::*;

verus! {

/// The HTTP layer's header map; nothing inside it is visible here.
#[verifier::external_type_specification]
#[verifier::external_body]
#[verifier::reject_recursive_types(T)]
pub struct ExHeaderMap<T>(HeaderMap<T>);

/// One header value of the HTTP layer; nothing inside it is visible here.
#[verifier::external_type_specification]
#[verifier::external_body]
pub struct ExHeaderValue(HeaderValue);

/// What `HeaderValue::to_str` returns for a value that is not text.
#[verifier::external_type_specification]
#[verifier::external_body]
pub struct ExToStrError(ToStrError);

/// What a header map holds: under each name, as the map keeps it (in lower
/// case), the octets of the values that arrived under it, in the order of
/// their arrival.
pub uninterp spec fn header_fields(headers: &HeaderMap<HeaderValue>) -> Map<Seq<char>, Seq<Seq<u8>>>;

/// The octets that a header value holds.
pub uninterp spec fn value_octets(value: &HeaderValue) -> Seq<u8>;

/// A character of a header name as the header map keeps it: a capital letter
/// of ASCII becomes the small one, every other character stays.
pub open spec fn lower_char(c: char) -> char {
    if 'A' <= c && c <= 'Z' {
        ((c as u8 + 32) as u8) as char
    } else {
        c
    }
}

/// A header name as the header map keeps it, character by character.
pub open spec fn lower_name(name: Seq<char>) -> Seq<char> {
    Seq::new(name.len(), |i: int| lower_char(name[i]))
}

/// Whether a header value's octet may stand in text: printable ASCII, the
/// space and the horizontal tab.
pub open spec fn is_visible_octet(b: u8) -> bool {
    (32 <= b && b < 127) || b == 9
}

/// Whether every octet of a header value may stand in text.
pub open spec fn is_visible_text(octets: Seq<u8>) -> bool {
    forall|i: int| 0 <= i < octets.len() ==> is_visible_octet(#[trigger] octets[i])
}

/// The octets read as text, one character for each octet.
pub open spec fn octets_text(octets: Seq<u8>) -> Seq<char> {
    Seq::new(octets.len(), |i: int| octets[i] as char)
}

/// `HeaderMap::get`, called with the name as a `&str`. The map compares names
/// without regard to the case of ASCII letters, by bringing the name asked for
/// into lower case; a name that no header can have finds nothing. The result
/// is the first value that arrived under the name, and `None` where none did.
#[verifier::external_body]
fn first_value<'a>(headers: &'a HeaderMap<HeaderValue>, name: &str) -> (value: Option<
    &'a HeaderValue,
>)
    ensures
        value is Some <==> header_fields(headers).contains_key(lower_name(name@)),
        value matches Some(v) ==> header_fields(headers)[lower_name(name@)].len() > 0
            && value_octets(v) == header_fields(headers)[lower_name(name@)][0],
{
    headers.get(name)
}

/// `HeaderValue::to_str` succeeds exactly on a value whose octets all are
/// visible, and then hands out these octets unchanged as a string slice; it
/// fails on any other value.
pub assume_specification[ HeaderValue::to_str ](value: &HeaderValue) -> (text: Result<
    &str,
    ToStrError,
>)
    ensures
        text is Ok <==> is_visible_text(value_octets(value)),
        text matches Ok(s) ==> s@ == octets_text(value_octets(value)),
;

/// The text of the header `name` among `fields`: that of the first value under
/// the name where there is one and it is text, and nothing otherwise.
pub open spec fn field_text(fields: Map<Seq<char>, Seq<Seq<u8>>>, name: Seq<char>) -> Option<
    Seq<char>,
> {
    if fields.contains_key(name) && is_visible_text(fields[name][0]) {
        Some(octets_text(fields[name][0]))
    } else {
        None
    }
}

/// Looks the header `name` up, in whatever case its letters are written, and
/// returns its value as text. A header that is missing and one whose first
/// value is not text both give `None`.
pub fn header_str<'a>(headers: &'a HeaderMap<HeaderValue>, name: &str) -> (text: Option<&'a str>)
    ensures
        text.deep_view() == field_text(header_fields(headers), lower_name(name@)),
{
    match first_value(headers, name) {
        Some(value) => match value.to_str() {
            Ok(s) => Some(s),
            Err(_) => None,
        },
        None => None,
    }
}

} // verus!
