//! HTTP header maps, as the `http` types that `hyper` hands out, and what is known of them.
//!
//! A header map is kept as it is: its contents are spoken of through [`header_fields`],
//! and each operation on it is stated over that.

use hyper::header::{HeaderValue, InvalidHeaderValue, MaxSizeReached, ToStrError};
use hyper::HeaderMap;
use vstd::prelude::*;
use vstd::utf8::encode_utf8;

verus! {

#[verifier::external_type_specification]
#[verifier::external_body]
#[verifier::reject_recursive_types(T)]
pub struct ExHeaderMap<T>(HeaderMap<T>);

#[verifier::external_type_specification]
#[verifier::external_body]
pub struct ExHeaderValue(HeaderValue);

#[verifier::external_type_specification]
#[verifier::external_body]
pub struct ExMaxSizeReached(MaxSizeReached);

#[verifier::external_type_specification]
#[verifier::external_body]
pub struct ExInvalidHeaderValue(InvalidHeaderValue);

#[verifier::external_type_specification]
#[verifier::external_body]
pub struct ExToStrError(ToStrError);

/// What a header map holds: under each name, in lower case, the values stored for it, in the
/// order in which they were added. A name with no value is not a key.
pub uninterp spec fn header_fields(map: HeaderMap) -> Map<Seq<char>, Seq<Seq<u8>>>;

/// The number of names under which a header map holds values.
pub uninterp spec fn header_count(map: HeaderMap) -> nat;

/// The bytes of a header value.
pub uninterp spec fn header_value_bytes(value: HeaderValue) -> Seq<u8>;

/// The least number of names that a header map holds when it takes no further one. The
/// table of a map has at most 32768 slots. A map asks for a larger table only when its
/// names take three quarters of the slots, or a fifth of them while names collide: with the
/// largest table that is 6554 names at least.
pub open spec fn full_count() -> nat {
    6554
}

/// A character of a header name as a map stores it: a capital in lower case, any other
/// character as it is.
pub open spec fn lower_char(c: char) -> char {
    if 'A' <= c && c <= 'Z' {
        (c as u8 + 32) as u8 as char
    } else {
        c
    }
}

/// A header name as a map stores it: with its capitals in lower case.
pub open spec fn lowered(name: Seq<char>) -> Seq<char> {
    Seq::new(name.len(), |i: int| lower_char(name[i]))
}

/// A character of a plain header name: a lower-case letter, a digit or a hyphen.
pub open spec fn plain_name_char(c: char) -> bool {
    ('a' <= c && c <= 'z') || ('0' <= c && c <= '9') || c == '-'
}

/// A name of one to 64 characters, lower-case letters, digits and hyphens only. Every such
/// name is a valid header name that the map stores as it is written.
pub open spec fn plain_name(name: Seq<char>) -> bool {
    &&& 0 < name.len() <= 64
    &&& forall|i: int| 0 <= i < name.len() ==> plain_name_char(#[trigger] name[i])
}

/// A byte that may stand in a header value: a tab, or anything from the space up but DEL.
pub open spec fn value_byte(b: u8) -> bool {
    (b >= 32 && b != 127) || b == 9
}

/// A byte of a header value that reads as text: visible ASCII, a space or a tab.
pub open spec fn text_byte(b: u8) -> bool {
    (b >= 32 && b < 127) || b == 9
}

/// Every byte may stand in a header value.
pub open spec fn is_value(bytes: Seq<u8>) -> bool {
    forall|i: int| 0 <= i < bytes.len() ==> value_byte(#[trigger] bytes[i])
}

/// Every byte reads as text.
pub open spec fn is_text(bytes: Seq<u8>) -> bool {
    forall|i: int| 0 <= i < bytes.len() ==> text_byte(#[trigger] bytes[i])
}

/// ASCII bytes read as characters, one for one.
pub open spec fn ascii_text(bytes: Seq<u8>) -> Seq<char> {
    Seq::new(bytes.len(), |i: int| bytes[i] as char)
}

/// The first value stored under `name`, read as text; nothing where no value is stored or
/// the first one does not read as text.
pub open spec fn header_text(fields: Map<Seq<char>, Seq<Seq<u8>>>, name: Seq<char>) -> Option<
    Seq<char>,
> {
    if fields.contains_key(name) && is_text(fields[name][0]) {
        Some(ascii_text(fields[name][0]))
    } else {
        None
    }
}

/// The first value stored under `name`, if any.
pub open spec fn first_value(fields: Map<Seq<char>, Seq<Seq<u8>>>, name: Seq<char>) -> Option<
    Seq<u8>,
> {
    if fields.contains_key(name) {
        Some(fields[name][0])
    } else {
        None
    }
}

/// `http::HeaderMap::get` with a `&str` key. The map looks the name up with its capitals in
/// lower case: the result is the first value stored under that, and `None` where none is
/// stored. A text that is no header name is stored nowhere, so it gives `None` as well.
#[verifier::external_body]
pub(crate) fn header_get<'a>(map: &'a HeaderMap, name: &str) -> (value: Option<&'a HeaderValue>)
    ensures
        match value {
            Some(v) => first_value(header_fields(*map), lowered(name@)) == Some(
                header_value_bytes(*v),
            ),
            None => first_value(header_fields(*map), lowered(name@)) is None,
        },
{
    map.get(name)
}

/// `http::HeaderMap::remove` with a `&str` key. Every value stored under the name leaves the
/// map, the other names keep theirs, and the first of the removed values is returned. The
/// map holds no more names than before.
#[verifier::external_body]
pub(crate) fn header_remove(map: &mut HeaderMap, name: &str) -> (value: Option<HeaderValue>)
    requires
        plain_name(name@),
    ensures
        header_fields(*final(map)) == header_fields(*old(map)).remove(name@),
        header_count(*final(map)) <= header_count(*old(map)),
        match value {
            Some(v) => first_value(header_fields(*old(map)), name@) == Some(
                header_value_bytes(v),
            ),
            None => first_value(header_fields(*old(map)), name@) is None,
        },
{
    map.remove(name)
}

/// `http::HeaderMap::try_insert` with a `&'static str` key. On success the name holds the new
/// value alone, the other names keep theirs, the map holds at most one name more, and the
/// first of the values that the name held before is returned. It fails only when the table
/// of the map would have to grow beyond its largest size, which no map with fewer than
/// [`full_count`] names asks for; the map then holds what it held before.
#[verifier::external_body]
pub(crate) fn header_try_insert(map: &mut HeaderMap, name: &'static str, value: HeaderValue)
    -> (done: Result<Option<HeaderValue>, MaxSizeReached>)
    requires
        plain_name(name@),
    ensures
        match done {
            Ok(before) => {
                &&& header_fields(*final(map)) == header_fields(*old(map)).insert(
                    name@,
                    seq![header_value_bytes(value)],
                )
                &&& header_count(*final(map)) <= header_count(*old(map)) + 1
                &&& match before {
                    Some(v) => first_value(header_fields(*old(map)), name@) == Some(
                        header_value_bytes(v),
                    ),
                    None => first_value(header_fields(*old(map)), name@) is None,
                }
            },
            Err(_) => {
                &&& header_fields(*final(map)) == header_fields(*old(map))
                &&& header_count(*final(map)) == header_count(*old(map))
                &&& header_count(*old(map)) >= full_count()
            },
        },
{
    map.try_insert(name, value)
}

/// `http::HeaderValue::from_str`. It succeeds exactly when every byte of the text may stand in
/// a header value, and the value then holds the bytes of the text, its UTF-8 encoding.
#[verifier::external_body]
pub(crate) fn value_from_str(text: &str) -> (value: Result<HeaderValue, InvalidHeaderValue>)
    ensures
        value is Ok <==> is_value(encode_utf8(text@)),
        value matches Ok(v) ==> header_value_bytes(v) == encode_utf8(text@),
{
    HeaderValue::from_str(text)
}

/// `http::HeaderValue::to_str`. It succeeds exactly when every byte of the value reads as
/// text, and then yields those bytes as characters.
#[verifier::external_body]
pub(crate) fn value_to_str<'a>(value: &'a HeaderValue) -> (text: Result<&'a str, ToStrError>)
    ensures
        text is Ok <==> is_text(header_value_bytes(*value)),
        text matches Ok(t) ==> t@ == ascii_text(header_value_bytes(*value)),
{
    value.to_str()
}

/// A plain name is stored as it is written.
pub proof fn lemma_plain_name_is_lowered(name: Seq<char>)
    requires
        plain_name(name),
    ensures
        lowered(name) == name,
{
    assert(lowered(name) =~= name);
}

/// The first value of the header `name`, where it reads as text. The letter case of `name`
/// does not count.
pub fn get_header<'a>(headers: &'a HeaderMap, name: &str) -> (text: Option<&'a str>)
    ensures
        match text {
            Some(t) => header_text(header_fields(*headers), lowered(name@)) == Some(t@),
            None => header_text(header_fields(*headers), lowered(name@)) is None,
        },
{
    match header_get(headers, name) {
        Some(value) => match value_to_str(value) {
            Ok(text) => Some(text),
            Err(_) => None,
        },
        None => None,
    }
}

} // verus!
