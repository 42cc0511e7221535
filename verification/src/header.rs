//! Header maps: what they hold, and which names and values they take.

use vstd::prelude::*;
use vstd::utf8::encode_utf8;
use reqwest::header::{HeaderMap, HeaderValue};

verus! {

/// `reqwest::header::HeaderMap`, the header map of the `http` crate. What
/// one holds is known through `header_map_entries` alone.
#[verifier::external_type_specification]
#[verifier::external_body]
#[verifier::reject_recursive_types(T)]
pub struct ExHeaderMap<T>(reqwest::header::HeaderMap<T>);

/// `reqwest::header::HeaderValue`, the header value of the `http` crate.
#[verifier::external_type_specification]
#[verifier::external_body]
pub struct ExHeaderValue(reqwest::header::HeaderValue);

/// A map of fewer names than this takes another name in.
pub const HEADER_MAP_NAMES_LIMIT: usize = 4096;

/// What a header map holds: under each name, in lower case, the bytes of
/// the first value of that name.
pub uninterp spec fn header_map_entries(map: HeaderMap<HeaderValue>) -> Map<Seq<char>, Seq<u8>>;

/// Whether `c` is a lower-case letter, a digit or a hyphen.
pub open spec fn is_plain_name_char(c: char) -> bool {
    ||| 'a' as u32 <= c as u32 <= 'z' as u32
    ||| '0' as u32 <= c as u32 <= '9' as u32
    ||| c == '-'
}

/// Whether `name` is a header name of the plainest kind: up to 64
/// lower-case letters, digits and hyphens, and at least one.
pub open spec fn is_plain_header_name(name: Seq<char>) -> bool {
    &&& 1 <= name.len() <= 64
    &&& forall|i: int| 0 <= i < name.len() ==> is_plain_name_char(#[trigger] name[i])
}

/// Whether a header value may hold `c`: anything but the control
/// characters, and among those the tab.
pub open spec fn is_header_char(c: char) -> bool {
    (c as u32 >= 32 && c as u32 != 127) || c == '\t'
}

/// Whether `value` can be a header value.
pub open spec fn is_header_value(value: Seq<char>) -> bool {
    forall|i: int| 0 <= i < value.len() ==> is_header_char(#[trigger] value[i])
}

/// What an empty map holds.
pub open spec fn no_entries() -> Map<Seq<char>, Seq<u8>> {
    Map::empty()
}

/// Whether a map has room for another name.
pub open spec fn has_room(entries: Map<Seq<char>, Seq<u8>>) -> bool {
    entries.dom().finite() && entries.dom().len() < HEADER_MAP_NAMES_LIMIT
}

/// Makes an empty map with `reqwest::header::HeaderMap::new`.
#[verifier::external_body]
pub(crate) fn header_map_new() -> (headers: HeaderMap)
    ensures
        header_map_entries(headers) == no_entries(),
{
    reqwest::header::HeaderMap::new()
}

/// Puts `value` under `name` with `reqwest::header::HeaderMap::insert`,
/// after `reqwest::header::HeaderValue::from_str` has made a header value
/// of it. `from_str` takes every text but one with a byte that is a
/// control character other than the tab, which no byte of a character
/// beyond ASCII is, and keeps the bytes of the text; `insert` then leaves
/// `value` as the only value of `name` and the other names as they were.
/// Where `from_str` refuses, the map stays as it is.
///
/// `insert` panics on a text that is no header name, and on a map that has
/// grown to 2^15 slots. Names other than plain ones and maps of 4096 names
/// and more are left out here.
#[verifier::external_body]
pub(crate) fn header_map_insert(map: &mut HeaderMap, name: &'static str, value: &str) -> (inserted:
    bool)
    requires
        is_plain_header_name(name@),
        has_room(header_map_entries(*old(map))),
    ensures
        inserted == is_header_value(value@),
        inserted ==> header_map_entries(*final(map)) == header_map_entries(*old(map)).insert(
            name@,
            encode_utf8(value@),
        ),
        !inserted ==> header_map_entries(*final(map)) == header_map_entries(*old(map)),
{
    match reqwest::header::HeaderValue::from_str(value) {
        Ok(value) => {
            map.insert(name, value);
            true
        },
        Err(_) => false,
    }
}

} // verus!
