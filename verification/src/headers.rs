//! The header collection of the `http` crate, as this library sees it.
//!
//! A header map is read as a mathematical map from a header's name, in lower
//! case, to the values stored under it, first value first. What the `http`
//! crate does is not proved here: each function that calls it states what the
//! crate's own code does, and the library is proved against these statements.

use http::header::{HeaderMap, HeaderName, HeaderValue, InvalidHeaderValue};
use vstd::prelude::*;
use vstd::string::*;

verus! {

/// The `http` crate's `HeaderMap`, of which the proofs see `header_entries`
/// alone.
#[verifier::external_type_specification]
#[verifier::external_body]
#[verifier::reject_recursive_types(T)]
pub struct ExHeaderMap<T>(HeaderMap<T>);

/// The `http` crate's `HeaderName`, of which the proofs see
/// `header_name_text` alone.
#[verifier::external_type_specification]
#[verifier::external_body]
pub struct ExHeaderName(HeaderName);

/// The `http` crate's `HeaderValue`, of which the proofs see
/// `header_value_bytes` alone.
#[verifier::external_type_specification]
#[verifier::external_body]
pub struct ExHeaderValue(HeaderValue);

/// The `http` crate's `InvalidHeaderValue`: the refusal of a text as a header
/// value. It is carried, never looked into.
#[verifier::external_type_specification]
#[verifier::external_body]
pub struct ExInvalidHeaderValue(InvalidHeaderValue);

/// What a header map holds: for each name present, the values stored under
/// it, in the order in which the map hands them out.
pub uninterp spec fn header_entries(map: HeaderMap<HeaderValue>) -> Map<Seq<char>, Seq<Seq<u8>>>;

/// The text of a header name, which the `http` crate keeps in lower case.
pub uninterp spec fn header_name_text(name: HeaderName) -> Seq<char>;

/// The bytes of a header value.
pub uninterp spec fn header_value_bytes(value: HeaderValue) -> Seq<u8>;

/// The number of distinct names up to which a header map takes one more name
/// without fail. The map of the `http` crate refuses to grow beyond 32768
/// slots and may double its slots early; with at most this many names it
/// never reaches that limit.
pub const MAX_NAMES: usize = 4096;

/// The contents of a header map that holds nothing.
pub open spec fn no_entries() -> Map<Seq<char>, Seq<Seq<u8>>> {
    Map::empty()
}

/// There is room in `entries` for `more` further names.
pub open spec fn has_room(entries: Map<Seq<char>, Seq<Seq<u8>>>, more: nat) -> bool {
    entries.dom().finite() && entries.dom().len() + more <= MAX_NAMES
}

/// A byte that the `http` crate accepts inside a header value: a horizontal
/// tab, or anything from the space upwards except DEL.
pub open spec fn is_value_byte(b: u8) -> bool {
    (b >= 32 && b != 127) || b == 9
}

/// Every byte of `bytes` may stand in a header value.
pub open spec fn is_value_text(bytes: Seq<u8>) -> bool {
    forall|i: int| 0 <= i < bytes.len() ==> is_value_byte(#[trigger] bytes[i])
}

/// The four standard headers that request construction sets.
#[derive(Clone, Copy, Debug, PartialEq, Eq, Structural)]
pub enum Known {
    Authorization,
    ContentLength,
    ContentType,
    UserAgent,
}

impl Known {
    /// The header's name in lower case, as it is the key of a header map.
    pub open spec fn text(self) -> Seq<char> {
        match self {
            Known::Authorization => "authorization"@,
            Known::ContentLength => "content-length"@,
            Known::ContentType => "content-type"@,
            Known::UserAgent => "user-agent"@,
        }
    }
}

/// The `http` crate's constants `AUTHORIZATION`, `CONTENT_LENGTH`,
/// `CONTENT_TYPE` and `USER_AGENT`. Claimed: each constant's text is the
/// standard lower-case name of its header.
#[verifier::external_body]
pub(crate) fn known_name(which: Known) -> (name: HeaderName)
    ensures
        header_name_text(name) == which.text(),
{
    match which {
        Known::Authorization => http::header::AUTHORIZATION,
        Known::ContentLength => http::header::CONTENT_LENGTH,
        Known::ContentType => http::header::CONTENT_TYPE,
        Known::UserAgent => http::header::USER_AGENT,
    }
}

/// `HeaderValue::from_str`. Claimed: it succeeds exactly when every byte of
/// the text is a value byte, and the value then holds the text's bytes
/// unchanged.
#[verifier::external_body]
pub(crate) fn value_from_str(text: &str) -> (made: Result<HeaderValue, InvalidHeaderValue>)
    ensures
        made is Ok <==> is_value_text(text.spec_bytes()),
        made matches Ok(value) ==> header_value_bytes(value) == text.spec_bytes(),
{
    HeaderValue::from_str(text)
}

/// `HeaderValue::from_bytes`. Claimed: it succeeds exactly when every byte
/// is a value byte, and the value then holds the bytes unchanged.
#[verifier::external_body]
pub(crate) fn value_from_bytes(bytes: &[u8]) -> (made: Result<HeaderValue, InvalidHeaderValue>)
    ensures
        made is Ok <==> is_value_text(bytes@),
        made matches Ok(value) ==> header_value_bytes(value) == bytes@,
{
    HeaderValue::from_bytes(bytes)
}

/// `HeaderMap::with_capacity`. Claimed: the new map holds nothing. The crate
/// panics on a capacity beyond its slot limit, which `requires` leaves out.
#[verifier::external_body]
pub(crate) fn empty_headers(capacity: usize) -> (made: HeaderMap)
    requires
        capacity <= MAX_NAMES,
    ensures
        header_entries(made) == no_entries(),
{
    HeaderMap::with_capacity(capacity)
}

/// `HeaderMap::clone`. Claimed: the copy holds what the map holds.
#[verifier::external_body]
pub(crate) fn copy_headers(map: &HeaderMap) -> (copy: HeaderMap)
    ensures
        header_entries(copy) == header_entries(*map),
{
    map.clone()
}

/// `HeaderMap::reserve`. Claimed: the contents stay as they are. The crate
/// panics where the reserved size would pass its slot limit, which
/// `requires` leaves out.
#[verifier::external_body]
pub(crate) fn reserve_headers(map: &mut HeaderMap, additional: usize)
    requires
        has_room(header_entries(*old(map)), additional as nat),
    ensures
        header_entries(*final(map)) == header_entries(*old(map)),
{
    map.reserve(additional)
}

/// `entries` holds finitely many names, `count` of them.
pub open spec fn has_names(entries: Map<Seq<char>, Seq<Seq<u8>>>, count: nat) -> bool {
    entries.dom().finite() && entries.dom().len() == count
}

/// `HeaderMap::keys_len`. Claimed: a header map holds finitely many names,
/// and this is their number.
#[verifier::external_body]
pub(crate) fn name_count(map: &HeaderMap) -> (count: usize)
    ensures
        has_names(header_entries(*map), count as nat),
{
    map.keys_len()
}

/// `HeaderMap::contains_key`. Claimed: it tells whether any value is stored
/// under the name.
#[verifier::external_body]
pub(crate) fn has_header(map: &HeaderMap, name: &HeaderName) -> (present: bool)
    ensures
        present == header_entries(*map).dom().contains(header_name_text(*name)),
{
    map.contains_key(name)
}

/// `HeaderMap::insert`. Claimed: afterwards the name holds the one new value,
/// whatever it held before, and every other name holds what it held. The
/// crate panics where the map cannot grow, which `requires` leaves out.
#[verifier::external_body]
pub(crate) fn set_header(map: &mut HeaderMap, name: HeaderName, value: HeaderValue)
    requires
        has_room(header_entries(*old(map)), 1),
    ensures
        header_entries(*final(map)) == header_entries(*old(map)).insert(
            header_name_text(name),
            seq![header_value_bytes(value)],
        ),
{
    map.insert(name, value);
}

/// What a list of pairs has to do with the entries of the map it was taken
/// from: each pair that carries a name carries the first value stored under
/// that name, and every name of the map is carried by some pair. A pair
/// without a name holds a further value of the name before it.
pub open spec fn lists_entries(
    pairs: Seq<(Option<HeaderName>, HeaderValue)>,
    entries: Map<Seq<char>, Seq<Seq<u8>>>,
) -> bool {
    &&& forall|i: int|
        0 <= i < pairs.len() && (#[trigger] pairs[i]).0 is Some ==> {
            let key = header_name_text(pairs[i].0->0);
            &&& entries.dom().contains(key)
            &&& entries[key].len() >= 1
            &&& entries[key][0] == header_value_bytes(pairs[i].1)
        }
    &&& forall|key: Seq<char>| #[trigger]
        entries.dom().contains(key) ==> exists|i: int|
            0 <= i < pairs.len() && (#[trigger] pairs[i]).0 is Some && header_name_text(
                pairs[i].0->0,
            ) == key
}

/// `HeaderMap::into_iter`, collected. Claimed: the pairs list the map's
/// entries in the sense of `lists_entries`; in which order the names come is
/// left open.
#[verifier::external_body]
pub(crate) fn into_pairs(map: HeaderMap) -> (pairs: Vec<(Option<HeaderName>, HeaderValue)>)
    ensures
        lists_entries(pairs@, header_entries(map)),
{
    map.into_iter().collect()
}

/// Tells whether a header map has room for `more` further names.
pub fn has_room_for(map: &HeaderMap, more: usize) -> (fits: bool)
    ensures
        fits == has_room(header_entries(*map), more as nat),
{
    let count = name_count(map);
    count <= MAX_NAMES && more <= MAX_NAMES - count
}

} // verus!
