//! The headers of a request, kept in the `http` crate's `HeaderMap`.

use vstd::prelude::*;
use vstd::utf8::encode_utf8;

verus! {

/// The `http` crate's multimap from header names to header values.
#[verifier::external_type_specification]
#[verifier::external_body]
#[verifier::reject_recursive_types(T)]
pub struct ExHeaderMap<T>(http::header::HeaderMap<T>);

/// The value of a header.
#[verifier::external_type_specification]
#[verifier::external_body]
pub struct ExHeaderValue(http::header::HeaderValue);

/// What the `http` crate says of a text that is no header value.
#[verifier::external_type_specification]
#[verifier::external_body]
pub struct ExInvalidHeaderValue(http::header::InvalidHeaderValue);

/// The headers in a map: to each name, in lower case, the bytes of its values
/// in the order in which they were added.
pub uninterp spec fn header_lines(
    headers: http::header::HeaderMap<http::header::HeaderValue>,
) -> Map<Seq<char>, Seq<Seq<u8>>>;

/// The most names that a map has room for.
pub const MAX_NAMES: usize = 32768;

/// Whether a byte can stand in the value of a header.
pub open spec fn is_value_byte(b: u8) -> bool {
    b >= 32 && b != 127 || b == 9
}

/// Whether a text can be the value of a header.
pub open spec fn is_header_value(value: Seq<char>) -> bool {
    forall|i: int|
        0 <= i < encode_utf8(value).len() ==> is_value_byte(#[trigger] encode_utf8(value)[i])
}

/// Makes an empty map with `http::HeaderMap::new`.
#[verifier::external_body]
pub(crate) fn no_headers() -> (r: http::header::HeaderMap<http::header::HeaderValue>)
    ensures
        header_lines(r) =~= Map::empty(),
{
    http::header::HeaderMap::new()
}

/// Counts the names in a map with `http::HeaderMap::keys_len`.
#[verifier::external_body]
pub(crate) fn count_names(headers: &http::header::HeaderMap<http::header::HeaderValue>) -> (r:
    usize)
    ensures
        r == header_lines(*headers).dom().len(),
{
    headers.keys_len()
}

/// Looks for a `Host` header with `http::HeaderMap::contains_key`.
#[verifier::external_body]
pub(crate) fn contains_host(headers: &http::header::HeaderMap<http::header::HeaderValue>) -> (r:
    bool)
    ensures
        r == header_lines(*headers).contains_key("host"@),
{
    headers.contains_key(http::header::HOST)
}

/// Makes `value` the one value of the `Host` header with
/// `http::HeaderMap::insert`, where `http::header::HeaderValue::from_str` takes
/// it for a header value, and otherwise leaves the map as it is.
///
/// It does not return where the map has no room for another name.
#[verifier::external_body]
pub(crate) fn insert_host(
    headers: &mut http::header::HeaderMap<http::header::HeaderValue>,
    value: &str,
) -> (r: Result<(), http::header::InvalidHeaderValue>)
    requires
        header_lines(*old(headers)).dom().len() < MAX_NAMES,
    ensures
        r is Ok <==> is_header_value(value@),
        r is Ok ==> header_lines(*final(headers)) == header_lines(*old(headers)).insert(
            "host"@,
            seq![encode_utf8(value@)],
        ),
        r is Err ==> *final(headers) == *old(headers),
{
    headers.insert(http::header::HOST, http::header::HeaderValue::from_str(value)?);
    Ok(())
}

} // verus!
