//! What is taken for granted of the `http` crate.

use crate::text::decimal;
use http::header::{HeaderName, InvalidHeaderValue};
use http::uri::InvalidUri;
use http::{HeaderMap, HeaderValue, Method, Request, Uri};
use vstd::prelude::*;
use vstd::utf8::encode_utf8;

verus! {

/// `http::Uri`.
#[verifier::external_type_specification]
#[verifier::external_body]
pub struct ExUri(Uri);

/// `http::uri::InvalidUri`, the error of parsing a URI.
#[verifier::external_type_specification]
#[verifier::external_body]
pub struct ExInvalidUri(InvalidUri);

/// `http::HeaderName`.
#[verifier::external_type_specification]
#[verifier::external_body]
pub struct ExHeaderName(HeaderName);

/// `http::HeaderValue`.
#[verifier::external_type_specification]
#[verifier::external_body]
pub struct ExHeaderValue(HeaderValue);

/// `http::header::InvalidHeaderValue`, the error of making a header value.
#[verifier::external_type_specification]
#[verifier::external_body]
pub struct ExInvalidHeaderValue(InvalidHeaderValue);

/// `http::HeaderMap`, a multimap from header names to header values.
#[verifier::external_type_specification]
#[verifier::external_body]
#[verifier::reject_recursive_types(T)]
pub struct ExHeaderMap<T>(HeaderMap<T>);

/// `http::Method`.
#[verifier::external_type_specification]
#[verifier::external_body]
pub struct ExMethod(Method);

/// `http::Request`.
#[verifier::external_type_specification]
#[verifier::external_body]
#[verifier::reject_recursive_types(T)]
pub struct ExRequest<T>(Request<T>);

/// A URI as its `Display` writes it.
pub uninterp spec fn uri_text(uri: Uri) -> Seq<char>;

/// A URI error as its `Display` writes it.
pub uninterp spec fn uri_error_text(error: InvalidUri) -> Seq<char>;

/// A header name as `as_str` gives it.
pub uninterp spec fn name_text(name: HeaderName) -> Seq<char>;

/// The bytes of a header value, as `as_bytes` gives them.
pub uninterp spec fn value_bytes(value: HeaderValue) -> Seq<u8>;

/// What a header map holds: for each name the values under it, in order.
pub uninterp spec fn header_fields(map: HeaderMap<HeaderValue>) -> Map<Seq<char>, Seq<Seq<u8>>>;

/// A method as `as_str` gives it.
pub uninterp spec fn method_text(method: Method) -> Seq<char>;

/// The method of a request, as text.
pub uninterp spec fn request_method(request: Request<()>) -> Seq<char>;

/// The URI of a request, as text.
pub uninterp spec fn request_uri(request: Request<()>) -> Seq<char>;

/// The HTTP version of a request, as its `Debug` writes it.
pub uninterp spec fn request_version(request: Request<()>) -> Seq<char>;

/// The number of extensions that a request carries.
pub uninterp spec fn request_extensions(request: Request<()>) -> nat;

/// The header fields of a request.
pub uninterp spec fn request_fields(request: Request<()>) -> Map<Seq<char>, Seq<Seq<u8>>>;

/// The largest number of bytes in a URI.
pub open spec fn max_uri_len() -> nat {
    65_534
}

/// Whether a character may stand in the path of a URI.
pub open spec fn is_path_char(c: char) -> bool {
    ||| c == '!' || c == '"' || c == '=' || c == '{' || c == '|' || c == '}' || c == '~'
    ||| '$' <= c <= ';'
    ||| '@' <= c <= '_'
    ||| 'a' <= c <= 'z'
    ||| '\u{80}' <= c
}

/// Whether a character may stand in the query of a URI.
pub open spec fn is_query_char(c: char) -> bool {
    ||| c == '!' || c == '='
    ||| '$' <= c <= ';'
    ||| '?' <= c <= '~'
    ||| '\u{80}' <= c
}

/// The part of `text` before its fragment, that is before the first `#`.
pub open spec fn before_fragment(text: Seq<char>) -> Seq<char>
    decreases text.len(),
{
    if text.len() == 0 || text[0] == '#' {
        Seq::empty()
    } else {
        seq![text[0]] + before_fragment(text.drop_first())
    }
}

/// Whether `text` is a path, or a path, a `?` and a query, of characters that may stand there.
pub open spec fn is_path_and_query(text: Seq<char>) -> bool {
    forall|i: int|
        0 <= i < text.len() ==> if text.take(i).contains('?') {
            is_query_char(#[trigger] text[i])
        } else {
            text[i] == '?' || is_path_char(text[i])
        }
}

/// What parsing a `text` that starts with a slash gives.
pub open spec fn origin_form(text: Seq<char>) -> Result<Seq<char>, Seq<char>> {
    if encode_utf8(text).len() > max_uri_len() {
        Err("uri too long"@)
    } else if !is_path_and_query(before_fragment(text)) {
        Err("invalid uri character"@)
    } else {
        Ok(before_fragment(text))
    }
}

/// The fields of an empty header map.
pub open spec fn no_fields() -> Map<Seq<char>, Seq<Seq<u8>>> {
    Map::empty()
}

/// Whether a byte is a tab or visible ASCII.
pub open spec fn is_visible_byte(b: u8) -> bool {
    b == 9 || 32 <= b < 127
}

/// Whether a byte may stand in a header value.
pub open spec fn is_value_byte(b: u8) -> bool {
    b == 9 || (32 <= b && b != 127)
}

/// Whether every byte may stand in a header value.
pub open spec fn is_value(bytes: Seq<u8>) -> bool {
    forall|i: int| 0 <= i < bytes.len() ==> is_value_byte(#[trigger] bytes[i])
}

/// `<Uri as FromStr>::from_str`, through `str::parse`. Of a text that starts with a slash the
/// contract says what comes back: the text is split at the first `#`, what is before it is the
/// URI, and it must be short enough and made of characters that may stand there. Of other
/// texts (absolute URIs, authorities, `*`, the empty text) it says nothing.
#[verifier::external_body]
pub(crate) fn parse_uri(text: &str) -> (r: Result<Uri, InvalidUri>)
    ensures
        text@.len() > 0 && text@[0] == '/' ==> match r {
            Ok(uri) => origin_form(text@) == Ok::<Seq<char>, Seq<char>>(uri_text(uri)),
            Err(e) => origin_form(text@) == Err::<Seq<char>, Seq<char>>(uri_error_text(e)),
        },
{
    text.parse()
}

/// `<InvalidUri as Display>`, through `to_string`.
#[verifier::external_body]
pub(crate) fn show_uri_error(error: &InvalidUri) -> (text: String)
    ensures
        text@ == uri_error_text(*error),
{
    error.to_string()
}

/// `Uri::clone`: the clone is the same URI.
pub assume_specification[ <Uri as Clone>::clone ](uri: &Uri) -> (copy: Uri)
    ensures
        uri_text(copy) == uri_text(*uri),
;

/// `HeaderValue::from_str`: it succeeds on a text without control characters other than the
/// tab, and the value holds the text in UTF-8.
pub assume_specification[ HeaderValue::from_str ](src: &str) -> (r: Result<
    HeaderValue,
    InvalidHeaderValue,
>)
    ensures
        r is Ok <==> is_value(encode_utf8(src@)),
        r matches Ok(value) ==> value_bytes(value) == encode_utf8(src@),
;

/// `<InvalidHeaderValue as Display>`, through `to_string`: it has one text only.
#[verifier::external_body]
pub(crate) fn show_value_error(error: &InvalidHeaderValue) -> (text: String)
    ensures
        text@ == "failed to parse header value"@,
{
    error.to_string()
}

/// `HeaderValue::from_static`: the value holds the text in UTF-8. It panics on a byte that is
/// neither a tab nor visible ASCII.
pub assume_specification[ HeaderValue::from_static ](src: &'static str) -> (value: HeaderValue)
    requires
        forall|i: int|
            0 <= i < encode_utf8(src@).len() ==> is_visible_byte(#[trigger] encode_utf8(src@)[i]),
    ensures
        value_bytes(value) == encode_utf8(src@),
;

/// `HeaderValue::from` on a `u64`: the value holds the number in decimal.
pub assume_specification[ <HeaderValue as core::convert::From<u64>>::from ](num: u64) -> (value:
    HeaderValue)
    ensures
        value_bytes(value) == encode_utf8(decimal(num as nat)),
;

/// `http::header::HOST`.
#[verifier::external_body]
pub(crate) fn host_name() -> (name: HeaderName)
    ensures
        name_text(name) == "host"@,
{
    http::header::HOST
}

/// `http::header::CONTENT_TYPE`.
#[verifier::external_body]
pub(crate) fn content_type_name() -> (name: HeaderName)
    ensures
        name_text(name) == "content-type"@,
{
    http::header::CONTENT_TYPE
}

/// `http::header::CONTENT_LENGTH`.
#[verifier::external_body]
pub(crate) fn content_length_name() -> (name: HeaderName)
    ensures
        name_text(name) == "content-length"@,
{
    http::header::CONTENT_LENGTH
}

/// `HeaderMap::with_capacity`: the map is empty. It panics on a capacity that is far larger
/// than any used here.
#[verifier::external_body]
pub(crate) fn headers_with_capacity(capacity: usize) -> (map: HeaderMap<HeaderValue>)
    requires
        capacity <= 1024,
    ensures
        header_fields(map) == no_fields(),
{
    HeaderMap::with_capacity(capacity)
}

/// `HeaderMap::insert`: afterwards the name has the value and no other, and the other names
/// have what they had. It panics on a map that holds many thousands of names.
#[verifier::external_body]
pub(crate) fn insert_header(
    map: &mut HeaderMap<HeaderValue>,
    name: HeaderName,
    value: HeaderValue,
)
    requires
        header_fields(*old(map)).dom().finite(),
        header_fields(*old(map)).dom().len() < 1024,
    ensures
        header_fields(*final(map)) == header_fields(*old(map)).insert(
            name_text(name),
            seq![value_bytes(value)],
        ),
{
    map.insert(name, value);
}

/// `HeaderMap::clone`: the clone holds the same fields.
#[verifier::external_body]
pub(crate) fn clone_headers(map: &HeaderMap<HeaderValue>) -> (copy: HeaderMap<HeaderValue>)
    ensures
        header_fields(copy) == header_fields(*map),
{
    map.clone()
}

/// `http::Method::POST`.
#[verifier::external_body]
pub(crate) fn post_method() -> (method: Method)
    ensures
        method_text(method) == "POST"@,
{
    Method::POST
}

/// `Request::from_parts` on the parts of a new request whose method, URI and headers are
/// replaced: the request has these three, and the version and the extensions of a new request,
/// that is HTTP/1.1 and none.
#[verifier::external_body]
pub(crate) fn request_from_parts(
    method: Method,
    uri: Uri,
    headers: HeaderMap<HeaderValue>,
) -> (request: Request<()>)
    ensures
        request_method(request) == method_text(method),
        request_uri(request) == uri_text(uri),
        request_version(request) == "HTTP/1.1"@,
        request_extensions(request) == 0,
        request_fields(request) == header_fields(headers),
{
    let (mut parts, body) = Request::new(()).into_parts();
    parts.method = method;
    parts.uri = uri;
    parts.headers = headers;
    Request::from_parts(parts, body)
}

} // verus!
