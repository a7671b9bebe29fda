//! What the library takes on trust from the HTTP crates: header values,
//! header maps and the cookie jar, each with the few facts that the logic
//! rests on.

use vstd::prelude::*;
use vstd::string::StringSliceAdditionalSpecFns;

verus! {

/// Name of the response header that sets a cookie.
pub const SET_COOKIE_NAME: &'static str = "set-cookie";

/// Name of the request header that carries the cookies.
pub const COOKIE_HEADER_NAME: &'static str = "cookie";

/// `http::HeaderValue`, the value of one header; nothing of its inside is
/// known but through `value_bytes`.
#[verifier::external_type_specification]
#[verifier::external_body]
pub struct ExHeaderValue(axum::http::HeaderValue);

/// `http::header::InvalidHeaderValue`, the error of `HeaderValue::from_str`;
/// it carries nothing.
#[verifier::external_type_specification]
#[verifier::external_body]
pub struct ExInvalidHeaderValue(axum::http::header::InvalidHeaderValue);

/// `http::HeaderMap`, the headers of a request or a response; nothing of
/// its inside is known but through `header_values`.
#[verifier::external_type_specification]
#[verifier::external_body]
#[verifier::reject_recursive_types(T)]
pub struct ExHeaderMap<T>(axum::http::HeaderMap<T>);

/// `axum_extra::extract::cookie::CookieJar`, the cookies of a request;
/// nothing of its inside is known but through `jar_cookies`.
#[verifier::external_type_specification]
#[verifier::external_body]
pub struct ExCookieJar(axum_extra::extract::cookie::CookieJar);

/// The bytes that a header value holds, as `HeaderValue::as_bytes` gives
/// them.
pub uninterp spec fn value_bytes(value: axum::http::HeaderValue) -> Seq<u8>;

/// What a header map holds: under each header name, in lower case as
/// `HeaderName::as_str` gives it, the bytes of its values in the order in
/// which they were added, as `HeaderMap::get_all` walks them.
pub uninterp spec fn header_values(headers: axum::http::HeaderMap) -> Map<Seq<char>, Seq<Seq<u8>>>;

/// What a cookie jar holds: under the name of each cookie that
/// `CookieJar::get` finds, the value of that cookie.
pub uninterp spec fn jar_cookies(jar: axum_extra::extract::cookie::CookieJar) -> Map<
    Seq<char>,
    Seq<char>,
>;

/// The cookies that `CookieJar::from_headers` reads out of the values of
/// a request's `Cookie` header: each name with its value. The jar goes by
/// those values alone, taken in their order; how it splits and decodes
/// them is the cookie parser's own affair and is not restated here.
pub uninterp spec fn announced_cookies(cookie_values: Seq<Seq<u8>>) -> Map<Seq<char>, Seq<char>>;

/// Whether a header value may hold `byte`: no control character but the
/// tab, and not DEL.
pub open spec fn is_value_byte(byte: u8) -> bool {
    (byte >= 32 && byte != 127) || byte == 9
}

/// The contents of a header map that holds nothing.
pub open spec fn no_headers() -> Map<Seq<char>, Seq<Seq<u8>>> {
    Map::empty()
}

/// The values under `name`, none where the name is absent.
pub open spec fn values_under(headers: Map<Seq<char>, Seq<Seq<u8>>>, name: Seq<char>) -> Seq<
    Seq<u8>,
> {
    if headers.dom().contains(name) {
        headers[name]
    } else {
        Seq::empty()
    }
}

/// `HeaderValue::from_str`: succeeds exactly when every byte of `text` may
/// stand in a header value, and the value then holds the bytes of `text`.
#[verifier::external_body]
pub(crate) fn header_value_from_str(text: &str) -> (made: Result<
    axum::http::HeaderValue,
    axum::http::header::InvalidHeaderValue,
>)
    ensures
        made is Ok <==> forall|i: int|
            0 <= i < text.spec_bytes().len() ==> is_value_byte(#[trigger] text.spec_bytes()[i]),
        made matches Ok(value) ==> value_bytes(value) == text.spec_bytes(),
{
    axum::http::HeaderValue::from_str(text)
}

/// `HeaderMap::new`: a map that holds nothing.
#[verifier::external_body]
pub(crate) fn new_header_map() -> (headers: axum::http::HeaderMap)
    ensures
        header_values(headers) == no_headers(),
{
    axum::http::HeaderMap::new()
}

/// `HeaderMap::insert` under `SET_COOKIE`, on a map that holds nothing:
/// afterwards `value` is the one value under that name.
#[verifier::external_body]
pub(crate) fn insert_set_cookie(headers: &mut axum::http::HeaderMap, value: axum::http::HeaderValue)
    requires
        header_values(*old(headers)) == no_headers(),
    ensures
        header_values(*final(headers)) == header_values(*old(headers)).insert(
            SET_COOKIE_NAME@,
            seq![value_bytes(value)],
        ),
{
    headers.insert(axum::http::header::SET_COOKIE, value);
}

/// `CookieJar::from_headers`: the jar holds the cookies that the values
/// of the `Cookie` header announce.
#[verifier::external_body]
pub(crate) fn jar_from_headers(headers: &axum::http::HeaderMap) -> (jar:
    axum_extra::extract::cookie::CookieJar)
    ensures
        jar_cookies(jar) == announced_cookies(
            values_under(header_values(*headers), COOKIE_HEADER_NAME@),
        ),
{
    axum_extra::extract::cookie::CookieJar::from_headers(headers)
}

/// `CookieJar::get`, then `Cookie::value`: the value of the cookie named
/// `name`, none where the jar holds no such cookie.
#[verifier::external_body]
pub(crate) fn jar_value(jar: &axum_extra::extract::cookie::CookieJar, name: &str) -> (value: Option<
    String,
>)
    ensures
        value is Some <==> jar_cookies(*jar).dom().contains(name@),
        value matches Some(text) ==> text@ == jar_cookies(*jar)[name@],
{
    jar.get(name).map(|cookie| cookie.value().to_owned())
}

} // verus!
