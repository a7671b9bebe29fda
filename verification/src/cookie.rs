//! The `darkmode` cookie: how the preference is written into a response,
//! and how the initial preference is read on the server and in the
//! browser.

use crate::headers::{
    announced_cookies, header_value_from_str, header_values, insert_set_cookie, jar_from_headers,
    jar_value, new_header_map, no_headers, values_under, COOKIE_HEADER_NAME, SET_COOKIE_NAME,
};
use crate::preference::{bool_str, bool_text, ContextMissing, PreferenceFlag, TransportError};
use crate::text::{has_pair, same_text, states_pair, states_pair_at};
use vstd::prelude::*;
use vstd::string::{StringExecFns, StringSliceAdditionalSpecFns};

verus! {

/// Name of the cookie that remembers the preference.
pub const COOKIE_NAME: &'static str = "darkmode";

/// The attributes of the cookie: it holds for the whole site.
pub const COOKIE_ATTRIBUTES: &'static str = "; Path=/";

/// What a request is answered with once the preference has been taken:
/// the headers to send, and the value that they confirm.
pub struct CookieWrite {
    pub headers: axum::http::HeaderMap,
    pub confirmed: bool,
}

/// The cookie as a name and a value: `darkmode=true` or `darkmode=false`.
pub open spec fn cookie_pair(prefers_dark: bool) -> Seq<char> {
    COOKIE_NAME@ + "="@ + bool_text(prefers_dark)
}

/// The text of the header that sets the cookie for the whole site.
pub open spec fn set_cookie_text(prefers_dark: bool) -> Seq<char> {
    cookie_pair(prefers_dark) + COOKIE_ATTRIBUTES@
}

/// The bytes of a text of one-byte characters.
pub open spec fn ascii_bytes(text: Seq<char>) -> Seq<u8> {
    Seq::new(text.len(), |i: int| text[i] as u8)
}

/// The preference that the value of the cookie states: `Dark` for `true`,
/// `Light` for `false`, `Unset` for any other value and for no cookie.
pub open spec fn cookie_flag(value: Option<Seq<char>>) -> PreferenceFlag {
    match value {
        Some(text) => if text == "true"@ {
            PreferenceFlag::Dark
        } else if text == "false"@ {
            PreferenceFlag::Light
        } else {
            PreferenceFlag::Unset
        },
        None => PreferenceFlag::Unset,
    }
}

/// The preference that the browser's cookie text states. The text is a
/// list of pairs separated by `;`, with spaces around them. It states
/// `Dark` where one of the pairs is exactly `darkmode=true`, else `Light`
/// where one is exactly `darkmode=false`, else `Unset`: a cookie of
/// another name, or with another value, states nothing.
pub open spec fn document_cookie_flag(cookie_text: Seq<char>) -> PreferenceFlag {
    if states_pair(cookie_text, cookie_pair(true)) {
        PreferenceFlag::Dark
    } else if states_pair(cookie_text, cookie_pair(false)) {
        PreferenceFlag::Light
    } else {
        PreferenceFlag::Unset
    }
}

/// The value of the cookie named `name` among `cookies`.
pub open spec fn cookie_named(cookies: Map<Seq<char>, Seq<char>>, name: Seq<char>) -> Option<
    Seq<char>,
> {
    if cookies.dom().contains(name) {
        Some(cookies[name])
    } else {
        None
    }
}

/// The initial preference of a server-rendered pass: what the `darkmode`
/// cookie of the request states, `Unset` where there is no request.
pub open spec fn server_initial(request: Option<Map<Seq<char>, Seq<Seq<u8>>>>) -> PreferenceFlag {
    match request {
        Some(headers) => cookie_flag(
            cookie_named(
                announced_cookies(values_under(headers, COOKIE_HEADER_NAME@)),
                COOKIE_NAME@,
            ),
        ),
        None => PreferenceFlag::Unset,
    }
}

/// The initial preference in the browser: what the cookie text states,
/// else what the colour-scheme query reports, else `Unset`.
pub open spec fn client_initial(cookie_text: Seq<char>, media_prefers_dark: Option<bool>)
    -> PreferenceFlag {
    match document_cookie_flag(cookie_text) {
        PreferenceFlag::Unset => PreferenceFlag::of(media_prefers_dark),
        stated => stated,
    }
}

/// Every character of the header text is a printable one-byte character.
proof fn lemma_set_cookie_text_is_printable(prefers_dark: bool)
    ensures
        forall|i: int|
            0 <= i < set_cookie_text(prefers_dark).len() ==> ' ' <= #[trigger] set_cookie_text(
                prefers_dark,
            )[i] <= '~',
{
    reveal_strlit("darkmode");
    reveal_strlit("=");
    reveal_strlit("true");
    reveal_strlit("false");
    reveal_strlit("; Path=/");
    reveal_strlit("darkmode=true; Path=/");
    reveal_strlit("darkmode=false; Path=/");
    if prefers_dark {
        assert(set_cookie_text(prefers_dark) =~= "darkmode=true; Path=/"@);
    } else {
        assert(set_cookie_text(prefers_dark) =~= "darkmode=false; Path=/"@);
    }
}

/// The text of the header that sets the cookie: `darkmode=true; Path=/`
/// or `darkmode=false; Path=/`.
pub fn set_cookie(prefers_dark: bool) -> (text: String)
    ensures
        text@ == set_cookie_text(prefers_dark),
{
    let mut text = String::from_str(COOKIE_NAME);
    text.append("=");
    text.append(bool_str(prefers_dark));
    text.append(COOKIE_ATTRIBUTES);
    text
}

/// Takes a submitted preference on the server: where the response can be
/// written to, answers with the header that sets the cookie and with the
/// submitted value as its confirmation; where it cannot, the submission
/// fails.
pub fn toggle_dark_mode(prefers_dark: bool, response_available: bool) -> (reply: Result<
    CookieWrite,
    TransportError,
>)
    ensures
        response_available <==> reply is Ok,
        reply matches Ok(write) ==> write.confirmed == prefers_dark && header_values(write.headers)
            == no_headers().insert(
            SET_COOKIE_NAME@,
            seq![ascii_bytes(set_cookie_text(prefers_dark))],
        ),
{
    if !response_available {
        return Err(TransportError);
    }
    let text = set_cookie(prefers_dark);
    let line = text.as_str();
    let made = header_value_from_str(line);
    proof {
        lemma_set_cookie_text_is_printable(prefers_dark);
        vstd::utf8::is_ascii_chars_encode_utf8(line@);
        assert(line.spec_bytes() =~= ascii_bytes(set_cookie_text(prefers_dark)));
    }
    match made {
        Ok(value) => {
            let mut headers = new_header_map();
            insert_set_cookie(&mut headers, value);
            Ok(CookieWrite { headers, confirmed: prefers_dark })
        },
        Err(_) => Err(TransportError),
    }
}

/// Checks at wiring time that the host provides the response to write
/// the cookie to.
pub fn require_response(response_available: bool) -> (wired: Result<(), ContextMissing>)
    ensures
        response_available <==> wired is Ok,
{
    if response_available {
        Ok(())
    } else {
        Err(ContextMissing)
    }
}

/// The preference that the value of the cookie states.
pub fn flag_from_cookie_value(value: Option<&str>) -> (flag: PreferenceFlag)
    ensures
        flag == cookie_flag(
            match value {
                Some(text) => Some(text@),
                None => None,
            },
        ),
{
    match value {
        Some(text) => {
            if same_text(text, "true") {
                PreferenceFlag::Dark
            } else if same_text(text, "false") {
                PreferenceFlag::Light
            } else {
                PreferenceFlag::Unset
            }
        },
        None => PreferenceFlag::Unset,
    }
}

/// The preference that the browser's cookie text states.
pub fn flag_from_document_cookie(cookie_text: &str) -> (flag: PreferenceFlag)
    ensures
        flag == document_cookie_flag(cookie_text@),
{
    proof {
        reveal_strlit("darkmode");
        reveal_strlit("=");
        reveal_strlit("true");
        reveal_strlit("false");
        reveal_strlit("darkmode=true");
        reveal_strlit("darkmode=false");
        assert("darkmode=true"@ =~= cookie_pair(true));
        assert("darkmode=false"@ =~= cookie_pair(false));
    }
    if has_pair(cookie_text, "darkmode=true") {
        PreferenceFlag::Dark
    } else if has_pair(cookie_text, "darkmode=false") {
        PreferenceFlag::Light
    } else {
        PreferenceFlag::Unset
    }
}

/// The initial preference in the browser, from the cookie text of the
/// document and the answer of the colour-scheme query.
pub fn initial_on_client(cookie_text: &str, media_prefers_dark: Option<bool>) -> (flag:
    PreferenceFlag)
    ensures
        flag == client_initial(cookie_text@, media_prefers_dark),
{
    match flag_from_document_cookie(cookie_text) {
        PreferenceFlag::Unset => PreferenceFlag::from_option(media_prefers_dark),
        stated => stated,
    }
}

/// The initial preference of a server-rendered pass, from the headers of
/// the request where the host provides them.
pub fn initial_on_server(request_headers: Option<&axum::http::HeaderMap>) -> (flag: PreferenceFlag)
    ensures
        flag == server_initial(
            match request_headers {
                Some(headers) => Some(header_values(*headers)),
                None => None,
            },
        ),
{
    match request_headers {
        Some(headers) => {
            let jar = jar_from_headers(headers);
            match jar_value(&jar, COOKIE_NAME) {
                Some(value) => flag_from_cookie_value(Some(value.as_str())),
                None => flag_from_cookie_value(None),
            }
        },
        None => PreferenceFlag::Unset,
    }
}

/// What was written is what is read: the cookie that records a preference
/// states that preference, to the server by its value and to the browser
/// by its text, whatever the colour-scheme query reports.
pub proof fn lemma_cookie_round_trip(prefers_dark: bool, media_prefers_dark: Option<bool>)
    ensures
        cookie_flag(Some(bool_text(prefers_dark))) == PreferenceFlag::of(Some(prefers_dark)),
        document_cookie_flag(cookie_pair(prefers_dark)) == PreferenceFlag::of(Some(prefers_dark)),
        client_initial(cookie_pair(prefers_dark), media_prefers_dark) == PreferenceFlag::of(
            Some(prefers_dark),
        ),
{
    reveal_strlit("darkmode");
    reveal_strlit("=");
    reveal_strlit("true");
    reveal_strlit("false");
    reveal_strlit("darkmode=true");
    reveal_strlit("darkmode=false");
    let dark = cookie_pair(true);
    let light = cookie_pair(false);
    assert(dark =~= "darkmode=true"@);
    assert(light =~= "darkmode=false"@);
    assert(dark.len() == 13 && light.len() == 14);
    assert("true"@ != "false"@);
    if prefers_dark {
        assert(dark.subrange(0, 13) =~= dark);
        assert(states_pair_at(dark, dark, 0, 13, 0, 13));
    } else {
        assert forall|lo: int, hi: int, from: int, to: int| !#[trigger] states_pair_at(
            light,
            dark,
            lo,
            hi,
            from,
            to,
        ) by {
            if states_pair_at(light, dark, lo, hi, from, to) {
                if lo > 0 {
                    assert(light[lo - 1] == ';');
                }
                if hi < 14 {
                    assert(light[hi] == ';');
                }
                if from > 0 {
                    assert(light[0] == ' ');
                }
                if to < 14 {
                    assert(light[13] == ' ');
                }
                assert(light.subrange(from, to).len() == 14);
            }
        }
        assert(light.subrange(0, 14) =~= light);
        assert(states_pair_at(light, light, 0, 14, 0, 14));
    }
}

} // verus!
