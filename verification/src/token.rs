//! The access token of a session, and the decisions around fetching one.

use vstd::prelude::*;
use vstd::string::*;
use vstd::utf8::encode_utf8;
use reqwest::header::{HeaderValue, InvalidHeaderValue};

verus! {

/// What the token endpoint answers on success.
#[derive(Debug, PartialEq, Eq)]
pub struct TokenInfo {
    pub client_id: String,
    pub access_token: String,
    /// Milliseconds since the Unix epoch.
    pub expires_at: u64,
    pub is_anonymous: bool,
}

/// Whether an HTTP status code reports success.
pub open spec fn is_success(status: u16) -> bool {
    200 <= status < 300
}

/// Whether an HTTP status code reports success.
pub fn status_is_success(status: u16) -> (r: bool)
    ensures
        r == is_success(status),
{
    200 <= status && status < 300
}

/// A value of an HTTP header, as the HTTP client takes it.
#[verifier::external_type_specification]
#[verifier::external_body]
pub struct ExHeaderValue(reqwest::header::HeaderValue);

/// The HTTP client's refusal of a text as a header value.
#[verifier::external_type_specification]
#[verifier::external_body]
pub struct ExInvalidHeaderValue(reqwest::header::InvalidHeaderValue);

/// The cookie text of a credential file's contents: the contents without the
/// line feed that ends them, if one does.
pub open spec fn cookie_text(contents: Seq<char>) -> Seq<char> {
    if contents.len() > 0 && contents.last() == '\n' {
        contents.drop_last()
    } else {
        contents
    }
}

/// Whether a byte may stand in a header value: anything from the blank on,
/// but for the delete character, and the tabulator.
pub open spec fn header_byte_ok(b: u8) -> bool {
    (b >= 32 && b != 127) || b == 9
}

/// Whether every byte of the text's UTF-8 encoding may stand in a header
/// value.
pub open spec fn header_text_ok(text: Seq<char>) -> bool {
    forall|i: int|
        0 <= i < encode_utf8(text).len() ==> header_byte_ok(#[trigger] encode_utf8(text)[i])
}

/// The header value that the HTTP client makes of a text it accepts: a value
/// holding the text's bytes, not marked sensitive.
pub uninterp spec fn header_value_of(text: Seq<char>) -> HeaderValue;

/// Calls `HeaderValue::from_str` of the HTTP client. Trusted: the call
/// succeeds exactly on a text whose bytes are all at least 32 and not 127, or
/// the tabulator, and the value it then gives depends on the text alone.
#[verifier::external_body]
fn header_value_from_str(text: &str) -> (r: Result<HeaderValue, InvalidHeaderValue>)
    ensures
        r.is_ok() == header_text_ok(text@),
        r.is_ok() ==> r.unwrap() == header_value_of(text@),
{
    HeaderValue::from_str(text)
}

/// The cookie header for a session, made of the credential file's contents;
/// none where the cookie text holds a byte that no header value may hold.
pub fn cookie_header(contents: &str) -> (r: Option<HeaderValue>)
    ensures
        r == (if header_text_ok(cookie_text(contents@)) {
            Some(header_value_of(cookie_text(contents@)))
        } else {
            None
        }),
{
    let cookie = session_cookie(contents);
    match header_value_from_str(cookie.as_str()) {
        Ok(value) => Some(value),
        Err(_) => None,
    }
}

/// The cookie value held by the credential file: its text without the line
/// feed that ends it.
pub fn session_cookie(contents: &str) -> (r: String)
    ensures
        r@ == cookie_text(contents@),
{
    let n: usize = contents.unicode_len();
    if n > 0 && contents.get_char(n - 1) == '\n' {
        String::from_str(contents.substring_char(0, n - 1))
    } else {
        String::from_str(contents)
    }
}

/// The token of a session, given the endpoint's status code and, where the
/// body was read, the token it held. Any status but a success gives none,
/// whatever the body.
pub fn fetch_illegal_access_token(status: u16, body: Option<TokenInfo>) -> (r: Option<TokenInfo>)
    ensures
        r == (if is_success(status) {
            body
        } else {
            None
        }),
{
    if status_is_success(status) {
        body
    } else {
        None
    }
}

} // verus!
