//! Authorization helpers for MAX API requests.

use vstd::prelude::*;
use vstd::string::StringExecFns;
use crate::api_error::ApiError;
use crate::requests::{config_error, is_config_error};
use crate::redaction::lower;
use crate::text::{blank, is_blank};

verus! {

/// Query parameter name that is forbidden for auth in modern MAX API usage.
pub const ACCESS_TOKEN_QUERY_KEY: &'static str = "access_token";

/// Name of the header that carries the bot token.
pub const AUTHORIZATION_HEADER: &'static str = "authorization";

/// Some query parameter is named `access_token`.
pub open spec fn has_query_auth(query: Seq<(String, String)>) -> bool {
    exists|i: int| 0 <= i < query.len() && #[trigger] query[i].0@ == "access_token"@
}

/// Fails fast when legacy query-based auth is used.
pub fn ensure_no_query_auth(query: &[(String, String)]) -> (r: Result<(), ApiError>)
    ensures
        r is Ok <==> !has_query_auth(query@),
        r matches Err(e) ==> e == ApiError::QueryAuthenticationForbidden,
{
    let mut i: usize = 0;
    while i < query.len()
        invariant
            i <= query.len(),
            forall|j: int| 0 <= j < i ==> #[trigger] query@[j].0@ != "access_token"@,
        decreases query.len() - i,
    {
        if crate::text::str_eq(query[i].0.as_str(), ACCESS_TOKEN_QUERY_KEY) {
            return Err(ApiError::QueryAuthenticationForbidden);
        }
        i = i + 1;
    }
    Ok(())
}

/// A character whose UTF-8 bytes may appear in a header value: a tab, or
/// anything from space up except DEL. (Non-ASCII characters encode to bytes
/// from `0x80` up, which are all allowed.)
pub open spec fn header_char_ok(c: char) -> bool {
    (c as u32 >= 32 && c as u32 != 127) || c == '\t'
}

/// Every character of the text may appear in a header value.
pub open spec fn header_value_ok(s: Seq<char>) -> bool {
    forall|i: int| 0 <= i < s.len() ==> header_char_ok(#[trigger] s[i])
}

/// Checks a header value with `http::HeaderValue::from_str`, which accepts
/// exactly the strings whose bytes are all tabs or at least `0x20` and not
/// `0x7f`, and whose error displays as `failed to parse header value`. The
/// value it makes holds the bytes of the string unchanged; the library keeps
/// the checked string itself.
#[verifier::external_body]
fn check_header_value(value: &str) -> (r: Result<(), String>)
    ensures
        r is Ok <==> header_value_ok(value@),
        r matches Err(m) ==> m@ == "failed to parse header value"@,
{
    match http::HeaderValue::from_str(value) {
        Ok(_) => Ok(()),
        Err(error) => Err(error.to_string()),
    }
}

/// A character that may appear in a header name (an HTTP token character):
/// an ASCII letter or digit, or one of ``!#$%&'*+-.^_`|~``.
pub open spec fn header_name_char(c: char) -> bool {
    ('a' <= c && c <= 'z') || ('A' <= c && c <= 'Z') || ('0' <= c && c <= '9') || c == '!' || c
        == '#' || c == '$' || c == '%' || c == '&' || c == '\'' || c == '*' || c == '+' || c == '-'
        || c == '.' || c == '^' || c == '_' || c == '`' || c == '|' || c == '~'
}

/// A valid header name: one to 65535 token characters.
pub open spec fn header_name_ok(s: Seq<char>) -> bool {
    &&& 0 < s.len() <= 65535
    &&& forall|i: int| 0 <= i < s.len() ==> header_name_char(#[trigger] s[i])
}

/// Normalizes a header name with `http::HeaderName::from_bytes`: it accepts
/// names of one to 65535 bytes that are all token characters, lowercases
/// their ASCII letters, and its error displays as `invalid HTTP header name`.
#[verifier::external_body]
fn normalize_header_name(name: &str) -> (r: Result<String, String>)
    ensures
        r is Ok <==> header_name_ok(name@),
        r matches Ok(n) ==> n@ == lower(name@),
        r matches Err(m) ==> m@ == "invalid HTTP header name"@,
{
    match http::HeaderName::from_bytes(name.as_bytes()) {
        Ok(n) => Ok(n.as_str().to_owned()),
        Err(error) => Err(error.to_string()),
    }
}

/// A header name in normal form: the name with its ASCII letters
/// lowercased; an invalid name is reported as an invalid-header error.
pub fn header_name(name: &str) -> (r: Result<String, ApiError>)
    ensures
        header_name_ok(name@) ==> (r matches Ok(n) && n@ == lower(name@)),
        !header_name_ok(name@) ==> (r matches Err(ApiError::InvalidHeader { header, reason })
            && header@ == name@ && reason@ == "invalid HTTP header name"@),
{
    match normalize_header_name(name) {
        Ok(n) => Ok(n),
        Err(reason) => Err(ApiError::InvalidHeader { header: name.to_string(), reason }),
    }
}

/// Outcome of checking a header value: the value itself when it is valid,
/// otherwise an invalid-header error that names the header.
pub open spec fn header_result_ok(r: Result<String, ApiError>, name: Seq<char>, value: Seq<char>) -> bool {
    &&& r is Ok <==> header_value_ok(value)
    &&& r matches Ok(v) ==> v@ == value
    &&& r matches Err(e) ==> e matches ApiError::InvalidHeader { header, reason } && header@ == name
        && reason@ == "failed to parse header value"@
}

/// A checked header value for the named header: the value unchanged; an
/// invalid value is reported as an invalid-header error that names the header.
pub fn header_value(name: &str, value: &str) -> (r: Result<String, ApiError>)
    ensures
        header_result_ok(r, name@, value@),
{
    match check_header_value(value) {
        Ok(()) => Ok(value.to_string()),
        Err(reason) => Err(ApiError::InvalidHeader { header: name.to_string(), reason }),
    }
}

/// The `Authorization` header value for a bot token: the raw token, which
/// must not be blank.
pub fn authorization_header_value(token: &str) -> (r: Result<String, ApiError>)
    ensures
        blank(token@) ==> (r matches Err(e) && is_config_error(e, "token cannot be empty"@)),
        !blank(token@) ==> header_result_ok(r, "authorization"@, token@),
{
    if is_blank(token) {
        return Err(config_error("token cannot be empty"));
    }
    header_value(AUTHORIZATION_HEADER, token)
}

} // verus!
