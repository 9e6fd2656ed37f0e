//! Reading API responses: error payloads and redacted body previews.

use vstd::prelude::*;
use crate::api_error::{ApiError, redact_sensitive, redacted};
use crate::attachment::opt_text;
use crate::text::{chars_of, string_from_chars};

verus! {

/// Number of characters of a response body kept in a preview.
pub const BODY_PREVIEW_CHARS: usize = 256;

/// The top level of what `serde_json::from_slice` parses from a body into a
/// `serde_json::Value`: `None` when the bytes are not JSON, `Some(None)` when
/// the JSON is not an object, and otherwise the object's members in the
/// order the parsed map holds them, each with its text when it is a string.
pub uninterp spec fn json_object_members(bytes: Seq<u8>) -> Option<
    Option<Seq<(Seq<char>, Option<Seq<char>>)>>,
>;

/// The view of object members as handed out by [`parse_json_members`].
pub open spec fn members_view(members: Seq<(String, Option<String>)>) -> Seq<
    (Seq<char>, Option<Seq<char>>),
> {
    members.map_values(|p: (String, Option<String>)| (p.0@, opt_text(p.1)))
}

/// The view of a parse outcome as handed out by [`parse_json_members`].
pub open spec fn parsed_view(r: Option<Option<Vec<(String, Option<String>)>>>) -> Option<
    Option<Seq<(Seq<char>, Option<Seq<char>>)>>,
> {
    match r {
        Some(Some(members)) => Some(Some(members_view(members@))),
        Some(None) => Some(None),
        None => None,
    }
}

/// Parses a body with `serde_json::from_slice::<serde_json::Value>` and hands
/// out the top level: whether it parsed, whether it is an object, and each
/// member's key with its text when the member is a string.
#[verifier::external_body]
fn parse_json_members(body: &[u8]) -> (r: Option<Option<Vec<(String, Option<String>)>>>)
    ensures
        parsed_view(r) == json_object_members(body@),
{
    match serde_json::from_slice::<serde_json::Value>(body) {
        Ok(serde_json::Value::Object(map)) => Some(Some(map.into_iter().map(|(key, value)| match value {
            serde_json::Value::String(text) => (key, Some(text)),
            _ => (key, None),
        }).collect())),
        Ok(_) => Some(None),
        Err(_) => None,
    }
}

/// The text of the first member named `key`, when that member is a string.
pub open spec fn member_text(members: Seq<(Seq<char>, Option<Seq<char>>)>, key: Seq<char>) -> Option<
    Seq<char>,
>
    decreases members.len(),
{
    if members.len() == 0 {
        None
    } else if members[0].0 == key {
        members[0].1
    } else {
        member_text(members.drop_first(), key)
    }
}

/// The error payload fields of a parsed body: the object's `code` member,
/// and its `message` member redacted, each when it is a string; nothing when
/// the body is not a JSON object.
pub open spec fn error_fields(parsed: Option<Option<Seq<(Seq<char>, Option<Seq<char>>)>>>) -> (
    Option<Seq<char>>,
    Option<Seq<char>>,
) {
    match parsed {
        Some(Some(members)) => (
            member_text(members, "code"@),
            match member_text(members, "message"@) {
                Some(t) => Some(redacted(t)),
                None => None,
            },
        ),
        _ => (None, None),
    }
}

fn find_member(members: &Vec<(String, Option<String>)>, key: &str) -> (r: Option<String>)
    ensures
        opt_text(r) == member_text(members_view(members@), key@),
{
    let ghost all = members_view(members@);
    let mut i: usize = 0;
    assert(all.skip(0) =~= all);
    while i < members.len()
        invariant
            i <= members.len(),
            all == members_view(members@),
            member_text(all, key@) == member_text(all.skip(i as int), key@),
        decreases members.len() - i,
    {
        assert(all.skip(i as int)[0] == (members@[i as int].0@, opt_text(members@[i as int].1)));
        if crate::text::str_eq(members[i].0.as_str(), key) {
            return members[i].1.clone();
        }
        assert(all.skip(i as int).drop_first() =~= all.skip(i + 1));
        i = i + 1;
    }
    None
}

/// The API error code and redacted message of an error body: an object's
/// `code` and `message` members when they are strings; nothing otherwise.
pub fn parse_error_payload(body: &[u8]) -> (r: (Option<String>, Option<String>))
    ensures
        (opt_text(r.0), opt_text(r.1)) == error_fields(json_object_members(body@)),
{
    match parse_json_members(body) {
        Some(Some(members)) => {
            let code = find_member(&members, "code");
            let message = match find_member(&members, "message") {
                Some(m) => Some(redact_sensitive(m.as_str())),
                None => None,
            };
            (code, message)
        },
        _ => (None, None),
    }
}

/// At most the first `n` characters of a text.
pub open spec fn prefix(s: Seq<char>, n: nat) -> Seq<char> {
    if s.len() <= n {
        s
    } else {
        s.take(n as int)
    }
}

/// A redacted preview of a response body: its first 256 characters with
/// sensitive markers masked.
pub fn body_preview(text: &str) -> (r: String)
    ensures
        r@ == redacted(prefix(text@, 256)),
{
    let v = chars_of(text);
    let mut out: Vec<char> = Vec::new();
    let mut i: usize = 0;
    while i < v.len() && i < BODY_PREVIEW_CHARS
        invariant
            i <= v.len(),
            i <= BODY_PREVIEW_CHARS,
            v@ == text@,
            out@ == text@.take(i as int),
        decreases v.len() - i,
    {
        out.push(v[i]);
        i = i + 1;
        assert(out@ == text@.take(i as int));
    }
    proof {
        if text@.len() <= 256 {
            assert(text@.take(i as int) == text@);
        }
    }
    let preview = string_from_chars(&out);
    redact_sensitive(preview.as_str())
}

/// Whether an HTTP status is a success (`200` to `299`).
pub open spec fn is_success_status(status: u16) -> bool {
    200 <= status <= 299
}

/// Checks a response: a success status passes; any other fails as a status
/// error with the code and redacted message of its JSON body.
pub fn check_response(status: u16, body: &[u8]) -> (r: Result<(), ApiError>)
    ensures
        is_success_status(status) ==> r is Ok,
        !is_success_status(status) ==> (r matches Err(ApiError::HttpStatus { status: s, code, message })
            && s == status && (opt_text(code), opt_text(message)) == error_fields(
            json_object_members(body@),
        )),
{
    if 200 <= status && status <= 299 {
        return Ok(());
    }
    let (code, message) = parse_error_payload(body);
    Err(ApiError::from_status(status, code, message))
}

} // verus!
