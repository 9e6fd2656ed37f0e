//! Error taxonomy for MAX transport and contract handling.
//!
//! The HTTP status is carried as its numeric code, and transport and decode
//! failures as the plain facts that the retry logic reads.

use vstd::prelude::*;
use vstd::string::StringExecFns;
use crate::text::{chars_of, decimal, decimal_string, find_chars, find_from, string_from_chars};

verus! {

/// Retry categories used by resilience policy.
#[derive(Debug, Clone, Copy, PartialEq, Eq, Structural)]
pub enum RetryClass {
    /// No retry is expected.
    NotRetryable,
    /// Retry with standard backoff.
    Backoff,
    /// Retry under rate-limit strategy.
    RateLimited,
}

/// A transport-level failure as seen by the SDK.
#[derive(Debug, Clone, PartialEq, Eq)]
pub struct TransportError {
    /// Human-readable description of the failure.
    pub message: String,
    /// The failure happened while connecting.
    pub is_connect: bool,
    /// The failure is a timeout.
    pub is_timeout: bool,
}

/// Unified SDK error type for API, transport, and validation failures.
#[derive(Debug, Clone, PartialEq, Eq)]
pub enum ApiError {
    /// Invalid runtime configuration.
    InvalidConfiguration(String),
    /// Invalid header data.
    InvalidHeader {
        /// Header name.
        header: String,
        /// Validation reason.
        reason: String,
    },
    /// Query-based auth is forbidden by current contract.
    QueryAuthenticationForbidden,
    /// URL/path join failed for the given route.
    UrlJoinError {
        /// Base URL used for request.
        base: String,
        /// Path that failed to join.
        path: String,
    },
    /// HTTP transport-level failure.
    Transport(TransportError),
    /// Non-success API response.
    HttpStatus {
        /// HTTP status code.
        status: u16,
        /// Optional API-level error code.
        code: Option<String>,
        /// Optional message.
        message: Option<String>,
    },
    /// Response JSON parsing failed.
    ResponseDecode {
        /// Description of the decode failure.
        source: String,
        /// Redacted preview of body.
        body_preview: String,
    },
    /// Response body shape is invalid for expected contract.
    InvalidResponseShape(String),
    /// Parsing update payload failed.
    InvalidUpdatePayload(String),
    /// Filesystem read error for fixture.
    FixtureIo {
        /// Fixture path.
        path: String,
        /// Description of the IO failure.
        source: String,
    },
    /// Fixture JSON parse error.
    FixtureParse {
        /// Fixture path.
        path: String,
        /// Description of the parse failure.
        source: String,
    },
    /// Fixture does not match expected shape.
    FixtureSchema {
        /// Fixture path.
        path: String,
        /// Schema mismatch reason.
        reason: String,
    },
}

/// Retry class of an error: `429` is rate limited; `500`, `502`, `503`,
/// `504` and connect or timeout transport failures back off; nothing else retries.
pub open spec fn retry_class_of(error: ApiError) -> RetryClass {
    match error {
        ApiError::HttpStatus { status, .. } => if status == 429 {
            RetryClass::RateLimited
        } else if status == 502 || status == 503 || status == 504 || status == 500 {
            RetryClass::Backoff
        } else {
            RetryClass::NotRetryable
        },
        ApiError::Transport(t) => if t.is_connect || t.is_timeout {
            RetryClass::Backoff
        } else {
            RetryClass::NotRetryable
        },
        _ => RetryClass::NotRetryable,
    }
}

impl ApiError {
    /// Constructs a status error.
    pub fn from_status(status: u16, code: Option<String>, message: Option<String>) -> (e: Self)
        ensures
            e == (ApiError::HttpStatus { status, code, message }),
    {
        ApiError::HttpStatus { status, code, message }
    }

    /// Returns retry class for this error.
    pub fn retry_class(&self) -> (class: RetryClass)
        ensures
            class == retry_class_of(*self),
    {
        match self {
            ApiError::HttpStatus { status, .. } => {
                if *status == 429 {
                    RetryClass::RateLimited
                } else if *status == 502 || *status == 503 || *status == 504 || *status == 500 {
                    RetryClass::Backoff
                } else {
                    RetryClass::NotRetryable
                }
            },
            ApiError::Transport(t) => {
                if t.is_connect || t.is_timeout {
                    RetryClass::Backoff
                } else {
                    RetryClass::NotRetryable
                }
            },
            _ => RetryClass::NotRetryable,
        }
    }
}

/// A character that ends a masked value in [`redact_sensitive`].
pub open spec fn value_stop(c: char) -> bool {
    c == '&' || c == ' ' || c == '\n' || c == '\r'
}

/// Index of the first stop character at or after `start`, or the length.
pub open spec fn value_end(s: Seq<char>, start: int) -> int
    decreases s.len() - start,
{
    if start < 0 || start >= s.len() {
        s.len() as int
    } else if value_stop(s[start]) {
        start
    } else {
        value_end(s, start + 1)
    }
}

/// Masks the value after the first occurrence of `marker` with `***`.
pub open spec fn mask_first_value(s: Seq<char>, marker: Seq<char>) -> Seq<char> {
    match find_from(s, marker, 0) {
        None => s,
        Some(i) => {
            let start = i + marker.len();
            s.take(start) + "***"@ + s.skip(value_end(s, start))
        },
    }
}

/// Markers whose values [`redact_sensitive`] masks, in the order applied.
pub open spec fn sensitive_markers() -> Seq<Seq<char>> {
    seq!["access_token="@, "Authorization:"@, "authorization:"@, "token="@, "secret="@]
}

/// Applies [`mask_first_value`] for each marker in turn.
pub open spec fn mask_markers(s: Seq<char>, markers: Seq<Seq<char>>) -> Seq<char>
    decreases markers.len(),
{
    if markers.len() == 0 {
        s
    } else {
        mask_markers(mask_first_value(s, markers[0]), markers.drop_first())
    }
}

/// What [`redact_sensitive`] returns.
pub open spec fn redacted(s: Seq<char>) -> Seq<char> {
    mask_markers(s, sensitive_markers())
}

proof fn lemma_value_end_bounds(s: Seq<char>, start: int)
    requires
        0 <= start <= s.len(),
    ensures
        start <= value_end(s, start) <= s.len(),
        forall|j: int| start <= j < value_end(s, start) ==> !value_stop(#[trigger] s[j]),
        value_end(s, start) < s.len() ==> value_stop(s[value_end(s, start)]),
    decreases s.len() - start,
{
    if start < s.len() && !value_stop(s[start]) {
        lemma_value_end_bounds(s, start + 1);
    }
}

fn find_value_end(v: &Vec<char>, start: usize) -> (end: usize)
    requires
        start <= v.len(),
    ensures
        end == value_end(v@, start as int),
{
    let mut i = start;
    while i < v.len()
        invariant
            start <= i <= v.len(),
            value_end(v@, start as int) == value_end(v@, i as int),
        decreases v.len() - i,
    {
        let c = v[i];
        if c == '&' || c == ' ' || c == '\n' || c == '\r' {
            return i;
        }
        i = i + 1;
    }
    i
}

fn mask_first(v: Vec<char>, marker: &str) -> (r: Vec<char>)
    ensures
        r@ == mask_first_value(v@, marker@),
{
    let m = chars_of(marker);
    match find_chars(&v, &m, 0) {
        None => v,
        Some(i) => {
            proof {
                crate::text::lemma_find_from_bounds(v@, m@, 0);
                assert(find_from(v@, m@, 0) == Some(i as int));
                assert(crate::text::occurs_at(v@, m@, i as int));
                assert(i + m@.len() <= v@.len());
                assert(m@.len() == m.len());
            }
            let total = v.len();
            let start = i + m.len();
            let end = find_value_end(&v, start);
            proof {
                lemma_value_end_bounds(v@, start as int);
            }
            let mut out: Vec<char> = Vec::new();
            let mut k: usize = 0;
            while k < start
                invariant
                    k <= start <= v.len(),
                    out@ == v@.take(k as int),
                decreases start - k,
            {
                out.push(v[k]);
                k = k + 1;
                assert(out@ == v@.take(k as int));
            }
            out.push('*');
            out.push('*');
            out.push('*');
            proof {
                reveal_strlit("***");
                assert(out@ == v@.take(start as int) + "***"@);
            }
            let ghost prefix = out@;
            let mut k: usize = end;
            while k < v.len()
                invariant
                    end <= k <= v.len(),
                    out@ == prefix + v@.subrange(end as int, k as int),
                decreases v.len() - k,
            {
                out.push(v[k]);
                k = k + 1;
                assert(out@ == prefix + v@.subrange(end as int, k as int));
            }
            assert(v@.subrange(end as int, v.len() as int) == v@.skip(end as int));
            out
        },
    }
}

/// Redacts common secret markers from textual payloads.
///
/// For each marker in [`sensitive_markers`], in order, the value after its
/// first occurrence (up to `&`, space, newline or carriage return) is
/// replaced by `***`.
pub fn redact_sensitive(input: &str) -> (output: String)
    ensures
        output@ == redacted(input@),
{
    let v = chars_of(input);
    let v = mask_first(v, "access_token=");
    let v = mask_first(v, "Authorization:");
    let v = mask_first(v, "authorization:");
    let v = mask_first(v, "token=");
    let v = mask_first(v, "secret=");
    proof {
        reveal_with_fuel(mask_markers, 6);
        let m = sensitive_markers();
        assert(m.drop_first().drop_first().drop_first().drop_first().drop_first().len() == 0);
        assert(m[0] == "access_token="@);
        assert(m.drop_first()[0] == "Authorization:"@);
        assert(m.drop_first().drop_first()[0] == "authorization:"@);
        assert(m.drop_first().drop_first().drop_first()[0] == "token="@);
        assert(m.drop_first().drop_first().drop_first().drop_first()[0] == "secret="@);
    }
    string_from_chars(&v)
}

/// The canonical reason phrase of an HTTP status code, where it has one.
pub uninterp spec fn status_reason(status: u16) -> Option<Seq<char>>;

/// `http::StatusCode::canonical_reason` of `status`: the phrase that the
/// status table of the `http` crate holds for it (`"Not Found"` for `404`).
/// Codes outside `100..=999` are not status codes there and have none.
#[verifier::external_body]
fn canonical_reason(status: u16) -> (reason: Option<String>)
    ensures
        match reason {
            Some(r) => status_reason(status) == Some(r@),
            None => status_reason(status) == None::<Seq<char>>,
        },
        !(100 <= status && status <= 999) ==> reason is None,
{
    match http::StatusCode::from_u16(status) {
        Ok(code) => code.canonical_reason().map(String::from),
        Err(_) => None,
    }
}

/// Text of a status code as `http::StatusCode` displays it: the number, a
/// space and the reason phrase (`<unknown status code>` where there is none).
/// A number outside `100..=999` is written alone.
pub open spec fn status_text(status: u16) -> Seq<char> {
    if 100 <= status && status <= 999 {
        decimal(status as nat) + " "@ + match status_reason(status) {
            Some(r) => r,
            None => "<unknown status code>"@,
        }
    } else {
        decimal(status as nat)
    }
}

fn status_display(status: u16) -> (text: String)
    ensures
        text@ == status_text(status),
{
    let mut text = decimal_string(status as u64);
    if 100 <= status && status <= 999 {
        text.append(" ");
        match canonical_reason(status) {
            Some(r) => text.append(r.as_str()),
            None => text.append("<unknown status code>"),
        }
    }
    text
}

/// What `Debug` writes for a string: the text quoted, with escapes.
pub uninterp spec fn str_debug(s: Seq<char>) -> Seq<char>;

/// Writes a string slice with `Debug` (`format!("{:?}", s)`). The contract
/// names the text; the escaping rules of `str::escape_debug` are not stated.
#[verifier::external_body]
fn debug_quoted(s: &str) -> (text: String)
    ensures
        text@ == str_debug(s@),
{
    format!("{:?}", s)
}

/// What `Debug` writes for an optional string: `None`, or `Some(..)` around
/// the quoted text.
pub open spec fn option_debug(o: Option<String>) -> Seq<char> {
    match o {
        Some(s) => "Some("@ + str_debug(s@) + ")"@,
        None => "None"@,
    }
}

fn push_option_debug(out: &mut String, o: &Option<String>)
    ensures
        final(out)@ == old(out)@ + option_debug(*o),
{
    match o {
        Some(s) => {
            out.append("Some(");
            let quoted = debug_quoted(s.as_str());
            out.append(quoted.as_str());
            out.append(")");
        },
        None => out.append("None"),
    }
}

/// Human-readable text of an error.
pub open spec fn error_text(error: ApiError) -> Seq<char> {
    match error {
        ApiError::InvalidConfiguration(m) => "invalid configuration: "@ + m@,
        ApiError::InvalidHeader { header, reason } => "invalid header `"@ + header@ + "`: "@
            + reason@,
        ApiError::QueryAuthenticationForbidden =>
            "query-based authentication is forbidden; use Authorization header"@,
        ApiError::UrlJoinError { base, path } => "failed to resolve URL for path `"@ + path@
            + "` against `"@ + base@ + "`"@,
        ApiError::Transport(t) => "transport error: "@ + t.message@,
        ApiError::HttpStatus { status, code, message } => "API request failed with status "@
            + status_text(status) + " ("@ + option_debug(code) + "): "@ + option_debug(message),
        ApiError::ResponseDecode { source, body_preview } => "failed to decode response body: "@
            + source@ + "; body preview: "@ + body_preview@,
        ApiError::InvalidResponseShape(m) => "invalid response shape: "@ + m@,
        ApiError::InvalidUpdatePayload(m) => "invalid update payload: "@ + m@,
        ApiError::FixtureIo { path, source } => "failed to read fixture `"@ + path@ + "`: "@
            + source@,
        ApiError::FixtureParse { path, source } => "failed to parse fixture `"@ + path@ + "`: "@
            + source@,
        ApiError::FixtureSchema { path, reason } => "fixture schema error for `"@ + path@
            + "`: "@ + reason@,
    }
}

fn joined2(a: &str, b: &str) -> (s: String)
    ensures
        s@ == a@ + b@,
{
    let mut s = String::from_str(a);
    s.append(b);
    s
}

fn joined3(a: &str, b: &str, c: &str) -> (s: String)
    ensures
        s@ == a@ + b@ + c@,
{
    let mut s = joined2(a, b);
    s.append(c);
    s
}

fn joined4(a: &str, b: &str, c: &str, d: &str) -> (s: String)
    ensures
        s@ == a@ + b@ + c@ + d@,
{
    let mut s = joined3(a, b, c);
    s.append(d);
    s
}

fn joined5(a: &str, b: &str, c: &str, d: &str, e: &str) -> (s: String)
    ensures
        s@ == a@ + b@ + c@ + d@ + e@,
{
    let mut s = joined4(a, b, c, d);
    s.append(e);
    s
}

impl ApiError {
    /// Human-readable description of the error.
    pub fn message(&self) -> (text: String)
        ensures
            text@ == error_text(*self),
    {
        match self {
            ApiError::InvalidConfiguration(m) => joined2("invalid configuration: ", m.as_str()),
            ApiError::InvalidHeader { header, reason } => joined4(
                "invalid header `",
                header.as_str(),
                "`: ",
                reason.as_str(),
            ),
            ApiError::QueryAuthenticationForbidden => String::from_str(
                "query-based authentication is forbidden; use Authorization header",
            ),
            ApiError::UrlJoinError { base, path } => joined5(
                "failed to resolve URL for path `",
                path.as_str(),
                "` against `",
                base.as_str(),
                "`",
            ),
            ApiError::Transport(t) => joined2("transport error: ", t.message.as_str()),
            ApiError::HttpStatus { status, code, message } => {
                let mut s = String::from_str("API request failed with status ");
                let status_part = status_display(*status);
                s.append(status_part.as_str());
                s.append(" (");
                push_option_debug(&mut s, code);
                s.append("): ");
                push_option_debug(&mut s, message);
                s
            },
            ApiError::ResponseDecode { source, body_preview } => joined4(
                "failed to decode response body: ",
                source.as_str(),
                "; body preview: ",
                body_preview.as_str(),
            ),
            ApiError::InvalidResponseShape(m) => joined2("invalid response shape: ", m.as_str()),
            ApiError::InvalidUpdatePayload(m) => joined2("invalid update payload: ", m.as_str()),
            ApiError::FixtureIo { path, source } => joined4(
                "failed to read fixture `",
                path.as_str(),
                "`: ",
                source.as_str(),
            ),
            ApiError::FixtureParse { path, source } => joined4(
                "failed to parse fixture `",
                path.as_str(),
                "`: ",
                source.as_str(),
            ),
            ApiError::FixtureSchema { path, reason } => joined4(
                "fixture schema error for `",
                path.as_str(),
                "`: ",
                reason.as_str(),
            ),
        }
    }

    /// Returns a safe user-facing message with reduced leakage risk: the
    /// error's text with the values after secret markers masked.
    pub fn redacted_message(&self) -> (text: String)
        ensures
            text@ == redacted(error_text(*self)),
    {
        let full = self.message();
        redact_sensitive(full.as_str())
    }
}

} // verus!
