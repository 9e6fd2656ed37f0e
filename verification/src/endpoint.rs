//! API base URL validation and endpoint resolution.
//!
//! A URL is carried as the plain values that the `url` crate reports for it:
//! its serialization, scheme, host and path.

use vstd::prelude::*;
use vstd::string::StringExecFns;
use crate::attachment::opt_text;

verus! {

/// Canonical default API host used by MAX public documentation.
pub const DEFAULT_API_HOST: &'static str = "platform-api.max.ru";

/// Canonical default API base URL for MAX API calls.
pub const DEFAULT_API_BASE_URL: &'static str = "https://platform-api.max.ru";

/// Declares the URL type of the `url` crate.
#[verifier::external_type_specification]
#[verifier::external_body]
pub struct ExUrl(url::Url);

/// A parsed absolute URL with the parts the library reads. It is made only
/// from what the `url` crate reports for the URL it holds.
#[derive(Debug, PartialEq, Eq)]
pub struct ParsedUrl {
    url: url::Url,
    serialization: String,
    scheme: String,
    host: Option<String>,
    path: String,
}

impl Clone for ParsedUrl {
    /// A copy made with `url::Url`'s derived `Clone`, which copies the
    /// serialization and offsets unchanged, and copies of the parts.
    #[verifier::external_body]
    fn clone(&self) -> (c: Self)
        ensures
            url_view(c) == url_view(*self),
    {
        ParsedUrl {
            url: self.url.clone(),
            serialization: self.serialization.clone(),
            scheme: self.scheme.clone(),
            host: self.host.clone(),
            path: self.path.clone(),
        }
    }
}

impl ParsedUrl {
    /// The full serialization.
    pub fn as_str(&self) -> (s: &str)
        ensures
            s@ == url_view(*self).0,
    {
        self.serialization.as_str()
    }

    /// The scheme, without `:`.
    pub fn scheme(&self) -> (s: &str)
        ensures
            s@ == url_view(*self).1,
    {
        self.scheme.as_str()
    }

    /// The host, when the URL has one.
    pub fn host_str(&self) -> (h: Option<&str>)
        ensures
            crate::attachment::opt_slice(h) == url_view(*self).2,
    {
        match &self.host {
            Some(h) => Some(h.as_str()),
            None => None,
        }
    }

    /// The path.
    pub fn path(&self) -> (p: &str)
        ensures
            p@ == url_view(*self).3,
    {
        self.path.as_str()
    }

    /// Parses an absolute URL; a failure gives the parse error's text.
    pub fn parse(input: &str) -> (r: Result<ParsedUrl, String>)
        ensures
            match r {
                Ok(u) => url_parse(input@) == Ok::<_, Seq<char>>(url_view(u)),
                Err(m) => url_parse(input@) == Err::<(Seq<char>, Seq<char>, Option<Seq<char>>, Seq<char>), _>(
                    m@,
                ),
            },
    {
        parse_url(input)
    }
}

/// The parts of a parsed URL: serialization, scheme, host and path.
pub closed spec fn url_view(u: ParsedUrl) -> (Seq<char>, Seq<char>, Option<Seq<char>>, Seq<char>) {
    (u.serialization@, u.scheme@, opt_text(u.host), u.path@)
}

/// What `url::Url::parse` gives for an input: the parts of the URL, or the
/// text of the parse error.
pub uninterp spec fn url_parse(input: Seq<char>) -> Result<
    (Seq<char>, Seq<char>, Option<Seq<char>>, Seq<char>),
    Seq<char>,
>;

/// What `url::Url::join` gives for a URL, by its serialization, and a
/// relative input: the parts of the joined URL, or the text of the parse
/// error.
pub uninterp spec fn url_join(base: Seq<char>, input: Seq<char>) -> Result<
    (Seq<char>, Seq<char>, Option<Seq<char>>, Seq<char>),
    Seq<char>,
>;

/// What `url::Url::set_path` gives for a URL, by its serialization, and a
/// path: the parts of the changed URL.
pub uninterp spec fn url_path_set(serialization: Seq<char>, path: Seq<char>) -> (
    Seq<char>,
    Seq<char>,
    Option<Seq<char>>,
    Seq<char>,
);

/// What `url::Url::set_query(None)` gives for a URL, by its serialization:
/// the parts of the changed URL.
pub uninterp spec fn url_query_cleared(serialization: Seq<char>) -> (
    Seq<char>,
    Seq<char>,
    Option<Seq<char>>,
    Seq<char>,
);

/// What `url::Url::set_fragment(None)` gives for a URL, by its
/// serialization: the parts of the changed URL.
pub uninterp spec fn url_fragment_cleared(serialization: Seq<char>) -> (
    Seq<char>,
    Seq<char>,
    Option<Seq<char>>,
    Seq<char>,
);

/// Parses an absolute URL with `url::Url::parse`, reading its serialization,
/// scheme, host and path; a failure gives the parse error's text.
#[verifier::external_body]
pub(crate) fn parse_url(input: &str) -> (r: Result<ParsedUrl, String>)
    ensures
        match r {
            Ok(u) => url_parse(input@) == Ok::<_, Seq<char>>(url_view(u)),
            Err(m) => url_parse(input@) == Err::<(Seq<char>, Seq<char>, Option<Seq<char>>, Seq<char>), _>(m@),
        },
{
    match url::Url::parse(input) {
        Ok(u) => Ok(ParsedUrl {
            serialization: u.as_str().to_owned(),
            scheme: u.scheme().to_owned(),
            host: u.host_str().map(|h| h.to_owned()),
            path: u.path().to_owned(),
            url: u,
        }),
        Err(e) => Err(e.to_string()),
    }
}

/// Joins a relative input onto a base URL with `url::Url::join`, reading the
/// joined URL's serialization, scheme, host and path; a failure gives the
/// error's text.
#[verifier::external_body]
pub(crate) fn join_url(base: &ParsedUrl, input: &str) -> (r: Result<ParsedUrl, String>)
    ensures
        match r {
            Ok(u) => url_join(url_view(*base).0, input@) == Ok::<_, Seq<char>>(url_view(u)),
            Err(m) => url_join(url_view(*base).0, input@) == Err::<(Seq<char>, Seq<char>, Option<Seq<char>>, Seq<char>), _>(m@),
        },
{
    match base.url.join(input) {
        Ok(u) => Ok(ParsedUrl {
            serialization: u.as_str().to_owned(),
            scheme: u.scheme().to_owned(),
            host: u.host_str().map(|h| h.to_owned()),
            path: u.path().to_owned(),
            url: u,
        }),
        Err(e) => Err(e.to_string()),
    }
}

/// Replaces the path of a URL with `url::Url::set_path`, reading the
/// changed URL's serialization, scheme, host and path.
#[verifier::external_body]
fn set_url_path(u: ParsedUrl, path: &str) -> (r: ParsedUrl)
    ensures
        url_view(r) == url_path_set(url_view(u).0, path@),
{
    let mut url = u.url;
    url.set_path(path);
    ParsedUrl {
        serialization: url.as_str().to_owned(),
        scheme: url.scheme().to_owned(),
        host: url.host_str().map(|h| h.to_owned()),
        path: url.path().to_owned(),
        url,
    }
}

/// Removes the query of a URL with `url::Url::set_query(None)`, reading the
/// changed URL's serialization, scheme, host and path.
#[verifier::external_body]
fn clear_url_query(u: ParsedUrl) -> (r: ParsedUrl)
    ensures
        url_view(r) == url_query_cleared(url_view(u).0),
{
    let mut url = u.url;
    url.set_query(None);
    ParsedUrl {
        serialization: url.as_str().to_owned(),
        scheme: url.scheme().to_owned(),
        host: url.host_str().map(|h| h.to_owned()),
        path: url.path().to_owned(),
        url,
    }
}

/// Removes the fragment of a URL with `url::Url::set_fragment(None)`,
/// reading the changed URL's serialization, scheme, host and path.
#[verifier::external_body]
fn clear_url_fragment(u: ParsedUrl) -> (r: ParsedUrl)
    ensures
        url_view(r) == url_fragment_cleared(url_view(u).0),
{
    let mut url = u.url;
    url.set_fragment(None);
    ParsedUrl {
        serialization: url.as_str().to_owned(),
        scheme: url.scheme().to_owned(),
        host: url.host_str().map(|h| h.to_owned()),
        path: url.path().to_owned(),
        url,
    }
}

/// Errors produced during endpoint/base URL validation and resolution.
#[derive(Debug, Clone, PartialEq, Eq)]
pub enum EndpointResolverError {
    /// Base URL string could not be parsed.
    InvalidBaseUrl {
        /// The raw base URL input that failed to parse.
        input: String,
        /// Text of the parse error.
        source: String,
    },
    /// Endpoint path could not be resolved against base URL.
    InvalidEndpointPath {
        /// The endpoint path argument.
        path: String,
        /// Text of the parse error.
        source: String,
    },
    /// Base URL was parsed but does not have a host segment.
    MissingHost,
    /// Base URL is not HTTPS.
    NonHttpsScheme {
        /// Found URL scheme.
        scheme: String,
    },
}

/// Text of an endpoint error.
pub open spec fn endpoint_error_text(e: EndpointResolverError) -> Seq<char> {
    match e {
        EndpointResolverError::InvalidBaseUrl { input, .. } => "API base URL '"@ + input@
            + "' is invalid"@,
        EndpointResolverError::InvalidEndpointPath { path, .. } => "endpoint path '"@ + path@
            + "' cannot be resolved"@,
        EndpointResolverError::MissingHost => "API base URL must include a host"@,
        EndpointResolverError::NonHttpsScheme { scheme } => "API base URL must use https, got '"@
            + scheme@ + "'"@,
    }
}

impl EndpointResolverError {
    /// Human-readable description of the failure.
    pub fn message(&self) -> (text: String)
        ensures
            text@ == endpoint_error_text(*self),
    {
        match self {
            EndpointResolverError::InvalidBaseUrl { input, .. } => {
                let mut s = String::from_str("API base URL '");
                s.append(input.as_str());
                s.append("' is invalid");
                s
            },
            EndpointResolverError::InvalidEndpointPath { path, .. } => {
                let mut s = String::from_str("endpoint path '");
                s.append(path.as_str());
                s.append("' cannot be resolved");
                s
            },
            EndpointResolverError::MissingHost => String::from_str("API base URL must include a host"),
            EndpointResolverError::NonHttpsScheme { scheme } => {
                let mut s = String::from_str("API base URL must use https, got '");
                s.append(scheme.as_str());
                s.append("'");
                s
            },
        }
    }
}

/// Validates HTTPS and host requirements for API base URL.
pub fn validate_api_base_url(base_url: &ParsedUrl) -> (r: Result<(), EndpointResolverError>)
    ensures
        url_view(*base_url).2 is None ==> r == Err::<(), _>(EndpointResolverError::MissingHost),
        url_view(*base_url).2 is Some && url_view(*base_url).1 != "https"@ ==> (r matches Err(
            EndpointResolverError::NonHttpsScheme { scheme },
        ) && scheme@ == url_view(*base_url).1),
        url_view(*base_url).2 is Some && url_view(*base_url).1 == "https"@ ==> r is Ok,
{
    if base_url.host.is_none() {
        return Err(EndpointResolverError::MissingHost);
    }
    if !crate::text::str_eq(base_url.scheme.as_str(), "https") {
        return Err(EndpointResolverError::NonHttpsScheme { scheme: base_url.scheme.clone() });
    }
    Ok(())
}

/// Whether a text ends with `/`.
pub open spec fn ends_with_slash(s: Seq<char>) -> bool {
    s.len() > 0 && s.last() == '/'
}

/// Text without its trailing `/` characters.
pub open spec fn trim_trailing_slashes(s: Seq<char>) -> Seq<char>
    decreases s.len(),
{
    if ends_with_slash(s) {
        trim_trailing_slashes(s.drop_last())
    } else {
        s
    }
}

/// Text without its leading `/` characters.
pub open spec fn trim_leading_slashes(s: Seq<char>) -> Seq<char>
    decreases s.len(),
{
    if s.len() > 0 && s[0] == '/' {
        trim_leading_slashes(s.drop_first())
    } else {
        s
    }
}

/// The characters of a text after its leading `/` characters.
pub fn strip_leading_slashes(s: &str) -> (r: String)
    ensures
        r@ == trim_leading_slashes(s@),
{
    let v = crate::text::chars_of(s);
    let mut i: usize = 0;
    assert(s@.skip(0) =~= s@);
    while i < v.len() && v[i] == '/'
        invariant
            i <= v.len(),
            v@ == s@,
            trim_leading_slashes(s@) == trim_leading_slashes(s@.skip(i as int)),
        decreases v.len() - i,
    {
        assert(s@.skip(i as int).drop_first() == s@.skip(i + 1));
        i = i + 1;
    }
    let mut out: Vec<char> = Vec::new();
    let mut j: usize = i;
    while j < v.len()
        invariant
            i <= j <= v.len(),
            v@ == s@,
            out@ == s@.subrange(i as int, j as int),
        decreases v.len() - j,
    {
        out.push(v[j]);
        j = j + 1;
    }
    assert(out@ == s@.skip(i as int));
    crate::text::string_from_chars(&out)
}

/// The characters of a text before its trailing `/` characters.
fn strip_trailing_slashes(s: &str) -> (r: String)
    ensures
        r@ == trim_trailing_slashes(s@),
{
    let v = crate::text::chars_of(s);
    let mut n: usize = v.len();
    assert(s@.take(n as int) =~= s@);
    while n > 0 && v[n - 1] == '/'
        invariant
            n <= v.len(),
            v@ == s@,
            trim_trailing_slashes(s@) == trim_trailing_slashes(s@.take(n as int)),
        decreases n,
    {
        assert(s@.take(n as int).drop_last() == s@.take(n - 1));
        n = n - 1;
    }
    let mut out: Vec<char> = Vec::new();
    let mut j: usize = 0;
    while j < n
        invariant
            j <= n <= v.len(),
            v@ == s@,
            out@ == s@.take(j as int),
        decreases n - j,
    {
        out.push(v[j]);
        j = j + 1;
        assert(out@ == s@.take(j as int));
    }
    proof {
        if n > 0 {
            assert(!ends_with_slash(s@.take(n as int)));
        }
    }
    crate::text::string_from_chars(&out)
}

/// Normalized form of a base URL: a path that does not end with `/` gets
/// its trailing slashes trimmed and one `/` appended; then the query and
/// the fragment are cleared.
pub open spec fn normalized_parts(u: (Seq<char>, Seq<char>, Option<Seq<char>>, Seq<char>)) -> (
    Seq<char>,
    Seq<char>,
    Option<Seq<char>>,
    Seq<char>,
) {
    let with_path = if ends_with_slash(u.3) {
        u
    } else {
        url_path_set(u.0, trim_trailing_slashes(u.3).push('/'))
    };
    url_fragment_cleared(url_query_cleared(with_path.0).0)
}

/// Normalizes a parsed base URL (see `normalized_parts`).
fn normalize_base_url(base_url: ParsedUrl) -> (r: ParsedUrl)
    ensures
        url_view(r) == normalized_parts(url_view(base_url)),
{
    let v = crate::text::chars_of(base_url.path.as_str());
    let with_path = if v.len() > 0 && v[v.len() - 1] == '/' {
        base_url
    } else {
        let mut path = strip_trailing_slashes(base_url.path.as_str());
        crate::text::push_char(&mut path, '/');
        set_url_path(base_url, path.as_str())
    };
    let without_query = clear_url_query(with_path);
    clear_url_fragment(without_query)
}

/// `r` is the outcome of parsing and validating the base URL `input`: a
/// parse failure with the input and the parser's message, a missing host, a
/// scheme other than `https` with that scheme, or the normalized URL.
pub open spec fn base_url_result_ok(
    r: Result<(Seq<char>, Seq<char>, Option<Seq<char>>, Seq<char>), EndpointResolverError>,
    input: Seq<char>,
) -> bool {
    match r {
        Ok(u) => url_parse(input) matches Ok(p) && p.2 is Some && p.1 == "https"@ && u
            == normalized_parts(p),
        Err(EndpointResolverError::InvalidBaseUrl { input: i, source }) => i@ == input
            && url_parse(input) == Err::<(Seq<char>, Seq<char>, Option<Seq<char>>, Seq<char>), _>(
            source@,
        ),
        Err(EndpointResolverError::MissingHost) => url_parse(input) matches Ok(p) && p.2 is None,
        Err(EndpointResolverError::NonHttpsScheme { scheme }) => url_parse(input) matches Ok(p)
            && p.2 is Some && p.1 != "https"@ && scheme@ == p.1,
        Err(EndpointResolverError::InvalidEndpointPath { .. }) => false,
    }
}

/// The parts of a parsed URL result.
pub open spec fn parts_result(r: Result<ParsedUrl, EndpointResolverError>) -> Result<
    (Seq<char>, Seq<char>, Option<Seq<char>>, Seq<char>),
    EndpointResolverError,
> {
    match r {
        Ok(u) => Ok(url_view(u)),
        Err(e) => Err(e),
    }
}

/// The base URL parts of a resolver result.
pub open spec fn resolver_result(r: Result<EndpointResolver, EndpointResolverError>) -> Result<
    (Seq<char>, Seq<char>, Option<Seq<char>>, Seq<char>),
    EndpointResolverError,
> {
    match r {
        Ok(res) => Ok(res.base_view()),
        Err(e) => Err(e),
    }
}

/// Parses and validates API base URL from string input.
pub fn parse_and_validate_api_base_url(input: &str) -> (r: Result<ParsedUrl, EndpointResolverError>)
    ensures
        base_url_result_ok(parts_result(r), input@),
{
    let parsed = match parse_url(input) {
        Ok(u) => u,
        Err(source) => {
            return Err(EndpointResolverError::InvalidBaseUrl { input: input.to_string(), source });
        },
    };
    validate_api_base_url(&parsed)?;
    Ok(normalize_base_url(parsed))
}

/// Resolves API endpoint URLs from a validated API base URL.
#[derive(Debug, Clone, PartialEq, Eq)]
pub struct EndpointResolver {
    base_url: ParsedUrl,
}

impl EndpointResolver {
    /// The parts of the base URL.
    pub closed spec fn base_view(self) -> (Seq<char>, Seq<char>, Option<Seq<char>>, Seq<char>) {
        url_view(self.base_url)
    }

    /// Creates a resolver from an explicit override string.
    pub fn with_override(base_url: &str) -> (r: Result<Self, EndpointResolverError>)
        ensures
            base_url_result_ok(resolver_result(r), base_url@),
    {
        let parsed = parse_and_validate_api_base_url(base_url)?;
        Ok(EndpointResolver { base_url: parsed })
    }

    /// Creates a resolver from an optional override string; without one the
    /// default MAX API base URL is used.
    pub fn from_optional_override(override_base_url: Option<&str>) -> (r: Result<
        Self,
        EndpointResolverError,
    >)
        ensures
            override_base_url is None ==> (r matches Ok(res) && res.base_view() == default_base_view()),
            override_base_url matches Some(u) ==> base_url_result_ok(resolver_result(r), u@),
    {
        match override_base_url {
            Some(url) => EndpointResolver::with_override(url),
            None => Ok(EndpointResolver::new()),
        }
    }

    /// Creates a resolver from a parsed URL: it must have a host and use
    /// `https`; it is then normalized.
    pub fn from_url(base_url: ParsedUrl) -> (r: Result<Self, EndpointResolverError>)
        ensures
            url_view(base_url).2 is None ==> r == Err::<Self, _>(EndpointResolverError::MissingHost),
            url_view(base_url).2 is Some && url_view(base_url).1 != "https"@ ==> (r matches Err(
                EndpointResolverError::NonHttpsScheme { scheme },
            ) && scheme@ == url_view(base_url).1),
            url_view(base_url).2 is Some && url_view(base_url).1 == "https"@ ==> (r matches Ok(res)
                && res.base_view() == normalized_parts(url_view(base_url))),
    {
        validate_api_base_url(&base_url)?;
        Ok(EndpointResolver { base_url: normalize_base_url(base_url) })
    }

    /// Creates a resolver for the canonical MAX API base URL.
    pub fn new() -> (r: Self)
        ensures
            r.base_view() == default_base_view(),
    {
        EndpointResolver { base_url: default_base_url() }
    }

    /// Returns the validated base URL.
    pub fn base_url(&self) -> (u: &ParsedUrl)
        ensures
            url_view(*u) == self.base_view(),
    {
        &self.base_url
    }

    /// Resolves an endpoint path into a full URL; both `me` and `/me` forms
    /// are accepted.
    pub fn resolve(&self, path: &str) -> (r: Result<ParsedUrl, EndpointResolverError>)
        ensures
            match url_join(self.base_view().0, trim_leading_slashes(path@)) {
                Ok(parts) => r matches Ok(u) && url_view(u) == parts,
                Err(m) => r matches Err(EndpointResolverError::InvalidEndpointPath { path: p, source })
                    && p@ == path@ && source@ == m,
            },
    {
        let normalized = strip_leading_slashes(path);
        match join_url(&self.base_url, normalized.as_str()) {
            Ok(u) => Ok(u),
            Err(source) => Err(EndpointResolverError::InvalidEndpointPath { path: path.to_string(), source }),
        }
    }
}

/// The parts of the default base URL as `url` serializes it.
pub open spec fn default_base_view() -> (Seq<char>, Seq<char>, Option<Seq<char>>, Seq<char>) {
    ("https://platform-api.max.ru/"@, "https"@, Some("platform-api.max.ru"@), "/"@)
}

/// The default base URL: `url::Url::parse` of `https://platform-api.max.ru/`,
/// which the `url` crate serializes unchanged, with scheme `https`, host
/// `platform-api.max.ru` and path `/`.
#[verifier::external_body]
pub(crate) fn default_base_url() -> (u: ParsedUrl)
    ensures
        url_view(u) == default_base_view(),
{
    let url = url::Url::parse("https://platform-api.max.ru/").expect("the default base URL is valid");
    ParsedUrl {
        serialization: url.as_str().to_owned(),
        scheme: url.scheme().to_owned(),
        host: url.host_str().map(|h| h.to_owned()),
        path: url.path().to_owned(),
        url,
    }
}

impl Default for EndpointResolver {
    fn default() -> (r: Self)
        ensures
            r.base_view() == default_base_view(),
    {
        EndpointResolver::new()
    }
}

} // verus!
