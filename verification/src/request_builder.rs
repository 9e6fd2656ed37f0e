//! Request builder for normalized HTTP requests.

use vstd::prelude::*;
use vstd::string::StringExecFns;
use crate::api_error::ApiError;
use crate::authorization::{ensure_no_query_auth, header_name, header_name_ok, has_query_auth, header_value, header_value_ok};
use crate::endpoint::{ParsedUrl, join_url, strip_leading_slashes, trim_leading_slashes, url_join};
use crate::json::{JsonModel, JsonValue, model};
use crate::redaction::lower;

verus! {

/// Name under which an idempotency key is reported in errors.
pub const IDEMPOTENCY_KEY_HEADER: &'static str = "Idempotency-Key";

/// HTTP methods used by the MAX Bot API.
#[derive(Debug, Clone, Copy, PartialEq, Eq, Structural)]
pub enum HttpMethod {
    /// `GET`.
    Get,
    /// `POST`.
    Post,
    /// `PUT`.
    Put,
    /// `PATCH`.
    Patch,
    /// `DELETE`.
    Delete,
}

/// A finalized request, ready for an HTTP executor.
#[derive(Debug)]
pub struct HttpRequest {
    /// HTTP method.
    pub method: HttpMethod,
    /// Absolute URL, without query.
    pub url: String,
    /// Headers by lowercase name.
    pub headers: Vec<(String, String)>,
    /// Query parameters in order.
    pub query: Vec<(String, String)>,
    /// JSON body.
    pub body_json: Option<JsonValue>,
}

/// The header list without entries named `name`.
pub open spec fn without_header(
    headers: Seq<(String, String)>,
    name: Seq<char>,
) -> Seq<(String, String)>
    decreases headers.len(),
{
    if headers.len() == 0 {
        Seq::empty()
    } else {
        let rest = without_header(headers.drop_last(), name);
        if headers.last().0@ == name {
            rest
        } else {
            rest.push(headers.last())
        }
    }
}

/// Sets a header: entries with the same name are replaced by one new entry
/// at the end.
fn set_header(headers: &mut Vec<(String, String)>, name: String, value: String)
    ensures
        final(headers)@ == without_header(old(headers)@, name@).push((name, value)),
{
    let ghost src = headers@;
    let ghost mut k: int = 0;
    let mut i: usize = 0;
    while i < headers.len()
        invariant
            0 <= k <= src.len(),
            i == without_header(src.take(k), name@).len(),
            headers@ == without_header(src.take(k), name@) + src.skip(k),
        decreases headers.len() - i,
    {
        proof {
            assert(src.take(k + 1).drop_last() == src.take(k));
            assert(src.take(k + 1).last() == src[k]);
            assert(headers@[i as int] == src[k]);
        }
        if crate::text::str_eq(headers[i].0.as_str(), name.as_str()) {
            let _removed = headers.remove(i);
            proof {
                assert(headers@ =~= without_header(src.take(k + 1), name@) + src.skip(k + 1));
            }
        } else {
            i = i + 1;
            proof {
                assert(headers@ =~= without_header(src.take(k + 1), name@) + src.skip(k + 1));
            }
        }
        proof {
            k = k + 1;
        }
    }
    proof {
        if k < src.len() {
            assert(headers@.len() > i);
        }
        assert(src.take(src.len() as int) == src);
        assert(headers@ =~= without_header(src, name@));
    }
    headers.push((name, value));
}

/// Strips leading `/` characters so that paths join under the base path.
pub fn normalize_path(path: &str) -> (r: String)
    ensures
        r@ == trim_leading_slashes(path@),
{
    strip_leading_slashes(path)
}

/// The view of an optional JSON body.
pub open spec fn body_view(b: Option<JsonValue>) -> Option<JsonModel> {
    match b {
        Some(v) => Some(model(v)),
        None => None,
    }
}

/// The view of a query parameter list.
pub open spec fn query_view(q: Seq<(String, String)>) -> Seq<(Seq<char>, Seq<char>)> {
    q.map_values(|p: (String, String)| (p.0@, p.1@))
}

/// The view of a request builder.
pub struct BuilderModel {
    /// Base URL serialization.
    pub base: Seq<char>,
    /// HTTP method.
    pub method: HttpMethod,
    /// Path as given.
    pub path: Seq<char>,
    /// Query parameters in order.
    pub query: Seq<(Seq<char>, Seq<char>)>,
    /// Headers.
    pub headers: Seq<(String, String)>,
    /// JSON body.
    pub body: Option<JsonModel>,
    /// Idempotency key.
    pub idempotency_key: Option<Seq<char>>,
}

/// Builder for [`HttpRequest`] instances.
#[derive(Debug)]
pub struct RequestBuilder {
    base_url: ParsedUrl,
    method: HttpMethod,
    path: String,
    query: Vec<(String, String)>,
    headers: Vec<(String, String)>,
    body_json: Option<JsonValue>,
    idempotency_key: Option<String>,
}

impl View for RequestBuilder {
    type V = BuilderModel;

    closed spec fn view(&self) -> BuilderModel {
        BuilderModel {
            base: crate::endpoint::url_view(self.base_url).0,
            method: self.method,
            path: self.path@,
            query: query_view(self.query@),
            headers: self.headers@,
            body: body_view(self.body_json),
            idempotency_key: crate::attachment::opt_text(self.idempotency_key),
        }
    }
}

impl RequestBuilder {
    /// Creates a new request builder.
    pub fn new(base_url: ParsedUrl, method: HttpMethod, path: String) -> (b: Self)
        ensures
            b@ == (BuilderModel {
                base: crate::endpoint::url_view(base_url).0,
                method,
                path: path@,
                query: Seq::empty(),
                headers: Seq::empty(),
                body: None,
                idempotency_key: None,
            }),
    {
        let b = RequestBuilder {
            base_url,
            method,
            path,
            query: Vec::new(),
            headers: Vec::new(),
            body_json: None,
            idempotency_key: None,
        };
        assert(query_view(b.query@) =~= Seq::empty());
        b
    }

    /// Adds a query parameter.
    pub fn with_query_param(self, key: String, value: String) -> (b: Self)
        ensures
            b@ == (BuilderModel { query: self@.query.push((key@, value@)), ..self@ }),
    {
        let mut b = self;
        let ghost before = b.query@;
        b.query.push((key, value));
        assert(query_view(b.query@) =~= query_view(before).push((key@, value@)));
        b
    }

    /// Adds a header under its lowercased name, replacing any value under the
    /// same name. An invalid name is refused first, then an invalid value;
    /// either error names the header.
    pub fn with_header(self, name: &str, value: &str) -> (r: Result<Self, ApiError>)
        ensures
            !header_name_ok(name@) ==> (r matches Err(ApiError::InvalidHeader { header, reason })
                && header@ == name@ && reason@ == "invalid HTTP header name"@),
            header_name_ok(name@) && !header_value_ok(value@) ==> (r matches Err(
                ApiError::InvalidHeader { header, reason },
            ) && header@ == lower(name@) && reason@ == "failed to parse header value"@),
            header_name_ok(name@) && header_value_ok(value@) ==> (r matches Ok(b)
                && b@.headers.drop_last() == without_header(self@.headers, lower(name@))
                && b@.headers.len() > 0 && b@.headers.last().0@ == lower(name@)
                && b@.headers.last().1@ == value@ && b@ == (BuilderModel {
                headers: b@.headers,
                ..self@
            })),
    {
        let n = header_name(name)?;
        let v = header_value(n.as_str(), value)?;
        let mut b = self;
        set_header(&mut b.headers, n, v);
        Ok(b)
    }

    /// Sets an idempotency key.
    pub fn with_idempotency_key(self, value: String) -> (b: Self)
        ensures
            b@ == (BuilderModel { idempotency_key: Some(value@), ..self@ }),
    {
        RequestBuilder { idempotency_key: Some(value), ..self }
    }

    /// Adds a JSON body.
    pub fn with_body(self, body: JsonValue) -> (b: Self)
        ensures
            b@ == (BuilderModel { body: Some(model(body)), ..self@ }),
    {
        RequestBuilder { body_json: Some(body), ..self }
    }

    /// Builds a finalized request: refuses query authentication, turns the
    /// idempotency key into an `idempotency-key` header, and joins the path,
    /// without leading slashes, onto the base URL.
    pub fn build(self) -> (r: Result<HttpRequest, ApiError>)
        ensures
            has_query_auth_view(self@.query) ==> r matches Err(ApiError::QueryAuthenticationForbidden),
            !has_query_auth_view(self@.query) && bad_key(self@.idempotency_key) ==> (r matches Err(ApiError::InvalidHeader { header, reason })
                && header@ == "Idempotency-Key"@ && reason@ == "failed to parse header value"@),
            !has_query_auth_view(self@.query) && !bad_key(self@.idempotency_key) ==> match url_join(
                self@.base,
                trim_leading_slashes(self@.path),
            ) {
                Err(_) => r matches Err(ApiError::UrlJoinError { base, path }) && base@ == self@.base
                    && path@ == trim_leading_slashes(self@.path),
                Ok(url) => r matches Ok(req) && req.url@ == url.0 && req.method == self@.method
                    && query_view(req.query@) == self@.query && body_view(req.body_json)
                    == self@.body && (self@.idempotency_key is None ==> req.headers@
                    == self@.headers) && (self@.idempotency_key is Some ==> req.headers@.len() > 0
                    && req.headers@.drop_last() == without_header(
                    self@.headers,
                    "idempotency-key"@,
                ) && req.headers@.last().0@ == "idempotency-key"@ && self@.idempotency_key
                    == Some(req.headers@.last().1@)),
            },
    {
        proof {
            lemma_query_auth_view(self.query@);
        }
        ensure_no_query_auth(self.query.as_slice())?;
        let mut headers = self.headers;
        match self.idempotency_key {
            Some(key) => {
                let value = header_value(IDEMPOTENCY_KEY_HEADER, key.as_str())?;
                set_header(&mut headers, String::from_str("idempotency-key"), value);
            },
            None => {},
        }
        let path = normalize_path(self.path.as_str());
        let url = match join_url(&self.base_url, path.as_str()) {
            Ok(u) => u.as_str().to_string(),
            Err(_) => {
                return Err(
                    ApiError::UrlJoinError { base: self.base_url.as_str().to_string(), path },
                );
            },
        };
        Ok(HttpRequest { method: self.method, url, headers, query: self.query, body_json: self.body_json })
    }
}

/// An idempotency key is set and is not a valid header value.
pub open spec fn bad_key(key: Option<Seq<char>>) -> bool {
    match key {
        Some(k) => !header_value_ok(k),
        None => false,
    }
}

/// Some query parameter, by its view, is named `access_token`.
pub open spec fn has_query_auth_view(q: Seq<(Seq<char>, Seq<char>)>) -> bool {
    exists|i: int| 0 <= i < q.len() && #[trigger] q[i].0 == "access_token"@
}

/// Query authentication reads the same on a query list and on its view.
pub proof fn lemma_query_auth_view(q: Seq<(String, String)>)
    ensures
        has_query_auth(q) == has_query_auth_view(query_view(q)),
{
    if has_query_auth(q) {
        let i = choose|i: int| 0 <= i < q.len() && #[trigger] q[i].0@ == "access_token"@;
        assert(query_view(q)[i].0 == "access_token"@);
    }
    if has_query_auth_view(query_view(q)) {
        let i = choose|i: int| 0 <= i < query_view(q).len() && #[trigger] query_view(q)[i].0
            == "access_token"@;
        assert(q[i].0@ == "access_token"@);
    }
}

/// A name of lowercase letters and `-` is a valid header name in normal form.
proof fn lemma_lowercase_header_name(s: Seq<char>)
    requires
        0 < s.len() <= 65535,
        forall|i: int| 0 <= i < s.len() ==> ('a' <= #[trigger] s[i] && s[i] <= 'z') || s[i] == '-',
    ensures
        header_name_ok(s),
        lower(s) == s,
{
    assert(lower(s) =~= s);
}

/// A request builder with the bot token in the `authorization` header and
/// the user agent in the `user-agent` header; a blank token is refused first.
pub fn authorized_request(
    base_url: ParsedUrl,
    method: HttpMethod,
    path: String,
    token: &str,
    user_agent: &str,
) -> (r: Result<RequestBuilder, ApiError>)
    ensures
        crate::text::blank(token@) ==> (r matches Err(e) && crate::requests::is_config_error(
            e,
            "token cannot be empty"@,
        )),
        !crate::text::blank(token@) && !header_value_ok(token@) ==> (r matches Err(
            ApiError::InvalidHeader { header, reason },
        ) && header@ == "authorization"@ && reason@ == "failed to parse header value"@),
        !crate::text::blank(token@) && header_value_ok(token@) && !header_value_ok(user_agent@) ==> (
        r matches Err(ApiError::InvalidHeader { header, reason }) && header@ == "user-agent"@
            && reason@ == "failed to parse header value"@),
        !crate::text::blank(token@) && header_value_ok(token@) && header_value_ok(user_agent@) ==> (
        r matches Ok(b) && b@.base == crate::endpoint::url_view(base_url).0 && b@.method == method && b@.path
            == path@ && b@.query.len() == 0 && b@.body is None && b@.idempotency_key is None
            && b@.headers.len() == 2 && b@.headers[0].0@ == "authorization"@ && b@.headers[0].1@
            == token@ && b@.headers[1].0@ == "user-agent"@ && b@.headers[1].1@ == user_agent@),
{
    crate::authorization::authorization_header_value(token)?;
    let b = RequestBuilder::new(base_url, method, path);
    proof {
        reveal_strlit("authorization");
        reveal_strlit("user-agent");
        lemma_lowercase_header_name("authorization"@);
        lemma_lowercase_header_name("user-agent"@);
    }
    let b = b.with_header("authorization", token)?;
    let ghost h1 = b@.headers;
    proof {
        reveal_strlit("authorization");
        reveal_strlit("user-agent");

        assert("authorization"@[0] != "user-agent"@[0]);
        assert(h1.drop_last() =~= Seq::<(String, String)>::empty());
        assert(h1.len() == 1);
        assert(h1[0].0@ == "authorization"@);
        assert(h1.drop_last().len() == 0);
        assert(without_header(h1, "user-agent"@) =~= h1) by {
            reveal_with_fuel(without_header, 2);
            assert(h1.drop_last().push(h1.last()) =~= h1);
        }
    }
    let b = b.with_header("user-agent", user_agent)?;
    Ok(b)
}

} // verus!
