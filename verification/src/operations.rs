//! API calls planned from validated requests: method, path and query of each
//! operation of the MAX Bot API client.

use vstd::prelude::*;
use vstd::string::StringExecFns;
use crate::api_error::ApiError;
use crate::api_paths::{ANSWERS, MESSAGES, SUBSCRIPTIONS, UPDATES, UPLOADS, path_error_text, segment_check};
use crate::json::{JsonValue, model};
use crate::request_builder::{
    BuilderModel, HttpMethod, RequestBuilder, authorized_request, body_view, query_view,
};
use crate::authorization::header_value_ok;
use crate::endpoint::{ParsedUrl, url_view};
use crate::requests::{
    AddMembersRequest, CallbackAnswerRequest, CreateSubscriptionRequest, EditMessageRequest,
    GetUpdatesRequest, PinMessageRequest, SendActionRequest, SendMessageRequest, UploadType,
    answer_check, answer_error, config_error, edit_error, edit_ok, is_config_error, opt_body,
    send_error, send_ok, subscription_error, updates_request_error, upload_type_name,
};
use crate::attachment::opt_text;
use crate::text::{blank, decimal, decimal_int, decimal_string, decimal_string_i64, is_blank};

verus! {

/// A planned API call. A request body, where the operation has one, is the
/// request value that the caller sends along.
#[derive(Debug)]
pub struct ApiCall {
    /// HTTP method.
    pub method: HttpMethod,
    /// Path below the base URL.
    pub path: String,
    /// Query parameters in order.
    pub query: Vec<(String, String)>,
}

/// The view of a call: method, path and query parameters.
pub open spec fn call_view(c: ApiCall) -> (HttpMethod, Seq<char>, Seq<(Seq<char>, Seq<char>)>) {
    (c.method, c.path@, query_view(c.query@))
}

/// A boolean as text.
pub open spec fn bool_text(b: bool) -> Seq<char> {
    if b {
        "true"@
    } else {
        "false"@
    }
}

/// A boolean as text.
fn bool_string(b: bool) -> (s: String)
    ensures
        s@ == bool_text(b),
{
    if b {
        String::from_str("true")
    } else {
        String::from_str("false")
    }
}

/// A call with no query parameters.
fn call(method: HttpMethod, path: String) -> (c: ApiCall)
    ensures
        call_view(c) == (method, path@, Seq::<(Seq<char>, Seq<char>)>::empty()),
{
    let c = ApiCall { method, path, query: Vec::new() };
    assert(query_view(c.query@) =~= Seq::empty());
    c
}

/// Appends a query parameter to a call.
fn add_query(c: &mut ApiCall, key: &str, value: String)
    ensures
        call_view(*final(c)) == (
            old(c).method,
            old(c).path@,
            query_view(old(c).query@).push((key@, value@)),
        ),
{
    let ghost before = c.query@;
    c.query.push((key.to_string(), value));
    assert(query_view(c.query@) =~= query_view(before).push((key@, value@)));
}

/// Query parameters of a send: chat, user and link preview flag, each when set.
pub open spec fn send_query(chat_id: Option<i64>, user_id: Option<i64>, disable: Option<bool>) -> Seq<
    (Seq<char>, Seq<char>),
> {
    let a = match chat_id {
        Some(c) => seq![("chat_id"@, decimal_int(c as int))],
        None => Seq::empty(),
    };
    let b = match user_id {
        Some(u) => seq![("user_id"@, decimal_int(u as int))],
        None => Seq::empty(),
    };
    let d = match disable {
        Some(x) => seq![("disable_link_preview"@, bool_text(x))],
        None => Seq::empty(),
    };
    a + b + d
}

/// `POST /messages` for a valid send request.
pub fn send_message_call(request: &SendMessageRequest) -> (r: Result<ApiCall, ApiError>)
    ensures
        match r {
            Ok(c) => send_ok(*request) && call_view(c) == (
                HttpMethod::Post,
                "/messages"@,
                send_query(request.chat_id, request.user_id, request.disable_link_preview),
            ),
            Err(e) => send_error(*request, e),
        },
{
    request.validate()?;
    let mut c = call(HttpMethod::Post, MESSAGES.to_string());
    match request.chat_id {
        Some(chat_id) => add_query(&mut c, "chat_id", decimal_string_i64(chat_id)),
        None => {},
    }
    match request.user_id {
        Some(user_id) => add_query(&mut c, "user_id", decimal_string_i64(user_id)),
        None => {},
    }
    match request.disable_link_preview {
        Some(d) => add_query(&mut c, "disable_link_preview", bool_string(d)),
        None => {},
    }
    assert(query_view(c.query@) =~= send_query(
        request.chat_id,
        request.user_id,
        request.disable_link_preview,
    ));
    Ok(c)
}

/// A call with one query parameter.
fn call_with(method: HttpMethod, path: String, key: &str, value: String) -> (c: ApiCall)
    ensures
        call_view(c) == (method, path@, seq![(key@, value@)]),
{
    let mut c = call(method, path);
    add_query(&mut c, key, value);
    assert(query_view(c.query@) =~= seq![(key@, value@)]);
    c
}

/// `PUT /messages?message_id=…` for a valid edit request.
pub fn edit_message_call(request: &EditMessageRequest) -> (r: Result<ApiCall, ApiError>)
    ensures
        match r {
            Ok(c) => edit_ok(*request) && call_view(c) == (
                HttpMethod::Put,
                "/messages"@,
                seq![("message_id"@, request.message_id@)],
            ),
            Err(e) => edit_error(*request, e),
        },
{
    request.validate()?;
    Ok(call_with(HttpMethod::Put, MESSAGES.to_string(), "message_id", request.message_id.clone()))
}

/// `DELETE /messages?message_id=…`; the identifier must not be blank.
pub fn delete_message_call(message_id: &str) -> (r: Result<ApiCall, ApiError>)
    ensures
        match r {
            Ok(c) => !blank(message_id@) && call_view(c) == (
                HttpMethod::Delete,
                "/messages"@,
                seq![("message_id"@, message_id@)],
            ),
            Err(e) => blank(message_id@) && is_config_error(e, "message_id must not be empty"@),
        },
{
    if is_blank(message_id) {
        return Err(config_error("message_id must not be empty"));
    }
    Ok(call_with(HttpMethod::Delete, MESSAGES.to_string(), "message_id", message_id.to_string()))
}

/// `POST /answers?callback_id=…`; the identifier must not be blank, then the
/// answer must be valid.
pub fn answer_callback_call(callback_id: &str, request: &CallbackAnswerRequest) -> (r: Result<
    ApiCall,
    ApiError,
>)
    ensures
        match r {
            Ok(c) => !blank(callback_id@) && answer_check(
                opt_body(request.message),
                opt_text(request.notification),
            ) is Valid && call_view(c) == (
                HttpMethod::Post,
                "/answers"@,
                seq![("callback_id"@, callback_id@)],
            ),
            Err(e) => if blank(callback_id@) {
                is_config_error(e, "callback_id must not be empty"@)
            } else {
                answer_error(*request, e)
            },
        },
{
    if is_blank(callback_id) {
        return Err(config_error("callback_id must not be empty"));
    }
    request.validate()?;
    Ok(call_with(HttpMethod::Post, ANSWERS.to_string(), "callback_id", callback_id.to_string()))
}

/// `POST /chats/{chatId}/actions`; the action must not be blank.
pub fn send_action_call(chat_id: i64, request: &SendActionRequest) -> (r: Result<ApiCall, ApiError>)
    ensures
        match r {
            Ok(c) => !blank(request.action@) && call_view(c) == (
                HttpMethod::Post,
                crate::api_paths::chat_path(chat_id) + "/actions"@,
                Seq::<(Seq<char>, Seq<char>)>::empty(),
            ),
            Err(e) => blank(request.action@) && is_config_error(e, "action must not be empty"@),
        },
{
    if is_blank(request.action.as_str()) {
        return Err(config_error("action must not be empty"));
    }
    Ok(call(HttpMethod::Post, crate::api_paths::chat_actions(chat_id)))
}

/// `PUT /chats/{chatId}/pin`; the message identifier must not be blank.
pub fn pin_message_call(chat_id: i64, request: &PinMessageRequest) -> (r: Result<ApiCall, ApiError>)
    ensures
        match r {
            Ok(c) => !blank(request.message_id@) && call_view(c) == (
                HttpMethod::Put,
                crate::api_paths::chat_path(chat_id) + "/pin"@,
                Seq::<(Seq<char>, Seq<char>)>::empty(),
            ),
            Err(e) => blank(request.message_id@) && is_config_error(
                e,
                "message_id must not be empty"@,
            ),
        },
{
    if is_blank(request.message_id.as_str()) {
        return Err(config_error("message_id must not be empty"));
    }
    Ok(call(HttpMethod::Put, crate::api_paths::chat_pin(chat_id)))
}

/// `POST /chats/{chatId}/members`; the user list must not be empty.
pub fn add_members_call(chat_id: i64, request: &AddMembersRequest) -> (r: Result<ApiCall, ApiError>)
    ensures
        match r {
            Ok(c) => request.user_ids@.len() > 0 && call_view(c) == (
                HttpMethod::Post,
                crate::api_paths::chat_path(chat_id) + "/members"@,
                Seq::<(Seq<char>, Seq<char>)>::empty(),
            ),
            Err(e) => request.user_ids@.len() == 0 && is_config_error(e, "user_ids must not be empty"@),
        },
{
    if request.user_ids.len() == 0 {
        return Err(config_error("user_ids must not be empty"));
    }
    Ok(call(HttpMethod::Post, crate::api_paths::chat_members(chat_id)))
}

/// `POST /subscriptions` for a valid subscription request.
pub fn subscribe_call(request: &CreateSubscriptionRequest) -> (r: Result<ApiCall, ApiError>)
    ensures
        match r {
            Ok(c) => subscription_error(request.url@, opt_text(request.secret)) is None && call_view(c)
                == (HttpMethod::Post, "/subscriptions"@, Seq::<(Seq<char>, Seq<char>)>::empty()),
            Err(e) => subscription_error(request.url@, opt_text(request.secret)) matches Some(m)
                && is_config_error(e, m),
        },
{
    request.validate()?;
    Ok(call(HttpMethod::Post, SUBSCRIPTIONS.to_string()))
}

/// `DELETE /subscriptions?url=…`; the URL must not be blank.
pub fn unsubscribe_call(url: &str) -> (r: Result<ApiCall, ApiError>)
    ensures
        match r {
            Ok(c) => !blank(url@) && call_view(c) == (
                HttpMethod::Delete,
                "/subscriptions"@,
                seq![("url"@, url@)],
            ),
            Err(e) => blank(url@) && is_config_error(e, "subscription url must not be empty"@),
        },
{
    if is_blank(url) {
        return Err(config_error("subscription url must not be empty"));
    }
    Ok(call_with(HttpMethod::Delete, SUBSCRIPTIONS.to_string(), "url", url.to_string()))
}

/// Texts joined with `,` between them.
pub open spec fn comma_joined(items: Seq<Seq<char>>) -> Seq<char>
    decreases items.len(),
{
    if items.len() == 0 {
        Seq::empty()
    } else if items.len() == 1 {
        items[0]
    } else {
        comma_joined(items.drop_last()) + ","@ + items.last()
    }
}

/// The strings of a list joined with `,` between them.
fn join_commas(items: &Vec<String>) -> (s: String)
    ensures
        s@ == comma_joined(items@.map_values(|t: String| t@)),
{
    let ghost v = items@.map_values(|t: String| t@);
    let mut out = String::new();
    let mut i: usize = 0;
    assert(v.take(0) =~= Seq::<Seq<char>>::empty());
    while i < items.len()
        invariant
            i <= items.len(),
            v == items@.map_values(|t: String| t@),
            out@ == comma_joined(v.take(i as int)),
        decreases items.len() - i,
    {
        proof {
            assert(v.take(i + 1).drop_last() == v.take(i as int));
            assert(v.take(i + 1).last() == items@[i as int]@);
            if i == 0 {
                assert(v.take(1) =~= seq![items@[0]@]);
            }
        }
        if i > 0 {
            out.append(",");
        }
        out.append(items[i].as_str());
        i = i + 1;
    }
    assert(v.take(items.len() as int) == v);
    out
}

/// Query parameters of an updates fetch: limit, timeout and marker when set,
/// then the type filter joined with commas when not empty.
pub open spec fn updates_query(r: GetUpdatesRequest) -> Seq<(Seq<char>, Seq<char>)> {
    let a = match r.limit {
        Some(l) => seq![("limit"@, decimal(l as nat))],
        None => Seq::empty(),
    };
    let b = match r.timeout {
        Some(t) => seq![("timeout"@, decimal(t as nat))],
        None => Seq::empty(),
    };
    let c = match r.marker {
        Some(m) => seq![("marker"@, decimal_int(m as int))],
        None => Seq::empty(),
    };
    let d = if r.types@.len() > 0 {
        seq![("types"@, comma_joined(r.types@.map_values(|t: String| t@)))]
    } else {
        Seq::empty()
    };
    a + b + c + d
}

/// `GET /updates` for valid polling options.
pub fn get_updates_call(request: &GetUpdatesRequest) -> (r: Result<ApiCall, ApiError>)
    ensures
        match r {
            Ok(c) => updates_request_error(request.limit, request.timeout) is None && call_view(c) == (
                HttpMethod::Get,
                "/updates"@,
                updates_query(*request),
            ),
            Err(e) => updates_request_error(request.limit, request.timeout) matches Some(m)
                && is_config_error(e, m),
        },
{
    request.validate()?;
    let mut c = call(HttpMethod::Get, UPDATES.to_string());
    match request.limit {
        Some(limit) => add_query(&mut c, "limit", decimal_string(limit as u64)),
        None => {},
    }
    match request.timeout {
        Some(timeout) => add_query(&mut c, "timeout", decimal_string(timeout as u64)),
        None => {},
    }
    match request.marker {
        Some(marker) => add_query(&mut c, "marker", decimal_string_i64(marker)),
        None => {},
    }
    if request.types.len() > 0 {
        add_query(&mut c, "types", join_commas(&request.types));
    }
    assert(query_view(c.query@) =~= updates_query(*request));
    Ok(c)
}

/// `POST /uploads?type=…`.
pub fn upload_ticket_call(upload_type: UploadType) -> (c: ApiCall)
    ensures
        call_view(c) == (HttpMethod::Post, "/uploads"@, seq![("type"@, upload_type_name(upload_type))]),
{
    call_with(HttpMethod::Post, UPLOADS.to_string(), "type", upload_type.as_str().to_string())
}

/// `GET /messages/{messageId}`; a path error becomes a configuration error
/// with its text.
pub fn message_by_id_call(message_id: &str) -> (r: Result<ApiCall, ApiError>)
    ensures
        match r {
            Ok(c) => segment_check(message_id@, "message_id") is Ok && call_view(c) == (
                HttpMethod::Get,
                "/messages/"@ + message_id@,
                Seq::<(Seq<char>, Seq<char>)>::empty(),
            ),
            Err(e) => segment_check(message_id@, "message_id") matches Err(p) && is_config_error(
                e,
                path_error_text(p),
            ),
        },
{
    match crate::api_paths::message(message_id) {
        Ok(path) => Ok(call(HttpMethod::Get, path)),
        Err(error) => Err(ApiError::InvalidConfiguration(error.message())),
    }
}

/// `GET /videos/{videoToken}`; a path error becomes a configuration error
/// with its text.
pub fn video_call(video_token: &str) -> (r: Result<ApiCall, ApiError>)
    ensures
        match r {
            Ok(c) => segment_check(video_token@, "video_token") is Ok && call_view(c) == (
                HttpMethod::Get,
                "/videos/"@ + video_token@,
                Seq::<(Seq<char>, Seq<char>)>::empty(),
            ),
            Err(e) => segment_check(video_token@, "video_token") matches Err(p) && is_config_error(
                e,
                path_error_text(p),
            ),
        },
{
    match crate::api_paths::video(video_token) {
        Ok(path) => Ok(call(HttpMethod::Get, path)),
        Err(error) => Err(ApiError::InvalidConfiguration(error.message())),
    }
}

/// `PATCH /chats/{chatId}`; the patch must be a JSON object.
pub fn patch_chat_call(chat_id: i64, patch: &JsonValue) -> (r: Result<ApiCall, ApiError>)
    ensures
        match r {
            Ok(c) => model(*patch) is Object && call_view(c) == (
                HttpMethod::Patch,
                crate::api_paths::chat_path(chat_id),
                Seq::<(Seq<char>, Seq<char>)>::empty(),
            ),
            Err(e) => !(model(*patch) is Object) && is_config_error(
                e,
                "chat patch payload must be a JSON object"@,
            ),
        },
{
    if !patch.is_object() {
        return Err(config_error("chat patch payload must be a JSON object"));
    }
    Ok(call(HttpMethod::Patch, crate::api_paths::chat(chat_id)))
}

/// The request builder for a planned call: authorized with the bot token and
/// the user agent, with the call's method, path and query parameters in
/// order, and the body where there is one. The token and the user agent are
/// checked as [`authorized_request`] checks them.
pub fn call_builder(
    base_url: ParsedUrl,
    token: &str,
    user_agent: &str,
    call: ApiCall,
    body: Option<JsonValue>,
) -> (r: Result<RequestBuilder, ApiError>)
    ensures
        blank(token@) ==> (r matches Err(e) && is_config_error(e, "token cannot be empty"@)),
        !blank(token@) && !header_value_ok(token@) ==> (r matches Err(
            ApiError::InvalidHeader { header, reason },
        ) && header@ == "authorization"@ && reason@ == "failed to parse header value"@),
        !blank(token@) && header_value_ok(token@) && !header_value_ok(user_agent@) ==> (r matches Err(
            ApiError::InvalidHeader { header, reason },
        ) && header@ == "user-agent"@ && reason@ == "failed to parse header value"@),
        !blank(token@) && header_value_ok(token@) && header_value_ok(user_agent@) ==> (r matches Ok(
            b,
        ) && b@.base == url_view(base_url).0 && b@.method == call.method && b@.path == call.path@
            && b@.query == query_view(call.query@) && b@.body == body_view(body)
            && b@.idempotency_key is None && b@.headers.len() == 2 && b@.headers[0].0@
            == "authorization"@ && b@.headers[0].1@ == token@ && b@.headers[1].0@ == "user-agent"@
            && b@.headers[1].1@ == user_agent@),
{
    let mut builder = authorized_request(base_url, call.method, call.path, token, user_agent)?;
    let ghost start = builder@;
    let query = call.query;
    let mut i: usize = 0;
    assert(query_view(query@.take(0)) =~= start.query);
    while i < query.len()
        invariant
            0 <= i <= query.len(),
            builder@ == (BuilderModel { query: query_view(query@.take(i as int)), ..start }),
            start.query.len() == 0,
        decreases query.len() - i,
    {
        let key = query[i].0.clone();
        let value = query[i].1.clone();
        assert(query_view(query@.take(i + 1)) =~= query_view(query@.take(i as int)).push(
            (query@[i as int].0@, query@[i as int].1@),
        ));
        builder = builder.with_query_param(key, value);
        i = i + 1;
    }
    assert(query@.take(query.len() as int) =~= query@);
    match body {
        Some(b) => Ok(builder.with_body(b)),
        None => Ok(builder),
    }
}

} // verus!
