//! MAX Bot API path constants and composition helpers.

use vstd::prelude::*;
use vstd::string::StringExecFns;
use crate::text::{blank, contains_char, decimal_int, is_blank, push_decimal_i64};

verus! {

/// `/me` method-group path.
pub const ME: &'static str = "/me";

/// `/chats` method-group path.
pub const CHATS: &'static str = "/chats";

/// `/messages` method-group path.
pub const MESSAGES: &'static str = "/messages";

/// `/subscriptions` method-group path.
pub const SUBSCRIPTIONS: &'static str = "/subscriptions";

/// `/updates` method-group path.
pub const UPDATES: &'static str = "/updates";

/// `/uploads` method-group path.
pub const UPLOADS: &'static str = "/uploads";

/// `/videos` method-group path.
pub const VIDEOS: &'static str = "/videos";

/// `/answers` method-group path.
pub const ANSWERS: &'static str = "/answers";

/// Template for `/chats/{chatId}`.
pub const CHAT_BY_ID_TEMPLATE: &'static str = "/chats/{chatId}";

/// Template for `/chats/{chatId}/actions`.
pub const CHAT_ACTIONS_TEMPLATE: &'static str = "/chats/{chatId}/actions";

/// Template for `/chats/{chatId}/pin`.
pub const CHAT_PIN_TEMPLATE: &'static str = "/chats/{chatId}/pin";

/// Template for `/chats/{chatId}/members/me`.
pub const CHAT_MEMBERS_ME_TEMPLATE: &'static str = "/chats/{chatId}/members/me";

/// Template for `/chats/{chatId}/members/admins`.
pub const CHAT_MEMBERS_ADMINS_TEMPLATE: &'static str = "/chats/{chatId}/members/admins";

/// Template for `/chats/{chatId}/members/admins/{userId}`.
pub const CHAT_MEMBERS_ADMIN_BY_ID_TEMPLATE: &'static str = "/chats/{chatId}/members/admins/{userId}";

/// Template for `/chats/{chatId}/members`.
pub const CHAT_MEMBERS_TEMPLATE: &'static str = "/chats/{chatId}/members";

/// Template for `/messages/{messageId}`.
pub const MESSAGE_BY_ID_TEMPLATE: &'static str = "/messages/{messageId}";

/// Template for `/videos/{videoToken}`.
pub const VIDEO_BY_TOKEN_TEMPLATE: &'static str = "/videos/{videoToken}";

/// Errors for endpoint path composition helpers.
#[derive(Debug, Clone, PartialEq, Eq)]
pub enum ApiPathError {
    /// Dynamic path segment is empty.
    EmptySegment {
        /// Segment name that failed validation.
        segment_name: &'static str,
    },
    /// Dynamic path segment contains `/` and would corrupt final path structure.
    InvalidSegment {
        /// Segment name that failed validation.
        segment_name: &'static str,
    },
}

/// Text of a path error.
pub open spec fn path_error_text(e: ApiPathError) -> Seq<char> {
    match e {
        ApiPathError::EmptySegment { segment_name } => segment_name@ + " path segment must not be empty"@,
        ApiPathError::InvalidSegment { segment_name } => segment_name@
            + " path segment must not contain '/'"@,
    }
}

impl ApiPathError {
    /// Human-readable description of the failure.
    pub fn message(&self) -> (text: String)
        ensures
            text@ == path_error_text(*self),
    {
        match self {
            ApiPathError::EmptySegment { segment_name } => {
                let mut s = crate::text::owned(*segment_name);
                s.append(" path segment must not be empty");
                s
            },
            ApiPathError::InvalidSegment { segment_name } => {
                let mut s = crate::text::owned(*segment_name);
                s.append(" path segment must not contain '/'");
                s
            },
        }
    }
}

/// `/chats/{chatId}` with the identifier in decimal.
pub open spec fn chat_path(chat_id: i64) -> Seq<char> {
    "/chats/"@ + decimal_int(chat_id as int)
}

/// Composes `/chats/{chatId}`.
pub fn chat(chat_id: i64) -> (path: String)
    ensures
        path@ == chat_path(chat_id),
{
    let mut s = String::from_str("/chats/");
    push_decimal_i64(&mut s, chat_id);
    s
}

/// Composes `/chats/{chatId}/actions`.
pub fn chat_actions(chat_id: i64) -> (path: String)
    ensures
        path@ == chat_path(chat_id) + "/actions"@,
{
    let mut s = chat(chat_id);
    s.append("/actions");
    s
}

/// Composes `/chats/{chatId}/pin`.
pub fn chat_pin(chat_id: i64) -> (path: String)
    ensures
        path@ == chat_path(chat_id) + "/pin"@,
{
    let mut s = chat(chat_id);
    s.append("/pin");
    s
}

/// Composes `/chats/{chatId}/members/me`.
pub fn chat_members_me(chat_id: i64) -> (path: String)
    ensures
        path@ == chat_path(chat_id) + "/members/me"@,
{
    let mut s = chat(chat_id);
    s.append("/members/me");
    s
}

/// Composes `/chats/{chatId}/members/admins`.
pub fn chat_members_admins(chat_id: i64) -> (path: String)
    ensures
        path@ == chat_path(chat_id) + "/members/admins"@,
{
    let mut s = chat(chat_id);
    s.append("/members/admins");
    s
}

/// Composes `/chats/{chatId}/members/admins/{userId}`.
pub fn chat_members_admin(chat_id: i64, user_id: i64) -> (path: String)
    ensures
        path@ == chat_path(chat_id) + "/members/admins/"@ + decimal_int(user_id as int),
{
    let mut s = chat(chat_id);
    s.append("/members/admins/");
    push_decimal_i64(&mut s, user_id);
    s
}

/// Composes `/chats/{chatId}/members`.
pub fn chat_members(chat_id: i64) -> (path: String)
    ensures
        path@ == chat_path(chat_id) + "/members"@,
{
    let mut s = chat(chat_id);
    s.append("/members");
    s
}

/// Outcome of checking a dynamic segment: blank segments and segments with
/// `/` are refused, in that order.
pub open spec fn segment_check(value: Seq<char>, segment_name: &'static str) -> Result<(), ApiPathError> {
    if blank(value) {
        Err(ApiPathError::EmptySegment { segment_name })
    } else if value.contains('/') {
        Err(ApiPathError::InvalidSegment { segment_name })
    } else {
        Ok(())
    }
}

/// Checks a dynamic path segment: it must not be blank nor contain `/`.
pub fn checked_segment(value: &str, segment_name: &'static str) -> (r: Result<(), ApiPathError>)
    ensures
        r == segment_check(value@, segment_name),
{
    if is_blank(value) {
        return Err(ApiPathError::EmptySegment { segment_name });
    }
    if contains_char(value, '/') {
        return Err(ApiPathError::InvalidSegment { segment_name });
    }
    Ok(())
}

/// Composes `/messages/{messageId}` after checking the identifier.
pub fn message(message_id: &str) -> (r: Result<String, ApiPathError>)
    ensures
        segment_check(message_id@, "message_id") is Err ==> r == Err::<String, _>(
            segment_check(message_id@, "message_id")->Err_0,
        ),
        segment_check(message_id@, "message_id") is Ok ==> (r matches Ok(p) && p@ == "/messages/"@
            + message_id@),
{
    checked_segment(message_id, "message_id")?;
    let mut s = String::from_str("/messages/");
    s.append(message_id);
    Ok(s)
}

/// Composes `/videos/{videoToken}` after checking the token.
pub fn video(video_token: &str) -> (r: Result<String, ApiPathError>)
    ensures
        segment_check(video_token@, "video_token") is Err ==> r == Err::<String, _>(
            segment_check(video_token@, "video_token")->Err_0,
        ),
        segment_check(video_token@, "video_token") is Ok ==> (r matches Ok(p) && p@ == "/videos/"@
            + video_token@),
{
    checked_segment(video_token, "video_token")?;
    let mut s = String::from_str("/videos/");
    s.append(video_token);
    Ok(s)
}

} // verus!
