//! Request types of the MAX Bot API operations and their validation.

use vstd::prelude::*;
use vstd::string::StringExecFns;
use crate::api_error::ApiError;
use crate::attachment::opt_text;
use crate::credentials::{check_webhook_secret, credentials_error_text, secret_validation};
use crate::new_message_body::{NewMessageBody, body_check, body_error_text, BodyModel};
use crate::text::{blank, is_blank};
use crate::update_envelope::UpdateEnvelope;

verus! {

/// The error is an invalid-configuration error with this message.
pub open spec fn is_config_error(e: ApiError, message: Seq<char>) -> bool {
    e matches ApiError::InvalidConfiguration(m) && m@ == message
}

/// An invalid-configuration error with the given message.
pub fn config_error(message: &str) -> (e: ApiError)
    ensures
        is_config_error(e, message@),
{
    ApiError::InvalidConfiguration(message.to_string())
}

/// Request for `POST /chats/{chatId}/actions`.
#[derive(Debug, Clone, PartialEq, Eq)]
pub struct SendActionRequest {
    /// Action type as documented by MAX API.
    pub action: String,
}

impl SendActionRequest {
    /// Creates action request and validates non-empty action.
    pub fn new(action: String) -> (r: Result<Self, ApiError>)
        ensures
            match r {
                Ok(req) => !blank(action@) && req.action@ == action@,
                Err(e) => blank(action@) && is_config_error(e, "action must not be empty"@),
            },
    {
        if is_blank(action.as_str()) {
            return Err(config_error("action must not be empty"));
        }
        Ok(SendActionRequest { action })
    }
}

/// Request for `PUT /chats/{chatId}/pin`.
#[derive(Debug, Clone, PartialEq, Eq)]
pub struct PinMessageRequest {
    /// Message ID to pin.
    pub message_id: String,
}

impl PinMessageRequest {
    /// Creates pin-message request and validates message ID.
    pub fn new(message_id: String) -> (r: Result<Self, ApiError>)
        ensures
            match r {
                Ok(req) => !blank(message_id@) && req.message_id@ == message_id@,
                Err(e) => blank(message_id@) && is_config_error(e, "message_id must not be empty"@),
            },
    {
        if is_blank(message_id.as_str()) {
            return Err(config_error("message_id must not be empty"));
        }
        Ok(PinMessageRequest { message_id })
    }
}

/// Request for `POST /chats/{chatId}/members/admins`.
#[derive(Debug, Clone, PartialEq, Eq)]
pub struct AddAdminRequest {
    /// User ID that should become admin.
    pub user_id: i64,
}

/// Request for `POST /chats/{chatId}/members`.
#[derive(Debug, Clone, PartialEq, Eq)]
pub struct AddMembersRequest {
    /// User IDs that should be added to chat.
    pub user_ids: Vec<i64>,
}

impl AddMembersRequest {
    /// Creates request and validates non-empty user list.
    pub fn new(user_ids: Vec<i64>) -> (r: Result<Self, ApiError>)
        ensures
            match r {
                Ok(req) => user_ids@.len() > 0 && req.user_ids@ == user_ids@,
                Err(e) => user_ids@.len() == 0 && is_config_error(e, "user_ids must not be empty"@),
            },
    {
        if user_ids.len() == 0 {
            return Err(config_error("user_ids must not be empty"));
        }
        Ok(AddMembersRequest { user_ids })
    }
}

/// Request for `DELETE /chats/{chatId}/members`.
#[derive(Debug, Clone, PartialEq, Eq)]
pub struct RemoveMemberRequest {
    /// User ID that should be removed from chat.
    pub user_id: i64,
}

/// Text of the error for an invalid webhook secret, if it is invalid.
pub open spec fn secret_error(secret: Option<Seq<char>>) -> Option<Seq<char>> {
    match secret_validation(secret) {
        Ok(()) => None,
        Err(e) => Some(credentials_error_text(e)),
    }
}

/// Validates a webhook secret, reporting an invalid one as a configuration error.
fn check_secret(secret: &str) -> (r: Result<(), ApiError>)
    ensures
        match r {
            Ok(()) => secret_error(Some(secret@)) is None,
            Err(e) => secret_error(Some(secret@)) matches Some(m) && is_config_error(e, m),
        },
{
    match check_webhook_secret(Some(secret)) {
        Ok(()) => Ok(()),
        Err(error) => Err(ApiError::InvalidConfiguration(error.message())),
    }
}

/// Request for `POST /subscriptions`.
#[derive(Debug, Clone, PartialEq, Eq)]
pub struct CreateSubscriptionRequest {
    /// Target webhook URL.
    pub url: String,
    /// Filtered update types.
    pub update_types: Vec<String>,
    /// Optional webhook secret.
    pub secret: Option<String>,
}

/// Validation of a subscription: the URL must not be blank, then a secret,
/// when set, must be a valid webhook secret. The result is the error message.
pub open spec fn subscription_error(url: Seq<char>, secret: Option<Seq<char>>) -> Option<Seq<char>> {
    if blank(url) {
        Some("subscription url must not be empty"@)
    } else {
        match secret {
            Some(s) => secret_error(Some(s)),
            None => None,
        }
    }
}

impl CreateSubscriptionRequest {
    /// Creates request with URL, no update type filter and no secret.
    pub fn new(url: String) -> (r: Self)
        ensures
            r.url@ == url@,
            r.update_types@.len() == 0,
            r.secret is None,
    {
        CreateSubscriptionRequest { url, update_types: Vec::new(), secret: None }
    }

    /// Sets update types.
    pub fn with_update_types(self, update_types: Vec<String>) -> (r: Self)
        ensures
            r.url == self.url,
            r.update_types == update_types,
            r.secret == self.secret,
    {
        CreateSubscriptionRequest { update_types, ..self }
    }

    /// Sets webhook secret after checking it.
    pub fn with_secret(self, secret: String) -> (r: Result<Self, ApiError>)
        ensures
            match r {
                Ok(req) => secret_error(Some(secret@)) is None && req.url == self.url
                    && req.update_types == self.update_types && opt_text(req.secret) == Some(
                    secret@,
                ),
                Err(e) => secret_error(Some(secret@)) matches Some(m) && is_config_error(e, m),
            },
    {
        check_secret(secret.as_str())?;
        Ok(CreateSubscriptionRequest { secret: Some(secret), ..self })
    }

    /// Validates the URL and the secret.
    pub fn validate(&self) -> (r: Result<(), ApiError>)
        ensures
            match r {
                Ok(()) => subscription_error(self.url@, opt_text(self.secret)) is None,
                Err(e) => subscription_error(self.url@, opt_text(self.secret)) matches Some(m)
                    && is_config_error(e, m),
            },
    {
        if is_blank(self.url.as_str()) {
            return Err(config_error("subscription url must not be empty"));
        }
        match &self.secret {
            Some(secret) => check_secret(secret.as_str()),
            None => Ok(()),
        }
    }
}

/// Query parameters for `GET /updates`.
#[derive(Debug, Clone, Default)]
pub struct GetUpdatesRequest {
    /// Max updates in page (`1..=1000`).
    pub limit: Option<u32>,
    /// Long-poll timeout seconds (`0..=90`).
    pub timeout: Option<u32>,
    /// Cursor marker.
    pub marker: Option<i64>,
    /// Optional update type filter list.
    pub types: Vec<String>,
}

/// Validation of polling options: the limit, when set, must be within
/// `1..=1000`, then the timeout, when set, at most 90.
pub open spec fn updates_request_error(limit: Option<u32>, timeout: Option<u32>) -> Option<Seq<char>> {
    if limit matches Some(l) && !(1 <= l <= 1000) {
        Some("updates limit must be in range 1..=1000"@)
    } else if timeout matches Some(t) && t > 90 {
        Some("updates timeout must be in range 0..=90"@)
    } else {
        None
    }
}

impl GetUpdatesRequest {
    /// Creates empty request with defaults from server side.
    pub fn new() -> (r: Self)
        ensures
            r.limit is None,
            r.timeout is None,
            r.marker is None,
            r.types@.len() == 0,
    {
        GetUpdatesRequest { limit: None, timeout: None, marker: None, types: Vec::new() }
    }

    /// Validates query options against contract ranges.
    pub fn validate(&self) -> (r: Result<(), ApiError>)
        ensures
            match r {
                Ok(()) => updates_request_error(self.limit, self.timeout) is None,
                Err(e) => updates_request_error(self.limit, self.timeout) matches Some(m)
                    && is_config_error(e, m),
            },
    {
        match self.limit {
            Some(limit) => {
                if !(1 <= limit && limit <= 1000) {
                    return Err(config_error("updates limit must be in range 1..=1000"));
                }
            },
            None => {},
        }
        match self.timeout {
            Some(timeout) => {
                if timeout > 90 {
                    return Err(config_error("updates timeout must be in range 0..=90"));
                }
            },
            None => {},
        }
        Ok(())
    }
}

/// Decoded updates page.
#[derive(Debug, Clone, PartialEq)]
pub struct UpdatesPage {
    /// Parsed update envelopes.
    pub updates: Vec<UpdateEnvelope>,
    /// Next marker for subsequent fetch.
    pub marker: Option<i64>,
}

/// Supported upload ticket types.
#[derive(Debug, Clone, Copy, PartialEq, Eq, Structural)]
pub enum UploadType {
    /// Image upload ticket.
    Image,
    /// Video upload ticket.
    Video,
    /// Audio upload ticket.
    Audio,
    /// Generic file upload ticket.
    File,
}

/// Query value of an upload type.
pub open spec fn upload_type_name(t: UploadType) -> Seq<char> {
    match t {
        UploadType::Image => "image"@,
        UploadType::Video => "video"@,
        UploadType::Audio => "audio"@,
        UploadType::File => "file"@,
    }
}

impl UploadType {
    /// Returns upload type string used in query parameter.
    pub fn as_str(self) -> (s: &'static str)
        ensures
            s@ == upload_type_name(self),
    {
        match self {
            UploadType::Image => "image",
            UploadType::Video => "video",
            UploadType::Audio => "audio",
            UploadType::File => "file",
        }
    }
}

/// Validates a message body, reporting a failure as a configuration error
/// that carries the failure's text.
fn check_body(body: &NewMessageBody) -> (r: Result<(), ApiError>)
    ensures
        match r {
            Ok(()) => body_check(body@) is Valid,
            Err(e) => !(body_check(body@) is Valid) && body_config_error(body@, e),
        },
{
    match body.validate() {
        Ok(()) => Ok(()),
        Err(error) => Err(ApiError::InvalidConfiguration(error.message())),
    }
}

/// The error reported for an invalid body: an invalid-configuration error
/// carrying the text of the body validation failure.
pub open spec fn body_config_error(b: BodyModel, e: ApiError) -> bool {
    exists|f: crate::new_message_body::NewMessageBodyValidationError|
        crate::new_message_body::body_result_matches(Err(f), b) && is_config_error(e, body_error_text(f))
}

/// A send request is valid: exactly one recipient, and a valid body.
pub open spec fn send_ok(r: SendMessageRequest) -> bool {
    (r.chat_id is Some) != (r.user_id is Some) && body_check(r.body@) is Valid
}

/// The error reported for an invalid send request.
pub open spec fn send_error(r: SendMessageRequest, e: ApiError) -> bool {
    if (r.chat_id is Some) == (r.user_id is Some) {
        is_config_error(e, "exactly one recipient must be set: chat_id xor user_id"@)
    } else {
        !(body_check(r.body@) is Valid) && body_config_error(r.body@, e)
    }
}

/// Request for `POST /messages`.
#[derive(Debug, Clone)]
pub struct SendMessageRequest {
    /// Chat recipient ID.
    pub chat_id: Option<i64>,
    /// Direct-user recipient ID.
    pub user_id: Option<i64>,
    /// Outbound body payload.
    pub body: NewMessageBody,
    /// Optional link-preview suppression.
    pub disable_link_preview: Option<bool>,
}

impl SendMessageRequest {
    /// Creates a request targeting chat recipient.
    pub fn to_chat(chat_id: i64, body: NewMessageBody) -> (r: Self)
        ensures
            r.chat_id == Some(chat_id),
            r.user_id is None,
            r.body == body,
            r.disable_link_preview is None,
    {
        SendMessageRequest { chat_id: Some(chat_id), user_id: None, body, disable_link_preview: None }
    }

    /// Creates a request targeting direct-user recipient.
    pub fn to_user(user_id: i64, body: NewMessageBody) -> (r: Self)
        ensures
            r.chat_id is None,
            r.user_id == Some(user_id),
            r.body == body,
            r.disable_link_preview is None,
    {
        SendMessageRequest { chat_id: None, user_id: Some(user_id), body, disable_link_preview: None }
    }

    /// Enables/disables link preview suppression flag.
    pub fn with_disable_link_preview(self, disable_link_preview: bool) -> (r: Self)
        ensures
            r.chat_id == self.chat_id,
            r.user_id == self.user_id,
            r.body == self.body,
            r.disable_link_preview == Some(disable_link_preview),
    {
        SendMessageRequest { disable_link_preview: Some(disable_link_preview), ..self }
    }

    /// Exactly one recipient must be set, then the body must be valid.
    pub fn validate(&self) -> (r: Result<(), ApiError>)
        ensures
            match r {
                Ok(()) => send_ok(*self),
                Err(e) => send_error(*self, e),
            },
    {
        if self.chat_id.is_some() == self.user_id.is_some() {
            return Err(config_error("exactly one recipient must be set: chat_id xor user_id"));
        }
        check_body(&self.body)
    }
}

/// An edit request is valid: a message ID that is not blank, and a valid body.
pub open spec fn edit_ok(r: EditMessageRequest) -> bool {
    !blank(r.message_id@) && body_check(r.body@) is Valid
}

/// The error reported for an invalid edit request.
pub open spec fn edit_error(r: EditMessageRequest, e: ApiError) -> bool {
    if blank(r.message_id@) {
        is_config_error(e, "message_id must not be empty"@)
    } else {
        !(body_check(r.body@) is Valid) && body_config_error(r.body@, e)
    }
}

/// A send request for exactly one recipient: the chat when only a chat is
/// given, the user when only a user is given; anything else is refused.
pub fn send_request_for(chat_id: Option<i64>, user_id: Option<i64>, body: NewMessageBody) -> (r: Result<
    SendMessageRequest,
    ApiError,
>)
    ensures
        match (chat_id, user_id) {
            (Some(c), None) => r matches Ok(req) && req.chat_id == Some(c) && req.user_id is None
                && req.body == body && req.disable_link_preview is None,
            (None, Some(u)) => r matches Ok(req) && req.chat_id is None && req.user_id == Some(u)
                && req.body == body && req.disable_link_preview is None,
            _ => r matches Err(e) && is_config_error(
                e,
                "message send requires exactly one recipient: chat_id xor user_id"@,
            ),
        },
{
    match (chat_id, user_id) {
        (Some(c), None) => Ok(SendMessageRequest::to_chat(c, body)),
        (None, Some(u)) => Ok(SendMessageRequest::to_user(u, body)),
        _ => Err(config_error("message send requires exactly one recipient: chat_id xor user_id")),
    }
}

/// Request for `PUT /messages`.
#[derive(Debug, Clone)]
pub struct EditMessageRequest {
    /// Target message ID.
    pub message_id: String,
    /// New message body.
    pub body: NewMessageBody,
}

impl EditMessageRequest {
    /// Creates edit request.
    pub fn new(message_id: String, body: NewMessageBody) -> (r: Self)
        ensures
            r.message_id@ == message_id@,
            r.body == body,
    {
        EditMessageRequest { message_id, body }
    }

    /// The message ID must not be blank, then the body must be valid.
    pub fn validate(&self) -> (r: Result<(), ApiError>)
        ensures
            match r {
                Ok(()) => edit_ok(*self),
                Err(e) => edit_error(*self, e),
            },
    {
        if is_blank(self.message_id.as_str()) {
            return Err(config_error("message_id must not be empty"));
        }
        check_body(&self.body)
    }
}

/// The view of an optional message body.
pub open spec fn opt_body(b: Option<NewMessageBody>) -> Option<BodyModel> {
    match b {
        Some(m) => Some(m@),
        None => None,
    }
}

/// Outcome of callback answer validation, by kind.
pub enum AnswerCheck {
    /// The answer can be sent.
    Valid,
    /// Neither a message nor a notification is set.
    Missing,
    /// The message is invalid.
    InvalidMessage,
    /// The notification is blank.
    BlankNotification,
}

/// Callback answer validation: a message or a notification must be set; a
/// message must be valid; a notification must not be blank.
pub open spec fn answer_check(message: Option<BodyModel>, notification: Option<Seq<char>>) -> AnswerCheck {
    if message is None && notification is None {
        AnswerCheck::Missing
    } else if message matches Some(m) && !(body_check(m) is Valid) {
        AnswerCheck::InvalidMessage
    } else if notification matches Some(n) && blank(n) {
        AnswerCheck::BlankNotification
    } else {
        AnswerCheck::Valid
    }
}

/// The error reported for an invalid callback answer.
pub open spec fn answer_error(r: CallbackAnswerRequest, e: ApiError) -> bool {
    match answer_check(opt_body(r.message), opt_text(r.notification)) {
        AnswerCheck::Missing => is_config_error(e, "callback answer must include message or notification"@),
        AnswerCheck::InvalidMessage => body_config_error(opt_body(r.message)->0, e),
        AnswerCheck::BlankNotification => is_config_error(e, "notification must not be empty when set"@),
        AnswerCheck::Valid => false,
    }
}

/// Request body for callback answer endpoint.
#[derive(Debug, Clone, PartialEq)]
pub struct CallbackAnswerRequest {
    /// Optional message payload sent as callback response.
    pub message: Option<NewMessageBody>,
    /// Optional popup/notification text.
    pub notification: Option<String>,
}

impl Default for CallbackAnswerRequest {
    fn default() -> (r: Self)
        ensures
            r.message is None,
            r.notification is None,
    {
        CallbackAnswerRequest { message: None, notification: None }
    }
}

impl CallbackAnswerRequest {
    /// Creates empty callback answer request.
    pub fn new() -> (r: Self)
        ensures
            r.message is None,
            r.notification is None,
    {
        CallbackAnswerRequest { message: None, notification: None }
    }

    /// Sets callback response message body.
    pub fn with_message(self, message: NewMessageBody) -> (r: Self)
        ensures
            r.message == Some(message),
            r.notification == self.notification,
    {
        CallbackAnswerRequest { message: Some(message), ..self }
    }

    /// Sets callback notification text.
    pub fn with_notification(self, notification: String) -> (r: Self)
        ensures
            r.message == self.message,
            opt_text(r.notification) == Some(notification@),
    {
        CallbackAnswerRequest { notification: Some(notification), ..self }
    }

    /// A message or a notification must be set; a message must be valid; a
    /// notification must not be blank.
    pub fn validate(&self) -> (r: Result<(), ApiError>)
        ensures
            match r {
                Ok(()) => answer_check(opt_body(self.message), opt_text(self.notification)) is Valid,
                Err(e) => answer_error(*self, e),
            },
    {
        if self.message.is_none() && self.notification.is_none() {
            return Err(config_error("callback answer must include message or notification"));
        }
        match &self.message {
            Some(message) => {
                check_body(message)?;
            },
            None => {},
        }
        match &self.notification {
            Some(notification) => {
                if is_blank(notification.as_str()) {
                    return Err(config_error("notification must not be empty when set"));
                }
            },
            None => {},
        }
        Ok(())
    }
}

} // verus!
