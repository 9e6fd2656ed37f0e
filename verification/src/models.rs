//! Response models of the MAX Bot API: users, chats, memberships, action
//! results, upload tickets, subscriptions and video metadata.
//!
//! Each keeps the members it does not model as extra JSON entries.

use vstd::prelude::*;
use crate::attachment::{non_empty, non_empty_str, opt_slice, opt_text};
use crate::json::{JsonEntry, JsonModel, entries_model};
use crate::text::{ascii_lower, chars_of, to_ascii_lower};

verus! {

/// The view of a user.
pub struct UserModel {
    /// User identifier.
    pub user_id: Option<i64>,
    /// Display name as received.
    pub name: Option<Seq<char>>,
    /// Username as received.
    pub username: Option<Seq<char>>,
    /// Bot flag.
    pub is_bot: bool,
    /// Unmodelled members.
    pub extra: Seq<(Seq<char>, JsonModel)>,
}

/// MAX user object with forward-compatible extra-field capture.
#[derive(Debug, Clone, PartialEq)]
pub struct User {
    user_id: Option<i64>,
    name: Option<String>,
    username: Option<String>,
    is_bot: bool,
    extra: Vec<JsonEntry>,
}

impl View for User {
    type V = UserModel;

    closed spec fn view(&self) -> UserModel {
        UserModel {
            user_id: self.user_id,
            name: opt_text(self.name),
            username: opt_text(self.username),
            is_bot: self.is_bot,
            extra: entries_model(self.extra@),
        }
    }
}

/// The first of two optional texts that is present.
pub open spec fn or_else(a: Option<Seq<char>>, b: Option<Seq<char>>) -> Option<Seq<char>> {
    match a {
        Some(x) => Some(x),
        None => b,
    }
}

impl User {
    /// A user with the given members.
    pub fn from_parts(
        user_id: Option<i64>,
        name: Option<String>,
        username: Option<String>,
        is_bot: bool,
        extra: Vec<JsonEntry>,
    ) -> (u: Self)
        ensures
            u@ == (UserModel {
                user_id,
                name: opt_text(name),
                username: opt_text(username),
                is_bot,
                extra: entries_model(extra@),
            }),
    {
        User { user_id, name, username, is_bot, extra }
    }

    /// Returns user identifier when available.
    pub fn id(&self) -> (r: Option<i64>)
        ensures
            r == self@.user_id,
    {
        self.user_id
    }

    /// Returns user display name, unless blank.
    pub fn name(&self) -> (r: Option<&str>)
        ensures
            opt_slice(r) == non_empty(self@.name),
    {
        non_empty_str(&self.name)
    }

    /// Returns user username, unless blank.
    pub fn username(&self) -> (r: Option<&str>)
        ensures
            opt_slice(r) == non_empty(self@.username),
    {
        non_empty_str(&self.username)
    }

    /// Returns `true` for bot users.
    pub fn is_bot(&self) -> (b: bool)
        ensures
            b == self@.is_bot,
    {
        self.is_bot
    }

    /// Returns best effort display label: `name`, then `username`.
    pub fn display_name(&self) -> (r: Option<&str>)
        ensures
            opt_slice(r) == or_else(non_empty(self@.name), non_empty(self@.username)),
    {
        match self.name() {
            Some(n) => Some(n),
            None => self.username(),
        }
    }

    /// Returns unmodeled fields.
    pub fn extra(&self) -> (r: &Vec<JsonEntry>)
        ensures
            entries_model(r@) == self@.extra,
    {
        &self.extra
    }
}

/// The view of a chat.
pub struct ChatModel {
    /// Chat identifier.
    pub chat_id: Option<i64>,
    /// Chat type as received.
    pub chat_type: Option<Seq<char>>,
    /// Title as received.
    pub title: Option<Seq<char>>,
    /// Public handle as received.
    pub username: Option<Seq<char>>,
    /// Unmodelled members.
    pub extra: Seq<(Seq<char>, JsonModel)>,
}

/// MAX chat object with optional fields and forward-compatible extra-field capture.
#[derive(Debug, Clone, PartialEq)]
pub struct Chat {
    chat_id: Option<i64>,
    chat_type: Option<String>,
    title: Option<String>,
    username: Option<String>,
    extra: Vec<JsonEntry>,
}

impl View for Chat {
    type V = ChatModel;

    closed spec fn view(&self) -> ChatModel {
        ChatModel {
            chat_id: self.chat_id,
            chat_type: opt_text(self.chat_type),
            title: opt_text(self.title),
            username: opt_text(self.username),
            extra: entries_model(self.extra@),
        }
    }
}

/// Two texts are equal when ASCII letters are compared without case.
pub open spec fn eq_ignore_ascii_case(a: Seq<char>, b: Seq<char>) -> bool {
    a.len() == b.len() && forall|i: int| 0 <= i < a.len() ==> ascii_lower(#[trigger] a[i]) == ascii_lower(b[i])
}

/// Compares two texts with ASCII letters compared without case.
pub fn str_eq_ignore_ascii_case(a: &str, b: &str) -> (r: bool)
    ensures
        r == eq_ignore_ascii_case(a@, b@),
{
    let x = chars_of(a);
    let y = chars_of(b);
    if x.len() != y.len() {
        return false;
    }
    let mut i: usize = 0;
    while i < x.len()
        invariant
            i <= x.len(),
            x.len() == y.len(),
            x@ == a@,
            y@ == b@,
            forall|j: int| 0 <= j < i ==> ascii_lower(#[trigger] a@[j]) == ascii_lower(b@[j]),
        decreases x.len() - i,
    {
        if to_ascii_lower(x[i]) != to_ascii_lower(y[i]) {
            return false;
        }
        i = i + 1;
    }
    true
}

/// The chat type, when present and not blank, equals `name` without ASCII case.
pub open spec fn chat_type_is(chat_type: Option<Seq<char>>, name: Seq<char>) -> bool {
    match non_empty(chat_type) {
        Some(t) => eq_ignore_ascii_case(t, name),
        None => false,
    }
}

impl Chat {
    /// A chat with the given members.
    pub fn from_parts(
        chat_id: Option<i64>,
        chat_type: Option<String>,
        title: Option<String>,
        username: Option<String>,
        extra: Vec<JsonEntry>,
    ) -> (c: Self)
        ensures
            c@ == (ChatModel {
                chat_id,
                chat_type: opt_text(chat_type),
                title: opt_text(title),
                username: opt_text(username),
                extra: entries_model(extra@),
            }),
    {
        Chat { chat_id, chat_type, title, username, extra }
    }

    /// Returns chat identifier when available.
    pub fn id(&self) -> (r: Option<i64>)
        ensures
            r == self@.chat_id,
    {
        self.chat_id
    }

    /// Returns chat type string as received from API, unless blank.
    pub fn chat_type(&self) -> (r: Option<&str>)
        ensures
            opt_slice(r) == non_empty(self@.chat_type),
    {
        non_empty_str(&self.chat_type)
    }

    /// Returns chat title, unless blank.
    pub fn title(&self) -> (r: Option<&str>)
        ensures
            opt_slice(r) == non_empty(self@.title),
    {
        non_empty_str(&self.title)
    }

    /// Returns public username/handle, unless blank.
    pub fn username(&self) -> (r: Option<&str>)
        ensures
            opt_slice(r) == non_empty(self@.username),
    {
        non_empty_str(&self.username)
    }

    /// Returns best effort human label: `title`, then `username`.
    pub fn display_title(&self) -> (r: Option<&str>)
        ensures
            opt_slice(r) == or_else(non_empty(self@.title), non_empty(self@.username)),
    {
        match self.title() {
            Some(t) => Some(t),
            None => self.username(),
        }
    }

    /// Returns whether chat type equals `group`, ignoring ASCII case.
    pub fn is_group(&self) -> (b: bool)
        ensures
            b == chat_type_is(self@.chat_type, "group"@),
    {
        match self.chat_type() {
            Some(t) => str_eq_ignore_ascii_case(t, "group"),
            None => false,
        }
    }

    /// Returns whether chat type equals `private`, ignoring ASCII case.
    pub fn is_private(&self) -> (b: bool)
        ensures
            b == chat_type_is(self@.chat_type, "private"@),
    {
        match self.chat_type() {
            Some(t) => str_eq_ignore_ascii_case(t, "private"),
            None => false,
        }
    }

    /// Returns unmodeled fields.
    pub fn extra(&self) -> (r: &Vec<JsonEntry>)
        ensures
            entries_model(r@) == self@.extra,
    {
        &self.extra
    }
}

/// The view of a chat membership.
pub struct MembershipModel {
    /// Member user.
    pub user: Option<UserModel>,
    /// Status as received.
    pub status: Option<Seq<char>>,
    /// Role as received.
    pub role: Option<Seq<char>>,
    /// Admin flag.
    pub is_admin: Option<bool>,
    /// Unmodelled members.
    pub extra: Seq<(Seq<char>, JsonModel)>,
}

/// The view of an optional user.
pub open spec fn opt_user(u: Option<User>) -> Option<UserModel> {
    match u {
        Some(x) => Some(x@),
        None => None,
    }
}

/// Chat membership of a user.
#[derive(Debug, Clone, PartialEq)]
pub struct ChatMembership {
    user: Option<User>,
    status: Option<String>,
    role: Option<String>,
    is_admin: Option<bool>,
    extra: Vec<JsonEntry>,
}

impl View for ChatMembership {
    type V = MembershipModel;

    closed spec fn view(&self) -> MembershipModel {
        MembershipModel {
            user: opt_user(self.user),
            status: opt_text(self.status),
            role: opt_text(self.role),
            is_admin: self.is_admin,
            extra: entries_model(self.extra@),
        }
    }
}

impl ChatMembership {
    /// A membership with the given members.
    pub fn from_parts(
        user: Option<User>,
        status: Option<String>,
        role: Option<String>,
        is_admin: Option<bool>,
        extra: Vec<JsonEntry>,
    ) -> (m: Self)
        ensures
            m@ == (MembershipModel {
                user: opt_user(user),
                status: opt_text(status),
                role: opt_text(role),
                is_admin,
                extra: entries_model(extra@),
            }),
    {
        ChatMembership { user, status, role, is_admin, extra }
    }

    /// Returns the member user.
    pub fn user(&self) -> (r: Option<&User>)
        ensures
            match r {
                Some(u) => self@.user == Some(u@),
                None => self@.user is None,
            },
    {
        match &self.user {
            Some(u) => Some(u),
            None => None,
        }
    }

    /// Returns membership status, unless blank.
    pub fn status(&self) -> (r: Option<&str>)
        ensures
            opt_slice(r) == non_empty(self@.status),
    {
        non_empty_str(&self.status)
    }

    /// Returns membership role, unless blank.
    pub fn role(&self) -> (r: Option<&str>)
        ensures
            opt_slice(r) == non_empty(self@.role),
    {
        non_empty_str(&self.role)
    }

    /// Returns the admin flag when present.
    pub fn is_admin(&self) -> (r: Option<bool>)
        ensures
            r == self@.is_admin,
    {
        self.is_admin
    }

    /// Returns unmodeled fields.
    pub fn extra(&self) -> (r: &Vec<JsonEntry>)
        ensures
            entries_model(r@) == self@.extra,
    {
        &self.extra
    }
}

/// Generic action result model returned by mutation endpoints.
#[derive(Debug, Clone, PartialEq)]
pub struct ActionResult {
    success: bool,
    message: Option<String>,
    extra: Vec<JsonEntry>,
}

/// The view of an action result.
pub struct ActionResultModel {
    /// Success flag.
    pub success: bool,
    /// Message as received.
    pub message: Option<Seq<char>>,
    /// Unmodelled members.
    pub extra: Seq<(Seq<char>, JsonModel)>,
}

impl View for ActionResult {
    type V = ActionResultModel;

    closed spec fn view(&self) -> ActionResultModel {
        ActionResultModel {
            success: self.success,
            message: opt_text(self.message),
            extra: entries_model(self.extra@),
        }
    }
}

impl ActionResult {
    /// A result with the given members.
    pub fn from_parts(success: bool, message: Option<String>, extra: Vec<JsonEntry>) -> (r: Self)
        ensures
            r@ == (ActionResultModel {
                success,
                message: opt_text(message),
                extra: entries_model(extra@),
            }),
    {
        ActionResult { success, message, extra }
    }

    /// A successful result without message.
    pub fn success() -> (r: Self)
        ensures
            r@.success,
            r@.message is None,
            r@.extra.len() == 0,
    {
        let r = ActionResult { success: true, message: None, extra: Vec::new() };
        assert(entries_model(r.extra@) =~= Seq::empty());
        r
    }

    /// A failed result with an optional message.
    pub fn failure(message: Option<String>) -> (r: Self)
        ensures
            !r@.success,
            r@.message == opt_text(message),
            r@.extra.len() == 0,
    {
        let r = ActionResult { success: false, message, extra: Vec::new() };
        assert(entries_model(r.extra@) =~= Seq::empty());
        r
    }

    /// Returns the success flag.
    pub fn is_success(&self) -> (b: bool)
        ensures
            b == self@.success,
    {
        self.success
    }

    /// Returns the message, unless blank.
    pub fn message(&self) -> (r: Option<&str>)
        ensures
            opt_slice(r) == non_empty(self@.message),
    {
        non_empty_str(&self.message)
    }

    /// Returns unmodeled fields.
    pub fn extra(&self) -> (r: &Vec<JsonEntry>)
        ensures
            entries_model(r@) == self@.extra,
    {
        &self.extra
    }
}

/// Upload ticket returned by `/uploads`.
#[derive(Debug, Clone, PartialEq)]
pub struct UploadTicket {
    url: Option<String>,
    token: Option<String>,
    extra: Vec<JsonEntry>,
}

/// The view of an upload ticket.
pub struct UploadTicketModel {
    /// Upload URL as received.
    pub url: Option<Seq<char>>,
    /// Token as received.
    pub token: Option<Seq<char>>,
    /// Unmodelled members.
    pub extra: Seq<(Seq<char>, JsonModel)>,
}

impl View for UploadTicket {
    type V = UploadTicketModel;

    closed spec fn view(&self) -> UploadTicketModel {
        UploadTicketModel {
            url: opt_text(self.url),
            token: opt_text(self.token),
            extra: entries_model(self.extra@),
        }
    }
}

impl UploadTicket {
    /// A ticket with the given members.
    pub fn from_parts(url: Option<String>, token: Option<String>, extra: Vec<JsonEntry>) -> (t: Self)
        ensures
            t@ == (UploadTicketModel {
                url: opt_text(url),
                token: opt_text(token),
                extra: entries_model(extra@),
            }),
    {
        UploadTicket { url, token, extra }
    }

    /// Returns the upload URL, unless blank.
    pub fn url(&self) -> (r: Option<&str>)
        ensures
            opt_slice(r) == non_empty(self@.url),
    {
        non_empty_str(&self.url)
    }

    /// Returns the upload token, unless blank.
    pub fn token(&self) -> (r: Option<&str>)
        ensures
            opt_slice(r) == non_empty(self@.token),
    {
        non_empty_str(&self.token)
    }

    /// Whether a token that is not blank is present.
    pub fn has_token(&self) -> (b: bool)
        ensures
            b == non_empty(self@.token) is Some,
    {
        self.token().is_some()
    }

    /// Returns unmodeled fields.
    pub fn extra(&self) -> (r: &Vec<JsonEntry>)
        ensures
            entries_model(r@) == self@.extra,
    {
        &self.extra
    }
}

/// Webhook subscription.
#[derive(Debug, Clone, PartialEq)]
pub struct WebhookSubscription {
    url: Option<String>,
    update_types: Vec<String>,
    extra: Vec<JsonEntry>,
}

/// The view of a webhook subscription.
pub struct SubscriptionModel {
    /// Webhook URL as received.
    pub url: Option<Seq<char>>,
    /// Update type filter.
    pub update_types: Seq<Seq<char>>,
    /// Unmodelled members.
    pub extra: Seq<(Seq<char>, JsonModel)>,
}

impl View for WebhookSubscription {
    type V = SubscriptionModel;

    closed spec fn view(&self) -> SubscriptionModel {
        SubscriptionModel {
            url: opt_text(self.url),
            update_types: self.update_types@.map_values(|t: String| t@),
            extra: entries_model(self.extra@),
        }
    }
}

impl WebhookSubscription {
    /// A subscription with the given members.
    pub fn from_parts(url: Option<String>, update_types: Vec<String>, extra: Vec<JsonEntry>) -> (s: Self)
        ensures
            s@ == (SubscriptionModel {
                url: opt_text(url),
                update_types: update_types@.map_values(|t: String| t@),
                extra: entries_model(extra@),
            }),
    {
        WebhookSubscription { url, update_types, extra }
    }

    /// Returns the webhook URL, unless blank.
    pub fn url(&self) -> (r: Option<&str>)
        ensures
            opt_slice(r) == non_empty(self@.url),
    {
        non_empty_str(&self.url)
    }

    /// Returns the update type filter.
    pub fn update_types(&self) -> (r: &[String])
        ensures
            r@.map_values(|t: String| t@) == self@.update_types,
    {
        self.update_types.as_slice()
    }

    /// Returns unmodeled fields.
    pub fn extra(&self) -> (r: &Vec<JsonEntry>)
        ensures
            entries_model(r@) == self@.extra,
    {
        &self.extra
    }
}

/// Video metadata for `/videos/{videoToken}`.
#[derive(Debug, Clone, PartialEq)]
pub struct VideoMetadata {
    token: Option<String>,
    url: Option<String>,
    width: Option<u32>,
    height: Option<u32>,
    duration: Option<u64>,
    extra: Vec<JsonEntry>,
}

/// The view of video metadata.
pub struct VideoModel {
    /// Video token as received.
    pub token: Option<Seq<char>>,
    /// Video URL as received.
    pub url: Option<Seq<char>>,
    /// Width in pixels.
    pub width: Option<u32>,
    /// Height in pixels.
    pub height: Option<u32>,
    /// Duration.
    pub duration: Option<u64>,
    /// Unmodelled members.
    pub extra: Seq<(Seq<char>, JsonModel)>,
}

impl View for VideoMetadata {
    type V = VideoModel;

    closed spec fn view(&self) -> VideoModel {
        VideoModel {
            token: opt_text(self.token),
            url: opt_text(self.url),
            width: self.width,
            height: self.height,
            duration: self.duration,
            extra: entries_model(self.extra@),
        }
    }
}

impl VideoMetadata {
    /// Video metadata with the given members.
    pub fn from_parts(
        token: Option<String>,
        url: Option<String>,
        width: Option<u32>,
        height: Option<u32>,
        duration: Option<u64>,
        extra: Vec<JsonEntry>,
    ) -> (v: Self)
        ensures
            v@ == (VideoModel {
                token: opt_text(token),
                url: opt_text(url),
                width,
                height,
                duration,
                extra: entries_model(extra@),
            }),
    {
        VideoMetadata { token, url, width, height, duration, extra }
    }

    /// Returns the video token, unless blank.
    pub fn token(&self) -> (r: Option<&str>)
        ensures
            opt_slice(r) == non_empty(self@.token),
    {
        non_empty_str(&self.token)
    }

    /// Returns the video URL, unless blank.
    pub fn url(&self) -> (r: Option<&str>)
        ensures
            opt_slice(r) == non_empty(self@.url),
    {
        non_empty_str(&self.url)
    }

    /// Returns the width.
    pub fn width(&self) -> (r: Option<u32>)
        ensures
            r == self@.width,
    {
        self.width
    }

    /// Returns the height.
    pub fn height(&self) -> (r: Option<u32>)
        ensures
            r == self@.height,
    {
        self.height
    }

    /// Returns the duration.
    pub fn duration(&self) -> (r: Option<u64>)
        ensures
            r == self@.duration,
    {
        self.duration
    }

    /// Returns unmodeled fields.
    pub fn extra(&self) -> (r: &Vec<JsonEntry>)
        ensures
            entries_model(r@) == self@.extra,
    {
        &self.extra
    }
}

} // verus!
