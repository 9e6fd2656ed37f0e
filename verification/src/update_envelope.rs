//! Update envelope: one MAX update with its type, time, payload and origin.

use vstd::prelude::*;
use vstd::string::StringExecFns;
use crate::json::{JsonModel, JsonValue, clone_value, model};

verus! {

/// Update types that the SDK recognises.
#[derive(Debug, Clone, Copy, PartialEq, Eq, Structural)]
pub enum KnownUpdateType {
    /// A new message.
    MessageCreated,
    /// A press of an inline keyboard callback button.
    MessageCallback,
    /// A user started the bot.
    BotStarted,
    /// A user stopped the bot.
    BotStopped,
    /// A user joined a chat.
    UserAdded,
    /// A user left a chat.
    UserRemoved,
    /// A chat title changed.
    ChatTitleChanged,
}

/// Wire name of a known update type.
pub open spec fn known_update_name(kind: KnownUpdateType) -> Seq<char> {
    match kind {
        KnownUpdateType::MessageCreated => "message_created"@,
        KnownUpdateType::MessageCallback => "message_callback"@,
        KnownUpdateType::BotStarted => "bot_started"@,
        KnownUpdateType::BotStopped => "bot_stopped"@,
        KnownUpdateType::UserAdded => "user_added"@,
        KnownUpdateType::UserRemoved => "user_removed"@,
        KnownUpdateType::ChatTitleChanged => "chat_title_changed"@,
    }
}

impl KnownUpdateType {
    /// Wire name of the update type.
    pub fn as_str(self) -> (s: &'static str)
        ensures
            s@ == known_update_name(self),
    {
        match self {
            KnownUpdateType::MessageCreated => "message_created",
            KnownUpdateType::MessageCallback => "message_callback",
            KnownUpdateType::BotStarted => "bot_started",
            KnownUpdateType::BotStopped => "bot_stopped",
            KnownUpdateType::UserAdded => "user_added",
            KnownUpdateType::UserRemoved => "user_removed",
            KnownUpdateType::ChatTitleChanged => "chat_title_changed",
        }
    }
}

/// Update type that keeps unknown names for forward compatibility.
#[derive(Debug, Clone, PartialEq, Eq)]
pub enum UpdateType {
    /// A recognised update type.
    Known(KnownUpdateType),
    /// Any other update type name.
    Unknown(String),
}

/// Wire name of an update type.
pub open spec fn update_type_name(kind: UpdateType) -> Seq<char> {
    match kind {
        UpdateType::Known(k) => known_update_name(k),
        UpdateType::Unknown(s) => s@,
    }
}

impl UpdateType {
    /// Wire name of the update type.
    pub fn as_str(&self) -> (s: &str)
        ensures
            s@ == update_type_name(*self),
    {
        match self {
            UpdateType::Known(k) => k.as_str(),
            UpdateType::Unknown(s) => s.as_str(),
        }
    }

    /// A copy of the update type.
    pub fn duplicate(&self) -> (c: Self)
        ensures
            update_type_name(c) == update_type_name(*self),
            c is Known <==> self is Known,
            c is Known ==> c == *self,
    {
        match self {
            UpdateType::Known(k) => UpdateType::Known(*k),
            UpdateType::Unknown(s) => UpdateType::Unknown(s.clone()),
        }
    }
}

/// Channel an update arrived through.
#[derive(Debug, Clone, Copy, PartialEq, Eq, Structural)]
pub enum UpdateSource {
    /// Delivered to the webhook.
    Webhook,
    /// Fetched by long polling.
    Polling,
}

/// One update as received from MAX.
#[derive(Debug, PartialEq)]
pub struct UpdateEnvelope {
    /// Update type.
    pub update_type: UpdateType,
    /// Update time in milliseconds since the UNIX epoch.
    pub timestamp: i64,
    /// Update payload.
    pub payload: JsonValue,
    /// The update as received.
    pub raw: JsonValue,
    /// Delivery channel.
    pub source: UpdateSource,
}

impl Clone for UpdateEnvelope {
    fn clone(&self) -> (c: Self)
        ensures
            update_type_name(c.update_type) == update_type_name(self.update_type),
            c.update_type is Known ==> c.update_type == self.update_type,
            c.update_type is Known <==> self.update_type is Known,
            c.timestamp == self.timestamp,
            model(c.payload) == model(self.payload),
            model(c.raw) == model(self.raw),
            c.source == self.source,
    {
        UpdateEnvelope {
            update_type: self.update_type.duplicate(),
            timestamp: self.timestamp,
            payload: clone_value(&self.payload),
            raw: clone_value(&self.raw),
            source: self.source,
        }
    }
}

} // verus!
