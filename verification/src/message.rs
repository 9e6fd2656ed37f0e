//! Message models for MAX API responses and update payloads, and the
//! requests that answer, forward or edit a received message.

use vstd::prelude::*;
use vstd::string::StringExecFns;
use crate::api_error::ApiError;
use crate::attachment::{Attachment, AttachmentType, LinkMetadata, LinkModel, non_empty, non_empty_str, opt_slice, opt_text};
use crate::json::{JsonEntry, JsonModel, entries_model};
use crate::models::{User, UserModel, opt_user};
use crate::new_message_body::{BodyModel, NewMessageBody, attachment_views, opt_link};
use crate::requests::{EditMessageRequest, SendMessageRequest, config_error, is_config_error};

verus! {

/// Message recipient coordinates.
#[derive(Debug, Clone, Copy, PartialEq, Eq, Structural)]
pub struct MessageRecipient {
    chat_id: Option<i64>,
    user_id: Option<i64>,
}

impl View for MessageRecipient {
    type V = (Option<i64>, Option<i64>);

    closed spec fn view(&self) -> (Option<i64>, Option<i64>) {
        (self.chat_id, self.user_id)
    }
}

impl Default for MessageRecipient {
    fn default() -> (r: Self)
        ensures
            r@ == (None::<i64>, None::<i64>),
    {
        MessageRecipient { chat_id: None, user_id: None }
    }
}

impl MessageRecipient {
    /// A recipient with the given chat and user identifiers.
    pub fn from_parts(chat_id: Option<i64>, user_id: Option<i64>) -> (r: Self)
        ensures
            r@ == (chat_id, user_id),
    {
        MessageRecipient { chat_id, user_id }
    }

    /// Returns chat recipient identifier.
    pub fn chat_id(&self) -> (r: Option<i64>)
        ensures
            r == self@.0,
    {
        self.chat_id
    }

    /// Returns direct user recipient identifier.
    pub fn user_id(&self) -> (r: Option<i64>)
        ensures
            r == self@.1,
    {
        self.user_id
    }

    /// Returns `true` when recipient points to chat.
    pub fn is_chat(&self) -> (b: bool)
        ensures
            b == self@.0 is Some,
    {
        self.chat_id.is_some()
    }

    /// Returns `true` when recipient points to direct user.
    pub fn is_direct_user(&self) -> (b: bool)
        ensures
            b == self@.1 is Some,
    {
        self.user_id.is_some()
    }
}

/// Supported text formatting modes.
#[derive(Debug, Clone, Copy, PartialEq, Eq, Structural)]
pub enum MessageTextFormat {
    /// Markdown syntax.
    Markdown,
    /// HTML syntax.
    Html,
}

/// Message payload composition category.
#[derive(Debug, Clone, Copy, PartialEq, Eq, Structural)]
pub enum MessagePayloadKind {
    /// Body is empty.
    Empty,
    /// Body carries text only.
    Text,
    /// Body carries attachments only.
    Attachments,
    /// Body carries link metadata only.
    Link,
    /// Body contains multiple payload components.
    Rich,
}

/// Classification by which components are present: none is empty, exactly
/// one names it, more than one is rich.
pub open spec fn classify_payload(has_text: bool, has_attachments: bool, has_link: bool) -> MessagePayloadKind {
    if !has_text && !has_attachments && !has_link {
        MessagePayloadKind::Empty
    } else if has_text && !has_attachments && !has_link {
        MessagePayloadKind::Text
    } else if !has_text && has_attachments && !has_link {
        MessagePayloadKind::Attachments
    } else if !has_text && !has_attachments && has_link {
        MessagePayloadKind::Link
    } else {
        MessagePayloadKind::Rich
    }
}

/// The view of a received message body.
pub struct MessageBodyModel {
    /// Text as received.
    pub text: Option<Seq<char>>,
    /// Attachments by type and payload.
    pub attachments: Seq<(AttachmentType, JsonModel)>,
    /// Link metadata.
    pub link: Option<LinkModel>,
    /// Explicit notify flag.
    pub notify: Option<bool>,
    /// Text format.
    pub format: Option<MessageTextFormat>,
    /// Unmodelled members.
    pub extra: Seq<(Seq<char>, JsonModel)>,
}

/// Classification of a body view.
pub open spec fn body_kind(b: MessageBodyModel) -> MessagePayloadKind {
    classify_payload(non_empty(b.text) is Some, b.attachments.len() > 0, b.link is Some)
}

/// Structured message body payload.
#[derive(Debug, Clone, PartialEq)]
pub struct MessageBody {
    text: Option<String>,
    attachments: Vec<Attachment>,
    link: Option<LinkMetadata>,
    notify: Option<bool>,
    format: Option<MessageTextFormat>,
    extra: Vec<JsonEntry>,
}

impl View for MessageBody {
    type V = MessageBodyModel;

    closed spec fn view(&self) -> MessageBodyModel {
        MessageBodyModel {
            text: opt_text(self.text),
            attachments: attachment_views(self.attachments@),
            link: opt_link(self.link),
            notify: self.notify,
            format: self.format,
            extra: entries_model(self.extra@),
        }
    }
}

impl MessageBody {
    /// A body with the given members.
    pub fn from_parts(
        text: Option<String>,
        attachments: Vec<Attachment>,
        link: Option<LinkMetadata>,
        notify: Option<bool>,
        format: Option<MessageTextFormat>,
        extra: Vec<JsonEntry>,
    ) -> (b: Self)
        ensures
            b@ == (MessageBodyModel {
                text: opt_text(text),
                attachments: attachment_views(attachments@),
                link: opt_link(link),
                notify,
                format,
                extra: entries_model(extra@),
            }),
    {
        MessageBody { text, attachments, link, notify, format, extra }
    }

    /// Returns body text, unless blank.
    pub fn text(&self) -> (r: Option<&str>)
        ensures
            opt_slice(r) == non_empty(self@.text),
    {
        non_empty_str(&self.text)
    }

    /// Returns message attachments.
    pub fn attachments(&self) -> (r: &[Attachment])
        ensures
            attachment_views(r@) == self@.attachments,
    {
        self.attachments.as_slice()
    }

    /// Returns link metadata when present.
    pub fn link(&self) -> (r: Option<&LinkMetadata>)
        ensures
            match r {
                Some(l) => self@.link == Some(l@),
                None => self@.link is None,
            },
    {
        match &self.link {
            Some(l) => Some(l),
            None => None,
        }
    }

    /// Returns explicit notify override if API provides it.
    pub fn notify(&self) -> (r: Option<bool>)
        ensures
            r == self@.notify,
    {
        self.notify
    }

    /// Returns text formatting mode.
    pub fn format(&self) -> (r: Option<MessageTextFormat>)
        ensures
            r == self@.format,
    {
        self.format
    }

    /// Returns body payload classification.
    pub fn payload_kind(&self) -> (k: MessagePayloadKind)
        ensures
            k == body_kind(self@),
    {
        let has_text = self.text().is_some();
        let has_attachments = self.attachments.len() > 0;
        let has_link = self.link.is_some();
        match (has_text, has_attachments, has_link) {
            (false, false, false) => MessagePayloadKind::Empty,
            (true, false, false) => MessagePayloadKind::Text,
            (false, true, false) => MessagePayloadKind::Attachments,
            (false, false, true) => MessagePayloadKind::Link,
            _ => MessagePayloadKind::Rich,
        }
    }

    /// Returns unmodeled fields.
    pub fn extra(&self) -> (r: &Vec<JsonEntry>)
        ensures
            entries_model(r@) == self@.extra,
    {
        &self.extra
    }
}

/// The view of a message.
pub struct MessageModel {
    /// Message identifier as received.
    pub message_id: Option<Seq<char>>,
    /// Sender.
    pub sender: Option<UserModel>,
    /// Recipient coordinates.
    pub recipient: Option<(Option<i64>, Option<i64>)>,
    /// UNIX timestamp.
    pub timestamp: Option<i64>,
    /// Body.
    pub body: Option<MessageBodyModel>,
    /// Unmodelled members.
    pub extra: Seq<(Seq<char>, JsonModel)>,
}

/// The view of an optional recipient.
pub open spec fn opt_recipient(r: Option<MessageRecipient>) -> Option<(Option<i64>, Option<i64>)> {
    match r {
        Some(x) => Some(x@),
        None => None,
    }
}

/// The view of an optional body.
pub open spec fn opt_message_body(b: Option<MessageBody>) -> Option<MessageBodyModel> {
    match b {
        Some(x) => Some(x@),
        None => None,
    }
}

/// Message entity returned by MAX API operations.
#[derive(Debug, Clone, PartialEq)]
pub struct Message {
    message_id: Option<String>,
    sender: Option<User>,
    recipient: Option<MessageRecipient>,
    timestamp: Option<i64>,
    body: Option<MessageBody>,
    extra: Vec<JsonEntry>,
}

impl View for Message {
    type V = MessageModel;

    closed spec fn view(&self) -> MessageModel {
        MessageModel {
            message_id: opt_text(self.message_id),
            sender: opt_user(self.sender),
            recipient: opt_recipient(self.recipient),
            timestamp: self.timestamp,
            body: opt_message_body(self.body),
            extra: entries_model(self.extra@),
        }
    }
}

impl Message {
    /// A message with the given members.
    pub fn from_parts(
        message_id: Option<String>,
        sender: Option<User>,
        recipient: Option<MessageRecipient>,
        timestamp: Option<i64>,
        body: Option<MessageBody>,
        extra: Vec<JsonEntry>,
    ) -> (m: Self)
        ensures
            m@ == (MessageModel {
                message_id: opt_text(message_id),
                sender: opt_user(sender),
                recipient: opt_recipient(recipient),
                timestamp,
                body: opt_message_body(body),
                extra: entries_model(extra@),
            }),
    {
        Message { message_id, sender, recipient, timestamp, body, extra }
    }

    /// Returns message identifier when available and not blank.
    pub fn id(&self) -> (r: Option<&str>)
        ensures
            opt_slice(r) == non_empty(self@.message_id),
    {
        non_empty_str(&self.message_id)
    }

    /// Returns message sender.
    pub fn sender(&self) -> (r: Option<&User>)
        ensures
            match r {
                Some(u) => self@.sender == Some(u@),
                None => self@.sender is None,
            },
    {
        match &self.sender {
            Some(u) => Some(u),
            None => None,
        }
    }

    /// Returns message recipient information.
    pub fn recipient(&self) -> (r: Option<&MessageRecipient>)
        ensures
            match r {
                Some(x) => self@.recipient == Some(x@),
                None => self@.recipient is None,
            },
    {
        match &self.recipient {
            Some(x) => Some(x),
            None => None,
        }
    }

    /// Returns UNIX timestamp from API payload when available.
    pub fn timestamp(&self) -> (r: Option<i64>)
        ensures
            r == self@.timestamp,
    {
        self.timestamp
    }

    /// Returns body payload when available.
    pub fn body(&self) -> (r: Option<&MessageBody>)
        ensures
            match r {
                Some(b) => self@.body == Some(b@),
                None => self@.body is None,
            },
    {
        match &self.body {
            Some(b) => Some(b),
            None => None,
        }
    }

    /// Returns body payload classification: empty without a body.
    pub fn payload_kind(&self) -> (k: MessagePayloadKind)
        ensures
            k == match self@.body {
                Some(b) => body_kind(b),
                None => MessagePayloadKind::Empty,
            },
    {
        match &self.body {
            Some(b) => b.payload_kind(),
            None => MessagePayloadKind::Empty,
        }
    }

    /// Returns unmodeled fields.
    pub fn extra(&self) -> (r: &Vec<JsonEntry>)
        ensures
            entries_model(r@) == self@.extra,
    {
        &self.extra
    }
}

/// The message a helper context acts on: its identifier and recipient.
#[derive(Debug, Clone, PartialEq, Eq)]
pub struct MessageTarget {
    /// Message identifier.
    pub message_id: String,
    /// Chat of the message.
    pub chat_id: Option<i64>,
    /// Direct user of the message.
    pub user_id: Option<i64>,
}

impl MessageTarget {
    /// The target of a message: it needs an identifier that is not blank,
    /// then a recipient.
    pub fn from_message(message: &Message) -> (r: Result<Self, ApiError>)
        ensures
            non_empty(message@.message_id) is None ==> (r matches Err(e) && is_config_error(
                e,
                "message id is required for helper context"@,
            )),
            non_empty(message@.message_id) is Some && message@.recipient is None ==> (r matches Err(
                e,
            ) && is_config_error(e, "message recipient is required for helper context"@)),
            non_empty(message@.message_id) is Some && message@.recipient is Some ==> (r matches Ok(t)
                && Some(t.message_id@) == non_empty(message@.message_id) && (t.chat_id, t.user_id)
                == message@.recipient->0),
    {
        let message_id = match message.id() {
            Some(id) => id,
            None => {
                return Err(config_error("message id is required for helper context"));
            },
        };
        let recipient = match message.recipient() {
            Some(r) => r,
            None => {
                return Err(config_error("message recipient is required for helper context"));
            },
        };
        Ok(
            MessageTarget {
                message_id: message_id.to_string(),
                chat_id: recipient.chat_id(),
                user_id: recipient.user_id(),
            },
        )
    }

    /// A send request answering to the same recipient: the chat when there
    /// is one, else the user.
    pub fn answer_request(&self, body: NewMessageBody) -> (r: Result<SendMessageRequest, ApiError>)
        ensures
            self.chat_id matches Some(c) ==> (r matches Ok(req) && req.chat_id == Some(c)
                && req.user_id is None && req.body == body && req.disable_link_preview is None),
            self.chat_id is None && self.user_id is Some ==> (r matches Ok(req)
                && req.chat_id is None && req.user_id == self.user_id && req.body == body
                && req.disable_link_preview is None),
            self.chat_id is None && self.user_id is None ==> (r matches Err(e) && is_config_error(
                e,
                "cannot answer message without chat_id or user_id"@,
            )),
    {
        match self.chat_id {
            Some(chat_id) => Ok(SendMessageRequest::to_chat(chat_id, body)),
            None => match self.user_id {
                Some(user_id) => Ok(SendMessageRequest::to_user(user_id, body)),
                None => Err(config_error("cannot answer message without chat_id or user_id")),
            },
        }
    }

    /// A send request forwarding the message as the text
    /// `Forwarded message {id}` to exactly one target.
    pub fn forward_request(&self, target_chat_id: Option<i64>, target_user_id: Option<i64>) -> (r:
        Result<SendMessageRequest, ApiError>)
        ensures
            match (target_chat_id, target_user_id) {
                (Some(c), None) => r matches Ok(req) && req.chat_id == Some(c) && req.user_id is None
                    && req.body@ == forward_body(self.message_id@),
                (None, Some(u)) => r matches Ok(req) && req.chat_id is None && req.user_id == Some(u)
                    && req.body@ == forward_body(self.message_id@),
                _ => r matches Err(e) && is_config_error(
                    e,
                    "forward target must be set as chat_id xor user_id"@,
                ),
            },
    {
        let mut text = String::from_str("Forwarded message ");
        text.append(self.message_id.as_str());
        let body = NewMessageBody::new().with_text(text);
        match (target_chat_id, target_user_id) {
            (Some(chat_id), None) => Ok(SendMessageRequest::to_chat(chat_id, body)),
            (None, Some(user_id)) => Ok(SendMessageRequest::to_user(user_id, body)),
            _ => Err(config_error("forward target must be set as chat_id xor user_id")),
        }
    }

    /// An edit request for the message.
    pub fn edit_request(&self, body: NewMessageBody) -> (r: EditMessageRequest)
        ensures
            r.message_id@ == self.message_id@,
            r.body == body,
    {
        EditMessageRequest::new(self.message_id.clone(), body)
    }
}

/// Body of a forwarding message: the text `Forwarded message {id}`, with
/// notification and nothing else.
pub open spec fn forward_body(message_id: Seq<char>) -> BodyModel {
    BodyModel {
        text: Some("Forwarded message "@ + message_id),
        attachments: Seq::empty(),
        link: None,
        notify: true,
        format: None,
    }
}

} // verus!
