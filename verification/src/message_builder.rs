//! Fluent outbound message builder.

use vstd::prelude::*;
use crate::attachment::{Attachment, LinkMetadata};
use crate::new_message_body::{
    BodyModel, MessageTextFormat, NewMessageBody, NewMessageBodyValidationError, attachment_views,
    body_check, body_result_matches,
};

verus! {

/// Fluent builder of an outbound message body.
#[derive(Debug, Clone)]
pub struct MessageBuilder {
    body: NewMessageBody,
}

impl View for MessageBuilder {
    type V = BodyModel;

    closed spec fn view(&self) -> BodyModel {
        self.body@
    }
}

impl Default for MessageBuilder {
    fn default() -> (b: Self)
        ensures
            b@ == (BodyModel {
                text: None,
                attachments: Seq::empty(),
                link: None,
                notify: true,
                format: None,
            }),
    {
        MessageBuilder::new()
    }
}

impl MessageBuilder {
    /// A builder of an empty body that notifies.
    pub fn new() -> (b: Self)
        ensures
            b@ == (BodyModel {
                text: None,
                attachments: Seq::empty(),
                link: None,
                notify: true,
                format: None,
            }),
    {
        MessageBuilder { body: NewMessageBody::new() }
    }

    /// Sets plain text.
    pub fn text(self, text: String) -> (b: Self)
        ensures
            b@ == (BodyModel { text: Some(text@), ..self@ }),
    {
        MessageBuilder { body: self.body.with_text(text) }
    }

    /// Sets Markdown text.
    pub fn markdown(self, text: String) -> (b: Self)
        ensures
            b@ == (BodyModel { text: Some(text@), format: Some(MessageTextFormat::Markdown), ..self@ }),
    {
        MessageBuilder { body: self.body.with_text(text).with_format(MessageTextFormat::Markdown) }
    }

    /// Sets HTML text.
    pub fn html(self, text: String) -> (b: Self)
        ensures
            b@ == (BodyModel { text: Some(text@), format: Some(MessageTextFormat::Html), ..self@ }),
    {
        MessageBuilder { body: self.body.with_text(text).with_format(MessageTextFormat::Html) }
    }

    /// Appends an attachment.
    pub fn attachment(self, attachment: Attachment) -> (b: Self)
        ensures
            b@ == (BodyModel { attachments: self@.attachments.push(attachment@), ..self@ }),
    {
        MessageBuilder { body: self.body.with_attachment(attachment) }
    }

    /// Replaces the attachments.
    pub fn attachments(self, attachments: Vec<Attachment>) -> (b: Self)
        ensures
            b@ == (BodyModel { attachments: attachment_views(attachments@), ..self@ }),
    {
        MessageBuilder { body: self.body.with_attachments(attachments) }
    }

    /// Sets link metadata.
    pub fn link(self, link: LinkMetadata) -> (b: Self)
        ensures
            b@ == (BodyModel { link: Some(link@), ..self@ }),
    {
        MessageBuilder { body: self.body.with_link(link) }
    }

    /// Sets the notification flag.
    pub fn notify(self, notify: bool) -> (b: Self)
        ensures
            b@ == (BodyModel { notify, ..self@ }),
    {
        MessageBuilder { body: self.body.with_notify(notify) }
    }

    /// The validated body.
    pub fn build(self) -> (r: Result<NewMessageBody, NewMessageBodyValidationError>)
        ensures
            match r {
                Ok(b) => b@ == self@ && body_check(self@) is Valid,
                Err(e) => body_result_matches(Err(e), self@),
            },
    {
        self.body.validated()
    }
}

} // verus!
