//! Outbound message body model and validation helpers.

use vstd::prelude::*;
use vstd::string::StringExecFns;
use crate::attachment::{
    Attachment, AttachmentValidationError, LinkMetadata, LinkModel, attachment_error_matches,
    attachment_error_text, attachment_type_name, non_empty, non_empty_str, opt_slice, opt_text,
    outbound_ok,
};
use crate::json::JsonModel;
use crate::attachment::AttachmentType;
use crate::text::{blank, chars_of, decimal, is_blank, push_decimal};

verus! {

/// Maximum supported message text length in characters.
pub const MAX_TEXT_LENGTH: usize = 4000;

/// Supported outbound text formatting modes.
#[derive(Debug, Clone, Copy, PartialEq, Eq, Structural)]
pub enum MessageTextFormat {
    /// Markdown syntax.
    Markdown,
    /// HTML syntax.
    Html,
}

impl MessageTextFormat {
    /// Wire name of the format.
    pub fn as_str(self) -> (s: &'static str)
        ensures
            s@ == format_name(self),
    {
        match self {
            MessageTextFormat::Markdown => "markdown",
            MessageTextFormat::Html => "html",
        }
    }
}

/// Wire name of a text format.
pub open spec fn format_name(f: MessageTextFormat) -> Seq<char> {
    match f {
        MessageTextFormat::Markdown => "markdown"@,
        MessageTextFormat::Html => "html"@,
    }
}

/// The view of an outbound message body.
pub struct BodyModel {
    /// Text as set, blank or not.
    pub text: Option<Seq<char>>,
    /// Attachments by type and payload, in order.
    pub attachments: Seq<(AttachmentType, JsonModel)>,
    /// Link metadata.
    pub link: Option<LinkModel>,
    /// Notification flag.
    pub notify: bool,
    /// Text format.
    pub format: Option<MessageTextFormat>,
}

/// Validation failures for [`NewMessageBody`].
#[derive(Debug, Clone, PartialEq, Eq)]
pub enum NewMessageBodyValidationError {
    /// Request body has no effective content.
    EmptyBody,
    /// `text` is present but blank.
    EmptyText,
    /// `text` exceeds `MAX_TEXT_LENGTH`.
    TextTooLong {
        /// Number of characters in provided text.
        length: usize,
    },
    /// `format` requires non-empty text.
    FormatWithoutText,
    /// Link payload exists but URL is missing or blank.
    LinkWithoutUrl,
    /// One of attachments failed validation.
    InvalidAttachment {
        /// Zero-based invalid attachment index.
        index: usize,
        /// Nested attachment validation failure.
        source: AttachmentValidationError,
    },
}

/// Text of a body validation error.
pub open spec fn body_error_text(e: NewMessageBodyValidationError) -> Seq<char> {
    match e {
        NewMessageBodyValidationError::EmptyBody => "message body must include text, attachments, or link"@,
        NewMessageBodyValidationError::EmptyText => "message text must not be empty"@,
        NewMessageBodyValidationError::TextTooLong { length } =>
            "message text must be at most 4000 characters, got "@ + decimal(length as nat),
        NewMessageBodyValidationError::FormatWithoutText =>
            "message format can only be set when non-empty text is provided"@,
        NewMessageBodyValidationError::LinkWithoutUrl => "link payload must include non-empty url"@,
        NewMessageBodyValidationError::InvalidAttachment { index, source } => "attachment at index "@
            + decimal(index as nat) + " is invalid: "@ + attachment_error_text(source),
    }
}

impl NewMessageBodyValidationError {
    /// Human-readable description of the failure.
    pub fn message(&self) -> (text: String)
        ensures
            text@ == body_error_text(*self),
    {
        match self {
            NewMessageBodyValidationError::EmptyBody => String::from_str(
                "message body must include text, attachments, or link",
            ),
            NewMessageBodyValidationError::EmptyText => String::from_str("message text must not be empty"),
            NewMessageBodyValidationError::TextTooLong { length } => {
                let mut s = String::from_str("message text must be at most 4000 characters, got ");
                push_decimal(&mut s, *length as u64);
                s
            },
            NewMessageBodyValidationError::FormatWithoutText => String::from_str(
                "message format can only be set when non-empty text is provided",
            ),
            NewMessageBodyValidationError::LinkWithoutUrl => String::from_str(
                "link payload must include non-empty url",
            ),
            NewMessageBodyValidationError::InvalidAttachment { index, source } => {
                let mut s = String::from_str("attachment at index ");
                push_decimal(&mut s, *index as u64);
                s.append(" is invalid: ");
                let inner = source.message();
                s.append(inner.as_str());
                s
            },
        }
    }
}

/// Outcome of body validation, by kind.
pub enum BodyCheck {
    /// The body can be sent.
    Valid,
    /// Text is blank.
    EmptyText,
    /// Text is longer than the limit, by its length.
    TextTooLong(nat),
    /// A format is set without text.
    FormatWithoutText,
    /// Link metadata lacks a URL.
    LinkWithoutUrl,
    /// The attachment at this index is the first that cannot be sent.
    InvalidAttachment(int),
    /// Nothing to send.
    EmptyBody,
}

/// Index of the first attachment that cannot be sent, from `from` on.
pub open spec fn first_invalid(atts: Seq<(AttachmentType, JsonModel)>, from: int) -> Option<int>
    decreases atts.len() - from,
{
    if from < 0 || from >= atts.len() {
        None
    } else if !outbound_ok(attachment_type_name(atts[from].0), atts[from].1) {
        Some(from)
    } else {
        first_invalid(atts, from + 1)
    }
}

/// Body validation: blank text, then text length, then a format without
/// text, then link without URL, then the first invalid attachment, then an
/// empty body.
pub open spec fn body_check(b: BodyModel) -> BodyCheck {
    let has_text = b.text is Some;
    if b.text is Some && blank(b.text->0) {
        BodyCheck::EmptyText
    } else if b.text is Some && b.text->0.len() > MAX_TEXT_LENGTH {
        BodyCheck::TextTooLong(b.text->0.len())
    } else if b.format is Some && !has_text {
        BodyCheck::FormatWithoutText
    } else if b.link is Some && non_empty(b.link->0.url) is None {
        BodyCheck::LinkWithoutUrl
    } else if first_invalid(b.attachments, 0) is Some {
        BodyCheck::InvalidAttachment(first_invalid(b.attachments, 0)->0)
    } else if !has_text && b.attachments.len() == 0 && b.link is None {
        BodyCheck::EmptyBody
    } else {
        BodyCheck::Valid
    }
}

/// What a validation result reports, against the expected outcome.
pub open spec fn body_result_matches(
    r: Result<(), NewMessageBodyValidationError>,
    b: BodyModel,
) -> bool {
    match r {
        Ok(()) => body_check(b) is Valid,
        Err(NewMessageBodyValidationError::EmptyText) => body_check(b) is EmptyText,
        Err(NewMessageBodyValidationError::TextTooLong { length }) => body_check(b) == BodyCheck::TextTooLong(
            length as nat,
        ),
        Err(NewMessageBodyValidationError::FormatWithoutText) => body_check(b) is FormatWithoutText,
        Err(NewMessageBodyValidationError::LinkWithoutUrl) => body_check(b) is LinkWithoutUrl,
        Err(NewMessageBodyValidationError::InvalidAttachment { index, source }) => body_check(b)
            == BodyCheck::InvalidAttachment(index as int) && attachment_error_matches(
            source,
            attachment_type_name(b.attachments[index as int].0),
        ),
        Err(NewMessageBodyValidationError::EmptyBody) => body_check(b) is EmptyBody,
    }
}

/// Outbound message request body for send/edit operations.
#[derive(Debug, Clone, PartialEq)]
pub struct NewMessageBody {
    text: Option<String>,
    attachments: Vec<Attachment>,
    link: Option<LinkMetadata>,
    notify: bool,
    format: Option<MessageTextFormat>,
}

/// The views of a sequence of attachments.
pub open spec fn attachment_views(atts: Seq<Attachment>) -> Seq<(AttachmentType, JsonModel)> {
    atts.map_values(|a: Attachment| a@)
}

/// The view of optional link metadata.
pub open spec fn opt_link(l: Option<LinkMetadata>) -> Option<LinkModel> {
    match l {
        Some(m) => Some(m@),
        None => None,
    }
}

impl View for NewMessageBody {
    type V = BodyModel;

    closed spec fn view(&self) -> BodyModel {
        BodyModel {
            text: opt_text(self.text),
            attachments: attachment_views(self.attachments@),
            link: opt_link(self.link),
            notify: self.notify,
            format: self.format,
        }
    }
}

/// Default notification flag for new messages.
pub fn default_notify() -> (b: bool)
    ensures
        b,
{
    true
}

/// Whether a notification flag equals the default and can be left out.
pub fn is_default_notify(value: &bool) -> (b: bool)
    ensures
        b == *value,
{
    *value
}

impl Default for NewMessageBody {
    fn default() -> (b: Self)
        ensures
            b@ == (BodyModel {
                text: None,
                attachments: Seq::empty(),
                link: None,
                notify: true,
                format: None,
            }),
    {
        let b = NewMessageBody {
            text: None,
            attachments: Vec::new(),
            link: None,
            notify: default_notify(),
            format: None,
        };
        assert(attachment_views(b.attachments@) =~= Seq::empty());
        b
    }
}

impl NewMessageBody {
    /// Creates an empty draft body with `notify=true`.
    pub fn new() -> (b: Self)
        ensures
            b@ == (BodyModel {
                text: None,
                attachments: Seq::empty(),
                link: None,
                notify: true,
                format: None,
            }),
    {
        Self::default()
    }

    /// Returns body text, unless it is blank.
    pub fn text(&self) -> (r: Option<&str>)
        ensures
            opt_slice(r) == non_empty(self@.text),
    {
        non_empty_str(&self.text)
    }

    /// Returns outbound attachments.
    pub fn attachments(&self) -> (r: &[Attachment])
        ensures
            attachment_views(r@) == self@.attachments,
    {
        self.attachments.as_slice()
    }

    /// Returns optional link metadata.
    pub fn link(&self) -> (r: Option<&LinkMetadata>)
        ensures
            match r {
                Some(l) => self@.link == Some(l@),
                None => self@.link is None,
            },
    {
        match &self.link {
            Some(l) => Some(l),
            None => None,
        }
    }

    /// Returns notification flag.
    pub fn notify(&self) -> (b: bool)
        ensures
            b == self@.notify,
    {
        self.notify
    }

    /// Returns text formatting mode.
    pub fn format(&self) -> (f: Option<MessageTextFormat>)
        ensures
            f == self@.format,
    {
        self.format
    }

    /// Sets text value.
    pub fn with_text(self, text: String) -> (b: Self)
        ensures
            b@ == (BodyModel { text: Some(text@), ..self@ }),
    {
        NewMessageBody { text: Some(text), ..self }
    }

    /// Appends one outbound attachment.
    pub fn with_attachment(self, attachment: Attachment) -> (b: Self)
        ensures
            b@ == (BodyModel { attachments: self@.attachments.push(attachment@), ..self@ }),
    {
        let mut s = self;
        let ghost before = s.attachments@;
        s.attachments.push(attachment);
        assert(attachment_views(s.attachments@) =~= attachment_views(before).push(attachment@));
        s
    }

    /// Replaces attachments list.
    pub fn with_attachments(self, attachments: Vec<Attachment>) -> (b: Self)
        ensures
            b@ == (BodyModel { attachments: attachment_views(attachments@), ..self@ }),
    {
        NewMessageBody { attachments, ..self }
    }

    /// Sets rich link metadata.
    pub fn with_link(self, link: LinkMetadata) -> (b: Self)
        ensures
            b@ == (BodyModel { link: Some(link@), ..self@ }),
    {
        NewMessageBody { link: Some(link), ..self }
    }

    /// Sets notification mode.
    pub fn with_notify(self, notify: bool) -> (b: Self)
        ensures
            b@ == (BodyModel { notify, ..self@ }),
    {
        NewMessageBody { notify, ..self }
    }

    /// Sets text format.
    pub fn with_format(self, format: MessageTextFormat) -> (b: Self)
        ensures
            b@ == (BodyModel { format: Some(format), ..self@ }),
    {
        NewMessageBody { format: Some(format), ..self }
    }

    /// Validates body fields against MAX request constraints.
    pub fn validate(&self) -> (r: Result<(), NewMessageBodyValidationError>)
        ensures
            body_result_matches(r, self@),
    {
        let has_text = match &self.text {
            Some(text) => {
                if is_blank(text.as_str()) {
                    return Err(NewMessageBodyValidationError::EmptyText);
                }
                let length = chars_of(text.as_str()).len();
                if length > MAX_TEXT_LENGTH {
                    return Err(NewMessageBodyValidationError::TextTooLong { length });
                }
                true
            },
            None => false,
        };
        if self.format.is_some() && !has_text {
            return Err(NewMessageBodyValidationError::FormatWithoutText);
        }
        match &self.link {
            Some(link) => {
                if link.url().is_none() {
                    return Err(NewMessageBodyValidationError::LinkWithoutUrl);
                }
            },
            None => {},
        }
        let ghost atts = attachment_views(self.attachments@);
        let mut index: usize = 0;
        while index < self.attachments.len()
            invariant
                index <= self.attachments.len(),
                atts == attachment_views(self.attachments@),
                first_invalid(atts, 0) == first_invalid(atts, index as int),
                has_text == self@.text is Some,
                self@.text is Some ==> !blank(self@.text->0) && self@.text->0.len() <= MAX_TEXT_LENGTH,
                !(self@.format is Some && !has_text),
                !(self@.link is Some && non_empty(self@.link->0.url) is None),
            decreases self.attachments.len() - index,
        {
            assert(atts[index as int] == self.attachments@[index as int]@);
            match self.attachments[index].validate_for_outbound() {
                Ok(()) => {},
                Err(source) => {
                    return Err(NewMessageBodyValidationError::InvalidAttachment { index, source });
                },
            }
            index = index + 1;
        }
        if !has_text && self.attachments.len() == 0 && self.link.is_none() {
            return Err(NewMessageBodyValidationError::EmptyBody);
        }
        Ok(())
    }

    /// Returns validated body or error.
    pub fn validated(self) -> (r: Result<Self, NewMessageBodyValidationError>)
        ensures
            match r {
                Ok(b) => b@ == self@ && body_check(self@) is Valid,
                Err(e) => body_result_matches(Err(e), self@),
            },
    {
        match self.validate() {
            Ok(()) => Ok(self),
            Err(e) => Err(e),
        }
    }
}

} // verus!
