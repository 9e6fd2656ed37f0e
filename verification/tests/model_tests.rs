use maxobot::attachment::{
    Attachment, AttachmentPayload, AttachmentType, AttachmentValidationError, KnownAttachmentType,
    LinkMetadata,
};
use maxobot::json::{JsonEntry, JsonNumber, JsonValue};
use maxobot::message::{Message, MessageBody, MessagePayloadKind, MessageRecipient, MessageTextFormat};
use maxobot::message_builder::MessageBuilder;
use maxobot::models::{ActionResult, Chat, UploadTicket, User};
use maxobot::new_message_body::{
    is_default_notify, MessageTextFormat as BodyFormat, NewMessageBody,
    NewMessageBodyValidationError, MAX_TEXT_LENGTH,
};

fn text(s: &str) -> JsonValue {
    JsonValue::String(s.to_owned())
}

fn num(n: i64) -> JsonValue {
    if n >= 0 {
        JsonValue::Number(JsonNumber::PosInt(n as u64))
    } else {
        JsonValue::Number(JsonNumber::NegInt(n))
    }
}

fn entries(items: Vec<(&str, JsonValue)>) -> Vec<JsonEntry> {
    items
        .into_iter()
        .map(|(k, v)| JsonEntry { key: k.to_owned(), value: v })
        .collect()
}

fn obj(items: Vec<(&str, JsonValue)>) -> JsonValue {
    JsonValue::Object(entries(items))
}

fn attachment(kind: &str, payload: JsonValue) -> Attachment {
    Attachment::new(AttachmentType::from_name(kind.to_owned()), payload)
}

fn entry_value<'a>(list: &'a [JsonEntry], key: &str) -> Option<&'a JsonValue> {
    list.iter().find(|e| e.key == key).map(|e| &e.value)
}

#[test]
fn parses_media_attachment_payload() {
    let attachment = attachment(
        "image",
        obj(vec![("token", text("upload-token")), ("mime_type", text("image/png"))]),
    );

    match attachment.payload() {
        AttachmentPayload::Media(payload) => {
            assert_eq!(payload.token(), Some("upload-token"));
            assert_eq!(payload.mime_type(), Some("image/png"));
        }
        other => panic!("unexpected payload variant: {other:?}"),
    }
}

#[test]
fn parses_link_payload_metadata() {
    let attachment = attachment(
        "link",
        obj(vec![("url", text("https://example.com")), ("title", text("Example"))]),
    );

    match attachment.payload() {
        AttachmentPayload::Link(link) => {
            assert_eq!(link.url(), Some("https://example.com"));
            assert_eq!(link.title(), Some("Example"));
        }
        other => panic!("unexpected payload variant: {other:?}"),
    }
}

#[test]
fn outbound_validation_rejects_invalid_payloads() {
    let attachment = attachment("image", obj(vec![]));

    let error = attachment
        .validate_for_outbound()
        .expect_err("payload token must be required");

    assert!(matches!(
        error,
        AttachmentValidationError::MissingMediaToken { .. }
    ));
}

#[test]
fn outbound_validation_accepts_media_token_and_link_url() {
    let media = Attachment::media_token(KnownAttachmentType::File, "file-token".to_owned());
    media
        .validate_for_outbound()
        .expect("media token attachment should validate");

    let link = Attachment::link(
        LinkMetadata::from_json(&obj(vec![
            ("url", text("https://example.com")),
            ("title", text("Example")),
        ]))
        .expect("link metadata should decode"),
    );
    link.validate_for_outbound()
        .expect("link attachment should validate");
}

#[test]
fn unsupported_attachment_type_is_reported_by_name() {
    let attachment = attachment("sticker", obj(vec![("token", text("t"))]));
    assert_eq!(
        attachment.validate_for_outbound(),
        Err(AttachmentValidationError::UnsupportedAttachmentType {
            attachment_type: "sticker".to_owned()
        })
    );
    assert_eq!(
        attachment.validate_for_outbound().unwrap_err().message(),
        "unsupported attachment type 'sticker'"
    );
}

#[test]
fn link_without_url_is_missing_link_url() {
    let attachment = attachment("link", obj(vec![("title", text("x"))]));
    assert_eq!(
        attachment.validate_for_outbound(),
        Err(AttachmentValidationError::MissingLinkUrl)
    );
}

#[test]
fn media_payload_with_wrong_field_type_stays_raw() {
    let attachment = attachment("video", obj(vec![("token", num(5))]));
    assert!(matches!(attachment.payload(), AttachmentPayload::Unknown(_)));
    let width_too_large = attachment_with_width(4_294_967_296);
    assert!(matches!(width_too_large.payload(), AttachmentPayload::Unknown(_)));
    let width_ok = attachment_with_width(640);
    assert!(matches!(width_ok.payload(), AttachmentPayload::Media(_)));
}

fn attachment_with_width(width: u64) -> Attachment {
    attachment(
        "image",
        obj(vec![
            ("token", text("t")),
            ("width", JsonValue::Number(JsonNumber::PosInt(width))),
        ]),
    )
}

#[test]
fn media_payload_keeps_unmodelled_fields() {
    let attachment = attachment(
        "file",
        obj(vec![("token", text("t")), ("custom", num(7)), ("size", num(10))]),
    );
    match attachment.payload() {
        AttachmentPayload::Media(payload) => {
            assert_eq!(payload.extra().len(), 1);
            assert_eq!(payload.extra()[0].key, "custom");
        }
        other => panic!("unexpected payload variant: {other:?}"),
    }
}

#[test]
fn link_metadata_encodes_fields_and_decodes_back() {
    let link = LinkMetadata::from_parts(
        Some("https://example.com".to_owned()),
        Some("Example".to_owned()),
        None,
        None,
    );
    let encoded = link.to_json();
    match &encoded {
        JsonValue::Object(list) => {
            assert_eq!(entry_value(list, "url"), Some(&text("https://example.com")));
            assert_eq!(entry_value(list, "description"), Some(&JsonValue::Null));
        }
        other => panic!("expected an object, got {other:?}"),
    }
    let decoded = LinkMetadata::from_json(&encoded).expect("should decode");
    assert_eq!(decoded, link);
}

#[test]
fn known_attachment_names() {
    assert_eq!(KnownAttachmentType::Audio.as_str(), "audio");
    assert_eq!(AttachmentType::from_name("video".to_owned()).as_str(), "video");
    assert_eq!(
        AttachmentType::from_name("custom".to_owned()),
        AttachmentType::Custom("custom".to_owned())
    );
}

#[test]
fn empty_body_is_rejected() {
    let body = NewMessageBody::new();
    assert_eq!(
        body.validate().expect_err("body should be invalid"),
        NewMessageBodyValidationError::EmptyBody
    );
}

#[test]
fn format_requires_non_empty_text() {
    let body = NewMessageBody::new().with_format(BodyFormat::Markdown);
    assert_eq!(
        body.validate()
            .expect_err("format without text should fail"),
        NewMessageBodyValidationError::FormatWithoutText
    );
}

#[test]
fn text_length_limit_is_enforced() {
    let long_text: String = "a".repeat(MAX_TEXT_LENGTH + 1);
    let body = NewMessageBody::new().with_text(long_text);

    assert!(matches!(
        body.validate().expect_err("long text should fail"),
        NewMessageBodyValidationError::TextTooLong { .. }
    ));
}

#[test]
fn text_length_error_reports_length_and_limit() {
    let body = NewMessageBody::new().with_text("b".repeat(4001));
    let error = body.validate().unwrap_err();
    assert_eq!(error, NewMessageBodyValidationError::TextTooLong { length: 4001 });
    assert_eq!(
        error.message(),
        "message text must be at most 4000 characters, got 4001"
    );
    let at_limit = NewMessageBody::new().with_text("b".repeat(4000));
    assert!(at_limit.validate().is_ok());
}

#[test]
fn blank_text_is_rejected() {
    let body = NewMessageBody::new().with_text("  \t ".to_owned());
    assert_eq!(body.validate(), Err(NewMessageBodyValidationError::EmptyText));
}

#[test]
fn attachment_payload_is_validated() {
    let invalid_attachment = attachment("image", obj(vec![]));
    let body = NewMessageBody::new().with_attachment(invalid_attachment);

    assert!(matches!(
        body.validate().expect_err("attachment should fail"),
        NewMessageBodyValidationError::InvalidAttachment { .. }
    ));
}

#[test]
fn invalid_attachment_error_names_index_and_cause() {
    let body = NewMessageBody::new()
        .with_text("hi".to_owned())
        .with_attachment(Attachment::media_token(KnownAttachmentType::Image, "t".to_owned()))
        .with_attachment(attachment("audio", obj(vec![])));
    let error = body.validate().unwrap_err();
    assert_eq!(
        error,
        NewMessageBodyValidationError::InvalidAttachment {
            index: 1,
            source: AttachmentValidationError::MissingMediaToken {
                attachment_type: "audio".to_owned()
            }
        }
    );
    assert_eq!(
        error.message(),
        "attachment at index 1 is invalid: attachment type 'audio' must include non-empty payload token"
    );
}

#[test]
fn valid_text_and_attachment_body_passes() {
    let body = NewMessageBody::new()
        .with_text("hello".to_owned())
        .with_format(BodyFormat::Markdown)
        .with_attachment(Attachment::media_token(KnownAttachmentType::Image, "token".to_owned()));

    body.validate().expect("body should validate");
}

#[test]
fn link_requires_non_empty_url() {
    let bad_link = LinkMetadata::from_json(&obj(vec![("title", text("x"))]))
        .expect("should parse metadata");

    let body = NewMessageBody::new().with_link(bad_link);
    assert_eq!(
        body.validate().expect_err("link should fail"),
        NewMessageBodyValidationError::LinkWithoutUrl
    );
}

#[test]
fn notify_defaults_to_true() {
    let body = NewMessageBody::new().with_text("hello".to_owned());
    assert!(body.notify());
    assert!(is_default_notify(&body.notify()));
}

#[test]
fn builds_markdown_body() {
    let body = MessageBuilder::new()
        .markdown("hello".to_owned())
        .build()
        .expect("message should validate");
    assert_eq!(body.text(), Some("hello"));
    assert_eq!(body.format(), Some(BodyFormat::Markdown));
}

#[test]
fn builds_attachment_body() {
    let body = MessageBuilder::new()
        .attachment(Attachment::media_token(KnownAttachmentType::Image, "t1".to_owned()))
        .build()
        .expect("message should validate");
    assert_eq!(body.attachments().len(), 1);
}

#[test]
fn parses_message_with_text_payload() {
    let body = MessageBody::from_parts(
        Some("hello".to_owned()),
        vec![],
        None,
        Some(true),
        Some(MessageTextFormat::Markdown),
        vec![],
    );
    let message = Message::from_parts(Some("m1".to_owned()), None, None, Some(100), Some(body), vec![]);

    assert_eq!(message.id(), Some("m1"));
    assert_eq!(message.timestamp(), Some(100));
    assert_eq!(message.payload_kind(), MessagePayloadKind::Text);
}

#[test]
fn payload_kind_detects_rich_payload() {
    let body = MessageBody::from_parts(
        Some("hello".to_owned()),
        vec![attachment("image", obj(vec![("token", text("t1"))]))],
        None,
        None,
        None,
        vec![],
    );
    let message = Message::from_parts(Some("m2".to_owned()), None, None, None, Some(body), vec![]);

    assert_eq!(message.payload_kind(), MessagePayloadKind::Rich);
}

#[test]
fn captures_forward_compatible_fields() {
    let body = MessageBody::from_parts(
        Some("ok".to_owned()),
        vec![],
        None,
        None,
        None,
        entries(vec![("custom", num(1))]),
    );
    let message = Message::from_parts(
        Some("m1".to_owned()),
        None,
        None,
        None,
        Some(body),
        entries(vec![("delivery_state", text("sent"))]),
    );

    assert_eq!(entry_value(message.extra(), "delivery_state"), Some(&text("sent")));
    assert_eq!(
        message.body().and_then(|b| entry_value(b.extra(), "custom")),
        Some(&num(1))
    );
}

#[test]
fn message_without_body_is_empty() {
    let message = Message::from_parts(None, None, None, None, None, vec![]);
    assert_eq!(message.payload_kind(), MessagePayloadKind::Empty);
    assert_eq!(message.id(), None);
    let recipient = MessageRecipient::from_parts(Some(5), None);
    assert!(recipient.is_chat());
    assert!(!recipient.is_direct_user());
}

#[test]
fn user_parses_optional_fields() {
    let user = User::from_parts(Some(42), None, None, true, vec![]);

    assert_eq!(user.id(), Some(42));
    assert!(user.name().is_none());
    assert!(user.username().is_none());
    assert!(user.is_bot());
}

#[test]
fn display_name_prefers_name_then_username() {
    let user_with_name = User::from_parts(
        Some(1),
        Some("Alice".to_owned()),
        Some("alice".to_owned()),
        false,
        vec![],
    );
    assert_eq!(user_with_name.display_name(), Some("Alice"));

    let user_with_username =
        User::from_parts(Some(1), Some("  ".to_owned()), Some("alice".to_owned()), false, vec![]);
    assert_eq!(user_with_username.display_name(), Some("alice"));
}

#[test]
fn user_captures_extra_fields_for_forward_compatibility() {
    let user = User::from_parts(Some(1), None, None, false, entries(vec![("locale", text("en"))]));

    assert_eq!(entry_value(user.extra(), "locale"), Some(&text("en")));
}

#[test]
fn chat_parses_optional_fields() {
    let chat = Chat::from_parts(Some(7), Some("group".to_owned()), None, None, vec![]);

    assert_eq!(chat.id(), Some(7));
    assert_eq!(chat.chat_type(), Some("group"));
    assert!(chat.title().is_none());
    assert!(chat.is_group());
    assert!(!chat.is_private());
}

#[test]
fn chat_type_comparison_ignores_ascii_case() {
    let chat = Chat::from_parts(Some(7), Some("PRIVATE".to_owned()), None, None, vec![]);
    assert!(chat.is_private());
    assert!(!chat.is_group());
}

#[test]
fn display_title_prefers_title_then_username() {
    let titled = Chat::from_parts(
        Some(7),
        None,
        Some("Core Team".to_owned()),
        Some("core".to_owned()),
        vec![],
    );
    assert_eq!(titled.display_title(), Some("Core Team"));

    let with_username =
        Chat::from_parts(Some(7), None, Some(" ".to_owned()), Some("core".to_owned()), vec![]);
    assert_eq!(with_username.display_title(), Some("core"));
}

#[test]
fn chat_captures_extra_fields_for_forward_compatibility() {
    let chat = Chat::from_parts(Some(7), None, None, None, entries(vec![("members_count", num(12))]));

    assert_eq!(entry_value(chat.extra(), "members_count"), Some(&num(12)));
}

#[test]
fn parses_url_and_token() {
    let ticket = UploadTicket::from_parts(
        Some("https://upload.example".to_owned()),
        Some("t".to_owned()),
        vec![],
    );

    assert_eq!(ticket.url(), Some("https://upload.example"));
    assert_eq!(ticket.token(), Some("t"));
    assert!(ticket.has_token());
}

#[test]
fn success_constructor_sets_success_flag() {
    let result = ActionResult::success();
    assert!(result.is_success());
    assert!(result.message().is_none());
    let failure = ActionResult::failure(Some("nope".to_owned()));
    assert!(!failure.is_success());
    assert_eq!(failure.message(), Some("nope"));
}
