use maxobot::duration::MAX_DURATION;
use maxobot::attachment::{Attachment, KnownAttachmentType, LinkMetadata};
use maxobot::json::{JsonEntry, JsonValue};
use maxobot::message::{MessageBody, MessagePayloadKind};
use maxobot::request_builder::normalize_path;
use maxobot::request_context::sanitize_value;
use maxobot::retry_executor::apply_jitter;
use maxobot::retry_policy::{BackoffStrategy, Jitter, RetryClass, RetryPolicy};
use maxobot::new_message_body::NewMessageBody;
use maxobot::redaction::{redact_json, RedactionConfig};

#[test]
fn exponential_delays_never_shrink_and_stay_capped() {
    let strategy = BackoffStrategy::Exponential {
        initial_delay: 250_000_000,
        multiplier: 3,
        max_delay: 5_000_000_000,
    };
    let mut previous = 0;
    for n in 0..40 {
        let d = strategy.delay_for_retry(n);
        assert!(d >= previous);
        assert!(d <= 5_000_000_000);
        previous = d;
    }
    assert_eq!(strategy.delay_for_retry(3), 2_250_000_000);
    let huge = BackoffStrategy::Exponential { initial_delay: MAX_DURATION, multiplier: 2, max_delay: MAX_DURATION };
    assert_eq!(huge.delay_for_retry(5), MAX_DURATION);
}

#[test]
fn jitter_adds_at_most_its_maximum() {
    for attempt in 0..50 {
        let d = apply_jitter(1_000_000_000, &Jitter::Full { max_jitter: 40_000_000 }, attempt);
        assert!((1_000_000_000..=1_040_000_000).contains(&d));
        assert_eq!(d % 1_000_000, 0);
    }
    assert_eq!(apply_jitter(1_000, &Jitter::Full { max_jitter: 40_000_000 }, 1), 1_000 + 7_000_000);
    assert_eq!(apply_jitter(1_000_000_000, &Jitter::Disabled, 3), 1_000_000_000);
    assert_eq!(apply_jitter(7, &Jitter::Full { max_jitter: 999_999 }, 3), 7);
    assert_eq!(apply_jitter(MAX_DURATION, &Jitter::Full { max_jitter: 40_000_000 }, 1), MAX_DURATION);
}

#[test]
fn retry_budget_is_respected() {
    let policy = RetryPolicy::default();
    for attempts in policy.max_attempts..policy.max_attempts + 3 {
        assert!(!policy.should_retry(RetryClass::Backoff, attempts));
    }
    assert!(policy.should_retry(RetryClass::Backoff, policy.max_attempts - 1));
}

#[test]
fn media_token_and_link_attachments_validate() {
    for kind in [
        KnownAttachmentType::Image,
        KnownAttachmentType::Video,
        KnownAttachmentType::Audio,
        KnownAttachmentType::File,
    ] {
        assert!(Attachment::media_token(kind, "tok".to_owned()).validate_for_outbound().is_ok());
        assert!(Attachment::media_token(kind, "  ".to_owned()).validate_for_outbound().is_err());
    }
    let link = LinkMetadata::from_parts(Some("https://a.example".to_owned()), None, None, Some("p".to_owned()));
    assert!(Attachment::link(link.clone()).validate_for_outbound().is_ok());
    assert_eq!(LinkMetadata::from_json(&link.to_json()), Some(link));
}

#[test]
fn sanitized_values_are_clean_and_short() {
    let s = sanitize_value("a\nb\rc\td and more text", 5);
    assert_eq!(s, "a b c");
    assert!(!s.contains('\n') && !s.contains('\r') && !s.contains('\t'));
}

#[test]
fn redaction_keeps_keys_in_order() {
    let value = JsonValue::Object(vec![
        JsonEntry { key: "b_secret".to_owned(), value: JsonValue::Bool(true) },
        JsonEntry { key: "a".to_owned(), value: JsonValue::String("x".to_owned()) },
    ]);
    let redacted = redact_json(&value, &RedactionConfig::default());
    match redacted {
        JsonValue::Object(entries) => {
            assert_eq!(entries[0].key, "b_secret");
            assert_eq!(entries[0].value, JsonValue::String("***".to_owned()));
            assert_eq!(entries[1].key, "a");
        }
        other => panic!("expected an object, got {other:?}"),
    }
}

#[test]
fn valid_bodies_have_content() {
    assert!(NewMessageBody::new().validate().is_err());
    assert!(NewMessageBody::new().with_link(LinkMetadata::from_parts(Some("u".to_owned()), None, None, None)).validate().is_ok());
}

#[test]
fn leading_slashes_do_not_matter() {
    assert_eq!(normalize_path("/me"), normalize_path("me"));
    assert_eq!(normalize_path(&normalize_path("///x")), normalize_path("///x"));
}

#[test]
fn rich_needs_two_components() {
    let body = MessageBody::from_parts(None, vec![], Some(LinkMetadata::default()), None, None, vec![]);
    assert_eq!(body.payload_kind(), MessagePayloadKind::Link);
    let body = MessageBody::from_parts(Some("t".to_owned()), vec![], Some(LinkMetadata::default()), None, None, vec![]);
    assert_eq!(body.payload_kind(), MessagePayloadKind::Rich);
}
