use maxobot::adapter::{ExternalIdentifiers, KeyComposer};
use maxobot::api_error::{redact_sensitive, ApiError, RetryClass as ErrorRetryClass};
use maxobot::api_paths::{
    chat, chat_actions, chat_members, chat_members_admin, chat_members_admins, chat_members_me,
    chat_pin, message, video, CHAT_ACTIONS_TEMPLATE, CHAT_BY_ID_TEMPLATE,
    CHAT_MEMBERS_ADMINS_TEMPLATE, CHAT_MEMBERS_ADMIN_BY_ID_TEMPLATE, CHAT_MEMBERS_ME_TEMPLATE,
    CHAT_MEMBERS_TEMPLATE, CHAT_PIN_TEMPLATE, MESSAGES, MESSAGE_BY_ID_TEMPLATE,
    VIDEO_BY_TOKEN_TEMPLATE,
};
use maxobot::authorization::ensure_no_query_auth;
use maxobot::credentials::{BotCredentials, CredentialsValidationError};
use maxobot::inline_keyboard::{InlineKeyboardBuilder, InlineKeyboardError, MAX_BUTTONS_PER_ROW};
use maxobot::rate_limit_policy::{
    RateLimitPolicy, RateLimitPolicyError, TokenBucketPolicy, DEFAULT_RATE_LIMIT_RPS,
};
use maxobot::redaction::{redact_text, RedactionConfig};
use maxobot::retry_executor::RetryExecutor;
use maxobot::retry_policy::{
    BackoffStrategy, Jitter, JitterError, RetryClass, RetryClassFilter, RetryPolicy,
    RetryPolicyError,
};

#[test]
fn composes_stable_inbound_and_outbound_keys() {
    let inbound = KeyComposer::inbound_key(
        "flow-1",
        &ExternalIdentifiers {
            chat_id: Some("10".to_owned()),
            user_id: Some("20".to_owned()),
            message_id: Some("30".to_owned()),
            callback_id: None,
            update_type: Some("message_created".to_owned()),
        },
    );
    let outbound = KeyComposer::outbound_key("flow-1", "send_message", "30");

    assert_eq!(inbound, "max:flow-1:message_created:10:30:-");
    assert_eq!(outbound, "max:flow-1:send_message:30");
}

#[test]
fn rejects_query_auth() {
    let query = vec![
        ("chat_id".to_owned(), "1".to_owned()),
        ("access_token".to_owned(), "secret".to_owned()),
    ];

    let result = ensure_no_query_auth(&query);
    assert!(result.is_err());
}

#[test]
fn token_must_not_be_empty() {
    let error = BotCredentials::new("   ")
        .err()
        .expect("token should be validated");
    assert_eq!(error, CredentialsValidationError::EmptyToken);
}

#[test]
fn webhook_secret_must_match_pattern() {
    let error = BotCredentials::from_parts("token", Some("bad!secret".to_owned()))
        .err()
        .expect("secret should be validated");

    assert!(matches!(
        error,
        CredentialsValidationError::InvalidWebhookSecretCharacter { .. }
    ));
}

#[test]
fn debug_and_display_redact_sensitive_data() {
    let credentials = BotCredentials::from_parts("secret-token", Some("safe_secret".to_owned()))
        .ok()
        .expect("credentials should be valid");

    let debug = credentials.debug_string();
    let display = credentials.display_string();

    assert!(!debug.contains("secret-token"));
    assert!(!debug.contains("safe_secret"));
    assert!(!display.contains("secret-token"));
    assert!(!display.contains("safe_secret"));
    assert!(debug.contains("***REDACTED***"));
    assert!(display.contains("***REDACTED***"));
}

#[test]
fn builds_keyboard_with_callback_and_url() {
    let mut builder = InlineKeyboardBuilder::new();
    builder
        .callback_button("A", "payload")
        .expect("callback should be valid");
    builder
        .url_button("B", "https://example.test")
        .expect("url should be valid");

    let keyboard = builder.build();
    assert_eq!(keyboard.rows.len(), 1);
    assert_eq!(keyboard.rows[0].buttons.len(), 2);
}

#[test]
fn enforces_row_button_limit() {
    let mut builder = InlineKeyboardBuilder::new();
    for idx in 0..MAX_BUTTONS_PER_ROW {
        builder
            .callback_button(&format!("B{idx}"), &format!("p{idx}"))
            .expect("button should fit in row");
    }

    let error = builder
        .callback_button("overflow", "payload")
        .expect_err("row limit should be enforced");
    assert_eq!(error, InlineKeyboardError::TooManyButtonsInRow);
}

#[test]
fn chat_paths_compose_as_expected() {
    assert_eq!(chat(42), "/chats/42");
    assert_eq!(chat_actions(42), "/chats/42/actions");
    assert_eq!(chat_pin(42), "/chats/42/pin");
    assert_eq!(chat_members_me(42), "/chats/42/members/me");
    assert_eq!(chat_members_admins(42), "/chats/42/members/admins");
    assert_eq!(chat_members_admin(42, 10), "/chats/42/members/admins/10");
    assert_eq!(chat_members(42), "/chats/42/members");
}

#[test]
fn dynamic_message_and_video_paths_validate_segments() {
    assert_eq!(
        message("msg_1").expect("valid message id"),
        "/messages/msg_1"
    );
    assert_eq!(video("v_1").expect("valid video token"), "/videos/v_1");

    assert!(message(" ").is_err());
    assert!(message("bad/id").is_err());
    assert!(video("bad/id").is_err());
}

#[test]
fn templates_match_composition_contract() {
    assert_eq!(CHAT_BY_ID_TEMPLATE, "/chats/{chatId}");
    assert_eq!(CHAT_ACTIONS_TEMPLATE, "/chats/{chatId}/actions");
    assert_eq!(CHAT_PIN_TEMPLATE, "/chats/{chatId}/pin");
    assert_eq!(CHAT_MEMBERS_ME_TEMPLATE, "/chats/{chatId}/members/me");
    assert_eq!(
        CHAT_MEMBERS_ADMINS_TEMPLATE,
        "/chats/{chatId}/members/admins"
    );
    assert_eq!(
        CHAT_MEMBERS_ADMIN_BY_ID_TEMPLATE,
        "/chats/{chatId}/members/admins/{userId}"
    );
    assert_eq!(CHAT_MEMBERS_TEMPLATE, "/chats/{chatId}/members");
    assert_eq!(MESSAGE_BY_ID_TEMPLATE, "/messages/{messageId}");
    assert_eq!(VIDEO_BY_TOKEN_TEMPLATE, "/videos/{videoToken}");

    assert!(MESSAGES.starts_with('/'));
}

#[test]
fn redact_text_masks_auth_markers() {
    let config = RedactionConfig::default();
    let input = "Authorization: token123 access_token=abc";
    let redacted = redact_text(input, &config);
    assert!(redacted.contains("Authorization:"));
    assert!(!redacted.contains("token123"));
    assert!(redacted.contains("access_token=***"));
}

#[test]
fn classifies_429_as_rate_limited() {
    let error = ApiError::from_status(429, None, None);
    assert_eq!(error.retry_class(), ErrorRetryClass::RateLimited);
}

#[test]
fn redacts_token_markers() {
    let text = "failed request access_token=abc123";
    let redacted = redact_sensitive(text);
    assert!(redacted.contains("access_token=***"));
}

#[test]
fn default_policy_is_aligned_with_max_guidance() {
    let policy = RateLimitPolicy::default();

    assert!(policy.enabled);
    assert_eq!(policy.requests_per_second(), DEFAULT_RATE_LIMIT_RPS);
    assert_eq!(policy.token_bucket.capacity, DEFAULT_RATE_LIMIT_RPS);
    assert_eq!(policy.token_bucket.initial_tokens, DEFAULT_RATE_LIMIT_RPS);
    assert!(policy.validate().is_ok());
}

#[test]
fn token_bucket_validation_rejects_zero_capacity() {
    let bucket = TokenBucketPolicy::new(0, 30, 0);

    assert_eq!(bucket.validate(), Err(RateLimitPolicyError::ZeroCapacity));
}

#[test]
fn token_bucket_validation_rejects_zero_refill() {
    let bucket = TokenBucketPolicy::new(30, 0, 0);

    assert_eq!(
        bucket.validate(),
        Err(RateLimitPolicyError::ZeroRefillPerSecond)
    );
}

#[test]
fn token_bucket_validation_rejects_initial_tokens_above_capacity() {
    let bucket = TokenBucketPolicy::new(30, 30, 31);

    assert_eq!(
        bucket.validate(),
        Err(RateLimitPolicyError::InitialTokensExceedCapacity {
            initial_tokens: 31,
            capacity: 30,
        })
    );
}

#[test]
fn policy_validation_rejects_zero_acquire_timeout() {
    let mut policy = RateLimitPolicy::default();
    policy.acquire_timeout = 0;

    assert_eq!(
        policy.validate(),
        Err(RateLimitPolicyError::ZeroAcquireTimeout)
    );
}

#[test]
fn classifies_attachment_not_ready() {
    let policy = RetryPolicy {
        retry_classes: RetryClassFilter::new(vec![RetryClass::AttachmentNotReady]),
        ..RetryPolicy::default()
    };
    let executor = RetryExecutor::new(policy).expect("policy should validate");

    let delay = executor.compute_retry_delay(1, RetryClass::AttachmentNotReady);
    assert!(delay >= 250_000_000);
}

#[test]
fn default_policy_is_valid_and_transient_focused() {
    let policy = RetryPolicy::default();

    assert_eq!(policy.max_attempts, 5);
    assert!(policy.retry_classes.allows(RetryClass::RateLimited));
    assert!(policy.retry_classes.allows(RetryClass::Transport));
    assert!(policy.retry_classes.allows(RetryClass::AttachmentNotReady));
    assert!(policy.validate().is_ok());
}

#[test]
fn should_retry_checks_attempt_budget_and_class_filter() {
    let policy = RetryPolicy::default();

    assert!(policy.should_retry(RetryClass::Backoff, 1));
    assert!(!policy.should_retry(RetryClass::NotRetryable, 1));
    assert!(!policy.should_retry(RetryClass::Backoff, policy.max_attempts));
}

#[test]
fn exponential_delay_grows_and_is_capped() {
    let strategy = BackoffStrategy::Exponential {
        initial_delay: 100_000_000,
        multiplier: 2,
        max_delay: 350_000_000,
    };

    assert_eq!(strategy.delay_for_retry(1), 100_000_000);
    assert_eq!(strategy.delay_for_retry(2), 200_000_000);
    assert_eq!(strategy.delay_for_retry(3), 350_000_000);
    assert_eq!(strategy.delay_for_retry(10), 350_000_000);
}

#[test]
fn validation_rejects_empty_retry_class_filter() {
    let policy = RetryPolicy {
        retry_classes: RetryClassFilter::new(vec![]),
        ..RetryPolicy::default()
    };

    assert_eq!(
        policy.validate(),
        Err(RetryPolicyError::EmptyRetryClassFilter)
    );
}

#[test]
fn validation_rejects_zero_max_attempts() {
    let policy = RetryPolicy {
        max_attempts: 0,
        ..RetryPolicy::default()
    };

    assert_eq!(policy.validate(), Err(RetryPolicyError::ZeroMaxAttempts));
}

#[test]
fn validation_rejects_invalid_backoff_strategy() {
    let policy = RetryPolicy {
        backoff: BackoffStrategy::Fixed { delay: 0 },
        ..RetryPolicy::default()
    };

    assert!(matches!(
        policy.validate(),
        Err(RetryPolicyError::InvalidBackoff(_))
    ));
}

#[test]
fn jitter_validation_rejects_zero_full_jitter() {
    let jitter = Jitter::Full { max_jitter: 0 };

    assert_eq!(jitter.validate(), Err(JitterError::ZeroMaxJitter));
}

#[test]
fn keyboard_builder_calls_chain() {
    let mut builder = InlineKeyboardBuilder::new();
    builder
        .callback_button("A", "a")
        .expect("first row")
        .begin_row()
        .expect("second row")
        .url_button("B", "https://example.test")
        .expect("url button");
    let keyboard = builder.build();
    assert_eq!(keyboard.rows.len(), 2);
    assert_eq!(keyboard.rows[1].buttons.len(), 1);
}
