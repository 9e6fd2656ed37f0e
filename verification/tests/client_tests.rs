use maxobot::api_error::ApiError;
use maxobot::authorization::{authorization_header_value, header_value};
use maxobot::client_config::{ClientConfig, ClientConfigValidationError, ClientModeFlags};
use maxobot::endpoint::{
    parse_and_validate_api_base_url, EndpointResolver, EndpointResolverError, ParsedUrl,
    DEFAULT_API_BASE_URL, DEFAULT_API_HOST,
};
use maxobot::json::{JsonEntry, JsonValue};
use maxobot::operations::{
    call_builder,
    delete_message_call, get_updates_call, message_by_id_call, patch_chat_call,
    send_message_call, upload_ticket_call,
};
use maxobot::rate_limit_policy::{acquire_step, AcquireStep, RateLimitPolicy};
use maxobot::redaction::{redact_json, RedactionConfig};
use maxobot::request_builder::{authorized_request, normalize_path, HttpMethod, RequestBuilder};
use maxobot::request_context::RequestContext;
use maxobot::requests::{
    AddMembersRequest, CallbackAnswerRequest, CreateSubscriptionRequest, GetUpdatesRequest,
    PinMessageRequest, SendActionRequest, SendMessageRequest, UploadType,
};
use maxobot::responses::{body_preview, check_response, parse_error_payload};
use maxobot::retry_policy::{RetryClassFilter, RetryPolicy};
use maxobot::new_message_body::NewMessageBody;

fn text(s: &str) -> JsonValue {
    JsonValue::String(s.to_owned())
}

fn obj(items: Vec<(&str, JsonValue)>) -> JsonValue {
    JsonValue::Object(
        items
            .into_iter()
            .map(|(k, v)| JsonEntry { key: k.to_owned(), value: v })
            .collect(),
    )
}

fn member<'a>(v: &'a JsonValue, key: &str) -> &'a JsonValue {
    v.get(key).expect("member should exist")
}

#[test]
fn default_resolver_uses_canonical_host() {
    let resolver = EndpointResolver::default();

    assert_eq!(resolver.base_url().as_str(), "https://platform-api.max.ru/");
    assert_eq!(resolver.base_url().host_str(), Some(DEFAULT_API_HOST));
    assert!(resolver.base_url().as_str().starts_with(DEFAULT_API_BASE_URL));
}

#[test]
fn override_accepts_https_url() {
    let resolver =
        EndpointResolver::with_override("https://sandbox.example.test/v1").expect("valid URL");

    assert_eq!(
        resolver.base_url().as_str(),
        "https://sandbox.example.test/v1/"
    );
}

#[test]
fn override_rejects_non_https_url() {
    let result = EndpointResolver::with_override("http://platform-api.max.ru");

    assert!(matches!(
        result,
        Err(EndpointResolverError::NonHttpsScheme { .. })
    ));
}

#[test]
fn override_rejects_missing_host() {
    let result = EndpointResolver::with_override("file:///tmp/maxobot");

    assert!(matches!(result, Err(EndpointResolverError::MissingHost)));
}

#[test]
fn resolve_joins_path_for_both_path_forms() {
    let resolver =
        EndpointResolver::with_override("https://platform-api.max.ru/v1").expect("valid URL");

    let relative = resolver.resolve("me").expect("path should resolve");
    let absolute = resolver.resolve("/me").expect("path should resolve");

    assert_eq!(relative.as_str(), "https://platform-api.max.ru/v1/me");
    assert_eq!(absolute.as_str(), "https://platform-api.max.ru/v1/me");
    assert_eq!(relative.path(), "/v1/me");
}

#[test]
fn parse_and_validate_rejects_invalid_url_input() {
    let result = parse_and_validate_api_base_url("not-a-url");

    assert!(matches!(
        result,
        Err(EndpointResolverError::InvalidBaseUrl { .. })
    ));
}

#[test]
fn base_url_errors_describe_themselves() {
    let error = parse_and_validate_api_base_url("http://example.com").unwrap_err();
    assert_eq!(error.message(), "API base URL must use https, got 'http'");
    let error = parse_and_validate_api_base_url("not-a-url").unwrap_err();
    assert_eq!(error.message(), "API base URL 'not-a-url' is invalid");
}

#[test]
fn default_config_is_valid() {
    let config = ClientConfig::default();

    assert!(config.validate().is_ok());
    assert_eq!(config.api_base_url.as_str(), "https://platform-api.max.ru/");
    assert!(config.mode.webhook_enabled);
    assert!(!config.mode.polling_enabled);
}

#[test]
fn validation_rejects_non_https_base_url() {
    let mut config = ClientConfig::default();
    config.api_base_url = ParsedUrl::parse("http://platform-api.max.ru").expect("valid URL");

    assert!(matches!(
        config.validate(),
        Err(ClientConfigValidationError::InvalidApiBaseUrl(_))
    ));
}

#[test]
fn validation_rejects_zero_timeout() {
    let mut config = ClientConfig::default();
    config.request_timeout = 0;

    assert!(matches!(
        config.validate(),
        Err(ClientConfigValidationError::ZeroRequestTimeout)
    ));
}

#[test]
fn validation_rejects_empty_user_agent() {
    let mut config = ClientConfig::default();
    config.user_agent = "   ".to_owned();

    assert!(matches!(
        config.validate(),
        Err(ClientConfigValidationError::EmptyUserAgent)
    ));
}

#[test]
fn validation_rejects_when_all_modes_disabled() {
    let mut config = ClientConfig::default();
    config.mode = ClientModeFlags {
        webhook_enabled: false,
        polling_enabled: false,
    };

    assert!(matches!(
        config.validate(),
        Err(ClientConfigValidationError::NoEnabledModes)
    ));
}

#[test]
fn validation_rejects_invalid_nested_retry_policy() {
    let mut config = ClientConfig::default();
    config.retry_policy = RetryPolicy {
        retry_classes: RetryClassFilter::new(vec![]),
        ..RetryPolicy::default()
    };

    assert!(matches!(
        config.validate(),
        Err(ClientConfigValidationError::InvalidRetryPolicy(_))
    ));
}

#[test]
fn validation_rejects_invalid_nested_rate_limit_policy() {
    let mut config = ClientConfig::default();
    let mut rate_limit_policy = RateLimitPolicy::default();
    rate_limit_policy.acquire_timeout = 0;
    config.rate_limit_policy = rate_limit_policy;

    assert!(matches!(
        config.validate(),
        Err(ClientConfigValidationError::InvalidRateLimitPolicy(_))
    ));
}

#[test]
fn mode_flags_constructors() {
    assert_eq!(
        ClientModeFlags::hybrid(),
        ClientModeFlags { webhook_enabled: true, polling_enabled: true }
    );
    assert_eq!(
        ClientModeFlags::polling_only(),
        ClientModeFlags { webhook_enabled: false, polling_enabled: true }
    );
    assert_eq!(ClientModeFlags::default(), ClientModeFlags::webhook_only());
    assert_eq!(ClientConfig::default_user_agent(), "maxobot-core/0.1.0");
}

#[test]
fn builds_request_with_query_and_body() {
    let base = ParsedUrl::parse("https://platform-api.max.ru/").expect("valid URL");
    let request = RequestBuilder::new(base, HttpMethod::Post, "/messages".to_owned())
        .with_query_param("chat_id".to_owned(), "1".to_owned())
        .with_header("authorization", "token")
        .expect("header")
        .with_body(obj(vec![("text", text("hello"))]))
        .build()
        .expect("request");

    assert_eq!(request.url, "https://platform-api.max.ru/messages");
    assert_eq!(request.query.len(), 1);
    assert_eq!(request.body_json, Some(obj(vec![("text", text("hello"))])));
}

#[test]
fn build_refuses_query_auth_and_bad_idempotency_keys() {
    let base = ParsedUrl::parse("https://platform-api.max.ru/").expect("valid URL");
    let result = RequestBuilder::new(base.clone(), HttpMethod::Get, "me".to_owned())
        .with_query_param("access_token".to_owned(), "x".to_owned())
        .build();
    assert!(matches!(result, Err(ApiError::QueryAuthenticationForbidden)));

    let result = RequestBuilder::new(base.clone(), HttpMethod::Get, "me".to_owned())
        .with_idempotency_key("bad\nkey".to_owned())
        .build();
    assert_eq!(
        result.unwrap_err(),
        ApiError::InvalidHeader {
            header: "Idempotency-Key".to_owned(),
            reason: "failed to parse header value".to_owned()
        }
    );

    let request = RequestBuilder::new(base, HttpMethod::Get, "me".to_owned())
        .with_idempotency_key("key-1".to_owned())
        .build()
        .expect("request");
    assert_eq!(request.headers.len(), 1);
    assert_eq!(request.headers[0].0, "idempotency-key");
    assert_eq!(request.headers[0].1, "key-1");
}

#[test]
fn headers_replace_earlier_values_and_reject_control_characters() {
    let base = ParsedUrl::parse("https://platform-api.max.ru/").expect("valid URL");
    let request = RequestBuilder::new(base.clone(), HttpMethod::Get, "me".to_owned())
        .with_header("user-agent", "a")
        .expect("header")
        .with_header("user-agent", "b")
        .expect("header")
        .build()
        .expect("request");
    assert_eq!(request.headers.len(), 1);
    assert_eq!(request.headers[0].1, "b");

    let error = RequestBuilder::new(base, HttpMethod::Get, "me".to_owned())
        .with_header("user-agent", "bad\u{7f}")
        .unwrap_err();
    assert!(matches!(error, ApiError::InvalidHeader { .. }));
}

#[test]
fn normalize_path_strips_leading_slashes() {
    assert_eq!(normalize_path("/messages"), "messages");
    assert_eq!(normalize_path("//a/b"), "a/b");
    assert_eq!(normalize_path("me"), "me");
}

#[test]
fn authorization_value_requires_a_valid_token() {
    assert_eq!(authorization_header_value("token-value").unwrap(), "token-value");
    assert_eq!(
        authorization_header_value("  ").unwrap_err(),
        ApiError::InvalidConfiguration("token cannot be empty".to_owned())
    );
    assert_eq!(
        authorization_header_value("bad\rtoken").unwrap_err(),
        ApiError::InvalidHeader {
            header: "authorization".to_owned(),
            reason: "failed to parse header value".to_owned()
        }
    );
    assert!(header_value("x-test", "tab\tis fine, ünïcode too").is_ok());
}

#[test]
fn parses_code_and_message_from_error_payload() {
    let payload: &[u8] = br#"{"code":"rate.limited","message":"Too many"}"#;
    let (code, message) = parse_error_payload(payload);

    assert_eq!(code.as_deref(), Some("rate.limited"));
    assert_eq!(message.as_deref(), Some("Too many"));
}

#[test]
fn error_payload_message_is_redacted_and_non_objects_give_nothing() {
    let (code, message) = parse_error_payload(br#"{"message":"bad access_token=abc"}"#);
    assert_eq!(code, None);
    assert_eq!(message.as_deref(), Some("bad access_token=***"));
    assert_eq!(parse_error_payload(br#""x""#), (None, None));
    assert_eq!(parse_error_payload(b"not json"), (None, None));
    assert_eq!(parse_error_payload(br#"{"code":7,"message":null}"#), (None, None));
}

#[test]
fn body_preview_keeps_256_characters_and_redacts() {
    let long = "x".repeat(300);
    assert_eq!(body_preview(&long).chars().count(), 256);
    assert_eq!(body_preview("token=abc rest"), "token=*** rest");
}

#[test]
fn redact_json_masks_sensitive_keys_and_truncates_strings() {
    let config = RedactionConfig {
        mask: "<redacted>".to_owned(),
        max_string_len: 5,
    };
    let payload = obj(vec![
        ("token", text("abcdef")),
        (
            "nested",
            obj(vec![("webhook_secret", text("abcdef")), ("note", text("1234567890"))]),
        ),
        (
            "array",
            JsonValue::Array(vec![obj(vec![("authorization", text("abc"))]), text("long-value-123")]),
        ),
    ]);
    let redacted = redact_json(&payload, &config);

    assert_eq!(member(&redacted, "token"), &text("<redacted>"));
    assert_eq!(member(member(&redacted, "nested"), "webhook_secret"), &text("<redacted>"));
    assert_eq!(member(member(&redacted, "nested"), "note"), &text("12345…"));
    match member(&redacted, "array") {
        JsonValue::Array(items) => {
            assert_eq!(member(&items[0], "authorization"), &text("<redacted>"));
            assert_eq!(items[1], text("long-…"));
        }
        other => panic!("expected an array, got {other:?}"),
    }
}

#[test]
fn sanitizes_tag_values() {
    let mut context = RequestContext::new("operation");
    context.insert_tag("line\nbreak", "value\twith\tnoise");

    assert_eq!(context.tag("line break").as_deref(), Some("value with noise"));
    assert_eq!(context.tag_count(), 1);
    let next = context.next_attempt();
    assert_eq!(next.attempt, 2);
}

#[test]
fn request_validation_messages() {
    assert!(SendActionRequest::new("  ".to_owned()).is_err());
    assert_eq!(SendActionRequest::new("typing_on".to_owned()).unwrap().action, "typing_on");
    assert_eq!(
        PinMessageRequest::new("".to_owned()).unwrap_err(),
        ApiError::InvalidConfiguration("message_id must not be empty".to_owned())
    );
    assert_eq!(
        AddMembersRequest::new(vec![]).unwrap_err(),
        ApiError::InvalidConfiguration("user_ids must not be empty".to_owned())
    );
    let sub = CreateSubscriptionRequest::new(" ".to_owned());
    assert_eq!(
        sub.validate().unwrap_err(),
        ApiError::InvalidConfiguration("subscription url must not be empty".to_owned())
    );
    let bad_secret = CreateSubscriptionRequest::new("https://hook".to_owned())
        .with_secret("bad!secret".to_owned())
        .unwrap_err();
    assert!(matches!(bad_secret, ApiError::InvalidConfiguration(_)));
    let ok = CreateSubscriptionRequest::new("https://hook".to_owned())
        .with_update_types(vec!["message_created".to_owned()])
        .with_secret("good_secret".to_owned())
        .expect("secret should be valid");
    assert!(ok.validate().is_ok());
    assert_eq!(
        CallbackAnswerRequest::new().validate().unwrap_err(),
        ApiError::InvalidConfiguration(
            "callback answer must include message or notification".to_owned()
        )
    );
    assert_eq!(
        CallbackAnswerRequest::new()
            .with_notification(" ".to_owned())
            .validate()
            .unwrap_err(),
        ApiError::InvalidConfiguration("notification must not be empty when set".to_owned())
    );
    assert!(CallbackAnswerRequest::new()
        .with_notification("done".to_owned())
        .validate()
        .is_ok());
}

#[test]
fn updates_request_ranges() {
    let mut request = GetUpdatesRequest::new();
    assert!(request.validate().is_ok());
    request.limit = Some(0);
    assert_eq!(
        request.validate().unwrap_err(),
        ApiError::InvalidConfiguration("updates limit must be in range 1..=1000".to_owned())
    );
    request.limit = Some(1000);
    request.timeout = Some(91);
    assert_eq!(
        request.validate().unwrap_err(),
        ApiError::InvalidConfiguration("updates timeout must be in range 0..=90".to_owned())
    );
    request.timeout = Some(90);
    request.marker = Some(-5);
    request.types = vec!["a".to_owned(), "b".to_owned()];
    let call = get_updates_call(&request).expect("valid request");
    assert_eq!(call.method, HttpMethod::Get);
    assert_eq!(call.path, "/updates");
    assert_eq!(
        call.query,
        vec![
            ("limit".to_owned(), "1000".to_owned()),
            ("timeout".to_owned(), "90".to_owned()),
            ("marker".to_owned(), "-5".to_owned()),
            ("types".to_owned(), "a,b".to_owned()),
        ]
    );
}

#[test]
fn send_message_requires_exactly_one_recipient() {
    let body = NewMessageBody::new().with_text("hi".to_owned());
    let mut request = SendMessageRequest::to_chat(7, body.clone());
    request.user_id = Some(8);
    assert_eq!(
        send_message_call(&request).unwrap_err(),
        ApiError::InvalidConfiguration(
            "exactly one recipient must be set: chat_id xor user_id".to_owned()
        )
    );
    let request = SendMessageRequest::to_user(8, body).with_disable_link_preview(true);
    let call = send_message_call(&request).expect("valid request");
    assert_eq!(call.method, HttpMethod::Post);
    assert_eq!(call.path, "/messages");
    assert_eq!(
        call.query,
        vec![
            ("user_id".to_owned(), "8".to_owned()),
            ("disable_link_preview".to_owned(), "true".to_owned()),
        ]
    );
    let empty = SendMessageRequest::to_chat(1, NewMessageBody::new());
    assert_eq!(
        send_message_call(&empty).unwrap_err(),
        ApiError::InvalidConfiguration(
            "message body must include text, attachments, or link".to_owned()
        )
    );
}

#[test]
fn other_calls() {
    assert_eq!(delete_message_call(" ").unwrap_err(), ApiError::InvalidConfiguration("message_id must not be empty".to_owned()));
    let call = delete_message_call("m1").unwrap();
    assert_eq!(call.query, vec![("message_id".to_owned(), "m1".to_owned())]);
    let call = upload_ticket_call(UploadType::Video);
    assert_eq!(call.path, "/uploads");
    assert_eq!(call.query, vec![("type".to_owned(), "video".to_owned())]);
    assert_eq!(
        message_by_id_call("a/b").unwrap_err(),
        ApiError::InvalidConfiguration("message_id path segment must not contain '/'".to_owned())
    );
    assert_eq!(message_by_id_call("m1").unwrap().path, "/messages/m1");
    assert_eq!(
        patch_chat_call(3, &text("x")).unwrap_err(),
        ApiError::InvalidConfiguration("chat patch payload must be a JSON object".to_owned())
    );
    let call = patch_chat_call(3, &obj(vec![])).unwrap();
    assert_eq!(call.method, HttpMethod::Patch);
    assert_eq!(call.path, "/chats/3");
}

#[test]
fn acquire_steps() {
    const MS: u128 = 1_000_000;
    assert_eq!(acquire_step(true, 999 * MS, 10 * MS, 33 * MS), AcquireStep::Acquired);
    assert_eq!(acquire_step(false, 0, 250 * MS, 33 * MS), AcquireStep::Wait(33 * MS));
    assert_eq!(acquire_step(false, 240 * MS, 250 * MS, 33 * MS), AcquireStep::Wait(10 * MS));
    assert_eq!(acquire_step(false, 0, 250 * MS, 0), AcquireStep::Wait(MS));
    assert_eq!(acquire_step(false, 249_500_000, 250 * MS, 33 * MS), AcquireStep::Wait(MS));
    assert_eq!(acquire_step(false, 0, 250 * MS, 33_333_333), AcquireStep::Wait(33_333_333));
    assert_eq!(
        acquire_step(false, 251 * MS, 250_400_000, 33 * MS),
        AcquireStep::TimedOut(ApiError::HttpStatus {
            status: 429,
            code: Some("local.rate_limit.timeout".to_owned()),
            message: Some("local rate limiter failed to acquire token in 250 ms".to_owned()),
        })
    );
}

#[test]
fn responses_are_checked_by_status() {
    assert!(check_response(204, b"").is_ok());
    let body: &[u8] = br#"{"code":"not.found","message":"secret=abc gone"}"#;
    assert_eq!(
        check_response(404, body).unwrap_err(),
        ApiError::HttpStatus {
            status: 404,
            code: Some("not.found".to_owned()),
            message: Some("secret=*** gone".to_owned()),
        }
    );
    assert_eq!(
        check_response(500, b"<html>").unwrap_err(),
        ApiError::HttpStatus { status: 500, code: None, message: None }
    );
}

#[test]
fn resolver_from_parsed_url_normalizes() {
    let parsed = ParsedUrl::parse("https://h.example/api?x=1#f").expect("valid URL");
    let resolver = EndpointResolver::from_url(parsed).expect("https with host");
    assert_eq!(resolver.base_url().as_str(), "https://h.example/api/");
    let insecure = ParsedUrl::parse("http://h.example/").expect("valid URL");
    assert!(matches!(
        EndpointResolver::from_url(insecure),
        Err(EndpointResolverError::NonHttpsScheme { .. })
    ));
    let default = EndpointResolver::from_optional_override(None).unwrap();
    assert_eq!(default.base_url().as_str(), "https://platform-api.max.ru/");
}

#[test]
fn authorized_requests_carry_token_and_user_agent() {
    let base = ParsedUrl::parse("https://platform-api.max.ru/").expect("valid URL");
    let request = authorized_request(base.clone(), HttpMethod::Get, "/me".to_owned(), "tok", "agent/1")
        .expect("valid headers")
        .build()
        .expect("request");
    assert_eq!(request.url, "https://platform-api.max.ru/me");
    assert_eq!(request.headers.len(), 2);
    assert_eq!(request.headers[0].0, "authorization");
    assert_eq!(request.headers[0].1, "tok");
    assert_eq!(request.headers[1].0, "user-agent");
    assert_eq!(
        authorized_request(base, HttpMethod::Get, "/me".to_owned(), " ", "agent").unwrap_err(),
        ApiError::InvalidConfiguration("token cannot be empty".to_owned())
    );
}

#[test]
fn planned_calls_carry_query_and_body() {
    let base = ParsedUrl::parse("https://platform-api.max.ru/").expect("valid URL");
    let call = send_message_call(&SendMessageRequest::to_chat(42, NewMessageBody::new().with_text("hi".to_owned())))
        .expect("valid request");
    let body = obj(vec![("text", text("hi"))]);
    let request = call_builder(base.clone(), "tok", "agent/1", call, Some(body.clone()))
        .expect("valid headers")
        .build()
        .expect("request");
    assert_eq!(request.method, HttpMethod::Post);
    assert_eq!(request.url, "https://platform-api.max.ru/messages");
    assert_eq!(request.query, vec![("chat_id".to_owned(), "42".to_owned())]);
    assert_eq!(request.body_json, Some(body));
    assert_eq!(request.headers.len(), 2);

    let call = send_message_call(&SendMessageRequest::to_chat(42, NewMessageBody::new().with_text("hi".to_owned())))
        .expect("valid request");
    assert_eq!(
        call_builder(base, "", "agent/1", call, None).err().expect("blank token"),
        ApiError::InvalidConfiguration("token cannot be empty".to_owned())
    );
}

#[test]
fn normalization_clears_query_and_fragment_of_slash_paths() {
    let parsed = ParsedUrl::parse("https://h.example/api/?x=1#f").expect("valid URL");
    let resolver = EndpointResolver::from_url(parsed).expect("https with host");
    assert_eq!(resolver.base_url().as_str(), "https://h.example/api/");
    let parsed = ParsedUrl::parse("https://h.example/a//?q=2").expect("valid URL");
    let resolver = EndpointResolver::from_url(parsed).expect("https with host");
    assert_eq!(resolver.base_url().as_str(), "https://h.example/a//");
    assert_eq!(resolver.base_url().path(), "/a//");
}

#[test]
fn header_names_are_lowercased_and_checked() {
    let base = ParsedUrl::parse("https://platform-api.max.ru/").expect("valid URL");
    let request = RequestBuilder::new(base.clone(), HttpMethod::Get, "me".to_owned())
        .with_header("user-agent", "a")
        .expect("header")
        .with_header("User-Agent", "b")
        .expect("header")
        .with_header("X-Trace", "t")
        .expect("header")
        .build()
        .expect("request");
    assert_eq!(
        request.headers,
        vec![("user-agent".to_owned(), "b".to_owned()), ("x-trace".to_owned(), "t".to_owned())]
    );
    assert_eq!(
        RequestBuilder::new(base.clone(), HttpMethod::Get, "me".to_owned())
            .with_header("bad name", "v")
            .unwrap_err(),
        ApiError::InvalidHeader {
            header: "bad name".to_owned(),
            reason: "invalid HTTP header name".to_owned(),
        }
    );
    assert_eq!(
        RequestBuilder::new(base, HttpMethod::Get, "me".to_owned())
            .with_header("X-Bad", "v\r")
            .unwrap_err(),
        ApiError::InvalidHeader {
            header: "x-bad".to_owned(),
            reason: "failed to parse header value".to_owned(),
        }
    );
}

#[test]
fn retry_run_starting_at_the_last_attempt_makes_one_call() {
    let policy = RetryPolicy {
        max_attempts: 3,
        backoff: maxobot::retry_policy::BackoffStrategy::Fixed { delay: 1_000_000 },
        jitter: maxobot::retry_policy::Jitter::Disabled,
        retry_classes: RetryClassFilter::new(vec![maxobot::retry_policy::RetryClass::Backoff]),
    };
    let executor = maxobot::retry_executor::RetryExecutor::new(policy).ok().expect("valid policy");
    let failure = ApiError::from_status(503, None, None);
    assert!(matches!(
        executor.on_failure(3, &failure),
        maxobot::retry_executor::RetryStep::GiveUp { .. }
    ));
}
