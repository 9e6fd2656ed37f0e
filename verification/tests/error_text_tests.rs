use maxobot::adapter::{to_adapter_failure, BotronFailureClass};
use maxobot::api_error::{ApiError, TransportError};
use maxobot::client_config::{check_client_setup, ClientConfig, ClientConfigValidationError, ClientModeFlags};
use maxobot::credentials::BotCredentials;
use maxobot::endpoint::EndpointResolverError;
use maxobot::rate_limit_policy::RateLimitPolicyError;
use maxobot::retry_policy::{BackoffStrategyError, JitterError, RetryPolicyError};

#[test]
fn status_error_text_uses_reason_phrase_and_debug_options() {
    let error = ApiError::from_status(404, Some("not.found".to_owned()), None);
    assert_eq!(
        error.message(),
        "API request failed with status 404 Not Found (Some(\"not.found\")): None"
    );
}

#[test]
fn status_error_text_for_codes_without_phrase() {
    let unknown = ApiError::from_status(599, None, Some("x".to_owned()));
    assert_eq!(
        unknown.message(),
        "API request failed with status 599 <unknown status code> (None): Some(\"x\")"
    );
    let out_of_range = ApiError::from_status(42, None, None);
    assert_eq!(out_of_range.message(), "API request failed with status 42 (None): None");
}

#[test]
fn debug_text_escapes_quotes() {
    let error = ApiError::from_status(500, None, Some("say \"hi\"".to_owned()));
    assert_eq!(
        error.message(),
        "API request failed with status 500 Internal Server Error (None): Some(\"say \\\"hi\\\"\")"
    );
}

#[test]
fn plain_error_texts() {
    assert_eq!(
        ApiError::InvalidHeader { header: "authorization".to_owned(), reason: "bad".to_owned() }.message(),
        "invalid header `authorization`: bad"
    );
    assert_eq!(
        ApiError::QueryAuthenticationForbidden.message(),
        "query-based authentication is forbidden; use Authorization header"
    );
    assert_eq!(
        ApiError::UrlJoinError { base: "https://a/".to_owned(), path: "x y".to_owned() }.message(),
        "failed to resolve URL for path `x y` against `https://a/`"
    );
    assert_eq!(
        ApiError::Transport(TransportError {
            message: "connection refused".to_owned(),
            is_connect: true,
            is_timeout: false,
        })
        .message(),
        "transport error: connection refused"
    );
    assert_eq!(
        ApiError::ResponseDecode { source: "EOF".to_owned(), body_preview: "{".to_owned() }.message(),
        "failed to decode response body: EOF; body preview: {"
    );
    assert_eq!(ApiError::InvalidResponseShape("no body".to_owned()).message(), "invalid response shape: no body");
    assert_eq!(ApiError::InvalidUpdatePayload("no type".to_owned()).message(), "invalid update payload: no type");
    assert_eq!(
        ApiError::FixtureSchema { path: "f.json".to_owned(), reason: "missing".to_owned() }.message(),
        "fixture schema error for `f.json`: missing"
    );
}

#[test]
fn redacted_message_masks_secret_values() {
    let error = ApiError::InvalidConfiguration("bad secret=abc&next=1".to_owned());
    assert_eq!(error.message(), "invalid configuration: bad secret=abc&next=1");
    assert_eq!(error.redacted_message(), "invalid configuration: bad secret=***&next=1");
}

#[test]
fn adapter_failure_carries_class_and_redacted_text() {
    let error = ApiError::from_status(401, None, Some("access_token=xyz".to_owned()));
    let failure = to_adapter_failure(&error);
    assert_eq!(failure.class, BotronFailureClass::ChannelAuthFailed);
    assert_eq!(
        failure.message,
        "API request failed with status 401 Unauthorized (None): Some(\"access_token=***"
    );
}

#[test]
fn policy_error_texts() {
    assert_eq!(
        RateLimitPolicyError::InitialTokensExceedCapacity { initial_tokens: 40, capacity: 30 }.message(),
        "initial tokens (40) cannot exceed capacity (30)"
    );
    assert_eq!(
        RateLimitPolicyError::ZeroAcquireTimeout.message(),
        "token acquire timeout must be greater than zero"
    );
    assert_eq!(
        BackoffStrategyError::MaxDelayLessThanInitial { initial_delay: 200_000_000, max_delay: 100_000_000 }.message(),
        "exponential max delay (100ms) must be >= initial delay (200ms)"
    );
    assert_eq!(
        BackoffStrategyError::MaxDelayLessThanInitial { initial_delay: 2_000_000_000, max_delay: 1_500_000_000 }
            .message(),
        "exponential max delay (1.5s) must be >= initial delay (2s)"
    );
    assert_eq!(
        BackoffStrategyError::MaxDelayLessThanInitial { initial_delay: 1_000_000, max_delay: 500_000 }.message(),
        "exponential max delay (500\u{b5}s) must be >= initial delay (1ms)"
    );
    assert_eq!(
        RetryPolicyError::InvalidJitter(JitterError::ZeroMaxJitter).message(),
        "invalid jitter strategy: full jitter max value must be greater than zero"
    );
    assert_eq!(
        RetryPolicyError::InvalidBackoff(BackoffStrategyError::ZeroMultiplier).message(),
        "invalid backoff strategy: exponential multiplier must be greater than zero"
    );
}

#[test]
fn config_error_texts() {
    assert_eq!(
        ClientConfigValidationError::InvalidRetryPolicy(RetryPolicyError::ZeroMaxAttempts).message(),
        "invalid retry policy: max attempts must be greater than zero"
    );
    assert_eq!(
        ClientConfigValidationError::InvalidApiBaseUrl(EndpointResolverError::MissingHost).message(),
        "invalid API base URL: API base URL must include a host"
    );
    assert_eq!(
        ClientConfigValidationError::InvalidRateLimitPolicy(RateLimitPolicyError::ZeroCapacity).message(),
        "invalid rate-limit policy: token bucket capacity must be greater than zero"
    );
}

#[test]
fn client_setup_reports_config_failure_first() {
    let credentials = BotCredentials::new("token-123").ok().expect("valid token");
    assert!(check_client_setup(&ClientConfig::default(), &credentials).is_ok());

    let mut config = ClientConfig::default();
    config.request_timeout = 0;
    let error = check_client_setup(&config, &credentials).err().expect("invalid config");
    assert_eq!(
        error,
        ApiError::InvalidConfiguration("request timeout must be greater than zero".to_owned())
    );

    let mut config = ClientConfig::default();
    config.mode = ClientModeFlags { webhook_enabled: false, polling_enabled: false };
    let error = check_client_setup(&config, &credentials).err().expect("no modes");
    assert_eq!(
        error,
        ApiError::InvalidConfiguration("at least one mode must be enabled: webhook or polling".to_owned())
    );
}
