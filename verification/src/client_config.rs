//! Client runtime configuration and its validation.

use vstd::prelude::*;
use vstd::string::StringExecFns;
use crate::endpoint::{
    EndpointResolverError, ParsedUrl, endpoint_error_text, default_base_url, default_base_view, url_view,
    validate_api_base_url,
};
use crate::rate_limit_policy::{RateLimitPolicy, RateLimitPolicyError, rate_limit_error_text};
use crate::retry_policy::{RetryPolicy, RetryPolicyError, retry_policy_error_text};
use crate::api_error::ApiError;
use crate::credentials::{BotCredentials, credentials_error_text};
use crate::text::{blank, is_blank};

verus! {

/// Default request timeout: 30 seconds, in nanoseconds.
pub const DEFAULT_REQUEST_TIMEOUT: u128 = 30_000_000_000;

/// Version reported in the default user agent.
pub const CLIENT_VERSION: &'static str = "0.1.0";

/// Update delivery modes enabled for a client.
#[derive(Debug, Clone, Copy, PartialEq, Eq, Structural)]
pub struct ClientModeFlags {
    /// Webhook delivery is enabled.
    pub webhook_enabled: bool,
    /// Long polling is enabled.
    pub polling_enabled: bool,
}

impl ClientModeFlags {
    /// Webhook delivery only.
    pub fn webhook_only() -> (m: Self)
        ensures
            m.webhook_enabled,
            !m.polling_enabled,
    {
        ClientModeFlags { webhook_enabled: true, polling_enabled: false }
    }

    /// Long polling only.
    pub fn polling_only() -> (m: Self)
        ensures
            !m.webhook_enabled,
            m.polling_enabled,
    {
        ClientModeFlags { webhook_enabled: false, polling_enabled: true }
    }

    /// Both webhook delivery and long polling.
    pub fn hybrid() -> (m: Self)
        ensures
            m.webhook_enabled,
            m.polling_enabled,
    {
        ClientModeFlags { webhook_enabled: true, polling_enabled: true }
    }
}

impl Default for ClientModeFlags {
    fn default() -> (m: Self)
        ensures
            m.webhook_enabled,
            !m.polling_enabled,
    {
        ClientModeFlags::webhook_only()
    }
}

/// Errors of client configuration validation.
#[derive(Debug, Clone, PartialEq, Eq)]
pub enum ClientConfigValidationError {
    /// The base URL is invalid.
    InvalidApiBaseUrl(EndpointResolverError),
    /// The request timeout is zero.
    ZeroRequestTimeout,
    /// The user agent is blank.
    EmptyUserAgent,
    /// Neither webhook nor polling is enabled.
    NoEnabledModes,
    /// The retry policy is invalid.
    InvalidRetryPolicy(RetryPolicyError),
    /// The rate-limit policy is invalid.
    InvalidRateLimitPolicy(RateLimitPolicyError),
}

/// Human-readable text of a client configuration error.
pub open spec fn config_error_text(error: ClientConfigValidationError) -> Seq<char> {
    match error {
        ClientConfigValidationError::InvalidApiBaseUrl(inner) => "invalid API base URL: "@
            + endpoint_error_text(inner),
        ClientConfigValidationError::ZeroRequestTimeout => "request timeout must be greater than zero"@,
        ClientConfigValidationError::EmptyUserAgent => "user agent must not be empty"@,
        ClientConfigValidationError::NoEnabledModes => "at least one mode must be enabled: webhook or polling"@,
        ClientConfigValidationError::InvalidRetryPolicy(inner) => "invalid retry policy: "@
            + retry_policy_error_text(inner),
        ClientConfigValidationError::InvalidRateLimitPolicy(inner) => "invalid rate-limit policy: "@
            + rate_limit_error_text(inner),
    }
}

impl ClientConfigValidationError {
    /// Human-readable description of the failure.
    pub fn message(&self) -> (text: String)
        ensures
            text@ == config_error_text(*self),
    {
        match self {
            ClientConfigValidationError::InvalidApiBaseUrl(inner) => {
                let mut s = String::from_str("invalid API base URL: ");
                let inner_text = inner.message();
                s.append(inner_text.as_str());
                s
            },
            ClientConfigValidationError::ZeroRequestTimeout => String::from_str(
                "request timeout must be greater than zero",
            ),
            ClientConfigValidationError::EmptyUserAgent => String::from_str(
                "user agent must not be empty",
            ),
            ClientConfigValidationError::NoEnabledModes => String::from_str(
                "at least one mode must be enabled: webhook or polling",
            ),
            ClientConfigValidationError::InvalidRetryPolicy(inner) => {
                let mut s = String::from_str("invalid retry policy: ");
                let inner_text = inner.message();
                s.append(inner_text.as_str());
                s
            },
            ClientConfigValidationError::InvalidRateLimitPolicy(inner) => {
                let mut s = String::from_str("invalid rate-limit policy: ");
                let inner_text = inner.message();
                s.append(inner_text.as_str());
                s
            },
        }
    }
}

/// Client runtime configuration.
#[derive(Debug, Clone, PartialEq, Eq)]
pub struct ClientConfig {
    /// API base URL.
    pub api_base_url: ParsedUrl,
    /// Request timeout, in nanoseconds.
    pub request_timeout: u128,
    /// Retry policy.
    pub retry_policy: RetryPolicy,
    /// Rate-limit policy.
    pub rate_limit_policy: RateLimitPolicy,
    /// User agent header value.
    pub user_agent: String,
    /// Enabled update delivery modes.
    pub mode: ClientModeFlags,
}

/// Kind of a configuration validation outcome.
pub enum ConfigCheck {
    /// The configuration is valid.
    Valid,
    /// The base URL has no host.
    MissingHost,
    /// The base URL does not use `https`.
    NonHttpsScheme,
    /// The timeout is zero.
    ZeroRequestTimeout,
    /// The user agent is blank.
    EmptyUserAgent,
    /// No mode is enabled.
    NoEnabledModes,
    /// The retry policy is invalid with this error.
    InvalidRetryPolicy(RetryPolicyError),
    /// The rate-limit policy is invalid with this error.
    InvalidRateLimitPolicy(RateLimitPolicyError),
}

/// Configuration validation, check by check in order: base URL host, then
/// scheme, timeout, user agent, modes, retry policy, rate-limit policy.
pub open spec fn config_check(c: ClientConfig) -> ConfigCheck {
    if url_view(c.api_base_url).2 is None {
        ConfigCheck::MissingHost
    } else if url_view(c.api_base_url).1 != "https"@ {
        ConfigCheck::NonHttpsScheme
    } else if c.request_timeout == 0 {
        ConfigCheck::ZeroRequestTimeout
    } else if blank(c.user_agent@) {
        ConfigCheck::EmptyUserAgent
    } else if !c.mode.webhook_enabled && !c.mode.polling_enabled {
        ConfigCheck::NoEnabledModes
    } else if c.retry_policy.validation() is Err {
        ConfigCheck::InvalidRetryPolicy(c.retry_policy.validation()->Err_0)
    } else if c.rate_limit_policy.validation() is Err {
        ConfigCheck::InvalidRateLimitPolicy(c.rate_limit_policy.validation()->Err_0)
    } else {
        ConfigCheck::Valid
    }
}

/// `error` is the failure that validation reports for `c`: the one that
/// [`config_check`] names, with the offending scheme where there is one.
pub open spec fn config_error_matches(c: ClientConfig, error: ClientConfigValidationError) -> bool {
    match error {
        ClientConfigValidationError::InvalidApiBaseUrl(EndpointResolverError::MissingHost) =>
            config_check(c) is MissingHost,
        ClientConfigValidationError::InvalidApiBaseUrl(
            EndpointResolverError::NonHttpsScheme { scheme },
        ) => config_check(c) is NonHttpsScheme && scheme@ == url_view(c.api_base_url).1,
        ClientConfigValidationError::InvalidApiBaseUrl(_) => false,
        ClientConfigValidationError::ZeroRequestTimeout => config_check(c) is ZeroRequestTimeout,
        ClientConfigValidationError::EmptyUserAgent => config_check(c) is EmptyUserAgent,
        ClientConfigValidationError::NoEnabledModes => config_check(c) is NoEnabledModes,
        ClientConfigValidationError::InvalidRetryPolicy(e) => config_check(c)
            == ConfigCheck::InvalidRetryPolicy(e),
        ClientConfigValidationError::InvalidRateLimitPolicy(e) => config_check(c)
            == ConfigCheck::InvalidRateLimitPolicy(e),
    }
}

/// The default user agent: `maxobot-core/` and the client version.
pub open spec fn default_user_agent_text() -> Seq<char> {
    "maxobot-core/"@ + "0.1.0"@
}

impl ClientConfig {
    /// Returns the default user agent.
    pub fn default_user_agent() -> (s: String)
        ensures
            s@ == default_user_agent_text(),
    {
        let mut s = String::from_str("maxobot-core/");
        s.append(CLIENT_VERSION);
        s
    }

    /// Creates the default configuration, which is valid.
    pub fn new() -> (c: Self)
        ensures
            config_check(c) is Valid,
            url_view(c.api_base_url) == default_base_view(),
            c.request_timeout == DEFAULT_REQUEST_TIMEOUT,
            c.user_agent@ == default_user_agent_text(),
            c.mode == ClientModeFlags::webhook_only_spec(),
    {
        let c = ClientConfig {
            api_base_url: default_base_url(),
            request_timeout: DEFAULT_REQUEST_TIMEOUT,
            retry_policy: RetryPolicy::default(),
            rate_limit_policy: RateLimitPolicy::default(),
            user_agent: ClientConfig::default_user_agent(),
            mode: ClientModeFlags::default(),
        };
        proof {
            reveal_strlit("maxobot-core/");
            reveal_strlit("https");
            reveal_strlit("platform-api.max.ru");
            assert(c.user_agent@[0] == 'm');
            assert(!blank(c.user_agent@));
            let set5 = set![
                crate::retry_policy::RetryClass::Immediate,
                crate::retry_policy::RetryClass::Backoff,
                crate::retry_policy::RetryClass::RateLimited,
                crate::retry_policy::RetryClass::Transport,
                crate::retry_policy::RetryClass::AttachmentNotReady,
            ];
            assert(set5.contains(crate::retry_policy::RetryClass::Backoff));
            assert(c.retry_policy.retry_classes@ != Set::<crate::retry_policy::RetryClass>::empty());
        }
        c
    }

    /// Validates the configuration.
    pub fn validate(&self) -> (r: Result<(), ClientConfigValidationError>)
        ensures
            match r {
                Ok(()) => config_check(*self) is Valid,
                Err(e) => config_error_matches(*self, e),
            },
    {
        match validate_api_base_url(&self.api_base_url) {
            Ok(()) => {},
            Err(e) => {
                return Err(ClientConfigValidationError::InvalidApiBaseUrl(e));
            },
        }
        if self.request_timeout == 0 {
            return Err(ClientConfigValidationError::ZeroRequestTimeout);
        }
        if is_blank(self.user_agent.as_str()) {
            return Err(ClientConfigValidationError::EmptyUserAgent);
        }
        if !self.mode.webhook_enabled && !self.mode.polling_enabled {
            return Err(ClientConfigValidationError::NoEnabledModes);
        }
        match self.retry_policy.validate() {
            Ok(()) => {},
            Err(e) => {
                return Err(ClientConfigValidationError::InvalidRetryPolicy(e));
            },
        }
        match self.rate_limit_policy.validate() {
            Ok(()) => {},
            Err(e) => {
                return Err(ClientConfigValidationError::InvalidRateLimitPolicy(e));
            },
        }
        Ok(())
    }
}

impl ClientModeFlags {
    /// Webhook delivery only, as a value.
    pub open spec fn webhook_only_spec() -> Self {
        ClientModeFlags { webhook_enabled: true, polling_enabled: false }
    }
}

impl Default for ClientConfig {
    fn default() -> (c: Self)
        ensures
            config_check(c) is Valid,
            url_view(c.api_base_url) == default_base_view(),
            c.request_timeout == DEFAULT_REQUEST_TIMEOUT,
            c.user_agent@ == default_user_agent_text(),
            c.mode == ClientModeFlags::webhook_only_spec(),
    {
        ClientConfig::new()
    }
}

/// The check a client makes before it is built: the configuration first,
/// then the credentials. A failure of either is reported as
/// `InvalidConfiguration` with the failure's text.
pub fn check_client_setup(config: &ClientConfig, credentials: &BotCredentials) -> (r: Result<(), ApiError>)
    ensures
        r is Ok <==> (config_check(*config) is Valid && credentials.validation() is Ok),
        !(config_check(*config) is Valid) ==> exists|e: ClientConfigValidationError|
            #[trigger] config_error_matches(*config, e) && (r matches Err(
                ApiError::InvalidConfiguration(m),
            ) && m@ == config_error_text(e)),
        config_check(*config) is Valid && credentials.validation() is Err ==> (r matches Err(
            ApiError::InvalidConfiguration(m),
        ) && m@ == credentials_error_text(credentials.validation()->Err_0)),
{
    match config.validate() {
        Ok(()) => {},
        Err(e) => {
            return Err(ApiError::InvalidConfiguration(e.message()));
        },
    }
    match credentials.validate() {
        Ok(()) => Ok(()),
        Err(e) => Err(ApiError::InvalidConfiguration(e.message())),
    }
}

} // verus!
