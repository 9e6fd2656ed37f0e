//! Credential primitives for authenticated API calls and webhook verification.

use vstd::prelude::*;
use vstd::string::StringExecFns;
use crate::text::{
    ascii_alphanumeric, blank, chars_of, decimal, is_ascii_alphanumeric, is_blank, push_char,
    push_decimal,
};

verus! {

/// Minimum allowed webhook secret length.
pub const WEBHOOK_SECRET_MIN_LEN: usize = 5;

/// Maximum allowed webhook secret length.
pub const WEBHOOK_SECRET_MAX_LEN: usize = 256;

/// Validation failures for [`BotCredentials`].
#[derive(Debug, Clone, PartialEq, Eq, Structural)]
pub enum CredentialsValidationError {
    /// Bot token is empty or whitespace-only.
    EmptyToken,
    /// Webhook secret is outside supported length bounds.
    InvalidWebhookSecretLength {
        /// Observed secret length.
        length: usize,
    },
    /// Webhook secret contains a character outside `[a-zA-Z0-9_-]`.
    InvalidWebhookSecretCharacter {
        /// Zero-based index of the invalid character.
        index: usize,
        /// Invalid character value.
        character: char,
    },
}

/// Characters allowed in a webhook secret: `[a-zA-Z0-9_-]`.
pub open spec fn secret_char_allowed(c: char) -> bool {
    ascii_alphanumeric(c) || c == '_' || c == '-'
}

/// Index of the first character at or after `from` that a secret may not hold.
pub open spec fn first_disallowed(s: Seq<char>, from: int) -> Option<int>
    decreases s.len() - from,
{
    if from < 0 || from >= s.len() {
        None
    } else if !secret_char_allowed(s[from]) {
        Some(from)
    } else {
        first_disallowed(s, from + 1)
    }
}

/// Outcome of token validation: blank tokens are rejected.
pub open spec fn token_validation(token: Seq<char>) -> Result<(), CredentialsValidationError> {
    if blank(token) {
        Err(CredentialsValidationError::EmptyToken)
    } else {
        Ok(())
    }
}

/// Outcome of webhook secret validation: a length of 5 to 256 characters is
/// checked first, then the first character outside `[a-zA-Z0-9_-]` is reported.
pub open spec fn secret_validation(secret: Option<Seq<char>>) -> Result<(), CredentialsValidationError> {
    match secret {
        None => Ok(()),
        Some(s) => if s.len() < 5 || s.len() > 256 {
            Err(CredentialsValidationError::InvalidWebhookSecretLength { length: s.len() as usize })
        } else {
            match first_disallowed(s, 0) {
                Some(i) => Err(
                    CredentialsValidationError::InvalidWebhookSecretCharacter {
                        index: i as usize,
                        character: s[i],
                    },
                ),
                None => Ok(()),
            }
        },
    }
}

/// The view of an optional string.
pub open spec fn opt_view(s: Option<String>) -> Option<Seq<char>> {
    match s {
        Some(s) => Some(s@),
        None => None,
    }
}

/// The view of an optional string slice.
pub open spec fn opt_str_view(s: Option<&str>) -> Option<Seq<char>> {
    match s {
        Some(s) => Some(s@),
        None => None,
    }
}

/// Text of a validation error.
pub open spec fn credentials_error_text(e: CredentialsValidationError) -> Seq<char> {
    match e {
        CredentialsValidationError::EmptyToken => "bot token must not be empty"@,
        CredentialsValidationError::InvalidWebhookSecretLength { length } =>
            "webhook secret length must be between 5 and 256 characters, got "@ + decimal(
            length as nat,
        ),
        CredentialsValidationError::InvalidWebhookSecretCharacter { index, character } =>
            "webhook secret contains invalid character '"@ + seq![character]
            + "' at index "@ + decimal(index as nat),
    }
}

impl CredentialsValidationError {
    /// Human-readable description of the failure.
    pub fn message(&self) -> (text: String)
        ensures
            text@ == credentials_error_text(*self),
    {
        match self {
            CredentialsValidationError::EmptyToken => String::from_str("bot token must not be empty"),
            CredentialsValidationError::InvalidWebhookSecretLength { length } => {
                let mut s = String::from_str(
                    "webhook secret length must be between 5 and 256 characters, got ",
                );
                push_decimal(&mut s, *length as u64);
                s
            },
            CredentialsValidationError::InvalidWebhookSecretCharacter { index, character } => {
                let mut s = String::from_str("webhook secret contains invalid character '");
                push_char(&mut s, *character);
                s.append("' at index ");
                push_decimal(&mut s, *index as u64);
                proof {
                    assert("webhook secret contains invalid character '"@.push(*character) == "webhook secret contains invalid character '"@ + seq![*character]);
                }
                s
            },
        }
    }
}

/// Validates a token string.
pub fn check_token(token: &str) -> (r: Result<(), CredentialsValidationError>)
    ensures
        r == token_validation(token@),
{
    if is_blank(token) {
        return Err(CredentialsValidationError::EmptyToken);
    }
    Ok(())
}

/// Validates an optional webhook secret.
pub fn check_webhook_secret(webhook_secret: Option<&str>) -> (r: Result<(), CredentialsValidationError>)
    ensures
        r == secret_validation(opt_str_view(webhook_secret)),
{
    if let Some(secret) = webhook_secret {
        let v = chars_of(secret);
        let length = v.len();
        if length < WEBHOOK_SECRET_MIN_LEN || length > WEBHOOK_SECRET_MAX_LEN {
            return Err(CredentialsValidationError::InvalidWebhookSecretLength { length });
        }
        let mut i: usize = 0;
        while i < v.len()
            invariant
                i <= v.len(),
                v@ == secret@,
                opt_str_view(webhook_secret) == Some(v@),
                5 <= v@.len() <= 256,
                first_disallowed(v@, 0) == first_disallowed(v@, i as int),
            decreases v.len() - i,
        {
            let c = v[i];
            if !(is_ascii_alphanumeric(c) || c == '_' || c == '-') {
                return Err(CredentialsValidationError::InvalidWebhookSecretCharacter { index: i, character: c });
            }
            i = i + 1;
        }
    }
    Ok(())
}

/// Bot credentials used by the SDK runtime.
#[derive(Clone, PartialEq, Eq)]
pub struct BotCredentials {
    token: String,
    webhook_secret: Option<String>,
}

impl BotCredentials {
    /// The bot token.
    pub closed spec fn token_view(&self) -> Seq<char> {
        self.token@
    }

    /// The webhook secret, if configured.
    pub closed spec fn secret_view(&self) -> Option<Seq<char>> {
        opt_view(self.webhook_secret)
    }

    /// Outcome of validating these credentials: token first, then secret.
    pub open spec fn validation(&self) -> Result<(), CredentialsValidationError> {
        if token_validation(self.token_view()) is Err {
            token_validation(self.token_view())
        } else {
            secret_validation(self.secret_view())
        }
    }

    /// Creates credentials from token and optional webhook secret; fails with
    /// the first validation error of the token, then of the secret.
    pub fn from_parts(token: &str, webhook_secret: Option<String>) -> (r: Result<Self, CredentialsValidationError>)
        ensures
            token_validation(token@) is Err ==> r == Err::<Self, _>(token_validation(token@)->Err_0),
            token_validation(token@) is Ok && secret_validation(opt_view(webhook_secret)) is Err
                ==> r == Err::<Self, _>(secret_validation(opt_view(webhook_secret))->Err_0),
            token_validation(token@) is Ok && secret_validation(opt_view(webhook_secret)) is Ok ==> (
            r matches Ok(c) && c.token_view() == token@ && c.secret_view() == opt_view(
                webhook_secret,
            )),
    {
        check_token(token)?;
        match &webhook_secret {
            Some(s) => check_webhook_secret(Some(s.as_str()))?,
            None => check_webhook_secret(None)?,
        }
        Ok(BotCredentials { token: crate::text::owned(token), webhook_secret })
    }

    /// Creates credentials with token only.
    pub fn new(token: &str) -> (r: Result<Self, CredentialsValidationError>)
        ensures
            token_validation(token@) is Err ==> r == Err::<Self, _>(token_validation(token@)->Err_0),
            token_validation(token@) is Ok ==> (r matches Ok(c) && c.token_view() == token@
                && c.secret_view() is None),
    {
        Self::from_parts(token, None)
    }

    /// Returns the raw bot token.
    pub fn token(&self) -> (t: &str)
        ensures
            t@ == self.token_view(),
    {
        self.token.as_str()
    }

    /// Returns webhook secret, if configured.
    pub fn webhook_secret(&self) -> (s: Option<&str>)
        ensures
            opt_str_view(s) == self.secret_view(),
    {
        match &self.webhook_secret {
            Some(s) => Some(s.as_str()),
            None => None,
        }
    }

    /// Returns `true` when a webhook secret is configured.
    pub fn has_webhook_secret(&self) -> (b: bool)
        ensures
            b == self.secret_view() is Some,
    {
        self.webhook_secret.is_some()
    }

    /// Sets or clears webhook secret after validating it; on failure nothing changes.
    pub fn set_webhook_secret(&mut self, webhook_secret: Option<String>) -> (r: Result<(), CredentialsValidationError>)
        ensures
            r == secret_validation(opt_view(webhook_secret)),
            r is Ok ==> final(self).secret_view() == opt_view(webhook_secret),
            r is Err ==> final(self).secret_view() == old(self).secret_view(),
            final(self).token_view() == old(self).token_view(),
    {
        match &webhook_secret {
            Some(s) => check_webhook_secret(Some(s.as_str()))?,
            None => check_webhook_secret(None)?,
        }
        self.webhook_secret = webhook_secret;
        Ok(())
    }

    /// Returns the credentials with the webhook secret set, after validating it.
    pub fn with_webhook_secret(self, webhook_secret: &str) -> (r: Result<Self, CredentialsValidationError>)
        ensures
            secret_validation(Some(webhook_secret@)) is Err ==> r == Err::<Self, _>(
                secret_validation(Some(webhook_secret@))->Err_0,
            ),
            secret_validation(Some(webhook_secret@)) is Ok ==> (r matches Ok(c)
                && c.token_view() == self.token_view() && c.secret_view() == Some(
                webhook_secret@,
            )),
    {
        let mut c = self;
        c.set_webhook_secret(Some(crate::text::owned(webhook_secret)))?;
        Ok(c)
    }

    /// Validates credential fields.
    pub fn validate(&self) -> (r: Result<(), CredentialsValidationError>)
        ensures
            r == self.validation(),
    {
        check_token(self.token.as_str())?;
        match &self.webhook_secret {
            Some(s) => check_webhook_secret(Some(s.as_str())),
            None => check_webhook_secret(None),
        }
    }

    /// Validates token string.
    pub fn validate_token(token: &str) -> (r: Result<(), CredentialsValidationError>)
        ensures
            r == token_validation(token@),
    {
        check_token(token)
    }

    /// Validates webhook secret according to platform constraints.
    pub fn validate_webhook_secret(webhook_secret: Option<&str>) -> (r: Result<(), CredentialsValidationError>)
        ensures
            r == secret_validation(opt_str_view(webhook_secret)),
    {
        check_webhook_secret(webhook_secret)
    }

    /// Display text, with both secrets masked.
    pub open spec fn display_text(&self) -> Seq<char> {
        "BotCredentials(token=***REDACTED***, webhook_secret="@ + (if self.secret_view() is Some {
            "***REDACTED***"@
        } else {
            "<none>"@
        }) + ")"@
    }

    /// Debug text, with both secrets masked.
    pub open spec fn debug_text(&self) -> Seq<char> {
        "BotCredentials { token: \"***REDACTED***\", webhook_secret: "@ + (if self.secret_view() is Some {
            "\"***REDACTED***\""@
        } else {
            "None"@
        }) + " }"@
    }

    /// Text shown to users: neither the token nor the secret appears.
    pub fn display_string(&self) -> (text: String)
        ensures
            text@ == self.display_text(),
    {
        let mut s = String::from_str("BotCredentials(token=***REDACTED***, webhook_secret=");
        if self.has_webhook_secret() {
            s.append("***REDACTED***");
        } else {
            s.append("<none>");
        }
        s.append(")");
        s
    }

    /// Diagnostic text: neither the token nor the secret appears.
    pub fn debug_string(&self) -> (text: String)
        ensures
            text@ == self.debug_text(),
    {
        let mut s = String::from_str("BotCredentials { token: \"***REDACTED***\", webhook_secret: ");
        if self.has_webhook_secret() {
            s.append("\"***REDACTED***\"");
        } else {
            s.append("None");
        }
        s.append(" }");
        s
    }
}

} // verus!
