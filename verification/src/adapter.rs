//! Channel adapter primitives: configuration, context, failure classes and
//! idempotency keys.

use vstd::prelude::*;
use vstd::string::StringExecFns;
use crate::api_error::{ApiError, RetryClass, error_text, redacted};
use crate::attachment::opt_text;
use crate::request_context::{clone_pairs, keys_sorted, new_trace_id, tags_to_map, upsert_pair};

verus! {

/// Unknown update handling policy.
#[derive(Debug, Clone, Copy, PartialEq, Eq, Structural)]
pub enum UnknownEventPolicy {
    /// Emit `interaction.channel.unknown` events.
    EmitAsUnknown,
    /// Ignore unknown updates with warning.
    DropWithWarning,
    /// Fail fast on unknown updates.
    FailFast,
}

impl Default for UnknownEventPolicy {
    fn default() -> (p: Self)
        ensures
            p == UnknownEventPolicy::EmitAsUnknown,
    {
        UnknownEventPolicy::EmitAsUnknown
    }
}

/// MAX-to-Botron adapter configuration.
#[derive(Debug, Clone, Copy, PartialEq, Eq, Structural)]
pub struct AdapterConfig {
    /// Enables strict mapping checks and fail-fast behavior.
    pub strict_mode: bool,
    /// Includes raw payload in mapped events.
    pub include_raw_payload: bool,
    /// Unknown update handling policy.
    pub unknown_event_policy: UnknownEventPolicy,
}

impl Default for AdapterConfig {
    fn default() -> (c: Self)
        ensures
            !c.strict_mode,
            c.include_raw_payload,
            c.unknown_event_policy == UnknownEventPolicy::EmitAsUnknown,
    {
        AdapterConfig {
            strict_mode: false,
            include_raw_payload: true,
            unknown_event_policy: UnknownEventPolicy::default(),
        }
    }
}

/// External IDs propagated from MAX payloads.
#[derive(Debug, PartialEq, Eq)]
pub struct ExternalIdentifiers {
    /// MAX chat identifier.
    pub chat_id: Option<String>,
    /// MAX user identifier.
    pub user_id: Option<String>,
    /// MAX message identifier.
    pub message_id: Option<String>,
    /// MAX callback identifier.
    pub callback_id: Option<String>,
    /// MAX update type string.
    pub update_type: Option<String>,
}

/// The view of external identifiers.
pub struct IdsModel {
    /// Chat identifier.
    pub chat_id: Option<Seq<char>>,
    /// User identifier.
    pub user_id: Option<Seq<char>>,
    /// Message identifier.
    pub message_id: Option<Seq<char>>,
    /// Callback identifier.
    pub callback_id: Option<Seq<char>>,
    /// Update type name.
    pub update_type: Option<Seq<char>>,
}

impl View for ExternalIdentifiers {
    type V = IdsModel;

    open spec fn view(&self) -> IdsModel {
        IdsModel {
            chat_id: opt_text(self.chat_id),
            user_id: opt_text(self.user_id),
            message_id: opt_text(self.message_id),
            callback_id: opt_text(self.callback_id),
            update_type: opt_text(self.update_type),
        }
    }
}

/// A copy of an optional string.
pub fn clone_opt(s: &Option<String>) -> (c: Option<String>)
    ensures
        opt_text(c) == opt_text(*s),
{
    match s {
        Some(v) => Some(v.clone()),
        None => None,
    }
}

impl Clone for ExternalIdentifiers {
    fn clone(&self) -> (c: Self)
        ensures
            c@ == self@,
    {
        ExternalIdentifiers {
            chat_id: clone_opt(&self.chat_id),
            user_id: clone_opt(&self.user_id),
            message_id: clone_opt(&self.message_id),
            callback_id: clone_opt(&self.callback_id),
            update_type: clone_opt(&self.update_type),
        }
    }
}

impl Default for ExternalIdentifiers {
    fn default() -> (ids: Self)
        ensures
            ids@ == (IdsModel {
                chat_id: None,
                user_id: None,
                message_id: None,
                callback_id: None,
                update_type: None,
            }),
    {
        ExternalIdentifiers {
            chat_id: None,
            user_id: None,
            message_id: None,
            callback_id: None,
            update_type: None,
        }
    }
}

/// Context propagated with mapped inbound and outbound adapter actions.
#[derive(Debug, PartialEq, Eq)]
pub struct AdapterContext {
    /// Channel name used by Botron.
    pub channel: String,
    /// Correlation trace identifier.
    pub trace_id: uuid::Uuid,
    /// External IDs captured from channel payloads.
    pub external_ids: ExternalIdentifiers,
    /// Additional adapter metadata, sorted by key, each key once.
    pub metadata: Vec<(String, String)>,
}

impl AdapterContext {
    /// The metadata list is sorted by key, each key once.
    pub open spec fn wf(&self) -> bool {
        keys_sorted(self.metadata@)
    }

    /// The metadata as a map.
    pub open spec fn metadata_map(&self) -> Map<Seq<char>, Seq<char>> {
        tags_to_map(self.metadata@)
    }

    /// Creates base context for the `max` channel with a fresh trace identifier.
    pub fn new() -> (ctx: Self)
        ensures
            ctx.channel@ == "max"@,
            ctx.external_ids@ == (IdsModel {
                chat_id: None,
                user_id: None,
                message_id: None,
                callback_id: None,
                update_type: None,
            }),
            ctx.metadata_map() == Map::<Seq<char>, Seq<char>>::empty(),
            ctx.wf(),
    {
        AdapterContext {
            channel: String::from_str("max"),
            trace_id: new_trace_id(),
            external_ids: ExternalIdentifiers::default(),
            metadata: Vec::new(),
        }
    }

    /// Adds or replaces metadata value.
    pub fn insert_metadata(&mut self, key: String, value: String)
        requires
            old(self).wf(),
        ensures
            final(self).wf(),
            final(self).metadata_map() == old(self).metadata_map().insert(key@, value@),
            final(self).channel == old(self).channel,
            final(self).trace_id == old(self).trace_id,
            final(self).external_ids == old(self).external_ids,
    {
        upsert_pair(&mut self.metadata, key, value);
    }

    /// Returns the context with explicit external identifiers.
    pub fn with_external_ids(self, external_ids: ExternalIdentifiers) -> (ctx: Self)
        ensures
            ctx.external_ids == external_ids,
            ctx.channel == self.channel,
            ctx.trace_id == self.trace_id,
            ctx.metadata == self.metadata,
    {
        AdapterContext { external_ids, ..self }
    }
}

impl Default for AdapterContext {
    fn default() -> (ctx: Self)
        ensures
            ctx.channel@ == "max"@,
            ctx.external_ids@ == (IdsModel {
                chat_id: None,
                user_id: None,
                message_id: None,
                callback_id: None,
                update_type: None,
            }),
            ctx.metadata_map() == Map::<Seq<char>, Seq<char>>::empty(),
            ctx.wf(),
    {
        AdapterContext::new()
    }
}

impl Clone for AdapterContext {
    fn clone(&self) -> (c: Self)
        ensures
            c.channel@ == self.channel@,
            c.trace_id == self.trace_id,
            c.external_ids@ == self.external_ids@,
            c.metadata_map() == self.metadata_map(),
            self.wf() ==> c.wf(),
    {
        AdapterContext {
            channel: self.channel.clone(),
            trace_id: self.trace_id.clone(),
            external_ids: self.external_ids.clone(),
            metadata: clone_pairs(&self.metadata),
        }
    }
}

/// Botron-facing failure classes for channel integrations.
#[derive(Debug, Clone, Copy, PartialEq, Eq, Structural)]
pub enum BotronFailureClass {
    /// Authentication or authorization failure.
    ChannelAuthFailed,
    /// Provider-side rate limiting.
    ChannelRateLimited,
    /// Temporary provider unavailability.
    ChannelProviderUnavailable,
    /// Contract or payload validation issue.
    ChannelContractError,
    /// Unknown inbound event type.
    ChannelUnknownEvent,
    /// Transport/network failure.
    ChannelTransportError,
    /// Internal adapter/runtime issue.
    ChannelInternalError,
}

/// Adapter error with deterministic failure class.
#[derive(Debug, Clone, PartialEq, Eq)]
pub struct AdapterFailure {
    /// Botron failure class.
    pub class: BotronFailureClass,
    /// Failure message.
    pub message: String,
}

impl AdapterFailure {
    /// Creates typed failure.
    pub fn new(class: BotronFailureClass, message: String) -> (f: Self)
        ensures
            f.class == class,
            f.message@ == message@,
    {
        AdapterFailure { class, message }
    }
}

/// Failure class of an SDK error: authentication problems (query auth,
/// headers, status `401`), rate limiting (`429`), transport failures,
/// contract problems (configuration, response shape, update payload, decode),
/// other statuses by their retry class, and internal problems (fixtures, URL
/// joins).
pub open spec fn failure_class_of(error: ApiError) -> BotronFailureClass {
    match error {
        ApiError::QueryAuthenticationForbidden => BotronFailureClass::ChannelAuthFailed,
        ApiError::InvalidHeader { .. } => BotronFailureClass::ChannelAuthFailed,
        ApiError::HttpStatus { status, .. } => if status == 401 {
            BotronFailureClass::ChannelAuthFailed
        } else if status == 429 {
            BotronFailureClass::ChannelRateLimited
        } else {
            match crate::api_error::retry_class_of(error) {
                RetryClass::RateLimited => BotronFailureClass::ChannelRateLimited,
                RetryClass::Backoff => BotronFailureClass::ChannelProviderUnavailable,
                RetryClass::NotRetryable => BotronFailureClass::ChannelContractError,
            }
        },
        ApiError::Transport(_) => BotronFailureClass::ChannelTransportError,
        ApiError::InvalidConfiguration(_) => BotronFailureClass::ChannelContractError,
        ApiError::InvalidResponseShape(_) => BotronFailureClass::ChannelContractError,
        ApiError::InvalidUpdatePayload(_) => BotronFailureClass::ChannelContractError,
        ApiError::ResponseDecode { .. } => BotronFailureClass::ChannelContractError,
        ApiError::FixtureIo { .. } => BotronFailureClass::ChannelInternalError,
        ApiError::FixtureParse { .. } => BotronFailureClass::ChannelInternalError,
        ApiError::FixtureSchema { .. } => BotronFailureClass::ChannelInternalError,
        ApiError::UrlJoinError { .. } => BotronFailureClass::ChannelInternalError,
    }
}

/// Maps SDK API error to Botron failure class.
pub fn translate_api_error(error: &ApiError) -> (class: BotronFailureClass)
    ensures
        class == failure_class_of(*error),
{
    match error {
        ApiError::QueryAuthenticationForbidden | ApiError::InvalidHeader { .. } => {
            BotronFailureClass::ChannelAuthFailed
        },
        ApiError::HttpStatus { status, .. } => {
            if *status == 401 {
                BotronFailureClass::ChannelAuthFailed
            } else if *status == 429 {
                BotronFailureClass::ChannelRateLimited
            } else {
                match error.retry_class() {
                    RetryClass::RateLimited => BotronFailureClass::ChannelRateLimited,
                    RetryClass::Backoff => BotronFailureClass::ChannelProviderUnavailable,
                    RetryClass::NotRetryable => BotronFailureClass::ChannelContractError,
                }
            }
        },
        ApiError::Transport(_) => BotronFailureClass::ChannelTransportError,
        ApiError::InvalidConfiguration(_)
        | ApiError::InvalidResponseShape(_)
        | ApiError::InvalidUpdatePayload(_)
        | ApiError::ResponseDecode { .. } => BotronFailureClass::ChannelContractError,
        ApiError::FixtureIo { .. }
        | ApiError::FixtureParse { .. }
        | ApiError::FixtureSchema { .. }
        | ApiError::UrlJoinError { .. } => BotronFailureClass::ChannelInternalError,
    }
}

/// Converts an SDK error into a typed adapter failure: its class, and its
/// text with secret values masked.
pub fn to_adapter_failure(error: &ApiError) -> (f: AdapterFailure)
    ensures
        f.class == failure_class_of(*error),
        f.message@ == redacted(error_text(*error)),
{
    AdapterFailure::new(translate_api_error(error), error.redacted_message())
}

/// An optional text, or a placeholder when absent.
pub open spec fn or_placeholder(s: Option<Seq<char>>, placeholder: Seq<char>) -> Seq<char> {
    match s {
        Some(t) => t,
        None => placeholder,
    }
}

/// Inbound idempotency key:
/// `max:{scope}:{update type or "unknown"}:{chat or "-"}:{message or "-"}:{callback or "-"}`.
pub open spec fn inbound_key_text(scope: Seq<char>, ids: IdsModel) -> Seq<char> {
    "max:"@ + scope + ":"@ + or_placeholder(ids.update_type, "unknown"@) + ":"@ + or_placeholder(
        ids.chat_id,
        "-"@,
    ) + ":"@ + or_placeholder(ids.message_id, "-"@) + ":"@ + or_placeholder(ids.callback_id, "-"@)
}

/// Outbound idempotency key: `max:{scope}:{action}:{id}`.
pub open spec fn outbound_key_text(scope: Seq<char>, action: Seq<char>, id: Seq<char>) -> Seq<char> {
    "max:"@ + scope + ":"@ + action + ":"@ + id
}

/// Appends an optional text, or the placeholder when absent.
fn append_or(out: &mut String, value: &Option<String>, placeholder: &str)
    ensures
        final(out)@ == old(out)@ + or_placeholder(opt_text(*value), placeholder@),
{
    match value {
        Some(v) => out.append(v.as_str()),
        None => out.append(placeholder),
    }
}

/// Composes deterministic idempotency keys from channel/update identifiers.
#[derive(Debug, Clone, Copy, Default)]
pub struct KeyComposer;

impl KeyComposer {
    /// Composes inbound key from external IDs and flow scope.
    pub fn inbound_key(flow_scope: &str, external_ids: &ExternalIdentifiers) -> (key: String)
        ensures
            key@ == inbound_key_text(flow_scope@, external_ids@),
    {
        let mut out = String::from_str("max:");
        out.append(flow_scope);
        out.append(":");
        append_or(&mut out, &external_ids.update_type, "unknown");
        out.append(":");
        append_or(&mut out, &external_ids.chat_id, "-");
        out.append(":");
        append_or(&mut out, &external_ids.message_id, "-");
        out.append(":");
        append_or(&mut out, &external_ids.callback_id, "-");
        out
    }

    /// Composes outbound key from action identifier and flow scope.
    pub fn outbound_key(flow_scope: &str, action: &str, external_id: &str) -> (key: String)
        ensures
            key@ == outbound_key_text(flow_scope@, action@, external_id@),
    {
        let mut out = String::from_str("max:");
        out.append(flow_scope);
        out.append(":");
        out.append(action);
        out.append(":");
        out.append(external_id);
        out
    }
}

} // verus!
