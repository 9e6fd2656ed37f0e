//! Structured telemetry events for the update ingestion lifecycle.

use vstd::prelude::*;
use crate::json::{JsonValue, model};
use crate::redaction::{RedactionConfig, redact_json, redact_model};
use crate::update_envelope::{UpdateEnvelope, update_type_name};

verus! {

/// Event emitted after polling/webhook fetch.
#[derive(Debug, Clone, Copy, PartialEq, Eq)]
pub struct UpdateFetchEvent {
    /// Correlation trace ID.
    pub trace_id: uuid::Uuid,
    /// Requested marker.
    pub requested_marker: Option<i64>,
    /// Returned marker.
    pub returned_marker: Option<i64>,
    /// Number of updates in page.
    pub update_count: usize,
}

/// Event emitted when update parsing completes.
#[derive(Debug, Clone, Copy, PartialEq, Eq)]
pub struct UpdateParseEvent {
    /// Correlation trace ID.
    pub trace_id: uuid::Uuid,
    /// Number of successfully parsed updates.
    pub parsed_count: usize,
    /// Number of parse failures.
    pub failed_count: usize,
}

/// Event emitted for one update dispatch attempt.
#[derive(Debug, Clone, PartialEq)]
pub struct UpdateDispatchEvent {
    /// Correlation trace ID.
    pub trace_id: uuid::Uuid,
    /// Update type value.
    pub update_type: String,
    /// Whether update was handled by at least one route.
    pub handled: bool,
    /// Redacted payload snapshot.
    pub payload: JsonValue,
}

/// Event emitted after marker commit attempt.
#[derive(Debug, Clone, Copy, PartialEq, Eq)]
pub struct UpdateCommitEvent {
    /// Correlation trace ID.
    pub trace_id: uuid::Uuid,
    /// Marker before commit.
    pub before_marker: Option<i64>,
    /// Marker after commit.
    pub committed_marker: Option<i64>,
    /// Whether commit was successful.
    pub committed: bool,
}

/// Telemetry callback hooks for update lifecycle.
pub trait UpdateTelemetry {
    /// Called after updates fetch.
    fn on_fetch(&self, event: &UpdateFetchEvent) {
    }

    /// Called after parse stage.
    fn on_parse(&self, event: &UpdateParseEvent) {
    }

    /// Called for each dispatch operation.
    fn on_dispatch(&self, event: &UpdateDispatchEvent) {
    }

    /// Called after marker commit stage.
    fn on_commit(&self, event: &UpdateCommitEvent) {
    }
}

/// No-op telemetry implementation.
#[derive(Debug, Clone, Copy, Default)]
pub struct NoopUpdateTelemetry;

impl UpdateTelemetry for NoopUpdateTelemetry {
}

/// Builds redacted dispatch event from update payload.
pub fn dispatch_event_from_update(
    trace_id: uuid::Uuid,
    update: &UpdateEnvelope,
    handled: bool,
    redaction: &RedactionConfig,
) -> (event: UpdateDispatchEvent)
    ensures
        event.trace_id == trace_id,
        event.update_type@ == update_type_name(update.update_type),
        event.handled == handled,
        model(event.payload) == redact_model(
            model(update.payload),
            redaction.mask@,
            redaction.max_string_len as nat,
        ),
{
    UpdateDispatchEvent {
        trace_id,
        update_type: update.update_type.as_str().to_string(),
        handled,
        payload: redact_json(&update.payload, redaction),
    }
}

} // verus!
