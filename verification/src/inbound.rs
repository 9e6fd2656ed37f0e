//! Inbound update mapping: MAX updates become Botron interaction events.

use vstd::prelude::*;
use vstd::string::StringExecFns;
use crate::adapter::{
    AdapterConfig, AdapterContext, AdapterFailure, BotronFailureClass, IdsModel,
    UnknownEventPolicy,
};
use crate::attachment::opt_text;
use crate::json::{
    JsonEntry, JsonModel, JsonNumber, JsonValue, NumberModel, clone_value, entries_model,
    find_key, get_key, lemma_entries_model_index, lookup, model, push_entry, scalar_text,
    value_to_string,
};
use crate::update_envelope::{KnownUpdateType, UpdateEnvelope, UpdateType, update_type_name};

verus! {

/// Mapped Botron interaction event.
#[derive(Debug, Clone, PartialEq)]
pub struct InboundEvent {
    /// Botron interaction event name.
    pub event_name: String,
    /// Adapter context and external IDs.
    pub context: AdapterContext,
    /// Event payload normalized for Botron layer.
    pub payload: JsonValue,
}

/// The view of a mapped event: its name, external identifiers and payload.
pub struct EventModel {
    /// Event name.
    pub event_name: Seq<char>,
    /// External identifiers.
    pub ids: IdsModel,
    /// Payload.
    pub payload: JsonModel,
}

/// The view of an event.
pub open spec fn event_view(ev: InboundEvent) -> EventModel {
    EventModel {
        event_name: ev.event_name@,
        ids: ev.context.external_ids@,
        payload: model(ev.payload),
    }
}

/// The event context carries over the channel, trace identifier and metadata.
pub open spec fn keeps_context(event_context: AdapterContext, context: AdapterContext) -> bool {
    &&& event_context.channel@ == context.channel@
    &&& event_context.trace_id == context.trace_id
    &&& event_context.metadata_map() == context.metadata_map()
    &&& context.wf() ==> event_context.wf()
}

/// Message of the failure for updates whose payload is not an object.
pub open spec fn not_object_message() -> Seq<char> {
    "update payload is not an object"@
}

/// Entries of the update payload: those of its `payload` member when that is
/// an object, else those of the payload itself when it is an object.
pub open spec fn payload_entries(p: JsonModel) -> Option<Seq<(Seq<char>, JsonModel)>> {
    match get_key(p, "payload"@) {
        Some(JsonModel::Object(e)) => Some(e),
        _ => match p {
            JsonModel::Object(e) => Some(e),
            _ => None,
        },
    }
}

/// Text of a string or number member, if present.
pub open spec fn field_text(entries: Seq<(Seq<char>, JsonModel)>, key: Seq<char>) -> Option<Seq<char>> {
    match lookup(entries, key) {
        Some(v) => scalar_text(v),
        None => None,
    }
}

/// A member's value, or `null` when absent.
pub open spec fn field_or_null(entries: Seq<(Seq<char>, JsonModel)>, key: Seq<char>) -> JsonModel {
    match lookup(entries, key) {
        Some(v) => v,
        None => JsonModel::Null,
    }
}

/// A signed integer as a JSON number.
pub open spec fn int_json(t: i64) -> JsonModel {
    if t >= 0 {
        JsonModel::Number(NumberModel::PosInt(t as u64))
    } else {
        JsonModel::Number(NumberModel::NegInt(t))
    }
}

/// Identifiers read from the payload entries under the given update type
/// name; the callback identifier is read only when asked, else kept.
pub open spec fn ids_from(
    entries: Seq<(Seq<char>, JsonModel)>,
    update_type: Seq<char>,
    ids: IdsModel,
    with_callback: bool,
) -> IdsModel {
    IdsModel {
        update_type: Some(update_type),
        chat_id: field_text(entries, "chat_id"@),
        user_id: field_text(entries, "user_id"@),
        message_id: field_text(entries, "message_id"@),
        callback_id: if with_callback {
            field_text(entries, "callback_id"@)
        } else {
            ids.callback_id
        },
    }
}

/// Event for message and callback updates; nothing for other types.
pub open spec fn message_event(
    kind: UpdateType,
    timestamp: i64,
    payload: JsonModel,
    entries: Seq<(Seq<char>, JsonModel)>,
    ids: IdsModel,
) -> Option<EventModel> {
    match kind {
        UpdateType::Known(KnownUpdateType::MessageCreated) => Some(
            EventModel {
                event_name: "interaction.message.received"@,
                ids: ids_from(entries, "message_created"@, ids, false),
                payload: JsonModel::Object(
                    seq![
                        ("channel_chat_id"@, field_or_null(entries, "chat_id"@)),
                        ("channel_user_id"@, field_or_null(entries, "user_id"@)),
                        ("message_id"@, field_or_null(entries, "message_id"@)),
                        ("raw"@, payload),
                        ("timestamp"@, int_json(timestamp)),
                    ],
                ),
            },
        ),
        UpdateType::Known(KnownUpdateType::MessageCallback) => Some(
            EventModel {
                event_name: "interaction.callback.received"@,
                ids: ids_from(entries, "message_callback"@, ids, true),
                payload: JsonModel::Object(
                    seq![
                        ("callback_id"@, field_or_null(entries, "callback_id"@)),
                        ("message_id"@, field_or_null(entries, "message_id"@)),
                        ("payload"@, field_or_null(entries, "payload"@)),
                        ("raw"@, payload),
                        ("timestamp"@, int_json(timestamp)),
                    ],
                ),
            },
        ),
        _ => None,
    }
}

/// Event name and update type name of lifecycle updates.
pub open spec fn lifecycle_names(kind: UpdateType) -> Option<(Seq<char>, Seq<char>)> {
    match kind {
        UpdateType::Known(KnownUpdateType::BotStarted) => Some(
            ("interaction.session.started"@, "bot_started"@),
        ),
        UpdateType::Known(KnownUpdateType::BotStopped) => Some(
            ("interaction.session.stopped"@, "bot_stopped"@),
        ),
        UpdateType::Known(KnownUpdateType::UserAdded) => Some(
            ("interaction.participant.changed"@, "user_added"@),
        ),
        UpdateType::Known(KnownUpdateType::UserRemoved) => Some(
            ("interaction.participant.changed"@, "user_removed"@),
        ),
        UpdateType::Known(KnownUpdateType::ChatTitleChanged) => Some(
            ("interaction.chat.updated"@, "chat_title_changed"@),
        ),
        _ => None,
    }
}

/// Event for lifecycle updates; nothing for other types.
pub open spec fn lifecycle_event(
    kind: UpdateType,
    timestamp: i64,
    payload: JsonModel,
    entries: Seq<(Seq<char>, JsonModel)>,
    ids: IdsModel,
) -> Option<EventModel> {
    match lifecycle_names(kind) {
        Some((event_name, name)) => Some(
            EventModel {
                event_name,
                ids: ids_from(entries, name, ids, false),
                payload: JsonModel::Object(
                    seq![
                        ("actor_id"@, field_or_null(entries, "actor_id"@)),
                        ("chat_id"@, field_or_null(entries, "chat_id"@)),
                        ("raw"@, payload),
                        ("timestamp"@, int_json(timestamp)),
                        ("title"@, field_or_null(entries, "title"@)),
                        ("user_id"@, field_or_null(entries, "user_id"@)),
                    ],
                ),
            },
        ),
        None => None,
    }
}

/// Event for an update of any type, as `interaction.channel.unknown`.
pub open spec fn unknown_event(
    kind: UpdateType,
    timestamp: i64,
    raw: JsonModel,
    include_raw: bool,
    ids: IdsModel,
) -> EventModel {
    EventModel {
        event_name: "interaction.channel.unknown"@,
        ids: IdsModel { update_type: Some(update_type_name(kind)), ..ids },
        payload: JsonModel::Object(
            seq![
                ("raw_payload"@, if include_raw {
                    raw
                } else {
                    JsonModel::Null
                }),
                ("raw_update_type"@, JsonModel::Text(update_type_name(kind))),
                ("timestamp"@, int_json(timestamp)),
            ],
        ),
    }
}

/// What mapping an update gives.
pub enum InboundOutcome {
    /// An event.
    Event(EventModel),
    /// Nothing: the update is dropped.
    Dropped,
    /// A failure of this class with this message.
    Failed(BotronFailureClass, Seq<char>),
}

/// Mapping of an update: a payload that is not an object fails as a
/// contract error; message and callback updates, then lifecycle updates, map
/// to their events; any other type follows the unknown-event policy.
pub open spec fn inbound_outcome(update: UpdateEnvelope, ids: IdsModel, config: AdapterConfig) -> InboundOutcome {
    let p = model(update.payload);
    match payload_entries(p) {
        None => InboundOutcome::Failed(BotronFailureClass::ChannelContractError, not_object_message()),
        Some(entries) => match message_event(update.update_type, update.timestamp, p, entries, ids) {
            Some(e) => InboundOutcome::Event(e),
            None => match lifecycle_event(update.update_type, update.timestamp, p, entries, ids) {
                Some(e) => InboundOutcome::Event(e),
                None => match config.unknown_event_policy {
                    UnknownEventPolicy::EmitAsUnknown => InboundOutcome::Event(
                        unknown_event(
                            update.update_type,
                            update.timestamp,
                            model(update.raw),
                            config.include_raw_payload,
                            ids,
                        ),
                    ),
                    UnknownEventPolicy::DropWithWarning => InboundOutcome::Dropped,
                    UnknownEventPolicy::FailFast => InboundOutcome::Failed(
                        BotronFailureClass::ChannelUnknownEvent,
                        "unknown update type `"@ + update_type_name(update.update_type) + "`"@,
                    ),
                },
            },
        },
    }
}

/// Entries of the update payload (see `payload_entries`).
fn payload_object(update: &UpdateEnvelope) -> (r: Option<&Vec<JsonEntry>>)
    ensures
        match r {
            Some(e) => payload_entries(model(update.payload)) == Some(entries_model(e@)),
            None => payload_entries(model(update.payload)) is None,
        },
{
    match update.payload.get("payload") {
        Some(JsonValue::Object(e)) => {
            return Some(e);
        },
        _ => {},
    }
    match &update.payload {
        JsonValue::Object(e) => Some(e),
        _ => None,
    }
}

/// Text of a string or number member.
fn payload_string(entries: &Vec<JsonEntry>, key: &str) -> (r: Option<String>)
    ensures
        opt_text(r) == field_text(entries_model(entries@), key@),
{
    proof {
        lemma_entries_model_index(entries@);
    }
    match find_key(entries, key) {
        Some(i) => value_to_string(&entries[i].value),
        None => None,
    }
}

/// A copy of a member's value, or `null`.
fn field_json(entries: &Vec<JsonEntry>, key: &str) -> (v: JsonValue)
    ensures
        model(v) == field_or_null(entries_model(entries@), key@),
{
    proof {
        lemma_entries_model_index(entries@);
    }
    match find_key(entries, key) {
        Some(i) => clone_value(&entries[i].value),
        None => JsonValue::Null,
    }
}

/// A signed integer as a JSON number.
fn int_value(t: i64) -> (v: JsonValue)
    ensures
        model(v) == int_json(t),
{
    if t >= 0 {
        JsonValue::Number(JsonNumber::PosInt(t as u64))
    } else {
        JsonValue::Number(JsonNumber::NegInt(t))
    }
}

/// A keyed entry.
fn entry(key: &str, value: JsonValue) -> (e: JsonEntry)
    ensures
        e.key@ == key@,
        e.value == value,
{
    JsonEntry { key: key.to_string(), value }
}

/// Failure for updates whose payload is not an object.
fn not_object_failure() -> (f: AdapterFailure)
    ensures
        f.class == BotronFailureClass::ChannelContractError,
        f.message@ == not_object_message(),
{
    AdapterFailure::new(
        BotronFailureClass::ChannelContractError,
        String::from_str("update payload is not an object"),
    )
}

/// Maps `message_created` and `message_callback` updates.
pub fn map_message_or_callback(update: &UpdateEnvelope, context: AdapterContext) -> (r: Result<
    Option<InboundEvent>,
    AdapterFailure,
>)
    ensures
        match payload_entries(model(update.payload)) {
            None => r matches Err(f) && f.class == BotronFailureClass::ChannelContractError
                && f.message@ == not_object_message(),
            Some(entries) => match r {
                Ok(Some(ev)) => message_event(
                    update.update_type,
                    update.timestamp,
                    model(update.payload),
                    entries,
                    context.external_ids@,
                ) == Some(event_view(ev)) && keeps_context(ev.context, context),
                Ok(None) => message_event(
                    update.update_type,
                    update.timestamp,
                    model(update.payload),
                    entries,
                    context.external_ids@,
                ) is None,
                Err(_) => false,
            },
        },
{
    let payload = match payload_object(update) {
        Some(p) => p,
        None => {
            return Err(not_object_failure());
        },
    };
    let ghost entries = entries_model(payload@);
    let mut context = context;
    match &update.update_type {
        UpdateType::Known(KnownUpdateType::MessageCreated) => {
            context.external_ids.update_type = Some(String::from_str("message_created"));
            context.external_ids.chat_id = payload_string(payload, "chat_id");
            context.external_ids.user_id = payload_string(payload, "user_id");
            context.external_ids.message_id = payload_string(payload, "message_id");
            let mut out: Vec<JsonEntry> = Vec::new();
            push_entry(&mut out, entry("channel_chat_id", field_json(payload, "chat_id")));
            push_entry(&mut out, entry("channel_user_id", field_json(payload, "user_id")));
            push_entry(&mut out, entry("message_id", field_json(payload, "message_id")));
            push_entry(&mut out, entry("raw", clone_value(&update.payload)));
            push_entry(&mut out, entry("timestamp", int_value(update.timestamp)));
            assert(entries_model(out@) =~= seq![
                ("channel_chat_id"@, field_or_null(entries, "chat_id"@)),
                ("channel_user_id"@, field_or_null(entries, "user_id"@)),
                ("message_id"@, field_or_null(entries, "message_id"@)),
                ("raw"@, model(update.payload)),
                ("timestamp"@, int_json(update.timestamp)),
            ]);
            let ev = InboundEvent {
                event_name: String::from_str("interaction.message.received"),
                context,
                payload: JsonValue::Object(out),
            };
            Ok(Some(ev))
        },
        UpdateType::Known(KnownUpdateType::MessageCallback) => {
            context.external_ids.update_type = Some(String::from_str("message_callback"));
            context.external_ids.chat_id = payload_string(payload, "chat_id");
            context.external_ids.user_id = payload_string(payload, "user_id");
            context.external_ids.message_id = payload_string(payload, "message_id");
            context.external_ids.callback_id = payload_string(payload, "callback_id");
            let mut out: Vec<JsonEntry> = Vec::new();
            push_entry(&mut out, entry("callback_id", field_json(payload, "callback_id")));
            push_entry(&mut out, entry("message_id", field_json(payload, "message_id")));
            push_entry(&mut out, entry("payload", field_json(payload, "payload")));
            push_entry(&mut out, entry("raw", clone_value(&update.payload)));
            push_entry(&mut out, entry("timestamp", int_value(update.timestamp)));
            assert(entries_model(out@) =~= seq![
                ("callback_id"@, field_or_null(entries, "callback_id"@)),
                ("message_id"@, field_or_null(entries, "message_id"@)),
                ("payload"@, field_or_null(entries, "payload"@)),
                ("raw"@, model(update.payload)),
                ("timestamp"@, int_json(update.timestamp)),
            ]);
            let ev = InboundEvent {
                event_name: String::from_str("interaction.callback.received"),
                context,
                payload: JsonValue::Object(out),
            };
            Ok(Some(ev))
        },
        _ => Ok(None),
    }
}

/// Maps lifecycle updates such as bot/user/chat events.
pub fn map_lifecycle_update(update: &UpdateEnvelope, context: AdapterContext) -> (r: Result<
    Option<InboundEvent>,
    AdapterFailure,
>)
    ensures
        match payload_entries(model(update.payload)) {
            None => r matches Err(f) && f.class == BotronFailureClass::ChannelContractError
                && f.message@ == not_object_message(),
            Some(entries) => match r {
                Ok(Some(ev)) => lifecycle_event(
                    update.update_type,
                    update.timestamp,
                    model(update.payload),
                    entries,
                    context.external_ids@,
                ) == Some(event_view(ev)) && keeps_context(ev.context, context),
                Ok(None) => lifecycle_event(
                    update.update_type,
                    update.timestamp,
                    model(update.payload),
                    entries,
                    context.external_ids@,
                ) is None,
                Err(_) => false,
            },
        },
{
    let payload = match payload_object(update) {
        Some(p) => p,
        None => {
            return Err(not_object_failure());
        },
    };
    let ghost entries = entries_model(payload@);
    let (event_name, update_type): (&str, &str) = match &update.update_type {
        UpdateType::Known(KnownUpdateType::BotStarted) => ("interaction.session.started", "bot_started"),
        UpdateType::Known(KnownUpdateType::BotStopped) => ("interaction.session.stopped", "bot_stopped"),
        UpdateType::Known(KnownUpdateType::UserAdded) => (
            "interaction.participant.changed",
            update.update_type.as_str(),
        ),
        UpdateType::Known(KnownUpdateType::UserRemoved) => (
            "interaction.participant.changed",
            update.update_type.as_str(),
        ),
        UpdateType::Known(KnownUpdateType::ChatTitleChanged) => (
            "interaction.chat.updated",
            "chat_title_changed",
        ),
        _ => {
            return Ok(None);
        },
    };
    assert(lifecycle_names(update.update_type) == Some((event_name@, update_type@)));
    let mut context = context;
    context.external_ids.update_type = Some(update_type.to_string());
    context.external_ids.chat_id = payload_string(payload, "chat_id");
    context.external_ids.user_id = payload_string(payload, "user_id");
    context.external_ids.message_id = payload_string(payload, "message_id");
    let mut out: Vec<JsonEntry> = Vec::new();
    push_entry(&mut out, entry("actor_id", field_json(payload, "actor_id")));
    push_entry(&mut out, entry("chat_id", field_json(payload, "chat_id")));
    push_entry(&mut out, entry("raw", clone_value(&update.payload)));
    push_entry(&mut out, entry("timestamp", int_value(update.timestamp)));
    push_entry(&mut out, entry("title", field_json(payload, "title")));
    push_entry(&mut out, entry("user_id", field_json(payload, "user_id")));
    assert(entries_model(out@) =~= seq![
        ("actor_id"@, field_or_null(entries, "actor_id"@)),
        ("chat_id"@, field_or_null(entries, "chat_id"@)),
        ("raw"@, model(update.payload)),
        ("timestamp"@, int_json(update.timestamp)),
        ("title"@, field_or_null(entries, "title"@)),
        ("user_id"@, field_or_null(entries, "user_id"@)),
    ]);
    Ok(Some(InboundEvent { event_name: event_name.to_string(), context, payload: JsonValue::Object(out) }))
}

/// Maps any update into `interaction.channel.unknown`.
pub fn map_unknown_update(update: &UpdateEnvelope, context: AdapterContext, config: &AdapterConfig) -> (ev:
    InboundEvent)
    ensures
        event_view(ev) == unknown_event(
            update.update_type,
            update.timestamp,
            model(update.raw),
            config.include_raw_payload,
            context.external_ids@,
        ),
        keeps_context(ev.context, context),
{
    let mut context = context;
    context.external_ids.update_type = Some(update.update_type.as_str().to_string());
    let raw_payload = if config.include_raw_payload {
        clone_value(&update.raw)
    } else {
        JsonValue::Null
    };
    let mut out: Vec<JsonEntry> = Vec::new();
    push_entry(&mut out, entry("raw_payload", raw_payload));
    push_entry(
        &mut out,
        entry("raw_update_type", JsonValue::String(update.update_type.as_str().to_string())),
    );
    push_entry(&mut out, entry("timestamp", int_value(update.timestamp)));
    let ev = InboundEvent {
        event_name: String::from_str("interaction.channel.unknown"),
        context,
        payload: JsonValue::Object(out),
    };
    assert(entries_model(out@) =~= unknown_event(
        update.update_type,
        update.timestamp,
        model(update.raw),
        config.include_raw_payload,
        context.external_ids@,
    ).payload->Object_0);
    ev
}

/// Maps one MAX update into a Botron inbound event according to adapter config.
pub fn map_inbound_update(update: &UpdateEnvelope, context: AdapterContext, config: &AdapterConfig) -> (r:
    Result<Option<InboundEvent>, AdapterFailure>)
    ensures
        match r {
            Ok(Some(ev)) => inbound_outcome(*update, context.external_ids@, *config)
                == InboundOutcome::Event(event_view(ev)) && keeps_context(ev.context, context),
            Ok(None) => inbound_outcome(*update, context.external_ids@, *config) is Dropped,
            Err(f) => inbound_outcome(*update, context.external_ids@, *config)
                == InboundOutcome::Failed(f.class, f.message@),
        },
{
    match map_message_or_callback(update, context.clone()) {
        Ok(Some(event)) => {
            return Ok(Some(event));
        },
        Ok(None) => {},
        Err(f) => {
            return Err(f);
        },
    }
    match map_lifecycle_update(update, context.clone()) {
        Ok(Some(event)) => {
            return Ok(Some(event));
        },
        Ok(None) => {},
        Err(f) => {
            return Err(f);
        },
    }
    match config.unknown_event_policy {
        UnknownEventPolicy::EmitAsUnknown => Ok(Some(map_unknown_update(update, context, config))),
        UnknownEventPolicy::DropWithWarning => Ok(None),
        UnknownEventPolicy::FailFast => {
            let mut message = String::from_str("unknown update type `");
            message.append(update.update_type.as_str());
            message.append("`");
            Err(AdapterFailure::new(BotronFailureClass::ChannelUnknownEvent, message))
        },
    }
}

} // verus!
