use maxobot::adapter::{
    translate_api_error, AdapterConfig, AdapterContext, AdapterFailure, BotronFailureClass,
    UnknownEventPolicy,
};
use maxobot::api_error::{ApiError, TransportError};
use maxobot::inbound::{map_inbound_update, map_lifecycle_update, map_message_or_callback, map_unknown_update};
use maxobot::json::{JsonEntry, JsonNumber, JsonValue};
use maxobot::message::{Message, MessageRecipient, MessageTarget};
use maxobot::new_message_body::NewMessageBody;
use maxobot::redaction::RedactionConfig;
use maxobot::requests::send_request_for;
use maxobot::update_envelope::{KnownUpdateType, UpdateEnvelope, UpdateSource, UpdateType};
use maxobot::update_telemetry::dispatch_event_from_update;

fn text(s: &str) -> JsonValue {
    JsonValue::String(s.to_owned())
}

fn num(n: i64) -> JsonValue {
    if n >= 0 {
        JsonValue::Number(JsonNumber::PosInt(n as u64))
    } else {
        JsonValue::Number(JsonNumber::NegInt(n))
    }
}

fn obj(items: Vec<(&str, JsonValue)>) -> JsonValue {
    JsonValue::Object(
        items
            .into_iter()
            .map(|(k, v)| JsonEntry { key: k.to_owned(), value: v })
            .collect(),
    )
}

fn member<'a>(v: &'a JsonValue, key: &str) -> &'a JsonValue {
    v.get(key).expect("member should exist")
}

fn update(kind: UpdateType, payload: JsonValue) -> UpdateEnvelope {
    UpdateEnvelope {
        update_type: kind,
        timestamp: 1_700_000_000_000,
        payload,
        raw: obj(vec![("raw", text("yes"))]),
        source: UpdateSource::Webhook,
    }
}

#[test]
fn dispatch_event_redacts_payload_fields() {
    let update = UpdateEnvelope {
        update_type: UpdateType::Unknown("future".to_owned()),
        timestamp: 1_700_000_100_000_i64,
        payload: obj(vec![("token", text("abc")), ("payload", obj(vec![("text", text("hello"))]))]),
        raw: obj(vec![]),
        source: UpdateSource::Webhook,
    };
    let event = dispatch_event_from_update(uuid::Uuid::now_v7(), &update, true, &RedactionConfig::default());

    assert_eq!(event.update_type, "future");
    assert!(event.handled);
    assert_eq!(member(&event.payload, "token"), &text("***"));
}

#[test]
fn message_created_maps_to_message_received() {
    let payload = obj(vec![("chat_id", num(10)), ("user_id", text("20")), ("message_id", text("m1"))]);
    let event = map_message_or_callback(
        &update(UpdateType::Known(KnownUpdateType::MessageCreated), payload.clone()),
        AdapterContext::new(),
    )
    .expect("payload is an object")
    .expect("message updates map");

    assert_eq!(event.event_name, "interaction.message.received");
    assert_eq!(event.context.channel, "max");
    assert_eq!(event.context.external_ids.update_type.as_deref(), Some("message_created"));
    assert_eq!(event.context.external_ids.chat_id.as_deref(), Some("10"));
    assert_eq!(event.context.external_ids.user_id.as_deref(), Some("20"));
    assert_eq!(event.context.external_ids.message_id.as_deref(), Some("m1"));
    assert_eq!(member(&event.payload, "channel_chat_id"), &num(10));
    assert_eq!(member(&event.payload, "timestamp"), &num(1_700_000_000_000));
    assert_eq!(member(&event.payload, "raw"), &payload);
}

#[test]
fn callback_reads_nested_payload_object() {
    let inner = obj(vec![("callback_id", text("cb")), ("payload", text("press"))]);
    let payload = obj(vec![("payload", inner)]);
    let event = map_message_or_callback(
        &update(UpdateType::Known(KnownUpdateType::MessageCallback), payload),
        AdapterContext::new(),
    )
    .unwrap()
    .unwrap();
    assert_eq!(event.event_name, "interaction.callback.received");
    assert_eq!(event.context.external_ids.callback_id.as_deref(), Some("cb"));
    assert_eq!(member(&event.payload, "payload"), &text("press"));
    assert_eq!(member(&event.payload, "message_id"), &JsonValue::Null);
}

#[test]
fn non_object_payload_is_a_contract_error() {
    let result = map_message_or_callback(
        &update(UpdateType::Known(KnownUpdateType::MessageCreated), text("x")),
        AdapterContext::new(),
    );
    assert_eq!(
        result.unwrap_err(),
        AdapterFailure {
            class: BotronFailureClass::ChannelContractError,
            message: "update payload is not an object".to_owned()
        }
    );
}

#[test]
fn lifecycle_updates_map_to_session_and_participant_events() {
    let payload = obj(vec![("chat_id", num(1)), ("title", text("New"))]);
    let started = map_lifecycle_update(
        &update(UpdateType::Known(KnownUpdateType::BotStarted), payload.clone()),
        AdapterContext::new(),
    )
    .unwrap()
    .unwrap();
    assert_eq!(started.event_name, "interaction.session.started");
    let added = map_lifecycle_update(
        &update(UpdateType::Known(KnownUpdateType::UserAdded), payload.clone()),
        AdapterContext::new(),
    )
    .unwrap()
    .unwrap();
    assert_eq!(added.event_name, "interaction.participant.changed");
    assert_eq!(added.context.external_ids.update_type.as_deref(), Some("user_added"));
    let renamed = map_lifecycle_update(
        &update(UpdateType::Known(KnownUpdateType::ChatTitleChanged), payload.clone()),
        AdapterContext::new(),
    )
    .unwrap()
    .unwrap();
    assert_eq!(renamed.event_name, "interaction.chat.updated");
    assert_eq!(member(&renamed.payload, "title"), &text("New"));
    assert_eq!(member(&renamed.payload, "actor_id"), &JsonValue::Null);
    let none = map_lifecycle_update(
        &update(UpdateType::Known(KnownUpdateType::MessageCreated), payload),
        AdapterContext::new(),
    )
    .unwrap();
    assert!(none.is_none());
}

#[test]
fn unknown_updates_follow_policy() {
    let up = update(UpdateType::Unknown("future".to_owned()), obj(vec![]));
    let emit = AdapterConfig::default();
    let event = map_inbound_update(&up, AdapterContext::new(), &emit).unwrap().unwrap();
    assert_eq!(event.event_name, "interaction.channel.unknown");
    assert_eq!(member(&event.payload, "raw_update_type"), &text("future"));
    assert_eq!(member(&event.payload, "raw_payload"), &obj(vec![("raw", text("yes"))]));

    let drop = AdapterConfig { unknown_event_policy: UnknownEventPolicy::DropWithWarning, ..emit };
    assert!(map_inbound_update(&up, AdapterContext::new(), &drop).unwrap().is_none());

    let fail = AdapterConfig { unknown_event_policy: UnknownEventPolicy::FailFast, ..emit };
    assert_eq!(
        map_inbound_update(&up, AdapterContext::new(), &fail).unwrap_err(),
        AdapterFailure {
            class: BotronFailureClass::ChannelUnknownEvent,
            message: "unknown update type `future`".to_owned()
        }
    );

    let no_raw = AdapterConfig { include_raw_payload: false, ..emit };
    let event = map_unknown_update(&up, AdapterContext::new(), &no_raw);
    assert_eq!(member(&event.payload, "raw_payload"), &JsonValue::Null);
}

#[test]
fn inbound_mapping_keeps_context_metadata() {
    let mut context = AdapterContext::new();
    context.insert_metadata("flow".to_owned(), "f1".to_owned());
    context.insert_metadata("flow".to_owned(), "f2".to_owned());
    let trace = context.trace_id;
    let up = update(
        UpdateType::Known(KnownUpdateType::MessageCreated),
        obj(vec![("chat_id", num(3))]),
    );
    let event = map_inbound_update(&up, context, &AdapterConfig::default()).unwrap().unwrap();
    assert_eq!(event.context.trace_id, trace);
    assert_eq!(event.context.metadata, vec![("flow".to_owned(), "f2".to_owned())]);
}

#[test]
fn api_errors_translate_to_failure_classes() {
    let status = |code: u16| ApiError::HttpStatus { status: code, code: None, message: None };
    assert_eq!(translate_api_error(&status(401)), BotronFailureClass::ChannelAuthFailed);
    assert_eq!(translate_api_error(&status(429)), BotronFailureClass::ChannelRateLimited);
    assert_eq!(translate_api_error(&status(503)), BotronFailureClass::ChannelProviderUnavailable);
    assert_eq!(translate_api_error(&status(404)), BotronFailureClass::ChannelContractError);
    assert_eq!(
        translate_api_error(&ApiError::QueryAuthenticationForbidden),
        BotronFailureClass::ChannelAuthFailed
    );
    assert_eq!(
        translate_api_error(&ApiError::Transport(TransportError {
            message: "reset".to_owned(),
            is_connect: false,
            is_timeout: false
        })),
        BotronFailureClass::ChannelTransportError
    );
    assert_eq!(
        translate_api_error(&ApiError::UrlJoinError { base: "b".to_owned(), path: "p".to_owned() }),
        BotronFailureClass::ChannelInternalError
    );
}

#[test]
fn send_request_needs_exactly_one_recipient() {
    let body = NewMessageBody::new().with_text("hi".to_owned());
    assert_eq!(send_request_for(Some(1), None, body.clone()).unwrap().chat_id, Some(1));
    assert_eq!(send_request_for(None, Some(2), body.clone()).unwrap().user_id, Some(2));
    assert_eq!(
        send_request_for(None, None, body).unwrap_err(),
        ApiError::InvalidConfiguration(
            "message send requires exactly one recipient: chat_id xor user_id".to_owned()
        )
    );
}

#[test]
fn message_target_answers_and_forwards() {
    let message = Message::from_parts(
        Some("m9".to_owned()),
        None,
        Some(MessageRecipient::from_parts(None, Some(4))),
        None,
        None,
        vec![],
    );
    let target = MessageTarget::from_message(&message).expect("id and recipient present");
    let answer = target
        .answer_request(NewMessageBody::new().with_text("ok".to_owned()))
        .unwrap();
    assert_eq!(answer.user_id, Some(4));
    assert_eq!(answer.chat_id, None);
    let forward = target.forward_request(Some(7), None).unwrap();
    assert_eq!(forward.chat_id, Some(7));
    assert_eq!(forward.body.text(), Some("Forwarded message m9"));
    assert!(target.forward_request(Some(7), Some(8)).is_err());
    let no_id = Message::from_parts(None, None, None, None, None, vec![]);
    assert_eq!(
        MessageTarget::from_message(&no_id).unwrap_err(),
        ApiError::InvalidConfiguration("message id is required for helper context".to_owned())
    );
}
