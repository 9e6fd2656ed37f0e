use maxobot::adapter::AdapterContext;
use maxobot::attachment::LinkMetadata;
use maxobot::inbound::{map_lifecycle_update, map_message_or_callback, map_unknown_update};
use maxobot::adapter::AdapterConfig;
use maxobot::json::{JsonEntry, JsonNumber, JsonValue};
use maxobot::request_context::RequestContext;
use maxobot::update_envelope::{KnownUpdateType, UpdateEnvelope, UpdateSource, UpdateType};

fn text(s: &str) -> JsonValue {
    JsonValue::String(s.to_owned())
}

fn obj(items: Vec<(&str, JsonValue)>) -> JsonValue {
    JsonValue::Object(
        items
            .into_iter()
            .map(|(k, v)| JsonEntry { key: k.to_owned(), value: v })
            .collect(),
    )
}

fn keys(v: &JsonValue) -> Vec<String> {
    match v {
        JsonValue::Object(entries) => entries.iter().map(|e| e.key.clone()).collect(),
        other => panic!("expected an object, got {other:?}"),
    }
}

fn update(kind: UpdateType, payload: JsonValue) -> UpdateEnvelope {
    UpdateEnvelope {
        update_type: kind,
        timestamp: 5,
        payload: payload.clone(),
        raw: payload,
        source: UpdateSource::Polling,
    }
}

#[test]
fn event_payload_keys_come_in_map_order() {
    let payload = obj(vec![("chat_id", JsonValue::Number(JsonNumber::PosInt(1)))]);
    let message = map_message_or_callback(
        &update(UpdateType::Known(KnownUpdateType::MessageCreated), payload.clone()),
        AdapterContext::new(),
    )
    .expect("object payload")
    .expect("message update");
    assert_eq!(keys(&message.payload), vec!["channel_chat_id", "channel_user_id", "message_id", "raw", "timestamp"]);
    let lifecycle = map_lifecycle_update(
        &update(UpdateType::Known(KnownUpdateType::BotStarted), payload.clone()),
        AdapterContext::new(),
    )
    .expect("object payload")
    .expect("lifecycle update");
    assert_eq!(keys(&lifecycle.payload), vec!["actor_id", "chat_id", "raw", "timestamp", "title", "user_id"]);
    let unknown = map_unknown_update(
        &update(UpdateType::Unknown("future".to_owned()), payload),
        AdapterContext::new(),
        &AdapterConfig::default(),
    );
    assert_eq!(keys(&unknown.payload), vec!["raw_payload", "raw_update_type", "timestamp"]);
}

#[test]
fn link_json_merges_fields_and_extras_in_key_order() {
    let link = LinkMetadata::from_json(&obj(vec![
        ("url", text("https://a")),
        ("a_extra", text("x")),
        ("zz", JsonValue::Null),
    ]))
    .expect("valid link");
    let json = link.to_json();
    assert_eq!(keys(&json), vec!["a_extra", "description", "preview_url", "title", "url", "zz"]);
    assert_eq!(LinkMetadata::from_json(&json), Some(link));
}

#[test]
fn metadata_and_tags_stay_sorted_by_key() {
    let mut context = AdapterContext::new();
    context.insert_metadata("b".to_owned(), "2".to_owned());
    context.insert_metadata("a".to_owned(), "1".to_owned());
    context.insert_metadata("b".to_owned(), "3".to_owned());
    context.insert_metadata("ab".to_owned(), "4".to_owned());
    assert_eq!(
        context.metadata,
        vec![
            ("a".to_owned(), "1".to_owned()),
            ("ab".to_owned(), "4".to_owned()),
            ("b".to_owned(), "3".to_owned()),
        ]
    );
    let mut request = RequestContext::new("op");
    request.insert_tag("z", "1");
    request.insert_tag("Z", "2");
    request.insert_tag("é", "3");
    let names: Vec<&str> = request.tags.iter().map(|(k, _)| k.as_str()).collect();
    assert_eq!(names, vec!["Z", "z", "é"]);
}
