use application::journal::payload_hash;
use application::lanes::{LaneEnqueue, LaneMessageKind, LaneSink, StagingLaneSink};

fn json_text(key: &str, value: i64) -> String {
    let mut map = serde_json::Map::new();
    map.insert(key.to_string(), serde_json::Value::from(value));
    serde_json::Value::Object(map).to_string()
}

#[test]
fn payload_hash_discriminates_content_not_instance() {
    let a = payload_hash(&json_text("x", 1));
    let b = payload_hash(&json_text("x", 1));
    let c = payload_hash(&json_text("x", 2));
    assert_eq!(a, b);
    assert_ne!(a, c);
}

#[test]
fn payload_hash_is_the_lowercase_hex_sha256_of_the_text() {
    // SHA-256 of the empty text.
    assert_eq!(payload_hash(""), "e3b0c44298fc1c149afbf4c8996fb92427ae41e4649b934ca495991b7852b855");
    assert_eq!(payload_hash("{\"x\":1}").len(), 64);
}

fn intent(id: u128) -> LaneEnqueue {
    let mut payload = serde_json::Map::new();
    payload.insert("eventType".to_string(), serde_json::Value::from("OrderPlaced"));
    payload.insert("payload".to_string(), serde_json::Value::Object(serde_json::Map::new()));
    LaneEnqueue {
        kind: LaneMessageKind::Event,
        actor_type: "Order".to_string(),
        actor_id: id,
        message_type: "OrderPlaced".to_string(),
        payload: serde_json::Value::Object(payload).to_string(),
        source: "pm:PlaceOrderProcess:OrderPlaced".into(),
        external_id: uuid::Uuid::from_u128(id).to_string(),
    }
}

#[test]
fn the_door_kind_is_part_of_the_staged_intent() {
    let fact = intent(1);
    let request = LaneEnqueue { kind: LaneMessageKind::Command, ..intent(1) };
    assert_ne!(fact, request);
    assert_eq!(fact.kind.as_str(), "EVENT");
    assert_eq!(request.kind.as_str(), "COMMAND");
}

#[test]
fn staged_enqueues_drain_once_in_order() {
    let mut sink = StagingLaneSink::new();
    sink.stage(intent(1));
    sink.stage(intent(2));
    let first = sink.take_staged();
    assert_eq!(first, vec![intent(1), intent(2)]);
    assert!(sink.take_staged().is_empty(), "the buffer is consumed by the flush, once");
}
