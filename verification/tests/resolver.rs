use rlink_kafka_sink::outcome::FatalError;
use rlink_kafka_sink::record::DecodedRecord;
use rlink_kafka_sink::resolver::{resolve_batch, resolve_topic};

fn rec(topic: &str, key: &[u8], payload: &[u8], timestamp: u64) -> DecodedRecord {
    DecodedRecord {
        timestamp,
        key: key.to_vec(),
        payload: payload.to_vec(),
        topic: topic.to_string(),
    }
}

#[test]
fn override_wins_over_embedded_topics() {
    let configured = Some("override-topic".to_string());
    let batch = vec![rec("t1", b"k1", b"p1", 1), rec("t2", b"k2", b"p2", 2)];
    let resolved = resolve_batch(&configured, &batch).unwrap();
    assert_eq!(resolved.len(), 2);
    assert_eq!(resolved[0].topic, "override-topic");
    assert_eq!(resolved[1].topic, "override-topic");
}

#[test]
fn embedded_topics_route_independently_without_override() {
    let batch = vec![rec("t1", b"k1", b"p1", 1), rec("t2", b"k2", b"p2", 2)];
    let resolved = resolve_batch(&None, &batch).unwrap();
    assert_eq!(resolved[0].topic, "t1");
    assert_eq!(resolved[1].topic, "t2");
}

#[test]
fn empty_topic_without_override_is_fatal() {
    assert_eq!(
        resolve_topic(&None, &"".to_string()),
        Err(FatalError::EmptyTopic)
    );
    let batch = vec![rec("t1", b"k", b"p", 1), rec("", b"k", b"p", 2)];
    assert_eq!(resolve_batch(&None, &batch), Err(FatalError::EmptyTopic));
}

#[test]
fn empty_override_is_fatal_even_with_embedded_topic() {
    // The override is used unconditionally, so an empty one cannot route
    // anything.
    let configured = Some("".to_string());
    assert_eq!(
        resolve_topic(&configured, &"t1".to_string()),
        Err(FatalError::EmptyTopic)
    );
}

#[test]
fn resolution_preserves_key_payload_and_timestamp() {
    let batch = vec![rec("t9", b"the-key", b"the-payload", 42)];
    let resolved = resolve_batch(&None, &batch).unwrap();
    assert_eq!(resolved[0].key, b"the-key".to_vec());
    assert_eq!(resolved[0].payload, b"the-payload".to_vec());
    assert_eq!(resolved[0].timestamp, 42);
    assert_eq!(resolved[0].topic, "t9");
}
