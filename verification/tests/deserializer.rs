use scry_protocol::deserializer::{DeserializableEvent, QueryEventBatch};
use scry_protocol::{DeserializationError, FlexBuffersDeserializer};

fn record(query: &str, rows: Option<u64>) -> DeserializableEvent {
    DeserializableEvent {
        event_id: "id-1".to_string(),
        timestamp_us: 1_700_000_000_123_456,
        query: query.to_string(),
        normalized_query: Some("SELECT ?".to_string()),
        value_fingerprints: Some(vec!["abc123hash".to_string()]),
        duration_us: 12345,
        rows,
        success: true,
        error: None,
        database: "db1".to_string(),
        connection_id: "conn-1".to_string(),
    }
}

#[test]
fn wire_record_becomes_query_event() {
    let event = FlexBuffersDeserializer::to_query_event(record("SELECT 1", Some(42))).unwrap();
    assert_eq!(event.event_id, "id-1");
    assert_eq!(event.timestamp_us, 1_700_000_000_123_456);
    assert_eq!(event.query, "SELECT 1");
    assert_eq!(event.normalized_query, Some("SELECT ?".to_string()));
    assert_eq!(event.value_fingerprints, Some(vec!["abc123hash".to_string()]));
    assert_eq!(event.duration_us, 12345);
    assert_eq!(event.rows, Some(42));
    assert!(event.success);
    assert!(event.error.is_none());
    assert_eq!(event.database, "db1");
    assert_eq!(event.connection_id, "conn-1");
}

#[test]
fn wire_batch_keeps_order_and_metadata() {
    let batch = QueryEventBatch {
        events: vec![record("SELECT 1", None), record("SELECT 2", Some(42))],
        proxy_id: "proxy-1".to_string(),
        batch_seq: 7,
    };
    let decoded = FlexBuffersDeserializer::from_wire_batch(batch).unwrap();
    assert_eq!(decoded.proxy_id, "proxy-1");
    assert_eq!(decoded.batch_seq, 7);
    assert_eq!(decoded.events.len(), 2);
    assert_eq!(decoded.events[0].query, "SELECT 1");
    assert_eq!(decoded.events[1].query, "SELECT 2");
    assert_eq!(decoded.events[1].rows, Some(42));

    let empty = QueryEventBatch { events: vec![], proxy_id: "p".to_string(), batch_seq: 0 };
    assert!(FlexBuffersDeserializer::from_wire_batch(empty).unwrap().events.is_empty());
}

#[test]
fn error_messages() {
    assert_eq!(
        DeserializationError::FlexBuffersError("bad root".to_string()).to_string(),
        "FlexBuffers deserialization failed: bad root"
    );
    assert_eq!(
        DeserializationError::InvalidTimestamp("too large".to_string()).to_string(),
        "Invalid timestamp: too large"
    );
    assert_eq!(
        DeserializationError::MissingField("proxy_id").to_string(),
        "Missing required field: proxy_id"
    );
}
