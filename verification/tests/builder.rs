use scry_protocol::database_event::{
    systemtime_to_us, BatchBuilder, ColumnMeta, ColumnValue, DatabaseEventBuilder, OperationType,
    RelationMeta, ReplicaIdentity, Row, SinceEpoch, TypeTag, UnixTime,
};
use std::time::{Duration, UNIX_EPOCH};

#[test]
fn test_event_builder() {
    let event = DatabaseEventBuilder::insert("public", "users")
        .position(12345)
        .transaction_id(100)
        .columns(vec!["id".to_string(), "name".to_string()])
        .new_row(Row::new(vec![
            ColumnValue::from_pg_binary(TypeTag::Int32, 23, vec![0, 0, 0, 1]),
            ColumnValue::from_pg_binary(TypeTag::Text, 25, b"Alice".to_vec()),
        ]))
        .build();

    assert_eq!(event.operation, OperationType::Insert);
    assert_eq!(event.schema, "public");
    assert_eq!(event.table, "users");
    assert_eq!(event.position, 12345);
}

#[test]
fn test_batch_builder() {
    let mut batch = BatchBuilder::new()
        .source_id("test")
        .max_events(2);

    let event1 = DatabaseEventBuilder::insert("public", "users").build();
    let event2 = DatabaseEventBuilder::insert("public", "users").build();
    let event3 = DatabaseEventBuilder::insert("public", "users").build();

    // First two events should not trigger flush
    assert!(batch.add_event(event1).is_none());
    assert!(batch.add_event(event2).is_none());

    // Third event should trigger flush
    let flushed = batch.add_event(event3);
    assert!(flushed.is_some());
    assert_eq!(flushed.unwrap().events.len(), 2);

    // Finish should return remaining event
    let remaining = batch.finish();
    assert!(remaining.is_some());
    assert_eq!(remaining.unwrap().events.len(), 1);
}

fn event_at(position: u64) -> scry_protocol::database_event::DatabaseEvent {
    DatabaseEventBuilder::update("s", "t").position(position).build()
}

// Events leave in the order they came, and the batches are numbered in turn.
#[test]
fn batches_keep_order_and_number_in_turn() {
    let mut builder = BatchBuilder::new().source_id("src").batch_seq(7).max_events(3);
    let mut batches = Vec::new();
    for p in 0..10u64 {
        if let Some(b) = builder.add_event(event_at(p)) {
            batches.push(b);
        }
    }
    if let Some(b) = builder.finish() {
        batches.push(b);
    }
    let sizes: Vec<usize> = batches.iter().map(|b| b.events.len()).collect();
    assert_eq!(sizes, vec![3, 3, 3, 1]);
    let seqs: Vec<u64> = batches.iter().map(|b| b.batch_seq).collect();
    assert_eq!(seqs, vec![7, 8, 9, 10]);
    let positions: Vec<u64> = batches.iter().flat_map(|b| b.events.iter().map(|e| e.position)).collect();
    assert_eq!(positions, (0..10u64).collect::<Vec<_>>());
    for b in &batches {
        assert_eq!(b.source_id, Some("src".to_string()));
        assert!(b.control_directive.is_none());
    }
}

// A batch is cut before an event that would take it past the byte limit; a
// single event larger than the limit still travels alone.
#[test]
fn byte_limit_cuts_batches() {
    // Each of these events is estimated at 64 + 1 + 1 = 66 bytes.
    let mut builder = BatchBuilder::new().max_bytes(140);
    assert!(builder.add_event(event_at(1)).is_none());
    assert!(builder.add_event(event_at(2)).is_none());
    assert_eq!(builder.len(), 2);
    let cut = builder.add_event(event_at(3)).expect("third event passes 140 bytes");
    assert_eq!(cut.events.len(), 2);
    assert_eq!(cut.batch_seq, 0);
    assert_eq!(builder.len(), 1);

    let mut tiny = BatchBuilder::new().max_bytes(10);
    assert!(tiny.add_event(event_at(1)).is_none());
    let cut = tiny.add_event(event_at(2)).expect("second event passes 10 bytes");
    assert_eq!(cut.events.len(), 1);
}

#[test]
fn flush_and_finish() {
    let mut builder = BatchBuilder::default();
    assert!(builder.is_empty());
    assert_eq!(builder.len(), 0);
    let empty = builder.flush();
    assert!(empty.events.is_empty());
    assert_eq!(empty.batch_seq, 0);
    assert!(builder.add_event(event_at(5)).is_none());
    assert!(!builder.is_empty());
    let batch = builder.flush();
    assert_eq!(batch.batch_seq, 1);
    assert_eq!(batch.events.len(), 1);
    assert!(builder.is_empty());
    assert!(builder.finish().is_none());
    assert_eq!(BatchBuilder::DEFAULT_MAX_EVENTS, 1000);
    assert_eq!(BatchBuilder::DEFAULT_MAX_BYTES, 1_000_000);
}

fn relation(rel_id: u32, table: &str) -> RelationMeta {
    RelationMeta {
        rel_id,
        schema: "public".to_string(),
        table: table.to_string(),
        columns: vec![ColumnMeta { name: "id".to_string(), type_oid: 23, type_modifier: -1, is_key: true }],
        replica_identity: ReplicaIdentity::Default,
    }
}

// A relation is kept once per relation ID, the first offer winning.
#[test]
fn relations_are_kept_once_per_id() {
    let mut builder = BatchBuilder::new();
    builder.add_relation(relation(1, "a"));
    builder.add_relation(relation(2, "b"));
    builder.add_relation(relation(1, "c"));
    builder.add_relation(relation(2, "b"));
    assert!(builder.add_event(event_at(0)).is_none());
    let batch = builder.finish().unwrap();
    let tables: Vec<&str> = batch.relations.iter().map(|r| r.table.as_str()).collect();
    assert_eq!(tables, vec!["a", "b"]);
}

#[test]
fn event_builders_fill_their_fields() {
    let begin = DatabaseEventBuilder::begin().transaction_id(9).build();
    assert_eq!(begin.operation, OperationType::Begin);
    assert_eq!(begin.schema, "");
    assert_eq!(begin.transaction_id, 9);
    let commit = DatabaseEventBuilder::commit().build();
    assert_eq!(commit.operation, OperationType::Commit);
    let ddl = DatabaseEventBuilder::ddl("CREATE TABLE t (id int)", "table").event_id("e-1").build();
    assert_eq!(ddl.operation, OperationType::Ddl);
    assert_eq!(ddl.ddl_sql.as_deref(), Some("CREATE TABLE t (id int)"));
    assert_eq!(ddl.ddl_object_type.as_deref(), Some("table"));
    assert_eq!(ddl.event_id.as_deref(), Some("e-1"));
    let snap = DatabaseEventBuilder::snapshot_row("s", "t").timestamp_us(42).build();
    assert_eq!(snap.operation, OperationType::SnapshotRow);
    assert_eq!(snap.timestamp_us, 42);
    let at = DatabaseEventBuilder::insert("s", "t")
        .timestamp(UnixTime::from_system_time(
            &(std::time::UNIX_EPOCH + std::time::Duration::from_micros(1_500_000)),
        ))
        .build();
    assert_eq!(at.timestamp_us, 1_500_000);
    let before = DatabaseEventBuilder::insert("s", "t")
        .timestamp(UnixTime::from_system_time(
            &(std::time::UNIX_EPOCH - std::time::Duration::from_secs(1)),
        ))
        .build();
    assert_eq!(before.timestamp_us, 0);
    let fresh = DatabaseEventBuilder::new(OperationType::Truncate, "s", "t")
        .relation_meta(relation(3, "t"))
        .build();
    assert_eq!(fresh.operation, OperationType::Truncate);
    assert!(fresh.timestamp_us > 0);
    assert_eq!(fresh.relation_meta.map(|m| m.rel_id), Some(3));
    assert!(fresh.event_id.is_none());
    assert!(fresh.new_row.is_none() && fresh.old_row.is_none());
}

fn at(time: std::time::SystemTime) -> u64 {
    DatabaseEventBuilder::begin().timestamp(UnixTime::from_system_time(&time)).build().timestamp_us
}

// The timestamp counts whole microseconds since the epoch; a time before the
// epoch counts as 0.
#[test]
fn timestamps_count_whole_microseconds() {
    assert_eq!(at(UNIX_EPOCH + Duration::from_nanos(1_999)), 1);
    assert_eq!(at(UNIX_EPOCH + Duration::from_secs(2)), 2_000_000);
    assert_eq!(at(UNIX_EPOCH - Duration::from_secs(1)), 0);
    assert_eq!(at(UNIX_EPOCH), 0);
    let t = UnixTime::from_system_time(&(UNIX_EPOCH + Duration::new(3, 4_500)));
    assert_eq!(t, UnixTime { since_epoch: Some(SinceEpoch { secs: 3, nanos: 4_500 }) });
    assert_eq!(systemtime_to_us(&t), 3_000_004);
    assert_eq!(systemtime_to_us(&UnixTime { since_epoch: None }), 0);
    // Past 64 bits of microseconds, the low bits are kept.
    let far = UnixTime { since_epoch: Some(SinceEpoch { secs: u64::MAX, nanos: 999_999_999 }) };
    let expected = ((u64::MAX as u128) * 1_000_000 + 999_999) as u64;
    assert_eq!(systemtime_to_us(&far), expected);
}

// Finishing cuts the batch that flushing would, even at the last sequence
// number.
#[test]
fn finish_gives_what_flush_would() {
    let mut a = BatchBuilder::new().source_id("x").batch_seq(4);
    let mut b = BatchBuilder::new().source_id("x").batch_seq(4);
    a.add_relation(relation(9, "r"));
    b.add_relation(relation(9, "r"));
    let e = event_at(1);
    assert!(a.add_event(e.clone()).is_none());
    assert!(b.add_event(e).is_none());
    let from_finish = a.finish().unwrap();
    let from_flush = b.flush();
    assert_eq!(from_finish, from_flush);
    assert_eq!(from_finish.batch_seq, 4);
    assert!(BatchBuilder::new().finish().is_none());
    let last = BatchBuilder::new().batch_seq(u64::MAX);
    let mut last = last;
    assert!(last.add_event(event_at(2)).is_none());
    assert_eq!(last.finish().unwrap().batch_seq, u64::MAX);
}

// Mixing additions, relations and flushes keeps every batch within the
// limits, and leaves at least one event pending after each addition.
#[test]
fn limits_hold_over_mixed_calls() {
    let mut builder = BatchBuilder::new().max_events(2).max_bytes(1_000);
    let mut cut = Vec::new();
    for p in 0..7u64 {
        if p % 3 == 0 {
            builder.add_relation(relation(p as u32, "t"));
        }
        if p == 4 {
            cut.push(builder.flush());
        }
        if let Some(b) = builder.add_event(event_at(p)) {
            cut.push(b);
        }
        assert!(builder.len() >= 1 && builder.len() <= 2);
    }
    for b in &cut {
        assert!(b.events.len() <= 2);
    }
    let sizes: Vec<usize> = cut.iter().map(|b| b.events.len()).collect();
    assert_eq!(sizes, vec![2, 2, 2]);
}
