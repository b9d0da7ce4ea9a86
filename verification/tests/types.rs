use scry_protocol::database_event::{
    BackfillMetadata, ColumnMeta, ColumnValue, ControlDirective, DatabaseEvent,
    DatabaseEventBatch, DatabaseEventBuilder, OperationType, RelationMeta, ReplicaIdentity, Row,
    SequenceValue, TypeTag,
};

#[test]
fn test_type_tag_roundtrip() {
    for tag in [
        TypeTag::Null,
        TypeTag::Bool,
        TypeTag::Int32,
        TypeTag::Text,
        TypeTag::Uuid,
        TypeTag::Array,
        TypeTag::ToastUnchanged,
        TypeTag::Custom,
    ] {
        let byte = tag.to_byte();
        let recovered = TypeTag::from_byte(byte).unwrap();
        assert_eq!(tag, recovered);
    }
}

#[test]
fn test_operation_type_display() {
    assert_eq!(OperationType::Insert.to_string(), "INSERT");
    assert_eq!(OperationType::Update.to_string(), "UPDATE");
    assert_eq!(OperationType::Delete.to_string(), "DELETE");
    assert_eq!(OperationType::Begin.to_string(), "BEGIN");
    assert_eq!(OperationType::Commit.to_string(), "COMMIT");
    assert_eq!(OperationType::SnapshotRow.to_string(), "SNAPSHOT_ROW");
}

#[test]
fn test_replica_identity_pg_char() {
    assert_eq!(ReplicaIdentity::from_pg_char(b'd'), ReplicaIdentity::Default);
    assert_eq!(ReplicaIdentity::from_pg_char(b'f'), ReplicaIdentity::Full);
    assert_eq!(ReplicaIdentity::Full.to_pg_char(), b'f');
}

#[test]
fn test_column_value_null() {
    let null = ColumnValue::null();
    assert!(null.is_null());
    assert!(!null.is_unchanged());
    assert_eq!(null.as_bytes(), None);
}

#[test]
fn test_column_value_unchanged() {
    let unchanged = ColumnValue::unchanged(25); // TEXT type OID
    assert!(!unchanged.is_null());
    assert!(unchanged.is_unchanged());
    assert_eq!(unchanged.type_oid, 25);
    assert_eq!(unchanged.as_bytes(), None);
}

#[test]
fn test_column_value_with_data() {
    let data = vec![0x00, 0x01, 0x02, 0x03];
    let value = ColumnValue::from_pg_binary(TypeTag::Int32, 23, data.clone());
    assert!(!value.is_null());
    assert_eq!(value.as_bytes(), Some(data.as_slice()));
}

#[test]
fn test_row_size_bytes() {
    let row = Row::new(vec![
        ColumnValue::null(),
        ColumnValue::from_pg_binary(TypeTag::Int32, 23, vec![0, 0, 0, 42]),
    ]);
    assert!(row.size_bytes() > 0);
}

#[test]
fn test_database_event_batch() {
    let batch = DatabaseEventBatch::new()
        .with_source_id("test-source")
        .with_batch_seq(42);

    assert_eq!(batch.source_id, Some("test-source".to_string()));
    assert_eq!(batch.batch_seq, 42);
    assert!(!batch.is_control_batch());
}

#[test]
fn test_operation_type_control_directives() {
    // Test control directive operation types
    assert_eq!(OperationType::SequenceSync.to_string(), "SEQUENCE_SYNC");
    assert_eq!(OperationType::DisableForeignKeys.to_string(), "DISABLE_FOREIGN_KEYS");
    assert_eq!(OperationType::EnableForeignKeys.to_string(), "ENABLE_FOREIGN_KEYS");

    // Test from_byte roundtrip
    assert_eq!(OperationType::from_byte(30), Some(OperationType::SequenceSync));
    assert_eq!(OperationType::from_byte(31), Some(OperationType::DisableForeignKeys));
    assert_eq!(OperationType::from_byte(32), Some(OperationType::EnableForeignKeys));

    // Test is_control_directive
    assert!(OperationType::SequenceSync.is_control_directive());
    assert!(OperationType::DisableForeignKeys.is_control_directive());
    assert!(OperationType::EnableForeignKeys.is_control_directive());
    assert!(!OperationType::Insert.is_control_directive());
    assert!(!OperationType::SnapshotRow.is_control_directive());
}

#[test]
fn test_sequence_value() {
    let seq = SequenceValue::new("public", "users_id_seq", 100);
    assert_eq!(seq.schema, "public");
    assert_eq!(seq.name, "users_id_seq");
    assert_eq!(seq.last_value, 100);
    assert!(seq.is_called);
    assert_eq!(seq.increment_by, 1);
    assert_eq!(seq.qualified_name(), "public.users_id_seq");
}

#[test]
fn test_control_directive_display() {
    assert_eq!(ControlDirective::DisableForeignKeys.to_string(), "DISABLE_FOREIGN_KEYS");
    assert_eq!(ControlDirective::EnableForeignKeys.to_string(), "ENABLE_FOREIGN_KEYS");
    assert_eq!(ControlDirective::SyncSequences.to_string(), "SYNC_SEQUENCES");
}

#[test]
fn test_control_batch() {
    let batch = DatabaseEventBatch::control(ControlDirective::DisableForeignKeys)
        .with_source_id("backfill-001")
        .with_batch_seq(1);

    assert!(batch.is_control_batch());
    assert_eq!(batch.control_directive, Some(ControlDirective::DisableForeignKeys));
    assert!(batch.events.is_empty());
    assert!(batch.sequence_values.is_none());
}

#[test]
fn test_sequence_sync_batch() {
    let sequences = vec![
        SequenceValue::new("public", "users_id_seq", 100),
        SequenceValue::new("public", "orders_id_seq", 500),
    ];

    let batch = DatabaseEventBatch::sequence_sync(sequences)
        .with_source_id("backfill-001")
        .with_batch_seq(99);

    assert!(batch.is_control_batch());
    assert_eq!(batch.control_directive, Some(ControlDirective::SyncSequences));
    assert!(batch.events.is_empty());

    let seq_values = batch.sequence_values.as_ref().unwrap();
    assert_eq!(seq_values.len(), 2);
    assert_eq!(seq_values[0].qualified_name(), "public.users_id_seq");
    assert_eq!(seq_values[1].last_value, 500);
}

// Every tag and every operation reads back from its own byte, and bytes
// that carry none read back as nothing.
#[test]
fn byte_codes_roundtrip_and_reject_unknown_bytes() {
    let mut tags = 0;
    let mut ops = 0;
    for b in 0..=255u8 {
        if let Some(t) = TypeTag::from_byte(b) {
            assert_eq!(t.to_byte(), b);
            tags += 1;
        }
        if let Some(o) = OperationType::from_byte(b) {
            assert_eq!(o.to_byte(), b);
            ops += 1;
        }
    }
    assert_eq!(tags, 43);
    assert_eq!(ops, 17);
    assert_eq!(TypeTag::from_byte(19), None);
    assert_eq!(TypeTag::from_byte(128), None);
    assert_eq!(TypeTag::from_byte(100), Some(TypeTag::Array));
    assert_eq!(OperationType::from_byte(4), None);
    assert_eq!(OperationType::from_byte(36), Some(OperationType::BackfillStart));
    assert_eq!(OperationType::BackfillStart.to_byte(), 36);
}

#[test]
fn replica_identity_roundtrip_and_default() {
    for r in [
        ReplicaIdentity::Default,
        ReplicaIdentity::Nothing,
        ReplicaIdentity::Full,
        ReplicaIdentity::Index,
    ] {
        assert_eq!(ReplicaIdentity::from_pg_char(r.to_pg_char()), r);
    }
    assert_eq!(ReplicaIdentity::from_pg_char(b'x'), ReplicaIdentity::Default);
    assert_eq!(ReplicaIdentity::from_pg_char(b'n'), ReplicaIdentity::Nothing);
    assert_eq!(ReplicaIdentity::Index.to_pg_char(), b'i');
    assert_eq!(ReplicaIdentity::default(), ReplicaIdentity::Default);
}

#[test]
fn operation_kinds() {
    assert!(OperationType::BackfillComplete.is_control_directive());
    assert!(OperationType::BackfillStart.is_control_directive());
    assert!(!OperationType::Ddl.is_control_directive());
    assert!(OperationType::Ddl.is_ddl());
    assert!(!OperationType::DdlComplete.is_ddl());
    assert_eq!(OperationType::DdlComplete.to_string(), "DDL_COMPLETE");
    assert_eq!(OperationType::Truncate.to_string(), "TRUNCATE");
}

#[test]
fn size_estimates_are_exact() {
    let null = ColumnValue::null();
    assert_eq!(null.size_bytes(), 5);
    let value = ColumnValue::from_pg_binary(TypeTag::Int32, 23, vec![0, 0, 0, 42]);
    assert_eq!(value.size_bytes(), 9);
    let row = Row::new(vec![null, value]);
    assert_eq!(row.size_bytes(), 14);
    assert_eq!(Row::empty().size_bytes(), 0);
    assert_eq!(row.get(1).map(|v| v.type_oid), Some(23));
    assert!(row.get(2).is_none());

    let event = DatabaseEventBuilder::insert("public", "users")
        .columns(vec!["id".to_string(), "name".to_string()])
        .new_row(row.clone())
        .old_row(row)
        .build();
    // 64 + 6 + 5 + 14 + 14 + 2 + 4
    assert_eq!(event.size_bytes(), 109);

    let batch = DatabaseEventBatch::with_events(vec![event.clone(), event]);
    assert_eq!(batch.size_bytes(), 32 + 2 * 109);
    assert_eq!(DatabaseEventBatch::default().size_bytes(), 32);
}

#[test]
fn qualified_names_and_column_names() {
    let meta = RelationMeta {
        rel_id: 7,
        schema: "public".to_string(),
        table: "users".to_string(),
        columns: vec![
            ColumnMeta { name: "id".to_string(), type_oid: 23, type_modifier: -1, is_key: true },
            ColumnMeta { name: "name".to_string(), type_oid: 25, type_modifier: -1, is_key: false },
        ],
        replica_identity: ReplicaIdentity::Full,
    };
    assert_eq!(meta.qualified_name(), "public.users");
    assert_eq!(meta.column_names(), vec!["id", "name"]);
    let event: DatabaseEvent = DatabaseEventBuilder::delete("app", "orders").build();
    assert_eq!(event.qualified_name(), "app.orders");
}

#[test]
fn batch_setters() {
    let batch = DatabaseEventBatch::new()
        .with_control_directive(ControlDirective::EnableForeignKeys)
        .with_sequence_values(vec![SequenceValue::new("s", "q", 1)])
        .with_backfill_metadata(BackfillMetadata { table_count: 3, estimated_total_rows: 1000 });
    assert!(batch.is_control_batch());
    assert_eq!(batch.control_directive, Some(ControlDirective::EnableForeignKeys));
    assert_eq!(batch.sequence_values.as_ref().map(|v| v.len()), Some(1));
    assert_eq!(
        batch.backfill_metadata,
        Some(BackfillMetadata { table_count: 3, estimated_total_rows: 1000 })
    );
    assert_eq!(batch.batch_seq, 0);
    assert!(batch.source_id.is_none());
    let seq = SequenceValue::new("s", "q", 1);
    assert_eq!(seq.min_value, 1);
    assert_eq!(seq.max_value, i64::MAX);
}
