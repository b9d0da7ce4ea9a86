//! Database replication events (COPY rows, change data capture, proxy
//! traffic), the builders that assemble them and the batching rules.

pub mod builder;
pub mod reader;
pub mod types;

pub use builder::{systemtime_to_us, BatchBuilder, BuilderStep, DatabaseEventBuilder, SinceEpoch, UnixTime};
pub use reader::{read_root, ReadError};
pub use types::{
    BackfillMetadata, ColumnMeta, ColumnValue, ControlDirective, DatabaseEvent,
    DatabaseEventBatch, OperationType, RelationMeta, ReplicaIdentity, Row, SequenceValue, TypeTag,
};
