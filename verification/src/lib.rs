//! Event protocol for a SQL proxy: query and database replication events,
//! the batching rules that group them for transport, and the value
//! encodings that travel with them.

pub mod database_event;
pub mod param;
pub mod deserializer;

pub use deserializer::{DeserializationError, DeserializedBatch, FlexBuffersDeserializer, QueryEvent};
