//! Reading back batches of query events: the wire records that a FlexBuffers
//! decoder yields are turned into query events and batch metadata.

use vstd::prelude::*;

verus! {

/// Errors that can occur during deserialization.
#[derive(Debug)]
pub enum DeserializationError {
    /// The FlexBuffers decoder refused the bytes; its message.
    FlexBuffersError(String),
    /// A timestamp could not be represented; its description.
    InvalidTimestamp(String),
    /// A required field was absent; its name.
    MissingField(&'static str),
}

impl DeserializationError {
    /// The message of this error.
    pub open spec fn message(&self) -> Seq<char> {
        match self {
            DeserializationError::FlexBuffersError(m) => "FlexBuffers deserialization failed: "@ + m@,
            DeserializationError::InvalidTimestamp(m) => "Invalid timestamp: "@ + m@,
            DeserializationError::MissingField(f) => "Missing required field: "@ + f@,
        }
    }

    /// The message of this error, such as
    /// `Missing required field: proxy_id`.
    pub fn to_string(&self) -> (s: String)
        ensures
            s@ == self.message(),
    {
        match self {
            DeserializationError::FlexBuffersError(m) => {
                let mut s = "FlexBuffers deserialization failed: ".to_string();
                s.append(m.as_str());
                s
            },
            DeserializationError::InvalidTimestamp(m) => {
                let mut s = "Invalid timestamp: ".to_string();
                s.append(m.as_str());
                s
            },
            DeserializationError::MissingField(f) => {
                let mut s = "Missing required field: ".to_string();
                s.append(f);
                s
            },
        }
    }
}

/// A captured SQL query event, as the proxy reports it.
#[derive(Debug, Clone, PartialEq)]
pub struct QueryEvent {
    /// Unique identifier (UUID v4).
    pub event_id: String,
    /// When the query was received, in microseconds since the Unix epoch.
    pub timestamp_us: u64,
    /// The SQL query text (raw or anonymized).
    pub query: String,
    /// Normalized query with placeholders, if anonymization is enabled.
    pub normalized_query: Option<String>,
    /// Fingerprints of literal values, for hot data detection.
    pub value_fingerprints: Option<Vec<String>>,
    /// Query execution duration in microseconds.
    pub duration_us: u64,
    /// Number of rows affected or returned.
    pub rows: Option<u64>,
    /// Whether the query succeeded.
    pub success: bool,
    /// Error message if the query failed.
    pub error: Option<String>,
    /// Database name.
    pub database: String,
    /// Client connection identifier.
    pub connection_id: String,
}

/// One query event as it travels in a batch.
pub struct DeserializableEvent {
    pub event_id: String,
    pub timestamp_us: u64,
    pub query: String,
    pub normalized_query: Option<String>,
    pub value_fingerprints: Option<Vec<String>>,
    pub duration_us: u64,
    pub rows: Option<u64>,
    pub success: bool,
    pub error: Option<String>,
    pub database: String,
    pub connection_id: String,
}

/// A batch of query events as it travels.
pub struct QueryEventBatch {
    pub events: Vec<DeserializableEvent>,
    pub proxy_id: String,
    pub batch_seq: u64,
}

/// A deserialized batch of query events.
#[derive(Debug)]
pub struct DeserializedBatch {
    /// The events in this batch.
    pub events: Vec<QueryEvent>,
    /// Proxy instance identifier.
    pub proxy_id: String,
    /// Batch sequence number.
    pub batch_seq: u64,
}

/// `q` is the query event that the wire record `e` describes: every field
/// carries over, the timestamp and duration in microseconds.
pub open spec fn is_query_event_of(q: QueryEvent, e: DeserializableEvent) -> bool {
    &&& q.event_id == e.event_id
    &&& q.timestamp_us == e.timestamp_us
    &&& q.query == e.query
    &&& q.normalized_query == e.normalized_query
    &&& q.value_fingerprints == e.value_fingerprints
    &&& q.duration_us == e.duration_us
    &&& q.rows == e.rows
    &&& q.success == e.success
    &&& q.error == e.error
    &&& q.database == e.database
    &&& q.connection_id == e.connection_id
}

/// Deserializes batches of QueryEvents from FlexBuffers format.
pub struct FlexBuffersDeserializer;

impl FlexBuffersDeserializer {
    /// Turns one wire record into a query event.
    pub fn to_query_event(event: DeserializableEvent) -> (r: Result<QueryEvent, DeserializationError>)
        ensures
            r matches Ok(q) && is_query_event_of(q, event),
    {
        Ok(
            QueryEvent {
                event_id: event.event_id,
                timestamp_us: event.timestamp_us,
                query: event.query,
                normalized_query: event.normalized_query,
                value_fingerprints: event.value_fingerprints,
                duration_us: event.duration_us,
                rows: event.rows,
                success: event.success,
                error: event.error,
                database: event.database,
                connection_id: event.connection_id,
            },
        )
    }

    /// Turns a decoded wire batch into query events with the batch metadata:
    /// one event per record, in order.
    pub fn from_wire_batch(batch: QueryEventBatch) -> (r: Result<DeserializedBatch, DeserializationError>)
        ensures
            r matches Ok(d) && {
                &&& d.proxy_id == batch.proxy_id
                &&& d.batch_seq == batch.batch_seq
                &&& d.events@.len() == batch.events@.len()
                &&& forall|i: int|
                    0 <= i < d.events@.len() ==> is_query_event_of(
                        #[trigger] d.events@[i],
                        batch.events@[i],
                    )
            },
    {
        let ghost records = batch.events@;
        let mut events: Vec<QueryEvent> = Vec::new();
        for record in it: batch.events.into_iter()
            invariant
                it.seq() == records,
                events@.len() == it.index(),
                forall|i: int| 0 <= i < it.index() ==> is_query_event_of(#[trigger] events@[i], records[i]),
        {
            match Self::to_query_event(record) {
                Ok(q) => events.push(q),
                Err(e) => return Err(e),
            }
        }
        Ok(DeserializedBatch { events, proxy_id: batch.proxy_id, batch_seq: batch.batch_seq })
    }
}

} // verus!
