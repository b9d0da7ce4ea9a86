# scry_protocol

Event protocol for a SQL proxy, written in Verus.

- `src/database_event/types.rs`: type tags, operation kinds, replica
  identities, column values, rows, relation metadata, events and batches,
  with their byte codes, display names and size estimates.
- `src/database_event/builder.rs`: the event builder and the batch builder,
  whose batching rules (count limit, byte limit, sequence numbers, one
  relation per ID) are stated and proved.
- `src/database_event/reader.rs`: locating the root of a FlexBuffers payload.
- `src/deserializer.rs`: turning decoded wire records into query events.
- `src/param.rs`: UUID hex text and base64 payload encodings, with the UUID
  round trip proved.
- `app/`: serde copies of the types, the FlexBuffers readers and writers, and
  the parameter value type, which carries floats.
