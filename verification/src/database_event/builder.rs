//! Builders for constructing database events and for grouping events into
//! batches under a count limit and a size limit.

use std::time::{Duration, SystemTime, UNIX_EPOCH};
use vstd::prelude::*;

use super::types::{
    event_size, lemma_seq_sum_push, seq_sum, DatabaseEvent, DatabaseEventBatch,
    OperationType, RelationMeta, Row,
};

verus! {

#[verifier::external_type_specification]
#[verifier::external_body]
pub struct ExSystemTime(SystemTime);

/// `SystemTime::now`: the current time of the machine's clock. Nothing is
/// promised of it.
#[verifier::external_body]
fn system_time_now() -> SystemTime {
    SystemTime::now()
}

/// What `SystemTime::duration_since(UNIX_EPOCH)` gives for a time: the
/// duration since the epoch, or `None` (its error) for a time before it.
pub uninterp spec fn duration_since_epoch_of(time: SystemTime) -> Option<Duration>;

/// What `Duration::as_secs` gives: the whole seconds of a duration.
pub uninterp spec fn whole_secs_of(d: Duration) -> u64;

/// What `Duration::subsec_nanos` gives: the nanoseconds of a duration beyond
/// its whole seconds.
pub uninterp spec fn subsec_nanos_of(d: Duration) -> u32;

/// `SystemTime::duration_since(UNIX_EPOCH)`, with the error of a time before
/// the epoch turned into `None`: the result is named by
/// `duration_since_epoch_of` of the time, which it depends on alone.
#[verifier::external_body]
fn duration_since_unix_epoch(time: &SystemTime) -> (r: Option<Duration>)
    ensures
        r == duration_since_epoch_of(*time),
{
    time.duration_since(UNIX_EPOCH).ok()
}

/// `Duration::as_secs`: the whole seconds of a duration, named by
/// `whole_secs_of`.
#[verifier::external_body]
fn duration_secs(d: &Duration) -> (n: u64)
    ensures
        n == whole_secs_of(*d),
{
    d.as_secs()
}

/// `Duration::subsec_nanos`: the fractional part of a duration in
/// nanoseconds, named by `subsec_nanos_of`; std documents it as always less
/// than one billion.
#[verifier::external_body]
fn duration_subsec_nanos(d: &Duration) -> (n: u32)
    ensures
        n == subsec_nanos_of(*d),
        n < 1_000_000_000,
{
    d.subsec_nanos()
}

/// A span of time after the Unix epoch: whole seconds and the nanoseconds
/// beyond them.
#[derive(Debug, Clone, Copy, PartialEq, Eq)]
pub struct SinceEpoch {
    /// Whole seconds.
    pub secs: u64,
    /// Nanoseconds beyond the whole seconds.
    pub nanos: u32,
}

/// A point in time, as its offset from the Unix epoch; `None` for a time
/// before the epoch.
#[derive(Debug, Clone, Copy, PartialEq, Eq)]
pub struct UnixTime {
    /// The offset from the epoch, if the time is not before it.
    pub since_epoch: Option<SinceEpoch>,
}

/// The whole microseconds of a span after the epoch.
pub open spec fn whole_micros(d: SinceEpoch) -> int {
    d.secs * 1_000_000 + d.nanos / 1000
}

/// The timestamp of a point in time: whole microseconds since the Unix
/// epoch, cut to their low 64 bits; 0 for a time before the epoch.
pub open spec fn unix_micros(t: UnixTime) -> u64 {
    match t.since_epoch {
        Some(d) => (whole_micros(d) % 0x1_0000_0000_0000_0000) as u64,
        None => 0,
    }
}

/// The offset of a time from the Unix epoch, in whole seconds and the
/// nanoseconds beyond them; `None` for a time before the epoch.
pub open spec fn offset_from_epoch(time: SystemTime) -> Option<SinceEpoch> {
    match duration_since_epoch_of(time) {
        Some(d) => Some(SinceEpoch { secs: whole_secs_of(d), nanos: subsec_nanos_of(d) }),
        None => None,
    }
}

impl UnixTime {
    /// Reads a `SystemTime` as its offset from the Unix epoch; its
    /// nanoseconds are below one billion.
    pub fn from_system_time(time: &SystemTime) -> (t: UnixTime)
        ensures
            t.since_epoch == offset_from_epoch(*time),
            t.since_epoch matches Some(d) ==> d.nanos < 1_000_000_000,
    {
        match duration_since_unix_epoch(time) {
            Some(d) => UnixTime {
                since_epoch: Some(SinceEpoch { secs: duration_secs(&d), nanos: duration_subsec_nanos(&d) }),
            },
            None => UnixTime { since_epoch: None },
        }
    }
}

/// Timestamps count microseconds: the epoch itself is 0, a time before the
/// epoch is 0, each further whole second adds 1_000_000 and each further
/// thousand nanoseconds adds 1, as long as the count fits in 64 bits.
pub proof fn lemma_unix_micros_scale(secs: u64, nanos: u32)
    requires
        secs * 1_000_000 + nanos / 1000 + 1_000_000 < 0x1_0000_0000_0000_0000,
        nanos + 1000 <= u32::MAX,
    ensures
        unix_micros(UnixTime { since_epoch: None }) == 0,
        unix_micros(UnixTime { since_epoch: Some(SinceEpoch { secs: 0, nanos: 0 }) }) == 0,
        unix_micros(UnixTime { since_epoch: Some(SinceEpoch { secs: 0, nanos: nanos }) }) == nanos
            / 1000,
        secs < u64::MAX ==> unix_micros(
            UnixTime { since_epoch: Some(SinceEpoch { secs: (secs + 1) as u64, nanos }) },
        ) == unix_micros(UnixTime { since_epoch: Some(SinceEpoch { secs, nanos }) }) + 1_000_000,
        unix_micros(UnixTime { since_epoch: Some(SinceEpoch { secs, nanos: (nanos + 1000) as u32 }) })
            == unix_micros(UnixTime { since_epoch: Some(SinceEpoch { secs, nanos }) }) + 1,
{
    let m = secs * 1_000_000 + nanos / 1000;
    assert(m < 0x1_0000_0000_0000_0000);
    assert(((nanos + 1000) as u32) / 1000 == nanos / 1000 + 1);
}

/// Microseconds since the Unix epoch, truncated to 64 bits; 0 for a time
/// before the epoch.
pub fn systemtime_to_us(time: &UnixTime) -> (us: u64)
    ensures
        us == unix_micros(*time),
{
    match time.since_epoch {
        Some(d) => {
            let micros: u128 = (d.secs as u128) * 1_000_000 + (d.nanos / 1000) as u128;
            let low: u128 = micros % 0x1_0000_0000_0000_0000;
            low as u64
        },
        None => 0,
    }
}

/// Whether `us` is the timestamp of some system time: its whole
/// microseconds since the Unix epoch, cut to 64 bits, or 0 before the epoch.
pub open spec fn is_clock_timestamp(us: u64) -> bool {
    exists|time: SystemTime|
        us == unix_micros(UnixTime { since_epoch: #[trigger] offset_from_epoch(time) })
}

/// The current time in microseconds since the Unix epoch: the timestamp of
/// a clock reading, which is itself not stated.
fn current_timestamp_us() -> (us: u64)
    ensures
        is_clock_timestamp(us),
{
    let now = system_time_now();
    let t = UnixTime::from_system_time(&now);
    let us = systemtime_to_us(&t);
    proof {
        assert(us == unix_micros(UnixTime { since_epoch: offset_from_epoch(now) }));
    }
    us
}

/// Whether `e` is the event that a builder starts from: operation `op` on
/// `schema.table`, with no identifier, position, transaction, rows, columns,
/// relation metadata or DDL text. Its timestamp is free.
pub open spec fn is_fresh_event(
    e: DatabaseEvent,
    op: OperationType,
    schema: Seq<char>,
    table: Seq<char>,
) -> bool {
    &&& e.event_id is None
    &&& e.operation == op
    &&& e.schema@ == schema
    &&& e.table@ == table
    &&& e.position == 0
    &&& e.transaction_id == 0
    &&& e.new_row is None
    &&& e.old_row is None
    &&& e.columns@.len() == 0
    &&& e.relation_meta is None
    &&& e.ddl_sql is None
    &&& e.ddl_object_type is None
}

/// Builder for constructing a single DatabaseEvent.
pub struct DatabaseEventBuilder {
    event: DatabaseEvent,
}

impl View for DatabaseEventBuilder {
    type V = DatabaseEvent;

    /// The event under construction.
    closed spec fn view(&self) -> DatabaseEvent {
        self.event
    }
}

impl DatabaseEventBuilder {
    /// Create a new builder for an operation on `schema.table`, stamped with
    /// the current time.
    pub fn new(operation: OperationType, schema: &str, table: &str) -> (b: Self)
        ensures
            is_fresh_event(b@, operation, schema@, table@),
            is_clock_timestamp(b@.timestamp_us),
    {
        DatabaseEventBuilder {
            event: DatabaseEvent {
                event_id: None,
                timestamp_us: current_timestamp_us(),
                operation,
                schema: schema.to_string(),
                table: table.to_string(),
                position: 0,
                transaction_id: 0,
                new_row: None,
                old_row: None,
                columns: Vec::new(),
                relation_meta: None,
                ddl_sql: None,
                ddl_object_type: None,
            },
        }
    }

    /// Create a builder for an INSERT event.
    pub fn insert(schema: &str, table: &str) -> (b: Self)
        ensures
            is_fresh_event(b@, OperationType::Insert, schema@, table@),
            is_clock_timestamp(b@.timestamp_us),
    {
        Self::new(OperationType::Insert, schema, table)
    }

    /// Create a builder for an UPDATE event.
    pub fn update(schema: &str, table: &str) -> (b: Self)
        ensures
            is_fresh_event(b@, OperationType::Update, schema@, table@),
            is_clock_timestamp(b@.timestamp_us),
    {
        Self::new(OperationType::Update, schema, table)
    }

    /// Create a builder for a DELETE event.
    pub fn delete(schema: &str, table: &str) -> (b: Self)
        ensures
            is_fresh_event(b@, OperationType::Delete, schema@, table@),
            is_clock_timestamp(b@.timestamp_us),
    {
        Self::new(OperationType::Delete, schema, table)
    }

    /// Create a builder for a snapshot row.
    pub fn snapshot_row(schema: &str, table: &str) -> (b: Self)
        ensures
            is_fresh_event(b@, OperationType::SnapshotRow, schema@, table@),
            is_clock_timestamp(b@.timestamp_us),
    {
        Self::new(OperationType::SnapshotRow, schema, table)
    }

    /// Create a builder for BEGIN transaction.
    pub fn begin() -> (b: Self)
        ensures
            is_fresh_event(b@, OperationType::Begin, Seq::empty(), Seq::empty()),
            is_clock_timestamp(b@.timestamp_us),
    {
        proof {
            reveal_strlit("");
            assert(""@ =~= Seq::<char>::empty());
        }
        Self::new(OperationType::Begin, "", "")
    }

    /// Create a builder for COMMIT transaction.
    pub fn commit() -> (b: Self)
        ensures
            is_fresh_event(b@, OperationType::Commit, Seq::empty(), Seq::empty()),
            is_clock_timestamp(b@.timestamp_us),
    {
        proof {
            reveal_strlit("");
            assert(""@ =~= Seq::<char>::empty());
        }
        Self::new(OperationType::Commit, "", "")
    }

    /// Create a builder for a DDL event.
    pub fn ddl(sql: &str, object_type: &str) -> (b: Self)
        ensures
            is_fresh_event(
                (DatabaseEvent { ddl_sql: None, ddl_object_type: None, ..b@ }),
                OperationType::Ddl,
                Seq::empty(),
                Seq::empty(),
            ),
            b@.ddl_sql matches Some(s) && s@ == sql@,
            b@.ddl_object_type matches Some(s) && s@ == object_type@,
            is_clock_timestamp(b@.timestamp_us),
    {
        proof {
            reveal_strlit("");
            assert(""@ =~= Seq::<char>::empty());
        }
        let mut builder = Self::new(OperationType::Ddl, "", "");
        builder.event.ddl_sql = Some(sql.to_string());
        builder.event.ddl_object_type = Some(object_type.to_string());
        builder
    }

    /// Set the event ID.
    pub fn event_id(self, id: &str) -> (b: Self)
        ensures
            b@.event_id matches Some(s) && s@ == id@,
            b@ == (DatabaseEvent { event_id: b@.event_id, ..self@ }),
    {
        let mut b = self;
        b.event.event_id = Some(id.to_string());
        b
    }

    /// Set the timestamp in microseconds.
    pub fn timestamp_us(self, ts: u64) -> (b: Self)
        ensures
            b@ == (DatabaseEvent { timestamp_us: ts, ..self@ }),
    {
        let mut b = self;
        b.event.timestamp_us = ts;
        b
    }

    /// Set the timestamp from a point in time: microseconds since the Unix
    /// epoch, cut to 64 bits, or 0 for a time before it.
    pub fn timestamp(self, ts: UnixTime) -> (b: Self)
        ensures
            b@ == (DatabaseEvent { timestamp_us: unix_micros(ts), ..self@ }),
    {
        let mut b = self;
        b.event.timestamp_us = systemtime_to_us(&ts);
        b
    }

    /// Set the replication position (LSN).
    pub fn position(self, pos: u64) -> (b: Self)
        ensures
            b@ == (DatabaseEvent { position: pos, ..self@ }),
    {
        let mut b = self;
        b.event.position = pos;
        b
    }

    /// Set the transaction ID.
    pub fn transaction_id(self, xid: u64) -> (b: Self)
        ensures
            b@ == (DatabaseEvent { transaction_id: xid, ..self@ }),
    {
        let mut b = self;
        b.event.transaction_id = xid;
        b
    }

    /// Set the new row data.
    pub fn new_row(self, row: Row) -> (b: Self)
        ensures
            b@ == (DatabaseEvent { new_row: Some(row), ..self@ }),
    {
        let mut b = self;
        b.event.new_row = Some(row);
        b
    }

    /// Set the old row data.
    pub fn old_row(self, row: Row) -> (b: Self)
        ensures
            b@ == (DatabaseEvent { old_row: Some(row), ..self@ }),
    {
        let mut b = self;
        b.event.old_row = Some(row);
        b
    }

    /// Set column names.
    pub fn columns(self, columns: Vec<String>) -> (b: Self)
        ensures
            b@ == (DatabaseEvent { columns: columns, ..self@ }),
    {
        let mut b = self;
        b.event.columns = columns;
        b
    }

    /// Set relation metadata.
    pub fn relation_meta(self, meta: RelationMeta) -> (b: Self)
        ensures
            b@ == (DatabaseEvent { relation_meta: Some(meta), ..self@ }),
    {
        let mut b = self;
        b.event.relation_meta = Some(meta);
        b
    }

    /// Build the event.
    pub fn build(self) -> (e: DatabaseEvent)
        ensures
            e == self@,
    {
        self.event
    }
}

/// What a batch builder holds: the pending events and relations, the
/// source identifier, the next batch sequence number and the two limits.
pub struct BatchBuilderState {
    pub events: Seq<DatabaseEvent>,
    pub relations: Seq<RelationMeta>,
    pub source_id: Option<String>,
    pub batch_seq: u64,
    pub max_events: usize,
    pub max_bytes: usize,
}

/// The estimated size of a sequence of events.
pub open spec fn events_size(events: Seq<DatabaseEvent>) -> nat {
    seq_sum(events, event_size())
}

/// No two relations share a relation ID.
pub open spec fn distinct_rel_ids(rels: Seq<RelationMeta>) -> bool {
    forall|i: int, j: int|
        0 <= i < j < rels.len() ==> #[trigger] rels[i].rel_id != #[trigger] rels[j].rel_id
}

/// Some relation in `rels` has the ID `rel_id`.
pub open spec fn has_rel_id(rels: Seq<RelationMeta>, rel_id: u32) -> bool {
    exists|i: int| 0 <= i < rels.len() && #[trigger] rels[i].rel_id == rel_id
}

/// The relations after offering `meta`: it is appended unless a relation
/// with its ID is already there.
pub open spec fn relations_after(rels: Seq<RelationMeta>, meta: RelationMeta) -> Seq<RelationMeta> {
    if has_rel_id(rels, meta.rel_id) {
        rels
    } else {
        rels.push(meta)
    }
}

/// Events that fit a batch: at most `max_events` of them (one at least is
/// always let in), and within `max_bytes` unless a single event is alone.
pub open spec fn within_limits(events: Seq<DatabaseEvent>, max_events: nat, max_bytes: nat) -> bool {
    &&& events.len() <= max_events || events.len() <= 1
    &&& events.len() > 1 ==> events_size(events) <= max_bytes
}

/// `b` is the batch cut from state `st`: its pending events and relations,
/// its source and sequence number, and no directive or payload.
pub open spec fn is_batch_of(b: DatabaseEventBatch, st: BatchBuilderState) -> bool {
    &&& b.events@ == st.events
    &&& b.relations@ == st.relations
    &&& b.source_id == st.source_id
    &&& b.batch_seq == st.batch_seq
    &&& b.control_directive is None
    &&& b.sequence_values is None
    &&& b.backfill_metadata is None
}

/// Whether adding `event` to state `st` cuts the pending events into a
/// batch first: there are pending events, and either their count has reached
/// the limit or the event would take their size past the byte limit.
pub open spec fn flushes_before(st: BatchBuilderState, event: DatabaseEvent) -> bool {
    &&& st.events.len() > 0
    &&& (st.events.len() >= st.max_events || events_size(st.events) + event.size() > st.max_bytes)
}

/// The state after adding `event` to `st`: when a batch is cut, the event
/// starts the next one under the next sequence number; otherwise it joins
/// the pending events.
pub open spec fn after_add(st: BatchBuilderState, event: DatabaseEvent) -> BatchBuilderState {
    if flushes_before(st, event) {
        BatchBuilderState {
            events: seq![event],
            relations: Seq::empty(),
            batch_seq: (st.batch_seq + 1) as u64,
            ..st
        }
    } else {
        BatchBuilderState { events: st.events.push(event), ..st }
    }
}

/// Adding an event cuts a batch exactly when events are pending and either
/// their count has reached `max_events` or their estimated size with the
/// event's would pass `max_bytes`. Otherwise the event joins the pending ones
/// under the same sequence number; when a batch is cut, the event alone is
/// pending and the sequence number advances by one.
pub proof fn lemma_add_cuts_only_at_limits(st: BatchBuilderState, event: DatabaseEvent)
    ensures
        (st.events.len() == 0 || (st.events.len() < st.max_events && events_size(st.events)
            + event.size() <= st.max_bytes)) ==> {
            &&& after_add(st, event).events == st.events.push(event)
            &&& after_add(st, event).batch_seq == st.batch_seq
            &&& after_add(st, event).relations == st.relations
        },
        (st.events.len() > 0 && (st.events.len() >= st.max_events || events_size(st.events)
            + event.size() > st.max_bytes)) ==> {
            &&& after_add(st, event).events == seq![event]
            &&& after_add(st, event).relations == Seq::<RelationMeta>::empty()
            &&& st.batch_seq < u64::MAX ==> after_add(st, event).batch_seq == st.batch_seq + 1
        },
        after_add(st, event).max_events == st.max_events,
        after_add(st, event).max_bytes == st.max_bytes,
        after_add(st, event).source_id == st.source_id,
{
}

/// The state after adding each of `events` in turn.
pub open spec fn run_adds(st: BatchBuilderState, events: Seq<DatabaseEvent>) -> BatchBuilderState
    decreases events.len(),
{
    if events.len() == 0 {
        st
    } else {
        after_add(run_adds(st, events.drop_last()), events.last())
    }
}

/// The states from which batches are cut while adding each of `events` in
/// turn, in the order the batches leave; each batch is the state's pending
/// events under its sequence number.
pub open spec fn cut_states(st: BatchBuilderState, events: Seq<DatabaseEvent>) -> Seq<BatchBuilderState>
    decreases events.len(),
{
    if events.len() == 0 {
        Seq::empty()
    } else {
        let before = run_adds(st, events.drop_last());
        let earlier = cut_states(st, events.drop_last());
        if flushes_before(before, events.last()) {
            earlier.push(before)
        } else {
            earlier
        }
    }
}

/// The events of a sequence of states, one state after the other.
pub open spec fn all_events(states: Seq<BatchBuilderState>) -> Seq<DatabaseEvent>
    decreases states.len(),
{
    if states.len() == 0 {
        Seq::empty()
    } else {
        all_events(states.drop_last()) + states.last().events
    }
}

/// Adding events in turn keeps the limits and the source, and the sequence
/// number advances by one per batch cut.
proof fn lemma_run_adds_frame(st: BatchBuilderState, events: Seq<DatabaseEvent>)
    ensures
        run_adds(st, events).max_events == st.max_events,
        run_adds(st, events).max_bytes == st.max_bytes,
        run_adds(st, events).source_id == st.source_id,
        st.batch_seq + cut_states(st, events).len() <= u64::MAX ==> run_adds(st, events).batch_seq
            == st.batch_seq + cut_states(st, events).len(),
        cut_states(st, events).len() <= events.len(),
        events.len() > 0 ==> cut_states(st, events.drop_last()).len() <= cut_states(st, events).len(),
    decreases events.len(),
{
    if events.len() > 0 {
        lemma_run_adds_frame(st, events.drop_last());
    }
}

/// No event is lost, duplicated or reordered over any run of additions: the
/// batches cut, one after the other, followed by the events still pending,
/// are the pending events at the start followed by the events added.
pub proof fn lemma_batching_keeps_events(st: BatchBuilderState, events: Seq<DatabaseEvent>)
    ensures
        all_events(cut_states(st, events)) + run_adds(st, events).events == st.events + events,
    decreases events.len(),
{
    if events.len() == 0 {
        assert(st.events + events =~= st.events);
        assert(all_events(Seq::<BatchBuilderState>::empty()) + st.events =~= st.events);
    } else {
        let init = events.drop_last();
        let e = events.last();
        lemma_batching_keeps_events(st, init);
        let before = run_adds(st, init);
        let earlier = cut_states(st, init);
        assert(events =~= init.push(e));
        if flushes_before(before, e) {
            assert(cut_states(st, events).drop_last() =~= earlier);
            assert(all_events(cut_states(st, events)) == all_events(earlier) + before.events);
            assert(all_events(earlier) + before.events + seq![e] =~= st.events + init + seq![e]);
            assert(st.events + events =~= st.events + init + seq![e]);
        } else {
            assert(all_events(earlier) + before.events.push(e) =~= (all_events(earlier)
                + before.events).push(e));
            assert(st.events + events =~= (st.events + init).push(e));
        }
    }
}

/// Over any run of additions the batches carry consecutive sequence numbers,
/// starting from the builder's, as long as the batches cut do not number
/// past `u64::MAX`.
pub proof fn lemma_batching_numbers_in_turn(st: BatchBuilderState, events: Seq<DatabaseEvent>)
    requires
        st.batch_seq + cut_states(st, events).len() <= u64::MAX,
    ensures
        forall|j: int|
            0 <= j < cut_states(st, events).len() ==> #[trigger] cut_states(st, events)[j].batch_seq
                == st.batch_seq + j,
        run_adds(st, events).batch_seq == st.batch_seq + cut_states(st, events).len(),
    decreases events.len(),
{
    lemma_run_adds_frame(st, events);
    if events.len() > 0 {
        let init = events.drop_last();
        lemma_batching_numbers_in_turn(st, init);
        lemma_run_adds_frame(st, init);
    }
}

/// Over any run of additions to a builder within its limits, every batch cut
/// holds at least one event and is within the limits, and so are the events
/// still pending; a run that adds something leaves at least one pending.
pub proof fn lemma_batching_within_limits(st: BatchBuilderState, events: Seq<DatabaseEvent>)
    requires
        within_limits(st.events, st.max_events as nat, st.max_bytes as nat),
    ensures
        within_limits(run_adds(st, events).events, st.max_events as nat, st.max_bytes as nat),
        events.len() > 0 ==> run_adds(st, events).events.len() >= 1,
        forall|j: int|
            0 <= j < cut_states(st, events).len() ==> {
                &&& (#[trigger] cut_states(st, events)[j]).events.len() >= 1
                &&& within_limits(cut_states(st, events)[j].events, st.max_events as nat, st.max_bytes as nat)
            },
    decreases events.len(),
{
    lemma_run_adds_frame(st, events);
    if events.len() > 0 {
        let init = events.drop_last();
        let e = events.last();
        lemma_batching_within_limits(st, init);
        lemma_run_adds_frame(st, init);
        let before = run_adds(st, init);
        if !flushes_before(before, e) {
            lemma_seq_sum_push(before.events, event_size(), e);
        } else {
            lemma_seq_sum_push(Seq::<DatabaseEvent>::empty(), event_size(), e);
            assert(Seq::<DatabaseEvent>::empty().push(e) =~= seq![e]);
        }
    }
}

/// One call on a batch builder that changes it: adding an event, offering
/// a relation, or flushing.
pub enum BuilderStep {
    AddEvent(DatabaseEvent),
    AddRelation(RelationMeta),
    Flush,
}

/// The state after one step, as `add_event`, `add_relation` and `flush`
/// state it.
pub open spec fn apply_step(st: BatchBuilderState, step: BuilderStep) -> BatchBuilderState {
    match step {
        BuilderStep::AddEvent(e) => after_add(st, e),
        BuilderStep::AddRelation(m) => BatchBuilderState {
            relations: relations_after(st.relations, m),
            ..st
        },
        BuilderStep::Flush => BatchBuilderState {
            events: Seq::empty(),
            relations: Seq::empty(),
            batch_seq: (st.batch_seq + 1) as u64,
            ..st
        },
    }
}

/// The state after each of `steps` in turn.
pub open spec fn run_steps(st: BatchBuilderState, steps: Seq<BuilderStep>) -> BatchBuilderState
    decreases steps.len(),
{
    if steps.len() == 0 {
        st
    } else {
        apply_step(run_steps(st, steps.drop_last()), steps.last())
    }
}

/// What the limits promise of one step taken from `st`: the events pending
/// after it are within the limits; after adding an event at least one is
/// pending, and a batch that the addition cuts holds at least one event and
/// is within the limits.
pub open spec fn step_keeps_limits(st: BatchBuilderState, step: BuilderStep) -> bool {
    &&& within_limits(apply_step(st, step).events, st.max_events as nat, st.max_bytes as nat)
    &&& step matches BuilderStep::AddEvent(e) ==> {
        &&& apply_step(st, step).events.len() >= 1
        &&& flushes_before(st, e) ==> st.events.len() >= 1 && within_limits(
            st.events,
            st.max_events as nat,
            st.max_bytes as nat,
        )
    }
}

/// From a state within its limits, any one step keeps the limits.
proof fn lemma_step_keeps_limits(st: BatchBuilderState, step: BuilderStep)
    requires
        within_limits(st.events, st.max_events as nat, st.max_bytes as nat),
    ensures
        step_keeps_limits(st, step),
        apply_step(st, step).max_events == st.max_events,
        apply_step(st, step).max_bytes == st.max_bytes,
{
    match step {
        BuilderStep::AddEvent(e) => {
            if !flushes_before(st, e) {
                lemma_seq_sum_push(st.events, event_size(), e);
            } else {
                lemma_seq_sum_push(Seq::<DatabaseEvent>::empty(), event_size(), e);
                assert(Seq::<DatabaseEvent>::empty().push(e) =~= seq![e]);
            }
        },
        BuilderStep::AddRelation(_) => {},
        BuilderStep::Flush => {},
    }
}

/// Over any run mixing `add_event`, `add_relation` and `flush` on a builder
/// whose limits are not changed and which starts within them, every step
/// keeps the limits: each batch that an addition cuts holds at least one
/// event and is within the limits, at least one event is pending after every
/// addition, and the pending events always fit the limits.
pub proof fn lemma_limits_hold_over_any_run(st: BatchBuilderState, steps: Seq<BuilderStep>)
    requires
        within_limits(st.events, st.max_events as nat, st.max_bytes as nat),
    ensures
        run_steps(st, steps).max_events == st.max_events,
        run_steps(st, steps).max_bytes == st.max_bytes,
        within_limits(run_steps(st, steps).events, st.max_events as nat, st.max_bytes as nat),
        forall|i: int|
            0 <= i < steps.len() ==> step_keeps_limits(
                #[trigger] run_steps(st, steps.take(i)),
                steps[i],
            ),
    decreases steps.len(),
{
    if steps.len() > 0 {
        let init = steps.drop_last();
        lemma_limits_hold_over_any_run(st, init);
        lemma_step_keeps_limits(run_steps(st, init), steps.last());
        assert forall|i: int| 0 <= i < steps.len() implies step_keeps_limits(
            #[trigger] run_steps(st, steps.take(i)),
            steps[i],
        ) by {
            if i < init.len() {
                assert(steps.take(i) =~= init.take(i));
                assert(steps[i] == init[i]);
                assert(step_keeps_limits(run_steps(st, init.take(i)), init[i]));
            } else {
                assert(steps.take(i) =~= init);
            }
        }
    }
}

/// Builder for constructing batches of events with efficient serialization.
pub struct BatchBuilder {
    events: Vec<DatabaseEvent>,
    relations: Vec<RelationMeta>,
    source_id: Option<String>,
    batch_seq: u64,
    current_bytes: usize,
    max_events: usize,
    max_bytes: usize,
}

impl View for BatchBuilder {
    type V = BatchBuilderState;

    closed spec fn view(&self) -> BatchBuilderState {
        BatchBuilderState {
            events: self.events@,
            relations: self.relations@,
            source_id: self.source_id,
            batch_seq: self.batch_seq,
            max_events: self.max_events,
            max_bytes: self.max_bytes,
        }
    }
}

impl BatchBuilder {
    /// Default maximum events per batch.
    pub const DEFAULT_MAX_EVENTS: usize = 1000;

    /// Default maximum bytes per batch (1MB).
    pub const DEFAULT_MAX_BYTES: usize = 1_000_000;

    /// The builder's own bookkeeping holds: the running byte count is the
    /// size of the pending events, and no relation ID occurs twice.
    pub closed spec fn wf(&self) -> bool {
        &&& self.current_bytes == events_size(self.events@)
        &&& distinct_rel_ids(self.relations@)
    }

    /// Whether adding `event` cuts the pending events into a batch first:
    /// there are pending events, and either their count has reached the
    /// limit or the event would take their size past the byte limit.
    pub open spec fn spec_flushes_before(self, event: DatabaseEvent) -> bool {
        flushes_before(self@, event)
    }

    /// The sizes that adding `event` computes fit in a `usize`, and a batch
    /// it cuts can take the next sequence number.
    pub open spec fn spec_can_add(self, event: DatabaseEvent) -> bool {
        &&& event.size() <= usize::MAX
        &&& (self@.events.len() == 0 || self@.events.len() < self@.max_events) ==> events_size(
            self@.events,
        ) + event.size() <= usize::MAX
        &&& self.spec_flushes_before(event) ==> self@.batch_seq < u64::MAX
    }

    /// Create a new batch builder with default limits.
    pub fn new() -> (b: Self)
        ensures
            b.wf(),
            b@.events.len() == 0,
            b@.relations.len() == 0,
            b@.source_id is None,
            b@.batch_seq == 0,
            b@.max_events == Self::DEFAULT_MAX_EVENTS,
            b@.max_bytes == Self::DEFAULT_MAX_BYTES,
            distinct_rel_ids(b@.relations),
    {
        BatchBuilder {
            events: Vec::new(),
            relations: Vec::new(),
            source_id: None,
            batch_seq: 0,
            current_bytes: 0,
            max_events: Self::DEFAULT_MAX_EVENTS,
            max_bytes: Self::DEFAULT_MAX_BYTES,
        }
    }

    /// Set the source ID.
    pub fn source_id(self, id: &str) -> (b: Self)
        requires
            self.wf(),
        ensures
            b.wf(),
            distinct_rel_ids(b@.relations),
            b@.source_id matches Some(s) && s@ == id@,
            b@ == (BatchBuilderState { source_id: b@.source_id, ..self@ }),
    {
        let mut b = self;
        b.source_id = Some(id.to_string());
        b
    }

    /// Set the batch sequence number.
    pub fn batch_seq(self, seq: u64) -> (b: Self)
        requires
            self.wf(),
        ensures
            b.wf(),
            distinct_rel_ids(b@.relations),
            b@ == (BatchBuilderState { batch_seq: seq, ..self@ }),
    {
        let mut b = self;
        b.batch_seq = seq;
        b
    }

    /// Set the maximum number of events per batch.
    pub fn max_events(self, max: usize) -> (b: Self)
        requires
            self.wf(),
        ensures
            b.wf(),
            distinct_rel_ids(b@.relations),
            b@ == (BatchBuilderState { max_events: max, ..self@ }),
    {
        let mut b = self;
        b.max_events = max;
        b
    }

    /// Set the maximum bytes per batch.
    pub fn max_bytes(self, max: usize) -> (b: Self)
        requires
            self.wf(),
        ensures
            b.wf(),
            distinct_rel_ids(b@.relations),
            b@ == (BatchBuilderState { max_bytes: max, ..self@ }),
    {
        let mut b = self;
        b.max_bytes = max;
        b
    }

    /// Add an event to the batch.
    /// Returns Some(batch) if the batch is full and was flushed; the event
    /// then starts the next batch.
    pub fn add_event(&mut self, event: DatabaseEvent) -> (r: Option<DatabaseEventBatch>)
        requires
            old(self).wf(),
            old(self).spec_can_add(event),
        ensures
            final(self).wf(),
            final(self)@ == after_add(old(self)@, event),
            final(self)@ == apply_step(old(self)@, BuilderStep::AddEvent(event)),
            r is Some == flushes_before(old(self)@, event),
            // A batch is cut exactly when events are pending and their count has
            // reached the limit or the event would take their size past it.
            r is Some == (old(self)@.events.len() > 0 && (old(self)@.events.len()
                >= old(self)@.max_events || events_size(old(self)@.events) + event.size()
                > old(self)@.max_bytes)),
            old(self)@.events.len() < old(self)@.max_events && events_size(old(self)@.events)
                + event.size() <= old(self)@.max_bytes ==> r is None && final(self)@.events
                == old(self)@.events.push(event) && final(self)@.batch_seq == old(self)@.batch_seq,
            distinct_rel_ids(final(self)@.relations),
            r matches Some(b) ==> distinct_rel_ids(b.relations@),
            old(self).spec_flushes_before(event) ==> {
                &&& r matches Some(b) && is_batch_of(b, old(self)@)
                &&& final(self)@ == (BatchBuilderState {
                    events: seq![event],
                    relations: Seq::empty(),
                    batch_seq: (old(self)@.batch_seq + 1) as u64,
                    ..old(self)@
                })
            },
            !old(self).spec_flushes_before(event) ==> {
                &&& r is None
                &&& final(self)@ == (BatchBuilderState {
                    events: old(self)@.events.push(event),
                    ..old(self)@
                })
            },
            // No event is lost, duplicated or reordered.
            match r {
                Some(b) => b.events@ + final(self)@.events == old(self)@.events.push(event),
                None => final(self)@.events == old(self)@.events.push(event),
            },
            // A builder within its limits stays within them, and so does every batch it cuts.
            within_limits(old(self)@.events, old(self)@.max_events as nat, old(self)@.max_bytes as nat)
                ==> within_limits(final(self)@.events, final(self)@.max_events as nat, final(self)@.max_bytes as nat),
            within_limits(old(self)@.events, old(self)@.max_events as nat, old(self)@.max_bytes as nat)
                ==> (r matches Some(b) ==> b.events@.len() >= 1 && within_limits(
                b.events@,
                old(self)@.max_events as nat,
                old(self)@.max_bytes as nat,
            )),
    {
        let new_bytes = event.size_bytes();
        if !self.events.is_empty() && (self.events.len() >= self.max_events || self.current_bytes
            + new_bytes > self.max_bytes) {
            let batch = self.flush();
            self.current_bytes = new_bytes;
            self.events.push(event);
            proof {
                lemma_seq_sum_push(Seq::<DatabaseEvent>::empty(), event_size(), event);
                assert(seq_sum(Seq::<DatabaseEvent>::empty(), event_size()) == 0);
                assert(Seq::<DatabaseEvent>::empty().push(event) =~= seq![event]);
                assert(batch.events@ + self.events@ =~= old(self)@.events.push(event));
            }
            Some(batch)
        } else {
            proof {
                lemma_seq_sum_push(self.events@, event_size(), event);
            }
            self.current_bytes = self.current_bytes + new_bytes;
            self.events.push(event);
            None
        }
    }

    /// Add relation metadata to the batch, unless a relation with its ID is
    /// already there.
    pub fn add_relation(&mut self, meta: RelationMeta)
        requires
            old(self).wf(),
        ensures
            final(self).wf(),
            final(self)@ == (BatchBuilderState {
                relations: relations_after(old(self)@.relations, meta),
                ..old(self)@
            }),
            distinct_rel_ids(final(self)@.relations),
            final(self)@ == apply_step(old(self)@, BuilderStep::AddRelation(meta)),
    {
        let mut found = false;
        let mut i: usize = 0;
        while i < self.relations.len()
            invariant
                i <= self.relations@.len(),
                found == has_rel_id(self.relations@.take(i as int), meta.rel_id),
            decreases self.relations@.len() - i,
        {
            proof {
                let t = self.relations@.take(i as int);
                let t1 = self.relations@.take(i + 1);
                if has_rel_id(t, meta.rel_id) {
                    let k = choose|k: int| 0 <= k < t.len() && #[trigger] t[k].rel_id == meta.rel_id;
                    assert(t1[k].rel_id == meta.rel_id);
                }
                if has_rel_id(t1, meta.rel_id) && !has_rel_id(t, meta.rel_id) {
                    let k = choose|k: int| 0 <= k < t1.len() && #[trigger] t1[k].rel_id == meta.rel_id;
                    if k < i {
                        assert(t[k].rel_id == meta.rel_id);
                    }
                }
                if self.relations@[i as int].rel_id == meta.rel_id {
                    assert(t1[i as int].rel_id == meta.rel_id);
                }
            }
            if self.relations[i].rel_id == meta.rel_id {
                found = true;
            }
            i = i + 1;
        }
        proof {
            assert(self.relations@.take(i as int) =~= self.relations@);
        }
        if !found {
            self.relations.push(meta);
        }
    }

    /// Check if the batch is empty.
    pub fn is_empty(&self) -> (r: bool)
        ensures
            r == (self@.events.len() == 0),
    {
        self.events.is_empty()
    }

    /// Get the current number of events.
    pub fn len(&self) -> (n: usize)
        ensures
            n == self@.events.len(),
    {
        self.events.len()
    }

    /// Flush the current batch and return it; the builder starts over with
    /// the next sequence number.
    pub fn flush(&mut self) -> (b: DatabaseEventBatch)
        requires
            old(self).wf(),
            old(self)@.batch_seq < u64::MAX,
        ensures
            final(self).wf(),
            is_batch_of(b, old(self)@),
            distinct_rel_ids(b.relations@),
            distinct_rel_ids(final(self)@.relations),
            final(self)@ == apply_step(old(self)@, BuilderStep::Flush),
            final(self)@ == (BatchBuilderState {
                events: Seq::empty(),
                relations: Seq::empty(),
                batch_seq: (old(self)@.batch_seq + 1) as u64,
                ..old(self)@
            }),
    {
        let mut events: Vec<DatabaseEvent> = Vec::new();
        std::mem::swap(&mut events, &mut self.events);
        let mut relations: Vec<RelationMeta> = Vec::new();
        std::mem::swap(&mut relations, &mut self.relations);
        let source_id = match &self.source_id {
            Some(s) => Some(s.clone()),
            None => None,
        };
        let batch = DatabaseEventBatch {
            events,
            source_id,
            batch_seq: self.batch_seq,
            relations,
            control_directive: None,
            sequence_values: None,
            backfill_metadata: None,
        };
        self.batch_seq = self.batch_seq + 1;
        self.current_bytes = 0;
        proof {
            assert(self.events@ =~= Seq::<DatabaseEvent>::empty());
            assert(self.relations@ =~= Seq::<RelationMeta>::empty());
        }
        batch
    }

    /// Finish building and return any remaining events as a batch: the
    /// batch that `flush` would cut, or nothing when no event is pending.
    pub fn finish(self) -> (r: Option<DatabaseEventBatch>)
        requires
            self.wf(),
        ensures
            r is None == (self@.events.len() == 0),
            r matches Some(b) ==> is_batch_of(b, self@) && distinct_rel_ids(b.relations@),
    {
        if self.events.is_empty() {
            None
        } else {
            Some(
                DatabaseEventBatch {
                    events: self.events,
                    source_id: self.source_id,
                    batch_seq: self.batch_seq,
                    relations: self.relations,
                    control_directive: None,
                    sequence_values: None,
                    backfill_metadata: None,
                },
            )
        }
    }
}

impl Default for BatchBuilder {
    fn default() -> (b: Self)
        ensures
            b.wf(),
            b@.events.len() == 0,
            b@.relations.len() == 0,
            b@.source_id is None,
            b@.batch_seq == 0,
            b@.max_events == Self::DEFAULT_MAX_EVENTS,
            b@.max_bytes == Self::DEFAULT_MAX_BYTES,
    {
        Self::new()
    }
}

/// Offering the same relation twice changes nothing the second time.
pub proof fn lemma_add_relation_idempotent(rels: Seq<RelationMeta>, meta: RelationMeta)
    ensures
        relations_after(relations_after(rels, meta), meta) == relations_after(rels, meta),
{
    let once = relations_after(rels, meta);
    if !has_rel_id(rels, meta.rel_id) {
        assert(once[rels.len() as int].rel_id == meta.rel_id);
    }
}

/// Offering relations keeps their IDs distinct.
pub proof fn lemma_add_relation_keeps_ids_distinct(rels: Seq<RelationMeta>, meta: RelationMeta)
    requires
        distinct_rel_ids(rels),
    ensures
        distinct_rel_ids(relations_after(rels, meta)),
        has_rel_id(relations_after(rels, meta), meta.rel_id),
{
    let after = relations_after(rels, meta);
    if !has_rel_id(rels, meta.rel_id) {
        assert(after[rels.len() as int].rel_id == meta.rel_id);
        assert forall|i: int, j: int| 0 <= i < j < after.len() implies #[trigger] after[i].rel_id
            != #[trigger] after[j].rel_id by {
            if j == rels.len() {
                assert(rels[i].rel_id != meta.rel_id);
            }
        }
    }
}

} // verus!
