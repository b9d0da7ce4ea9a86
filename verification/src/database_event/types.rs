//! Database event types: type tags, operation kinds, column values, rows,
//! relation metadata, events and batches.

use vstd::prelude::*;

verus! {

/// The number of bytes of the UTF-8 encoding of a text.
pub open spec fn text_len(s: Seq<char>) -> nat {
    vstd::utf8::encode_utf8(s).len()
}

/// The sum of `f` over the elements of `s`.
pub open spec fn seq_sum<T>(s: Seq<T>, f: spec_fn(T) -> nat) -> nat
    decreases s.len(),
{
    if s.len() == 0 {
        0
    } else {
        seq_sum(s.drop_last(), f) + f(s.last())
    }
}

/// Extending a prefix by one element adds that element's measure.
pub proof fn lemma_seq_sum_take_step<T>(s: Seq<T>, f: spec_fn(T) -> nat, i: int)
    requires
        0 <= i < s.len(),
    ensures
        seq_sum(s.take(i + 1), f) == seq_sum(s.take(i), f) + f(s[i]),
{
    assert(s.take(i + 1).drop_last() =~= s.take(i));
}

/// The measure of a prefix is at most the measure of the whole sequence.
pub proof fn lemma_seq_sum_take_le<T>(s: Seq<T>, f: spec_fn(T) -> nat, i: int)
    requires
        0 <= i <= s.len(),
    ensures
        seq_sum(s.take(i), f) <= seq_sum(s, f),
    decreases s.len() - i,
{
    if i < s.len() {
        lemma_seq_sum_take_step(s, f, i);
        lemma_seq_sum_take_le(s, f, i + 1);
    } else {
        assert(s.take(i) =~= s);
    }
}

/// The measure of a concatenation is the sum of the measures of its parts.
pub proof fn lemma_seq_sum_concat<T>(a: Seq<T>, b: Seq<T>, f: spec_fn(T) -> nat)
    ensures
        seq_sum(a + b, f) == seq_sum(a, f) + seq_sum(b, f),
    decreases b.len(),
{
    if b.len() == 0 {
        assert(a + b =~= a);
    } else {
        lemma_seq_sum_concat(a, b.drop_last(), f);
        assert((a + b).drop_last() =~= a + b.drop_last());
        assert((a + b).last() == b.last());
    }
}

/// The measure of a sequence extended by one element.
pub proof fn lemma_seq_sum_push<T>(s: Seq<T>, f: spec_fn(T) -> nat, x: T)
    ensures
        seq_sum(s.push(x), f) == seq_sum(s, f) + f(x),
{
    assert(s.push(x).drop_last() =~= s);
}

/// Type tag for fast dispatch without parsing an OID.
/// Each tag stands for a PostgreSQL type category and is carried on the wire
/// as one byte (see [`TypeTag::to_byte`]).
#[derive(Debug, Clone, Copy, PartialEq, Eq, Hash, Structural)]
pub enum TypeTag {
    Null,
    Bool,
    Int16,
    Int32,
    Int64,
    Float32,
    Float64,
    Text,
    Bytea,
    Json,
    Jsonb,
    Uuid,
    Timestamp,
    TimestampTz,
    Date,
    Time,
    TimeTz,
    Interval,
    Numeric,
    Bit,
    Varbit,
    Point,
    Line,
    Lseg,
    Box,
    Path,
    Polygon,
    Circle,
    Inet,
    Cidr,
    MacAddr,
    MacAddr8,
    Int4Range,
    Int8Range,
    NumRange,
    TsRange,
    TsTzRange,
    DateRange,
    Money,
    Xml,
    Array,
    ToastUnchanged,
    Custom,
}

impl TypeTag {
    /// The wire byte of each tag.
    pub open spec fn byte(self) -> u8 {
        match self {
            TypeTag::Null => 0u8,
            TypeTag::Bool => 1u8,
            TypeTag::Int16 => 2u8,
            TypeTag::Int32 => 3u8,
            TypeTag::Int64 => 4u8,
            TypeTag::Float32 => 5u8,
            TypeTag::Float64 => 6u8,
            TypeTag::Text => 7u8,
            TypeTag::Bytea => 8u8,
            TypeTag::Json => 9u8,
            TypeTag::Jsonb => 10u8,
            TypeTag::Uuid => 11u8,
            TypeTag::Timestamp => 12u8,
            TypeTag::TimestampTz => 13u8,
            TypeTag::Date => 14u8,
            TypeTag::Time => 15u8,
            TypeTag::TimeTz => 16u8,
            TypeTag::Interval => 17u8,
            TypeTag::Numeric => 18u8,
            TypeTag::Bit => 20u8,
            TypeTag::Varbit => 21u8,
            TypeTag::Point => 30u8,
            TypeTag::Line => 31u8,
            TypeTag::Lseg => 32u8,
            TypeTag::Box => 33u8,
            TypeTag::Path => 34u8,
            TypeTag::Polygon => 35u8,
            TypeTag::Circle => 36u8,
            TypeTag::Inet => 40u8,
            TypeTag::Cidr => 41u8,
            TypeTag::MacAddr => 42u8,
            TypeTag::MacAddr8 => 43u8,
            TypeTag::Int4Range => 50u8,
            TypeTag::Int8Range => 51u8,
            TypeTag::NumRange => 52u8,
            TypeTag::TsRange => 53u8,
            TypeTag::TsTzRange => 54u8,
            TypeTag::DateRange => 55u8,
            TypeTag::Money => 60u8,
            TypeTag::Xml => 61u8,
            TypeTag::Array => 100u8,
            TypeTag::ToastUnchanged => 126u8,
            TypeTag::Custom => 127u8,
        }
    }

    /// The tag carried by a byte, if any tag is carried by it.
    pub open spec fn decode(b: u8) -> Option<TypeTag> {
        if exists|t: TypeTag| t.byte() == b {
            Some(choose|t: TypeTag| t.byte() == b)
        } else {
            None
        }
    }

    /// Two tags with the same byte are the same tag.
    pub proof fn lemma_byte_injective(a: TypeTag, b: TypeTag)
        requires
            a.byte() == b.byte(),
        ensures
            a == b,
    {
    }

    /// Decoding the byte of a tag gives the tag back.
    pub proof fn lemma_decode_byte(t: TypeTag)
        ensures
            TypeTag::decode(t.byte()) == Some(t),
    {
        let c = choose|u: TypeTag| u.byte() == t.byte();
        TypeTag::lemma_byte_injective(c, t);
    }

    /// A decoded tag carries the byte it was decoded from.
    pub proof fn lemma_decode_inverse(b: u8)
        ensures
            TypeTag::decode(b) matches Some(t) ==> t.byte() == b,
    {
    }

    /// The wire byte of this tag.
    pub fn to_byte(self) -> (b: u8)
        ensures
            b == self.byte(),
    {
        match self {
            TypeTag::Null => 0,
            TypeTag::Bool => 1,
            TypeTag::Int16 => 2,
            TypeTag::Int32 => 3,
            TypeTag::Int64 => 4,
            TypeTag::Float32 => 5,
            TypeTag::Float64 => 6,
            TypeTag::Text => 7,
            TypeTag::Bytea => 8,
            TypeTag::Json => 9,
            TypeTag::Jsonb => 10,
            TypeTag::Uuid => 11,
            TypeTag::Timestamp => 12,
            TypeTag::TimestampTz => 13,
            TypeTag::Date => 14,
            TypeTag::Time => 15,
            TypeTag::TimeTz => 16,
            TypeTag::Interval => 17,
            TypeTag::Numeric => 18,
            TypeTag::Bit => 20,
            TypeTag::Varbit => 21,
            TypeTag::Point => 30,
            TypeTag::Line => 31,
            TypeTag::Lseg => 32,
            TypeTag::Box => 33,
            TypeTag::Path => 34,
            TypeTag::Polygon => 35,
            TypeTag::Circle => 36,
            TypeTag::Inet => 40,
            TypeTag::Cidr => 41,
            TypeTag::MacAddr => 42,
            TypeTag::MacAddr8 => 43,
            TypeTag::Int4Range => 50,
            TypeTag::Int8Range => 51,
            TypeTag::NumRange => 52,
            TypeTag::TsRange => 53,
            TypeTag::TsTzRange => 54,
            TypeTag::DateRange => 55,
            TypeTag::Money => 60,
            TypeTag::Xml => 61,
            TypeTag::Array => 100,
            TypeTag::ToastUnchanged => 126,
            TypeTag::Custom => 127,
        }
    }

    /// Convert from byte value.
    pub fn from_byte(b: u8) -> (r: Option<Self>)
        ensures
            r == TypeTag::decode(b),
    {
        let r = match b {
            0 => Some(TypeTag::Null),
            1 => Some(TypeTag::Bool),
            2 => Some(TypeTag::Int16),
            3 => Some(TypeTag::Int32),
            4 => Some(TypeTag::Int64),
            5 => Some(TypeTag::Float32),
            6 => Some(TypeTag::Float64),
            7 => Some(TypeTag::Text),
            8 => Some(TypeTag::Bytea),
            9 => Some(TypeTag::Json),
            10 => Some(TypeTag::Jsonb),
            11 => Some(TypeTag::Uuid),
            12 => Some(TypeTag::Timestamp),
            13 => Some(TypeTag::TimestampTz),
            14 => Some(TypeTag::Date),
            15 => Some(TypeTag::Time),
            16 => Some(TypeTag::TimeTz),
            17 => Some(TypeTag::Interval),
            18 => Some(TypeTag::Numeric),
            20 => Some(TypeTag::Bit),
            21 => Some(TypeTag::Varbit),
            30 => Some(TypeTag::Point),
            31 => Some(TypeTag::Line),
            32 => Some(TypeTag::Lseg),
            33 => Some(TypeTag::Box),
            34 => Some(TypeTag::Path),
            35 => Some(TypeTag::Polygon),
            36 => Some(TypeTag::Circle),
            40 => Some(TypeTag::Inet),
            41 => Some(TypeTag::Cidr),
            42 => Some(TypeTag::MacAddr),
            43 => Some(TypeTag::MacAddr8),
            50 => Some(TypeTag::Int4Range),
            51 => Some(TypeTag::Int8Range),
            52 => Some(TypeTag::NumRange),
            53 => Some(TypeTag::TsRange),
            54 => Some(TypeTag::TsTzRange),
            55 => Some(TypeTag::DateRange),
            60 => Some(TypeTag::Money),
            61 => Some(TypeTag::Xml),
            100 => Some(TypeTag::Array),
            126 => Some(TypeTag::ToastUnchanged),
            127 => Some(TypeTag::Custom),
            _ => None,
        };
        proof {
            match r {
                Some(t) => TypeTag::lemma_decode_byte(t),
                None => {
                    assert forall|t: TypeTag| t.byte() != b by {}
                },
            }
        }
        r
    }
}

/// Database operation type.
#[derive(Debug, Clone, Copy, PartialEq, Eq, Hash, Structural)]
pub enum OperationType {
    Insert,
    Update,
    Delete,
    Truncate,
    Begin,
    Commit,
    Rollback,
    SnapshotRow,
    SnapshotBegin,
    SnapshotEnd,
    SequenceSync,
    DisableForeignKeys,
    EnableForeignKeys,
    Ddl,
    DdlComplete,
    BackfillComplete,
    BackfillStart,
}

impl OperationType {
    /// The wire byte of each operation.
    pub open spec fn byte(self) -> u8 {
        match self {
            OperationType::Insert => 0u8,
            OperationType::Update => 1u8,
            OperationType::Delete => 2u8,
            OperationType::Truncate => 3u8,
            OperationType::Begin => 10u8,
            OperationType::Commit => 11u8,
            OperationType::Rollback => 12u8,
            OperationType::SnapshotRow => 20u8,
            OperationType::SnapshotBegin => 21u8,
            OperationType::SnapshotEnd => 22u8,
            OperationType::SequenceSync => 30u8,
            OperationType::DisableForeignKeys => 31u8,
            OperationType::EnableForeignKeys => 32u8,
            OperationType::Ddl => 33u8,
            OperationType::DdlComplete => 34u8,
            OperationType::BackfillComplete => 35u8,
            OperationType::BackfillStart => 36u8,
        }
    }

    /// The operation carried by a byte, if any operation is carried by it.
    pub open spec fn decode(b: u8) -> Option<OperationType> {
        if exists|t: OperationType| t.byte() == b {
            Some(choose|t: OperationType| t.byte() == b)
        } else {
            None
        }
    }

    /// The display name of each operation.
    pub open spec fn name(self) -> Seq<char> {
        match self {
            OperationType::Insert => "INSERT"@,
            OperationType::Update => "UPDATE"@,
            OperationType::Delete => "DELETE"@,
            OperationType::Truncate => "TRUNCATE"@,
            OperationType::Begin => "BEGIN"@,
            OperationType::Commit => "COMMIT"@,
            OperationType::Rollback => "ROLLBACK"@,
            OperationType::SnapshotRow => "SNAPSHOT_ROW"@,
            OperationType::SnapshotBegin => "SNAPSHOT_BEGIN"@,
            OperationType::SnapshotEnd => "SNAPSHOT_END"@,
            OperationType::SequenceSync => "SEQUENCE_SYNC"@,
            OperationType::DisableForeignKeys => "DISABLE_FOREIGN_KEYS"@,
            OperationType::EnableForeignKeys => "ENABLE_FOREIGN_KEYS"@,
            OperationType::Ddl => "DDL"@,
            OperationType::DdlComplete => "DDL_COMPLETE"@,
            OperationType::BackfillComplete => "BACKFILL_COMPLETE"@,
            OperationType::BackfillStart => "BACKFILL_START"@,
        }
    }

    /// Two operations with the same byte are the same operation.
    pub proof fn lemma_byte_injective(a: OperationType, b: OperationType)
        requires
            a.byte() == b.byte(),
        ensures
            a == b,
    {
    }

    /// Decoding the byte of an operation gives the operation back.
    pub proof fn lemma_decode_byte(t: OperationType)
        ensures
            OperationType::decode(t.byte()) == Some(t),
    {
        let c = choose|u: OperationType| u.byte() == t.byte();
        OperationType::lemma_byte_injective(c, t);
    }

    /// A decoded operation carries the byte it was decoded from.
    pub proof fn lemma_decode_inverse(b: u8)
        ensures
            OperationType::decode(b) matches Some(t) ==> t.byte() == b,
    {
    }

    /// The operations that are control directives rather than data changes.
    pub open spec fn spec_is_control_directive(self) -> bool {
        ||| self == OperationType::SequenceSync
        ||| self == OperationType::DisableForeignKeys
        ||| self == OperationType::EnableForeignKeys
        ||| self == OperationType::BackfillComplete
        ||| self == OperationType::BackfillStart
    }

    /// The wire byte of this operation.
    pub fn to_byte(self) -> (b: u8)
        ensures
            b == self.byte(),
    {
        match self {
            OperationType::Insert => 0,
            OperationType::Update => 1,
            OperationType::Delete => 2,
            OperationType::Truncate => 3,
            OperationType::Begin => 10,
            OperationType::Commit => 11,
            OperationType::Rollback => 12,
            OperationType::SnapshotRow => 20,
            OperationType::SnapshotBegin => 21,
            OperationType::SnapshotEnd => 22,
            OperationType::SequenceSync => 30,
            OperationType::DisableForeignKeys => 31,
            OperationType::EnableForeignKeys => 32,
            OperationType::Ddl => 33,
            OperationType::DdlComplete => 34,
            OperationType::BackfillComplete => 35,
            OperationType::BackfillStart => 36,
        }
    }

    /// Convert from byte value.
    pub fn from_byte(b: u8) -> (r: Option<Self>)
        ensures
            r == OperationType::decode(b),
    {
        let r = match b {
            0 => Some(OperationType::Insert),
            1 => Some(OperationType::Update),
            2 => Some(OperationType::Delete),
            3 => Some(OperationType::Truncate),
            10 => Some(OperationType::Begin),
            11 => Some(OperationType::Commit),
            12 => Some(OperationType::Rollback),
            20 => Some(OperationType::SnapshotRow),
            21 => Some(OperationType::SnapshotBegin),
            22 => Some(OperationType::SnapshotEnd),
            30 => Some(OperationType::SequenceSync),
            31 => Some(OperationType::DisableForeignKeys),
            32 => Some(OperationType::EnableForeignKeys),
            33 => Some(OperationType::Ddl),
            34 => Some(OperationType::DdlComplete),
            35 => Some(OperationType::BackfillComplete),
            36 => Some(OperationType::BackfillStart),
            _ => None,
        };
        proof {
            match r {
                Some(t) => OperationType::lemma_decode_byte(t),
                None => {
                    assert forall|t: OperationType| t.byte() != b by {}
                },
            }
        }
        r
    }

    /// Check if this is a control directive (not a data operation).
    pub fn is_control_directive(&self) -> (r: bool)
        ensures
            r == self.spec_is_control_directive(),
    {
        match self {
            OperationType::SequenceSync | OperationType::DisableForeignKeys
            | OperationType::EnableForeignKeys | OperationType::BackfillComplete
            | OperationType::BackfillStart => true,
            _ => false,
        }
    }

    /// Check if this is a DDL operation.
    pub fn is_ddl(&self) -> (r: bool)
        ensures
            r == (*self == OperationType::Ddl),
    {
        match self {
            OperationType::Ddl => true,
            _ => false,
        }
    }

    /// The display name of this operation, such as `INSERT` or `SNAPSHOT_ROW`.
    pub fn to_string(&self) -> (s: String)
        ensures
            s@ == self.name(),
    {
        let s: &str = match self {
            OperationType::Insert => "INSERT",
            OperationType::Update => "UPDATE",
            OperationType::Delete => "DELETE",
            OperationType::Truncate => "TRUNCATE",
            OperationType::Begin => "BEGIN",
            OperationType::Commit => "COMMIT",
            OperationType::Rollback => "ROLLBACK",
            OperationType::SnapshotRow => "SNAPSHOT_ROW",
            OperationType::SnapshotBegin => "SNAPSHOT_BEGIN",
            OperationType::SnapshotEnd => "SNAPSHOT_END",
            OperationType::SequenceSync => "SEQUENCE_SYNC",
            OperationType::DisableForeignKeys => "DISABLE_FOREIGN_KEYS",
            OperationType::EnableForeignKeys => "ENABLE_FOREIGN_KEYS",
            OperationType::Ddl => "DDL",
            OperationType::DdlComplete => "DDL_COMPLETE",
            OperationType::BackfillComplete => "BACKFILL_COMPLETE",
            OperationType::BackfillStart => "BACKFILL_START",
        };
        proof {
            reveal_strlit("INSERT");
            reveal_strlit("UPDATE");
            reveal_strlit("DELETE");
            reveal_strlit("TRUNCATE");
            reveal_strlit("BEGIN");
            reveal_strlit("COMMIT");
            reveal_strlit("ROLLBACK");
            reveal_strlit("SNAPSHOT_ROW");
            reveal_strlit("SNAPSHOT_BEGIN");
            reveal_strlit("SNAPSHOT_END");
            reveal_strlit("SEQUENCE_SYNC");
            reveal_strlit("DISABLE_FOREIGN_KEYS");
            reveal_strlit("ENABLE_FOREIGN_KEYS");
            reveal_strlit("DDL");
            reveal_strlit("DDL_COMPLETE");
            reveal_strlit("BACKFILL_COMPLETE");
            reveal_strlit("BACKFILL_START");
        }
        s.to_string()
    }
}


/// The wire byte of each type tag, as the schema fixes it: each byte decodes
/// to its tag (and, by `lemma_decode_inverse`, the tag's byte is that byte).
pub proof fn lemma_type_tag_wire_codes()
    ensures
        TypeTag::decode(0u8) == Some(TypeTag::Null),
        TypeTag::decode(1u8) == Some(TypeTag::Bool),
        TypeTag::decode(2u8) == Some(TypeTag::Int16),
        TypeTag::decode(3u8) == Some(TypeTag::Int32),
        TypeTag::decode(4u8) == Some(TypeTag::Int64),
        TypeTag::decode(5u8) == Some(TypeTag::Float32),
        TypeTag::decode(6u8) == Some(TypeTag::Float64),
        TypeTag::decode(7u8) == Some(TypeTag::Text),
        TypeTag::decode(8u8) == Some(TypeTag::Bytea),
        TypeTag::decode(9u8) == Some(TypeTag::Json),
        TypeTag::decode(10u8) == Some(TypeTag::Jsonb),
        TypeTag::decode(11u8) == Some(TypeTag::Uuid),
        TypeTag::decode(12u8) == Some(TypeTag::Timestamp),
        TypeTag::decode(13u8) == Some(TypeTag::TimestampTz),
        TypeTag::decode(14u8) == Some(TypeTag::Date),
        TypeTag::decode(15u8) == Some(TypeTag::Time),
        TypeTag::decode(16u8) == Some(TypeTag::TimeTz),
        TypeTag::decode(17u8) == Some(TypeTag::Interval),
        TypeTag::decode(18u8) == Some(TypeTag::Numeric),
        TypeTag::decode(20u8) == Some(TypeTag::Bit),
        TypeTag::decode(21u8) == Some(TypeTag::Varbit),
        TypeTag::decode(30u8) == Some(TypeTag::Point),
        TypeTag::decode(31u8) == Some(TypeTag::Line),
        TypeTag::decode(32u8) == Some(TypeTag::Lseg),
        TypeTag::decode(33u8) == Some(TypeTag::Box),
        TypeTag::decode(34u8) == Some(TypeTag::Path),
        TypeTag::decode(35u8) == Some(TypeTag::Polygon),
        TypeTag::decode(36u8) == Some(TypeTag::Circle),
        TypeTag::decode(40u8) == Some(TypeTag::Inet),
        TypeTag::decode(41u8) == Some(TypeTag::Cidr),
        TypeTag::decode(42u8) == Some(TypeTag::MacAddr),
        TypeTag::decode(43u8) == Some(TypeTag::MacAddr8),
        TypeTag::decode(50u8) == Some(TypeTag::Int4Range),
        TypeTag::decode(51u8) == Some(TypeTag::Int8Range),
        TypeTag::decode(52u8) == Some(TypeTag::NumRange),
        TypeTag::decode(53u8) == Some(TypeTag::TsRange),
        TypeTag::decode(54u8) == Some(TypeTag::TsTzRange),
        TypeTag::decode(55u8) == Some(TypeTag::DateRange),
        TypeTag::decode(60u8) == Some(TypeTag::Money),
        TypeTag::decode(61u8) == Some(TypeTag::Xml),
        TypeTag::decode(100u8) == Some(TypeTag::Array),
        TypeTag::decode(126u8) == Some(TypeTag::ToastUnchanged),
        TypeTag::decode(127u8) == Some(TypeTag::Custom),
{
    TypeTag::lemma_decode_byte(TypeTag::Null);
    TypeTag::lemma_decode_byte(TypeTag::Bool);
    TypeTag::lemma_decode_byte(TypeTag::Int16);
    TypeTag::lemma_decode_byte(TypeTag::Int32);
    TypeTag::lemma_decode_byte(TypeTag::Int64);
    TypeTag::lemma_decode_byte(TypeTag::Float32);
    TypeTag::lemma_decode_byte(TypeTag::Float64);
    TypeTag::lemma_decode_byte(TypeTag::Text);
    TypeTag::lemma_decode_byte(TypeTag::Bytea);
    TypeTag::lemma_decode_byte(TypeTag::Json);
    TypeTag::lemma_decode_byte(TypeTag::Jsonb);
    TypeTag::lemma_decode_byte(TypeTag::Uuid);
    TypeTag::lemma_decode_byte(TypeTag::Timestamp);
    TypeTag::lemma_decode_byte(TypeTag::TimestampTz);
    TypeTag::lemma_decode_byte(TypeTag::Date);
    TypeTag::lemma_decode_byte(TypeTag::Time);
    TypeTag::lemma_decode_byte(TypeTag::TimeTz);
    TypeTag::lemma_decode_byte(TypeTag::Interval);
    TypeTag::lemma_decode_byte(TypeTag::Numeric);
    TypeTag::lemma_decode_byte(TypeTag::Bit);
    TypeTag::lemma_decode_byte(TypeTag::Varbit);
    TypeTag::lemma_decode_byte(TypeTag::Point);
    TypeTag::lemma_decode_byte(TypeTag::Line);
    TypeTag::lemma_decode_byte(TypeTag::Lseg);
    TypeTag::lemma_decode_byte(TypeTag::Box);
    TypeTag::lemma_decode_byte(TypeTag::Path);
    TypeTag::lemma_decode_byte(TypeTag::Polygon);
    TypeTag::lemma_decode_byte(TypeTag::Circle);
    TypeTag::lemma_decode_byte(TypeTag::Inet);
    TypeTag::lemma_decode_byte(TypeTag::Cidr);
    TypeTag::lemma_decode_byte(TypeTag::MacAddr);
    TypeTag::lemma_decode_byte(TypeTag::MacAddr8);
    TypeTag::lemma_decode_byte(TypeTag::Int4Range);
    TypeTag::lemma_decode_byte(TypeTag::Int8Range);
    TypeTag::lemma_decode_byte(TypeTag::NumRange);
    TypeTag::lemma_decode_byte(TypeTag::TsRange);
    TypeTag::lemma_decode_byte(TypeTag::TsTzRange);
    TypeTag::lemma_decode_byte(TypeTag::DateRange);
    TypeTag::lemma_decode_byte(TypeTag::Money);
    TypeTag::lemma_decode_byte(TypeTag::Xml);
    TypeTag::lemma_decode_byte(TypeTag::Array);
    TypeTag::lemma_decode_byte(TypeTag::ToastUnchanged);
    TypeTag::lemma_decode_byte(TypeTag::Custom);
}

/// The wire code of each operation, as the schema fixes it: each code decodes
/// to its operation (and, by `lemma_decode_inverse`, the operation's byte is
/// that code).
pub proof fn lemma_operation_wire_codes()
    ensures
        OperationType::decode(0u8) == Some(OperationType::Insert),
        OperationType::decode(1u8) == Some(OperationType::Update),
        OperationType::decode(2u8) == Some(OperationType::Delete),
        OperationType::decode(3u8) == Some(OperationType::Truncate),
        OperationType::decode(10u8) == Some(OperationType::Begin),
        OperationType::decode(11u8) == Some(OperationType::Commit),
        OperationType::decode(12u8) == Some(OperationType::Rollback),
        OperationType::decode(20u8) == Some(OperationType::SnapshotRow),
        OperationType::decode(21u8) == Some(OperationType::SnapshotBegin),
        OperationType::decode(22u8) == Some(OperationType::SnapshotEnd),
        OperationType::decode(30u8) == Some(OperationType::SequenceSync),
        OperationType::decode(31u8) == Some(OperationType::DisableForeignKeys),
        OperationType::decode(32u8) == Some(OperationType::EnableForeignKeys),
        OperationType::decode(33u8) == Some(OperationType::Ddl),
        OperationType::decode(34u8) == Some(OperationType::DdlComplete),
        OperationType::decode(35u8) == Some(OperationType::BackfillComplete),
        OperationType::decode(36u8) == Some(OperationType::BackfillStart),
{
    OperationType::lemma_decode_byte(OperationType::Insert);
    OperationType::lemma_decode_byte(OperationType::Update);
    OperationType::lemma_decode_byte(OperationType::Delete);
    OperationType::lemma_decode_byte(OperationType::Truncate);
    OperationType::lemma_decode_byte(OperationType::Begin);
    OperationType::lemma_decode_byte(OperationType::Commit);
    OperationType::lemma_decode_byte(OperationType::Rollback);
    OperationType::lemma_decode_byte(OperationType::SnapshotRow);
    OperationType::lemma_decode_byte(OperationType::SnapshotBegin);
    OperationType::lemma_decode_byte(OperationType::SnapshotEnd);
    OperationType::lemma_decode_byte(OperationType::SequenceSync);
    OperationType::lemma_decode_byte(OperationType::DisableForeignKeys);
    OperationType::lemma_decode_byte(OperationType::EnableForeignKeys);
    OperationType::lemma_decode_byte(OperationType::Ddl);
    OperationType::lemma_decode_byte(OperationType::DdlComplete);
    OperationType::lemma_decode_byte(OperationType::BackfillComplete);
    OperationType::lemma_decode_byte(OperationType::BackfillStart);
}

/// PostgreSQL replica identity setting.
#[derive(Debug, Clone, Copy, PartialEq, Eq, Hash, Structural)]
pub enum ReplicaIdentity {
    /// 'd': use the primary key.
    Default,
    /// 'n': no old row data.
    Nothing,
    /// 'f': the full old row.
    Full,
    /// 'i': a specific index.
    Index,
}

impl ReplicaIdentity {
    /// The PostgreSQL character of each setting.
    pub open spec fn pg_char(self) -> u8 {
        match self {
            ReplicaIdentity::Default => 100u8,
            ReplicaIdentity::Nothing => 110u8,
            ReplicaIdentity::Full => 102u8,
            ReplicaIdentity::Index => 105u8,
        }
    }

    /// Convert from PostgreSQL replica identity character.
    /// A character that names no setting gives `Default`.
    pub fn from_pg_char(c: u8) -> (r: Self)
        ensures
            (exists|x: ReplicaIdentity| x.pg_char() == c) ==> r.pg_char() == c,
            !(exists|x: ReplicaIdentity| x.pg_char() == c) ==> r == ReplicaIdentity::Default,
            forall|x: ReplicaIdentity| #[trigger] x.pg_char() == c ==> r == x,
    {
        let r = match c {
            100 => ReplicaIdentity::Default,
            110 => ReplicaIdentity::Nothing,
            102 => ReplicaIdentity::Full,
            105 => ReplicaIdentity::Index,
            _ => ReplicaIdentity::Default,
        };
        proof {
            if r.pg_char() == c {
                assert(exists|x: ReplicaIdentity| x.pg_char() == c);
            }
        }
        r
    }

    /// Convert to PostgreSQL replica identity character.
    pub fn to_pg_char(self) -> (c: u8)
        ensures
            c == self.pg_char(),
    {
        match self {
            ReplicaIdentity::Default => 100,
            ReplicaIdentity::Nothing => 110,
            ReplicaIdentity::Full => 102,
            ReplicaIdentity::Index => 105,
        }
    }

    /// Two settings with the same character are the same setting.
    pub proof fn lemma_pg_char_injective(a: ReplicaIdentity, b: ReplicaIdentity)
        requires
            a.pg_char() == b.pg_char(),
        ensures
            a == b,
    {
    }
}

impl Default for ReplicaIdentity {
    fn default() -> (r: Self)
        ensures
            r == ReplicaIdentity::Default,
    {
        ReplicaIdentity::Default
    }
}

/// A PostgreSQL sequence value for synchronization.
///
/// Used to transmit current sequence state from source to target
/// so that sequences can be synchronized after snapshot completion.
#[derive(Debug, Clone, PartialEq)]
pub struct SequenceValue {
    /// Schema name containing the sequence.
    pub schema: String,
    /// Sequence name.
    pub name: String,
    /// Current last_value from pg_sequences.
    pub last_value: i64,
    /// Whether setval's is_called parameter should be true.
    /// If true: next nextval() returns last_value + increment_by.
    /// If false: next nextval() returns last_value.
    pub is_called: bool,
    /// Increment value for this sequence.
    pub increment_by: i64,
    /// Minimum value for this sequence.
    pub min_value: i64,
    /// Maximum value for this sequence.
    pub max_value: i64,
}

/// `schema.name`, the qualified name of an object.
pub open spec fn qualified(schema: Seq<char>, name: Seq<char>) -> Seq<char> {
    schema + seq!['.'] + name
}

/// Builds `schema.name`.
fn join_qualified(schema: &String, name: &String) -> (s: String)
    ensures
        s@ == qualified(schema@, name@),
{
    let mut s = schema.clone();
    let dot = ".";
    proof {
        reveal_strlit(".");
    }
    s.append(dot);
    s.append(name.as_str());
    s
}

impl SequenceValue {
    /// Create a new sequence value: called, incrementing by one, over
    /// `1..=i64::MAX`.
    pub fn new(schema: &str, name: &str, last_value: i64) -> (r: Self)
        ensures
            r.schema@ == schema@,
            r.name@ == name@,
            r.last_value == last_value,
            r.is_called,
            r.increment_by == 1,
            r.min_value == 1,
            r.max_value == i64::MAX,
    {
        SequenceValue {
            schema: schema.to_string(),
            name: name.to_string(),
            last_value,
            is_called: true,
            increment_by: 1,
            min_value: 1,
            max_value: i64::MAX,
        }
    }

    /// Get the fully qualified sequence name.
    pub fn qualified_name(&self) -> (s: String)
        ensures
            s@ == qualified(self.schema@, self.name@),
    {
        join_qualified(&self.schema, &self.name)
    }
}

/// Control directive for coordinating producer/receiver behavior.
///
/// Control directives are sent as special batches to signal the receiver
/// to perform administrative operations like disabling/enabling constraints.
#[derive(Debug, Clone, Copy, PartialEq, Eq, Hash, Structural)]
pub enum ControlDirective {
    /// Disable foreign key constraints on the target.
    DisableForeignKeys,
    /// Enable foreign key constraints on the target.
    EnableForeignKeys,
    /// Synchronize sequence values; the batch carries the sequence values.
    SyncSequences,
}

impl ControlDirective {
    /// The display name of each directive.
    pub open spec fn name(self) -> Seq<char> {
        match self {
            ControlDirective::DisableForeignKeys => "DISABLE_FOREIGN_KEYS"@,
            ControlDirective::EnableForeignKeys => "ENABLE_FOREIGN_KEYS"@,
            ControlDirective::SyncSequences => "SYNC_SEQUENCES"@,
        }
    }

    /// The display name of this directive, such as `SYNC_SEQUENCES`.
    pub fn to_string(&self) -> (s: String)
        ensures
            s@ == self.name(),
    {
        let s: &str = match self {
            ControlDirective::DisableForeignKeys => "DISABLE_FOREIGN_KEYS",
            ControlDirective::EnableForeignKeys => "ENABLE_FOREIGN_KEYS",
            ControlDirective::SyncSequences => "SYNC_SEQUENCES",
        };
        proof {
            reveal_strlit("DISABLE_FOREIGN_KEYS");
            reveal_strlit("ENABLE_FOREIGN_KEYS");
            reveal_strlit("SYNC_SEQUENCES");
        }
        s.to_string()
    }
}

/// The display name of each operation, as the protocol spells it.
pub proof fn lemma_operation_names()
    ensures
        OperationType::Insert.name() == "INSERT"@,
        OperationType::Update.name() == "UPDATE"@,
        OperationType::Delete.name() == "DELETE"@,
        OperationType::Truncate.name() == "TRUNCATE"@,
        OperationType::Begin.name() == "BEGIN"@,
        OperationType::Commit.name() == "COMMIT"@,
        OperationType::Rollback.name() == "ROLLBACK"@,
        OperationType::SnapshotRow.name() == "SNAPSHOT_ROW"@,
        OperationType::SnapshotBegin.name() == "SNAPSHOT_BEGIN"@,
        OperationType::SnapshotEnd.name() == "SNAPSHOT_END"@,
        OperationType::SequenceSync.name() == "SEQUENCE_SYNC"@,
        OperationType::DisableForeignKeys.name() == "DISABLE_FOREIGN_KEYS"@,
        OperationType::EnableForeignKeys.name() == "ENABLE_FOREIGN_KEYS"@,
        OperationType::Ddl.name() == "DDL"@,
        OperationType::DdlComplete.name() == "DDL_COMPLETE"@,
        OperationType::BackfillComplete.name() == "BACKFILL_COMPLETE"@,
        OperationType::BackfillStart.name() == "BACKFILL_START"@,
{
}

/// The display name of each control directive, as the protocol spells it.
pub proof fn lemma_control_directive_names()
    ensures
        ControlDirective::DisableForeignKeys.name() == "DISABLE_FOREIGN_KEYS"@,
        ControlDirective::EnableForeignKeys.name() == "ENABLE_FOREIGN_KEYS"@,
        ControlDirective::SyncSequences.name() == "SYNC_SEQUENCES"@,
{
}

/// The PostgreSQL character of each replica identity: 'd', 'n', 'f', 'i';
/// any other character reads as `Default`.
pub proof fn lemma_replica_identity_chars(c: u8)
    ensures
        ReplicaIdentity::Default.pg_char() == 100u8,
        ReplicaIdentity::Nothing.pg_char() == 110u8,
        ReplicaIdentity::Full.pg_char() == 102u8,
        ReplicaIdentity::Index.pg_char() == 105u8,
        c != 100 && c != 110 && c != 102 && c != 105 ==> !(exists|x: ReplicaIdentity| x.pg_char() == c),
{
}

/// A single column value.
/// Uses raw PostgreSQL binary format bytes for zero-copy efficiency.
#[derive(Debug, Clone, PartialEq)]
pub struct ColumnValue {
    /// Type tag for fast dispatch.
    pub type_tag: TypeTag,
    /// PostgreSQL type OID (for arrays, custom types, and disambiguation).
    pub type_oid: u32,
    /// Raw PostgreSQL binary format bytes. `None` represents NULL.
    pub data: Option<Vec<u8>>,
}

impl ColumnValue {
    /// The estimated size: one tag byte, four OID bytes and the data.
    pub open spec fn size(self) -> nat {
        5 + match self.data {
            Some(d) => d@.len(),
            None => 0,
        }
    }

    /// Whether the value is SQL NULL: no data and the `Null` tag.
    pub open spec fn spec_is_null(self) -> bool {
        self.data is None && self.type_tag == TypeTag::Null
    }

    /// Create a NULL column value.
    pub fn null() -> (r: Self)
        ensures
            r.type_tag == TypeTag::Null,
            r.type_oid == 0,
            r.data is None,
    {
        ColumnValue { type_tag: TypeTag::Null, type_oid: 0, data: None }
    }

    /// Create a column value from raw PostgreSQL binary data.
    pub fn from_pg_binary(type_tag: TypeTag, type_oid: u32, data: Vec<u8>) -> (r: Self)
        ensures
            r.type_tag == type_tag,
            r.type_oid == type_oid,
            r.data == Some(data),
    {
        ColumnValue { type_tag, type_oid, data: Some(data) }
    }

    /// Create a marker for an unchanged TOAST value.
    /// Used in UPDATE operations when a large column value was not modified.
    /// The type_oid is preserved so the target knows the column's type.
    pub fn unchanged(type_oid: u32) -> (r: Self)
        ensures
            r.type_tag == TypeTag::ToastUnchanged,
            r.type_oid == type_oid,
            r.data is None,
    {
        ColumnValue { type_tag: TypeTag::ToastUnchanged, type_oid, data: None }
    }

    /// Check if this value is NULL.
    pub fn is_null(&self) -> (r: bool)
        ensures
            r == self.spec_is_null(),
    {
        self.data.is_none() && self.type_tag == TypeTag::Null
    }

    /// Check if this value is an unchanged TOAST marker.
    pub fn is_unchanged(&self) -> (r: bool)
        ensures
            r == (self.type_tag == TypeTag::ToastUnchanged),
    {
        self.type_tag == TypeTag::ToastUnchanged
    }

    /// Get the raw data bytes.
    pub fn as_bytes(&self) -> (r: Option<&[u8]>)
        ensures
            self.data is None ==> r is None,
            self.data matches Some(d) ==> (r matches Some(b) && b@ == d@),
    {
        match &self.data {
            Some(d) => Some(d.as_slice()),
            None => None,
        }
    }

    /// Estimate the size of this value in bytes.
    pub fn size_bytes(&self) -> (n: usize)
        requires
            self.size() <= usize::MAX,
        ensures
            n == self.size(),
    {
        match &self.data {
            Some(d) => 5 + d.len(),
            None => 5,
        }
    }
}

/// A row of column values.
#[derive(Debug, Clone, PartialEq)]
pub struct Row {
    /// The values, in column order.
    pub values: Vec<ColumnValue>,
}

/// The estimated size of a column value, as a function.
pub open spec fn value_size() -> spec_fn(ColumnValue) -> nat {
    |v: ColumnValue| v.size()
}

/// The sizes of values sum to at least five per value.
proof fn lemma_values_size_lower_bound(vs: Seq<ColumnValue>)
    ensures
        seq_sum(vs, value_size()) >= 5 * vs.len(),
    decreases vs.len(),
{
    if vs.len() > 0 {
        lemma_values_size_lower_bound(vs.drop_last());
    }
}

impl Row {
    /// The estimated size: the sum of the value sizes.
    pub open spec fn size(self) -> nat {
        seq_sum(self.values@, value_size())
    }

    /// The size of a row whose values are those of two rows, one after the
    /// other, is the sum of their sizes.
    pub proof fn lemma_size_concat(a: Row, b: Row, c: Row)
        requires
            c.values@ == a.values@ + b.values@,
        ensures
            c.size() == a.size() + b.size(),
    {
        lemma_seq_sum_concat(a.values@, b.values@, value_size());
    }

    /// A row without values has size 0.
    pub proof fn lemma_empty_size(r: Row)
        requires
            r.values@.len() == 0,
        ensures
            r.size() == 0,
    {
    }

    /// Every value counts at least five bytes: its tag and its OID.
    pub proof fn lemma_size_at_least_five_per_value(r: Row)
        ensures
            r.size() >= 5 * r.values@.len(),
    {
        lemma_values_size_lower_bound(r.values@);
    }

    /// Create a new row from values.
    pub fn new(values: Vec<ColumnValue>) -> (r: Self)
        ensures
            r.values == values,
    {
        Row { values }
    }

    /// Create an empty row.
    pub fn empty() -> (r: Self)
        ensures
            r.values@.len() == 0,
    {
        Row { values: Vec::new() }
    }

    /// Get a value by index.
    pub fn get(&self, index: usize) -> (r: Option<&ColumnValue>)
        ensures
            index < self.values@.len() ==> r == Some(&self.values@[index as int]),
            index >= self.values@.len() ==> r is None,
    {
        if index < self.values.len() {
            Some(&self.values[index])
        } else {
            None
        }
    }

    /// Estimate the size of this row in bytes.
    pub fn size_bytes(&self) -> (n: usize)
        requires
            self.size() <= usize::MAX,
        ensures
            n == self.size(),
    {
        let mut total: usize = 0;
        let mut i: usize = 0;
        while i < self.values.len()
            invariant
                i <= self.values@.len(),
                self.size() <= usize::MAX,
                total == seq_sum(self.values@.take(i as int), value_size()),
            decreases self.values@.len() - i,
        {
            proof {
                lemma_seq_sum_take_step(self.values@, value_size(), i as int);
                lemma_seq_sum_take_le(self.values@, value_size(), i + 1);
            }
            let v = self.values[i].size_bytes();
            total = total + v;
            i = i + 1;
        }
        proof {
            assert(self.values@.take(i as int) =~= self.values@);
        }
        total
    }
}

/// Column metadata.
#[derive(Debug, Clone, PartialEq)]
pub struct ColumnMeta {
    /// Column name.
    pub name: String,
    /// PostgreSQL type OID.
    pub type_oid: u32,
    /// Type modifier (e.g., varchar length, numeric precision).
    pub type_modifier: i32,
    /// Whether this column is part of the key.
    pub is_key: bool,
}

/// Relation (table) metadata.
#[derive(Debug, Clone, PartialEq)]
pub struct RelationMeta {
    /// Relation ID (PostgreSQL OID).
    pub rel_id: u32,
    /// Schema name.
    pub schema: String,
    /// Table name.
    pub table: String,
    /// Column definitions.
    pub columns: Vec<ColumnMeta>,
    /// Replica identity setting.
    pub replica_identity: ReplicaIdentity,
}

impl RelationMeta {
    /// Get the fully qualified table name.
    pub fn qualified_name(&self) -> (s: String)
        ensures
            s@ == qualified(self.schema@, self.table@),
    {
        join_qualified(&self.schema, &self.table)
    }

    /// Get column names in order.
    pub fn column_names(&self) -> (names: Vec<&str>)
        ensures
            names@.len() == self.columns@.len(),
            forall|i: int| 0 <= i < names@.len() ==> (#[trigger] names@[i])@ == self.columns@[i].name@,
    {
        let mut names: Vec<&str> = Vec::new();
        let mut i: usize = 0;
        while i < self.columns.len()
            invariant
                i <= self.columns@.len(),
                names@.len() == i,
                forall|j: int| 0 <= j < i ==> (#[trigger] names@[j])@ == self.columns@[j].name@,
            decreases self.columns@.len() - i,
        {
            names.push(self.columns[i].name.as_str());
            i = i + 1;
        }
        names
    }
}

/// Metadata about a backfill operation, sent with `BackfillStart` events.
///
/// Contains estimated table and row counts for progress tracking.
#[derive(Debug, Clone, PartialEq)]
pub struct BackfillMetadata {
    /// Number of tables being backfilled.
    pub table_count: u32,
    /// Estimated total rows across all tables (from pg_class.reltuples).
    pub estimated_total_rows: u64,
}

/// A single database event.
#[derive(Debug, Clone, PartialEq)]
pub struct DatabaseEvent {
    /// Unique event identifier (UUID v4).
    pub event_id: Option<String>,
    /// Event timestamp (Unix timestamp in microseconds).
    pub timestamp_us: u64,
    /// Operation type.
    pub operation: OperationType,
    /// Schema name.
    pub schema: String,
    /// Table name.
    pub table: String,
    /// Replication position (PostgreSQL LSN as u64).
    pub position: u64,
    /// Transaction ID.
    pub transaction_id: u64,
    /// New row data (for INSERT, UPDATE, SnapshotRow).
    pub new_row: Option<Row>,
    /// Old row data (for UPDATE with REPLICA IDENTITY FULL, DELETE).
    pub old_row: Option<Row>,
    /// Column names in order.
    pub columns: Vec<String>,
    /// Relation metadata (sent once per table per stream).
    pub relation_meta: Option<RelationMeta>,
    /// DDL SQL statement (when operation == Ddl).
    /// Contains the full CREATE/ALTER/DROP statement.
    pub ddl_sql: Option<String>,
    /// DDL object type for filtering/logging,
    /// e.g. "extension", "table", "index", "constraint", "function", "trigger".
    pub ddl_object_type: Option<String>,
}

/// The estimated size of a row that may be absent.
pub open spec fn optional_row_size(row: Option<Row>) -> nat {
    match row {
        Some(r) => r.size(),
        None => 0,
    }
}

/// The byte length of a text, as a function.
pub open spec fn string_len() -> spec_fn(String) -> nat {
    |c: String| text_len(c@)
}

/// The estimated size of an event, as a function.
pub open spec fn event_size() -> spec_fn(DatabaseEvent) -> nat {
    |e: DatabaseEvent| e.size()
}

impl DatabaseEvent {
    /// The estimated size: 64 bytes of overhead, the schema and table names,
    /// the rows and the column names.
    pub open spec fn size(self) -> nat {
        64 + text_len(self.schema@) + text_len(self.table@) + optional_row_size(self.new_row)
            + optional_row_size(self.old_row) + seq_sum(self.columns@, string_len())
    }

    /// Get the fully qualified table name.
    pub fn qualified_name(&self) -> (s: String)
        ensures
            s@ == qualified(self.schema@, self.table@),
    {
        join_qualified(&self.schema, &self.table)
    }

    /// Estimate the size of this event in bytes.
    pub fn size_bytes(&self) -> (n: usize)
        requires
            self.size() <= usize::MAX,
        ensures
            n == self.size(),
    {
        let mut size: usize = 64;
        size = size + self.schema.as_str().len();
        size = size + self.table.as_str().len();
        if let Some(row) = &self.new_row {
            size = size + row.size_bytes();
        }
        if let Some(row) = &self.old_row {
            size = size + row.size_bytes();
        }
        let mut columns_total: usize = 0;
        let mut i: usize = 0;
        while i < self.columns.len()
            invariant
                i <= self.columns@.len(),
                seq_sum(self.columns@, string_len()) <= usize::MAX,
                columns_total == seq_sum(self.columns@.take(i as int), string_len()),
            decreases self.columns@.len() - i,
        {
            proof {
                lemma_seq_sum_take_step(self.columns@, string_len(), i as int);
                lemma_seq_sum_take_le(self.columns@, string_len(), i + 1);
            }
            columns_total = columns_total + self.columns[i].as_str().len();
            i = i + 1;
        }
        proof {
            assert(self.columns@.take(i as int) =~= self.columns@);
        }
        size + columns_total
    }
}

/// Each row of an event counts in full toward its size: giving an event
/// without an old row the old row `r` raises its size by exactly `r`'s size,
/// whatever its new row; likewise for the new row. The size of an event with
/// neither row nor column names is 64 plus the byte lengths of its schema and
/// table names.
pub proof fn lemma_event_size_counts_each_row(e: DatabaseEvent, r: Row)
    ensures
        e.old_row is None ==> (DatabaseEvent { old_row: Some(r), ..e }).size() == e.size() + r.size(),
        e.new_row is None ==> (DatabaseEvent { new_row: Some(r), ..e }).size() == e.size() + r.size(),
        e.new_row is None && e.old_row is None && e.columns@.len() == 0 ==> e.size() == 64 + text_len(
            e.schema@,
        ) + text_len(e.table@),
{
}

/// Batch of events for efficient transport.
#[derive(Debug, Clone, PartialEq)]
pub struct DatabaseEventBatch {
    /// Events in this batch.
    pub events: Vec<DatabaseEvent>,
    /// Source identifier (proxy/connector ID).
    pub source_id: Option<String>,
    /// Batch sequence number (for ordering/deduplication).
    pub batch_seq: u64,
    /// Cached relation metadata for this batch.
    pub relations: Vec<RelationMeta>,
    /// Control directive for this batch (if a control batch).
    /// When present, this batch signals the receiver to perform
    /// an administrative operation rather than applying data changes.
    pub control_directive: Option<ControlDirective>,
    /// Sequence values for synchronization.
    /// Present when control_directive is SyncSequences.
    pub sequence_values: Option<Vec<SequenceValue>>,
    /// Backfill metadata for progress tracking.
    /// Present when the batch contains a BackfillStart event.
    pub backfill_metadata: Option<BackfillMetadata>,
}

impl DatabaseEventBatch {
    /// The estimated size: 32 bytes of overhead and the event sizes.
    pub open spec fn size(self) -> nat {
        32 + seq_sum(self.events@, event_size())
    }

    /// Create a new empty batch.
    pub fn new() -> (b: Self)
        ensures
            b.events@.len() == 0,
            b.source_id is None,
            b.batch_seq == 0,
            b.relations@.len() == 0,
            b.control_directive is None,
            b.sequence_values is None,
            b.backfill_metadata is None,
    {
        DatabaseEventBatch {
            events: Vec::new(),
            source_id: None,
            batch_seq: 0,
            relations: Vec::new(),
            control_directive: None,
            sequence_values: None,
            backfill_metadata: None,
        }
    }

    /// Create a batch with events.
    pub fn with_events(events: Vec<DatabaseEvent>) -> (b: Self)
        ensures
            b.events == events,
            b.source_id is None,
            b.batch_seq == 0,
            b.relations@.len() == 0,
            b.control_directive is None,
            b.sequence_values is None,
            b.backfill_metadata is None,
    {
        DatabaseEventBatch {
            events,
            source_id: None,
            batch_seq: 0,
            relations: Vec::new(),
            control_directive: None,
            sequence_values: None,
            backfill_metadata: None,
        }
    }

    /// Create a control batch that signals an administrative operation.
    pub fn control(directive: ControlDirective) -> (b: Self)
        ensures
            b.events@.len() == 0,
            b.source_id is None,
            b.batch_seq == 0,
            b.relations@.len() == 0,
            b.control_directive == Some(directive),
            b.sequence_values is None,
            b.backfill_metadata is None,
    {
        DatabaseEventBatch {
            events: Vec::new(),
            source_id: None,
            batch_seq: 0,
            relations: Vec::new(),
            control_directive: Some(directive),
            sequence_values: None,
            backfill_metadata: None,
        }
    }

    /// Create a sequence sync control batch with sequence values.
    pub fn sequence_sync(sequences: Vec<SequenceValue>) -> (b: Self)
        ensures
            b.events@.len() == 0,
            b.source_id is None,
            b.batch_seq == 0,
            b.relations@.len() == 0,
            b.control_directive == Some(ControlDirective::SyncSequences),
            b.sequence_values == Some(sequences),
            b.backfill_metadata is None,
    {
        DatabaseEventBatch {
            events: Vec::new(),
            source_id: None,
            batch_seq: 0,
            relations: Vec::new(),
            control_directive: Some(ControlDirective::SyncSequences),
            sequence_values: Some(sequences),
            backfill_metadata: None,
        }
    }

    /// Set the source ID.
    pub fn with_source_id(self, source_id: &str) -> (b: Self)
        ensures
            b.source_id matches Some(s) && s@ == source_id@,
            b == (DatabaseEventBatch { source_id: b.source_id, ..self }),
    {
        let mut b = self;
        b.source_id = Some(source_id.to_string());
        b
    }

    /// Set the batch sequence number.
    pub fn with_batch_seq(self, seq: u64) -> (b: Self)
        ensures
            b == (DatabaseEventBatch { batch_seq: seq, ..self }),
    {
        let mut b = self;
        b.batch_seq = seq;
        b
    }

    /// Set the control directive.
    pub fn with_control_directive(self, directive: ControlDirective) -> (b: Self)
        ensures
            b == (DatabaseEventBatch { control_directive: Some(directive), ..self }),
    {
        let mut b = self;
        b.control_directive = Some(directive);
        b
    }

    /// Set sequence values.
    pub fn with_sequence_values(self, sequences: Vec<SequenceValue>) -> (b: Self)
        ensures
            b == (DatabaseEventBatch { sequence_values: Some(sequences), ..self }),
    {
        let mut b = self;
        b.sequence_values = Some(sequences);
        b
    }

    /// Set backfill metadata for progress tracking.
    pub fn with_backfill_metadata(self, metadata: BackfillMetadata) -> (b: Self)
        ensures
            b == (DatabaseEventBatch { backfill_metadata: Some(metadata), ..self }),
    {
        let mut b = self;
        b.backfill_metadata = Some(metadata);
        b
    }

    /// Check if this is a control batch (no data events, just a directive).
    pub fn is_control_batch(&self) -> (r: bool)
        ensures
            r == self.control_directive is Some,
    {
        self.control_directive.is_some()
    }

    /// Estimate the size of this batch in bytes.
    pub fn size_bytes(&self) -> (n: usize)
        requires
            self.size() <= usize::MAX,
        ensures
            n == self.size(),
    {
        let mut total: usize = 0;
        let mut i: usize = 0;
        while i < self.events.len()
            invariant
                i <= self.events@.len(),
                self.size() <= usize::MAX,
                total == seq_sum(self.events@.take(i as int), event_size()),
            decreases self.events@.len() - i,
        {
            proof {
                lemma_seq_sum_take_step(self.events@, event_size(), i as int);
                lemma_seq_sum_take_le(self.events@, event_size(), i + 1);
            }
            total = total + self.events[i].size_bytes();
            i = i + 1;
        }
        proof {
            assert(self.events@.take(i as int) =~= self.events@);
        }
        32 + total
    }
}

impl Default for DatabaseEventBatch {
    fn default() -> (b: Self)
        ensures
            b.events@.len() == 0,
            b.source_id is None,
            b.batch_seq == 0,
            b.relations@.len() == 0,
            b.control_directive is None,
            b.sequence_values is None,
            b.backfill_metadata is None,
    {
        Self::new()
    }
}

} // verus!
