//! Mapping from a logical column type to the relational column type that holds
//! its statistics, and to the domain in which its minimum and maximum compare.

use vstd::prelude::*;

verus! {

/// The declared value type of a column of the indexed dataset.
#[derive(Clone, Copy, Debug, PartialEq, Eq, Structural)]
pub enum DataKind {
    Int8,
    UInt8,
    Int16,
    UInt16,
    Int32,
    UInt32,
    Int64,
    UInt64,
    Float32,
    Float64,
    Utf8,
    LargeUtf8,
    Binary,
    FixedSizeBinary,
    LargeBinary,
    /// Any other type: nested, temporal, decimal and so on.
    Other,
}

/// The relational column type of a statistics column.
#[derive(Clone, Copy, Debug, PartialEq, Eq, Structural)]
pub enum ColumnType {
    TinyInteger,
    TinyUnsigned,
    SmallInteger,
    SmallUnsigned,
    Integer,
    Unsigned,
    BigInteger,
    BigUnsigned,
    Float,
    Double,
    Text,
    Binary,
}

/// The domain in which the minimum and maximum of a column are kept.
#[derive(Clone, Copy, Debug, PartialEq, Eq, Structural)]
pub enum StatDomain {
    /// Signed 64-bit integers; narrower and unsigned integers are widened.
    Int,
    /// UTF-8 text, ordered by its bytes.
    Text,
}

/// One field of the schema that an index is built for.
#[derive(Debug, Clone, PartialEq, Eq)]
pub struct Field {
    pub name: String,
    pub kind: DataKind,
    pub nullable: bool,
}

/// The mathematical value of a [`Field`].
pub struct FieldView {
    pub name: Seq<char>,
    pub kind: DataKind,
    pub nullable: bool,
}

impl View for Field {
    type V = FieldView;

    open spec fn view(&self) -> FieldView {
        FieldView { name: self.name@, kind: self.kind, nullable: self.nullable }
    }
}

/// The fields of a schema, each by its view.
pub open spec fn schema_view(fields: Seq<Field>) -> Seq<FieldView> {
    Seq::new(fields.len(), |i: int| fields[i]@)
}

/// The relational column type for each logical type that has one.
pub open spec fn column_type_of(kind: DataKind) -> Option<ColumnType> {
    match kind {
        DataKind::Int8 => Some(ColumnType::TinyInteger),
        DataKind::UInt8 => Some(ColumnType::TinyUnsigned),
        DataKind::Int16 => Some(ColumnType::SmallInteger),
        DataKind::UInt16 => Some(ColumnType::SmallUnsigned),
        DataKind::Int32 => Some(ColumnType::Integer),
        DataKind::UInt32 => Some(ColumnType::Unsigned),
        DataKind::Int64 => Some(ColumnType::BigInteger),
        DataKind::UInt64 => Some(ColumnType::BigUnsigned),
        DataKind::Float32 => Some(ColumnType::Float),
        DataKind::Float64 => Some(ColumnType::Double),
        DataKind::Utf8 => Some(ColumnType::Text),
        DataKind::LargeUtf8 => Some(ColumnType::Text),
        DataKind::Binary => Some(ColumnType::Binary),
        DataKind::FixedSizeBinary => Some(ColumnType::Binary),
        DataKind::LargeBinary => Some(ColumnType::Binary),
        DataKind::Other => None,
    }
}

/// The statistics domain of each logical type whose minimum and maximum are
/// indexed: the integers of up to 64 bits and the two text types.
pub open spec fn stat_domain_of(kind: DataKind) -> Option<StatDomain> {
    match kind {
        DataKind::Int8
        | DataKind::UInt8
        | DataKind::Int16
        | DataKind::UInt16
        | DataKind::Int32
        | DataKind::UInt32
        | DataKind::Int64
        | DataKind::UInt64 => Some(StatDomain::Int),
        DataKind::Utf8 | DataKind::LargeUtf8 => Some(StatDomain::Text),
        _ => None,
    }
}

/// Whether statistics of a column of this type are kept in the index.
pub open spec fn is_indexed(kind: DataKind) -> bool {
    stat_domain_of(kind) is Some
}

/// The number of indexed fields among the first `n` fields of the schema.
pub open spec fn indexed_count(schema: Seq<FieldView>, n: nat) -> nat
    decreases n,
{
    if n == 0 {
        0
    } else {
        indexed_count(schema, (n - 1) as nat) + if is_indexed(schema[n - 1].kind) {
            1nat
        } else {
            0nat
        }
    }
}

/// Maps a logical type to its relational column type; `None` for a type that
/// has no column type.
pub fn column_type(kind: DataKind) -> (ty: Option<ColumnType>)
    ensures
        ty == column_type_of(kind),
{
    match kind {
        DataKind::Int8 => Some(ColumnType::TinyInteger),
        DataKind::UInt8 => Some(ColumnType::TinyUnsigned),
        DataKind::Int16 => Some(ColumnType::SmallInteger),
        DataKind::UInt16 => Some(ColumnType::SmallUnsigned),
        DataKind::Int32 => Some(ColumnType::Integer),
        DataKind::UInt32 => Some(ColumnType::Unsigned),
        DataKind::Int64 => Some(ColumnType::BigInteger),
        DataKind::UInt64 => Some(ColumnType::BigUnsigned),
        DataKind::Float32 => Some(ColumnType::Float),
        DataKind::Float64 => Some(ColumnType::Double),
        DataKind::Utf8 => Some(ColumnType::Text),
        DataKind::LargeUtf8 => Some(ColumnType::Text),
        DataKind::Binary => Some(ColumnType::Binary),
        DataKind::FixedSizeBinary => Some(ColumnType::Binary),
        DataKind::LargeBinary => Some(ColumnType::Binary),
        DataKind::Other => None,
    }
}

/// Maps a logical type to the domain of its statistics; `None` for a type
/// whose statistics are not indexed.
pub fn stat_domain(kind: DataKind) -> (domain: Option<StatDomain>)
    ensures
        domain == stat_domain_of(kind),
{
    match kind {
        DataKind::Int8
        | DataKind::UInt8
        | DataKind::Int16
        | DataKind::UInt16
        | DataKind::Int32
        | DataKind::UInt32
        | DataKind::Int64
        | DataKind::UInt64 => Some(StatDomain::Int),
        DataKind::Utf8 | DataKind::LargeUtf8 => Some(StatDomain::Text),
        _ => None,
    }
}

/// Every indexed type has a relational column type, so the statistics
/// columns of an indexed field can always be declared.
pub proof fn indexed_kind_has_column_type(kind: DataKind)
    requires
        is_indexed(kind),
    ensures
        column_type_of(kind) is Some,
{
}

} // verus!
