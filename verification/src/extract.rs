//! Turning the raw footer statistics of one file into the rows that the index
//! stores: one row per row group, with the statistics of every indexed field
//! widened into its comparison domain.

use vstd::prelude::*;
use crate::schema::{
    DataKind, Field, FieldView, StatDomain, indexed_count, is_indexed, schema_view, stat_domain,
    stat_domain_of,
};
use crate::stats::{
    ColumnStatistics, ColumnStatisticsView, FileStatisticsInsert, FileStatisticsView, MinMaxStats,
    MinMaxStatsView, RowGroupStatisticsInsert, RowGroupStatisticsView, columns_view,
    row_groups_view, rows_fit,
};

verus! {

/// One statistic as the file's footer holds it, in the column's own type.
#[derive(Debug, Clone, PartialEq, Eq)]
pub enum RawStat {
    Int8(i8),
    UInt8(u8),
    Int16(i16),
    UInt16(u16),
    Int32(i32),
    UInt32(u32),
    Int64(i64),
    UInt64(u64),
    Utf8(String),
    LargeUtf8(String),
}

/// The statistics of one column within one row group; `None` where the
/// footer holds no value.
#[derive(Debug, Clone, PartialEq, Eq)]
pub struct RawColumnChunk {
    pub null_count: Option<u64>,
    pub min: Option<RawStat>,
    pub max: Option<RawStat>,
}

/// The statistics of one column, one entry per row group in storage order.
#[derive(Debug, Clone, PartialEq, Eq)]
pub struct RawColumn {
    pub chunks: Vec<RawColumnChunk>,
}

/// What the footer of one file says: the row count of each row group and,
/// for each field of the index's schema in schema order, its raw statistics.
#[derive(Debug, Clone, PartialEq, Eq)]
pub struct RawFile {
    pub file_name: String,
    pub file_size: u64,
    pub num_rows: i64,
    pub row_counts: Vec<Option<u64>>,
    pub columns: Vec<RawColumn>,
}

/// Why the footer of a file cannot be indexed.
#[derive(Clone, Copy, Debug, PartialEq, Eq, Structural)]
pub enum ExtractError {
    /// The columns do not line up with the schema, or an indexed column does
    /// not have one entry per row group.
    Shape,
    /// A row count, or a statistic of an indexed column, is absent.
    MissingStatistics,
    /// A minimum or maximum is not of the type that its field declares.
    TypeMismatch,
    /// A size, count or unsigned statistic does not fit a signed 64-bit integer.
    OutOfRange,
}

/// The logical type that a raw statistic is stored in.
pub open spec fn raw_kind(raw: RawStat) -> DataKind {
    match raw {
        RawStat::Int8(_) => DataKind::Int8,
        RawStat::UInt8(_) => DataKind::UInt8,
        RawStat::Int16(_) => DataKind::Int16,
        RawStat::UInt16(_) => DataKind::UInt16,
        RawStat::Int32(_) => DataKind::Int32,
        RawStat::UInt32(_) => DataKind::UInt32,
        RawStat::Int64(_) => DataKind::Int64,
        RawStat::UInt64(_) => DataKind::UInt64,
        RawStat::Utf8(_) => DataKind::Utf8,
        RawStat::LargeUtf8(_) => DataKind::LargeUtf8,
    }
}

/// The number that an integer statistic stands for; 0 for text.
pub open spec fn raw_int(raw: RawStat) -> int {
    match raw {
        RawStat::Int8(v) => v as int,
        RawStat::UInt8(v) => v as int,
        RawStat::Int16(v) => v as int,
        RawStat::UInt16(v) => v as int,
        RawStat::Int32(v) => v as int,
        RawStat::UInt32(v) => v as int,
        RawStat::Int64(v) => v as int,
        RawStat::UInt64(v) => v as int,
        RawStat::Utf8(_) => 0,
        RawStat::LargeUtf8(_) => 0,
    }
}

/// The text that a text statistic holds; empty for an integer.
pub open spec fn raw_text(raw: RawStat) -> Seq<char> {
    match raw {
        RawStat::Utf8(s) => s@,
        RawStat::LargeUtf8(s) => s@,
        _ => Seq::empty(),
    }
}

/// All three statistics of the chunk are there.
pub open spec fn chunk_present(chunk: RawColumnChunk) -> bool {
    chunk.null_count is Some && chunk.min is Some && chunk.max is Some
}

/// Minimum and maximum, where present, are stored in the field's own type.
pub open spec fn chunk_typed(kind: DataKind, chunk: RawColumnChunk) -> bool {
    &&& chunk.min matches Some(min) ==> raw_kind(min) == kind
    &&& chunk.max matches Some(max) ==> raw_kind(max) == kind
}

/// Each statistic of the chunk, where present, fits a signed 64-bit integer.
pub open spec fn chunk_in_range(chunk: RawColumnChunk) -> bool {
    &&& chunk.null_count matches Some(n) ==> n <= i64::MAX
    &&& chunk.min matches Some(min) ==> raw_int(min) <= i64::MAX
    &&& chunk.max matches Some(max) ==> raw_int(max) <= i64::MAX
}

/// The statistics that the index stores for a chunk of a field of type
/// `kind`: the null count, and minimum and maximum widened into the field's
/// domain without changing their value.
pub open spec fn chunk_stats(kind: DataKind, chunk: RawColumnChunk) -> ColumnStatisticsView {
    let min = chunk.min.unwrap();
    let max = chunk.max.unwrap();
    ColumnStatisticsView {
        null_count: chunk.null_count.unwrap() as i64,
        stats: match stat_domain_of(kind) {
            Some(StatDomain::Text) => MinMaxStatsView::String(raw_text(min), raw_text(max)),
            _ => MinMaxStatsView::Int(raw_int(min) as i64, raw_int(max) as i64),
        },
    }
}

/// The chunk of field `f` in row group `r`.
pub open spec fn cell(raw: RawFile, f: int, r: int) -> RawColumnChunk {
    raw.columns@[f].chunks@[r]
}

/// `f` is an indexed field of the schema and `r` a row group of the file.
pub open spec fn indexed_cell(schema: Seq<FieldView>, raw: RawFile, f: int, r: int) -> bool {
    0 <= f < schema.len() && is_indexed(schema[f].kind) && 0 <= r < raw.row_counts@.len()
}

/// The file has one column per schema field, and each indexed column has one
/// chunk per row group. Columns of fields that are not indexed may hold
/// anything.
pub open spec fn shape_ok(schema: Seq<FieldView>, raw: RawFile) -> bool {
    &&& raw.columns@.len() == schema.len()
    &&& forall|f: int|
        0 <= f < schema.len() && is_indexed(#[trigger] schema[f].kind)
            ==> raw.columns@[f].chunks@.len() == raw.row_counts@.len()
}

/// Every row count and every statistic of an indexed column is there.
pub open spec fn all_present(schema: Seq<FieldView>, raw: RawFile) -> bool {
    &&& forall|r: int| 0 <= r < raw.row_counts@.len() ==> (#[trigger] raw.row_counts@[r]) is Some
    &&& forall|f: int, r: int| #[trigger]
        indexed_cell(schema, raw, f, r) ==> chunk_present(cell(raw, f, r))
}

/// Every minimum and maximum of an indexed column has its field's type.
pub open spec fn all_typed(schema: Seq<FieldView>, raw: RawFile) -> bool {
    forall|f: int, r: int| #[trigger]
        indexed_cell(schema, raw, f, r) ==> chunk_typed(schema[f].kind, cell(raw, f, r))
}

/// The file size, the number of row groups, every row count and every
/// statistic of an indexed column fit a signed 64-bit integer.
pub open spec fn all_in_range(schema: Seq<FieldView>, raw: RawFile) -> bool {
    &&& raw.file_size <= i64::MAX
    &&& raw.row_counts@.len() <= i64::MAX
    &&& forall|r: int|
        0 <= r < raw.row_counts@.len() ==> ((#[trigger] raw.row_counts@[r]) matches Some(n) ==> n
            <= i64::MAX)
    &&& forall|f: int, r: int| #[trigger]
        indexed_cell(schema, raw, f, r) ==> chunk_in_range(cell(raw, f, r))
}

/// The defect for which a file is refused, `None` where it has none. Of
/// several defects the first in this order is reported: shape, absent
/// statistics, wrong type, out of range.
pub open spec fn extraction_error(schema: Seq<FieldView>, raw: RawFile) -> Option<ExtractError> {
    if !shape_ok(schema, raw) {
        Some(ExtractError::Shape)
    } else if !all_present(schema, raw) {
        Some(ExtractError::MissingStatistics)
    } else if !all_typed(schema, raw) {
        Some(ExtractError::TypeMismatch)
    } else if !all_in_range(schema, raw) {
        Some(ExtractError::OutOfRange)
    } else {
        None
    }
}

/// The statistics of row group `r` for the indexed fields among the first `n`
/// fields of the schema, in schema order. Fields that are not indexed
/// contribute nothing.
pub open spec fn row_cells(schema: Seq<FieldView>, raw: RawFile, r: int, n: nat) -> Seq<
    ColumnStatisticsView,
>
    decreases n,
{
    if n == 0 {
        Seq::empty()
    } else {
        let before = row_cells(schema, raw, r, (n - 1) as nat);
        if is_indexed(schema[n - 1].kind) {
            before.push(chunk_stats(schema[n - 1].kind, cell(raw, n - 1, r)))
        } else {
            before
        }
    }
}

/// The statistics row of row group `r`.
pub open spec fn row_group_of(schema: Seq<FieldView>, raw: RawFile, r: int) -> RowGroupStatisticsView {
    RowGroupStatisticsView {
        row_group: r as i64,
        row_count: raw.row_counts@[r].unwrap() as i64,
        column_statistics: row_cells(schema, raw, r, schema.len()),
    }
}

/// The statistics rows of a file: one per row group, numbered from 0 in
/// storage order.
pub open spec fn row_groups_of(schema: Seq<FieldView>, raw: RawFile) -> Seq<RowGroupStatisticsView> {
    Seq::new(raw.row_counts@.len(), |r: int| row_group_of(schema, raw, r))
}

/// The file-level record of a file.
pub open spec fn file_record_of(raw: RawFile) -> FileStatisticsView {
    FileStatisticsView {
        file_name: raw.file_name@,
        file_size_bytes: raw.file_size as i64,
        row_group_count: raw.row_counts@.len() as i64,
        row_count: raw.num_rows,
    }
}


/// A row holds one entry of statistics for each indexed field.
pub proof fn row_cells_count(schema: Seq<FieldView>, raw: RawFile, r: int, n: nat)
    ensures
        row_cells(schema, raw, r, n).len() == indexed_count(schema, n),
    decreases n,
{
    if n > 0 {
        row_cells_count(schema, raw, r, (n - 1) as nat);
    }
}

/// The statistics rows of a file fit the schema that they were extracted
/// for: each can be written to the statistics table of that schema.
pub proof fn rows_of_file_fit_schema(schema: Seq<FieldView>, raw: RawFile)
    ensures
        rows_fit(schema, row_groups_of(schema, raw)),
{
    assert forall|i: int| 0 <= i < row_groups_of(schema, raw).len() implies (
    #[trigger] row_groups_of(schema, raw)[i]).column_statistics.len() == indexed_count(
        schema,
        schema.len(),
    ) by {
        row_cells_count(schema, raw, i, schema.len());
    }
}

/// One of the three conditions that every chunk of an indexed column must meet.
enum Check {
    Present,
    Typed,
    InRange,
}

spec fn chunk_passes(check: Check, kind: DataKind, chunk: RawColumnChunk) -> bool {
    match check {
        Check::Present => chunk_present(chunk),
        Check::Typed => chunk_typed(kind, chunk),
        Check::InRange => chunk_in_range(chunk),
    }
}

fn stat_kind(raw: &RawStat) -> (kind: DataKind)
    ensures
        kind == raw_kind(*raw),
{
    match raw {
        RawStat::Int8(_) => DataKind::Int8,
        RawStat::UInt8(_) => DataKind::UInt8,
        RawStat::Int16(_) => DataKind::Int16,
        RawStat::UInt16(_) => DataKind::UInt16,
        RawStat::Int32(_) => DataKind::Int32,
        RawStat::UInt32(_) => DataKind::UInt32,
        RawStat::Int64(_) => DataKind::Int64,
        RawStat::UInt64(_) => DataKind::UInt64,
        RawStat::Utf8(_) => DataKind::Utf8,
        RawStat::LargeUtf8(_) => DataKind::LargeUtf8,
    }
}

fn stat_fits(raw: &RawStat) -> (fits: bool)
    ensures
        fits == (raw_int(*raw) <= i64::MAX),
{
    match raw {
        RawStat::UInt64(v) => *v <= 0x7fff_ffff_ffff_ffffu64,
        _ => true,
    }
}

/// Widens an integer statistic to 64 signed bits without changing its value.
fn stat_to_i64(raw: &RawStat) -> (v: i64)
    requires
        raw_int(*raw) <= i64::MAX,
    ensures
        v == raw_int(*raw),
{
    match raw {
        RawStat::Int8(v) => *v as i64,
        RawStat::UInt8(v) => *v as i64,
        RawStat::Int16(v) => *v as i64,
        RawStat::UInt16(v) => *v as i64,
        RawStat::Int32(v) => *v as i64,
        RawStat::UInt32(v) => *v as i64,
        RawStat::Int64(v) => *v,
        RawStat::UInt64(v) => *v as i64,
        RawStat::Utf8(_) => 0,
        RawStat::LargeUtf8(_) => 0,
    }
}

fn stat_to_text(raw: &RawStat) -> (s: String)
    ensures
        s@ == raw_text(*raw),
{
    match raw {
        RawStat::Utf8(s) => s.clone(),
        RawStat::LargeUtf8(s) => s.clone(),
        _ => String::new(),
    }
}

fn chunk_check(check: &Check, kind: DataKind, chunk: &RawColumnChunk) -> (ok: bool)
    ensures
        ok == chunk_passes(*check, kind, *chunk),
{
    match check {
        Check::Present => chunk.null_count.is_some() && chunk.min.is_some() && chunk.max.is_some(),
        Check::Typed => {
            let min_ok = match &chunk.min {
                Some(min) => stat_kind(min) == kind,
                None => true,
            };
            let max_ok = match &chunk.max {
                Some(max) => stat_kind(max) == kind,
                None => true,
            };
            min_ok && max_ok
        },
        Check::InRange => {
            let count_ok = match chunk.null_count {
                Some(n) => n <= 0x7fff_ffff_ffff_ffffu64,
                None => true,
            };
            let min_ok = match &chunk.min {
                Some(min) => stat_fits(min),
                None => true,
            };
            let max_ok = match &chunk.max {
                Some(max) => stat_fits(max),
                None => true,
            };
            count_ok && min_ok && max_ok
        },
    }
}

/// Whether every chunk of every indexed column meets `check`.
fn cells_pass(schema: &Vec<Field>, raw: &RawFile, check: Check) -> (ok: bool)
    requires
        shape_ok(schema_view(schema@), *raw),
    ensures
        ok == (forall|f: int, r: int| #[trigger]
            indexed_cell(schema_view(schema@), *raw, f, r) ==> chunk_passes(
                check,
                schema_view(schema@)[f].kind,
                cell(*raw, f, r),
            )),
{
    let ghost sv = schema_view(schema@);
    let groups = raw.row_counts.len();
    let mut f: usize = 0;
    while f < schema.len()
        invariant
            sv == schema_view(schema@),
            shape_ok(sv, *raw),
            groups == raw.row_counts@.len(),
            f <= schema.len(),
            forall|g: int, r: int| #[trigger]
                indexed_cell(sv, *raw, g, r) && g < f ==> chunk_passes(
                    check,
                    sv[g].kind,
                    cell(*raw, g, r),
                ),
        decreases schema.len() - f,
    {
        let kind = schema[f].kind;
        if stat_domain(kind).is_some() {
            let column = &raw.columns[f];
            let mut r: usize = 0;
            while r < groups
                invariant
                    sv == schema_view(schema@),
                    shape_ok(sv, *raw),
                    groups == raw.row_counts@.len(),
                    f < schema.len(),
                    kind == sv[f as int].kind,
                    is_indexed(kind),
                    *column == raw.columns@[f as int],
                    column.chunks@.len() == groups,
                    r <= groups,
                    forall|q: int|
                        0 <= q < r ==> chunk_passes(check, kind, #[trigger] cell(*raw, f as int, q)),
                decreases groups - r,
            {
                if !chunk_check(&check, kind, &column.chunks[r]) {
                    assert(indexed_cell(sv, *raw, f as int, r as int));
                    return false;
                }
                r += 1;
            }
        }
        f += 1;
    }
    true
}

/// Whether every row count is present (`Check::Present`) or fits a signed
/// 64-bit integer (`Check::InRange`).
fn row_counts_pass(raw: &RawFile, in_range: bool) -> (ok: bool)
    ensures
        ok == (forall|r: int|
            0 <= r < raw.row_counts@.len() ==> match #[trigger] raw.row_counts@[r] {
                Some(n) => in_range ==> n <= i64::MAX,
                None => in_range,
            }),
{
    let mut r: usize = 0;
    while r < raw.row_counts.len()
        invariant
            r <= raw.row_counts@.len(),
            forall|q: int|
                0 <= q < r ==> match #[trigger] raw.row_counts@[q] {
                    Some(n) => in_range ==> n <= i64::MAX,
                    None => in_range,
                },
        decreases raw.row_counts@.len() - r,
    {
        let ok = match raw.row_counts[r] {
            Some(n) => !in_range || n <= 0x7fff_ffff_ffff_ffffu64,
            None => in_range,
        };
        if !ok {
            return false;
        }
        r += 1;
    }
    true
}

/// The stored statistics of one chunk of a field of type `kind`.
fn convert_chunk(kind: DataKind, chunk: &RawColumnChunk) -> (stats: ColumnStatistics)
    requires
        chunk_present(*chunk),
        chunk_in_range(*chunk),
    ensures
        stats@ == chunk_stats(kind, *chunk),
{
    let null_count = chunk.null_count.unwrap() as i64;
    let min = chunk.min.as_ref().unwrap();
    let max = chunk.max.as_ref().unwrap();
    let stats = match stat_domain(kind) {
        Some(StatDomain::Text) => MinMaxStats::String(stat_to_text(min), stat_to_text(max)),
        _ => MinMaxStats::Int(stat_to_i64(min), stat_to_i64(max)),
    };
    ColumnStatistics { null_count, stats }
}

/// The statistics row of row group `r` of a file without defects.
fn extract_row_group(schema: &Vec<Field>, raw: &RawFile, r: usize) -> (row: RowGroupStatisticsInsert)
    requires
        extraction_error(schema_view(schema@), *raw) is None,
        r < raw.row_counts@.len(),
    ensures
        row@ == row_group_of(schema_view(schema@), *raw, r as int),
{
    let ghost sv = schema_view(schema@);
    let mut row = RowGroupStatisticsInsert::new(r as i64, raw.row_counts[r].unwrap() as i64);
    let mut f: usize = 0;
    while f < schema.len()
        invariant
            sv == schema_view(schema@),
            extraction_error(sv, *raw) is None,
            r < raw.row_counts@.len(),
            f <= schema.len(),
            row.row_group == r as i64,
            row.row_count == raw.row_counts@[r as int].unwrap() as i64,
            columns_view(row.column_statistics@) == row_cells(sv, *raw, r as int, f as nat),
        decreases schema.len() - f,
    {
        let kind = schema[f].kind;
        if stat_domain(kind).is_some() {
            assert(indexed_cell(sv, *raw, f as int, r as int));
            let stats = convert_chunk(kind, &raw.columns[f].chunks[r]);
            row.column_statistics.push(stats);
        }
        f += 1;
    }
    row
}

/// Extracts what the index stores of one file: its file-level record and
/// one statistics row per row group, in storage order. Each row holds, for
/// every indexed field of `schema` in schema order, the null count and the
/// minimum and maximum widened into the field's domain. A file with a defect
/// is refused; fields that are not indexed never cause a refusal.
pub fn extract(schema: &Vec<Field>, raw: &RawFile) -> (result: Result<
    (FileStatisticsInsert, Vec<RowGroupStatisticsInsert>),
    ExtractError,
>)
    ensures
        match result {
            Ok((file, groups)) => {
                &&& extraction_error(schema_view(schema@), *raw) is None
                &&& file@ == file_record_of(*raw)
                &&& groups@.len() == raw.row_counts@.len()
                &&& row_groups_view(groups@) == row_groups_of(schema_view(schema@), *raw)
                &&& rows_fit(schema_view(schema@), row_groups_view(groups@))
            },
            Err(e) => extraction_error(schema_view(schema@), *raw) == Some(e),
        },
{
    let ghost sv = schema_view(schema@);
    if raw.columns.len() != schema.len() {
        return Err(ExtractError::Shape);
    }
    let groups = raw.row_counts.len();
    let mut f: usize = 0;
    while f < schema.len()
        invariant
            sv == schema_view(schema@),
            raw.columns@.len() == schema.len(),
            groups == raw.row_counts@.len(),
            f <= schema.len(),
            forall|g: int|
                0 <= g < f && is_indexed(#[trigger] sv[g].kind) ==> raw.columns@[g].chunks@.len()
                    == groups,
        decreases schema.len() - f,
    {
        assert(sv[f as int].kind == schema[f as int].kind);
        if stat_domain(schema[f].kind).is_some() && raw.columns[f].chunks.len() != groups {
            return Err(ExtractError::Shape);
        }
        f += 1;
    }
    if !row_counts_pass(raw, false) || !cells_pass(schema, raw, Check::Present) {
        return Err(ExtractError::MissingStatistics);
    }
    if !cells_pass(schema, raw, Check::Typed) {
        return Err(ExtractError::TypeMismatch);
    }
    if raw.file_size > 0x7fff_ffff_ffff_ffffu64 || groups as u64 > 0x7fff_ffff_ffff_ffffu64
        || !row_counts_pass(raw, true) || !cells_pass(schema, raw, Check::InRange) {
        return Err(ExtractError::OutOfRange);
    }
    let file = FileStatisticsInsert {
        file_name: raw.file_name.clone(),
        file_size_bytes: raw.file_size as i64,
        row_group_count: groups as i64,
        row_count: raw.num_rows,
    };
    let mut rows: Vec<RowGroupStatisticsInsert> = Vec::new();
    let mut r: usize = 0;
    while r < groups
        invariant
            sv == schema_view(schema@),
            extraction_error(sv, *raw) is None,
            groups == raw.row_counts@.len(),
            r <= groups,
            rows@.len() == r,
            forall|q: int| 0 <= q < r ==> (#[trigger] rows@[q])@ == row_group_of(sv, *raw, q),
        decreases groups - r,
    {
        let row = extract_row_group(schema, raw, r);
        rows.push(row);
        r += 1;
    }
    proof {
        rows_of_file_fit_schema(sv, *raw);
    }
    Ok((file, rows))
}


/// The rows of a file without defects are its row groups, each once and
/// numbered from 0 in storage order, and the file's record counts them.
pub proof fn extracted_rows_number_the_row_groups(schema: Seq<FieldView>, raw: RawFile)
    requires
        extraction_error(schema, raw) is None,
    ensures
        row_groups_of(schema, raw).len() == raw.row_counts@.len(),
        file_record_of(raw).row_group_count == raw.row_counts@.len(),
        forall|r: int|
            0 <= r < raw.row_counts@.len() ==> (#[trigger] row_groups_of(schema, raw)[r]).row_group
                == r,
{
}

/// `other` is `raw` with the column of field `f` replaced.
pub open spec fn differs_in_column(raw: RawFile, other: RawFile, f: int) -> bool {
    &&& other.file_name@ == raw.file_name@
    &&& other.file_size == raw.file_size
    &&& other.num_rows == raw.num_rows
    &&& other.row_counts@ == raw.row_counts@
    &&& other.columns@.len() == raw.columns@.len()
    &&& forall|g: int|
        0 <= g < raw.columns@.len() && g != f ==> (#[trigger] other.columns@[g]) == raw.columns@[g]
}

proof fn lemma_row_cells_ignore_column(
    schema: Seq<FieldView>,
    raw: RawFile,
    other: RawFile,
    f: int,
    r: int,
    n: nat,
)
    requires
        0 <= f < schema.len(),
        !is_indexed(schema[f].kind),
        differs_in_column(raw, other, f),
        raw.columns@.len() == schema.len(),
        n <= schema.len(),
    ensures
        row_cells(schema, other, r, n) == row_cells(schema, raw, r, n),
    decreases n,
{
    if n > 0 {
        lemma_row_cells_ignore_column(schema, raw, other, f, r, (n - 1) as nat);
    }
}

/// A field that is not indexed never blocks the others: whatever the file
/// holds for its column, the file is refused or taken alike, and the rows
/// that are stored of it are the same.
pub proof fn unindexed_column_never_blocks(
    schema: Seq<FieldView>,
    raw: RawFile,
    other: RawFile,
    f: int,
)
    requires
        0 <= f < schema.len(),
        !is_indexed(schema[f].kind),
        differs_in_column(raw, other, f),
    ensures
        extraction_error(schema, other) == extraction_error(schema, raw),
        extraction_error(schema, raw) is None ==> file_record_of(other) == file_record_of(raw)
            && row_groups_of(schema, other) == row_groups_of(schema, raw),
{
    assert(shape_ok(schema, other) == shape_ok(schema, raw)) by {
        if raw.columns@.len() == schema.len() {
            assert forall|g: int| 0 <= g < schema.len() && is_indexed(#[trigger] schema[g].kind)
                implies other.columns@[g] == raw.columns@[g] by {}
        }
    }
    if shape_ok(schema, raw) {
        assert forall|g: int, r: int| #[trigger] indexed_cell(schema, raw, g, r) implies indexed_cell(
            schema,
            other,
            g,
            r,
        ) && cell(other, g, r) == cell(raw, g, r) by {}
        assert forall|g: int, r: int| #[trigger]
            indexed_cell(schema, other, g, r) implies indexed_cell(schema, raw, g, r) && cell(
            other,
            g,
            r,
        ) == cell(raw, g, r) by {}
    }
    if extraction_error(schema, raw) is None {
        assert forall|r: int| 0 <= r < raw.row_counts@.len() implies row_group_of(schema, other, r)
            == row_group_of(schema, raw, r) by {
            lemma_row_cells_ignore_column(schema, raw, other, f, r, schema.len());
        }
    }
}

} // verus!
