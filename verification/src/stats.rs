//! Per-row-group statistics of a file, and their extraction from the raw
//! values found in the file's footer.

use vstd::prelude::*;
use crate::schema::{FieldView, indexed_count};

verus! {

/// Minimum and maximum of one column within one row group, in one of the two
/// domains that the index compares in.
#[derive(Debug, Clone, PartialEq, Eq)]
pub enum MinMaxStats {
    Int(i64, i64),
    String(String, String),
}

/// The mathematical value of a [`MinMaxStats`].
pub enum MinMaxStatsView {
    Int(i64, i64),
    String(Seq<char>, Seq<char>),
}

impl View for MinMaxStats {
    type V = MinMaxStatsView;

    open spec fn view(&self) -> MinMaxStatsView {
        match *self {
            MinMaxStats::Int(min, max) => MinMaxStatsView::Int(min, max),
            MinMaxStats::String(min, max) => MinMaxStatsView::String(min@, max@),
        }
    }
}

/// Statistics of one column within one row group of one file.
#[derive(Debug, Clone, PartialEq, Eq)]
pub struct ColumnStatistics {
    pub null_count: i64,
    pub stats: MinMaxStats,
}

/// The mathematical value of a [`ColumnStatistics`].
pub struct ColumnStatisticsView {
    pub null_count: i64,
    pub stats: MinMaxStatsView,
}

impl View for ColumnStatistics {
    type V = ColumnStatisticsView;

    open spec fn view(&self) -> ColumnStatisticsView {
        ColumnStatisticsView { null_count: self.null_count, stats: self.stats@ }
    }
}

/// The statistics row of one row group, as it is written to the index.
#[derive(Debug, Clone, PartialEq, Eq)]
pub struct RowGroupStatisticsInsert {
    pub row_group: i64,
    pub row_count: i64,
    /// Per-column statistics
    pub column_statistics: Vec<ColumnStatistics>,
}

/// The mathematical value of a [`RowGroupStatisticsInsert`].
pub struct RowGroupStatisticsView {
    pub row_group: i64,
    pub row_count: i64,
    pub column_statistics: Seq<ColumnStatisticsView>,
}

/// The statistics of a sequence of columns, each by its view.
pub open spec fn columns_view(columns: Seq<ColumnStatistics>) -> Seq<ColumnStatisticsView> {
    Seq::new(columns.len(), |i: int| columns[i]@)
}

impl View for RowGroupStatisticsInsert {
    type V = RowGroupStatisticsView;

    open spec fn view(&self) -> RowGroupStatisticsView {
        RowGroupStatisticsView {
            row_group: self.row_group,
            row_count: self.row_count,
            column_statistics: columns_view(self.column_statistics@),
        }
    }
}

/// The statistics rows of a sequence of row groups, each by its view.
pub open spec fn row_groups_view(groups: Seq<RowGroupStatisticsInsert>) -> Seq<RowGroupStatisticsView> {
    Seq::new(groups.len(), |i: int| groups[i]@)
}

/// Each row has one entry of statistics for each indexed field of the schema.
pub open spec fn rows_fit(schema: Seq<FieldView>, rows: Seq<RowGroupStatisticsView>) -> bool {
    forall|i: int|
        0 <= i < rows.len() ==> (#[trigger] rows[i]).column_statistics.len() == indexed_count(
            schema,
            schema.len(),
        )
}

impl RowGroupStatisticsInsert {
    /// The statistics row of a row group that has no column statistics yet.
    pub fn new(row_group: i64, row_count: i64) -> (row: Self)
        ensures
            row.row_group == row_group,
            row.row_count == row_count,
            row.column_statistics@ == Seq::<ColumnStatistics>::empty(),
    {
        Self { row_group, row_count, column_statistics: Vec::new() }
    }
}

/// The file-level record of one indexed file.
#[derive(Debug, Clone, PartialEq, Eq)]
pub struct FileStatisticsInsert {
    pub file_name: String,
    pub file_size_bytes: i64,
    pub row_group_count: i64,
    pub row_count: i64,
}

/// The mathematical value of a [`FileStatisticsInsert`].
pub struct FileStatisticsView {
    pub file_name: Seq<char>,
    pub file_size_bytes: i64,
    pub row_group_count: i64,
    pub row_count: i64,
}

impl View for FileStatisticsInsert {
    type V = FileStatisticsView;

    open spec fn view(&self) -> FileStatisticsView {
        FileStatisticsView {
            file_name: self.file_name@,
            file_size_bytes: self.file_size_bytes,
            row_group_count: self.row_group_count,
            row_count: self.row_count,
        }
    }
}

} // verus!
