//! The index over one schema: what it asks of its store to take a file in,
//! and how it answers a query from what the store gives back.

use vstd::prelude::*;
use crate::extract::{ExtractError, RawFile, extract, extraction_error, file_record_of, row_groups_of};
use crate::plan::{CandidateRow, FileScanPlan, MalformedRow, entries_view, is_plan_of, plan, row_valid};
use crate::predicate::BoundsExpr;
use crate::schema::{Field, FieldView, schema_view};
use crate::sql::{Statement, sqlite_create_table};
use crate::stats::{FileStatisticsInsert, RowGroupStatisticsInsert, row_groups_view, rows_fit};
use crate::store::{
    CandidatesQuery, candidates_condition, candidates_query, candidates_statement,
    create_file_table, create_row_group_table, delete_row_groups_statement, delete_statement,
    file_table, filter_view, insert_row_groups_statement, insert_statement, prunes,
    row_group_table, row_groups_delete, row_groups_insert, with_statement,
};

verus! {

/// Secondary index for a set of columnar files.
///
/// It keeps file-level data (name and size) and, for each row group of each
/// file, the statistics of every indexed column. A filter is pushed down to
/// the index to learn which row groups, and hence which files, a scan has to
/// read.
///
/// The index itself holds only the schema that it was built for; the two
/// tables live in a relational store, which the caller drives with the
/// statements that the index hands out.
#[derive(Debug)]
pub struct SQLiteIndex {
    /// The schema of the index. Not all columns of a table need to be indexed.
    schema: Vec<Field>,
}

impl SQLiteIndex {
    /// The fields that the index was built for.
    pub closed spec fn fields(&self) -> Seq<FieldView> {
        schema_view(self.schema@)
    }

    /// An index for the fields of `schema`. Fields of a type that is not
    /// indexed may be among them; the index keeps nothing of them.
    pub fn new(schema: Vec<Field>) -> (index: Self)
        ensures
            index.fields() == schema_view(schema@),
    {
        Self { schema }
    }

    /// The statements that create the two tables of the index unless they
    /// exist: first the table of files, then the table of row-group
    /// statistics, whose columns follow from the schema alone.
    pub fn initialize(&self) -> (statements: Vec<String>)
        ensures
            statements@.len() == 2,
            statements@[0]@ == sqlite_create_table(file_table()),
            statements@[1]@ == sqlite_create_table(row_group_table(self.fields())),
    {
        let mut statements: Vec<String> = Vec::new();
        statements.push(create_file_table());
        statements.push(create_row_group_table(&self.schema));
        statements
    }

    /// Extracts what the index stores of one file from the file's footer.
    /// See [`extract`].
    pub fn add_file(&self, raw: &RawFile) -> (result: Result<
        (FileStatisticsInsert, Vec<RowGroupStatisticsInsert>),
        ExtractError,
    >)
        ensures
            match result {
                Ok((file, groups)) => {
                    &&& extraction_error(self.fields(), *raw) is None
                    &&& file@ == file_record_of(*raw)
                    &&& groups@.len() == raw.row_counts@.len()
                    &&& row_groups_view(groups@) == row_groups_of(self.fields(), *raw)
                    &&& rows_fit(self.fields(), row_groups_view(groups@))
                },
                Err(e) => extraction_error(self.fields(), *raw) == Some(e),
            },
    {
        extract(&self.schema, raw)
    }

    /// The statements that replace the statistics rows of the file with this
    /// identifier, to be run in this order within the transaction that wrote
    /// the file's record: first the deletion of every row that the store holds
    /// of the file, then, where there are any, the insertion of the new rows.
    pub fn add_row(&self, file_id: i64, row_groups: &Vec<RowGroupStatisticsInsert>) -> (statements:
        Vec<Statement>)
        requires
            rows_fit(self.fields(), row_groups_view(row_groups@)),
        ensures
            statements@.len() == if row_groups@.len() == 0 {
                1nat
            } else {
                2nat
            },
            statements@[0]@ == delete_statement(row_groups_delete(file_id)),
            row_groups@.len() > 0 ==> statements@[1]@ == insert_statement(
                row_groups_insert(self.fields(), file_id, row_groups_view(row_groups@)),
            ),
    {
        let mut statements: Vec<Statement> = Vec::new();
        statements.push(delete_row_groups_statement(file_id));
        match insert_row_groups_statement(&self.schema, file_id, row_groups) {
            Some(insert) => {
                statements.push(insert);
            },
            None => {},
        }
        statements
    }

    /// The query for the row groups that a filter does not rule out. See
    /// [`candidates_statement`].
    pub fn candidates(&self, filter: Option<BoundsExpr>) -> (query: CandidatesQuery)
        ensures
            query.pruned == prunes(filter_view(filter)),
            query.statement@ == with_statement(
                candidates_query(candidates_condition(filter_view(filter))),
            ),
    {
        candidates_statement(filter)
    }

    /// The files that have to be read, each with the row groups to scan, from
    /// the rows that the candidates query gave. See [`plan`].
    pub fn get_files(&self, candidates: &Vec<CandidateRow>) -> (result: Result<
        Vec<(String, FileScanPlan)>,
        MalformedRow,
    >)
        ensures
            match result {
                Ok(entries) => {
                    &&& forall|k: int| 0 <= k < candidates@.len() ==> row_valid(candidates@, k)
                    &&& is_plan_of(candidates@, entries_view(entries@))
                },
                Err(e) => {
                    &&& e.index < candidates@.len()
                    &&& !row_valid(candidates@, e.index as int)
                    &&& forall|k: int| 0 <= k < e.index ==> row_valid(candidates@, k)
                },
            },
    {
        plan(candidates)
    }
}

} // verus!
