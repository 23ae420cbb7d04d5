//! The statements by which the index keeps its two tables: their creation,
//! the replacement of a file's statistics, and the query for the row groups
//! that a predicate does not rule out.

use vstd::prelude::*;
use vstd::string::StringExecFns;
use sea_query::{ColumnDef, SimpleExpr};
use crate::compile::{compile, is_supported};
use crate::predicate::{
    BoundsExpr, ExprModel, Operator, ScalarModel, evaluate, rewrite_keeps_meaning,
    rewrite_row_counts, with_row_count_placeholders, with_shared_row_count,
};
use crate::schema::{
    ColumnType, DataKind, Field, FieldView, column_type, column_type_of, indexed_count, is_indexed,
    schema_view, stat_domain,
};
use crate::sql::{
    ColumnFlag, ColumnModel, ConflictModel, DeleteModel, ForeignKeyModel, InsertModel, JoinModel,
    SelectModel, Statement, StatementModel, TableModel, WithModel, column_auto_increment,
    column_big_integer, column_big_unsigned, column_binary, column_def, column_double,
    column_float, column_integer, column_new, column_not_null, column_primary_key,
    column_small_integer, column_small_unsigned, column_string, column_tiny_integer,
    column_tiny_unsigned, column_unique_key, column_unsigned, delete_build, expr_bool,
    expr_column, expr_eq, expr_int, expr_params, expr_text, exprs_model, exprs_params,
    insert_build, insert_into, insert_model, insert_on_conflict_update, insert_returning,
    insert_values, names_view, rows_params, select_and_where, select_distinct, select_from,
    select_inner_join, select_with, sqlite_create_table, sqlite_delete, sqlite_insert,
    sqlite_with_query, table_build, table_col, table_create, table_def, table_foreign_key,
    table_primary_key, with_build,
};
use crate::stats::{
    ColumnStatisticsView, FileStatisticsInsert, FileStatisticsView, MinMaxStats, MinMaxStatsView,
    RowGroupStatisticsInsert, RowGroupStatisticsView, columns_view, row_groups_view, rows_fit,
};

verus! {

/// Sets the type of a column definition to the relational type of a
/// logical type that has one.
pub fn set_column_type(column: &mut ColumnDef, kind: DataKind)
    requires
        column_type_of(kind) is Some,
    ensures
        column_def(*final(column)) == (ColumnModel {
            ty: column_type_of(kind),
            ..column_def(*old(column))
        }),
{
    match column_type(kind) {
        Some(ColumnType::TinyInteger) => column_tiny_integer(column),
        Some(ColumnType::TinyUnsigned) => column_tiny_unsigned(column),
        Some(ColumnType::SmallInteger) => column_small_integer(column),
        Some(ColumnType::SmallUnsigned) => column_small_unsigned(column),
        Some(ColumnType::Integer) => column_integer(column),
        Some(ColumnType::Unsigned) => column_unsigned(column),
        Some(ColumnType::BigInteger) => column_big_integer(column),
        Some(ColumnType::BigUnsigned) => column_big_unsigned(column),
        Some(ColumnType::Float) => column_float(column),
        Some(ColumnType::Double) => column_double(column),
        Some(ColumnType::Text) => column_string(column),
        Some(ColumnType::Binary) => column_binary(column),
        None => {},
    }
}

/// A column that holds an integer and is never null.
pub open spec fn integer_column(name: Seq<char>) -> ColumnModel {
    ColumnModel { name, ty: Some(ColumnType::Integer), flags: seq![ColumnFlag::NotNull] }
}

/// The table with one row per indexed file.
pub open spec fn file_table() -> TableModel {
    TableModel {
        name: "file_statistics"@,
        columns: seq![
            ColumnModel {
                name: "file_id"@,
                ty: Some(ColumnType::Integer),
                flags: seq![ColumnFlag::PrimaryKey, ColumnFlag::AutoIncrement],
            },
            ColumnModel {
                name: "file_name"@,
                ty: Some(ColumnType::Text),
                flags: seq![ColumnFlag::NotNull, ColumnFlag::UniqueKey],
            },
            integer_column("file_size_bytes"@),
            integer_column("row_group_count"@),
            integer_column("row_count"@),
        ],
        primary_key: Seq::empty(),
        foreign_keys: Seq::empty(),
    }
}

/// The constraints of a column that holds a minimum or maximum: it may be
/// null only where the field may.
pub open spec fn stat_flags(nullable: bool) -> Seq<ColumnFlag> {
    if nullable {
        Seq::empty()
    } else {
        seq![ColumnFlag::NotNull]
    }
}

/// The three statistics columns of an indexed field.
pub open spec fn field_columns(field: FieldView) -> Seq<ColumnModel> {
    seq![
        integer_column(field.name + "_null_count"@),
        ColumnModel {
            name: field.name + "_min"@,
            ty: column_type_of(field.kind),
            flags: stat_flags(field.nullable),
        },
        ColumnModel {
            name: field.name + "_max"@,
            ty: column_type_of(field.kind),
            flags: stat_flags(field.nullable),
        },
    ]
}

/// The statistics columns of the indexed fields among the first `n` fields
/// of the schema, in schema order. A field that is not indexed has none.
pub open spec fn stat_columns(schema: Seq<FieldView>, n: nat) -> Seq<ColumnModel>
    decreases n,
{
    if n == 0 {
        Seq::empty()
    } else {
        let before = stat_columns(schema, (n - 1) as nat);
        if is_indexed(schema[n - 1].kind) {
            before + field_columns(schema[n - 1])
        } else {
            before
        }
    }
}

/// The table with one row per row group of each indexed file.
pub open spec fn row_group_table(schema: Seq<FieldView>) -> TableModel {
    TableModel {
        name: "row_group_statistics"@,
        columns: seq![
            integer_column("file_id"@),
            integer_column("row_group"@),
            integer_column("row_count"@),
        ] + stat_columns(schema, schema.len()),
        primary_key: seq!["file_id"@, "row_group"@],
        foreign_keys: seq![
            ForeignKeyModel {
                from_table: "row_group_statistics"@,
                from_column: "file_id"@,
                to_table: "file_statistics"@,
                to_column: "file_id"@,
            },
        ],
    }
}

fn integer_not_null(name: &str) -> (column: ColumnDef)
    ensures
        column_def(column) == integer_column(name@),
{
    let mut column = column_new(name);
    column_integer(&mut column);
    column_not_null(&mut column);
    column
}

fn stat_column(name: &str, field: &Field) -> (column: ColumnDef)
    requires
        is_indexed(field.kind),
    ensures
        column_def(column) == (ColumnModel {
            name: name@,
            ty: column_type_of(field.kind),
            flags: stat_flags(field.nullable),
        }),
{
    let mut column = column_new(name);
    set_column_type(&mut column, field.kind);
    if !field.nullable {
        column_not_null(&mut column);
    }
    column
}

/// The statement that creates the table of files unless it exists.
pub fn create_file_table() -> (sql: String)
    ensures
        sql@ == sqlite_create_table(file_table()),
{
    let mut table = table_create("file_statistics");
    let mut file_id = column_new("file_id");
    column_integer(&mut file_id);
    column_primary_key(&mut file_id);
    column_auto_increment(&mut file_id);
    assert(column_def(file_id).flags == seq![ColumnFlag::PrimaryKey, ColumnFlag::AutoIncrement]);
    table_col(&mut table, file_id);
    let mut file_name = column_new("file_name");
    column_string(&mut file_name);
    column_not_null(&mut file_name);
    column_unique_key(&mut file_name);
    assert(column_def(file_name).flags == seq![ColumnFlag::NotNull, ColumnFlag::UniqueKey]);
    table_col(&mut table, file_name);
    table_col(&mut table, integer_not_null("file_size_bytes"));
    table_col(&mut table, integer_not_null("row_group_count"));
    table_col(&mut table, integer_not_null("row_count"));
    assert(table_def(table).columns == file_table().columns);
    table_build(&table)
}

/// The statement that creates the table of row-group statistics unless it
/// exists: the row's key and row count, then three columns for each indexed
/// field of the schema. The table's columns follow from the schema alone.
pub fn create_row_group_table(schema: &Vec<Field>) -> (sql: String)
    ensures
        sql@ == sqlite_create_table(row_group_table(schema_view(schema@))),
{
    let ghost sv = schema_view(schema@);
    let mut table = table_create("row_group_statistics");
    table_col(&mut table, integer_not_null("file_id"));
    table_col(&mut table, integer_not_null("row_group"));
    table_col(&mut table, integer_not_null("row_count"));
    table_primary_key(&mut table, "file_id", "row_group");
    table_foreign_key(&mut table, "row_group_statistics", "file_id", "file_statistics", "file_id");
    let ghost fixed = table_def(table).columns;
    assert(fixed == seq![
        integer_column("file_id"@),
        integer_column("row_group"@),
        integer_column("row_count"@),
    ]);
    let mut f: usize = 0;
    while f < schema.len()
        invariant
            sv == schema_view(schema@),
            f <= schema.len(),
            table_def(table) == (TableModel {
                columns: fixed + stat_columns(sv, f as nat),
                ..row_group_table(sv)
            }),
        decreases schema.len() - f,
    {
        let field = &schema[f];
        if stat_domain(field.kind).is_some() {
            let ghost before = table_def(table).columns;
            table_col(&mut table, integer_not_null(field.name.clone().concat("_null_count").as_str()));
            table_col(&mut table, stat_column(field.name.clone().concat("_min").as_str(), field));
            table_col(&mut table, stat_column(field.name.clone().concat("_max").as_str(), field));
            assert(table_def(table).columns == before + field_columns(field@));
            assert(before + field_columns(field@) == fixed + (stat_columns(sv, f as nat)
                + field_columns(field@)));
        }
        f += 1;
    }
    table_build(&table)
}


/// The text and the bound values of an `INSERT` statement.
pub open spec fn insert_statement(model: InsertModel) -> StatementModel {
    StatementModel { sql: sqlite_insert(model), values: rows_params(model.rows, model.rows.len()) }
}

/// The text and the bound values of a `DELETE` statement.
pub open spec fn delete_statement(model: DeleteModel) -> StatementModel {
    StatementModel { sql: sqlite_delete(model), values: expr_params(model.filter) }
}

/// The text and the bound values of a query over a common table expression.
pub open spec fn with_statement(model: WithModel) -> StatementModel {
    StatementModel {
        sql: sqlite_with_query(model),
        values: exprs_params(model.table_query.filters, model.table_query.filters.len())
            + exprs_params(model.query.filters, model.query.filters.len()),
    }
}

pub open spec fn int_literal(value: i64) -> ExprModel {
    ExprModel::Literal(ScalarModel::Int(value))
}

pub open spec fn text_literal(value: Seq<char>) -> ExprModel {
    ExprModel::Literal(ScalarModel::Text(value))
}

/// The upsert of a file's record: a new file gets a row and an identifier;
/// for a file whose name the table holds already, size and counts are
/// overwritten and the identifier stays. Either way the statement gives the
/// identifier back.
pub open spec fn file_upsert(file: FileStatisticsView) -> InsertModel {
    InsertModel {
        table: "file_statistics"@,
        columns: seq!["file_name"@, "file_size_bytes"@, "row_group_count"@, "row_count"@],
        rows: seq![
            seq![
                text_literal(file.file_name),
                int_literal(file.file_size_bytes),
                int_literal(file.row_group_count),
                int_literal(file.row_count),
            ],
        ],
        conflict: Some(
            ConflictModel {
                key: "file_name"@,
                update: seq!["file_size_bytes"@, "row_group_count"@, "row_count"@],
            },
        ),
        returning: Some("file_id"@),
    }
}

/// The deletion of every statistics row of the file with this identifier.
pub open spec fn row_groups_delete(file_id: i64) -> DeleteModel {
    DeleteModel {
        table: "row_group_statistics"@,
        filter: ExprModel::Binary(
            Box::new(ExprModel::Column("file_id"@)),
            Operator::Eq,
            Box::new(int_literal(file_id)),
        ),
    }
}

/// The names of the three statistics columns of a field.
pub open spec fn field_column_names(name: Seq<char>) -> Seq<Seq<char>> {
    seq![name + "_null_count"@, name + "_min"@, name + "_max"@]
}

/// The names of the statistics columns of the indexed fields among the
/// first `n` fields of the schema.
pub open spec fn stat_column_names(schema: Seq<FieldView>, n: nat) -> Seq<Seq<char>>
    decreases n,
{
    if n == 0 {
        Seq::empty()
    } else {
        let before = stat_column_names(schema, (n - 1) as nat);
        if is_indexed(schema[n - 1].kind) {
            before + field_column_names(schema[n - 1].name)
        } else {
            before
        }
    }
}

/// The three values that are stored of one column's statistics.
pub open spec fn stat_literals(stats: ColumnStatisticsView) -> Seq<ExprModel> {
    match stats.stats {
        MinMaxStatsView::Int(min, max) => seq![
            int_literal(stats.null_count),
            int_literal(min),
            int_literal(max),
        ],
        MinMaxStatsView::String(min, max) => seq![
            int_literal(stats.null_count),
            text_literal(min),
            text_literal(max),
        ],
    }
}

/// The stored values of the first `n` column statistics, in order.
pub open spec fn stats_literals(stats: Seq<ColumnStatisticsView>, n: nat) -> Seq<ExprModel>
    decreases n,
{
    if n == 0 {
        Seq::empty()
    } else {
        stats_literals(stats, (n - 1) as nat) + stat_literals(stats[n - 1])
    }
}

/// The values of the statistics row of one row group.
pub open spec fn row_group_values(file_id: i64, row: RowGroupStatisticsView) -> Seq<ExprModel> {
    seq![int_literal(file_id), int_literal(row.row_group), int_literal(row.row_count)]
        + stats_literals(row.column_statistics, row.column_statistics.len())
}

/// The insertion of the statistics rows of a file.
pub open spec fn row_groups_insert(
    schema: Seq<FieldView>,
    file_id: i64,
    rows: Seq<RowGroupStatisticsView>,
) -> InsertModel {
    InsertModel {
        table: "row_group_statistics"@,
        columns: seq!["file_id"@, "row_group"@, "row_count"@] + stat_column_names(
            schema,
            schema.len(),
        ),
        rows: Seq::new(rows.len(), |i: int| row_group_values(file_id, rows[i])),
        conflict: None,
        returning: None,
    }
}

proof fn lemma_stat_column_names_len(schema: Seq<FieldView>, n: nat)
    ensures
        stat_column_names(schema, n).len() == 3 * indexed_count(schema, n),
    decreases n,
{
    if n > 0 {
        lemma_stat_column_names_len(schema, (n - 1) as nat);
    }
}

proof fn lemma_stats_literals_len(stats: Seq<ColumnStatisticsView>, n: nat)
    ensures
        stats_literals(stats, n).len() == 3 * n,
    decreases n,
{
    if n > 0 {
        lemma_stats_literals_len(stats, (n - 1) as nat);
    }
}

fn owned(name: &str) -> (s: String)
    ensures
        s@ == name@,
{
    name.to_string()
}

/// The statement that writes a file's record and gives back the file's
/// identifier.
pub fn upsert_file_statement(file: &FileStatisticsInsert) -> (statement: Statement)
    ensures
        statement@ == insert_statement(file_upsert(file@)),
{
    let mut columns: Vec<String> = Vec::new();
    columns.push(owned("file_name"));
    columns.push(owned("file_size_bytes"));
    columns.push(owned("row_group_count"));
    columns.push(owned("row_count"));
    assert(names_view(columns@) == file_upsert(file@).columns);
    let mut insert = insert_into("file_statistics", &columns);
    let mut values: Vec<SimpleExpr> = Vec::new();
    values.push(expr_text(file.file_name.clone()));
    values.push(expr_int(file.file_size_bytes));
    values.push(expr_int(file.row_group_count));
    values.push(expr_int(file.row_count));
    assert(exprs_model(values@) == file_upsert(file@).rows[0]);
    insert_values(&mut insert, values);
    let mut update: Vec<String> = Vec::new();
    update.push(owned("file_size_bytes"));
    update.push(owned("row_group_count"));
    update.push(owned("row_count"));
    assert(names_view(update@) == file_upsert(file@).conflict.unwrap().update);
    insert_on_conflict_update(&mut insert, "file_name", &update);
    insert_returning(&mut insert, "file_id");
    insert_build(&insert)
}

/// The statement that deletes every statistics row of a file.
pub fn delete_row_groups_statement(file_id: i64) -> (statement: Statement)
    ensures
        statement@ == delete_statement(row_groups_delete(file_id)),
{
    delete_build("row_group_statistics", expr_eq(expr_column("file_id"), expr_int(file_id)))
}

/// The values of one statistics row, in the order of the table's columns.
fn row_group_exprs(file_id: i64, row: &RowGroupStatisticsInsert) -> (values: Vec<SimpleExpr>)
    ensures
        exprs_model(values@) == row_group_values(file_id, row@),
{
    let mut values: Vec<SimpleExpr> = Vec::new();
    values.push(expr_int(file_id));
    values.push(expr_int(row.row_group));
    values.push(expr_int(row.row_count));
    let ghost fixed = exprs_model(values@);
    let ghost stats = row@.column_statistics;
    let mut c: usize = 0;
    while c < row.column_statistics.len()
        invariant
            stats == columns_view(row.column_statistics@),
            c <= row.column_statistics@.len(),
            exprs_model(values@) == fixed + stats_literals(stats, c as nat),
        decreases row.column_statistics@.len() - c,
    {
        let column = &row.column_statistics[c];
        let ghost before = exprs_model(values@);
        values.push(expr_int(column.null_count));
        match &column.stats {
            MinMaxStats::Int(min, max) => {
                values.push(expr_int(*min));
                values.push(expr_int(*max));
            },
            MinMaxStats::String(min, max) => {
                values.push(expr_text(min.clone()));
                values.push(expr_text(max.clone()));
            },
        }
        assert(before + stat_literals(column@) == fixed + (stats_literals(stats, c as nat)
            + stat_literals(column@)));
        c += 1;
    }
    values
}

/// The names of the columns of a statistics row.
fn row_group_column_names(schema: &Vec<Field>) -> (columns: Vec<String>)
    ensures
        names_view(columns@) == row_groups_insert(
            schema_view(schema@),
            0,
            Seq::empty(),
        ).columns,
{
    let ghost sv = schema_view(schema@);
    let mut columns: Vec<String> = Vec::new();
    columns.push(owned("file_id"));
    columns.push(owned("row_group"));
    columns.push(owned("row_count"));
    let ghost fixed = names_view(columns@);
    let mut f: usize = 0;
    while f < schema.len()
        invariant
            sv == schema_view(schema@),
            f <= schema.len(),
            names_view(columns@) == fixed + stat_column_names(sv, f as nat),
        decreases schema.len() - f,
    {
        let field = &schema[f];
        if stat_domain(field.kind).is_some() {
            let ghost before = names_view(columns@);
            columns.push(field.name.clone().concat("_null_count"));
            columns.push(field.name.clone().concat("_min"));
            columns.push(field.name.clone().concat("_max"));
            assert(before + field_column_names(field.name@) == fixed + (stat_column_names(
                sv,
                f as nat,
            ) + field_column_names(field.name@)));
        }
        f += 1;
    }
    columns
}

/// The statement that inserts the statistics rows of a file, one row per
/// row group in the order given; `None` where there is no row to insert.
/// Each row must hold the statistics of exactly the indexed fields.
pub fn insert_row_groups_statement(
    schema: &Vec<Field>,
    file_id: i64,
    rows: &Vec<RowGroupStatisticsInsert>,
) -> (statement: Option<Statement>)
    requires
        rows_fit(schema_view(schema@), row_groups_view(rows@)),
    ensures
        match statement {
            Some(statement) => rows@.len() > 0 && statement@ == insert_statement(
                row_groups_insert(schema_view(schema@), file_id, row_groups_view(rows@)),
            ),
            None => rows@.len() == 0,
        },
{
    if rows.len() == 0 {
        return None;
    }
    let ghost sv = schema_view(schema@);
    let ghost rv = row_groups_view(rows@);
    let ghost target = row_groups_insert(sv, file_id, rv);
    let columns = row_group_column_names(schema);
    let mut insert = insert_into("row_group_statistics", &columns);
    proof {
        lemma_stat_column_names_len(sv, sv.len());
        assert(insert_model(insert).rows == Seq::new(
            0nat,
            |j: int| row_group_values(file_id, rv[j]),
        ));
    }
    let mut i: usize = 0;
    while i < rows.len()
        invariant
            sv == schema_view(schema@),
            rv == row_groups_view(rows@),
            target == row_groups_insert(sv, file_id, rv),
            rows_fit(sv, rv),
            i <= rows@.len(),
            target.columns.len() == 3 + 3 * indexed_count(sv, sv.len()),
            insert_model(insert) == (InsertModel {
                rows: Seq::new(i as nat, |j: int| row_group_values(file_id, rv[j])),
                ..target
            }),
        decreases rows@.len() - i,
    {
        let values = row_group_exprs(file_id, &rows[i]);
        proof {
            lemma_stats_literals_len(
                rv[i as int].column_statistics,
                rv[i as int].column_statistics.len(),
            );
            assert(exprs_model(values@).len() == values@.len());
        }
        insert_values(&mut insert, values);
        assert(insert_model(insert).rows == Seq::new(
            (i + 1) as nat,
            |j: int| row_group_values(file_id, rv[j]),
        ));
        i += 1;
    }
    Some(insert_build(&insert))
}



/// The query for the row groups that may hold matching rows.
#[derive(Debug)]
pub struct CandidatesQuery {
    pub statement: Statement,
    /// Whether the query applies the predicate. Where it does not, it gives
    /// every row group of every file.
    pub pruned: bool,
}

/// The condition that every row meets.
pub open spec fn always_true() -> ExprModel {
    ExprModel::Literal(ScalarModel::Boolean(true))
}

/// The value of an optional predicate.
pub open spec fn filter_view(filter: Option<BoundsExpr>) -> Option<ExprModel> {
    match filter {
        Some(expr) => Some(expr@),
        None => None,
    }
}

/// A predicate is there and a query can express it.
pub open spec fn prunes(filter: Option<ExprModel>) -> bool {
    filter matches Some(expr) && is_supported(expr)
}

/// The condition of the candidates query: the predicate with the shared row
/// count where a query can express it, else the condition that every row
/// group meets.
pub open spec fn candidates_condition(filter: Option<ExprModel>) -> ExprModel {
    if prunes(filter) {
        with_shared_row_count(filter.unwrap())
    } else {
        always_true()
    }
}

/// The candidates query: the keys of the statistics rows that meet the
/// condition, joined with the files' records, each row group once.
pub open spec fn candidates_query(condition: ExprModel) -> WithModel {
    WithModel {
        name: "row_groups"@,
        table_query: SelectModel {
            distinct: false,
            columns: seq!["file_id"@, "row_group"@],
            table: "row_group_statistics"@,
            joins: Seq::empty(),
            filters: seq![condition],
        },
        query: SelectModel {
            distinct: true,
            columns: seq!["file_name"@, "file_size_bytes"@, "row_group_count"@, "row_group"@],
            table: "file_statistics"@,
            joins: seq![
                JoinModel {
                    table: "row_groups"@,
                    left_table: "file_statistics"@,
                    left_column: "file_id"@,
                    right_table: "row_groups"@,
                    right_column: "file_id"@,
                },
            ],
            filters: Seq::empty(),
        },
    }
}

/// Replacing row-count placeholders takes no node out of what a query can
/// express, and puts none in.
pub proof fn rewrite_keeps_support(expr: ExprModel)
    ensures
        is_supported(with_shared_row_count(expr)) == is_supported(expr),
    decreases expr,
{
    match expr {
        ExprModel::Binary(left, _, right) => {
            rewrite_keeps_support(*left);
            rewrite_keeps_support(*right);
        },
        ExprModel::Not(inner) => {
            rewrite_keeps_support(*inner);
        },
        _ => {},
    }
}

/// The candidates query rules out no more than the predicate does: where it
/// applies the predicate, its condition has on every statistics row, under
/// every reading of the operators, the value that the predicate has when each
/// `<col>_row_count` reads the row group's row count; where it does not, its
/// condition is the literal `true`.
pub proof fn candidates_condition_keeps_meaning<V>(
    filter: Option<ExprModel>,
    column: spec_fn(Seq<char>) -> V,
    literal: spec_fn(ScalarModel) -> V,
    binary: spec_fn(Operator, V, V) -> V,
    negate: spec_fn(V) -> V,
    unsupported: V,
)
    ensures
        prunes(filter) ==> evaluate(
            candidates_condition(filter),
            column,
            literal,
            binary,
            negate,
            unsupported,
        ) == evaluate(
            filter.unwrap(),
            with_row_count_placeholders(column),
            literal,
            binary,
            negate,
            unsupported,
        ),
        !prunes(filter) ==> evaluate(
            candidates_condition(filter),
            column,
            literal,
            binary,
            negate,
            unsupported,
        ) == literal(ScalarModel::Boolean(true)),
{
    if prunes(filter) {
        rewrite_keeps_meaning(filter.unwrap(), column, literal, binary, negate, unsupported);
    }
}

/// The statement that asks the store for the row groups that a predicate
/// does not rule out, each with its file's name, size and number of row
/// groups.
///
/// The predicate is applied with every row-count placeholder replaced by the
/// shared row count. Without a predicate, or with one that no query can
/// express, nothing is ruled out: the statement asks for every row group.
pub fn candidates_statement(filter: Option<BoundsExpr>) -> (query: CandidatesQuery)
    ensures
        query.pruned == prunes(filter_view(filter)),
        query.statement@ == with_statement(
            candidates_query(candidates_condition(filter_view(filter))),
        ),
{
    let (condition, pruned) = match filter {
        Some(expr) => {
            proof {
                rewrite_keeps_support(expr@);
            }
            let rewritten = rewrite_row_counts(expr);
            match compile(&rewritten) {
                Ok(fragment) => (fragment.condition, true),
                Err(_) => (expr_bool(true), false),
            }
        },
        None => (expr_bool(true), false),
    };
    let mut keys: Vec<String> = Vec::new();
    keys.push(owned("file_id"));
    keys.push(owned("row_group"));
    assert(names_view(keys@) == seq!["file_id"@, "row_group"@]);
    let mut row_groups = select_from("row_group_statistics", &keys);
    select_and_where(&mut row_groups, condition);
    let mut columns: Vec<String> = Vec::new();
    columns.push(owned("file_name"));
    columns.push(owned("file_size_bytes"));
    columns.push(owned("row_group_count"));
    columns.push(owned("row_group"));
    assert(names_view(columns@) == seq![
        "file_name"@,
        "file_size_bytes"@,
        "row_group_count"@,
        "row_group"@,
    ]);
    let mut files = select_from("file_statistics", &columns);
    select_inner_join(
        &mut files,
        "row_groups",
        "file_statistics",
        "file_id",
        "row_groups",
        "file_id",
    );
    select_distinct(&mut files);
    let with = select_with(files, "row_groups", row_groups);
    CandidatesQuery { statement: with_build(&with), pruned }
}


/// The names of a sequence of columns.
pub open spec fn column_names(columns: Seq<ColumnModel>) -> Seq<Seq<char>> {
    Seq::new(columns.len(), |i: int| columns[i].name)
}

/// The statistics rows are written to the columns that the table was
/// created with, in the table's order.
pub proof fn insert_columns_are_table_columns(
    schema: Seq<FieldView>,
    file_id: i64,
    rows: Seq<RowGroupStatisticsView>,
)
    ensures
        row_groups_insert(schema, file_id, rows).table == row_group_table(schema).name,
        row_groups_insert(schema, file_id, rows).columns == column_names(
            row_group_table(schema).columns,
        ),
{
    lemma_stat_names_are_column_names(schema, schema.len());
}

proof fn lemma_stat_names_are_column_names(schema: Seq<FieldView>, n: nat)
    ensures
        stat_column_names(schema, n) == column_names(stat_columns(schema, n)),
    decreases n,
{
    if n > 0 {
        lemma_stat_names_are_column_names(schema, (n - 1) as nat);
    }
}

proof fn lemma_stat_columns_prefix(a: Seq<FieldView>, b: Seq<FieldView>, n: nat)
    requires
        n <= a.len(),
    ensures
        stat_columns(a + b, n) == stat_columns(a, n),
        indexed_count(a + b, n) == indexed_count(a, n),
    decreases n,
{
    if n > 0 {
        lemma_stat_columns_prefix(a, b, (n - 1) as nat);
    }
}

proof fn lemma_stat_columns_concat(a: Seq<FieldView>, b: Seq<FieldView>, m: nat)
    requires
        m <= b.len(),
    ensures
        stat_columns(a + b, a.len() + m) == stat_columns(a, a.len()) + stat_columns(b, m),
        indexed_count(a + b, a.len() + m) == indexed_count(a, a.len()) + indexed_count(b, m),
    decreases m,
{
    if m == 0 {
        lemma_stat_columns_prefix(a, b, a.len());
    } else {
        lemma_stat_columns_concat(a, b, (m - 1) as nat);
    }
}

/// A field whose type is not indexed has no column in the statistics table
/// and counts for nothing in a statistics row: the table of a schema with
/// such a field, wherever it stands, is the table of the schema without it.
pub proof fn unindexed_field_has_no_columns(
    before: Seq<FieldView>,
    field: FieldView,
    after: Seq<FieldView>,
)
    requires
        !is_indexed(field.kind),
    ensures
        row_group_table(before + seq![field] + after) == row_group_table(before + after),
        indexed_count(before + seq![field] + after, (before + seq![field] + after).len())
            == indexed_count(before + after, (before + after).len()),
{
    let with = before + seq![field];
    lemma_stat_columns_concat(with, after, after.len());
    lemma_stat_columns_concat(before, after, after.len());
    lemma_stat_columns_concat(before, seq![field], 1);
    assert(stat_columns(seq![field], 1) =~= Seq::<ColumnModel>::empty()) by {
        assert(stat_columns(seq![field], 0) =~= Seq::<ColumnModel>::empty());
    }
    assert(indexed_count(seq![field], 1) == 0) by {
        assert(indexed_count(seq![field], 0) == 0);
    }
}


/// The deletion matches exactly the statistics rows of the file: wherever a
/// comparison of two integers for equality means their equality, its filter
/// is true on a row whose `file_id` is the file's identifier and false on a
/// row whose `file_id` is another. So no row of an earlier version of the
/// file stays, and no row of another file goes.
pub proof fn deletion_matches_the_rows_of_the_file<V>(
    file_id: i64,
    row_file_id: i64,
    column: spec_fn(Seq<char>) -> V,
    literal: spec_fn(ScalarModel) -> V,
    binary: spec_fn(Operator, V, V) -> V,
    negate: spec_fn(V) -> V,
    unsupported: V,
)
    requires
        column("file_id"@) == literal(ScalarModel::Int(row_file_id)),
        forall|a: i64, b: i64| #[trigger]
            binary(Operator::Eq, literal(ScalarModel::Int(a)), literal(ScalarModel::Int(b)))
                == literal(ScalarModel::Boolean(a == b)),
    ensures
        evaluate(row_groups_delete(file_id).filter, column, literal, binary, negate, unsupported)
            == literal(ScalarModel::Boolean(row_file_id == file_id)),
{
    reveal_with_fuel(evaluate, 3);
}

/// Each inserted statistics row carries the identifier of the file and the
/// number of its row group, in the first two columns of the table.
pub proof fn inserted_rows_carry_their_key(
    schema: Seq<FieldView>,
    file_id: i64,
    rows: Seq<RowGroupStatisticsView>,
    i: int,
)
    requires
        0 <= i < rows.len(),
    ensures
        row_groups_insert(schema, file_id, rows).columns[0] == "file_id"@,
        row_groups_insert(schema, file_id, rows).columns[1] == "row_group"@,
        row_groups_insert(schema, file_id, rows).rows.len() == rows.len(),
        row_groups_insert(schema, file_id, rows).rows[i][0] == int_literal(file_id),
        row_groups_insert(schema, file_id, rows).rows[i][1] == int_literal(rows[i].row_group),
{
}

} // verus!
