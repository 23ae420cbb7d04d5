//! The statements of the index's store, built with the `sea_query` builder
//! and rendered for SQLite. Every item of this file that calls into
//! `sea_query` is trusted: its contract is what the builder's source shows,
//! stated over a model of what the built value holds.
//!
//! A model holds what the functions of this file can put into a value.
//! Every statement that is rendered to text was made by them from nothing:
//! none is taken from a caller of the crate.

use vstd::prelude::*;
use sea_query::{
    Alias, BinOper, ColumnDef, CommonTableExpression, Expr, ForeignKey, ForeignKeyAction, Index,
    InsertStatement, OnConflict, Query, SelectStatement, SimpleExpr, SqliteQueryBuilder, Table,
    TableCreateStatement, Values, WithClause, WithQuery,
};
use crate::predicate::{ExprModel, Operator, ScalarModel};
use crate::schema::ColumnType;

verus! {

/// `sea_query::ColumnDef`: the definition of one column while it is built.
#[verifier::external_type_specification]
#[verifier::external_body]
pub struct ExColumnDef(ColumnDef);

/// `sea_query::TableCreateStatement`: a `CREATE TABLE` statement while it is built.
#[verifier::external_type_specification]
#[verifier::external_body]
pub struct ExTableCreateStatement(TableCreateStatement);

/// A constraint of a column.
pub enum ColumnFlag {
    NotNull,
    PrimaryKey,
    AutoIncrement,
    UniqueKey,
}

/// What a column definition holds: its name, its type once it is set, and
/// its constraints in the order in which they were added.
pub struct ColumnModel {
    pub name: Seq<char>,
    pub ty: Option<ColumnType>,
    pub flags: Seq<ColumnFlag>,
}

/// A foreign key of one column that deletes with the row it refers to.
pub struct ForeignKeyModel {
    pub from_table: Seq<char>,
    pub from_column: Seq<char>,
    pub to_table: Seq<char>,
    pub to_column: Seq<char>,
}

/// What a `CREATE TABLE IF NOT EXISTS` statement holds.
pub struct TableModel {
    pub name: Seq<char>,
    pub columns: Seq<ColumnModel>,
    pub primary_key: Seq<Seq<char>>,
    pub foreign_keys: Seq<ForeignKeyModel>,
}

/// What a `sea_query::ColumnDef` holds.
pub uninterp spec fn column_def(column: ColumnDef) -> ColumnModel;

/// What a `sea_query::TableCreateStatement` holds.
pub uninterp spec fn table_def(table: TableCreateStatement) -> TableModel;

/// The text that `TableCreateStatement::build` gives for SQLite.
pub uninterp spec fn sqlite_create_table(table: TableModel) -> Seq<char>;

/// `ColumnDef::new` on an `Alias`: a column of that name without type or
/// constraint.
#[verifier::external_body]
pub(crate) fn column_new(name: &str) -> (column: ColumnDef)
    ensures
        column_def(column) == (ColumnModel { name: name@, ty: None, flags: Seq::empty() }),
{
    ColumnDef::new(Alias::new(name))
}

/// `ColumnDef::not_null`: adds the constraint.
#[verifier::external_body]
pub(crate) fn column_not_null(column: &mut ColumnDef)
    ensures
        column_def(*final(column)) == (ColumnModel {
            flags: column_def(*old(column)).flags.push(ColumnFlag::NotNull),
            ..column_def(*old(column))
        }),
{
    column.not_null();
}

/// `ColumnDef::primary_key`: adds the constraint.
#[verifier::external_body]
pub(crate) fn column_primary_key(column: &mut ColumnDef)
    ensures
        column_def(*final(column)) == (ColumnModel {
            flags: column_def(*old(column)).flags.push(ColumnFlag::PrimaryKey),
            ..column_def(*old(column))
        }),
{
    column.primary_key();
}

/// `ColumnDef::auto_increment`: adds the constraint.
#[verifier::external_body]
pub(crate) fn column_auto_increment(column: &mut ColumnDef)
    ensures
        column_def(*final(column)) == (ColumnModel {
            flags: column_def(*old(column)).flags.push(ColumnFlag::AutoIncrement),
            ..column_def(*old(column))
        }),
{
    column.auto_increment();
}

/// `ColumnDef::unique_key`: adds the constraint.
#[verifier::external_body]
pub(crate) fn column_unique_key(column: &mut ColumnDef)
    ensures
        column_def(*final(column)) == (ColumnModel {
            flags: column_def(*old(column)).flags.push(ColumnFlag::UniqueKey),
            ..column_def(*old(column))
        }),
{
    column.unique_key();
}

/// `ColumnDef::tiny_integer`: sets the column's type.
#[verifier::external_body]
pub(crate) fn column_tiny_integer(column: &mut ColumnDef)
    ensures
        column_def(*final(column)) == (ColumnModel {
            ty: Some(ColumnType::TinyInteger),
            ..column_def(*old(column))
        }),
{
    column.tiny_integer();
}

/// `ColumnDef::small_integer`: sets the column's type.
#[verifier::external_body]
pub(crate) fn column_small_integer(column: &mut ColumnDef)
    ensures
        column_def(*final(column)) == (ColumnModel {
            ty: Some(ColumnType::SmallInteger),
            ..column_def(*old(column))
        }),
{
    column.small_integer();
}

/// `ColumnDef::integer`: sets the column's type.
#[verifier::external_body]
pub(crate) fn column_integer(column: &mut ColumnDef)
    ensures
        column_def(*final(column)) == (ColumnModel {
            ty: Some(ColumnType::Integer),
            ..column_def(*old(column))
        }),
{
    column.integer();
}

/// `ColumnDef::big_integer`: sets the column's type.
#[verifier::external_body]
pub(crate) fn column_big_integer(column: &mut ColumnDef)
    ensures
        column_def(*final(column)) == (ColumnModel {
            ty: Some(ColumnType::BigInteger),
            ..column_def(*old(column))
        }),
{
    column.big_integer();
}

/// `ColumnDef::tiny_unsigned`: sets the column's type.
#[verifier::external_body]
pub(crate) fn column_tiny_unsigned(column: &mut ColumnDef)
    ensures
        column_def(*final(column)) == (ColumnModel {
            ty: Some(ColumnType::TinyUnsigned),
            ..column_def(*old(column))
        }),
{
    column.tiny_unsigned();
}

/// `ColumnDef::small_unsigned`: sets the column's type.
#[verifier::external_body]
pub(crate) fn column_small_unsigned(column: &mut ColumnDef)
    ensures
        column_def(*final(column)) == (ColumnModel {
            ty: Some(ColumnType::SmallUnsigned),
            ..column_def(*old(column))
        }),
{
    column.small_unsigned();
}

/// `ColumnDef::unsigned`: sets the column's type.
#[verifier::external_body]
pub(crate) fn column_unsigned(column: &mut ColumnDef)
    ensures
        column_def(*final(column)) == (ColumnModel {
            ty: Some(ColumnType::Unsigned),
            ..column_def(*old(column))
        }),
{
    column.unsigned();
}

/// `ColumnDef::big_unsigned`: sets the column's type.
#[verifier::external_body]
pub(crate) fn column_big_unsigned(column: &mut ColumnDef)
    ensures
        column_def(*final(column)) == (ColumnModel {
            ty: Some(ColumnType::BigUnsigned),
            ..column_def(*old(column))
        }),
{
    column.big_unsigned();
}

/// `ColumnDef::float`: sets the column's type.
#[verifier::external_body]
pub(crate) fn column_float(column: &mut ColumnDef)
    ensures
        column_def(*final(column)) == (ColumnModel {
            ty: Some(ColumnType::Float),
            ..column_def(*old(column))
        }),
{
    column.float();
}

/// `ColumnDef::double`: sets the column's type.
#[verifier::external_body]
pub(crate) fn column_double(column: &mut ColumnDef)
    ensures
        column_def(*final(column)) == (ColumnModel {
            ty: Some(ColumnType::Double),
            ..column_def(*old(column))
        }),
{
    column.double();
}

/// `ColumnDef::string`: sets the column's type.
#[verifier::external_body]
pub(crate) fn column_string(column: &mut ColumnDef)
    ensures
        column_def(*final(column)) == (ColumnModel {
            ty: Some(ColumnType::Text),
            ..column_def(*old(column))
        }),
{
    column.string();
}

/// `ColumnDef::binary`: sets the column's type.
#[verifier::external_body]
pub(crate) fn column_binary(column: &mut ColumnDef)
    ensures
        column_def(*final(column)) == (ColumnModel {
            ty: Some(ColumnType::Binary),
            ..column_def(*old(column))
        }),
{
    column.binary();
}

/// `Table::create`, `table` and `if_not_exists`: a statement that creates
/// the table of that name unless it exists, so far without columns or keys.
#[verifier::external_body]
pub(crate) fn table_create(name: &str) -> (table: TableCreateStatement)
    ensures
        table_def(table) == (TableModel {
            name: name@,
            columns: Seq::empty(),
            primary_key: Seq::empty(),
            foreign_keys: Seq::empty(),
        }),
{
    Table::create().table(Alias::new(name)).if_not_exists().to_owned()
}

/// `TableCreateStatement::col`: appends the column.
#[verifier::external_body]
pub(crate) fn table_col(table: &mut TableCreateStatement, column: ColumnDef)
    ensures
        table_def(*final(table)) == (TableModel {
            columns: table_def(*old(table)).columns.push(column_def(column)),
            ..table_def(*old(table))
        }),
{
    let mut column = column;
    table.col(&mut column);
}

/// `TableCreateStatement::primary_key` with an `Index` over two columns.
#[verifier::external_body]
pub(crate) fn table_primary_key(table: &mut TableCreateStatement, first: &str, second: &str)
    requires
        table_def(*old(table)).primary_key.len() == 0,
    ensures
        table_def(*final(table)) == (TableModel {
            primary_key: seq![first@, second@],
            ..table_def(*old(table))
        }),
{
    table.primary_key(Index::create().col(Alias::new(first)).col(Alias::new(second)));
}

/// `TableCreateStatement::foreign_key` with a `ForeignKey` of one column that
/// cascades on delete.
#[verifier::external_body]
pub(crate) fn table_foreign_key(
    table: &mut TableCreateStatement,
    from_table: &str,
    from_column: &str,
    to_table: &str,
    to_column: &str,
)
    ensures
        table_def(*final(table)) == (TableModel {
            foreign_keys: table_def(*old(table)).foreign_keys.push(
                ForeignKeyModel {
                    from_table: from_table@,
                    from_column: from_column@,
                    to_table: to_table@,
                    to_column: to_column@,
                },
            ),
            ..table_def(*old(table))
        }),
{
    table.foreign_key(
        ForeignKey::create()
            .from(Alias::new(from_table), Alias::new(from_column))
            .to(Alias::new(to_table), Alias::new(to_column))
            .on_delete(ForeignKeyAction::Cascade),
    );
}

/// `TableCreateStatement::build` for SQLite: the statement's text, which
/// depends on what the statement holds and on nothing else.
#[verifier::external_body]
pub(crate) fn table_build(table: &TableCreateStatement) -> (sql: String)
    ensures
        sql@ == sqlite_create_table(table_def(*table)),
{
    table.build(SqliteQueryBuilder)
}


/// `sea_query::SimpleExpr`: an expression of a statement.
#[verifier::external_type_specification]
#[verifier::external_body]
pub struct ExSimpleExpr(SimpleExpr);

/// `sea_query::Values`: the values bound to the placeholders of a statement.
#[verifier::external_type_specification]
#[verifier::external_body]
pub struct ExValues(Values);

/// `sea_query::InsertStatement`: an `INSERT` statement while it is built.
#[verifier::external_type_specification]
#[verifier::external_body]
pub struct ExInsertStatement(InsertStatement);

/// `sea_query::SelectStatement`: a `SELECT` statement while it is built.
#[verifier::external_type_specification]
#[verifier::external_body]
pub struct ExSelectStatement(SelectStatement);

/// `sea_query::WithQuery`: a query over common table expressions.
#[verifier::external_type_specification]
#[verifier::external_body]
pub struct ExWithQuery(WithQuery);

/// The tree that a `sea_query::SimpleExpr` holds.
pub uninterp spec fn expr_model(expr: SimpleExpr) -> ExprModel;

/// The values that a `sea_query::Values` holds, in order.
pub uninterp spec fn values_model(values: Values) -> Seq<ScalarModel>;

/// Each expression by the tree that it holds.
pub open spec fn exprs_model(exprs: Seq<SimpleExpr>) -> Seq<ExprModel> {
    Seq::new(exprs.len(), |i: int| expr_model(exprs[i]))
}

/// Each name by its characters.
pub open spec fn names_view(names: Seq<String>) -> Seq<Seq<char>> {
    Seq::new(names.len(), |i: int| names[i]@)
}

/// The literals of an expression from left to right: the values that are
/// bound to the placeholders of its text.
pub open spec fn expr_params(expr: ExprModel) -> Seq<ScalarModel>
    decreases expr,
{
    match expr {
        ExprModel::Literal(value) => seq![value],
        ExprModel::Binary(left, _, right) => expr_params(*left) + expr_params(*right),
        ExprModel::Not(inner) => expr_params(*inner),
        _ => Seq::empty(),
    }
}

/// The literals of the first `n` expressions, in order.
pub open spec fn exprs_params(exprs: Seq<ExprModel>, n: nat) -> Seq<ScalarModel>
    decreases n,
{
    if n == 0 {
        Seq::empty()
    } else {
        exprs_params(exprs, (n - 1) as nat) + expr_params(exprs[n - 1])
    }
}

/// The literals of the first `n` rows, row by row.
pub open spec fn rows_params(rows: Seq<Seq<ExprModel>>, n: nat) -> Seq<ScalarModel>
    decreases n,
{
    if n == 0 {
        Seq::empty()
    } else {
        rows_params(rows, (n - 1) as nat) + exprs_params(rows[n - 1], rows[n - 1].len())
    }
}

/// `Expr::col` on an `Alias`, as a `SimpleExpr`: a reference to the column of
/// that name.
#[verifier::external_body]
pub(crate) fn expr_column(name: &str) -> (expr: SimpleExpr)
    ensures
        expr_model(expr) == ExprModel::Column(name@),
{
    Expr::col(Alias::new(name)).into()
}

/// `SimpleExpr::from` on an `i64`: that number as a bound value.
#[verifier::external_body]
pub(crate) fn expr_int(value: i64) -> (expr: SimpleExpr)
    ensures
        expr_model(expr) == ExprModel::Literal(ScalarModel::Int(value)),
{
    SimpleExpr::from(value)
}

/// `SimpleExpr::from` on a `String`: that text as a bound value.
#[verifier::external_body]
pub(crate) fn expr_text(value: String) -> (expr: SimpleExpr)
    ensures
        expr_model(expr) == ExprModel::Literal(ScalarModel::Text(value@)),
{
    SimpleExpr::from(value)
}

/// `SimpleExpr::from` on a `bool`: that truth value as a bound value.
#[verifier::external_body]
pub(crate) fn expr_bool(value: bool) -> (expr: SimpleExpr)
    ensures
        expr_model(expr) == ExprModel::Literal(ScalarModel::Boolean(value)),
{
    SimpleExpr::from(value)
}

/// `SimpleExpr::not`: the negation of the expression.
#[verifier::external_body]
pub(crate) fn expr_not(inner: SimpleExpr) -> (expr: SimpleExpr)
    ensures
        expr_model(expr) == ExprModel::Not(Box::new(expr_model(inner))),
{
    inner.not()
}

/// `SimpleExpr::and`: the two expressions joined by that operator.
#[verifier::external_body]
pub(crate) fn expr_and(left: SimpleExpr, right: SimpleExpr) -> (expr: SimpleExpr)
    ensures
        expr_model(expr) == ExprModel::Binary(
            Box::new(expr_model(left)),
            Operator::And,
            Box::new(expr_model(right)),
        ),
{
    left.and(right)
}

/// `SimpleExpr::or`: the two expressions joined by that operator.
#[verifier::external_body]
pub(crate) fn expr_or(left: SimpleExpr, right: SimpleExpr) -> (expr: SimpleExpr)
    ensures
        expr_model(expr) == ExprModel::Binary(
            Box::new(expr_model(left)),
            Operator::Or,
            Box::new(expr_model(right)),
        ),
{
    left.or(right)
}

/// `SimpleExpr::eq`: the two expressions joined by that operator.
#[verifier::external_body]
pub(crate) fn expr_eq(left: SimpleExpr, right: SimpleExpr) -> (expr: SimpleExpr)
    ensures
        expr_model(expr) == ExprModel::Binary(
            Box::new(expr_model(left)),
            Operator::Eq,
            Box::new(expr_model(right)),
        ),
{
    left.eq(right)
}

/// `SimpleExpr::ne`: the two expressions joined by that operator.
#[verifier::external_body]
pub(crate) fn expr_ne(left: SimpleExpr, right: SimpleExpr) -> (expr: SimpleExpr)
    ensures
        expr_model(expr) == ExprModel::Binary(
            Box::new(expr_model(left)),
            Operator::NotEq,
            Box::new(expr_model(right)),
        ),
{
    left.ne(right)
}

/// `SimpleExpr::binary` with `BinOper::SmallerThan`: the two expressions joined by that operator.
#[verifier::external_body]
pub(crate) fn expr_lt(left: SimpleExpr, right: SimpleExpr) -> (expr: SimpleExpr)
    ensures
        expr_model(expr) == ExprModel::Binary(
            Box::new(expr_model(left)),
            Operator::Lt,
            Box::new(expr_model(right)),
        ),
{
    left.binary(BinOper::SmallerThan, right)
}

/// `SimpleExpr::binary` with `BinOper::SmallerThanOrEqual`: the two expressions joined by that operator.
#[verifier::external_body]
pub(crate) fn expr_lte(left: SimpleExpr, right: SimpleExpr) -> (expr: SimpleExpr)
    ensures
        expr_model(expr) == ExprModel::Binary(
            Box::new(expr_model(left)),
            Operator::LtEq,
            Box::new(expr_model(right)),
        ),
{
    left.binary(BinOper::SmallerThanOrEqual, right)
}

/// `SimpleExpr::binary` with `BinOper::GreaterThan`: the two expressions joined by that operator.
#[verifier::external_body]
pub(crate) fn expr_gt(left: SimpleExpr, right: SimpleExpr) -> (expr: SimpleExpr)
    ensures
        expr_model(expr) == ExprModel::Binary(
            Box::new(expr_model(left)),
            Operator::Gt,
            Box::new(expr_model(right)),
        ),
{
    left.binary(BinOper::GreaterThan, right)
}

/// `SimpleExpr::binary` with `BinOper::GreaterThanOrEqual`: the two expressions joined by that operator.
#[verifier::external_body]
pub(crate) fn expr_gte(left: SimpleExpr, right: SimpleExpr) -> (expr: SimpleExpr)
    ensures
        expr_model(expr) == ExprModel::Binary(
            Box::new(expr_model(left)),
            Operator::GtEq,
            Box::new(expr_model(right)),
        ),
{
    left.binary(BinOper::GreaterThanOrEqual, right)
}

/// A statement for SQLite: its text with one placeholder per bound value,
/// and the values in the order of their placeholders.
#[derive(Debug)]
pub struct Statement {
    pub sql: String,
    pub values: Values,
}

/// The mathematical value of a [`Statement`].
pub struct StatementModel {
    pub sql: Seq<char>,
    pub values: Seq<ScalarModel>,
}

impl View for Statement {
    type V = StatementModel;

    open spec fn view(&self) -> StatementModel {
        StatementModel { sql: self.sql@, values: values_model(self.values) }
    }
}

/// The target of an upsert: on a conflict in `key` the columns `update` take
/// the values of the row that was to be inserted.
pub struct ConflictModel {
    pub key: Seq<char>,
    pub update: Seq<Seq<char>>,
}

/// What an `INSERT` statement holds.
pub struct InsertModel {
    pub table: Seq<char>,
    pub columns: Seq<Seq<char>>,
    pub rows: Seq<Seq<ExprModel>>,
    pub conflict: Option<ConflictModel>,
    pub returning: Option<Seq<char>>,
}

/// What a `DELETE` statement holds.
pub struct DeleteModel {
    pub table: Seq<char>,
    pub filter: ExprModel,
}

/// An inner join with `table` on the equality of two qualified columns.
pub struct JoinModel {
    pub table: Seq<char>,
    pub left_table: Seq<char>,
    pub left_column: Seq<char>,
    pub right_table: Seq<char>,
    pub right_column: Seq<char>,
}

/// What a `SELECT` statement holds.
pub struct SelectModel {
    pub distinct: bool,
    pub columns: Seq<Seq<char>>,
    pub table: Seq<char>,
    pub joins: Seq<JoinModel>,
    pub filters: Seq<ExprModel>,
}

/// A query over one common table expression called `name`.
pub struct WithModel {
    pub name: Seq<char>,
    pub table_query: SelectModel,
    pub query: SelectModel,
}

/// What a `sea_query::InsertStatement` holds.
pub uninterp spec fn insert_model(statement: InsertStatement) -> InsertModel;

/// What a `sea_query::SelectStatement` holds.
pub uninterp spec fn select_model(statement: SelectStatement) -> SelectModel;

/// What a `sea_query::WithQuery` holds.
pub uninterp spec fn with_model(query: WithQuery) -> WithModel;

/// The text that `InsertStatement::build` gives for SQLite.
pub uninterp spec fn sqlite_insert(statement: InsertModel) -> Seq<char>;

/// The text that `DeleteStatement::build` gives for SQLite.
pub uninterp spec fn sqlite_delete(statement: DeleteModel) -> Seq<char>;

/// The text that `WithQuery::build` gives for SQLite.
pub uninterp spec fn sqlite_with_query(query: WithModel) -> Seq<char>;

/// `Query::insert`, `into_table` and `columns`: an insert into the table's
/// columns, so far without rows.
#[verifier::external_body]
pub(crate) fn insert_into(table: &str, columns: &Vec<String>) -> (statement: InsertStatement)
    ensures
        insert_model(statement) == (InsertModel {
            table: table@,
            columns: names_view(columns@),
            rows: Seq::empty(),
            conflict: None,
            returning: None,
        }),
{
    Query::insert()
        .into_table(Alias::new(table))
        .columns(columns.iter().map(Alias::new))
        .to_owned()
}

/// `InsertStatement::values_panic`: appends one row. The outside function
/// panics unless the row has one value per column, and adds no row where the
/// row is empty.
#[verifier::external_body]
pub(crate) fn insert_values(statement: &mut InsertStatement, values: Vec<SimpleExpr>)
    requires
        values@.len() == insert_model(*old(statement)).columns.len(),
        values@.len() > 0,
    ensures
        insert_model(*final(statement)) == (InsertModel {
            rows: insert_model(*old(statement)).rows.push(exprs_model(values@)),
            ..insert_model(*old(statement))
        }),
{
    statement.values_panic(values);
}

/// `InsertStatement::on_conflict` with `OnConflict::columns` of one column
/// and `update_columns`.
#[verifier::external_body]
pub(crate) fn insert_on_conflict_update(
    statement: &mut InsertStatement,
    key: &str,
    update: &Vec<String>,
)
    ensures
        insert_model(*final(statement)) == (InsertModel {
            conflict: Some(ConflictModel { key: key@, update: names_view(update@) }),
            ..insert_model(*old(statement))
        }),
{
    statement.on_conflict(
        OnConflict::columns([Alias::new(key)])
            .update_columns(update.iter().map(Alias::new))
            .to_owned(),
    );
}

/// `InsertStatement::returning` with `Query::returning().column(..)`: the
/// statement gives back that column of the row it wrote.
#[verifier::external_body]
pub(crate) fn insert_returning(statement: &mut InsertStatement, column: &str)
    ensures
        insert_model(*final(statement)) == (InsertModel {
            returning: Some(column@),
            ..insert_model(*old(statement))
        }),
{
    statement.returning(Query::returning().column(Alias::new(column)));
}

/// `InsertStatement::build` for SQLite: the text depends on what the
/// statement holds and on nothing else; the bound values are the literals of
/// its rows, row by row.
#[verifier::external_body]
pub(crate) fn insert_build(statement: &InsertStatement) -> (built: Statement)
    ensures
        built.sql@ == sqlite_insert(insert_model(*statement)),
        values_model(built.values) == rows_params(
            insert_model(*statement).rows,
            insert_model(*statement).rows.len(),
        ),
{
    let (sql, values) = statement.build(SqliteQueryBuilder);
    Statement { sql, values }
}

/// `Query::delete`, `from_table`, `and_where` and `build` for SQLite: the
/// deletion of the table's rows that meet the filter. The bound values are
/// the filter's literals.
#[verifier::external_body]
pub(crate) fn delete_build(table: &str, filter: SimpleExpr) -> (built: Statement)
    ensures
        built.sql@ == sqlite_delete(DeleteModel { table: table@, filter: expr_model(filter) }),
        values_model(built.values) == expr_params(expr_model(filter)),
{
    let (sql, values) = Query::delete()
        .from_table(Alias::new(table))
        .and_where(filter)
        .build(SqliteQueryBuilder);
    Statement { sql, values }
}

/// `Query::select`, `from` and `columns`: the selection of these columns
/// from the table.
#[verifier::external_body]
pub(crate) fn select_from(table: &str, columns: &Vec<String>) -> (statement: SelectStatement)
    ensures
        select_model(statement) == (SelectModel {
            distinct: false,
            columns: names_view(columns@),
            table: table@,
            joins: Seq::empty(),
            filters: Seq::empty(),
        }),
{
    Query::select()
        .from(Alias::new(table))
        .columns(columns.iter().map(Alias::new))
        .to_owned()
}

/// `SelectStatement::and_where`: one more condition that the selected rows
/// meet.
#[verifier::external_body]
pub(crate) fn select_and_where(statement: &mut SelectStatement, filter: SimpleExpr)
    ensures
        select_model(*final(statement)) == (SelectModel {
            filters: select_model(*old(statement)).filters.push(expr_model(filter)),
            ..select_model(*old(statement))
        }),
{
    statement.and_where(filter);
}

/// `SelectStatement::inner_join` on `Expr::col(..).equals(..)`: an inner join
/// with `table` where the two qualified columns are equal.
#[verifier::external_body]
pub(crate) fn select_inner_join(
    statement: &mut SelectStatement,
    table: &str,
    left_table: &str,
    left_column: &str,
    right_table: &str,
    right_column: &str,
)
    ensures
        select_model(*final(statement)) == (SelectModel {
            joins: select_model(*old(statement)).joins.push(
                JoinModel {
                    table: table@,
                    left_table: left_table@,
                    left_column: left_column@,
                    right_table: right_table@,
                    right_column: right_column@,
                },
            ),
            ..select_model(*old(statement))
        }),
{
    statement.inner_join(
        Alias::new(table),
        Expr::col((Alias::new(left_table), Alias::new(left_column)))
            .equals((Alias::new(right_table), Alias::new(right_column))),
    );
}

/// `SelectStatement::distinct`: equal rows are given once.
#[verifier::external_body]
pub(crate) fn select_distinct(statement: &mut SelectStatement)
    ensures
        select_model(*final(statement)) == (SelectModel {
            distinct: true,
            ..select_model(*old(statement))
        }),
{
    statement.distinct();
}

/// `SelectStatement::with` on a `WithClause` of one `CommonTableExpression`:
/// `query` over the table `name` that `table_query` defines.
#[verifier::external_body]
pub(crate) fn select_with(query: SelectStatement, name: &str, table_query: SelectStatement) -> (with: WithQuery)
    ensures
        with_model(with) == (WithModel {
            name: name@,
            table_query: select_model(table_query),
            query: select_model(query),
        }),
{
    let table = CommonTableExpression::new().query(table_query).table_name(Alias::new(name)).to_owned();
    query.with(WithClause::new().cte(table).to_owned())
}

/// `WithQuery::build` for SQLite: the text depends on what the query holds
/// and on nothing else; the bound values are the literals of the table
/// query's conditions, then those of the query's.
#[verifier::external_body]
pub(crate) fn with_build(query: &WithQuery) -> (built: Statement)
    ensures
        built.sql@ == sqlite_with_query(with_model(*query)),
        values_model(built.values) == exprs_params(
            with_model(*query).table_query.filters,
            with_model(*query).table_query.filters.len(),
        ) + exprs_params(with_model(*query).query.filters, with_model(*query).query.filters.len()),
{
    let (sql, values) = query.build(SqliteQueryBuilder);
    Statement { sql, values }
}

} // verus!
