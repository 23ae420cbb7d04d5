//! Bounds predicates: boolean expressions over the statistics columns of a
//! row group, and the rewrite of per-column row-count placeholders into the
//! one row count that a row group has.

use vstd::prelude::*;
use vstd::string::StrSliceExecFns;

verus! {

/// The operators of a bounds predicate.
#[derive(Clone, Copy, Debug, PartialEq, Eq, Structural)]
pub enum Operator {
    And,
    Or,
    Eq,
    NotEq,
    Lt,
    LtEq,
    Gt,
    GtEq,
}

/// A literal of a bounds predicate.
#[derive(Debug, Clone, PartialEq, Eq)]
pub enum Scalar {
    Boolean(bool),
    Int(i64),
    Text(String),
}

/// The mathematical value of a [`Scalar`].
pub enum ScalarModel {
    Boolean(bool),
    Int(i64),
    Text(Seq<char>),
}

impl View for Scalar {
    type V = ScalarModel;

    open spec fn view(&self) -> ScalarModel {
        match *self {
            Scalar::Boolean(b) => ScalarModel::Boolean(b),
            Scalar::Int(v) => ScalarModel::Int(v),
            Scalar::Text(s) => ScalarModel::Text(s@),
        }
    }
}

/// A bounds predicate, as the query engine's pruning rewrite hands it over:
/// a tree over references to statistics columns (`<col>_min`, `<col>_max`,
/// `<col>_null_count`, `<col>_row_count`) and literals.
#[derive(Debug, PartialEq, Eq)]
pub enum BoundsExpr {
    Column(String),
    Literal(Scalar),
    Binary(Box<BoundsExpr>, Operator, Box<BoundsExpr>),
    Not(Box<BoundsExpr>),
    /// A node of a kind that cannot be turned into a query.
    Unsupported,
}

/// The mathematical value of an expression tree.
pub enum ExprModel {
    Column(Seq<char>),
    Literal(ScalarModel),
    Binary(Box<ExprModel>, Operator, Box<ExprModel>),
    Not(Box<ExprModel>),
    Unsupported,
}

/// The value of a bounds predicate, node by node.
pub open spec fn model_of(expr: BoundsExpr) -> ExprModel
    decreases expr,
{
    match expr {
        BoundsExpr::Column(name) => ExprModel::Column(name@),
        BoundsExpr::Literal(value) => ExprModel::Literal(value@),
        BoundsExpr::Binary(left, op, right) => ExprModel::Binary(
            Box::new(model_of(*left)),
            op,
            Box::new(model_of(*right)),
        ),
        BoundsExpr::Not(inner) => ExprModel::Not(Box::new(model_of(*inner))),
        BoundsExpr::Unsupported => ExprModel::Unsupported,
    }
}

impl View for BoundsExpr {
    type V = ExprModel;

    open spec fn view(&self) -> ExprModel {
        model_of(*self)
    }
}

/// The suffix by which the pruning rewrite marks the row count of a column.
pub open spec fn row_count_suffix() -> Seq<char> {
    seq!['_', 'r', 'o', 'w', '_', 'c', 'o', 'u', 'n', 't']
}

/// The one column that holds the row count of a row group.
pub open spec fn row_count_column() -> Seq<char> {
    seq!['r', 'o', 'w', '_', 'c', 'o', 'u', 'n', 't']
}

/// `name` ends in `suffix`.
pub open spec fn has_suffix(name: Seq<char>, suffix: Seq<char>) -> bool {
    name.len() >= suffix.len() && name.subrange(name.len() - suffix.len(), name.len() as int)
        == suffix
}

/// The expression with every reference to a column whose name ends in
/// `_row_count` replaced by a reference to `row_count`.
pub open spec fn with_shared_row_count(expr: ExprModel) -> ExprModel
    decreases expr,
{
    match expr {
        ExprModel::Column(name) => if has_suffix(name, row_count_suffix()) {
            ExprModel::Column(row_count_column())
        } else {
            expr
        },
        ExprModel::Binary(left, op, right) => ExprModel::Binary(
            Box::new(with_shared_row_count(*left)),
            op,
            Box::new(with_shared_row_count(*right)),
        ),
        ExprModel::Not(inner) => ExprModel::Not(Box::new(with_shared_row_count(*inner))),
        _ => expr,
    }
}

/// Whether `name` ends in `suffix`.
fn ends_with(name: &str, suffix: &str) -> (yes: bool)
    ensures
        yes == has_suffix(name@, suffix@),
{
    let n = name.unicode_len();
    let m = suffix.unicode_len();
    if n < m {
        return false;
    }
    let start = n - m;
    let mut i: usize = 0;
    while i < m
        invariant
            n == name@.len(),
            m == suffix@.len(),
            start == n - m,
            i <= m,
            forall|j: int| 0 <= j < i ==> name@[start + j] == suffix@[j],
        decreases m - i,
    {
        if name.get_char(start + i) != suffix.get_char(i) {
            return false;
        }
        i += 1;
    }
    assert(name@.subrange(start as int, n as int) =~= suffix@);
    true
}

/// Replaces every reference to a column whose name ends in `_row_count` by a
/// reference to the shared `row_count` column: the index keeps one row count
/// per row group, not one per column. Nothing else changes.
pub fn rewrite_row_counts(expr: BoundsExpr) -> (rewritten: BoundsExpr)
    ensures
        rewritten@ == with_shared_row_count(expr@),
    decreases expr,
{
    match expr {
        BoundsExpr::Column(name) => {
            proof {
                reveal_strlit("_row_count");
                reveal_strlit("row_count");
                assert("_row_count"@ =~= row_count_suffix());
                assert("row_count"@ =~= row_count_column());
            }
            if ends_with(name.as_str(), "_row_count") {
                BoundsExpr::Column("row_count".to_string())
            } else {
                BoundsExpr::Column(name)
            }
        },
        BoundsExpr::Binary(left, op, right) => BoundsExpr::Binary(
            Box::new(rewrite_row_counts(*left)),
            op,
            Box::new(rewrite_row_counts(*right)),
        ),
        BoundsExpr::Not(inner) => BoundsExpr::Not(Box::new(rewrite_row_counts(*inner))),
        BoundsExpr::Literal(value) => BoundsExpr::Literal(value),
        BoundsExpr::Unsupported => BoundsExpr::Unsupported,
    }
}


/// The value of an expression, given what a column reference, a literal,
/// an operator, a negation and an unsupported node stand for.
pub open spec fn evaluate<V>(
    expr: ExprModel,
    column: spec_fn(Seq<char>) -> V,
    literal: spec_fn(ScalarModel) -> V,
    binary: spec_fn(Operator, V, V) -> V,
    negate: spec_fn(V) -> V,
    unsupported: V,
) -> V
    decreases expr,
{
    match expr {
        ExprModel::Column(name) => column(name),
        ExprModel::Literal(value) => literal(value),
        ExprModel::Binary(left, op, right) => binary(
            op,
            evaluate(*left, column, literal, binary, negate, unsupported),
            evaluate(*right, column, literal, binary, negate, unsupported),
        ),
        ExprModel::Not(inner) => negate(
            evaluate(*inner, column, literal, binary, negate, unsupported),
        ),
        ExprModel::Unsupported => unsupported,
    }
}

/// The columns of a statistics row as the pruning rewrite names them: every
/// name that ends in `_row_count` reads the row's one row count.
pub open spec fn with_row_count_placeholders<V>(column: spec_fn(Seq<char>) -> V) -> spec_fn(
    Seq<char>,
) -> V {
    |name: Seq<char>|
        if has_suffix(name, row_count_suffix()) {
            column(row_count_column())
        } else {
            column(name)
        }
}

/// The rewrite keeps the meaning of a predicate: on every statistics row and
/// under every reading of the operators, the rewritten predicate has the
/// value that the predicate had before when each `<col>_row_count` reads the row
/// group's row count.
pub proof fn rewrite_keeps_meaning<V>(
    expr: ExprModel,
    column: spec_fn(Seq<char>) -> V,
    literal: spec_fn(ScalarModel) -> V,
    binary: spec_fn(Operator, V, V) -> V,
    negate: spec_fn(V) -> V,
    unsupported: V,
)
    ensures
        evaluate(with_shared_row_count(expr), column, literal, binary, negate, unsupported)
            == evaluate(
            expr,
            with_row_count_placeholders(column),
            literal,
            binary,
            negate,
            unsupported,
        ),
    decreases expr,
{
    match expr {
        ExprModel::Binary(left, _, right) => {
            rewrite_keeps_meaning(*left, column, literal, binary, negate, unsupported);
            rewrite_keeps_meaning(*right, column, literal, binary, negate, unsupported);
        },
        ExprModel::Not(inner) => {
            rewrite_keeps_meaning(*inner, column, literal, binary, negate, unsupported);
        },
        _ => {},
    }
}

/// Rewriting a rewritten predicate changes nothing: the shared column is no
/// placeholder.
pub proof fn rewrite_is_idempotent(expr: ExprModel)
    ensures
        with_shared_row_count(with_shared_row_count(expr)) == with_shared_row_count(expr),
    decreases expr,
{
    match expr {
        ExprModel::Binary(left, _, right) => {
            rewrite_is_idempotent(*left);
            rewrite_is_idempotent(*right);
        },
        ExprModel::Not(inner) => {
            rewrite_is_idempotent(*inner);
        },
        _ => {},
    }
}

} // verus!
