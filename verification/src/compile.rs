//! Turning a bounds predicate into the condition of a query over the
//! statistics table.

use vstd::prelude::*;
use sea_query::SimpleExpr;
use crate::predicate::{BoundsExpr, ExprModel, Operator, Scalar};
use crate::sql::{
    expr_and, expr_bool, expr_column, expr_eq, expr_gt, expr_gte, expr_int, expr_lt, expr_lte,
    expr_model, expr_ne, expr_not, expr_or, expr_text, names_view,
};

verus! {

/// The condition of a query over the statistics table, with the columns
/// that it reads.
#[derive(Debug)]
pub struct QueryFragment {
    pub condition: SimpleExpr,
    /// The columns that the condition refers to, in the order in which they
    /// occur, each as often as it occurs.
    pub columns: Vec<String>,
}

/// The predicate holds a node that no query can express.
#[derive(Clone, Copy, Debug, PartialEq, Eq, Structural)]
pub struct UnsupportedExpression;

/// Every node of the expression can be expressed in a query.
pub open spec fn is_supported(expr: ExprModel) -> bool
    decreases expr,
{
    match expr {
        ExprModel::Unsupported => false,
        ExprModel::Binary(left, _, right) => is_supported(*left) && is_supported(*right),
        ExprModel::Not(inner) => is_supported(*inner),
        _ => true,
    }
}

/// The columns that the expression refers to, from left to right.
pub open spec fn referenced_columns(expr: ExprModel) -> Seq<Seq<char>>
    decreases expr,
{
    match expr {
        ExprModel::Column(name) => seq![name],
        ExprModel::Binary(left, _, right) => referenced_columns(*left) + referenced_columns(*right),
        ExprModel::Not(inner) => referenced_columns(*inner),
        _ => Seq::empty(),
    }
}

fn compile_node(expr: &BoundsExpr, columns: &mut Vec<String>) -> (result: Result<
    SimpleExpr,
    UnsupportedExpression,
>)
    ensures
        match result {
            Ok(condition) => {
                &&& is_supported(expr@)
                &&& expr_model(condition) == expr@
                &&& names_view(final(columns)@) == names_view(old(columns)@) + referenced_columns(
                    expr@,
                )
            },
            Err(_) => !is_supported(expr@),
        },
    decreases *expr,
{
    match expr {
        BoundsExpr::Column(name) => {
            columns.push(name.clone());
            Ok(expr_column(name.as_str()))
        },
        BoundsExpr::Literal(value) => {
            match value {
                Scalar::Boolean(b) => Ok(expr_bool(*b)),
                Scalar::Int(v) => Ok(expr_int(*v)),
                Scalar::Text(s) => Ok(expr_text(s.clone())),
            }
        },
        BoundsExpr::Binary(left, op, right) => {
            let l = match compile_node(left, columns) {
                Ok(l) => l,
                Err(e) => {
                    return Err(e);
                },
            };
            let r = match compile_node(right, columns) {
                Ok(r) => r,
                Err(e) => {
                    return Err(e);
                },
            };
            Ok(
                match op {
                    Operator::And => expr_and(l, r),
                    Operator::Or => expr_or(l, r),
                    Operator::Eq => expr_eq(l, r),
                    Operator::NotEq => expr_ne(l, r),
                    Operator::Lt => expr_lt(l, r),
                    Operator::LtEq => expr_lte(l, r),
                    Operator::Gt => expr_gt(l, r),
                    Operator::GtEq => expr_gte(l, r),
                },
            )
        },
        BoundsExpr::Not(inner) => {
            match compile_node(inner, columns) {
                Ok(i) => Ok(expr_not(i)),
                Err(e) => Err(e),
            }
        },
        BoundsExpr::Unsupported => Err(UnsupportedExpression),
    }
}

/// Compiles a bounds predicate into a query condition that holds the same
/// tree: each column reference becomes a reference to the statistics column
/// of that name, each literal a bound value, each connective and comparison
/// its relational counterpart. A predicate with a node that no query can
/// express is refused, wherever in the tree the node stands.
pub fn compile(expr: &BoundsExpr) -> (result: Result<QueryFragment, UnsupportedExpression>)
    ensures
        match result {
            Ok(fragment) => {
                &&& is_supported(expr@)
                &&& expr_model(fragment.condition) == expr@
                &&& names_view(fragment.columns@) == referenced_columns(expr@)
            },
            Err(_) => !is_supported(expr@),
        },
{
    let mut columns: Vec<String> = Vec::new();
    match compile_node(expr, &mut columns) {
        Ok(condition) => Ok(QueryFragment { condition, columns }),
        Err(e) => Err(e),
    }
}

} // verus!
