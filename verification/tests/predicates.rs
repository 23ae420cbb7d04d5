use pruning_index::compile::{compile, UnsupportedExpression};
use pruning_index::predicate::{rewrite_row_counts, BoundsExpr, Operator, Scalar};
use sea_query::{Query, SqliteQueryBuilder, Value};

fn col(name: &str) -> BoundsExpr {
    BoundsExpr::Column(name.to_string())
}

fn num(v: i64) -> BoundsExpr {
    BoundsExpr::Literal(Scalar::Int(v))
}

fn txt(s: &str) -> BoundsExpr {
    BoundsExpr::Literal(Scalar::Text(s.to_string()))
}

fn bin(left: BoundsExpr, op: Operator, right: BoundsExpr) -> BoundsExpr {
    BoundsExpr::Binary(Box::new(left), op, Box::new(right))
}

fn not(inner: BoundsExpr) -> BoundsExpr {
    BoundsExpr::Not(Box::new(inner))
}

/// The condition as SQLite would get it, with its bound values.
fn render(expr: &BoundsExpr) -> (String, Vec<Value>) {
    let fragment = compile(expr).unwrap();
    let (sql, values) = Query::select().and_where(fragment.condition).build(SqliteQueryBuilder);
    (sql, values.0)
}

#[test]
fn row_count_placeholder_becomes_shared_column() {
    assert_eq!(rewrite_row_counts(col("a_row_count")), col("row_count"));
    assert_eq!(rewrite_row_counts(col("some_long_name_row_count")), col("row_count"));
    assert_eq!(rewrite_row_counts(col("_row_count")), col("row_count"));
}

#[test]
fn other_columns_are_left_alone() {
    for name in ["a_min", "a_max", "a_null_count", "row_count", "a_row_count_min", "a_row_coun", ""] {
        assert_eq!(rewrite_row_counts(col(name)), col(name));
    }
}

#[test]
fn rewrite_reaches_every_leaf_and_changes_nothing_else() {
    let before = bin(
        bin(col("a_null_count"), Operator::NotEq, col("a_row_count")),
        Operator::And,
        not(bin(
            bin(col("b_row_count"), Operator::Lt, num(5)),
            Operator::Or,
            bin(txt("a_row_count"), Operator::Eq, BoundsExpr::Unsupported),
        )),
    );
    let after = bin(
        bin(col("a_null_count"), Operator::NotEq, col("row_count")),
        Operator::And,
        not(bin(
            bin(col("row_count"), Operator::Lt, num(5)),
            Operator::Or,
            bin(txt("a_row_count"), Operator::Eq, BoundsExpr::Unsupported),
        )),
    );
    assert_eq!(rewrite_row_counts(before), after);
}

#[test]
fn rewriting_twice_is_rewriting_once() {
    let once = rewrite_row_counts(bin(col("a_row_count"), Operator::Gt, col("a_null_count")));
    let expected = bin(col("row_count"), Operator::Gt, col("a_null_count"));
    assert_eq!(once, expected);
    assert_eq!(rewrite_row_counts(once), expected);
}

#[test]
fn column_compiles_to_column_reference() {
    assert_eq!(render(&col("a_min")), ("SELECT  WHERE \"a_min\"".to_string(), vec![]));
}

#[test]
fn literals_compile_to_bound_values() {
    assert_eq!(render(&num(-7)).1, vec![Value::BigInt(Some(-7))]);
    assert_eq!(render(&txt("z")).1, vec![Value::String(Some(Box::new("z".to_string())))]);
    assert_eq!(
        render(&BoundsExpr::Literal(Scalar::Boolean(false))).1,
        vec![Value::Bool(Some(false))]
    );
    assert_eq!(render(&num(1)).0, "SELECT  WHERE ?");
}

#[test]
fn each_operator_compiles_to_its_relational_counterpart() {
    let cases = [
        (Operator::And, "AND"),
        (Operator::Or, "OR"),
        (Operator::Eq, "="),
        (Operator::NotEq, "<>"),
        (Operator::Lt, "<"),
        (Operator::LtEq, "<="),
        (Operator::Gt, ">"),
        (Operator::GtEq, ">="),
    ];
    for (op, text) in cases {
        let (sql, values) = render(&bin(col("a_min"), op, col("a_max")));
        assert_eq!(sql, format!("SELECT  WHERE \"a_min\" {} \"a_max\"", text));
        assert!(values.is_empty());
    }
}

#[test]
fn negation_compiles_to_not() {
    let (sql, _) = render(&not(bin(col("a_min"), Operator::Eq, col("a_max"))));
    assert_eq!(sql, "SELECT  WHERE NOT \"a_min\" = \"a_max\"");
}

#[test]
fn equality_bracket_compiles_with_values_in_order() {
    // what `a = 5 AND b = 'x'` becomes as a bounds predicate
    let expr = bin(
        bin(
            bin(col("a_min"), Operator::LtEq, num(5)),
            Operator::And,
            bin(num(6), Operator::LtEq, col("a_max")),
        ),
        Operator::And,
        bin(
            bin(col("b_min"), Operator::LtEq, txt("x")),
            Operator::And,
            bin(txt("y"), Operator::LtEq, col("b_max")),
        ),
    );
    let (sql, values) = render(&expr);
    assert_eq!(
        sql,
        "SELECT  WHERE \"a_min\" <= ? AND ? <= \"a_max\" AND (\"b_min\" <= ? AND ? <= \"b_max\")"
    );
    assert_eq!(
        values,
        vec![
            Value::BigInt(Some(5)),
            Value::BigInt(Some(6)),
            Value::String(Some(Box::new("x".to_string()))),
            Value::String(Some(Box::new("y".to_string()))),
        ]
    );
}

#[test]
fn fragment_lists_referenced_columns_in_order() {
    let expr = bin(
        bin(col("a_min"), Operator::LtEq, num(5)),
        Operator::And,
        not(bin(col("a_null_count"), Operator::Eq, col("a_min"))),
    );
    assert_eq!(compile(&expr).unwrap().columns, vec!["a_min", "a_null_count", "a_min"]);
    assert!(compile(&num(3)).unwrap().columns.is_empty());
}

#[test]
fn unsupported_node_is_refused_wherever_it_stands() {
    assert_eq!(compile(&BoundsExpr::Unsupported).err(), Some(UnsupportedExpression));
    let left = bin(BoundsExpr::Unsupported, Operator::And, col("a_min"));
    assert_eq!(compile(&left).err(), Some(UnsupportedExpression));
    let deep = bin(col("a_min"), Operator::Or, not(bin(num(1), Operator::Lt, BoundsExpr::Unsupported)));
    assert_eq!(compile(&deep).err(), Some(UnsupportedExpression));
}
