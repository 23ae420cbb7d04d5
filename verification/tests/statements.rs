use pruning_index::index::SQLiteIndex;
use pruning_index::predicate::{BoundsExpr, Operator, Scalar};
use pruning_index::schema::{DataKind, Field};
use pruning_index::stats::{
    ColumnStatistics, FileStatisticsInsert, MinMaxStats, RowGroupStatisticsInsert,
};
use pruning_index::store::{
    candidates_statement, create_file_table, create_row_group_table,
    delete_row_groups_statement, insert_row_groups_statement, set_column_type,
    upsert_file_statement,
};
use sea_query::{Alias, ColumnDef, ColumnType, Value};

fn field(name: &str, kind: DataKind, nullable: bool) -> Field {
    Field { name: name.to_string(), kind, nullable }
}

fn text(s: &str) -> Value {
    Value::String(Some(Box::new(s.to_string())))
}

fn big(v: i64) -> Value {
    Value::BigInt(Some(v))
}

const CANDIDATES_TAIL: &str = "SELECT DISTINCT \"file_name\", \"file_size_bytes\", \
    \"row_group_count\", \"row_group\" FROM \"file_statistics\" INNER JOIN \"row_groups\" ON \
    \"file_statistics\".\"file_id\" = \"row_groups\".\"file_id\"";

#[test]
fn column_type_is_set_from_logical_type() {
    let cases = [
        (DataKind::Int8, ColumnType::TinyInteger),
        (DataKind::UInt8, ColumnType::TinyUnsigned),
        (DataKind::Int16, ColumnType::SmallInteger),
        (DataKind::UInt16, ColumnType::SmallUnsigned),
        (DataKind::Int32, ColumnType::Integer),
        (DataKind::UInt32, ColumnType::Unsigned),
        (DataKind::Int64, ColumnType::BigInteger),
        (DataKind::UInt64, ColumnType::BigUnsigned),
        (DataKind::Float32, ColumnType::Float),
        (DataKind::Float64, ColumnType::Double),
        (DataKind::Utf8, ColumnType::String(None)),
        (DataKind::LargeUtf8, ColumnType::String(None)),
        (DataKind::Binary, ColumnType::Binary(sea_query::BlobSize::Blob(None))),
        (DataKind::FixedSizeBinary, ColumnType::Binary(sea_query::BlobSize::Blob(None))),
        (DataKind::LargeBinary, ColumnType::Binary(sea_query::BlobSize::Blob(None))),
    ];
    for (kind, expected) in cases {
        let mut column = ColumnDef::new(Alias::new("c"));
        assert!(column.get_column_type().is_none());
        set_column_type(&mut column, kind);
        assert_eq!(column.get_column_type(), Some(&expected));
        assert_eq!(column.get_column_name(), "c");
        assert!(column.get_column_spec().is_empty());
    }
}

#[test]
fn file_table_has_the_persisted_layout() {
    assert_eq!(
        create_file_table(),
        "CREATE TABLE IF NOT EXISTS \"file_statistics\" ( \
         \"file_id\" integer PRIMARY KEY AUTOINCREMENT, \
         \"file_name\" text NOT NULL UNIQUE, \
         \"file_size_bytes\" integer NOT NULL, \
         \"row_group_count\" integer NOT NULL, \
         \"row_count\" integer NOT NULL )"
    );
}

#[test]
fn row_group_table_has_three_columns_per_indexed_field() {
    let schema = vec![field("a", DataKind::Int64, true), field("b", DataKind::Utf8, false)];
    assert_eq!(
        create_row_group_table(&schema),
        "CREATE TABLE IF NOT EXISTS \"row_group_statistics\" ( \
         \"file_id\" integer NOT NULL, \
         \"row_group\" integer NOT NULL, \
         \"row_count\" integer NOT NULL, \
         \"a_null_count\" integer NOT NULL, \"a_min\" bigint, \"a_max\" bigint, \
         \"b_null_count\" integer NOT NULL, \"b_min\" text NOT NULL, \"b_max\" text NOT NULL, \
         PRIMARY KEY (\"file_id\", \"row_group\"), \
         FOREIGN KEY (\"file_id\") REFERENCES \"file_statistics\" (\"file_id\") ON DELETE CASCADE )"
    );
}

#[test]
fn row_group_table_of_empty_schema_has_only_the_key_and_row_count() {
    assert_eq!(
        create_row_group_table(&vec![]),
        "CREATE TABLE IF NOT EXISTS \"row_group_statistics\" ( \
         \"file_id\" integer NOT NULL, \
         \"row_group\" integer NOT NULL, \
         \"row_count\" integer NOT NULL, \
         PRIMARY KEY (\"file_id\", \"row_group\"), \
         FOREIGN KEY (\"file_id\") REFERENCES \"file_statistics\" (\"file_id\") ON DELETE CASCADE )"
    );
}

#[test]
fn unsupported_field_gets_no_columns() {
    let with = vec![
        field("x", DataKind::Float32, true),
        field("a", DataKind::Int8, true),
        field("y", DataKind::Binary, false),
        field("z", DataKind::Other, true),
    ];
    let without = vec![field("a", DataKind::Int8, true)];
    let sql = create_row_group_table(&with);
    assert_eq!(sql, create_row_group_table(&without));
    for name in ["x_min", "x_max", "x_null_count", "y_min", "z_max"] {
        assert!(!sql.contains(name));
    }
    assert!(sql.contains("\"a_null_count\" integer NOT NULL, \"a_min\" integer, \"a_max\" integer"));
}

#[test]
fn initialize_creates_files_then_row_groups() {
    let schema = vec![field("a", DataKind::UInt16, false)];
    let index = SQLiteIndex::new(schema.clone());
    assert_eq!(index.initialize(), vec![create_file_table(), create_row_group_table(&schema)]);
    assert_eq!(index.initialize(), index.initialize());
}

#[test]
fn file_upsert_is_keyed_by_name_and_returns_the_identifier() {
    let file = FileStatisticsInsert {
        file_name: "f.parquet".to_string(),
        file_size_bytes: 10,
        row_group_count: 2,
        row_count: 20,
    };
    let statement = upsert_file_statement(&file);
    assert_eq!(
        statement.sql,
        "INSERT INTO \"file_statistics\" \
         (\"file_name\", \"file_size_bytes\", \"row_group_count\", \"row_count\") \
         VALUES (?, ?, ?, ?) \
         ON CONFLICT (\"file_name\") DO UPDATE SET \
         \"file_size_bytes\" = \"excluded\".\"file_size_bytes\", \
         \"row_group_count\" = \"excluded\".\"row_group_count\", \
         \"row_count\" = \"excluded\".\"row_count\" \
         RETURNING \"file_id\""
    );
    assert_eq!(statement.values.0, vec![text("f.parquet"), big(10), big(2), big(20)]);
}

#[test]
fn delete_is_keyed_by_file_identifier_alone() {
    let statement = delete_row_groups_statement(42);
    assert_eq!(statement.sql, "DELETE FROM \"row_group_statistics\" WHERE \"file_id\" = ?");
    assert_eq!(statement.values.0, vec![big(42)]);
}

fn rows_a_b() -> Vec<RowGroupStatisticsInsert> {
    vec![
        RowGroupStatisticsInsert {
            row_group: 0,
            row_count: 100,
            column_statistics: vec![
                ColumnStatistics { null_count: 0, stats: MinMaxStats::Int(1, 100) },
                ColumnStatistics {
                    null_count: 3,
                    stats: MinMaxStats::String("a".to_string(), "c".to_string()),
                },
            ],
        },
        RowGroupStatisticsInsert {
            row_group: 1,
            row_count: 50,
            column_statistics: vec![
                ColumnStatistics { null_count: 4, stats: MinMaxStats::Int(101, 200) },
                ColumnStatistics {
                    null_count: 0,
                    stats: MinMaxStats::String("c".to_string(), "z".to_string()),
                },
            ],
        },
    ]
}

#[test]
fn row_groups_are_inserted_one_row_each_in_column_order() {
    let schema = vec![
        field("a", DataKind::Int64, true),
        field("skipped", DataKind::Float64, true),
        field("b", DataKind::Utf8, true),
    ];
    let statement = insert_row_groups_statement(&schema, 7, &rows_a_b()).unwrap();
    assert_eq!(
        statement.sql,
        "INSERT INTO \"row_group_statistics\" (\"file_id\", \"row_group\", \"row_count\", \
         \"a_null_count\", \"a_min\", \"a_max\", \"b_null_count\", \"b_min\", \"b_max\") \
         VALUES (?, ?, ?, ?, ?, ?, ?, ?, ?), (?, ?, ?, ?, ?, ?, ?, ?, ?)"
    );
    assert_eq!(
        statement.values.0,
        vec![
            big(7), big(0), big(100), big(0), big(1), big(100), big(3), text("a"), text("c"),
            big(7), big(1), big(50), big(4), big(101), big(200), big(0), text("c"), text("z"),
        ]
    );
}

#[test]
fn nothing_to_insert_without_row_groups() {
    let schema = vec![field("a", DataKind::Int64, true)];
    assert!(insert_row_groups_statement(&schema, 7, &vec![]).is_none());
}

#[test]
fn replacing_row_groups_deletes_before_it_inserts() {
    let index =
        SQLiteIndex::new(vec![field("a", DataKind::Int64, true), field("b", DataKind::Utf8, true)]);
    let statements = index.add_row(9, &rows_a_b());
    assert_eq!(statements.len(), 2);
    assert_eq!(statements[0].sql, delete_row_groups_statement(9).sql);
    assert_eq!(statements[0].values.0, vec![big(9)]);
    assert!(statements[1].sql.starts_with("INSERT INTO \"row_group_statistics\""));
    assert_eq!(statements[1].values.0.len(), 18);

    let statements = index.add_row(9, &vec![]);
    assert_eq!(statements.len(), 1);
    assert_eq!(statements[0].sql, "DELETE FROM \"row_group_statistics\" WHERE \"file_id\" = ?");
}

#[test]
fn candidates_query_applies_the_rewritten_predicate() {
    let filter = BoundsExpr::Binary(
        Box::new(BoundsExpr::Binary(
            Box::new(BoundsExpr::Column("a_min".to_string())),
            Operator::LtEq,
            Box::new(BoundsExpr::Literal(Scalar::Int(150))),
        )),
        Operator::And,
        Box::new(BoundsExpr::Binary(
            Box::new(BoundsExpr::Column("a_null_count".to_string())),
            Operator::NotEq,
            Box::new(BoundsExpr::Column("a_row_count".to_string())),
        )),
    );
    let query = candidates_statement(Some(filter));
    assert!(query.pruned);
    assert_eq!(
        query.statement.sql,
        format!(
            "WITH \"row_groups\" AS (SELECT \"file_id\", \"row_group\" FROM \
             \"row_group_statistics\" WHERE \"a_min\" <= ? AND \"a_null_count\" <> \"row_count\") {}",
            CANDIDATES_TAIL
        )
    );
    assert_eq!(query.statement.values.0, vec![big(150)]);
}

#[test]
fn candidates_query_without_predicate_asks_for_everything() {
    let query = candidates_statement(None);
    assert!(!query.pruned);
    assert_eq!(
        query.statement.sql,
        format!(
            "WITH \"row_groups\" AS (SELECT \"file_id\", \"row_group\" FROM \
             \"row_group_statistics\" WHERE ?) {}",
            CANDIDATES_TAIL
        )
    );
    assert_eq!(query.statement.values.0, vec![Value::Bool(Some(true))]);
}

#[test]
fn predicate_that_cannot_be_expressed_degrades_to_everything() {
    let filter = BoundsExpr::Binary(
        Box::new(BoundsExpr::Column("a_min".to_string())),
        Operator::Lt,
        Box::new(BoundsExpr::Unsupported),
    );
    let degraded = candidates_statement(Some(filter));
    let everything = candidates_statement(None);
    assert!(!degraded.pruned);
    assert_eq!(degraded.statement.sql, everything.statement.sql);
    assert_eq!(degraded.statement.values.0, everything.statement.values.0);
}

#[test]
fn index_asks_as_the_free_function_does() {
    let index = SQLiteIndex::new(vec![]);
    let query = index.candidates(Some(BoundsExpr::Column("a_row_count".to_string())));
    assert!(query.pruned);
    assert!(query.statement.sql.contains("WHERE \"row_count\")"));
}
