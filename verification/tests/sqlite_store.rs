use pruning_index::extract::{RawColumn, RawColumnChunk, RawFile, RawStat};
use pruning_index::index::SQLiteIndex;
use pruning_index::plan::CandidateRow;
use pruning_index::predicate::{BoundsExpr, Operator, Scalar};
use pruning_index::schema::{DataKind, Field};
use pruning_index::store::upsert_file_statement;
use sea_query_binder::SqlxValues;
use sqlx::sqlite::{SqlitePool, SqlitePoolOptions};

type FileRow = (i64, String, i64, i64, i64);
type StatsRow = (i64, i64, i64, i64, i64, i64, i64, String, String);

fn run<F: std::future::Future>(future: F) -> F::Output {
    tokio::runtime::Builder::new_current_thread().enable_all().build().unwrap().block_on(future)
}

fn index_a_b() -> SQLiteIndex {
    SQLiteIndex::new(vec![
        Field { name: "a".to_string(), kind: DataKind::Int64, nullable: true },
        Field { name: "skipped".to_string(), kind: DataKind::Float64, nullable: true },
        Field { name: "b".to_string(), kind: DataKind::Utf8, nullable: true },
    ])
}

fn chunk(null_count: u64, min: RawStat, max: RawStat) -> RawColumnChunk {
    RawColumnChunk { null_count: Some(null_count), min: Some(min), max: Some(max) }
}

fn text(s: &str) -> RawStat {
    RawStat::Utf8(s.to_string())
}

/// Row group 0 has `a` in [1, 100] and `b` in ["a", "c"]; row group 1 has
/// `a` in [101, 200] and `b` in ["c", "z"].
fn two_row_groups(file_name: &str) -> RawFile {
    RawFile {
        file_name: file_name.to_string(),
        file_size: 4096,
        num_rows: 200,
        row_counts: vec![Some(100), Some(100)],
        columns: vec![
            RawColumn {
                chunks: vec![
                    chunk(0, RawStat::Int64(1), RawStat::Int64(100)),
                    chunk(0, RawStat::Int64(101), RawStat::Int64(200)),
                ],
            },
            RawColumn { chunks: vec![] },
            RawColumn { chunks: vec![chunk(0, text("a"), text("c")), chunk(100, text("c"), text("z"))] },
        ],
    }
}

fn three_row_groups(file_name: &str) -> RawFile {
    RawFile {
        file_name: file_name.to_string(),
        file_size: 9000,
        num_rows: 30,
        row_counts: vec![Some(10), Some(10), Some(10)],
        columns: vec![
            RawColumn {
                chunks: vec![
                    chunk(0, RawStat::Int64(-5), RawStat::Int64(5)),
                    chunk(1, RawStat::Int64(6), RawStat::Int64(7)),
                    chunk(2, RawStat::Int64(1000), RawStat::Int64(2000)),
                ],
            },
            RawColumn { chunks: vec![] },
            RawColumn {
                chunks: vec![
                    chunk(0, text("k"), text("l")),
                    chunk(0, text("m"), text("n")),
                    chunk(0, text("o"), text("p")),
                ],
            },
        ],
    }
}

async fn open(index: &SQLiteIndex) -> SqlitePool {
    let pool =
        SqlitePoolOptions::new().max_connections(1).connect("sqlite::memory:").await.unwrap();
    initialize(index, &pool).await;
    pool
}

async fn initialize(index: &SQLiteIndex, pool: &SqlitePool) {
    for statement in index.initialize() {
        sqlx::query(&statement).execute(pool).await.unwrap();
    }
}

/// One upsert: the file's record, then the replacement of its rows, in one
/// transaction. Gives the file's identifier.
async fn upsert(index: &SQLiteIndex, pool: &SqlitePool, raw: &RawFile) -> i64 {
    let (file, row_groups) = index.add_file(raw).unwrap();
    let mut transaction = pool.begin().await.unwrap();
    let statement = upsert_file_statement(&file);
    let (file_id,): (i64,) = sqlx::query_as_with(&statement.sql, SqlxValues(statement.values))
        .fetch_one(&mut *transaction)
        .await
        .unwrap();
    for statement in index.add_row(file_id, &row_groups) {
        sqlx::query_with(&statement.sql, SqlxValues(statement.values))
            .execute(&mut *transaction)
            .await
            .unwrap();
    }
    transaction.commit().await.unwrap();
    file_id
}

async fn candidates(
    index: &SQLiteIndex,
    pool: &SqlitePool,
    filter: Option<BoundsExpr>,
) -> Vec<CandidateRow> {
    let query = index.candidates(filter);
    let rows: Vec<(String, i64, i64, i64)> =
        sqlx::query_as_with(&query.statement.sql, SqlxValues(query.statement.values))
            .fetch_all(pool)
            .await
            .unwrap();
    rows.into_iter()
        .map(|(file_name, file_size, row_group_count, row_group)| CandidateRow {
            file_name,
            file_size,
            row_group_count,
            row_group,
        })
        .collect()
}

/// The scan plan of a query, as (file name, file size, row groups to scan),
/// sorted by file name.
async fn files(
    index: &SQLiteIndex,
    pool: &SqlitePool,
    filter: Option<BoundsExpr>,
) -> Vec<(String, u64, Vec<usize>)> {
    let rows = candidates(index, pool, filter).await;
    let mut plans: Vec<(String, u64, Vec<usize>)> = index
        .get_files(&rows)
        .unwrap()
        .into_iter()
        .map(|(name, plan)| (name, plan.file_size, plan.access_plan.row_group_indexes()))
        .collect();
    plans.sort();
    plans
}

async fn dump(pool: &SqlitePool) -> (Vec<FileRow>, Vec<StatsRow>) {
    let files: Vec<FileRow> = sqlx::query_as(
        "SELECT file_id, file_name, file_size_bytes, row_group_count, row_count \
         FROM file_statistics ORDER BY file_id",
    )
    .fetch_all(pool)
    .await
    .unwrap();
    let stats: Vec<StatsRow> = sqlx::query_as(
        "SELECT file_id, row_group, row_count, a_null_count, a_min, a_max, b_null_count, b_min, \
         b_max FROM row_group_statistics ORDER BY file_id, row_group",
    )
    .fetch_all(pool)
    .await
    .unwrap();
    (files, stats)
}

fn col(name: &str) -> BoundsExpr {
    BoundsExpr::Column(name.to_string())
}

fn num(v: i64) -> BoundsExpr {
    BoundsExpr::Literal(Scalar::Int(v))
}

fn txt(s: &str) -> BoundsExpr {
    BoundsExpr::Literal(Scalar::Text(s.to_string()))
}

fn bin(left: BoundsExpr, op: Operator, right: BoundsExpr) -> BoundsExpr {
    BoundsExpr::Binary(Box::new(left), op, Box::new(right))
}

/// The bounds predicate of `column = value` for an integer column.
fn num_equals(column: &str, value: i64) -> BoundsExpr {
    bin(
        bin(col(&format!("{}_min", column)), Operator::LtEq, num(value)),
        Operator::And,
        bin(num(value), Operator::LtEq, col(&format!("{}_max", column))),
    )
}

/// The bounds predicate of `column = value` for a text column.
fn text_equals(column: &str, value: &str) -> BoundsExpr {
    bin(
        bin(col(&format!("{}_min", column)), Operator::LtEq, txt(value)),
        Operator::And,
        bin(txt(value), Operator::LtEq, col(&format!("{}_max", column))),
    )
}

#[test]
fn store_holds_what_was_extracted() {
    run(async {
        let index = index_a_b();
        let pool = open(&index).await;
        let file_id = upsert(&index, &pool, &two_row_groups("f.parquet")).await;
        let (files, stats) = dump(&pool).await;
        assert_eq!(files, vec![(file_id, "f.parquet".to_string(), 4096, 2, 200)]);
        assert_eq!(
            stats,
            vec![
                (file_id, 0, 100, 0, 1, 100, 0, "a".to_string(), "c".to_string()),
                (file_id, 1, 100, 0, 101, 200, 100, "c".to_string(), "z".to_string()),
            ]
        );
    });
}

#[test]
fn initializing_again_changes_nothing() {
    run(async {
        let index = index_a_b();
        let pool = open(&index).await;
        upsert(&index, &pool, &two_row_groups("f.parquet")).await;
        let before = dump(&pool).await;
        initialize(&index, &pool).await;
        initialize(&index, &pool).await;
        assert_eq!(dump(&pool).await, before);
    });
}

#[test]
fn true_predicate_returns_exactly_the_row_groups_of_the_file() {
    run(async {
        let index = index_a_b();
        let pool = open(&index).await;
        upsert(&index, &pool, &three_row_groups("f.parquet")).await;
        let mut rows = candidates(&index, &pool, None).await;
        rows.sort_by_key(|r| r.row_group);
        let expected: Vec<CandidateRow> = (0..3)
            .map(|row_group| CandidateRow {
                file_name: "f.parquet".to_string(),
                file_size: 9000,
                row_group_count: 3,
                row_group,
            })
            .collect();
        assert_eq!(rows, expected);
        assert_eq!(
            files(&index, &pool, None).await,
            vec![("f.parquet".to_string(), 9000, vec![0, 1, 2])]
        );
        let always = BoundsExpr::Literal(Scalar::Boolean(true));
        assert_eq!(candidates(&index, &pool, Some(always)).await.len(), 3);
    });
}

#[test]
fn equality_on_integer_column_returns_only_the_row_group_in_range() {
    run(async {
        let index = index_a_b();
        let pool = open(&index).await;
        upsert(&index, &pool, &two_row_groups("f.parquet")).await;
        assert_eq!(
            files(&index, &pool, Some(num_equals("a", 150))).await,
            vec![("f.parquet".to_string(), 4096, vec![1])]
        );
        assert_eq!(
            files(&index, &pool, Some(num_equals("a", 100))).await,
            vec![("f.parquet".to_string(), 4096, vec![0])]
        );
        assert_eq!(
            files(&index, &pool, Some(text_equals("b", "c"))).await,
            vec![("f.parquet".to_string(), 4096, vec![0, 1])]
        );
    });
}

#[test]
fn conjunction_that_no_row_group_meets_returns_no_file() {
    run(async {
        let index = index_a_b();
        let pool = open(&index).await;
        upsert(&index, &pool, &two_row_groups("f.parquet")).await;
        let filter = bin(num_equals("a", 50), Operator::And, text_equals("b", "z"));
        assert!(candidates(&index, &pool, Some(filter)).await.is_empty());
        let filter = bin(num_equals("a", 50), Operator::And, text_equals("b", "z"));
        assert!(files(&index, &pool, Some(filter)).await.is_empty());
    });
}

#[test]
fn predicate_that_cannot_be_pruned_returns_every_row_group() {
    run(async {
        let index = index_a_b();
        let pool = open(&index).await;
        upsert(&index, &pool, &two_row_groups("f.parquet")).await;
        let everything = vec![("f.parquet".to_string(), 4096, vec![0, 1])];
        assert_eq!(files(&index, &pool, Some(BoundsExpr::Unsupported)).await, everything);
        let partly = bin(num_equals("a", 150), Operator::And, BoundsExpr::Unsupported);
        assert_eq!(files(&index, &pool, Some(partly)).await, everything);
        assert_eq!(files(&index, &pool, None).await, everything);
    });
}

#[test]
fn row_count_placeholder_reads_the_row_count_of_the_row_group() {
    run(async {
        let index = index_a_b();
        let pool = open(&index).await;
        upsert(&index, &pool, &two_row_groups("f.parquet")).await;
        // `b IS NOT NULL`: not every value of the row group is null
        let not_all_null = bin(col("b_null_count"), Operator::NotEq, col("b_row_count"));
        assert_eq!(
            files(&index, &pool, Some(not_all_null)).await,
            vec![("f.parquet".to_string(), 4096, vec![0])]
        );
        let all_null = bin(col("b_null_count"), Operator::Eq, col("b_row_count"));
        assert_eq!(
            files(&index, &pool, Some(all_null)).await,
            vec![("f.parquet".to_string(), 4096, vec![1])]
        );
    });
}

#[test]
fn upserting_twice_leaves_the_tables_as_upserting_once() {
    run(async {
        let index = index_a_b();
        let pool = open(&index).await;
        upsert(&index, &pool, &three_row_groups("other.parquet")).await;
        let first = upsert(&index, &pool, &two_row_groups("f.parquet")).await;
        let once = dump(&pool).await;
        let second = upsert(&index, &pool, &two_row_groups("f.parquet")).await;
        assert_eq!(first, second);
        assert_eq!(dump(&pool).await, once);
    });
}

#[test]
fn reingesting_a_file_replaces_all_of_its_row_groups() {
    run(async {
        let index = index_a_b();
        let pool = open(&index).await;
        let other = upsert(&index, &pool, &two_row_groups("other.parquet")).await;
        let first = upsert(&index, &pool, &three_row_groups("f.parquet")).await;
        let mut smaller = two_row_groups("f.parquet");
        smaller.file_size = 77;
        smaller.num_rows = 5;
        smaller.row_counts = vec![Some(5)];
        smaller.columns[0].chunks.truncate(1);
        smaller.columns[2].chunks.truncate(1);
        let second = upsert(&index, &pool, &smaller).await;
        assert_eq!(first, second);
        let (files, stats) = dump(&pool).await;
        assert_eq!(
            files,
            vec![
                (other, "other.parquet".to_string(), 4096, 2, 200),
                (first, "f.parquet".to_string(), 77, 1, 5),
            ]
        );
        let f_rows: Vec<&StatsRow> = stats.iter().filter(|row| row.0 == first).collect();
        assert_eq!(f_rows, vec![&(first, 0, 5, 0, 1, 100, 0, "a".to_string(), "c".to_string())]);
        assert_eq!(stats.iter().filter(|row| row.0 == other).count(), 2);
    });
}

#[test]
fn files_without_a_matching_row_group_are_absent() {
    run(async {
        let index = index_a_b();
        let pool = open(&index).await;
        upsert(&index, &pool, &two_row_groups("low.parquet")).await;
        upsert(&index, &pool, &three_row_groups("high.parquet")).await;
        assert_eq!(
            files(&index, &pool, Some(num_equals("a", 1500))).await,
            vec![("high.parquet".to_string(), 9000, vec![2])]
        );
        assert_eq!(
            files(&index, &pool, Some(num_equals("a", 5))).await,
            vec![
                ("high.parquet".to_string(), 9000, vec![0]),
                ("low.parquet".to_string(), 4096, vec![0]),
            ]
        );
    });
}

#[test]
fn file_without_row_groups_is_recorded_and_never_a_candidate() {
    run(async {
        let index = index_a_b();
        let pool = open(&index).await;
        let empty = RawFile {
            file_name: "empty.parquet".to_string(),
            file_size: 8,
            num_rows: 0,
            row_counts: vec![],
            columns: vec![
                RawColumn { chunks: vec![] },
                RawColumn { chunks: vec![] },
                RawColumn { chunks: vec![] },
            ],
        };
        let file_id = upsert(&index, &pool, &empty).await;
        let (files_table, stats) = dump(&pool).await;
        assert_eq!(files_table, vec![(file_id, "empty.parquet".to_string(), 8, 0, 0)]);
        assert!(stats.is_empty());
        assert!(files(&index, &pool, None).await.is_empty());
    });
}
