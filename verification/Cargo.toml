[package]
name = "pruning_index"
version = "0.1.0"
edition = "2021"
publish = false

[dependencies]
anyhow = "=1.0.104"
chrono = { version = "=0.4.39", default-features = false }
datafusion = { version = "=39.0.0", default-features = false, features = ["parquet"] }
datafusion-common = { version = "=39.0.0", default-features = false }
datafusion-physical-expr = { version = "=39.0.0", default-features = false }
sea-query = { version = "=0.30.7", default-features = false, features = ["backend-sqlite"] }
sea-query-binder = { version = "=0.5.0", features = ["sqlx-sqlite"] }
sqlx = { version = "=0.7.4", default-features = false, features = ["sqlite", "runtime-tokio"] }

[dev-dependencies]
tokio = { version = "=1.54.1", features = ["rt"] }
