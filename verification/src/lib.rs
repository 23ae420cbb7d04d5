//! A statistics-based pruning index over the row groups of columnar files.
//!
//! The index keeps, for every row group of every file, the row count and the
//! null count, minimum and maximum of each indexed column. A filter that the
//! query engine has turned into a predicate over these statistics is pushed
//! down to the index, which answers with the row groups that the predicate
//! does not rule out, file by file.
//!
//! The tables of the index live in a relational store. This crate decides
//! what is stored and asked: it extracts the statistics rows from a file's
//! footer values ([`extract`]), builds the statements that create the tables,
//! replace a file's rows and query for candidates ([`store`]), and assembles
//! the store's answer into one access plan per file ([`plan`]). Running the
//! statements is left to the caller.

pub mod compile;
pub mod extract;
pub mod index;
pub mod plan;
pub mod predicate;
pub mod schema;
pub mod sql;
pub mod stats;
pub mod store;

pub use index::SQLiteIndex;
pub use plan::FileScanPlan;
pub use stats::{ColumnStatistics, MinMaxStats, RowGroupStatisticsInsert};
