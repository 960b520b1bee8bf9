//! The SQL dialects the analyzer distinguishes.

use vstd::prelude::*;

verus! {

/// SQL dialects understood by the analyzer.
#[derive(Debug, Clone, Copy, PartialEq, Eq, Structural)]
pub enum Dialect {
    Ansi,
    Bigquery,
    Clickhouse,
    Databricks,
    Duckdb,
    Generic,
    Hive,
    Mssql,
    Mysql,
    Oracle,
    Postgres,
    Redshift,
    Snowflake,
    Sqlite,
}

} // verus!
