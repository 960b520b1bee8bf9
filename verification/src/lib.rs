//! Column- and table-level lineage analysis for SQL: dialect rules, function and
//! type tables, and the statement-level lineage graph the analyzer builds.

pub mod analyzer;
pub mod collections;
pub mod dialect;
pub mod generated;
pub mod ids;
pub mod issue_codes;
pub mod text;
pub mod types;

pub use dialect::Dialect;
