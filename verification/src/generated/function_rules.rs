//! Function argument handling rules per dialect.
//!
//! Certain date/time functions take keyword arguments (like `YEAR`, `MONTH`)
//! rather than column references; these rules say which arguments to skip.

use vstd::prelude::*;

use crate::dialect::Dialect;
use crate::text::{
    ascii_lower_char, ascii_upper, list_contains, push_char, seq_has_str, str_eq,
    to_ascii_uppercase,
};

verus! {

/// The lookup key of a function name: underscores removed, ASCII letters lowercased.
pub open spec fn function_key(s: Seq<char>) -> Seq<char>
    decreases s.len(),
{
    if s.len() == 0 {
        Seq::empty()
    } else {
        let rest = function_key(s.drop_last());
        if s.last() == '_' {
            rest
        } else {
            rest.push(ascii_lower_char(s.last()))
        }
    }
}

/// Computes [`function_key`] of `s`.
pub fn normalize_function_key(s: &str) -> (r: String)
    ensures
        r@ == function_key(s@),
{
    let n = s.unicode_len();
    let mut r = String::new();
    let mut i: usize = 0;
    while i < n
        invariant
            n == s@.len(),
            0 <= i <= n,
            r@ == function_key(s@.take(i as int)),
        decreases n - i,
    {
        let c = s.get_char(i);
        assert(s@.take(i + 1).drop_last() =~= s@.take(i as int));
        if c != '_' {
            let lc = if 'A' <= c && c <= 'Z' {
                ((c as u8) + 32) as char
            } else {
                c
            };
            push_char(&mut r, lc);
        }
        i = i + 1;
    }
    assert(s@.take(n as int) =~= s@);
    r
}

/// The argument indices to skip for a function whose lookup key is `key`.
pub open spec fn spec_skip_args(dialect: Dialect, key: Seq<char>) -> Seq<usize> {
    if key == "datediff"@ {
        match dialect {
            Dialect::Mssql | Dialect::Redshift | Dialect::Snowflake => seq![0usize],
            _ => seq![],
        }
    } else if key == "dateadd"@ {
        match dialect {
            Dialect::Mssql | Dialect::Snowflake => seq![0usize],
            _ => seq![],
        }
    } else if key == "datepart"@ {
        match dialect {
            Dialect::Postgres | Dialect::Redshift | Dialect::Snowflake => seq![0usize],
            _ => seq![],
        }
    } else if key == "datetrunc"@ {
        match dialect {
            Dialect::Bigquery => seq![1usize],
            Dialect::Databricks | Dialect::Duckdb | Dialect::Postgres | Dialect::Redshift
            | Dialect::Snowflake => seq![0usize],
            _ => seq![],
        }
    } else if key == "extract"@ {
        seq![0usize]
    } else if key == "timestampadd"@ {
        match dialect {
            Dialect::Bigquery => seq![1usize],
            Dialect::Snowflake => seq![0usize],
            _ => seq![],
        }
    } else if key == "timestampsub"@ {
        match dialect {
            Dialect::Bigquery => seq![1usize],
            _ => seq![],
        }
    } else {
        seq![]
    }
}

/// Returns argument indices to skip when extracting column references from a function call.
///
/// Certain SQL functions take keyword arguments (e.g., `DATEDIFF(YEAR, start, end)` in
/// Snowflake) that should not be treated as column references during lineage analysis.
/// The function name is matched case-insensitively and underscore-insensitively, so
/// `DATEADD` and `DATE_ADD` share their rules. Unknown functions skip nothing.
pub fn skip_args_for_function(dialect: Dialect, func_name: &str) -> (r: &'static [usize])
    ensures
        r@ == spec_skip_args(dialect, function_key(func_name@)),
{
    let key = normalize_function_key(func_name);
    let k = key.as_str();
    if str_eq(k, "datediff") {
        match dialect {
            Dialect::Bigquery => &[],
            Dialect::Databricks => &[],
            Dialect::Duckdb => &[],
            Dialect::Hive => &[],
            Dialect::Mssql => &[0],
            Dialect::Mysql => &[],
            Dialect::Redshift => &[0],
            Dialect::Snowflake => &[0],
            _ => &[],
        }
    } else if str_eq(k, "dateadd") {
        match dialect {
            Dialect::Bigquery => &[],
            Dialect::Hive => &[],
            Dialect::Mssql => &[0],
            Dialect::Mysql => &[],
            Dialect::Postgres => &[],
            Dialect::Snowflake => &[0],
            _ => &[],
        }
    } else if str_eq(k, "datepart") {
        match dialect {
            Dialect::Postgres => &[0],
            Dialect::Redshift => &[0],
            Dialect::Snowflake => &[0],
            _ => &[],
        }
    } else if str_eq(k, "datetrunc") {
        match dialect {
            Dialect::Bigquery => &[1],
            Dialect::Databricks => &[0],
            Dialect::Duckdb => &[0],
            Dialect::Postgres => &[0],
            Dialect::Redshift => &[0],
            Dialect::Snowflake => &[0],
            _ => &[],
        }
    } else if str_eq(k, "extract") {
        &[0]
    } else if str_eq(k, "timestampadd") {
        match dialect {
            Dialect::Bigquery => &[1],
            Dialect::Snowflake => &[0],
            _ => &[],
        }
    } else if str_eq(k, "timestampsub") {
        match dialect {
            Dialect::Bigquery => &[1],
            _ => &[],
        }
    } else {
        &[]
    }
}

/// NULL ordering behavior in ORDER BY.
#[derive(Debug, Clone, Copy, PartialEq, Eq, Structural)]
pub enum NullOrdering {
    /// NULLs sort as larger than all other values (NULLS LAST for ASC)
    NullsAreLarge,
    /// NULLs sort as smaller than all other values (NULLS FIRST for ASC)
    NullsAreSmall,
    /// NULLs always sort last regardless of ASC/DESC
    NullsAreLast,
}

/// The default NULL ordering of each dialect.
pub open spec fn spec_null_ordering(d: Dialect) -> NullOrdering {
    match d {
        Dialect::Bigquery | Dialect::Databricks | Dialect::Hive | Dialect::Mssql | Dialect::Mysql
        | Dialect::Sqlite => NullOrdering::NullsAreSmall,
        Dialect::Oracle | Dialect::Postgres | Dialect::Redshift | Dialect::Snowflake => {
            NullOrdering::NullsAreLarge
        },
        _ => NullOrdering::NullsAreLast,
    }
}

impl Dialect {
    /// Get the default NULL ordering behavior for this dialect.
    pub fn null_ordering(&self) -> (r: NullOrdering)
        ensures
            r == spec_null_ordering(*self),
    {
        match self {
            Dialect::Bigquery => NullOrdering::NullsAreSmall,
            Dialect::Clickhouse => NullOrdering::NullsAreLast,
            Dialect::Databricks => NullOrdering::NullsAreSmall,
            Dialect::Duckdb => NullOrdering::NullsAreLast,
            Dialect::Hive => NullOrdering::NullsAreSmall,
            Dialect::Mssql => NullOrdering::NullsAreSmall,
            Dialect::Mysql => NullOrdering::NullsAreSmall,
            Dialect::Oracle => NullOrdering::NullsAreLarge,
            Dialect::Postgres => NullOrdering::NullsAreLarge,
            Dialect::Redshift => NullOrdering::NullsAreLarge,
            Dialect::Snowflake => NullOrdering::NullsAreLarge,
            Dialect::Sqlite => NullOrdering::NullsAreSmall,
            _ => NullOrdering::NullsAreLast,
        }
    }

    /// Whether this dialect supports implicit UNNEST (no CROSS JOIN needed).
    pub fn supports_implicit_unnest(&self) -> (r: bool)
        ensures
            r == (*self == Dialect::Bigquery || *self == Dialect::Redshift),
    {
        matches!(self, Dialect::Bigquery | Dialect::Redshift)
    }
}

/// Value table functions available in every dialect.
pub fn common_value_table_functions() -> (r: &'static [&'static str])
    ensures
        r@ == spec_common_value_table_functions(),
{
    &["UNNEST", "GENERATE_SERIES", "JSON_TABLE"]
}

/// Value table functions available in every dialect.
pub open spec fn spec_common_value_table_functions() -> Seq<&'static str> {
    seq!["UNNEST", "GENERATE_SERIES", "JSON_TABLE"]
}

/// Value table functions specific to a dialect.
pub fn dialect_value_table_functions(dialect: Dialect) -> (r: &'static [&'static str])
    ensures
        r@ == spec_dialect_value_table_functions(dialect),
{
    match dialect {
        Dialect::Postgres => &["GENERATE_SUBSCRIPTS", "REGEXP_MATCHES"],
        Dialect::Snowflake => &["FLATTEN", "SPLIT_TO_TABLE", "STRTOK_SPLIT_TO_TABLE"],
        Dialect::Mssql => &["OPENJSON", "STRING_SPLIT"],
        Dialect::Duckdb => &["RANGE"],
        Dialect::Clickhouse => &["ARRAY_JOIN"],
        Dialect::Databricks => &[
            "EXPLODE",
            "EXPLODE_OUTER",
            "POSEXPLODE",
            "POSEXPLODE_OUTER",
            "INLINE",
            "INLINE_OUTER",
        ],
        Dialect::Hive => &["EXPLODE", "POSEXPLODE", "INLINE", "JSON_TUPLE", "PARSE_URL_TUPLE"],
        _ => &[],
    }
}

/// Value table functions specific to a dialect.
pub open spec fn spec_dialect_value_table_functions(dialect: Dialect) -> Seq<&'static str> {
    match dialect {
        Dialect::Postgres => seq!["GENERATE_SUBSCRIPTS", "REGEXP_MATCHES"],
        Dialect::Snowflake => seq!["FLATTEN", "SPLIT_TO_TABLE", "STRTOK_SPLIT_TO_TABLE"],
        Dialect::Mssql => seq!["OPENJSON", "STRING_SPLIT"],
        Dialect::Duckdb => seq!["RANGE"],
        Dialect::Clickhouse => seq!["ARRAY_JOIN"],
        Dialect::Databricks => seq![
            "EXPLODE",
            "EXPLODE_OUTER",
            "POSEXPLODE",
            "POSEXPLODE_OUTER",
            "INLINE",
            "INLINE_OUTER",
        ],
        Dialect::Hive => seq!["EXPLODE", "POSEXPLODE", "INLINE", "JSON_TUPLE", "PARSE_URL_TUPLE"],
        _ => seq![],
    }
}

/// Whether `func_name` names a value table function (one that returns rows) in `dialect`.
pub open spec fn spec_is_value_table_function(dialect: Dialect, func_name: Seq<char>) -> bool {
    let name = ascii_upper(func_name);
    seq_has_str(spec_common_value_table_functions(), name) || seq_has_str(
        spec_dialect_value_table_functions(dialect),
        name,
    )
}

/// Checks if a function is a value table function (returns rows) for the given dialect.
///
/// Value table functions (like UNNEST, GENERATE_SERIES, FLATTEN) return rows/tables
/// rather than scalar values. The name is matched case-insensitively.
pub fn is_value_table_function(dialect: Dialect, func_name: &str) -> (r: bool)
    ensures
        r == spec_is_value_table_function(dialect, func_name@),
{
    let name = to_ascii_uppercase(func_name);
    if list_contains(common_value_table_functions(), name.as_str()) {
        return true;
    }
    list_contains(dialect_value_table_functions(dialect), name.as_str())
}

/// Argument-skip rules depend only on the function name with underscores removed and
/// ASCII letters lowercased, so `DATEADD`, `dateadd` and `DATE_ADD` share their rules.
pub proof fn law_skip_args_depend_only_on_key(dialect: Dialect, a: Seq<char>, b: Seq<char>)
    requires
        function_key(a) == function_key(b),
    ensures
        spec_skip_args(dialect, function_key(a)) == spec_skip_args(dialect, function_key(b)),
{
}

} // verus!
