//! Case sensitivity rules per dialect.
//!
//! Different SQL dialects fold unquoted identifiers differently; these rules say
//! how identifiers are normalized before they are compared.

use vstd::prelude::*;

use crate::dialect::Dialect;
use crate::text::{
    any_lowercase, any_uppercase, has_lowercase, has_uppercase, str_to_lowercase,
    str_to_uppercase, string_of, unicode_to_lowercase, unicode_to_uppercase,
};

verus! {

/// Normalization strategy for identifier handling.
#[derive(Debug, Clone, Copy, PartialEq, Eq, Structural)]
pub enum NormalizationStrategy {
    /// Fold to lowercase (Postgres, Redshift)
    Lowercase,
    /// Fold to uppercase (Snowflake, Oracle)
    Uppercase,
    /// Case-insensitive comparison without folding
    CaseInsensitive,
    /// Case-sensitive, preserve exactly
    CaseSensitive,
}

/// The characters that `strategy` turns `s` into.
///
/// Lowercase folding (also the canonical form for case-insensitive comparison)
/// only changes a string that holds an uppercase character; uppercase folding
/// only changes a string that holds a lowercase character.
pub open spec fn spec_apply(strategy: NormalizationStrategy, s: Seq<char>) -> Seq<char> {
    match strategy {
        NormalizationStrategy::CaseSensitive => s,
        NormalizationStrategy::Lowercase | NormalizationStrategy::CaseInsensitive => {
            if any_uppercase(s) {
                unicode_to_lowercase(s)
            } else {
                s
            }
        },
        NormalizationStrategy::Uppercase => {
            if any_lowercase(s) {
                unicode_to_uppercase(s)
            } else {
                s
            }
        },
    }
}

impl NormalizationStrategy {
    /// Whether applying `strategy` to `s` allocates a new string: only when
    /// folding would change a character class that `s` actually holds.
    pub open spec fn spec_allocates(strategy: NormalizationStrategy, s: Seq<char>) -> bool {
        match strategy {
            NormalizationStrategy::CaseSensitive => false,
            NormalizationStrategy::Lowercase | NormalizationStrategy::CaseInsensitive => any_uppercase(s),
            NormalizationStrategy::Uppercase => any_lowercase(s),
        }
    }

    /// Applies this normalization strategy to a string.
    ///
    /// For `CaseInsensitive`, lowercase folding is used as the canonical form.
    /// The input is handed back borrowed whenever folding would not touch it.
    pub fn apply<'a>(&self, s: &'a str) -> (r: std::borrow::Cow<'a, str>)
        ensures
            r@ == spec_apply(*self, s@),
            Self::spec_allocates(*self, s@) ==> r is Owned,
            !Self::spec_allocates(*self, s@) ==> (r matches std::borrow::Cow::Borrowed(b) && b == s),
    {
        match self {
            NormalizationStrategy::CaseSensitive => std::borrow::Cow::Borrowed(s),
            NormalizationStrategy::Lowercase | NormalizationStrategy::CaseInsensitive => {
                if has_uppercase(s) {
                    std::borrow::Cow::Owned(str_to_lowercase(s))
                } else {
                    std::borrow::Cow::Borrowed(s)
                }
            },
            NormalizationStrategy::Uppercase => {
                if has_lowercase(s) {
                    std::borrow::Cow::Owned(str_to_uppercase(s))
                } else {
                    std::borrow::Cow::Borrowed(s)
                }
            },
        }
    }
}

/// The normalization strategy of each dialect.
pub open spec fn spec_normalization_strategy(d: Dialect) -> NormalizationStrategy {
    match d {
        Dialect::Bigquery => NormalizationStrategy::CaseInsensitive,
        Dialect::Clickhouse => NormalizationStrategy::CaseSensitive,
        Dialect::Databricks => NormalizationStrategy::CaseInsensitive,
        Dialect::Duckdb => NormalizationStrategy::CaseInsensitive,
        Dialect::Hive => NormalizationStrategy::CaseInsensitive,
        Dialect::Mssql => NormalizationStrategy::CaseInsensitive,
        Dialect::Mysql => NormalizationStrategy::CaseSensitive,
        Dialect::Oracle => NormalizationStrategy::Uppercase,
        Dialect::Postgres => NormalizationStrategy::Lowercase,
        Dialect::Redshift => NormalizationStrategy::Lowercase,
        Dialect::Snowflake => NormalizationStrategy::Uppercase,
        Dialect::Sqlite => NormalizationStrategy::CaseInsensitive,
        Dialect::Generic => NormalizationStrategy::CaseInsensitive,
        Dialect::Ansi => NormalizationStrategy::Uppercase,
    }
}

impl Dialect {
    /// Get the normalization strategy for this dialect.
    pub fn normalization_strategy(&self) -> (r: NormalizationStrategy)
        ensures
            r == spec_normalization_strategy(*self),
    {
        match self {
            Dialect::Bigquery => NormalizationStrategy::CaseInsensitive,
            Dialect::Clickhouse => NormalizationStrategy::CaseSensitive,
            Dialect::Databricks => NormalizationStrategy::CaseInsensitive,
            Dialect::Duckdb => NormalizationStrategy::CaseInsensitive,
            Dialect::Hive => NormalizationStrategy::CaseInsensitive,
            Dialect::Mssql => NormalizationStrategy::CaseInsensitive,
            Dialect::Mysql => NormalizationStrategy::CaseSensitive,
            Dialect::Oracle => NormalizationStrategy::Uppercase,
            Dialect::Postgres => NormalizationStrategy::Lowercase,
            Dialect::Redshift => NormalizationStrategy::Lowercase,
            Dialect::Snowflake => NormalizationStrategy::Uppercase,
            Dialect::Sqlite => NormalizationStrategy::CaseInsensitive,
            Dialect::Generic => NormalizationStrategy::CaseInsensitive,
            Dialect::Ansi => NormalizationStrategy::Uppercase,
        }
    }

    /// Returns true if this dialect has custom normalization logic
    /// that cannot be captured by a simple strategy.
    pub fn has_custom_normalization(&self) -> (r: bool)
        ensures
            r == (*self == Dialect::Bigquery),
    {
        matches!(self, Dialect::Bigquery)
    }

    /// Get pseudocolumns for this dialect (implicit columns like _PARTITIONTIME).
    pub fn pseudocolumns(&self) -> (r: &'static [&'static str])
        ensures
            r@ == spec_pseudocolumns(*self),
    {
        match self {
            Dialect::Bigquery => &["_FILE_NAME", "_PARTITIONDATE", "_PARTITIONTIME", "_TABLE_SUFFIX"],
            Dialect::Oracle => &["LEVEL", "OBJECT_ID", "OBJECT_VALUE", "ROWID", "ROWNUM"],
            Dialect::Snowflake => &["LEVEL"],
            _ => &[],
        }
    }

    /// Get the identifier quote characters for this dialect.
    /// Dialects with paired quotes (like SQLite's `[]`) list the opening bracket.
    pub fn identifier_quotes(&self) -> (r: &'static [&'static str])
        ensures
            r@ == spec_identifier_quotes(*self),
    {
        match self {
            Dialect::Bigquery => &["`"],
            Dialect::Clickhouse => &["\"", "`"],
            Dialect::Databricks => &["`"],
            Dialect::Duckdb => &["\""],
            Dialect::Hive => &["`"],
            Dialect::Mssql => &["[", "\""],
            Dialect::Mysql => &["`"],
            Dialect::Oracle => &["\""],
            Dialect::Postgres => &["\""],
            Dialect::Redshift => &["\""],
            Dialect::Snowflake => &["\""],
            Dialect::Sqlite => &["\"", "[", "`"],
            _ => &["\""],
        }
    }
}

/// The pseudocolumns of each dialect.
pub open spec fn spec_pseudocolumns(d: Dialect) -> Seq<&'static str> {
    match d {
        Dialect::Bigquery => seq!["_FILE_NAME", "_PARTITIONDATE", "_PARTITIONTIME", "_TABLE_SUFFIX"],
        Dialect::Oracle => seq!["LEVEL", "OBJECT_ID", "OBJECT_VALUE", "ROWID", "ROWNUM"],
        Dialect::Snowflake => seq!["LEVEL"],
        _ => seq![],
    }
}

/// The identifier quote characters of each dialect.
pub open spec fn spec_identifier_quotes(d: Dialect) -> Seq<&'static str> {
    match d {
        Dialect::Bigquery => seq!["`"],
        Dialect::Clickhouse => seq!["\"", "`"],
        Dialect::Databricks => seq!["`"],
        Dialect::Duckdb => seq!["\""],
        Dialect::Hive => seq!["`"],
        Dialect::Mssql => seq!["[", "\""],
        Dialect::Mysql => seq!["`"],
        Dialect::Oracle => seq!["\""],
        Dialect::Postgres => seq!["\""],
        Dialect::Redshift => seq!["\""],
        Dialect::Snowflake => seq!["\""],
        Dialect::Sqlite => seq!["\"", "[", "`"],
        _ => seq!["\""],
    }
}

/// Case-sensitive normalization leaves every identifier unchanged.
pub proof fn law_case_sensitive_is_identity(s: Seq<char>)
    ensures
        spec_apply(NormalizationStrategy::CaseSensitive, s) == s,
{
}

/// Case-insensitive comparison uses the same canonical form as lowercase folding.
pub proof fn law_case_insensitive_folds_like_lowercase(s: Seq<char>)
    ensures
        spec_apply(NormalizationStrategy::CaseInsensitive, s) == spec_apply(
            NormalizationStrategy::Lowercase,
            s,
        ),
{
}

} // verus!
