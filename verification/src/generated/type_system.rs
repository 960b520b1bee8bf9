//! SQL type system for cross-dialect type normalization and compatibility.
//!
//! Canonical SQL types, normalization of dialect-specific type names to canonical
//! types, implicit cast checking, and dialect-specific type name mapping.

use vstd::prelude::*;

use crate::dialect::Dialect;
use crate::text::{ascii_lower, ascii_upper, first_value_for, lookup_static, string_of, to_ascii_lowercase};

verus! {

/// Canonical SQL types for cross-dialect type system.
#[derive(Debug, Clone, Copy, PartialEq, Eq, Hash, Structural)]
pub enum CanonicalType {
    Integer,
    Float,
    Text,
    Boolean,
    Timestamp,
    Date,
    Time,
    Binary,
    Json,
    Array,
}

/// The lowercase name of each canonical type.
pub open spec fn spec_as_str(t: CanonicalType) -> &'static str {
    match t {
        CanonicalType::Integer => "integer",
        CanonicalType::Float => "float",
        CanonicalType::Text => "text",
        CanonicalType::Boolean => "boolean",
        CanonicalType::Timestamp => "timestamp",
        CanonicalType::Date => "date",
        CanonicalType::Time => "time",
        CanonicalType::Binary => "binary",
        CanonicalType::Json => "json",
        CanonicalType::Array => "array",
    }
}

/// The uppercase SQL-standard name of each canonical type.
pub open spec fn spec_as_uppercase_str(t: CanonicalType) -> &'static str {
    match t {
        CanonicalType::Integer => "INTEGER",
        CanonicalType::Float => "FLOAT",
        CanonicalType::Text => "TEXT",
        CanonicalType::Boolean => "BOOLEAN",
        CanonicalType::Timestamp => "TIMESTAMP",
        CanonicalType::Date => "DATE",
        CanonicalType::Time => "TIME",
        CanonicalType::Binary => "BINARY",
        CanonicalType::Json => "JSON",
        CanonicalType::Array => "ARRAY",
    }
}

impl CanonicalType {
    /// Returns the canonical type name as a lowercase string.
    pub fn as_str(&self) -> (r: &'static str)
        ensures
            r == spec_as_str(*self),
    {
        match self {
            CanonicalType::Integer => "integer",
            CanonicalType::Float => "float",
            CanonicalType::Text => "text",
            CanonicalType::Boolean => "boolean",
            CanonicalType::Timestamp => "timestamp",
            CanonicalType::Date => "date",
            CanonicalType::Time => "time",
            CanonicalType::Binary => "binary",
            CanonicalType::Json => "json",
            CanonicalType::Array => "array",
        }
    }

    /// Returns the canonical type name as an uppercase SQL-standard string.
    pub fn as_uppercase_str(&self) -> (r: &'static str)
        ensures
            r == spec_as_uppercase_str(*self),
    {
        match self {
            CanonicalType::Integer => "INTEGER",
            CanonicalType::Float => "FLOAT",
            CanonicalType::Text => "TEXT",
            CanonicalType::Boolean => "BOOLEAN",
            CanonicalType::Timestamp => "TIMESTAMP",
            CanonicalType::Date => "DATE",
            CanonicalType::Time => "TIME",
            CanonicalType::Binary => "BINARY",
            CanonicalType::Json => "JSON",
            CanonicalType::Array => "ARRAY",
        }
    }

    /// The SQL-standard display form of the type: its uppercase name.
    pub fn to_display_string(&self) -> (r: String)
        ensures
            r@ == spec_as_uppercase_str(*self)@,
    {
        string_of(self.as_uppercase_str())
    }
}

/// Every recognized type name (lowercase) with its canonical type; the canonical
/// names come first.
pub open spec fn spec_type_name_table() -> Seq<(&'static str, CanonicalType)> {
    seq![
        ("integer", CanonicalType::Integer),
        ("float", CanonicalType::Float),
        ("text", CanonicalType::Text),
        ("boolean", CanonicalType::Boolean),
        ("timestamp", CanonicalType::Timestamp),
        ("date", CanonicalType::Date),
        ("time", CanonicalType::Time),
        ("binary", CanonicalType::Binary),
        ("json", CanonicalType::Json),
        ("array", CanonicalType::Array),
        ("varbinary", CanonicalType::Binary),
        ("bytea", CanonicalType::Binary),
        ("blob", CanonicalType::Binary),
        ("bytes", CanonicalType::Binary),
        ("bool", CanonicalType::Boolean),
        ("float4", CanonicalType::Float),
        ("float8", CanonicalType::Float),
        ("double", CanonicalType::Float),
        ("real", CanonicalType::Float),
        ("decimal", CanonicalType::Float),
        ("numeric", CanonicalType::Float),
        ("number", CanonicalType::Float),
        ("int", CanonicalType::Integer),
        ("int4", CanonicalType::Integer),
        ("int64", CanonicalType::Integer),
        ("bigint", CanonicalType::Integer),
        ("smallint", CanonicalType::Integer),
        ("tinyint", CanonicalType::Integer),
        ("int2", CanonicalType::Integer),
        ("int8", CanonicalType::Integer),
        ("jsonb", CanonicalType::Json),
        ("variant", CanonicalType::Json),
        ("object", CanonicalType::Json),
        ("varchar", CanonicalType::Text),
        ("char", CanonicalType::Text),
        ("string", CanonicalType::Text),
        ("nvarchar", CanonicalType::Text),
        ("nchar", CanonicalType::Text),
        ("character", CanonicalType::Text),
        ("timetz", CanonicalType::Time),
        ("timestamptz", CanonicalType::Timestamp),
        ("datetime", CanonicalType::Timestamp),
        ("timestamp_ntz", CanonicalType::Timestamp),
        ("timestamp_ltz", CanonicalType::Timestamp),
        ("timestamp_tz", CanonicalType::Timestamp),
    ]
}

/// Every recognized type name (lowercase) with its canonical type.
pub fn type_name_table() -> (r: &'static [(&'static str, CanonicalType)])
    ensures
        r@ == spec_type_name_table(),
{
    &[
        ("integer", CanonicalType::Integer),
        ("float", CanonicalType::Float),
        ("text", CanonicalType::Text),
        ("boolean", CanonicalType::Boolean),
        ("timestamp", CanonicalType::Timestamp),
        ("date", CanonicalType::Date),
        ("time", CanonicalType::Time),
        ("binary", CanonicalType::Binary),
        ("json", CanonicalType::Json),
        ("array", CanonicalType::Array),
        ("varbinary", CanonicalType::Binary),
        ("bytea", CanonicalType::Binary),
        ("blob", CanonicalType::Binary),
        ("bytes", CanonicalType::Binary),
        ("bool", CanonicalType::Boolean),
        ("float4", CanonicalType::Float),
        ("float8", CanonicalType::Float),
        ("double", CanonicalType::Float),
        ("real", CanonicalType::Float),
        ("decimal", CanonicalType::Float),
        ("numeric", CanonicalType::Float),
        ("number", CanonicalType::Float),
        ("int", CanonicalType::Integer),
        ("int4", CanonicalType::Integer),
        ("int64", CanonicalType::Integer),
        ("bigint", CanonicalType::Integer),
        ("smallint", CanonicalType::Integer),
        ("tinyint", CanonicalType::Integer),
        ("int2", CanonicalType::Integer),
        ("int8", CanonicalType::Integer),
        ("jsonb", CanonicalType::Json),
        ("variant", CanonicalType::Json),
        ("object", CanonicalType::Json),
        ("varchar", CanonicalType::Text),
        ("char", CanonicalType::Text),
        ("string", CanonicalType::Text),
        ("nvarchar", CanonicalType::Text),
        ("nchar", CanonicalType::Text),
        ("character", CanonicalType::Text),
        ("timetz", CanonicalType::Time),
        ("timestamptz", CanonicalType::Timestamp),
        ("datetime", CanonicalType::Timestamp),
        ("timestamp_ntz", CanonicalType::Timestamp),
        ("timestamp_ltz", CanonicalType::Timestamp),
        ("timestamp_tz", CanonicalType::Timestamp),
    ]
}

/// The canonical type of a type name, matched case-insensitively (ASCII).
pub open spec fn spec_normalize_type_name(name: Seq<char>) -> Option<CanonicalType> {
    first_value_for(spec_type_name_table(), ascii_lower(name))
}

/// Normalize a type name to its canonical type.
///
/// Maps any dialect-specific type alias (e.g., "INT64", "VARCHAR", "TIMESTAMPTZ")
/// to its canonical type category; `None` for unrecognized names.
pub fn normalize_type_name(name: &str) -> (r: Option<CanonicalType>)
    ensures
        r == spec_normalize_type_name(name@),
{
    let lower = to_ascii_lowercase(name);
    lookup_static(type_name_table(), lower.as_str())
}

/// Whether `from` converts to `to` without an explicit CAST.
pub open spec fn spec_can_implicitly_cast(from: CanonicalType, to: CanonicalType) -> bool {
    if from == to {
        true
    } else {
        match from {
            CanonicalType::Boolean => to == CanonicalType::Text || to == CanonicalType::Integer,
            CanonicalType::Date => to == CanonicalType::Timestamp || to == CanonicalType::Text,
            CanonicalType::Float => to == CanonicalType::Text,
            CanonicalType::Integer => to == CanonicalType::Float || to == CanonicalType::Text,
            CanonicalType::Json => to == CanonicalType::Text,
            CanonicalType::Time => to == CanonicalType::Text,
            CanonicalType::Timestamp => to == CanonicalType::Text,
            _ => false,
        }
    }
}

/// Check if a type can be implicitly cast to another type.
///
/// A type can always be implicitly cast to itself (identity cast).
pub fn can_implicitly_cast(from: CanonicalType, to: CanonicalType) -> (r: bool)
    ensures
        r == spec_can_implicitly_cast(from, to),
{
    if from == to {
        return true;
    }
    match from {
        CanonicalType::Boolean => matches!(to, CanonicalType::Text | CanonicalType::Integer),
        CanonicalType::Date => matches!(to, CanonicalType::Timestamp | CanonicalType::Text),
        CanonicalType::Float => matches!(to, CanonicalType::Text),
        CanonicalType::Integer => matches!(to, CanonicalType::Float | CanonicalType::Text),
        CanonicalType::Json => matches!(to, CanonicalType::Text),
        CanonicalType::Time => matches!(to, CanonicalType::Text),
        CanonicalType::Timestamp => matches!(to, CanonicalType::Text),
        _ => false,
    }
}

/// The preferred type name of a canonical type in a dialect.
pub open spec fn spec_dialect_type_name(dialect: Dialect, canonical: CanonicalType) -> &'static str {
    match canonical {
        CanonicalType::Boolean => match dialect {
            Dialect::Bigquery => "BOOL",
            Dialect::Clickhouse => "Bool",
            Dialect::Mssql => "BIT",
            Dialect::Postgres => "boolean",
            Dialect::Sqlite => "INTEGER",
            _ => "BOOLEAN",
        },
        CanonicalType::Date => match dialect {
            Dialect::Clickhouse => "Date",
            Dialect::Postgres => "date",
            Dialect::Sqlite => "TEXT",
            _ => "DATE",
        },
        CanonicalType::Float => match dialect {
            Dialect::Bigquery => "FLOAT64",
            Dialect::Clickhouse => "Float64",
            Dialect::Databricks | Dialect::Duckdb | Dialect::Hive | Dialect::Mysql => "DOUBLE",
            Dialect::Postgres => "double precision",
            Dialect::Redshift => "FLOAT8",
            Dialect::Sqlite => "REAL",
            _ => "FLOAT",
        },
        CanonicalType::Integer => match dialect {
            Dialect::Bigquery => "INT64",
            Dialect::Clickhouse => "Int64",
            Dialect::Databricks | Dialect::Hive | Dialect::Mssql | Dialect::Mysql => "INT",
            Dialect::Postgres => "integer",
            _ => "INTEGER",
        },
        CanonicalType::Text => match dialect {
            Dialect::Bigquery | Dialect::Databricks | Dialect::Hive => "STRING",
            Dialect::Clickhouse => "String",
            Dialect::Duckdb | Dialect::Mysql | Dialect::Redshift | Dialect::Snowflake => "VARCHAR",
            Dialect::Mssql => "NVARCHAR",
            Dialect::Postgres => "text",
            _ => "TEXT",
        },
        CanonicalType::Timestamp => match dialect {
            Dialect::Clickhouse => "DateTime",
            Dialect::Mssql => "DATETIME2",
            Dialect::Mysql => "DATETIME",
            Dialect::Postgres => "timestamp",
            Dialect::Snowflake => "TIMESTAMP_NTZ",
            Dialect::Sqlite => "TEXT",
            _ => "TIMESTAMP",
        },
        CanonicalType::Time => "TIME",
        CanonicalType::Binary => "BINARY",
        CanonicalType::Json => "JSON",
        CanonicalType::Array => "ARRAY",
    }
}

/// Get the dialect-specific type name for a canonical type.
pub fn dialect_type_name(dialect: Dialect, canonical: CanonicalType) -> (r: &'static str)
    ensures
        r == spec_dialect_type_name(dialect, canonical),
{
    match canonical {
        CanonicalType::Boolean => match dialect {
            Dialect::Bigquery => "BOOL",
            Dialect::Clickhouse => "Bool",
            Dialect::Databricks => "BOOLEAN",
            Dialect::Duckdb => "BOOLEAN",
            Dialect::Hive => "BOOLEAN",
            Dialect::Mssql => "BIT",
            Dialect::Mysql => "BOOLEAN",
            Dialect::Postgres => "boolean",
            Dialect::Redshift => "BOOLEAN",
            Dialect::Snowflake => "BOOLEAN",
            Dialect::Sqlite => "INTEGER",
            _ => "BOOLEAN",
        },
        CanonicalType::Date => match dialect {
            Dialect::Bigquery => "DATE",
            Dialect::Clickhouse => "Date",
            Dialect::Databricks => "DATE",
            Dialect::Duckdb => "DATE",
            Dialect::Hive => "DATE",
            Dialect::Mssql => "DATE",
            Dialect::Mysql => "DATE",
            Dialect::Postgres => "date",
            Dialect::Redshift => "DATE",
            Dialect::Snowflake => "DATE",
            Dialect::Sqlite => "TEXT",
            _ => "DATE",
        },
        CanonicalType::Float => match dialect {
            Dialect::Bigquery => "FLOAT64",
            Dialect::Clickhouse => "Float64",
            Dialect::Databricks => "DOUBLE",
            Dialect::Duckdb => "DOUBLE",
            Dialect::Hive => "DOUBLE",
            Dialect::Mssql => "FLOAT",
            Dialect::Mysql => "DOUBLE",
            Dialect::Postgres => "double precision",
            Dialect::Redshift => "FLOAT8",
            Dialect::Snowflake => "FLOAT",
            Dialect::Sqlite => "REAL",
            _ => "FLOAT",
        },
        CanonicalType::Integer => match dialect {
            Dialect::Bigquery => "INT64",
            Dialect::Clickhouse => "Int64",
            Dialect::Databricks => "INT",
            Dialect::Duckdb => "INTEGER",
            Dialect::Hive => "INT",
            Dialect::Mssql => "INT",
            Dialect::Mysql => "INT",
            Dialect::Postgres => "integer",
            Dialect::Redshift => "INTEGER",
            Dialect::Snowflake => "INTEGER",
            Dialect::Sqlite => "INTEGER",
            _ => "INTEGER",
        },
        CanonicalType::Text => match dialect {
            Dialect::Bigquery => "STRING",
            Dialect::Clickhouse => "String",
            Dialect::Databricks => "STRING",
            Dialect::Duckdb => "VARCHAR",
            Dialect::Hive => "STRING",
            Dialect::Mssql => "NVARCHAR",
            Dialect::Mysql => "VARCHAR",
            Dialect::Postgres => "text",
            Dialect::Redshift => "VARCHAR",
            Dialect::Snowflake => "VARCHAR",
            Dialect::Sqlite => "TEXT",
            _ => "TEXT",
        },
        CanonicalType::Timestamp => match dialect {
            Dialect::Bigquery => "TIMESTAMP",
            Dialect::Clickhouse => "DateTime",
            Dialect::Databricks => "TIMESTAMP",
            Dialect::Duckdb => "TIMESTAMP",
            Dialect::Hive => "TIMESTAMP",
            Dialect::Mssql => "DATETIME2",
            Dialect::Mysql => "DATETIME",
            Dialect::Postgres => "timestamp",
            Dialect::Redshift => "TIMESTAMP",
            Dialect::Snowflake => "TIMESTAMP_NTZ",
            Dialect::Sqlite => "TEXT",
            _ => "TIMESTAMP",
        },
        CanonicalType::Time => "TIME",
        CanonicalType::Binary => "BINARY",
        CanonicalType::Json => "JSON",
        CanonicalType::Array => "ARRAY",
    }
}

/// Every type converts implicitly to itself.
pub proof fn law_implicit_cast_reflexive(t: CanonicalType)
    ensures
        spec_can_implicitly_cast(t, t),
{
}

/// Every type other than binary and array converts implicitly to text.
pub proof fn law_implicit_cast_to_text(t: CanonicalType)
    requires
        t != CanonicalType::Binary,
        t != CanonicalType::Array,
    ensures
        spec_can_implicitly_cast(t, CanonicalType::Text),
{
}

/// Binary and array values convert implicitly to no other type.
pub proof fn law_binary_and_array_only_cast_to_themselves(from: CanonicalType, to: CanonicalType)
    requires
        from == CanonicalType::Binary || from == CanonicalType::Array,
        from != to,
    ensures
        !spec_can_implicitly_cast(from, to),
{
}

/// Type name normalization ignores ASCII case in both directions: a name, its
/// lowercase form and its uppercase form all normalize alike.
pub proof fn law_normalize_type_name_ignores_ascii_case(name: Seq<char>)
    ensures
        spec_normalize_type_name(ascii_lower(name)) == spec_normalize_type_name(name),
        spec_normalize_type_name(ascii_upper(name)) == spec_normalize_type_name(name),
{
    crate::text::lemma_ascii_lower_idempotent(name);
    crate::text::lemma_ascii_lower_of_upper(name);
}

/// The lowercase name of every canonical type is recognized as that type.
pub proof fn law_as_str_round_trips(t: CanonicalType)
    ensures
        ascii_lower(spec_as_str(t)@) == spec_as_str(t)@,
        spec_normalize_type_name(spec_as_str(t)@) == Some(t),
{
    let table = spec_type_name_table();
    let s = spec_as_str(t)@;
    reveal_strlit("integer");
    reveal_strlit("float");
    reveal_strlit("text");
    reveal_strlit("boolean");
    reveal_strlit("timestamp");
    reveal_strlit("date");
    reveal_strlit("time");
    reveal_strlit("binary");
    reveal_strlit("json");
    reveal_strlit("array");
    assert(ascii_lower(s) =~= s);
    let k: nat = match t {
        CanonicalType::Integer => 0,
        CanonicalType::Float => 1,
        CanonicalType::Text => 2,
        CanonicalType::Boolean => 3,
        CanonicalType::Timestamp => 4,
        CanonicalType::Date => 5,
        CanonicalType::Time => 6,
        CanonicalType::Binary => 7,
        CanonicalType::Json => 8,
        CanonicalType::Array => 9,
    };
    // Names of equal length among the first entries differ in their first or second character.
    assert(table[0].0@[0] != s[0] || table[0].0@.len() != s.len() || k == 0);
    assert(table[1].0@[0] != s[0] || table[1].0@.len() != s.len() || k <= 1);
    assert(table[2].0@[1] != s[1] || table[2].0@.len() != s.len() || k <= 2);
    assert(table[5].0@[0] != s[0] || table[5].0@.len() != s.len() || k <= 5);
    assert(table[6].0@[0] != s[0] || table[6].0@.len() != s.len() || k <= 6);
    reveal_with_fuel(crate::text::key_absent_before, 10);
    assert(crate::text::key_absent_before(table, s, k));
    crate::text::lemma_first_value_at(table, s, k);
}

/// The uppercase name of every canonical type is the ASCII uppercase of its
/// lowercase name, and is recognized as that type.
pub proof fn law_as_uppercase_str_round_trips(t: CanonicalType)
    ensures
        ascii_lower(spec_as_uppercase_str(t)@) == spec_as_str(t)@,
        spec_normalize_type_name(spec_as_uppercase_str(t)@) == Some(t),
{
    reveal_strlit("INTEGER");
    reveal_strlit("FLOAT");
    reveal_strlit("TEXT");
    reveal_strlit("BOOLEAN");
    reveal_strlit("TIMESTAMP");
    reveal_strlit("DATE");
    reveal_strlit("TIME");
    reveal_strlit("BINARY");
    reveal_strlit("JSON");
    reveal_strlit("ARRAY");
    reveal_strlit("integer");
    reveal_strlit("float");
    reveal_strlit("text");
    reveal_strlit("boolean");
    reveal_strlit("timestamp");
    reveal_strlit("date");
    reveal_strlit("time");
    reveal_strlit("binary");
    reveal_strlit("json");
    reveal_strlit("array");
    assert(ascii_lower(spec_as_uppercase_str(t)@) =~= spec_as_str(t)@);
    law_as_str_round_trips(t);
}

/// Type names are matched whole: a name with a type parameter list or with
/// surrounding whitespace is not recognized.
pub proof fn law_type_names_are_matched_whole()
    ensures
        spec_normalize_type_name("VARCHAR(255)"@) is None,
        spec_normalize_type_name(" int"@) is None,
{
    let table = spec_type_name_table();
    reveal_strlit("VARCHAR(255)");
    reveal_strlit(" int");
    reveal_strlit("integer");
    reveal_strlit("float");
    reveal_strlit("text");
    reveal_strlit("boolean");
    reveal_strlit("timestamp");
    reveal_strlit("date");
    reveal_strlit("time");
    reveal_strlit("binary");
    reveal_strlit("json");
    reveal_strlit("array");
    reveal_strlit("varbinary");
    reveal_strlit("bytea");
    reveal_strlit("blob");
    reveal_strlit("bytes");
    reveal_strlit("bool");
    reveal_strlit("float4");
    reveal_strlit("float8");
    reveal_strlit("double");
    reveal_strlit("real");
    reveal_strlit("decimal");
    reveal_strlit("numeric");
    reveal_strlit("number");
    reveal_strlit("int");
    reveal_strlit("int4");
    reveal_strlit("int64");
    reveal_strlit("bigint");
    reveal_strlit("smallint");
    reveal_strlit("tinyint");
    reveal_strlit("int2");
    reveal_strlit("int8");
    reveal_strlit("jsonb");
    reveal_strlit("variant");
    reveal_strlit("object");
    reveal_strlit("varchar");
    reveal_strlit("char");
    reveal_strlit("string");
    reveal_strlit("nvarchar");
    reveal_strlit("nchar");
    reveal_strlit("character");
    reveal_strlit("timetz");
    reveal_strlit("timestamptz");
    reveal_strlit("datetime");
    reveal_strlit("timestamp_ntz");
    reveal_strlit("timestamp_ltz");
    reveal_strlit("timestamp_tz");
    let k1 = ascii_lower("VARCHAR(255)"@);
    let k2 = ascii_lower(" int"@);
    assert(k1.len() == 12 && k1[0] == 'v');
    assert(k2.len() == 4 && k2[0] == ' ');
    assert(table[44].0@[0] != k1[0]);
    assert(table[2].0@[0] != k2[0]);
    assert(table[5].0@[0] != k2[0]);
    assert(table[6].0@[0] != k2[0]);
    assert(table[8].0@[0] != k2[0]);
    assert(table[12].0@[0] != k2[0]);
    assert(table[14].0@[0] != k2[0]);
    assert(table[18].0@[0] != k2[0]);
    assert(table[23].0@[0] != k2[0]);
    assert(table[28].0@[0] != k2[0]);
    assert(table[29].0@[0] != k2[0]);
    assert(table[34].0@[0] != k2[0]);
    reveal_with_fuel(crate::text::key_absent_before, 46);
    assert(crate::text::key_absent_before(table, k1, 45));
    assert(crate::text::key_absent_before(table, k2, 45));
    crate::text::lemma_first_value_absent(table, k1, 45);
    crate::text::lemma_first_value_absent(table, k2, 45);
}

/// Time, binary, JSON and array types have the same name in every dialect.
pub proof fn law_dialect_independent_type_names(a: Dialect, b: Dialect, t: CanonicalType)
    requires
        t == CanonicalType::Time || t == CanonicalType::Binary || t == CanonicalType::Json
            || t == CanonicalType::Array,
    ensures
        spec_dialect_type_name(a, t) == spec_dialect_type_name(b, t),
{
}

/// Each entry of the type name table is the one its name finds.
proof fn lemma_type_name_entry(k: nat)
    requires
        k < 45,
    ensures
        first_value_for(spec_type_name_table(), spec_type_name_table()[k as int].0@) == Some(spec_type_name_table()[k as int].1),
{
    let table = spec_type_name_table();
    reveal_strlit("integer");
    reveal_strlit("float");
    reveal_strlit("text");
    reveal_strlit("boolean");
    reveal_strlit("timestamp");
    reveal_strlit("date");
    reveal_strlit("time");
    reveal_strlit("binary");
    reveal_strlit("json");
    reveal_strlit("array");
    reveal_strlit("varbinary");
    reveal_strlit("bytea");
    reveal_strlit("blob");
    reveal_strlit("bytes");
    reveal_strlit("bool");
    reveal_strlit("float4");
    reveal_strlit("float8");
    reveal_strlit("double");
    reveal_strlit("real");
    reveal_strlit("decimal");
    reveal_strlit("numeric");
    reveal_strlit("number");
    reveal_strlit("int");
    reveal_strlit("int4");
    reveal_strlit("int64");
    reveal_strlit("bigint");
    reveal_strlit("smallint");
    reveal_strlit("tinyint");
    reveal_strlit("int2");
    reveal_strlit("int8");
    reveal_strlit("jsonb");
    reveal_strlit("variant");
    reveal_strlit("object");
    reveal_strlit("varchar");
    reveal_strlit("char");
    reveal_strlit("string");
    reveal_strlit("nvarchar");
    reveal_strlit("nchar");
    reveal_strlit("character");
    reveal_strlit("timetz");
    reveal_strlit("timestamptz");
    reveal_strlit("datetime");
    reveal_strlit("timestamp_ntz");
    reveal_strlit("timestamp_ltz");
    reveal_strlit("timestamp_tz");
    reveal_with_fuel(crate::text::key_absent_before, 46);
    assert(table[0].0 == "integer" && table[0].0@.len() == 7);
    assert(table[1].0 == "float" && table[1].0@.len() == 5);
    assert(table[2].0 == "text" && table[2].0@.len() == 4);
    assert(table[3].0 == "boolean" && table[3].0@.len() == 7);
    assert(table[4].0 == "timestamp" && table[4].0@.len() == 9);
    assert(table[5].0 == "date" && table[5].0@.len() == 4);
    assert(table[6].0 == "time" && table[6].0@.len() == 4);
    assert(table[7].0 == "binary" && table[7].0@.len() == 6);
    assert(table[8].0 == "json" && table[8].0@.len() == 4);
    assert(table[9].0 == "array" && table[9].0@.len() == 5);
    assert(table[10].0 == "varbinary" && table[10].0@.len() == 9);
    assert(table[11].0 == "bytea" && table[11].0@.len() == 5);
    assert(table[12].0 == "blob" && table[12].0@.len() == 4);
    assert(table[13].0 == "bytes" && table[13].0@.len() == 5);
    assert(table[14].0 == "bool" && table[14].0@.len() == 4);
    assert(table[15].0 == "float4" && table[15].0@.len() == 6);
    assert(table[16].0 == "float8" && table[16].0@.len() == 6);
    assert(table[17].0 == "double" && table[17].0@.len() == 6);
    assert(table[18].0 == "real" && table[18].0@.len() == 4);
    assert(table[19].0 == "decimal" && table[19].0@.len() == 7);
    assert(table[20].0 == "numeric" && table[20].0@.len() == 7);
    assert(table[21].0 == "number" && table[21].0@.len() == 6);
    assert(table[22].0 == "int" && table[22].0@.len() == 3);
    assert(table[23].0 == "int4" && table[23].0@.len() == 4);
    assert(table[24].0 == "int64" && table[24].0@.len() == 5);
    assert(table[25].0 == "bigint" && table[25].0@.len() == 6);
    assert(table[26].0 == "smallint" && table[26].0@.len() == 8);
    assert(table[27].0 == "tinyint" && table[27].0@.len() == 7);
    assert(table[28].0 == "int2" && table[28].0@.len() == 4);
    assert(table[29].0 == "int8" && table[29].0@.len() == 4);
    assert(table[30].0 == "jsonb" && table[30].0@.len() == 5);
    assert(table[31].0 == "variant" && table[31].0@.len() == 7);
    assert(table[32].0 == "object" && table[32].0@.len() == 6);
    assert(table[33].0 == "varchar" && table[33].0@.len() == 7);
    assert(table[34].0 == "char" && table[34].0@.len() == 4);
    assert(table[35].0 == "string" && table[35].0@.len() == 6);
    assert(table[36].0 == "nvarchar" && table[36].0@.len() == 8);
    assert(table[37].0 == "nchar" && table[37].0@.len() == 5);
    assert(table[38].0 == "character" && table[38].0@.len() == 9);
    assert(table[39].0 == "timetz" && table[39].0@.len() == 6);
    assert(table[40].0 == "timestamptz" && table[40].0@.len() == 11);
    assert(table[41].0 == "datetime" && table[41].0@.len() == 8);
    assert(table[42].0 == "timestamp_ntz" && table[42].0@.len() == 13);
    assert(table[43].0 == "timestamp_ltz" && table[43].0@.len() == 13);
    assert(table[44].0 == "timestamp_tz" && table[44].0@.len() == 12);
    if k == 0 {
        assert(crate::text::key_absent_before(table, table[0].0@, 0));
    } else if k == 1 {
        assert(crate::text::key_absent_before(table, table[1].0@, 1));
    } else if k == 2 {
        assert(crate::text::key_absent_before(table, table[2].0@, 2));
    } else if k == 3 {
        assert("integer"@[0] != "boolean"@[0]);
        assert(crate::text::key_absent_before(table, table[3].0@, 3));
    } else if k == 4 {
        assert(crate::text::key_absent_before(table, table[4].0@, 4));
    } else if k == 5 {
        assert("text"@[0] != "date"@[0]);
        assert(crate::text::key_absent_before(table, table[5].0@, 5));
    } else if k == 6 {
        assert("text"@[1] != "time"@[1]);
        assert("date"@[0] != "time"@[0]);
        assert(crate::text::key_absent_before(table, table[6].0@, 6));
    } else if k == 7 {
        assert(crate::text::key_absent_before(table, table[7].0@, 7));
    } else if k == 8 {
        assert("text"@[0] != "json"@[0]);
        assert("date"@[0] != "json"@[0]);
        assert("time"@[0] != "json"@[0]);
        assert(crate::text::key_absent_before(table, table[8].0@, 8));
    } else if k == 9 {
        assert("float"@[0] != "array"@[0]);
        assert(crate::text::key_absent_before(table, table[9].0@, 9));
    } else if k == 10 {
        assert("timestamp"@[0] != "varbinary"@[0]);
        assert(crate::text::key_absent_before(table, table[10].0@, 10));
    } else if k == 11 {
        assert("float"@[0] != "bytea"@[0]);
        assert("array"@[0] != "bytea"@[0]);
        assert(crate::text::key_absent_before(table, table[11].0@, 11));
    } else if k == 12 {
        assert("text"@[0] != "blob"@[0]);
        assert("date"@[0] != "blob"@[0]);
        assert("time"@[0] != "blob"@[0]);
        assert("json"@[0] != "blob"@[0]);
        assert(crate::text::key_absent_before(table, table[12].0@, 12));
    } else if k == 13 {
        assert("float"@[0] != "bytes"@[0]);
        assert("array"@[0] != "bytes"@[0]);
        assert("bytea"@[4] != "bytes"@[4]);
        assert(crate::text::key_absent_before(table, table[13].0@, 13));
    } else if k == 14 {
        assert("text"@[0] != "bool"@[0]);
        assert("date"@[0] != "bool"@[0]);
        assert("time"@[0] != "bool"@[0]);
        assert("json"@[0] != "bool"@[0]);
        assert("blob"@[1] != "bool"@[1]);
        assert(crate::text::key_absent_before(table, table[14].0@, 14));
    } else if k == 15 {
        assert("binary"@[0] != "float4"@[0]);
        assert(crate::text::key_absent_before(table, table[15].0@, 15));
    } else if k == 16 {
        assert("binary"@[0] != "float8"@[0]);
        assert("float4"@[5] != "float8"@[5]);
        assert(crate::text::key_absent_before(table, table[16].0@, 16));
    } else if k == 17 {
        assert("binary"@[0] != "double"@[0]);
        assert("float4"@[0] != "double"@[0]);
        assert("float8"@[0] != "double"@[0]);
        assert(crate::text::key_absent_before(table, table[17].0@, 17));
    } else if k == 18 {
        assert("text"@[0] != "real"@[0]);
        assert("date"@[0] != "real"@[0]);
        assert("time"@[0] != "real"@[0]);
        assert("json"@[0] != "real"@[0]);
        assert("blob"@[0] != "real"@[0]);
        assert("bool"@[0] != "real"@[0]);
        assert(crate::text::key_absent_before(table, table[18].0@, 18));
    } else if k == 19 {
        assert("integer"@[0] != "decimal"@[0]);
        assert("boolean"@[0] != "decimal"@[0]);
        assert(crate::text::key_absent_before(table, table[19].0@, 19));
    } else if k == 20 {
        assert("integer"@[0] != "numeric"@[0]);
        assert("boolean"@[0] != "numeric"@[0]);
        assert("decimal"@[0] != "numeric"@[0]);
        assert(crate::text::key_absent_before(table, table[20].0@, 20));
    } else if k == 21 {
        assert("binary"@[0] != "number"@[0]);
        assert("float4"@[0] != "number"@[0]);
        assert("float8"@[0] != "number"@[0]);
        assert("double"@[0] != "number"@[0]);
        assert(crate::text::key_absent_before(table, table[21].0@, 21));
    } else if k == 22 {
        assert(crate::text::key_absent_before(table, table[22].0@, 22));
    } else if k == 23 {
        assert("text"@[0] != "int4"@[0]);
        assert("date"@[0] != "int4"@[0]);
        assert("time"@[0] != "int4"@[0]);
        assert("json"@[0] != "int4"@[0]);
        assert("blob"@[0] != "int4"@[0]);
        assert("bool"@[0] != "int4"@[0]);
        assert("real"@[0] != "int4"@[0]);
        assert(crate::text::key_absent_before(table, table[23].0@, 23));
    } else if k == 24 {
        assert("float"@[0] != "int64"@[0]);
        assert("array"@[0] != "int64"@[0]);
        assert("bytea"@[0] != "int64"@[0]);
        assert("bytes"@[0] != "int64"@[0]);
        assert(crate::text::key_absent_before(table, table[24].0@, 24));
    } else if k == 25 {
        assert("binary"@[2] != "bigint"@[2]);
        assert("float4"@[0] != "bigint"@[0]);
        assert("float8"@[0] != "bigint"@[0]);
        assert("double"@[0] != "bigint"@[0]);
        assert("number"@[0] != "bigint"@[0]);
        assert(crate::text::key_absent_before(table, table[25].0@, 25));
    } else if k == 26 {
        assert(crate::text::key_absent_before(table, table[26].0@, 26));
    } else if k == 27 {
        assert("integer"@[0] != "tinyint"@[0]);
        assert("boolean"@[0] != "tinyint"@[0]);
        assert("decimal"@[0] != "tinyint"@[0]);
        assert("numeric"@[0] != "tinyint"@[0]);
        assert(crate::text::key_absent_before(table, table[27].0@, 27));
    } else if k == 28 {
        assert("text"@[0] != "int2"@[0]);
        assert("date"@[0] != "int2"@[0]);
        assert("time"@[0] != "int2"@[0]);
        assert("json"@[0] != "int2"@[0]);
        assert("blob"@[0] != "int2"@[0]);
        assert("bool"@[0] != "int2"@[0]);
        assert("real"@[0] != "int2"@[0]);
        assert("int4"@[3] != "int2"@[3]);
        assert(crate::text::key_absent_before(table, table[28].0@, 28));
    } else if k == 29 {
        assert("text"@[0] != "int8"@[0]);
        assert("date"@[0] != "int8"@[0]);
        assert("time"@[0] != "int8"@[0]);
        assert("json"@[0] != "int8"@[0]);
        assert("blob"@[0] != "int8"@[0]);
        assert("bool"@[0] != "int8"@[0]);
        assert("real"@[0] != "int8"@[0]);
        assert("int4"@[3] != "int8"@[3]);
        assert("int2"@[3] != "int8"@[3]);
        assert(crate::text::key_absent_before(table, table[29].0@, 29));
    } else if k == 30 {
        assert("float"@[0] != "jsonb"@[0]);
        assert("array"@[0] != "jsonb"@[0]);
        assert("bytea"@[0] != "jsonb"@[0]);
        assert("bytes"@[0] != "jsonb"@[0]);
        assert("int64"@[0] != "jsonb"@[0]);
        assert(crate::text::key_absent_before(table, table[30].0@, 30));
    } else if k == 31 {
        assert("integer"@[0] != "variant"@[0]);
        assert("boolean"@[0] != "variant"@[0]);
        assert("decimal"@[0] != "variant"@[0]);
        assert("numeric"@[0] != "variant"@[0]);
        assert("tinyint"@[0] != "variant"@[0]);
        assert(crate::text::key_absent_before(table, table[31].0@, 31));
    } else if k == 32 {
        assert("binary"@[0] != "object"@[0]);
        assert("float4"@[0] != "object"@[0]);
        assert("float8"@[0] != "object"@[0]);
        assert("double"@[0] != "object"@[0]);
        assert("number"@[0] != "object"@[0]);
        assert("bigint"@[0] != "object"@[0]);
        assert(crate::text::key_absent_before(table, table[32].0@, 32));
    } else if k == 33 {
        assert("integer"@[0] != "varchar"@[0]);
        assert("boolean"@[0] != "varchar"@[0]);
        assert("decimal"@[0] != "varchar"@[0]);
        assert("numeric"@[0] != "varchar"@[0]);
        assert("tinyint"@[0] != "varchar"@[0]);
        assert("variant"@[3] != "varchar"@[3]);
        assert(crate::text::key_absent_before(table, table[33].0@, 33));
    } else if k == 34 {
        assert("text"@[0] != "char"@[0]);
        assert("date"@[0] != "char"@[0]);
        assert("time"@[0] != "char"@[0]);
        assert("json"@[0] != "char"@[0]);
        assert("blob"@[0] != "char"@[0]);
        assert("bool"@[0] != "char"@[0]);
        assert("real"@[0] != "char"@[0]);
        assert("int4"@[0] != "char"@[0]);
        assert("int2"@[0] != "char"@[0]);
        assert("int8"@[0] != "char"@[0]);
        assert(crate::text::key_absent_before(table, table[34].0@, 34));
    } else if k == 35 {
        assert("binary"@[0] != "string"@[0]);
        assert("float4"@[0] != "string"@[0]);
        assert("float8"@[0] != "string"@[0]);
        assert("double"@[0] != "string"@[0]);
        assert("number"@[0] != "string"@[0]);
        assert("bigint"@[0] != "string"@[0]);
        assert("object"@[0] != "string"@[0]);
        assert(crate::text::key_absent_before(table, table[35].0@, 35));
    } else if k == 36 {
        assert("smallint"@[0] != "nvarchar"@[0]);
        assert(crate::text::key_absent_before(table, table[36].0@, 36));
    } else if k == 37 {
        assert("float"@[0] != "nchar"@[0]);
        assert("array"@[0] != "nchar"@[0]);
        assert("bytea"@[0] != "nchar"@[0]);
        assert("bytes"@[0] != "nchar"@[0]);
        assert("int64"@[0] != "nchar"@[0]);
        assert("jsonb"@[0] != "nchar"@[0]);
        assert(crate::text::key_absent_before(table, table[37].0@, 37));
    } else if k == 38 {
        assert("timestamp"@[0] != "character"@[0]);
        assert("varbinary"@[0] != "character"@[0]);
        assert(crate::text::key_absent_before(table, table[38].0@, 38));
    } else if k == 39 {
        assert("binary"@[0] != "timetz"@[0]);
        assert("float4"@[0] != "timetz"@[0]);
        assert("float8"@[0] != "timetz"@[0]);
        assert("double"@[0] != "timetz"@[0]);
        assert("number"@[0] != "timetz"@[0]);
        assert("bigint"@[0] != "timetz"@[0]);
        assert("object"@[0] != "timetz"@[0]);
        assert("string"@[0] != "timetz"@[0]);
        assert(crate::text::key_absent_before(table, table[39].0@, 39));
    } else if k == 40 {
        assert(crate::text::key_absent_before(table, table[40].0@, 40));
    } else if k == 41 {
        assert("smallint"@[0] != "datetime"@[0]);
        assert("nvarchar"@[0] != "datetime"@[0]);
        assert(crate::text::key_absent_before(table, table[41].0@, 41));
    } else if k == 42 {
        assert(crate::text::key_absent_before(table, table[42].0@, 42));
    } else if k == 43 {
        assert("timestamp_ntz"@[10] != "timestamp_ltz"@[10]);
        assert(crate::text::key_absent_before(table, table[43].0@, 43));
    } else if k == 44 {
        assert(crate::text::key_absent_before(table, table[44].0@, 44));
    }
    crate::text::lemma_first_value_at(table, table[k as int].0@, k);
}

/// A name that no entry of the type name table holds finds nothing.
proof fn lemma_type_name_absent(key: Seq<char>)
    requires
        key != "integer"@,
        key != "float"@,
        key != "text"@,
        key != "boolean"@,
        key != "timestamp"@,
        key != "date"@,
        key != "time"@,
        key != "binary"@,
        key != "json"@,
        key != "array"@,
        key != "varbinary"@,
        key != "bytea"@,
        key != "blob"@,
        key != "bytes"@,
        key != "bool"@,
        key != "float4"@,
        key != "float8"@,
        key != "double"@,
        key != "real"@,
        key != "decimal"@,
        key != "numeric"@,
        key != "number"@,
        key != "int"@,
        key != "int4"@,
        key != "int64"@,
        key != "bigint"@,
        key != "smallint"@,
        key != "tinyint"@,
        key != "int2"@,
        key != "int8"@,
        key != "jsonb"@,
        key != "variant"@,
        key != "object"@,
        key != "varchar"@,
        key != "char"@,
        key != "string"@,
        key != "nvarchar"@,
        key != "nchar"@,
        key != "character"@,
        key != "timetz"@,
        key != "timestamptz"@,
        key != "datetime"@,
        key != "timestamp_ntz"@,
        key != "timestamp_ltz"@,
        key != "timestamp_tz"@,
    ensures
        first_value_for(spec_type_name_table(), key) is None,
{
    let table = spec_type_name_table();
    reveal_with_fuel(crate::text::key_absent_before, 46);
    assert(crate::text::key_absent_before(table, key, 45));
    crate::text::lemma_first_value_absent(table, key, 45);
}

/// The integer type names: `INT`, `INTEGER` and their sized forms.
pub open spec fn type_name_is_integer(s: Seq<char>) -> bool {
    s == "int"@
        || s == "int4"@
        || s == "integer"@
        || s == "int64"@
        || s == "bigint"@
        || s == "smallint"@
        || s == "tinyint"@
        || s == "int2"@
        || s == "int8"@
}

/// The approximate and exact numeric type names other than the integers.
pub open spec fn type_name_is_float(s: Seq<char>) -> bool {
    s == "float"@
        || s == "float4"@
        || s == "float8"@
        || s == "double"@
        || s == "real"@
        || s == "decimal"@
        || s == "numeric"@
        || s == "number"@
}

/// The character string type names.
pub open spec fn type_name_is_text(s: Seq<char>) -> bool {
    s == "varchar"@
        || s == "char"@
        || s == "text"@
        || s == "string"@
        || s == "nvarchar"@
        || s == "nchar"@
        || s == "character"@
}

/// The boolean type names.
pub open spec fn type_name_is_boolean(s: Seq<char>) -> bool {
    s == "bool"@
        || s == "boolean"@
}

/// The date-and-time type names, with or without a time zone.
pub open spec fn type_name_is_timestamp(s: Seq<char>) -> bool {
    s == "timestamp"@
        || s == "timestamptz"@
        || s == "datetime"@
        || s == "timestamp_ntz"@
        || s == "timestamp_ltz"@
        || s == "timestamp_tz"@
}

/// The calendar date type name.
pub open spec fn type_name_is_date(s: Seq<char>) -> bool {
    s == "date"@
}

/// The time-of-day type names.
pub open spec fn type_name_is_time(s: Seq<char>) -> bool {
    s == "time"@
        || s == "timetz"@
}

/// The byte string type names.
pub open spec fn type_name_is_binary(s: Seq<char>) -> bool {
    s == "binary"@
        || s == "varbinary"@
        || s == "bytea"@
        || s == "blob"@
        || s == "bytes"@
}

/// The semi-structured (JSON-like) type names.
pub open spec fn type_name_is_json(s: Seq<char>) -> bool {
    s == "json"@
        || s == "jsonb"@
        || s == "variant"@
        || s == "object"@
}

/// The array type name.
pub open spec fn type_name_is_array(s: Seq<char>) -> bool {
    s == "array"@
}

/// Whether a lowercase name is a type name of some category.
pub open spec fn is_known_type_name(s: Seq<char>) -> bool {
    type_name_is_integer(s)
        || type_name_is_float(s)
        || type_name_is_text(s)
        || type_name_is_boolean(s)
        || type_name_is_timestamp(s)
        || type_name_is_date(s)
        || type_name_is_time(s)
        || type_name_is_binary(s)
        || type_name_is_json(s)
        || type_name_is_array(s)
}

/// Each type name normalizes, in any ASCII case, to the canonical type of its category (integer names to `Integer`, numeric names to `Float`, and so on), and a name of no category normalizes to nothing.
pub proof fn law_type_names_normalize_by_category(name: Seq<char>)
    ensures
        type_name_is_integer(ascii_lower(name)) ==> spec_normalize_type_name(name) == Some(CanonicalType::Integer),
        type_name_is_float(ascii_lower(name)) ==> spec_normalize_type_name(name) == Some(CanonicalType::Float),
        type_name_is_text(ascii_lower(name)) ==> spec_normalize_type_name(name) == Some(CanonicalType::Text),
        type_name_is_boolean(ascii_lower(name)) ==> spec_normalize_type_name(name) == Some(CanonicalType::Boolean),
        type_name_is_timestamp(ascii_lower(name)) ==> spec_normalize_type_name(name) == Some(CanonicalType::Timestamp),
        type_name_is_date(ascii_lower(name)) ==> spec_normalize_type_name(name) == Some(CanonicalType::Date),
        type_name_is_time(ascii_lower(name)) ==> spec_normalize_type_name(name) == Some(CanonicalType::Time),
        type_name_is_binary(ascii_lower(name)) ==> spec_normalize_type_name(name) == Some(CanonicalType::Binary),
        type_name_is_json(ascii_lower(name)) ==> spec_normalize_type_name(name) == Some(CanonicalType::Json),
        type_name_is_array(ascii_lower(name)) ==> spec_normalize_type_name(name) == Some(CanonicalType::Array),
        !is_known_type_name(ascii_lower(name)) ==> spec_normalize_type_name(name) is None,
{
    let key = ascii_lower(name);
    reveal_strlit("int");
    reveal_strlit("int4");
    reveal_strlit("integer");
    reveal_strlit("int64");
    reveal_strlit("bigint");
    reveal_strlit("smallint");
    reveal_strlit("tinyint");
    reveal_strlit("int2");
    reveal_strlit("int8");
    reveal_strlit("float");
    reveal_strlit("float4");
    reveal_strlit("float8");
    reveal_strlit("double");
    reveal_strlit("real");
    reveal_strlit("decimal");
    reveal_strlit("numeric");
    reveal_strlit("number");
    reveal_strlit("varchar");
    reveal_strlit("char");
    reveal_strlit("text");
    reveal_strlit("string");
    reveal_strlit("nvarchar");
    reveal_strlit("nchar");
    reveal_strlit("character");
    reveal_strlit("bool");
    reveal_strlit("boolean");
    reveal_strlit("timestamp");
    reveal_strlit("timestamptz");
    reveal_strlit("datetime");
    reveal_strlit("timestamp_ntz");
    reveal_strlit("timestamp_ltz");
    reveal_strlit("timestamp_tz");
    reveal_strlit("date");
    reveal_strlit("time");
    reveal_strlit("timetz");
    reveal_strlit("binary");
    reveal_strlit("varbinary");
    reveal_strlit("bytea");
    reveal_strlit("blob");
    reveal_strlit("bytes");
    reveal_strlit("json");
    reveal_strlit("jsonb");
    reveal_strlit("variant");
    reveal_strlit("object");
    reveal_strlit("array");
    assert("int"@.len() == 3);
    assert("int4"@.len() == 4);
    assert("integer"@.len() == 7);
    assert("int64"@.len() == 5);
    assert("bigint"@.len() == 6);
    assert("smallint"@.len() == 8);
    assert("tinyint"@.len() == 7);
    assert("int2"@.len() == 4);
    assert("int8"@.len() == 4);
    assert("float"@.len() == 5);
    assert("float4"@.len() == 6);
    assert("float8"@.len() == 6);
    assert("double"@.len() == 6);
    assert("real"@.len() == 4);
    assert("decimal"@.len() == 7);
    assert("numeric"@.len() == 7);
    assert("number"@.len() == 6);
    assert("varchar"@.len() == 7);
    assert("char"@.len() == 4);
    assert("text"@.len() == 4);
    assert("string"@.len() == 6);
    assert("nvarchar"@.len() == 8);
    assert("nchar"@.len() == 5);
    assert("character"@.len() == 9);
    assert("bool"@.len() == 4);
    assert("boolean"@.len() == 7);
    assert("timestamp"@.len() == 9);
    assert("timestamptz"@.len() == 11);
    assert("datetime"@.len() == 8);
    assert("timestamp_ntz"@.len() == 13);
    assert("timestamp_ltz"@.len() == 13);
    assert("timestamp_tz"@.len() == 12);
    assert("date"@.len() == 4);
    assert("time"@.len() == 4);
    assert("timetz"@.len() == 6);
    assert("binary"@.len() == 6);
    assert("varbinary"@.len() == 9);
    assert("bytea"@.len() == 5);
    assert("blob"@.len() == 4);
    assert("bytes"@.len() == 5);
    assert("json"@.len() == 4);
    assert("jsonb"@.len() == 5);
    assert("variant"@.len() == 7);
    assert("object"@.len() == 6);
    assert("array"@.len() == 5);
    if key == "int"@ {
        assert(!type_name_is_float(key));
        assert(!type_name_is_text(key));
        assert(!type_name_is_boolean(key));
        assert(!type_name_is_timestamp(key));
        assert(!type_name_is_date(key));
        assert(!type_name_is_time(key));
        assert(!type_name_is_binary(key));
        assert(!type_name_is_json(key));
        assert(!type_name_is_array(key));
        lemma_type_name_entry(22);
        assert(spec_type_name_table()[22] == ("int", CanonicalType::Integer));
    } else if key == "int4"@ {
        assert("int4"@[0] != "real"@[0]);
        assert("int4"@[0] != "char"@[0]);
        assert("int4"@[0] != "text"@[0]);
        assert("int4"@[0] != "bool"@[0]);
        assert("int4"@[0] != "date"@[0]);
        assert("int4"@[0] != "time"@[0]);
        assert("int4"@[0] != "blob"@[0]);
        assert("int4"@[0] != "json"@[0]);
        assert(!type_name_is_float(key));
        assert(!type_name_is_text(key));
        assert(!type_name_is_boolean(key));
        assert(!type_name_is_timestamp(key));
        assert(!type_name_is_date(key));
        assert(!type_name_is_time(key));
        assert(!type_name_is_binary(key));
        assert(!type_name_is_json(key));
        assert(!type_name_is_array(key));
        lemma_type_name_entry(23);
        assert(spec_type_name_table()[23] == ("int4", CanonicalType::Integer));
    } else if key == "integer"@ {
        assert("integer"@[0] != "decimal"@[0]);
        assert("integer"@[0] != "numeric"@[0]);
        assert("integer"@[0] != "varchar"@[0]);
        assert("integer"@[0] != "boolean"@[0]);
        assert("integer"@[0] != "variant"@[0]);
        assert(!type_name_is_float(key));
        assert(!type_name_is_text(key));
        assert(!type_name_is_boolean(key));
        assert(!type_name_is_timestamp(key));
        assert(!type_name_is_date(key));
        assert(!type_name_is_time(key));
        assert(!type_name_is_binary(key));
        assert(!type_name_is_json(key));
        assert(!type_name_is_array(key));
        lemma_type_name_entry(0);
        assert(spec_type_name_table()[0] == ("integer", CanonicalType::Integer));
    } else if key == "int64"@ {
        assert("int64"@[0] != "float"@[0]);
        assert("int64"@[0] != "nchar"@[0]);
        assert("int64"@[0] != "bytea"@[0]);
        assert("int64"@[0] != "bytes"@[0]);
        assert("int64"@[0] != "jsonb"@[0]);
        assert("int64"@[0] != "array"@[0]);
        assert(!type_name_is_float(key));
        assert(!type_name_is_text(key));
        assert(!type_name_is_boolean(key));
        assert(!type_name_is_timestamp(key));
        assert(!type_name_is_date(key));
        assert(!type_name_is_time(key));
        assert(!type_name_is_binary(key));
        assert(!type_name_is_json(key));
        assert(!type_name_is_array(key));
        lemma_type_name_entry(24);
        assert(spec_type_name_table()[24] == ("int64", CanonicalType::Integer));
    } else if key == "bigint"@ {
        assert("bigint"@[0] != "float4"@[0]);
        assert("bigint"@[0] != "float8"@[0]);
        assert("bigint"@[0] != "double"@[0]);
        assert("bigint"@[0] != "number"@[0]);
        assert("bigint"@[0] != "string"@[0]);
        assert("bigint"@[0] != "timetz"@[0]);
        assert("bigint"@[2] != "binary"@[2]);
        assert("bigint"@[0] != "object"@[0]);
        assert(!type_name_is_float(key));
        assert(!type_name_is_text(key));
        assert(!type_name_is_boolean(key));
        assert(!type_name_is_timestamp(key));
        assert(!type_name_is_date(key));
        assert(!type_name_is_time(key));
        assert(!type_name_is_binary(key));
        assert(!type_name_is_json(key));
        assert(!type_name_is_array(key));
        lemma_type_name_entry(25);
        assert(spec_type_name_table()[25] == ("bigint", CanonicalType::Integer));
    } else if key == "smallint"@ {
        assert("smallint"@[0] != "nvarchar"@[0]);
        assert("smallint"@[0] != "datetime"@[0]);
        assert(!type_name_is_float(key));
        assert(!type_name_is_text(key));
        assert(!type_name_is_boolean(key));
        assert(!type_name_is_timestamp(key));
        assert(!type_name_is_date(key));
        assert(!type_name_is_time(key));
        assert(!type_name_is_binary(key));
        assert(!type_name_is_json(key));
        assert(!type_name_is_array(key));
        lemma_type_name_entry(26);
        assert(spec_type_name_table()[26] == ("smallint", CanonicalType::Integer));
    } else if key == "tinyint"@ {
        assert("tinyint"@[0] != "decimal"@[0]);
        assert("tinyint"@[0] != "numeric"@[0]);
        assert("tinyint"@[0] != "varchar"@[0]);
        assert("tinyint"@[0] != "boolean"@[0]);
        assert("tinyint"@[0] != "variant"@[0]);
        assert(!type_name_is_float(key));
        assert(!type_name_is_text(key));
        assert(!type_name_is_boolean(key));
        assert(!type_name_is_timestamp(key));
        assert(!type_name_is_date(key));
        assert(!type_name_is_time(key));
        assert(!type_name_is_binary(key));
        assert(!type_name_is_json(key));
        assert(!type_name_is_array(key));
        lemma_type_name_entry(27);
        assert(spec_type_name_table()[27] == ("tinyint", CanonicalType::Integer));
    } else if key == "int2"@ {
        assert("int2"@[0] != "real"@[0]);
        assert("int2"@[0] != "char"@[0]);
        assert("int2"@[0] != "text"@[0]);
        assert("int2"@[0] != "bool"@[0]);
        assert("int2"@[0] != "date"@[0]);
        assert("int2"@[0] != "time"@[0]);
        assert("int2"@[0] != "blob"@[0]);
        assert("int2"@[0] != "json"@[0]);
        assert(!type_name_is_float(key));
        assert(!type_name_is_text(key));
        assert(!type_name_is_boolean(key));
        assert(!type_name_is_timestamp(key));
        assert(!type_name_is_date(key));
        assert(!type_name_is_time(key));
        assert(!type_name_is_binary(key));
        assert(!type_name_is_json(key));
        assert(!type_name_is_array(key));
        lemma_type_name_entry(28);
        assert(spec_type_name_table()[28] == ("int2", CanonicalType::Integer));
    } else if key == "int8"@ {
        assert("int8"@[0] != "real"@[0]);
        assert("int8"@[0] != "char"@[0]);
        assert("int8"@[0] != "text"@[0]);
        assert("int8"@[0] != "bool"@[0]);
        assert("int8"@[0] != "date"@[0]);
        assert("int8"@[0] != "time"@[0]);
        assert("int8"@[0] != "blob"@[0]);
        assert("int8"@[0] != "json"@[0]);
        assert(!type_name_is_float(key));
        assert(!type_name_is_text(key));
        assert(!type_name_is_boolean(key));
        assert(!type_name_is_timestamp(key));
        assert(!type_name_is_date(key));
        assert(!type_name_is_time(key));
        assert(!type_name_is_binary(key));
        assert(!type_name_is_json(key));
        assert(!type_name_is_array(key));
        lemma_type_name_entry(29);
        assert(spec_type_name_table()[29] == ("int8", CanonicalType::Integer));
    } else if key == "float"@ {
        assert("float"@[0] != "int64"@[0]);
        assert("float"@[0] != "nchar"@[0]);
        assert("float"@[0] != "bytea"@[0]);
        assert("float"@[0] != "bytes"@[0]);
        assert("float"@[0] != "jsonb"@[0]);
        assert("float"@[0] != "array"@[0]);
        assert(!type_name_is_integer(key));
        assert(!type_name_is_text(key));
        assert(!type_name_is_boolean(key));
        assert(!type_name_is_timestamp(key));
        assert(!type_name_is_date(key));
        assert(!type_name_is_time(key));
        assert(!type_name_is_binary(key));
        assert(!type_name_is_json(key));
        assert(!type_name_is_array(key));
        lemma_type_name_entry(1);
        assert(spec_type_name_table()[1] == ("float", CanonicalType::Float));
    } else if key == "float4"@ {
        assert("float4"@[0] != "bigint"@[0]);
        assert("float4"@[0] != "string"@[0]);
        assert("float4"@[0] != "timetz"@[0]);
        assert("float4"@[0] != "binary"@[0]);
        assert("float4"@[0] != "object"@[0]);
        assert(!type_name_is_integer(key));
        assert(!type_name_is_text(key));
        assert(!type_name_is_boolean(key));
        assert(!type_name_is_timestamp(key));
        assert(!type_name_is_date(key));
        assert(!type_name_is_time(key));
        assert(!type_name_is_binary(key));
        assert(!type_name_is_json(key));
        assert(!type_name_is_array(key));
        lemma_type_name_entry(15);
        assert(spec_type_name_table()[15] == ("float4", CanonicalType::Float));
    } else if key == "float8"@ {
        assert("float8"@[0] != "bigint"@[0]);
        assert("float8"@[0] != "string"@[0]);
        assert("float8"@[0] != "timetz"@[0]);
        assert("float8"@[0] != "binary"@[0]);
        assert("float8"@[0] != "object"@[0]);
        assert(!type_name_is_integer(key));
        assert(!type_name_is_text(key));
        assert(!type_name_is_boolean(key));
        assert(!type_name_is_timestamp(key));
        assert(!type_name_is_date(key));
        assert(!type_name_is_time(key));
        assert(!type_name_is_binary(key));
        assert(!type_name_is_json(key));
        assert(!type_name_is_array(key));
        lemma_type_name_entry(16);
        assert(spec_type_name_table()[16] == ("float8", CanonicalType::Float));
    } else if key == "double"@ {
        assert("double"@[0] != "bigint"@[0]);
        assert("double"@[0] != "string"@[0]);
        assert("double"@[0] != "timetz"@[0]);
        assert("double"@[0] != "binary"@[0]);
        assert("double"@[0] != "object"@[0]);
        assert(!type_name_is_integer(key));
        assert(!type_name_is_text(key));
        assert(!type_name_is_boolean(key));
        assert(!type_name_is_timestamp(key));
        assert(!type_name_is_date(key));
        assert(!type_name_is_time(key));
        assert(!type_name_is_binary(key));
        assert(!type_name_is_json(key));
        assert(!type_name_is_array(key));
        lemma_type_name_entry(17);
        assert(spec_type_name_table()[17] == ("double", CanonicalType::Float));
    } else if key == "real"@ {
        assert("real"@[0] != "int4"@[0]);
        assert("real"@[0] != "int2"@[0]);
        assert("real"@[0] != "int8"@[0]);
        assert("real"@[0] != "char"@[0]);
        assert("real"@[0] != "text"@[0]);
        assert("real"@[0] != "bool"@[0]);
        assert("real"@[0] != "date"@[0]);
        assert("real"@[0] != "time"@[0]);
        assert("real"@[0] != "blob"@[0]);
        assert("real"@[0] != "json"@[0]);
        assert(!type_name_is_integer(key));
        assert(!type_name_is_text(key));
        assert(!type_name_is_boolean(key));
        assert(!type_name_is_timestamp(key));
        assert(!type_name_is_date(key));
        assert(!type_name_is_time(key));
        assert(!type_name_is_binary(key));
        assert(!type_name_is_json(key));
        assert(!type_name_is_array(key));
        lemma_type_name_entry(18);
        assert(spec_type_name_table()[18] == ("real", CanonicalType::Float));
    } else if key == "decimal"@ {
        assert("decimal"@[0] != "integer"@[0]);
        assert("decimal"@[0] != "tinyint"@[0]);
        assert("decimal"@[0] != "varchar"@[0]);
        assert("decimal"@[0] != "boolean"@[0]);
        assert("decimal"@[0] != "variant"@[0]);
        assert(!type_name_is_integer(key));
        assert(!type_name_is_text(key));
        assert(!type_name_is_boolean(key));
        assert(!type_name_is_timestamp(key));
        assert(!type_name_is_date(key));
        assert(!type_name_is_time(key));
        assert(!type_name_is_binary(key));
        assert(!type_name_is_json(key));
        assert(!type_name_is_array(key));
        lemma_type_name_entry(19);
        assert(spec_type_name_table()[19] == ("decimal", CanonicalType::Float));
    } else if key == "numeric"@ {
        assert("numeric"@[0] != "integer"@[0]);
        assert("numeric"@[0] != "tinyint"@[0]);
        assert("numeric"@[0] != "varchar"@[0]);
        assert("numeric"@[0] != "boolean"@[0]);
        assert("numeric"@[0] != "variant"@[0]);
        assert(!type_name_is_integer(key));
        assert(!type_name_is_text(key));
        assert(!type_name_is_boolean(key));
        assert(!type_name_is_timestamp(key));
        assert(!type_name_is_date(key));
        assert(!type_name_is_time(key));
        assert(!type_name_is_binary(key));
        assert(!type_name_is_json(key));
        assert(!type_name_is_array(key));
        lemma_type_name_entry(20);
        assert(spec_type_name_table()[20] == ("numeric", CanonicalType::Float));
    } else if key == "number"@ {
        assert("number"@[0] != "bigint"@[0]);
        assert("number"@[0] != "string"@[0]);
        assert("number"@[0] != "timetz"@[0]);
        assert("number"@[0] != "binary"@[0]);
        assert("number"@[0] != "object"@[0]);
        assert(!type_name_is_integer(key));
        assert(!type_name_is_text(key));
        assert(!type_name_is_boolean(key));
        assert(!type_name_is_timestamp(key));
        assert(!type_name_is_date(key));
        assert(!type_name_is_time(key));
        assert(!type_name_is_binary(key));
        assert(!type_name_is_json(key));
        assert(!type_name_is_array(key));
        lemma_type_name_entry(21);
        assert(spec_type_name_table()[21] == ("number", CanonicalType::Float));
    } else if key == "varchar"@ {
        assert("varchar"@[0] != "integer"@[0]);
        assert("varchar"@[0] != "tinyint"@[0]);
        assert("varchar"@[0] != "decimal"@[0]);
        assert("varchar"@[0] != "numeric"@[0]);
        assert("varchar"@[0] != "boolean"@[0]);
        assert("varchar"@[3] != "variant"@[3]);
        assert(!type_name_is_integer(key));
        assert(!type_name_is_float(key));
        assert(!type_name_is_boolean(key));
        assert(!type_name_is_timestamp(key));
        assert(!type_name_is_date(key));
        assert(!type_name_is_time(key));
        assert(!type_name_is_binary(key));
        assert(!type_name_is_json(key));
        assert(!type_name_is_array(key));
        lemma_type_name_entry(33);
        assert(spec_type_name_table()[33] == ("varchar", CanonicalType::Text));
    } else if key == "char"@ {
        assert("char"@[0] != "int4"@[0]);
        assert("char"@[0] != "int2"@[0]);
        assert("char"@[0] != "int8"@[0]);
        assert("char"@[0] != "real"@[0]);
        assert("char"@[0] != "bool"@[0]);
        assert("char"@[0] != "date"@[0]);
        assert("char"@[0] != "time"@[0]);
        assert("char"@[0] != "blob"@[0]);
        assert("char"@[0] != "json"@[0]);
        assert(!type_name_is_integer(key));
        assert(!type_name_is_float(key));
        assert(!type_name_is_boolean(key));
        assert(!type_name_is_timestamp(key));
        assert(!type_name_is_date(key));
        assert(!type_name_is_time(key));
        assert(!type_name_is_binary(key));
        assert(!type_name_is_json(key));
        assert(!type_name_is_array(key));
        lemma_type_name_entry(34);
        assert(spec_type_name_table()[34] == ("char", CanonicalType::Text));
    } else if key == "text"@ {
        assert("text"@[0] != "int4"@[0]);
        assert("text"@[0] != "int2"@[0]);
        assert("text"@[0] != "int8"@[0]);
        assert("text"@[0] != "real"@[0]);
        assert("text"@[0] != "bool"@[0]);
        assert("text"@[0] != "date"@[0]);
        assert("text"@[1] != "time"@[1]);
        assert("text"@[0] != "blob"@[0]);
        assert("text"@[0] != "json"@[0]);
        assert(!type_name_is_integer(key));
        assert(!type_name_is_float(key));
        assert(!type_name_is_boolean(key));
        assert(!type_name_is_timestamp(key));
        assert(!type_name_is_date(key));
        assert(!type_name_is_time(key));
        assert(!type_name_is_binary(key));
        assert(!type_name_is_json(key));
        assert(!type_name_is_array(key));
        lemma_type_name_entry(2);
        assert(spec_type_name_table()[2] == ("text", CanonicalType::Text));
    } else if key == "string"@ {
        assert("string"@[0] != "bigint"@[0]);
        assert("string"@[0] != "float4"@[0]);
        assert("string"@[0] != "float8"@[0]);
        assert("string"@[0] != "double"@[0]);
        assert("string"@[0] != "number"@[0]);
        assert("string"@[0] != "timetz"@[0]);
        assert("string"@[0] != "binary"@[0]);
        assert("string"@[0] != "object"@[0]);
        assert(!type_name_is_integer(key));
        assert(!type_name_is_float(key));
        assert(!type_name_is_boolean(key));
        assert(!type_name_is_timestamp(key));
        assert(!type_name_is_date(key));
        assert(!type_name_is_time(key));
        assert(!type_name_is_binary(key));
        assert(!type_name_is_json(key));
        assert(!type_name_is_array(key));
        lemma_type_name_entry(35);
        assert(spec_type_name_table()[35] == ("string", CanonicalType::Text));
    } else if key == "nvarchar"@ {
        assert("nvarchar"@[0] != "smallint"@[0]);
        assert("nvarchar"@[0] != "datetime"@[0]);
        assert(!type_name_is_integer(key));
        assert(!type_name_is_float(key));
        assert(!type_name_is_boolean(key));
        assert(!type_name_is_timestamp(key));
        assert(!type_name_is_date(key));
        assert(!type_name_is_time(key));
        assert(!type_name_is_binary(key));
        assert(!type_name_is_json(key));
        assert(!type_name_is_array(key));
        lemma_type_name_entry(36);
        assert(spec_type_name_table()[36] == ("nvarchar", CanonicalType::Text));
    } else if key == "nchar"@ {
        assert("nchar"@[0] != "int64"@[0]);
        assert("nchar"@[0] != "float"@[0]);
        assert("nchar"@[0] != "bytea"@[0]);
        assert("nchar"@[0] != "bytes"@[0]);
        assert("nchar"@[0] != "jsonb"@[0]);
        assert("nchar"@[0] != "array"@[0]);
        assert(!type_name_is_integer(key));
        assert(!type_name_is_float(key));
        assert(!type_name_is_boolean(key));
        assert(!type_name_is_timestamp(key));
        assert(!type_name_is_date(key));
        assert(!type_name_is_time(key));
        assert(!type_name_is_binary(key));
        assert(!type_name_is_json(key));
        assert(!type_name_is_array(key));
        lemma_type_name_entry(37);
        assert(spec_type_name_table()[37] == ("nchar", CanonicalType::Text));
    } else if key == "character"@ {
        assert("character"@[0] != "timestamp"@[0]);
        assert("character"@[0] != "varbinary"@[0]);
        assert(!type_name_is_integer(key));
        assert(!type_name_is_float(key));
        assert(!type_name_is_boolean(key));
        assert(!type_name_is_timestamp(key));
        assert(!type_name_is_date(key));
        assert(!type_name_is_time(key));
        assert(!type_name_is_binary(key));
        assert(!type_name_is_json(key));
        assert(!type_name_is_array(key));
        lemma_type_name_entry(38);
        assert(spec_type_name_table()[38] == ("character", CanonicalType::Text));
    } else if key == "bool"@ {
        assert("bool"@[0] != "int4"@[0]);
        assert("bool"@[0] != "int2"@[0]);
        assert("bool"@[0] != "int8"@[0]);
        assert("bool"@[0] != "real"@[0]);
        assert("bool"@[0] != "char"@[0]);
        assert("bool"@[0] != "text"@[0]);
        assert("bool"@[0] != "date"@[0]);
        assert("bool"@[0] != "time"@[0]);
        assert("bool"@[1] != "blob"@[1]);
        assert("bool"@[0] != "json"@[0]);
        assert(!type_name_is_integer(key));
        assert(!type_name_is_float(key));
        assert(!type_name_is_text(key));
        assert(!type_name_is_timestamp(key));
        assert(!type_name_is_date(key));
        assert(!type_name_is_time(key));
        assert(!type_name_is_binary(key));
        assert(!type_name_is_json(key));
        assert(!type_name_is_array(key));
        lemma_type_name_entry(14);
        assert(spec_type_name_table()[14] == ("bool", CanonicalType::Boolean));
    } else if key == "boolean"@ {
        assert("boolean"@[0] != "integer"@[0]);
        assert("boolean"@[0] != "tinyint"@[0]);
        assert("boolean"@[0] != "decimal"@[0]);
        assert("boolean"@[0] != "numeric"@[0]);
        assert("boolean"@[0] != "varchar"@[0]);
        assert("boolean"@[0] != "variant"@[0]);
        assert(!type_name_is_integer(key));
        assert(!type_name_is_float(key));
        assert(!type_name_is_text(key));
        assert(!type_name_is_timestamp(key));
        assert(!type_name_is_date(key));
        assert(!type_name_is_time(key));
        assert(!type_name_is_binary(key));
        assert(!type_name_is_json(key));
        assert(!type_name_is_array(key));
        lemma_type_name_entry(3);
        assert(spec_type_name_table()[3] == ("boolean", CanonicalType::Boolean));
    } else if key == "timestamp"@ {
        assert("timestamp"@[0] != "character"@[0]);
        assert("timestamp"@[0] != "varbinary"@[0]);
        assert(!type_name_is_integer(key));
        assert(!type_name_is_float(key));
        assert(!type_name_is_text(key));
        assert(!type_name_is_boolean(key));
        assert(!type_name_is_date(key));
        assert(!type_name_is_time(key));
        assert(!type_name_is_binary(key));
        assert(!type_name_is_json(key));
        assert(!type_name_is_array(key));
        lemma_type_name_entry(4);
        assert(spec_type_name_table()[4] == ("timestamp", CanonicalType::Timestamp));
    } else if key == "timestamptz"@ {
        assert(!type_name_is_integer(key));
        assert(!type_name_is_float(key));
        assert(!type_name_is_text(key));
        assert(!type_name_is_boolean(key));
        assert(!type_name_is_date(key));
        assert(!type_name_is_time(key));
        assert(!type_name_is_binary(key));
        assert(!type_name_is_json(key));
        assert(!type_name_is_array(key));
        lemma_type_name_entry(40);
        assert(spec_type_name_table()[40] == ("timestamptz", CanonicalType::Timestamp));
    } else if key == "datetime"@ {
        assert("datetime"@[0] != "smallint"@[0]);
        assert("datetime"@[0] != "nvarchar"@[0]);
        assert(!type_name_is_integer(key));
        assert(!type_name_is_float(key));
        assert(!type_name_is_text(key));
        assert(!type_name_is_boolean(key));
        assert(!type_name_is_date(key));
        assert(!type_name_is_time(key));
        assert(!type_name_is_binary(key));
        assert(!type_name_is_json(key));
        assert(!type_name_is_array(key));
        lemma_type_name_entry(41);
        assert(spec_type_name_table()[41] == ("datetime", CanonicalType::Timestamp));
    } else if key == "timestamp_ntz"@ {
        assert(!type_name_is_integer(key));
        assert(!type_name_is_float(key));
        assert(!type_name_is_text(key));
        assert(!type_name_is_boolean(key));
        assert(!type_name_is_date(key));
        assert(!type_name_is_time(key));
        assert(!type_name_is_binary(key));
        assert(!type_name_is_json(key));
        assert(!type_name_is_array(key));
        lemma_type_name_entry(42);
        assert(spec_type_name_table()[42] == ("timestamp_ntz", CanonicalType::Timestamp));
    } else if key == "timestamp_ltz"@ {
        assert(!type_name_is_integer(key));
        assert(!type_name_is_float(key));
        assert(!type_name_is_text(key));
        assert(!type_name_is_boolean(key));
        assert(!type_name_is_date(key));
        assert(!type_name_is_time(key));
        assert(!type_name_is_binary(key));
        assert(!type_name_is_json(key));
        assert(!type_name_is_array(key));
        lemma_type_name_entry(43);
        assert(spec_type_name_table()[43] == ("timestamp_ltz", CanonicalType::Timestamp));
    } else if key == "timestamp_tz"@ {
        assert(!type_name_is_integer(key));
        assert(!type_name_is_float(key));
        assert(!type_name_is_text(key));
        assert(!type_name_is_boolean(key));
        assert(!type_name_is_date(key));
        assert(!type_name_is_time(key));
        assert(!type_name_is_binary(key));
        assert(!type_name_is_json(key));
        assert(!type_name_is_array(key));
        lemma_type_name_entry(44);
        assert(spec_type_name_table()[44] == ("timestamp_tz", CanonicalType::Timestamp));
    } else if key == "date"@ {
        assert("date"@[0] != "int4"@[0]);
        assert("date"@[0] != "int2"@[0]);
        assert("date"@[0] != "int8"@[0]);
        assert("date"@[0] != "real"@[0]);
        assert("date"@[0] != "char"@[0]);
        assert("date"@[0] != "text"@[0]);
        assert("date"@[0] != "bool"@[0]);
        assert("date"@[0] != "time"@[0]);
        assert("date"@[0] != "blob"@[0]);
        assert("date"@[0] != "json"@[0]);
        assert(!type_name_is_integer(key));
        assert(!type_name_is_float(key));
        assert(!type_name_is_text(key));
        assert(!type_name_is_boolean(key));
        assert(!type_name_is_timestamp(key));
        assert(!type_name_is_time(key));
        assert(!type_name_is_binary(key));
        assert(!type_name_is_json(key));
        assert(!type_name_is_array(key));
        lemma_type_name_entry(5);
        assert(spec_type_name_table()[5] == ("date", CanonicalType::Date));
    } else if key == "time"@ {
        assert("time"@[0] != "int4"@[0]);
        assert("time"@[0] != "int2"@[0]);
        assert("time"@[0] != "int8"@[0]);
        assert("time"@[0] != "real"@[0]);
        assert("time"@[0] != "char"@[0]);
        assert("time"@[1] != "text"@[1]);
        assert("time"@[0] != "bool"@[0]);
        assert("time"@[0] != "date"@[0]);
        assert("time"@[0] != "blob"@[0]);
        assert("time"@[0] != "json"@[0]);
        assert(!type_name_is_integer(key));
        assert(!type_name_is_float(key));
        assert(!type_name_is_text(key));
        assert(!type_name_is_boolean(key));
        assert(!type_name_is_timestamp(key));
        assert(!type_name_is_date(key));
        assert(!type_name_is_binary(key));
        assert(!type_name_is_json(key));
        assert(!type_name_is_array(key));
        lemma_type_name_entry(6);
        assert(spec_type_name_table()[6] == ("time", CanonicalType::Time));
    } else if key == "timetz"@ {
        assert("timetz"@[0] != "bigint"@[0]);
        assert("timetz"@[0] != "float4"@[0]);
        assert("timetz"@[0] != "float8"@[0]);
        assert("timetz"@[0] != "double"@[0]);
        assert("timetz"@[0] != "number"@[0]);
        assert("timetz"@[0] != "string"@[0]);
        assert("timetz"@[0] != "binary"@[0]);
        assert("timetz"@[0] != "object"@[0]);
        assert(!type_name_is_integer(key));
        assert(!type_name_is_float(key));
        assert(!type_name_is_text(key));
        assert(!type_name_is_boolean(key));
        assert(!type_name_is_timestamp(key));
        assert(!type_name_is_date(key));
        assert(!type_name_is_binary(key));
        assert(!type_name_is_json(key));
        assert(!type_name_is_array(key));
        lemma_type_name_entry(39);
        assert(spec_type_name_table()[39] == ("timetz", CanonicalType::Time));
    } else if key == "binary"@ {
        assert("binary"@[2] != "bigint"@[2]);
        assert("binary"@[0] != "float4"@[0]);
        assert("binary"@[0] != "float8"@[0]);
        assert("binary"@[0] != "double"@[0]);
        assert("binary"@[0] != "number"@[0]);
        assert("binary"@[0] != "string"@[0]);
        assert("binary"@[0] != "timetz"@[0]);
        assert("binary"@[0] != "object"@[0]);
        assert(!type_name_is_integer(key));
        assert(!type_name_is_float(key));
        assert(!type_name_is_text(key));
        assert(!type_name_is_boolean(key));
        assert(!type_name_is_timestamp(key));
        assert(!type_name_is_date(key));
        assert(!type_name_is_time(key));
        assert(!type_name_is_json(key));
        assert(!type_name_is_array(key));
        lemma_type_name_entry(7);
        assert(spec_type_name_table()[7] == ("binary", CanonicalType::Binary));
    } else if key == "varbinary"@ {
        assert("varbinary"@[0] != "character"@[0]);
        assert("varbinary"@[0] != "timestamp"@[0]);
        assert(!type_name_is_integer(key));
        assert(!type_name_is_float(key));
        assert(!type_name_is_text(key));
        assert(!type_name_is_boolean(key));
        assert(!type_name_is_timestamp(key));
        assert(!type_name_is_date(key));
        assert(!type_name_is_time(key));
        assert(!type_name_is_json(key));
        assert(!type_name_is_array(key));
        lemma_type_name_entry(10);
        assert(spec_type_name_table()[10] == ("varbinary", CanonicalType::Binary));
    } else if key == "bytea"@ {
        assert("bytea"@[0] != "int64"@[0]);
        assert("bytea"@[0] != "float"@[0]);
        assert("bytea"@[0] != "nchar"@[0]);
        assert("bytea"@[0] != "jsonb"@[0]);
        assert("bytea"@[0] != "array"@[0]);
        assert(!type_name_is_integer(key));
        assert(!type_name_is_float(key));
        assert(!type_name_is_text(key));
        assert(!type_name_is_boolean(key));
        assert(!type_name_is_timestamp(key));
        assert(!type_name_is_date(key));
        assert(!type_name_is_time(key));
        assert(!type_name_is_json(key));
        assert(!type_name_is_array(key));
        lemma_type_name_entry(11);
        assert(spec_type_name_table()[11] == ("bytea", CanonicalType::Binary));
    } else if key == "blob"@ {
        assert("blob"@[0] != "int4"@[0]);
        assert("blob"@[0] != "int2"@[0]);
        assert("blob"@[0] != "int8"@[0]);
        assert("blob"@[0] != "real"@[0]);
        assert("blob"@[0] != "char"@[0]);
        assert("blob"@[0] != "text"@[0]);
        assert("blob"@[1] != "bool"@[1]);
        assert("blob"@[0] != "date"@[0]);
        assert("blob"@[0] != "time"@[0]);
        assert("blob"@[0] != "json"@[0]);
        assert(!type_name_is_integer(key));
        assert(!type_name_is_float(key));
        assert(!type_name_is_text(key));
        assert(!type_name_is_boolean(key));
        assert(!type_name_is_timestamp(key));
        assert(!type_name_is_date(key));
        assert(!type_name_is_time(key));
        assert(!type_name_is_json(key));
        assert(!type_name_is_array(key));
        lemma_type_name_entry(12);
        assert(spec_type_name_table()[12] == ("blob", CanonicalType::Binary));
    } else if key == "bytes"@ {
        assert("bytes"@[0] != "int64"@[0]);
        assert("bytes"@[0] != "float"@[0]);
        assert("bytes"@[0] != "nchar"@[0]);
        assert("bytes"@[0] != "jsonb"@[0]);
        assert("bytes"@[0] != "array"@[0]);
        assert(!type_name_is_integer(key));
        assert(!type_name_is_float(key));
        assert(!type_name_is_text(key));
        assert(!type_name_is_boolean(key));
        assert(!type_name_is_timestamp(key));
        assert(!type_name_is_date(key));
        assert(!type_name_is_time(key));
        assert(!type_name_is_json(key));
        assert(!type_name_is_array(key));
        lemma_type_name_entry(13);
        assert(spec_type_name_table()[13] == ("bytes", CanonicalType::Binary));
    } else if key == "json"@ {
        assert("json"@[0] != "int4"@[0]);
        assert("json"@[0] != "int2"@[0]);
        assert("json"@[0] != "int8"@[0]);
        assert("json"@[0] != "real"@[0]);
        assert("json"@[0] != "char"@[0]);
        assert("json"@[0] != "text"@[0]);
        assert("json"@[0] != "bool"@[0]);
        assert("json"@[0] != "date"@[0]);
        assert("json"@[0] != "time"@[0]);
        assert("json"@[0] != "blob"@[0]);
        assert(!type_name_is_integer(key));
        assert(!type_name_is_float(key));
        assert(!type_name_is_text(key));
        assert(!type_name_is_boolean(key));
        assert(!type_name_is_timestamp(key));
        assert(!type_name_is_date(key));
        assert(!type_name_is_time(key));
        assert(!type_name_is_binary(key));
        assert(!type_name_is_array(key));
        lemma_type_name_entry(8);
        assert(spec_type_name_table()[8] == ("json", CanonicalType::Json));
    } else if key == "jsonb"@ {
        assert("jsonb"@[0] != "int64"@[0]);
        assert("jsonb"@[0] != "float"@[0]);
        assert("jsonb"@[0] != "nchar"@[0]);
        assert("jsonb"@[0] != "bytea"@[0]);
        assert("jsonb"@[0] != "bytes"@[0]);
        assert("jsonb"@[0] != "array"@[0]);
        assert(!type_name_is_integer(key));
        assert(!type_name_is_float(key));
        assert(!type_name_is_text(key));
        assert(!type_name_is_boolean(key));
        assert(!type_name_is_timestamp(key));
        assert(!type_name_is_date(key));
        assert(!type_name_is_time(key));
        assert(!type_name_is_binary(key));
        assert(!type_name_is_array(key));
        lemma_type_name_entry(30);
        assert(spec_type_name_table()[30] == ("jsonb", CanonicalType::Json));
    } else if key == "variant"@ {
        assert("variant"@[0] != "integer"@[0]);
        assert("variant"@[0] != "tinyint"@[0]);
        assert("variant"@[0] != "decimal"@[0]);
        assert("variant"@[0] != "numeric"@[0]);
        assert("variant"@[3] != "varchar"@[3]);
        assert("variant"@[0] != "boolean"@[0]);
        assert(!type_name_is_integer(key));
        assert(!type_name_is_float(key));
        assert(!type_name_is_text(key));
        assert(!type_name_is_boolean(key));
        assert(!type_name_is_timestamp(key));
        assert(!type_name_is_date(key));
        assert(!type_name_is_time(key));
        assert(!type_name_is_binary(key));
        assert(!type_name_is_array(key));
        lemma_type_name_entry(31);
        assert(spec_type_name_table()[31] == ("variant", CanonicalType::Json));
    } else if key == "object"@ {
        assert("object"@[0] != "bigint"@[0]);
        assert("object"@[0] != "float4"@[0]);
        assert("object"@[0] != "float8"@[0]);
        assert("object"@[0] != "double"@[0]);
        assert("object"@[0] != "number"@[0]);
        assert("object"@[0] != "string"@[0]);
        assert("object"@[0] != "timetz"@[0]);
        assert("object"@[0] != "binary"@[0]);
        assert(!type_name_is_integer(key));
        assert(!type_name_is_float(key));
        assert(!type_name_is_text(key));
        assert(!type_name_is_boolean(key));
        assert(!type_name_is_timestamp(key));
        assert(!type_name_is_date(key));
        assert(!type_name_is_time(key));
        assert(!type_name_is_binary(key));
        assert(!type_name_is_array(key));
        lemma_type_name_entry(32);
        assert(spec_type_name_table()[32] == ("object", CanonicalType::Json));
    } else if key == "array"@ {
        assert("array"@[0] != "int64"@[0]);
        assert("array"@[0] != "float"@[0]);
        assert("array"@[0] != "nchar"@[0]);
        assert("array"@[0] != "bytea"@[0]);
        assert("array"@[0] != "bytes"@[0]);
        assert("array"@[0] != "jsonb"@[0]);
        assert(!type_name_is_integer(key));
        assert(!type_name_is_float(key));
        assert(!type_name_is_text(key));
        assert(!type_name_is_boolean(key));
        assert(!type_name_is_timestamp(key));
        assert(!type_name_is_date(key));
        assert(!type_name_is_time(key));
        assert(!type_name_is_binary(key));
        assert(!type_name_is_json(key));
        lemma_type_name_entry(9);
        assert(spec_type_name_table()[9] == ("array", CanonicalType::Array));
    } else {
        lemma_type_name_absent(key);
    }
}

/// The widening conversions: integers to floats, dates to timestamps, and
/// booleans to integers.
pub open spec fn is_widening(from: CanonicalType, to: CanonicalType) -> bool {
    ||| from == CanonicalType::Integer && to == CanonicalType::Float
    ||| from == CanonicalType::Date && to == CanonicalType::Timestamp
    ||| from == CanonicalType::Boolean && to == CanonicalType::Integer
}

/// A value converts implicitly exactly to its own type, to text (unless it is
/// binary or an array), and along a widening conversion; a widening never
/// converts back implicitly.
pub proof fn law_implicit_casts_are_identity_text_or_widening(from: CanonicalType, to: CanonicalType)
    ensures
        spec_can_implicitly_cast(from, to) <==> (from == to || (to == CanonicalType::Text && from != CanonicalType::Binary
            && from != CanonicalType::Array) || is_widening(from, to)),
        is_widening(from, to) ==> !spec_can_implicitly_cast(to, from),
{
}

} // verus!
