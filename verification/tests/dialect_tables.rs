use flowscope_core::generated::{
    all_function_signatures, can_implicitly_cast, dialect_type_name, get_function_signature,
    infer_function_return_type, is_aggregate_function, is_udtf_function, is_value_table_function,
    is_window_function, normalize_type_name, skip_args_for_function, CanonicalType,
    FunctionCategory, NormalizationStrategy, NullOrdering, ReturnTypeRule,
};
use flowscope_core::Dialect;
use std::borrow::Cow;

#[test]
fn lowercase_strategy_folds_identifiers() {
    assert_eq!(NormalizationStrategy::Lowercase.apply("MyTable"), "mytable");
    assert_eq!(NormalizationStrategy::Uppercase.apply("MyTable"), "MYTABLE");
    assert_eq!(NormalizationStrategy::CaseSensitive.apply("MyTable"), "MyTable");
    assert_eq!(NormalizationStrategy::CaseInsensitive.apply("MyTable"), "mytable");
}

#[test]
fn dialect_normalization_strategies() {
    assert_eq!(Dialect::Postgres.normalization_strategy(), NormalizationStrategy::Lowercase);
    assert_eq!(Dialect::Snowflake.normalization_strategy(), NormalizationStrategy::Uppercase);
    assert_eq!(Dialect::Clickhouse.normalization_strategy(), NormalizationStrategy::CaseSensitive);
    assert!(Dialect::Bigquery.has_custom_normalization());
    assert!(!Dialect::Postgres.has_custom_normalization());
}

#[test]
fn redshift_folds_to_lowercase() {
    assert_eq!(Dialect::Redshift.normalization_strategy(), NormalizationStrategy::Lowercase);
    assert_eq!(Dialect::Redshift.normalization_strategy().apply("Sales"), "sales");
}

#[test]
fn apply_borrows_when_nothing_changes() {
    assert!(matches!(NormalizationStrategy::CaseSensitive.apply("MyTable"), Cow::Borrowed("MyTable")));
    assert!(matches!(NormalizationStrategy::Lowercase.apply("mytable"), Cow::Borrowed("mytable")));
    assert!(matches!(NormalizationStrategy::Uppercase.apply("MYTABLE"), Cow::Borrowed("MYTABLE")));
    assert!(matches!(NormalizationStrategy::Lowercase.apply("MyTable"), Cow::Owned(_)));
    assert!(matches!(NormalizationStrategy::CaseInsensitive.apply("ABC"), Cow::Owned(_)));
    assert!(matches!(NormalizationStrategy::Uppercase.apply("MyTable"), Cow::Owned(_)));
}

#[test]
fn dialect_pseudocolumns_and_quotes() {
    assert!(Dialect::Oracle.pseudocolumns().contains(&"ROWNUM"));
    assert!(Dialect::Postgres.pseudocolumns().is_empty());
    assert_eq!(Dialect::Bigquery.identifier_quotes(), &["`"]);
}

#[test]
fn skip_args_for_snowflake_datediff() {
    assert_eq!(skip_args_for_function(Dialect::Snowflake, "DATEDIFF"), &[0]);
    assert_eq!(
        skip_args_for_function(Dialect::Snowflake, "DATEADD"),
        skip_args_for_function(Dialect::Snowflake, "DATE_ADD")
    );
    assert_eq!(skip_args_for_function(Dialect::Bigquery, "date_trunc"), &[1]);
    assert!(skip_args_for_function(Dialect::Postgres, "datediff").is_empty());
    assert_eq!(skip_args_for_function(Dialect::Generic, "EXTRACT"), &[0]);
}

#[test]
fn null_ordering_and_unnest() {
    assert_eq!(Dialect::Postgres.null_ordering(), NullOrdering::NullsAreLarge);
    assert_eq!(Dialect::Mysql.null_ordering(), NullOrdering::NullsAreSmall);
    assert_eq!(Dialect::Duckdb.null_ordering(), NullOrdering::NullsAreLast);
    assert!(Dialect::Bigquery.supports_implicit_unnest());
    assert!(!Dialect::Postgres.supports_implicit_unnest());
}

#[test]
fn value_table_functions() {
    assert!(is_value_table_function(Dialect::Postgres, "UNNEST"));
    assert!(is_value_table_function(Dialect::Snowflake, "FLATTEN"));
    assert!(!is_value_table_function(Dialect::Postgres, "COUNT"));
    assert!(is_value_table_function(Dialect::Postgres, "unnest"));
    assert!(is_value_table_function(Dialect::Snowflake, "Flatten"));
}

#[test]
fn function_classification() {
    assert!(is_aggregate_function("SUM"));
    assert!(is_aggregate_function("count"));
    assert!(!is_aggregate_function("upper"));
    assert!(is_window_function("ROW_NUMBER"));
    assert!(!is_window_function("sum_of_nothing"));
    assert!(is_udtf_function("EXPLODE"));
    assert!(is_udtf_function("unnest"));
    assert!(!is_udtf_function("sum"));
}

#[test]
fn return_type_inference() {
    assert_eq!(infer_function_return_type("COUNT"), Some(ReturnTypeRule::Integer));
    assert_eq!(infer_function_return_type("MIN"), Some(ReturnTypeRule::MatchFirstArg));
    assert_eq!(infer_function_return_type("UNKNOWN_FUNC"), None);
}

#[test]
fn count_signature_is_formatted() {
    let sig = get_function_signature("COUNT").expect("count signature");
    assert_eq!(sig.name, "count");
    assert_eq!(sig.display_name, "COUNT");
    assert_eq!(sig.category, FunctionCategory::Aggregate);
    assert_eq!(sig.format_signature(), "COUNT([this], [expressions], [big_int]) \u{2192} INTEGER");
    let abs = get_function_signature("abs").expect("abs signature");
    assert_eq!(abs.format_signature(), "ABS(this)");
    assert!(get_function_signature("no_such_function").is_none());
}

#[test]
fn all_signatures_are_listed_by_name() {
    let all = all_function_signatures();
    assert!(all.len() > 400);
    assert!(all.iter().any(|s| s.name == "count"));
    for s in &all {
        assert_eq!(get_function_signature(s.name).map(|t| t.name), Some(s.name));
    }
}

#[test]
fn type_names_normalize() {
    assert_eq!(normalize_type_name("INT64"), Some(CanonicalType::Integer));
    assert_eq!(normalize_type_name("varchar"), Some(CanonicalType::Text));
    assert_eq!(normalize_type_name("UNKNOWN_TYPE"), None);
    assert_eq!(normalize_type_name("TimestampTZ"), Some(CanonicalType::Timestamp));
    assert_eq!(CanonicalType::Integer.as_str(), "integer");
    assert_eq!(CanonicalType::Integer.as_uppercase_str(), "INTEGER");
    assert_eq!(CanonicalType::Json.to_display_string(), "JSON");
}

#[test]
fn implicit_casts() {
    assert!(can_implicitly_cast(CanonicalType::Integer, CanonicalType::Float));
    assert!(!can_implicitly_cast(CanonicalType::Float, CanonicalType::Integer));
    assert!(can_implicitly_cast(CanonicalType::Text, CanonicalType::Text));
    assert!(can_implicitly_cast(CanonicalType::Boolean, CanonicalType::Integer));
    assert!(!can_implicitly_cast(CanonicalType::Binary, CanonicalType::Text));
}

#[test]
fn dialect_type_names() {
    assert_eq!(dialect_type_name(Dialect::Bigquery, CanonicalType::Integer), "INT64");
    assert_eq!(dialect_type_name(Dialect::Postgres, CanonicalType::Text), "text");
    assert_eq!(dialect_type_name(Dialect::Mssql, CanonicalType::Boolean), "BIT");
    assert_eq!(dialect_type_name(Dialect::Generic, CanonicalType::Date), "DATE");
}

#[test]
fn canonical_type_names_round_trip() {
    let all = [
        CanonicalType::Integer,
        CanonicalType::Float,
        CanonicalType::Text,
        CanonicalType::Boolean,
        CanonicalType::Timestamp,
        CanonicalType::Date,
        CanonicalType::Time,
        CanonicalType::Binary,
        CanonicalType::Json,
        CanonicalType::Array,
    ];
    for t in all {
        assert_eq!(normalize_type_name(t.as_str()), Some(t));
        assert_eq!(normalize_type_name(t.as_uppercase_str()), Some(t));
        assert_eq!(t.as_uppercase_str().to_ascii_lowercase(), t.as_str());
    }
}

#[test]
fn type_names_are_matched_whole_and_case_insensitively() {
    assert_eq!(normalize_type_name("TimestampTZ"), Some(CanonicalType::Timestamp));
    assert_eq!(normalize_type_name("VARCHAR(255)"), None);
    assert_eq!(normalize_type_name(" int"), None);
    assert_eq!(normalize_type_name("bytea"), normalize_type_name("BYTEA"));
}

#[test]
fn listed_signatures_are_found_by_name() {
    for sig in all_function_signatures() {
        let found = get_function_signature(&sig.name.to_ascii_uppercase()).unwrap();
        assert_eq!(found.name, sig.name);
    }
}
