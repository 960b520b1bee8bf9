//! Function classification sets and signatures.
//!
//! SQL function names categorized by their behavior (aggregate, window,
//! table-generating), return type rules, and the signatures used for completion.

use vstd::prelude::*;

use crate::text::{ascii_lower, ascii_upper, first_value_for, list_contains, lookup_static, seq_has_str, string_of, str_eq, to_ascii_lowercase};

verus! {

/// Aggregate functions (57 total).
pub fn aggregate_functions() -> (r: &'static [&'static str])
    ensures
        r@ == spec_aggregate_functions(),
{
    &[
        "agg_func",
        "ai_agg",
        "ai_summarize_agg",
        "any_value",
        "approx_distinct",
        "approx_quantile",
        "approx_quantiles",
        "approx_top_k",
        "approx_top_k_accumulate",
        "approx_top_k_combine",
        "approx_top_sum",
        "approximate_similarity",
        "arg_max",
        "arg_min",
        "array_agg",
        "array_concat_agg",
        "array_union_agg",
        "array_unique_agg",
        "avg",
        "bitmap_construct_agg",
        "bitmap_or_agg",
        "bitwise_and_agg",
        "bitwise_or_agg",
        "bitwise_xor_agg",
        "boolxor_agg",
        "combined_agg_func",
        "combined_parameterized_agg",
        "corr",
        "count",
        "count_if",
        "covar_pop",
        "covar_samp",
        "first",
        "group_concat",
        "grouping",
        "grouping_id",
        "hll",
        "json_object_agg",
        "jsonb_object_agg",
        "last",
        "logical_and",
        "logical_or",
        "max",
        "median",
        "min",
        "minhash",
        "minhash_combine",
        "object_agg",
        "parameterized_agg",
        "quantile",
        "skewness",
        "stddev",
        "stddev_pop",
        "stddev_samp",
        "sum",
        "variance",
        "variance_pop",
    ]
}

/// Aggregate functions (57 total).
pub open spec fn spec_aggregate_functions() -> Seq<&'static str> {
    seq![
        "agg_func",
        "ai_agg",
        "ai_summarize_agg",
        "any_value",
        "approx_distinct",
        "approx_quantile",
        "approx_quantiles",
        "approx_top_k",
        "approx_top_k_accumulate",
        "approx_top_k_combine",
        "approx_top_sum",
        "approximate_similarity",
        "arg_max",
        "arg_min",
        "array_agg",
        "array_concat_agg",
        "array_union_agg",
        "array_unique_agg",
        "avg",
        "bitmap_construct_agg",
        "bitmap_or_agg",
        "bitwise_and_agg",
        "bitwise_or_agg",
        "bitwise_xor_agg",
        "boolxor_agg",
        "combined_agg_func",
        "combined_parameterized_agg",
        "corr",
        "count",
        "count_if",
        "covar_pop",
        "covar_samp",
        "first",
        "group_concat",
        "grouping",
        "grouping_id",
        "hll",
        "json_object_agg",
        "jsonb_object_agg",
        "last",
        "logical_and",
        "logical_or",
        "max",
        "median",
        "min",
        "minhash",
        "minhash_combine",
        "object_agg",
        "parameterized_agg",
        "quantile",
        "skewness",
        "stddev",
        "stddev_pop",
        "stddev_samp",
        "sum",
        "variance",
        "variance_pop",
    ]
}

/// Window functions (13 total).
pub fn window_functions() -> (r: &'static [&'static str])
    ensures
        r@ == spec_window_functions(),
{
    &[
        "cume_dist",
        "dense_rank",
        "first_value",
        "lag",
        "last_value",
        "lead",
        "nth_value",
        "ntile",
        "percent_rank",
        "percentile_cont",
        "percentile_disc",
        "rank",
        "row_number",
    ]
}

/// Window functions (13 total).
pub open spec fn spec_window_functions() -> Seq<&'static str> {
    seq![
        "cume_dist",
        "dense_rank",
        "first_value",
        "lag",
        "last_value",
        "lead",
        "nth_value",
        "ntile",
        "percent_rank",
        "percentile_cont",
        "percentile_disc",
        "rank",
        "row_number",
    ]
}

/// Table-generating functions / UDTFs (5 total).
pub fn udtf_functions() -> (r: &'static [&'static str])
    ensures
        r@ == spec_udtf_functions(),
{
    &[
        "explode",
        "explode_outer",
        "posexplode",
        "posexplode_outer",
        "unnest",
    ]
}

/// Table-generating functions / UDTFs (5 total).
pub open spec fn spec_udtf_functions() -> Seq<&'static str> {
    seq![
        "explode",
        "explode_outer",
        "posexplode",
        "posexplode_outer",
        "unnest",
    ]
}

/// Checks if a function is an aggregate function (e.g., SUM, COUNT, AVG).
///
/// The check is case-insensitive (ASCII).
pub fn is_aggregate_function(name: &str) -> (r: bool)
    ensures
        r == seq_has_str(spec_aggregate_functions(), ascii_lower(name@)),
{
    let lower = to_ascii_lowercase(name);
    list_contains(aggregate_functions(), lower.as_str())
}

/// Checks if a function is a window function (e.g., ROW_NUMBER, RANK, LAG).
///
/// The check is case-insensitive (ASCII).
pub fn is_window_function(name: &str) -> (r: bool)
    ensures
        r == seq_has_str(spec_window_functions(), ascii_lower(name@)),
{
    let lower = to_ascii_lowercase(name);
    list_contains(window_functions(), lower.as_str())
}

/// Checks if a function is a table-generating function / UDTF (e.g., UNNEST, EXPLODE).
///
/// The check is case-insensitive (ASCII).
pub fn is_udtf_function(name: &str) -> (r: bool)
    ensures
        r == seq_has_str(spec_udtf_functions(), ascii_lower(name@)),
{
    let lower = to_ascii_lowercase(name);
    list_contains(udtf_functions(), lower.as_str())
}

/// Return type rule for function type inference.
#[derive(Debug, Clone, Copy, PartialEq, Eq, Structural)]
pub enum ReturnTypeRule {
    /// Returns Integer (e.g., COUNT, ROW_NUMBER)
    Integer,
    /// Returns Number (e.g., SUM, AVG)
    Numeric,
    /// Returns Text (e.g., CONCAT, SUBSTRING)
    Text,
    /// Returns Timestamp (e.g., NOW, CURRENT_TIMESTAMP)
    Timestamp,
    /// Returns Boolean (e.g., AND, OR)
    Boolean,
    /// Returns Date (e.g., CURRENT_DATE)
    Date,
    /// Returns same type as first argument (e.g., MIN, MAX, COALESCE)
    MatchFirstArg,
}

/// Functions with a known return type rule (lowercase names).
pub fn return_type_rules() -> (r: &'static [(&'static str, ReturnTypeRule)])
    ensures
        r@ == spec_return_type_rules(),
{
    &[
        ("and", ReturnTypeRule::Boolean),
        ("any_value", ReturnTypeRule::MatchFirstArg),
        ("avg", ReturnTypeRule::Numeric),
        ("coalesce", ReturnTypeRule::MatchFirstArg),
        ("concat", ReturnTypeRule::Text),
        ("concat_ws", ReturnTypeRule::Text),
        ("count", ReturnTypeRule::Integer),
        ("current_date", ReturnTypeRule::Date),
        ("current_timestamp", ReturnTypeRule::Timestamp),
        ("date_trunc", ReturnTypeRule::MatchFirstArg),
        ("dense_rank", ReturnTypeRule::Integer),
        ("first_value", ReturnTypeRule::MatchFirstArg),
        ("lag", ReturnTypeRule::MatchFirstArg),
        ("last_value", ReturnTypeRule::MatchFirstArg),
        ("lead", ReturnTypeRule::MatchFirstArg),
        ("lower", ReturnTypeRule::Text),
        ("max", ReturnTypeRule::MatchFirstArg),
        ("min", ReturnTypeRule::MatchFirstArg),
        ("now", ReturnTypeRule::Timestamp),
        ("ntile", ReturnTypeRule::Integer),
        ("or", ReturnTypeRule::Boolean),
        ("rank", ReturnTypeRule::Integer),
        ("replace", ReturnTypeRule::Text),
        ("row_number", ReturnTypeRule::Integer),
        ("substring", ReturnTypeRule::Text),
        ("sum", ReturnTypeRule::Numeric),
        ("trim", ReturnTypeRule::Text),
        ("upper", ReturnTypeRule::Text),
    ]
}

/// Functions with a known return type rule (lowercase names).
pub open spec fn spec_return_type_rules() -> Seq<(&'static str, ReturnTypeRule)> {
    seq![
        ("and", ReturnTypeRule::Boolean),
        ("any_value", ReturnTypeRule::MatchFirstArg),
        ("avg", ReturnTypeRule::Numeric),
        ("coalesce", ReturnTypeRule::MatchFirstArg),
        ("concat", ReturnTypeRule::Text),
        ("concat_ws", ReturnTypeRule::Text),
        ("count", ReturnTypeRule::Integer),
        ("current_date", ReturnTypeRule::Date),
        ("current_timestamp", ReturnTypeRule::Timestamp),
        ("date_trunc", ReturnTypeRule::MatchFirstArg),
        ("dense_rank", ReturnTypeRule::Integer),
        ("first_value", ReturnTypeRule::MatchFirstArg),
        ("lag", ReturnTypeRule::MatchFirstArg),
        ("last_value", ReturnTypeRule::MatchFirstArg),
        ("lead", ReturnTypeRule::MatchFirstArg),
        ("lower", ReturnTypeRule::Text),
        ("max", ReturnTypeRule::MatchFirstArg),
        ("min", ReturnTypeRule::MatchFirstArg),
        ("now", ReturnTypeRule::Timestamp),
        ("ntile", ReturnTypeRule::Integer),
        ("or", ReturnTypeRule::Boolean),
        ("rank", ReturnTypeRule::Integer),
        ("replace", ReturnTypeRule::Text),
        ("row_number", ReturnTypeRule::Integer),
        ("substring", ReturnTypeRule::Text),
        ("sum", ReturnTypeRule::Numeric),
        ("trim", ReturnTypeRule::Text),
        ("upper", ReturnTypeRule::Text),
    ]
}

/// Infers the return type rule for a SQL function, case-insensitively (ASCII).
///
/// `None` when the function has no known rule.
pub fn infer_function_return_type(name: &str) -> (r: Option<ReturnTypeRule>)
    ensures
        r == first_value_for(spec_return_type_rules(), ascii_lower(name@)),
{
    let lower = to_ascii_lowercase(name);
    lookup_static(return_type_rules(), lower.as_str())
}

/// Function category for completion context filtering.
#[derive(Debug, Clone, Copy, PartialEq, Eq, Structural)]
pub enum FunctionCategory {
    /// Aggregate functions (SUM, COUNT, AVG, etc.)
    Aggregate,
    /// Window functions (ROW_NUMBER, RANK, LAG, etc.)
    Window,
    /// Scalar functions (LOWER, CONCAT, ABS, etc.)
    Scalar,
}

/// Function parameter information for completion.
#[derive(Debug, Clone, Copy)]
pub struct FunctionParam {
    /// Parameter name (e.g., "expression", "separator")
    pub name: &'static str,
    /// Whether this parameter is required
    pub required: bool,
}

/// Function signature for smart completion.
#[derive(Debug, Clone, Copy)]
pub struct FunctionSignature {
    /// Function name in lowercase (for lookup)
    pub name: &'static str,
    /// Display name in uppercase (for completion label)
    pub display_name: &'static str,
    /// Function parameters
    pub params: &'static [FunctionParam],
    /// Return type rule, if known
    pub return_type: Option<ReturnTypeRule>,
    /// Function category
    pub category: FunctionCategory,
}

/// How a return type rule is written in a signature.
pub open spec fn spec_return_rule_label(rt: ReturnTypeRule) -> &'static str {
    match rt {
        ReturnTypeRule::Integer => "INTEGER",
        ReturnTypeRule::Numeric => "NUMERIC",
        ReturnTypeRule::Text => "TEXT",
        ReturnTypeRule::Timestamp => "TIMESTAMP",
        ReturnTypeRule::Boolean => "BOOLEAN",
        ReturnTypeRule::Date => "DATE",
        ReturnTypeRule::MatchFirstArg => "T",
    }
}

/// How a return type rule is written in a signature.
pub fn return_rule_label(rt: ReturnTypeRule) -> (r: &'static str)
    ensures
        r == spec_return_rule_label(rt),
{
    match rt {
        ReturnTypeRule::Integer => "INTEGER",
        ReturnTypeRule::Numeric => "NUMERIC",
        ReturnTypeRule::Text => "TEXT",
        ReturnTypeRule::Timestamp => "TIMESTAMP",
        ReturnTypeRule::Boolean => "BOOLEAN",
        ReturnTypeRule::Date => "DATE",
        ReturnTypeRule::MatchFirstArg => "T",
    }
}

/// A parameter as shown in a signature: optional parameters are bracketed.
pub open spec fn spec_format_param(p: FunctionParam) -> Seq<char> {
    if p.required {
        p.name@
    } else {
        "["@ + p.name@ + "]"@
    }
}

/// The parameters of a signature, separated by `", "`.
pub open spec fn spec_join_params(ps: Seq<FunctionParam>) -> Seq<char>
    decreases ps.len(),
{
    if ps.len() == 0 {
        Seq::empty()
    } else if ps.len() == 1 {
        spec_format_param(ps[0])
    } else {
        spec_join_params(ps.drop_last()) + ", "@ + spec_format_param(ps.last())
    }
}

/// The text of a signature: `NAME(params)`, followed by ` \u{2192} TYPE` when the return rule is known.
pub open spec fn spec_format_signature(sig: FunctionSignature) -> Seq<char> {
    sig.display_name@ + "("@ + spec_join_params(sig.params@) + ")"@ + match sig.return_type {
        Some(rt) => " \u{2192} "@ + spec_return_rule_label(rt)@,
        None => Seq::empty(),
    }
}

impl FunctionSignature {
    /// Formats the function signature as "NAME(params) \u{2192} TYPE".
    pub fn format_signature(&self) -> (r: String)
        ensures
            r@ == spec_format_signature(*self),
    {
        let mut params_str = String::new();
        let n = self.params.len();
        let mut i: usize = 0;
        while i < n
            invariant
                n == self.params@.len(),
                0 <= i <= n,
                params_str@ == spec_join_params(self.params@.take(i as int)),
            decreases n - i,
        {
            let p = self.params[i];
            let ghost before = params_str@;
            assert(self.params@.take(i + 1).drop_last() =~= self.params@.take(i as int));
            assert(self.params@.take(i + 1).last() == p);
            if i > 0 {
                params_str.append(", ");
            }
            if p.required {
                params_str.append(p.name);
            } else {
                params_str.append("[");
                params_str.append(p.name);
                params_str.append("]");
            }
            proof {
                if i == 0 {
                    assert(self.params@.take(1) =~= seq![p]);
                    assert(before =~= Seq::<char>::empty());
                    assert(params_str@ =~= spec_format_param(p));
                } else {
                    assert(params_str@ =~= before + ", "@ + spec_format_param(p));
                }
            }
            i = i + 1;
        }
        assert(self.params@.take(n as int) =~= self.params@);
        let mut r = string_of(self.display_name);
        r.append("(");
        r.append(params_str.as_str());
        r.append(")");
        match self.return_type {
            Some(rt) => {
                r.append(" \u{2192} ");
                r.append(return_rule_label(rt));
            },
            None => {},
        }
        assert(r@ =~= spec_format_signature(*self));
        r
    }
}

/// Every known function signature, keyed by lowercase name.
pub fn function_signature_table() -> (r: &'static [FunctionSignature])
    ensures
        r@ == spec_function_signature_table(),
{
    &[
        FunctionSignature {
            name: "abs",
            display_name: "ABS",
            params: &[FunctionParam { name: "this", required: true }],
            return_type: None,
            category: FunctionCategory::Scalar,
        },
        FunctionSignature {
            name: "acos",
            display_name: "ACOS",
            params: &[FunctionParam { name: "this", required: true }],
            return_type: None,
            category: FunctionCategory::Scalar,
        },
        FunctionSignature {
            name: "acosh",
            display_name: "ACOSH",
            params: &[FunctionParam { name: "this", required: true }],
            return_type: None,
            category: FunctionCategory::Scalar,
        },
        FunctionSignature {
            name: "add_months",
            display_name: "ADD_MONTHS",
            params: &[FunctionParam { name: "this", required: true }, FunctionParam { name: "expression", required: true }],
            return_type: None,
            category: FunctionCategory::Scalar,
        },
        FunctionSignature {
            name: "agg_func",
            display_name: "AGG_FUNC",
            params: &[FunctionParam { name: "this", required: true }],
            return_type: None,
            category: FunctionCategory::Aggregate,
        },
        FunctionSignature {
            name: "ai_agg",
            display_name: "AI_AGG",
            params: &[FunctionParam { name: "this", required: true }, FunctionParam { name: "expression", required: true }],
            return_type: None,
            category: FunctionCategory::Aggregate,
        },
        FunctionSignature {
            name: "ai_classify",
            display_name: "AI_CLASSIFY",
            params: &[FunctionParam { name: "this", required: true }, FunctionParam { name: "categories", required: true }, FunctionParam { name: "config", required: false }],
            return_type: None,
            category: FunctionCategory::Scalar,
        },
        FunctionSignature {
            name: "ai_summarize_agg",
            display_name: "AI_SUMMARIZE_AGG",
            params: &[FunctionParam { name: "this", required: true }],
            return_type: None,
            category: FunctionCategory::Aggregate,
        },
        FunctionSignature {
            name: "and",
            display_name: "AND",
            params: &[FunctionParam { name: "this", required: true }, FunctionParam { name: "expression", required: true }],
            return_type: Some(ReturnTypeRule::Boolean),
            category: FunctionCategory::Scalar,
        },
        FunctionSignature {
            name: "any_value",
            display_name: "ANY_VALUE",
            params: &[FunctionParam { name: "this", required: true }],
            return_type: Some(ReturnTypeRule::MatchFirstArg),
            category: FunctionCategory::Aggregate,
        },
        FunctionSignature {
            name: "apply",
            display_name: "APPLY",
            params: &[FunctionParam { name: "this", required: true }, FunctionParam { name: "expression", required: true }],
            return_type: None,
            category: FunctionCategory::Scalar,
        },
        FunctionSignature {
            name: "approximate_similarity",
            display_name: "APPROXIMATE_SIMILARITY",
            params: &[FunctionParam { name: "this", required: true }],
            return_type: None,
            category: FunctionCategory::Aggregate,
        },
        FunctionSignature {
            name: "approx_distinct",
            display_name: "APPROX_DISTINCT",
            params: &[FunctionParam { name: "this", required: true }, FunctionParam { name: "accuracy", required: false }],
            return_type: None,
            category: FunctionCategory::Aggregate,
        },
        FunctionSignature {
            name: "approx_quantile",
            display_name: "APPROX_QUANTILE",
            params: &[FunctionParam { name: "this", required: true }, FunctionParam { name: "quantile", required: true }, FunctionParam { name: "accuracy", required: false }, FunctionParam { name: "weight", required: false }, FunctionParam { name: "error_tolerance", required: false }],
            return_type: None,
            category: FunctionCategory::Aggregate,
        },
        FunctionSignature {
            name: "approx_quantiles",
            display_name: "APPROX_QUANTILES",
            params: &[FunctionParam { name: "this", required: true }, FunctionParam { name: "expression", required: false }],
            return_type: None,
            category: FunctionCategory::Aggregate,
        },
        FunctionSignature {
            name: "approx_top_k",
            display_name: "APPROX_TOP_K",
            params: &[FunctionParam { name: "this", required: true }, FunctionParam { name: "expression", required: false }, FunctionParam { name: "counters", required: false }],
            return_type: None,
            category: FunctionCategory::Aggregate,
        },
        FunctionSignature {
            name: "approx_top_k_accumulate",
            display_name: "APPROX_TOP_K_ACCUMULATE",
            params: &[FunctionParam { name: "this", required: true }, FunctionParam { name: "expression", required: false }],
            return_type: None,
            category: FunctionCategory::Aggregate,
        },
        FunctionSignature {
            name: "approx_top_k_combine",
            display_name: "APPROX_TOP_K_COMBINE",
            params: &[FunctionParam { name: "this", required: true }, FunctionParam { name: "expression", required: false }],
            return_type: None,
            category: FunctionCategory::Aggregate,
        },
        FunctionSignature {
            name: "approx_top_sum",
            display_name: "APPROX_TOP_SUM",
            params: &[FunctionParam { name: "this", required: true }, FunctionParam { name: "expression", required: true }, FunctionParam { name: "count", required: true }],
            return_type: None,
            category: FunctionCategory::Aggregate,
        },
        FunctionSignature {
            name: "arg_max",
            display_name: "ARG_MAX",
            params: &[FunctionParam { name: "this", required: true }, FunctionParam { name: "expression", required: true }, FunctionParam { name: "count", required: false }],
            return_type: None,
            category: FunctionCategory::Aggregate,
        },
        FunctionSignature {
            name: "arg_min",
            display_name: "ARG_MIN",
            params: &[FunctionParam { name: "this", required: true }, FunctionParam { name: "expression", required: true }, FunctionParam { name: "count", required: false }],
            return_type: None,
            category: FunctionCategory::Aggregate,
        },
        FunctionSignature {
            name: "array",
            display_name: "ARRAY",
            params: &[FunctionParam { name: "expressions", required: false }],
            return_type: None,
            category: FunctionCategory::Scalar,
        },
        FunctionSignature {
            name: "array_agg",
            display_name: "ARRAY_AGG",
            params: &[FunctionParam { name: "this", required: true }],
            return_type: None,
            category: FunctionCategory::Aggregate,
        },
        FunctionSignature {
            name: "array_all",
            display_name: "ARRAY_ALL",
            params: &[FunctionParam { name: "this", required: true }, FunctionParam { name: "expression", required: true }],
            return_type: None,
            category: FunctionCategory::Scalar,
        },
        FunctionSignature {
            name: "array_any",
            display_name: "ARRAY_ANY",
            params: &[FunctionParam { name: "this", required: true }, FunctionParam { name: "expression", required: true }],
            return_type: None,
            category: FunctionCategory::Scalar,
        },
        FunctionSignature {
            name: "array_concat",
            display_name: "ARRAY_CONCAT",
            params: &[FunctionParam { name: "this", required: true }, FunctionParam { name: "expressions", required: false }],
            return_type: None,
            category: FunctionCategory::Scalar,
        },
        FunctionSignature {
            name: "array_concat_agg",
            display_name: "ARRAY_CONCAT_AGG",
            params: &[FunctionParam { name: "this", required: true }],
            return_type: None,
            category: FunctionCategory::Aggregate,
        },
        FunctionSignature {
            name: "array_construct_compact",
            display_name: "ARRAY_CONSTRUCT_COMPACT",
            params: &[FunctionParam { name: "expressions", required: true }],
            return_type: None,
            category: FunctionCategory::Scalar,
        },
        FunctionSignature {
            name: "array_contains",
            display_name: "ARRAY_CONTAINS",
            params: &[FunctionParam { name: "this", required: true }, FunctionParam { name: "expression", required: true }],
            return_type: None,
            category: FunctionCategory::Scalar,
        },
        FunctionSignature {
            name: "array_contains_all",
            display_name: "ARRAY_CONTAINS_ALL",
            params: &[FunctionParam { name: "this", required: true }, FunctionParam { name: "expression", required: true }],
            return_type: None,
            category: FunctionCategory::Scalar,
        },
        FunctionSignature {
            name: "array_filter",
            display_name: "ARRAY_FILTER",
            params: &[FunctionParam { name: "this", required: true }, FunctionParam { name: "expression", required: true }],
            return_type: None,
            category: FunctionCategory::Scalar,
        },
        FunctionSignature {
            name: "array_first",
            display_name: "ARRAY_FIRST",
            params: &[FunctionParam { name: "this", required: true }],
            return_type: None,
            category: FunctionCategory::Scalar,
        },
        FunctionSignature {
            name: "array_intersect",
            display_name: "ARRAY_INTERSECT",
            params: &[FunctionParam { name: "expressions", required: true }],
            return_type: None,
            category: FunctionCategory::Scalar,
        },
        FunctionSignature {
            name: "array_to_string",
            display_name: "ARRAY_TO_STRING",
            params: &[FunctionParam { name: "this", required: true }, FunctionParam { name: "expression", required: true }, FunctionParam { name: "null", required: false }],
            return_type: None,
            category: FunctionCategory::Scalar,
        },
        FunctionSignature {
            name: "array_last",
            display_name: "ARRAY_LAST",
            params: &[FunctionParam { name: "this", required: true }],
            return_type: None,
            category: FunctionCategory::Scalar,
        },
        FunctionSignature {
            name: "array_size",
            display_name: "ARRAY_SIZE",
            params: &[FunctionParam { name: "this", required: true }, FunctionParam { name: "expression", required: false }],
            return_type: None,
            category: FunctionCategory::Scalar,
        },
        FunctionSignature {
            name: "array_overlaps",
            display_name: "ARRAY_OVERLAPS",
            params: &[FunctionParam { name: "this", required: true }, FunctionParam { name: "expression", required: true }],
            return_type: None,
            category: FunctionCategory::Scalar,
        },
        FunctionSignature {
            name: "array_remove",
            display_name: "ARRAY_REMOVE",
            params: &[FunctionParam { name: "this", required: true }, FunctionParam { name: "expression", required: true }],
            return_type: None,
            category: FunctionCategory::Scalar,
        },
        FunctionSignature {
            name: "array_reverse",
            display_name: "ARRAY_REVERSE",
            params: &[FunctionParam { name: "this", required: true }],
            return_type: None,
            category: FunctionCategory::Scalar,
        },
        FunctionSignature {
            name: "array_slice",
            display_name: "ARRAY_SLICE",
            params: &[FunctionParam { name: "this", required: true }, FunctionParam { name: "start", required: true }, FunctionParam { name: "end", required: false }, FunctionParam { name: "step", required: false }],
            return_type: None,
            category: FunctionCategory::Scalar,
        },
        FunctionSignature {
            name: "array_sort",
            display_name: "ARRAY_SORT",
            params: &[FunctionParam { name: "this", required: true }, FunctionParam { name: "expression", required: false }],
            return_type: None,
            category: FunctionCategory::Scalar,
        },
        FunctionSignature {
            name: "array_sum",
            display_name: "ARRAY_SUM",
            params: &[FunctionParam { name: "this", required: true }, FunctionParam { name: "expression", required: false }],
            return_type: None,
            category: FunctionCategory::Scalar,
        },
        FunctionSignature {
            name: "array_union_agg",
            display_name: "ARRAY_UNION_AGG",
            params: &[FunctionParam { name: "this", required: true }],
            return_type: None,
            category: FunctionCategory::Aggregate,
        },
        FunctionSignature {
            name: "array_unique_agg",
            display_name: "ARRAY_UNIQUE_AGG",
            params: &[FunctionParam { name: "this", required: true }],
            return_type: None,
            category: FunctionCategory::Aggregate,
        },
        FunctionSignature {
            name: "ascii",
            display_name: "ASCII",
            params: &[FunctionParam { name: "this", required: true }],
            return_type: None,
            category: FunctionCategory::Scalar,
        },
        FunctionSignature {
            name: "asin",
            display_name: "ASIN",
            params: &[FunctionParam { name: "this", required: true }],
            return_type: None,
            category: FunctionCategory::Scalar,
        },
        FunctionSignature {
            name: "asinh",
            display_name: "ASINH",
            params: &[FunctionParam { name: "this", required: true }],
            return_type: None,
            category: FunctionCategory::Scalar,
        },
        FunctionSignature {
            name: "atan",
            display_name: "ATAN",
            params: &[FunctionParam { name: "this", required: true }, FunctionParam { name: "expression", required: false }],
            return_type: None,
            category: FunctionCategory::Scalar,
        },
        FunctionSignature {
            name: "atan2",
            display_name: "ATAN2",
            params: &[FunctionParam { name: "this", required: true }, FunctionParam { name: "expression", required: true }],
            return_type: None,
            category: FunctionCategory::Scalar,
        },
        FunctionSignature {
            name: "atanh",
            display_name: "ATANH",
            params: &[FunctionParam { name: "this", required: true }],
            return_type: None,
            category: FunctionCategory::Scalar,
        },
        FunctionSignature {
            name: "avg",
            display_name: "AVG",
            params: &[FunctionParam { name: "this", required: true }],
            return_type: Some(ReturnTypeRule::Numeric),
            category: FunctionCategory::Aggregate,
        },
        FunctionSignature {
            name: "base64decode_binary",
            display_name: "BASE64DECODE_BINARY",
            params: &[FunctionParam { name: "this", required: true }, FunctionParam { name: "alphabet", required: false }],
            return_type: None,
            category: FunctionCategory::Scalar,
        },
        FunctionSignature {
            name: "base64decode_string",
            display_name: "BASE64DECODE_STRING",
            params: &[FunctionParam { name: "this", required: true }, FunctionParam { name: "alphabet", required: false }],
            return_type: None,
            category: FunctionCategory::Scalar,
        },
        FunctionSignature {
            name: "base64encode",
            display_name: "BASE64ENCODE",
            params: &[FunctionParam { name: "this", required: true }, FunctionParam { name: "max_line_length", required: false }, FunctionParam { name: "alphabet", required: false }],
            return_type: None,
            category: FunctionCategory::Scalar,
        },
        FunctionSignature {
            name: "bitmap_bit_position",
            display_name: "BITMAP_BIT_POSITION",
            params: &[FunctionParam { name: "this", required: true }],
            return_type: None,
            category: FunctionCategory::Scalar,
        },
        FunctionSignature {
            name: "bitmap_bucket_number",
            display_name: "BITMAP_BUCKET_NUMBER",
            params: &[FunctionParam { name: "this", required: true }],
            return_type: None,
            category: FunctionCategory::Scalar,
        },
        FunctionSignature {
            name: "bitmap_construct_agg",
            display_name: "BITMAP_CONSTRUCT_AGG",
            params: &[FunctionParam { name: "this", required: true }],
            return_type: None,
            category: FunctionCategory::Aggregate,
        },
        FunctionSignature {
            name: "bitmap_count",
            display_name: "BITMAP_COUNT",
            params: &[FunctionParam { name: "this", required: true }],
            return_type: None,
            category: FunctionCategory::Scalar,
        },
        FunctionSignature {
            name: "bitmap_or_agg",
            display_name: "BITMAP_OR_AGG",
            params: &[FunctionParam { name: "this", required: true }],
            return_type: None,
            category: FunctionCategory::Aggregate,
        },
        FunctionSignature {
            name: "bitwise_and_agg",
            display_name: "BITWISE_AND_AGG",
            params: &[FunctionParam { name: "this", required: true }],
            return_type: None,
            category: FunctionCategory::Aggregate,
        },
        FunctionSignature {
            name: "bitwise_count",
            display_name: "BITWISE_COUNT",
            params: &[FunctionParam { name: "this", required: true }],
            return_type: None,
            category: FunctionCategory::Scalar,
        },
        FunctionSignature {
            name: "bitwise_or_agg",
            display_name: "BITWISE_OR_AGG",
            params: &[FunctionParam { name: "this", required: true }],
            return_type: None,
            category: FunctionCategory::Aggregate,
        },
        FunctionSignature {
            name: "bitwise_xor_agg",
            display_name: "BITWISE_XOR_AGG",
            params: &[FunctionParam { name: "this", required: true }],
            return_type: None,
            category: FunctionCategory::Aggregate,
        },
        FunctionSignature {
            name: "bit_length",
            display_name: "BIT_LENGTH",
            params: &[FunctionParam { name: "this", required: true }],
            return_type: None,
            category: FunctionCategory::Scalar,
        },
        FunctionSignature {
            name: "booland",
            display_name: "BOOLAND",
            params: &[FunctionParam { name: "this", required: true }, FunctionParam { name: "expression", required: true }],
            return_type: None,
            category: FunctionCategory::Scalar,
        },
        FunctionSignature {
            name: "logical_and",
            display_name: "LOGICAL_AND",
            params: &[FunctionParam { name: "this", required: true }],
            return_type: None,
            category: FunctionCategory::Aggregate,
        },
        FunctionSignature {
            name: "boolnot",
            display_name: "BOOLNOT",
            params: &[FunctionParam { name: "this", required: true }],
            return_type: None,
            category: FunctionCategory::Scalar,
        },
        FunctionSignature {
            name: "boolor",
            display_name: "BOOLOR",
            params: &[FunctionParam { name: "this", required: true }, FunctionParam { name: "expression", required: true }],
            return_type: None,
            category: FunctionCategory::Scalar,
        },
        FunctionSignature {
            name: "logical_or",
            display_name: "LOGICAL_OR",
            params: &[FunctionParam { name: "this", required: true }],
            return_type: None,
            category: FunctionCategory::Aggregate,
        },
        FunctionSignature {
            name: "boolxor_agg",
            display_name: "BOOLXOR_AGG",
            params: &[FunctionParam { name: "this", required: true }],
            return_type: None,
            category: FunctionCategory::Aggregate,
        },
        FunctionSignature {
            name: "byte_length",
            display_name: "BYTE_LENGTH",
            params: &[FunctionParam { name: "this", required: true }],
            return_type: None,
            category: FunctionCategory::Scalar,
        },
        FunctionSignature {
            name: "case",
            display_name: "CASE",
            params: &[FunctionParam { name: "this", required: false }, FunctionParam { name: "ifs", required: true }, FunctionParam { name: "default", required: false }],
            return_type: None,
            category: FunctionCategory::Scalar,
        },
        FunctionSignature {
            name: "cast",
            display_name: "CAST",
            params: &[FunctionParam { name: "this", required: true }, FunctionParam { name: "to", required: true }, FunctionParam { name: "format", required: false }, FunctionParam { name: "safe", required: false }, FunctionParam { name: "action", required: false }, FunctionParam { name: "default", required: false }],
            return_type: None,
            category: FunctionCategory::Scalar,
        },
        FunctionSignature {
            name: "cast_to_str_type",
            display_name: "CAST_TO_STR_TYPE",
            params: &[FunctionParam { name: "this", required: true }, FunctionParam { name: "to", required: true }],
            return_type: None,
            category: FunctionCategory::Scalar,
        },
        FunctionSignature {
            name: "cbrt",
            display_name: "CBRT",
            params: &[FunctionParam { name: "this", required: true }],
            return_type: None,
            category: FunctionCategory::Scalar,
        },
        FunctionSignature {
            name: "ceil",
            display_name: "CEIL",
            params: &[FunctionParam { name: "this", required: true }, FunctionParam { name: "decimals", required: false }, FunctionParam { name: "to", required: false }],
            return_type: None,
            category: FunctionCategory::Scalar,
        },
        FunctionSignature {
            name: "chr",
            display_name: "CHR",
            params: &[FunctionParam { name: "expressions", required: true }, FunctionParam { name: "charset", required: false }],
            return_type: None,
            category: FunctionCategory::Scalar,
        },
        FunctionSignature {
            name: "length",
            display_name: "LENGTH",
            params: &[FunctionParam { name: "this", required: true }, FunctionParam { name: "binary", required: false }, FunctionParam { name: "encoding", required: false }],
            return_type: None,
            category: FunctionCategory::Scalar,
        },
        FunctionSignature {
            name: "coalesce",
            display_name: "COALESCE",
            params: &[FunctionParam { name: "this", required: true }, FunctionParam { name: "expressions", required: false }, FunctionParam { name: "is_nvl", required: false }, FunctionParam { name: "is_null", required: false }],
            return_type: Some(ReturnTypeRule::MatchFirstArg),
            category: FunctionCategory::Scalar,
        },
        FunctionSignature {
            name: "code_points_to_bytes",
            display_name: "CODE_POINTS_TO_BYTES",
            params: &[FunctionParam { name: "this", required: true }],
            return_type: None,
            category: FunctionCategory::Scalar,
        },
        FunctionSignature {
            name: "code_points_to_string",
            display_name: "CODE_POINTS_TO_STRING",
            params: &[FunctionParam { name: "this", required: true }],
            return_type: None,
            category: FunctionCategory::Scalar,
        },
        FunctionSignature {
            name: "collate",
            display_name: "COLLATE",
            params: &[FunctionParam { name: "this", required: true }, FunctionParam { name: "expression", required: true }],
            return_type: None,
            category: FunctionCategory::Scalar,
        },
        FunctionSignature {
            name: "collation",
            display_name: "COLLATION",
            params: &[FunctionParam { name: "this", required: true }],
            return_type: None,
            category: FunctionCategory::Scalar,
        },
        FunctionSignature {
            name: "columns",
            display_name: "COLUMNS",
            params: &[FunctionParam { name: "this", required: true }, FunctionParam { name: "unpack", required: false }],
            return_type: None,
            category: FunctionCategory::Scalar,
        },
        FunctionSignature {
            name: "combined_agg_func",
            display_name: "COMBINED_AGG_FUNC",
            params: &[FunctionParam { name: "this", required: true }, FunctionParam { name: "expressions", required: false }],
            return_type: None,
            category: FunctionCategory::Aggregate,
        },
        FunctionSignature {
            name: "combined_parameterized_agg",
            display_name: "COMBINED_PARAMETERIZED_AGG",
            params: &[FunctionParam { name: "this", required: true }, FunctionParam { name: "expressions", required: true }, FunctionParam { name: "params", required: true }],
            return_type: None,
            category: FunctionCategory::Aggregate,
        },
        FunctionSignature {
            name: "compress",
            display_name: "COMPRESS",
            params: &[FunctionParam { name: "this", required: true }, FunctionParam { name: "method", required: false }],
            return_type: None,
            category: FunctionCategory::Scalar,
        },
        FunctionSignature {
            name: "concat",
            display_name: "CONCAT",
            params: &[FunctionParam { name: "expressions", required: true }, FunctionParam { name: "safe", required: false }, FunctionParam { name: "coalesce", required: false }],
            return_type: Some(ReturnTypeRule::Text),
            category: FunctionCategory::Scalar,
        },
        FunctionSignature {
            name: "concat_ws",
            display_name: "CONCAT_WS",
            params: &[FunctionParam { name: "expressions", required: true }, FunctionParam { name: "safe", required: false }, FunctionParam { name: "coalesce", required: false }],
            return_type: Some(ReturnTypeRule::Text),
            category: FunctionCategory::Scalar,
        },
        FunctionSignature {
            name: "connect_by_root",
            display_name: "CONNECT_BY_ROOT",
            params: &[FunctionParam { name: "this", required: true }],
            return_type: None,
            category: FunctionCategory::Scalar,
        },
        FunctionSignature {
            name: "contains",
            display_name: "CONTAINS",
            params: &[FunctionParam { name: "this", required: true }, FunctionParam { name: "expression", required: true }, FunctionParam { name: "json_scope", required: false }],
            return_type: None,
            category: FunctionCategory::Scalar,
        },
        FunctionSignature {
            name: "convert",
            display_name: "CONVERT",
            params: &[FunctionParam { name: "this", required: true }, FunctionParam { name: "expression", required: true }, FunctionParam { name: "style", required: false }, FunctionParam { name: "safe", required: false }],
            return_type: None,
            category: FunctionCategory::Scalar,
        },
        FunctionSignature {
            name: "convert_timezone",
            display_name: "CONVERT_TIMEZONE",
            params: &[FunctionParam { name: "source_tz", required: false }, FunctionParam { name: "target_tz", required: true }, FunctionParam { name: "timestamp", required: true }, FunctionParam { name: "options", required: false }],
            return_type: None,
            category: FunctionCategory::Scalar,
        },
        FunctionSignature {
            name: "convert_to_charset",
            display_name: "CONVERT_TO_CHARSET",
            params: &[FunctionParam { name: "this", required: true }, FunctionParam { name: "dest", required: true }, FunctionParam { name: "source", required: false }],
            return_type: None,
            category: FunctionCategory::Scalar,
        },
        FunctionSignature {
            name: "corr",
            display_name: "CORR",
            params: &[FunctionParam { name: "this", required: true }, FunctionParam { name: "expression", required: true }],
            return_type: None,
            category: FunctionCategory::Aggregate,
        },
        FunctionSignature {
            name: "cos",
            display_name: "COS",
            params: &[FunctionParam { name: "this", required: true }],
            return_type: None,
            category: FunctionCategory::Scalar,
        },
        FunctionSignature {
            name: "cosh",
            display_name: "COSH",
            params: &[FunctionParam { name: "this", required: true }],
            return_type: None,
            category: FunctionCategory::Scalar,
        },
        FunctionSignature {
            name: "cosine_distance",
            display_name: "COSINE_DISTANCE",
            params: &[FunctionParam { name: "this", required: true }, FunctionParam { name: "expression", required: true }],
            return_type: None,
            category: FunctionCategory::Scalar,
        },
        FunctionSignature {
            name: "cot",
            display_name: "COT",
            params: &[FunctionParam { name: "this", required: true }],
            return_type: None,
            category: FunctionCategory::Scalar,
        },
        FunctionSignature {
            name: "coth",
            display_name: "COTH",
            params: &[FunctionParam { name: "this", required: true }],
            return_type: None,
            category: FunctionCategory::Scalar,
        },
        FunctionSignature {
            name: "count",
            display_name: "COUNT",
            params: &[FunctionParam { name: "this", required: false }, FunctionParam { name: "expressions", required: false }, FunctionParam { name: "big_int", required: false }],
            return_type: Some(ReturnTypeRule::Integer),
            category: FunctionCategory::Aggregate,
        },
        FunctionSignature {
            name: "count_if",
            display_name: "COUNT_IF",
            params: &[FunctionParam { name: "this", required: true }],
            return_type: None,
            category: FunctionCategory::Aggregate,
        },
        FunctionSignature {
            name: "covar_pop",
            display_name: "COVAR_POP",
            params: &[FunctionParam { name: "this", required: true }, FunctionParam { name: "expression", required: true }],
            return_type: None,
            category: FunctionCategory::Aggregate,
        },
        FunctionSignature {
            name: "covar_samp",
            display_name: "COVAR_SAMP",
            params: &[FunctionParam { name: "this", required: true }, FunctionParam { name: "expression", required: true }],
            return_type: None,
            category: FunctionCategory::Aggregate,
        },
        FunctionSignature {
            name: "csc",
            display_name: "CSC",
            params: &[FunctionParam { name: "this", required: true }],
            return_type: None,
            category: FunctionCategory::Scalar,
        },
        FunctionSignature {
            name: "csch",
            display_name: "CSCH",
            params: &[FunctionParam { name: "this", required: true }],
            return_type: None,
            category: FunctionCategory::Scalar,
        },
        FunctionSignature {
            name: "cume_dist",
            display_name: "CUME_DIST",
            params: &[FunctionParam { name: "expressions", required: false }],
            return_type: None,
            category: FunctionCategory::Window,
        },
        FunctionSignature {
            name: "current_date",
            display_name: "CURRENT_DATE",
            params: &[FunctionParam { name: "this", required: false }],
            return_type: Some(ReturnTypeRule::Date),
            category: FunctionCategory::Scalar,
        },
        FunctionSignature {
            name: "current_datetime",
            display_name: "CURRENT_DATETIME",
            params: &[FunctionParam { name: "this", required: false }],
            return_type: None,
            category: FunctionCategory::Scalar,
        },
        FunctionSignature {
            name: "current_schema",
            display_name: "CURRENT_SCHEMA",
            params: &[FunctionParam { name: "this", required: false }],
            return_type: None,
            category: FunctionCategory::Scalar,
        },
        FunctionSignature {
            name: "current_time",
            display_name: "CURRENT_TIME",
            params: &[FunctionParam { name: "this", required: false }],
            return_type: None,
            category: FunctionCategory::Scalar,
        },
        FunctionSignature {
            name: "current_timestamp",
            display_name: "CURRENT_TIMESTAMP",
            params: &[FunctionParam { name: "this", required: false }, FunctionParam { name: "sysdate", required: false }],
            return_type: Some(ReturnTypeRule::Timestamp),
            category: FunctionCategory::Scalar,
        },
        FunctionSignature {
            name: "current_timestamp_ltz",
            display_name: "CURRENT_TIMESTAMP_LTZ",
            params: &[],
            return_type: None,
            category: FunctionCategory::Scalar,
        },
        FunctionSignature {
            name: "current_user",
            display_name: "CURRENT_USER",
            params: &[FunctionParam { name: "this", required: false }],
            return_type: None,
            category: FunctionCategory::Scalar,
        },
        FunctionSignature {
            name: "date",
            display_name: "DATE",
            params: &[FunctionParam { name: "this", required: false }, FunctionParam { name: "zone", required: false }, FunctionParam { name: "expressions", required: false }],
            return_type: None,
            category: FunctionCategory::Scalar,
        },
        FunctionSignature {
            name: "date_diff",
            display_name: "DATE_DIFF",
            params: &[FunctionParam { name: "this", required: true }, FunctionParam { name: "expression", required: true }, FunctionParam { name: "unit", required: false }, FunctionParam { name: "zone", required: false }, FunctionParam { name: "big_int", required: false }],
            return_type: None,
            category: FunctionCategory::Scalar,
        },
        FunctionSignature {
            name: "date_from_parts",
            display_name: "DATE_FROM_PARTS",
            params: &[FunctionParam { name: "year", required: true }, FunctionParam { name: "month", required: false }, FunctionParam { name: "day", required: false }],
            return_type: None,
            category: FunctionCategory::Scalar,
        },
        FunctionSignature {
            name: "datetime",
            display_name: "DATETIME",
            params: &[FunctionParam { name: "this", required: true }, FunctionParam { name: "expression", required: false }],
            return_type: None,
            category: FunctionCategory::Scalar,
        },
        FunctionSignature {
            name: "datetime_add",
            display_name: "DATETIME_ADD",
            params: &[FunctionParam { name: "this", required: true }, FunctionParam { name: "expression", required: true }, FunctionParam { name: "unit", required: false }],
            return_type: None,
            category: FunctionCategory::Scalar,
        },
        FunctionSignature {
            name: "datetime_diff",
            display_name: "DATETIME_DIFF",
            params: &[FunctionParam { name: "this", required: true }, FunctionParam { name: "expression", required: true }, FunctionParam { name: "unit", required: false }],
            return_type: None,
            category: FunctionCategory::Scalar,
        },
        FunctionSignature {
            name: "datetime_sub",
            display_name: "DATETIME_SUB",
            params: &[FunctionParam { name: "this", required: true }, FunctionParam { name: "expression", required: true }, FunctionParam { name: "unit", required: false }],
            return_type: None,
            category: FunctionCategory::Scalar,
        },
        FunctionSignature {
            name: "datetime_trunc",
            display_name: "DATETIME_TRUNC",
            params: &[FunctionParam { name: "this", required: true }, FunctionParam { name: "unit", required: true }, FunctionParam { name: "zone", required: false }],
            return_type: None,
            category: FunctionCategory::Scalar,
        },
        FunctionSignature {
            name: "date_add",
            display_name: "DATE_ADD",
            params: &[FunctionParam { name: "this", required: true }, FunctionParam { name: "expression", required: true }, FunctionParam { name: "unit", required: false }],
            return_type: None,
            category: FunctionCategory::Scalar,
        },
        FunctionSignature {
            name: "date_bin",
            display_name: "DATE_BIN",
            params: &[FunctionParam { name: "this", required: true }, FunctionParam { name: "expression", required: true }, FunctionParam { name: "unit", required: false }, FunctionParam { name: "zone", required: false }, FunctionParam { name: "origin", required: false }],
            return_type: None,
            category: FunctionCategory::Scalar,
        },
        FunctionSignature {
            name: "date_from_unix_date",
            display_name: "DATE_FROM_UNIX_DATE",
            params: &[FunctionParam { name: "this", required: true }],
            return_type: None,
            category: FunctionCategory::Scalar,
        },
        FunctionSignature {
            name: "date_str_to_date",
            display_name: "DATE_STR_TO_DATE",
            params: &[FunctionParam { name: "this", required: true }],
            return_type: None,
            category: FunctionCategory::Scalar,
        },
        FunctionSignature {
            name: "date_sub",
            display_name: "DATE_SUB",
            params: &[FunctionParam { name: "this", required: true }, FunctionParam { name: "expression", required: true }, FunctionParam { name: "unit", required: false }],
            return_type: None,
            category: FunctionCategory::Scalar,
        },
        FunctionSignature {
            name: "date_to_date_str",
            display_name: "DATE_TO_DATE_STR",
            params: &[FunctionParam { name: "this", required: true }],
            return_type: None,
            category: FunctionCategory::Scalar,
        },
        FunctionSignature {
            name: "date_to_di",
            display_name: "DATE_TO_DI",
            params: &[FunctionParam { name: "this", required: true }],
            return_type: None,
            category: FunctionCategory::Scalar,
        },
        FunctionSignature {
            name: "date_trunc",
            display_name: "DATE_TRUNC",
            params: &[FunctionParam { name: "unit", required: true }, FunctionParam { name: "this", required: true }, FunctionParam { name: "zone", required: false }],
            return_type: Some(ReturnTypeRule::MatchFirstArg),
            category: FunctionCategory::Scalar,
        },
        FunctionSignature {
            name: "day",
            display_name: "DAY",
            params: &[FunctionParam { name: "this", required: true }],
            return_type: None,
            category: FunctionCategory::Scalar,
        },
        FunctionSignature {
            name: "day_of_month",
            display_name: "DAY_OF_MONTH",
            params: &[FunctionParam { name: "this", required: true }],
            return_type: None,
            category: FunctionCategory::Scalar,
        },
        FunctionSignature {
            name: "day_of_week",
            display_name: "DAY_OF_WEEK",
            params: &[FunctionParam { name: "this", required: true }],
            return_type: None,
            category: FunctionCategory::Scalar,
        },
        FunctionSignature {
            name: "day_of_week_iso",
            display_name: "DAY_OF_WEEK_ISO",
            params: &[FunctionParam { name: "this", required: true }],
            return_type: None,
            category: FunctionCategory::Scalar,
        },
        FunctionSignature {
            name: "day_of_year",
            display_name: "DAY_OF_YEAR",
            params: &[FunctionParam { name: "this", required: true }],
            return_type: None,
            category: FunctionCategory::Scalar,
        },
        FunctionSignature {
            name: "decode",
            display_name: "DECODE",
            params: &[FunctionParam { name: "this", required: true }, FunctionParam { name: "charset", required: true }, FunctionParam { name: "replace", required: false }],
            return_type: None,
            category: FunctionCategory::Scalar,
        },
        FunctionSignature {
            name: "decode_case",
            display_name: "DECODE_CASE",
            params: &[FunctionParam { name: "expressions", required: true }],
            return_type: None,
            category: FunctionCategory::Scalar,
        },
        FunctionSignature {
            name: "decompress_binary",
            display_name: "DECOMPRESS_BINARY",
            params: &[FunctionParam { name: "this", required: true }, FunctionParam { name: "method", required: true }],
            return_type: None,
            category: FunctionCategory::Scalar,
        },
        FunctionSignature {
            name: "decompress_string",
            display_name: "DECOMPRESS_STRING",
            params: &[FunctionParam { name: "this", required: true }, FunctionParam { name: "method", required: true }],
            return_type: None,
            category: FunctionCategory::Scalar,
        },
        FunctionSignature {
            name: "degrees",
            display_name: "DEGREES",
            params: &[FunctionParam { name: "this", required: true }],
            return_type: None,
            category: FunctionCategory::Scalar,
        },
        FunctionSignature {
            name: "dense_rank",
            display_name: "DENSE_RANK",
            params: &[FunctionParam { name: "expressions", required: false }],
            return_type: Some(ReturnTypeRule::Integer),
            category: FunctionCategory::Window,
        },
        FunctionSignature {
            name: "di_to_date",
            display_name: "DI_TO_DATE",
            params: &[FunctionParam { name: "this", required: true }],
            return_type: None,
            category: FunctionCategory::Scalar,
        },
        FunctionSignature {
            name: "encode",
            display_name: "ENCODE",
            params: &[FunctionParam { name: "this", required: true }, FunctionParam { name: "charset", required: true }],
            return_type: None,
            category: FunctionCategory::Scalar,
        },
        FunctionSignature {
            name: "ends_with",
            display_name: "ENDS_WITH",
            params: &[FunctionParam { name: "this", required: true }, FunctionParam { name: "expression", required: true }],
            return_type: None,
            category: FunctionCategory::Scalar,
        },
        FunctionSignature {
            name: "equal_null",
            display_name: "EQUAL_NULL",
            params: &[FunctionParam { name: "this", required: true }, FunctionParam { name: "expression", required: true }],
            return_type: None,
            category: FunctionCategory::Scalar,
        },
        FunctionSignature {
            name: "euclidean_distance",
            display_name: "EUCLIDEAN_DISTANCE",
            params: &[FunctionParam { name: "this", required: true }, FunctionParam { name: "expression", required: true }],
            return_type: None,
            category: FunctionCategory::Scalar,
        },
        FunctionSignature {
            name: "exists",
            display_name: "EXISTS",
            params: &[FunctionParam { name: "this", required: true }, FunctionParam { name: "expression", required: false }],
            return_type: None,
            category: FunctionCategory::Scalar,
        },
        FunctionSignature {
            name: "exp",
            display_name: "EXP",
            params: &[FunctionParam { name: "this", required: true }],
            return_type: None,
            category: FunctionCategory::Scalar,
        },
        FunctionSignature {
            name: "explode",
            display_name: "EXPLODE",
            params: &[FunctionParam { name: "this", required: true }, FunctionParam { name: "expressions", required: false }],
            return_type: None,
            category: FunctionCategory::Scalar,
        },
        FunctionSignature {
            name: "explode_outer",
            display_name: "EXPLODE_OUTER",
            params: &[FunctionParam { name: "this", required: true }, FunctionParam { name: "expressions", required: false }],
            return_type: None,
            category: FunctionCategory::Scalar,
        },
        FunctionSignature {
            name: "exploding_generate_series",
            display_name: "EXPLODING_GENERATE_SERIES",
            params: &[FunctionParam { name: "start", required: true }, FunctionParam { name: "end", required: true }, FunctionParam { name: "step", required: false }, FunctionParam { name: "is_end_exclusive", required: false }],
            return_type: None,
            category: FunctionCategory::Scalar,
        },
        FunctionSignature {
            name: "extract",
            display_name: "EXTRACT",
            params: &[FunctionParam { name: "this", required: true }, FunctionParam { name: "expression", required: true }],
            return_type: None,
            category: FunctionCategory::Scalar,
        },
        FunctionSignature {
            name: "factorial",
            display_name: "FACTORIAL",
            params: &[FunctionParam { name: "this", required: true }],
            return_type: None,
            category: FunctionCategory::Scalar,
        },
        FunctionSignature {
            name: "farm_fingerprint",
            display_name: "FARM_FINGERPRINT",
            params: &[FunctionParam { name: "expressions", required: true }],
            return_type: None,
            category: FunctionCategory::Scalar,
        },
        FunctionSignature {
            name: "features_at_time",
            display_name: "FEATURES_AT_TIME",
            params: &[FunctionParam { name: "this", required: true }, FunctionParam { name: "time", required: false }, FunctionParam { name: "num_rows", required: false }, FunctionParam { name: "ignore_feature_nulls", required: false }],
            return_type: None,
            category: FunctionCategory::Scalar,
        },
        FunctionSignature {
            name: "first",
            display_name: "FIRST",
            params: &[FunctionParam { name: "this", required: true }, FunctionParam { name: "expression", required: false }],
            return_type: None,
            category: FunctionCategory::Aggregate,
        },
        FunctionSignature {
            name: "first_value",
            display_name: "FIRST_VALUE",
            params: &[FunctionParam { name: "this", required: true }],
            return_type: Some(ReturnTypeRule::MatchFirstArg),
            category: FunctionCategory::Window,
        },
        FunctionSignature {
            name: "flatten",
            display_name: "FLATTEN",
            params: &[FunctionParam { name: "this", required: true }],
            return_type: None,
            category: FunctionCategory::Scalar,
        },
        FunctionSignature {
            name: "float64",
            display_name: "FLOAT64",
            params: &[FunctionParam { name: "this", required: true }, FunctionParam { name: "expression", required: false }],
            return_type: None,
            category: FunctionCategory::Scalar,
        },
        FunctionSignature {
            name: "floor",
            display_name: "FLOOR",
            params: &[FunctionParam { name: "this", required: true }, FunctionParam { name: "decimals", required: false }, FunctionParam { name: "to", required: false }],
            return_type: None,
            category: FunctionCategory::Scalar,
        },
        FunctionSignature {
            name: "format",
            display_name: "FORMAT",
            params: &[FunctionParam { name: "this", required: true }, FunctionParam { name: "expressions", required: false }],
            return_type: None,
            category: FunctionCategory::Scalar,
        },
        FunctionSignature {
            name: "from_base",
            display_name: "FROM_BASE",
            params: &[FunctionParam { name: "this", required: true }, FunctionParam { name: "expression", required: true }],
            return_type: None,
            category: FunctionCategory::Scalar,
        },
        FunctionSignature {
            name: "from_base32",
            display_name: "FROM_BASE32",
            params: &[FunctionParam { name: "this", required: true }],
            return_type: None,
            category: FunctionCategory::Scalar,
        },
        FunctionSignature {
            name: "from_base64",
            display_name: "FROM_BASE64",
            params: &[FunctionParam { name: "this", required: true }],
            return_type: None,
            category: FunctionCategory::Scalar,
        },
        FunctionSignature {
            name: "from_iso8601timestamp",
            display_name: "FROM_ISO8601TIMESTAMP",
            params: &[FunctionParam { name: "this", required: true }],
            return_type: None,
            category: FunctionCategory::Scalar,
        },
        FunctionSignature {
            name: "gap_fill",
            display_name: "GAP_FILL",
            params: &[FunctionParam { name: "this", required: true }, FunctionParam { name: "ts_column", required: true }, FunctionParam { name: "bucket_width", required: true }, FunctionParam { name: "partitioning_columns", required: false }, FunctionParam { name: "value_columns", required: false }, FunctionParam { name: "origin", required: false }, FunctionParam { name: "ignore_nulls", required: false }],
            return_type: None,
            category: FunctionCategory::Scalar,
        },
        FunctionSignature {
            name: "generate_date_array",
            display_name: "GENERATE_DATE_ARRAY",
            params: &[FunctionParam { name: "start", required: true }, FunctionParam { name: "end", required: true }, FunctionParam { name: "step", required: false }],
            return_type: None,
            category: FunctionCategory::Scalar,
        },
        FunctionSignature {
            name: "generate_embedding",
            display_name: "GENERATE_EMBEDDING",
            params: &[FunctionParam { name: "this", required: true }, FunctionParam { name: "expression", required: true }, FunctionParam { name: "params_struct", required: false }, FunctionParam { name: "is_text", required: false }],
            return_type: None,
            category: FunctionCategory::Scalar,
        },
        FunctionSignature {
            name: "generate_series",
            display_name: "GENERATE_SERIES",
            params: &[FunctionParam { name: "start", required: true }, FunctionParam { name: "end", required: true }, FunctionParam { name: "step", required: false }, FunctionParam { name: "is_end_exclusive", required: false }],
            return_type: None,
            category: FunctionCategory::Scalar,
        },
        FunctionSignature {
            name: "generate_timestamp_array",
            display_name: "GENERATE_TIMESTAMP_ARRAY",
            params: &[FunctionParam { name: "start", required: true }, FunctionParam { name: "end", required: true }, FunctionParam { name: "step", required: true }],
            return_type: None,
            category: FunctionCategory::Scalar,
        },
        FunctionSignature {
            name: "uuid",
            display_name: "UUID",
            params: &[FunctionParam { name: "this", required: false }, FunctionParam { name: "name", required: false }, FunctionParam { name: "is_string", required: false }],
            return_type: None,
            category: FunctionCategory::Scalar,
        },
        FunctionSignature {
            name: "getbit",
            display_name: "GETBIT",
            params: &[FunctionParam { name: "this", required: true }, FunctionParam { name: "expression", required: true }],
            return_type: None,
            category: FunctionCategory::Scalar,
        },
        FunctionSignature {
            name: "get_extract",
            display_name: "GET_EXTRACT",
            params: &[FunctionParam { name: "this", required: true }, FunctionParam { name: "expression", required: true }],
            return_type: None,
            category: FunctionCategory::Scalar,
        },
        FunctionSignature {
            name: "greatest",
            display_name: "GREATEST",
            params: &[FunctionParam { name: "this", required: true }, FunctionParam { name: "expressions", required: false }, FunctionParam { name: "null_if_any_null", required: false }],
            return_type: None,
            category: FunctionCategory::Scalar,
        },
        FunctionSignature {
            name: "greatest_ignore_nulls",
            display_name: "GREATEST_IGNORE_NULLS",
            params: &[FunctionParam { name: "expressions", required: true }],
            return_type: None,
            category: FunctionCategory::Scalar,
        },
        FunctionSignature {
            name: "grouping",
            display_name: "GROUPING",
            params: &[FunctionParam { name: "expressions", required: true }],
            return_type: None,
            category: FunctionCategory::Aggregate,
        },
        FunctionSignature {
            name: "grouping_id",
            display_name: "GROUPING_ID",
            params: &[FunctionParam { name: "expressions", required: true }],
            return_type: None,
            category: FunctionCategory::Aggregate,
        },
        FunctionSignature {
            name: "group_concat",
            display_name: "GROUP_CONCAT",
            params: &[FunctionParam { name: "this", required: true }, FunctionParam { name: "separator", required: false }, FunctionParam { name: "on_overflow", required: false }],
            return_type: None,
            category: FunctionCategory::Aggregate,
        },
        FunctionSignature {
            name: "hex",
            display_name: "HEX",
            params: &[FunctionParam { name: "this", required: true }],
            return_type: None,
            category: FunctionCategory::Scalar,
        },
        FunctionSignature {
            name: "hex_decode_string",
            display_name: "HEX_DECODE_STRING",
            params: &[FunctionParam { name: "this", required: true }],
            return_type: None,
            category: FunctionCategory::Scalar,
        },
        FunctionSignature {
            name: "hex_encode",
            display_name: "HEX_ENCODE",
            params: &[FunctionParam { name: "this", required: true }, FunctionParam { name: "case", required: false }],
            return_type: None,
            category: FunctionCategory::Scalar,
        },
        FunctionSignature {
            name: "hll",
            display_name: "HLL",
            params: &[FunctionParam { name: "this", required: true }, FunctionParam { name: "expressions", required: false }],
            return_type: None,
            category: FunctionCategory::Aggregate,
        },
        FunctionSignature {
            name: "hour",
            display_name: "HOUR",
            params: &[FunctionParam { name: "this", required: true }],
            return_type: None,
            category: FunctionCategory::Scalar,
        },
        FunctionSignature {
            name: "if",
            display_name: "IF",
            params: &[FunctionParam { name: "this", required: true }, FunctionParam { name: "true", required: true }, FunctionParam { name: "false", required: false }],
            return_type: None,
            category: FunctionCategory::Scalar,
        },
        FunctionSignature {
            name: "initcap",
            display_name: "INITCAP",
            params: &[FunctionParam { name: "this", required: true }, FunctionParam { name: "expression", required: false }],
            return_type: None,
            category: FunctionCategory::Scalar,
        },
        FunctionSignature {
            name: "inline",
            display_name: "INLINE",
            params: &[FunctionParam { name: "this", required: true }],
            return_type: None,
            category: FunctionCategory::Scalar,
        },
        FunctionSignature {
            name: "stuff",
            display_name: "STUFF",
            params: &[FunctionParam { name: "this", required: true }, FunctionParam { name: "start", required: true }, FunctionParam { name: "length", required: true }, FunctionParam { name: "expression", required: true }],
            return_type: None,
            category: FunctionCategory::Scalar,
        },
        FunctionSignature {
            name: "int64",
            display_name: "INT64",
            params: &[FunctionParam { name: "this", required: true }],
            return_type: None,
            category: FunctionCategory::Scalar,
        },
        FunctionSignature {
            name: "is_inf",
            display_name: "IS_INF",
            params: &[FunctionParam { name: "this", required: true }],
            return_type: None,
            category: FunctionCategory::Scalar,
        },
        FunctionSignature {
            name: "is_nan",
            display_name: "IS_NAN",
            params: &[FunctionParam { name: "this", required: true }],
            return_type: None,
            category: FunctionCategory::Scalar,
        },
        FunctionSignature {
            name: "is_ascii",
            display_name: "IS_ASCII",
            params: &[FunctionParam { name: "this", required: true }],
            return_type: None,
            category: FunctionCategory::Scalar,
        },
        FunctionSignature {
            name: "is_null_value",
            display_name: "IS_NULL_VALUE",
            params: &[FunctionParam { name: "this", required: true }],
            return_type: None,
            category: FunctionCategory::Scalar,
        },
        FunctionSignature {
            name: "jarowinkler_similarity",
            display_name: "JAROWINKLER_SIMILARITY",
            params: &[FunctionParam { name: "this", required: true }, FunctionParam { name: "expression", required: true }],
            return_type: None,
            category: FunctionCategory::Scalar,
        },
        FunctionSignature {
            name: "jsonb_contains",
            display_name: "JSONB_CONTAINS",
            params: &[FunctionParam { name: "this", required: true }, FunctionParam { name: "expression", required: true }],
            return_type: None,
            category: FunctionCategory::Scalar,
        },
        FunctionSignature {
            name: "jsonb_exists",
            display_name: "JSONB_EXISTS",
            params: &[FunctionParam { name: "this", required: true }, FunctionParam { name: "path", required: true }],
            return_type: None,
            category: FunctionCategory::Scalar,
        },
        FunctionSignature {
            name: "jsonb_extract",
            display_name: "JSONB_EXTRACT",
            params: &[FunctionParam { name: "this", required: true }, FunctionParam { name: "expression", required: true }],
            return_type: None,
            category: FunctionCategory::Scalar,
        },
        FunctionSignature {
            name: "jsonb_extract_scalar",
            display_name: "JSONB_EXTRACT_SCALAR",
            params: &[FunctionParam { name: "this", required: true }, FunctionParam { name: "expression", required: true }, FunctionParam { name: "json_type", required: false }],
            return_type: None,
            category: FunctionCategory::Scalar,
        },
        FunctionSignature {
            name: "json_array_append",
            display_name: "JSON_ARRAY_APPEND",
            params: &[FunctionParam { name: "this", required: true }, FunctionParam { name: "expressions", required: true }],
            return_type: None,
            category: FunctionCategory::Scalar,
        },
        FunctionSignature {
            name: "json_array_contains",
            display_name: "JSON_ARRAY_CONTAINS",
            params: &[FunctionParam { name: "this", required: true }, FunctionParam { name: "expression", required: true }, FunctionParam { name: "json_type", required: false }],
            return_type: None,
            category: FunctionCategory::Scalar,
        },
        FunctionSignature {
            name: "json_array_insert",
            display_name: "JSON_ARRAY_INSERT",
            params: &[FunctionParam { name: "this", required: true }, FunctionParam { name: "expressions", required: true }],
            return_type: None,
            category: FunctionCategory::Scalar,
        },
        FunctionSignature {
            name: "json_extract",
            display_name: "JSON_EXTRACT",
            params: &[FunctionParam { name: "this", required: true }, FunctionParam { name: "expression", required: true }, FunctionParam { name: "only_json_types", required: false }, FunctionParam { name: "expressions", required: false }, FunctionParam { name: "variant_extract", required: false }, FunctionParam { name: "json_query", required: false }, FunctionParam { name: "option", required: false }, FunctionParam { name: "quote", required: false }, FunctionParam { name: "on_condition", required: false }, FunctionParam { name: "requires_json", required: false }],
            return_type: None,
            category: FunctionCategory::Scalar,
        },
        FunctionSignature {
            name: "json_extract_array",
            display_name: "JSON_EXTRACT_ARRAY",
            params: &[FunctionParam { name: "this", required: true }, FunctionParam { name: "expression", required: false }],
            return_type: None,
            category: FunctionCategory::Scalar,
        },
        FunctionSignature {
            name: "json_extract_scalar",
            display_name: "JSON_EXTRACT_SCALAR",
            params: &[FunctionParam { name: "this", required: true }, FunctionParam { name: "expression", required: true }, FunctionParam { name: "only_json_types", required: false }, FunctionParam { name: "expressions", required: false }, FunctionParam { name: "json_type", required: false }, FunctionParam { name: "scalar_only", required: false }],
            return_type: None,
            category: FunctionCategory::Scalar,
        },
        FunctionSignature {
            name: "json_format",
            display_name: "JSON_FORMAT",
            params: &[FunctionParam { name: "this", required: false }, FunctionParam { name: "options", required: false }, FunctionParam { name: "is_json", required: false }, FunctionParam { name: "to_json", required: false }],
            return_type: None,
            category: FunctionCategory::Scalar,
        },
        FunctionSignature {
            name: "parse_json",
            display_name: "PARSE_JSON",
            params: &[FunctionParam { name: "this", required: true }, FunctionParam { name: "expression", required: false }, FunctionParam { name: "safe", required: false }],
            return_type: None,
            category: FunctionCategory::Scalar,
        },
        FunctionSignature {
            name: "json_remove",
            display_name: "JSON_REMOVE",
            params: &[FunctionParam { name: "this", required: true }, FunctionParam { name: "expressions", required: true }],
            return_type: None,
            category: FunctionCategory::Scalar,
        },
        FunctionSignature {
            name: "json_set",
            display_name: "JSON_SET",
            params: &[FunctionParam { name: "this", required: true }, FunctionParam { name: "expressions", required: true }],
            return_type: None,
            category: FunctionCategory::Scalar,
        },
        FunctionSignature {
            name: "json_strip_nulls",
            display_name: "JSON_STRIP_NULLS",
            params: &[FunctionParam { name: "this", required: true }, FunctionParam { name: "expression", required: false }, FunctionParam { name: "include_arrays", required: false }, FunctionParam { name: "remove_empty", required: false }],
            return_type: None,
            category: FunctionCategory::Scalar,
        },
        FunctionSignature {
            name: "json_type",
            display_name: "JSON_TYPE",
            params: &[FunctionParam { name: "this", required: true }, FunctionParam { name: "expression", required: false }],
            return_type: None,
            category: FunctionCategory::Scalar,
        },
        FunctionSignature {
            name: "justify_days",
            display_name: "JUSTIFY_DAYS",
            params: &[FunctionParam { name: "this", required: true }],
            return_type: None,
            category: FunctionCategory::Scalar,
        },
        FunctionSignature {
            name: "justify_hours",
            display_name: "JUSTIFY_HOURS",
            params: &[FunctionParam { name: "this", required: true }],
            return_type: None,
            category: FunctionCategory::Scalar,
        },
        FunctionSignature {
            name: "justify_interval",
            display_name: "JUSTIFY_INTERVAL",
            params: &[FunctionParam { name: "this", required: true }],
            return_type: None,
            category: FunctionCategory::Scalar,
        },
        FunctionSignature {
            name: "json_array",
            display_name: "JSON_ARRAY",
            params: &[FunctionParam { name: "expressions", required: false }, FunctionParam { name: "null_handling", required: false }, FunctionParam { name: "return_type", required: false }, FunctionParam { name: "strict", required: false }],
            return_type: None,
            category: FunctionCategory::Scalar,
        },
        FunctionSignature {
            name: "json_array_agg",
            display_name: "JSON_ARRAY_AGG",
            params: &[FunctionParam { name: "this", required: true }, FunctionParam { name: "order", required: false }, FunctionParam { name: "null_handling", required: false }, FunctionParam { name: "return_type", required: false }, FunctionParam { name: "strict", required: false }],
            return_type: None,
            category: FunctionCategory::Scalar,
        },
        FunctionSignature {
            name: "json_bool",
            display_name: "JSON_BOOL",
            params: &[FunctionParam { name: "this", required: true }],
            return_type: None,
            category: FunctionCategory::Scalar,
        },
        FunctionSignature {
            name: "jsonb_contains_all_top_keys",
            display_name: "JSONB_CONTAINS_ALL_TOP_KEYS",
            params: &[FunctionParam { name: "this", required: true }, FunctionParam { name: "expression", required: true }],
            return_type: None,
            category: FunctionCategory::Scalar,
        },
        FunctionSignature {
            name: "jsonb_contains_any_top_keys",
            display_name: "JSONB_CONTAINS_ANY_TOP_KEYS",
            params: &[FunctionParam { name: "this", required: true }, FunctionParam { name: "expression", required: true }],
            return_type: None,
            category: FunctionCategory::Scalar,
        },
        FunctionSignature {
            name: "jsonb_delete_at_path",
            display_name: "JSONB_DELETE_AT_PATH",
            params: &[FunctionParam { name: "this", required: true }, FunctionParam { name: "expression", required: true }],
            return_type: None,
            category: FunctionCategory::Scalar,
        },
        FunctionSignature {
            name: "jsonb_object_agg",
            display_name: "JSONB_OBJECT_AGG",
            params: &[FunctionParam { name: "this", required: true }, FunctionParam { name: "expression", required: true }],
            return_type: None,
            category: FunctionCategory::Aggregate,
        },
        FunctionSignature {
            name: "json_cast",
            display_name: "JSON_CAST",
            params: &[FunctionParam { name: "this", required: true }, FunctionParam { name: "to", required: true }, FunctionParam { name: "format", required: false }, FunctionParam { name: "safe", required: false }, FunctionParam { name: "action", required: false }, FunctionParam { name: "default", required: false }],
            return_type: None,
            category: FunctionCategory::Scalar,
        },
        FunctionSignature {
            name: "json_exists",
            display_name: "JSON_EXISTS",
            params: &[FunctionParam { name: "this", required: true }, FunctionParam { name: "path", required: true }, FunctionParam { name: "passing", required: false }, FunctionParam { name: "on_condition", required: false }],
            return_type: None,
            category: FunctionCategory::Scalar,
        },
        FunctionSignature {
            name: "json_keys_at_depth",
            display_name: "JSON_KEYS_AT_DEPTH",
            params: &[FunctionParam { name: "this", required: true }, FunctionParam { name: "expression", required: false }, FunctionParam { name: "mode", required: false }],
            return_type: None,
            category: FunctionCategory::Scalar,
        },
        FunctionSignature {
            name: "json_object",
            display_name: "JSON_OBJECT",
            params: &[FunctionParam { name: "expressions", required: false }, FunctionParam { name: "null_handling", required: false }, FunctionParam { name: "unique_keys", required: false }, FunctionParam { name: "return_type", required: false }, FunctionParam { name: "encoding", required: false }],
            return_type: None,
            category: FunctionCategory::Scalar,
        },
        FunctionSignature {
            name: "json_object_agg",
            display_name: "JSON_OBJECT_AGG",
            params: &[FunctionParam { name: "expressions", required: false }, FunctionParam { name: "null_handling", required: false }, FunctionParam { name: "unique_keys", required: false }, FunctionParam { name: "return_type", required: false }, FunctionParam { name: "encoding", required: false }],
            return_type: None,
            category: FunctionCategory::Aggregate,
        },
        FunctionSignature {
            name: "json_table",
            display_name: "JSON_TABLE",
            params: &[FunctionParam { name: "this", required: true }, FunctionParam { name: "schema", required: true }, FunctionParam { name: "path", required: false }, FunctionParam { name: "error_handling", required: false }, FunctionParam { name: "empty_handling", required: false }],
            return_type: None,
            category: FunctionCategory::Scalar,
        },
        FunctionSignature {
            name: "json_value_array",
            display_name: "JSON_VALUE_ARRAY",
            params: &[FunctionParam { name: "this", required: true }, FunctionParam { name: "expression", required: false }],
            return_type: None,
            category: FunctionCategory::Scalar,
        },
        FunctionSignature {
            name: "lag",
            display_name: "LAG",
            params: &[FunctionParam { name: "this", required: true }, FunctionParam { name: "offset", required: false }, FunctionParam { name: "default", required: false }],
            return_type: Some(ReturnTypeRule::MatchFirstArg),
            category: FunctionCategory::Window,
        },
        FunctionSignature {
            name: "last",
            display_name: "LAST",
            params: &[FunctionParam { name: "this", required: true }, FunctionParam { name: "expression", required: false }],
            return_type: None,
            category: FunctionCategory::Aggregate,
        },
        FunctionSignature {
            name: "last_day",
            display_name: "LAST_DAY",
            params: &[FunctionParam { name: "this", required: true }, FunctionParam { name: "unit", required: false }],
            return_type: None,
            category: FunctionCategory::Scalar,
        },
        FunctionSignature {
            name: "last_value",
            display_name: "LAST_VALUE",
            params: &[FunctionParam { name: "this", required: true }],
            return_type: Some(ReturnTypeRule::MatchFirstArg),
            category: FunctionCategory::Window,
        },
        FunctionSignature {
            name: "lax_bool",
            display_name: "LAX_BOOL",
            params: &[FunctionParam { name: "this", required: true }],
            return_type: None,
            category: FunctionCategory::Scalar,
        },
        FunctionSignature {
            name: "lax_float64",
            display_name: "LAX_FLOAT64",
            params: &[FunctionParam { name: "this", required: true }],
            return_type: None,
            category: FunctionCategory::Scalar,
        },
        FunctionSignature {
            name: "lax_int64",
            display_name: "LAX_INT64",
            params: &[FunctionParam { name: "this", required: true }],
            return_type: None,
            category: FunctionCategory::Scalar,
        },
        FunctionSignature {
            name: "lax_string",
            display_name: "LAX_STRING",
            params: &[FunctionParam { name: "this", required: true }],
            return_type: None,
            category: FunctionCategory::Scalar,
        },
        FunctionSignature {
            name: "lower",
            display_name: "LOWER",
            params: &[FunctionParam { name: "this", required: true }],
            return_type: Some(ReturnTypeRule::Text),
            category: FunctionCategory::Scalar,
        },
        FunctionSignature {
            name: "lead",
            display_name: "LEAD",
            params: &[FunctionParam { name: "this", required: true }, FunctionParam { name: "offset", required: false }, FunctionParam { name: "default", required: false }],
            return_type: Some(ReturnTypeRule::MatchFirstArg),
            category: FunctionCategory::Window,
        },
        FunctionSignature {
            name: "least",
            display_name: "LEAST",
            params: &[FunctionParam { name: "this", required: true }, FunctionParam { name: "expressions", required: false }, FunctionParam { name: "null_if_any_null", required: false }],
            return_type: None,
            category: FunctionCategory::Scalar,
        },
        FunctionSignature {
            name: "least_ignore_nulls",
            display_name: "LEAST_IGNORE_NULLS",
            params: &[FunctionParam { name: "expressions", required: true }],
            return_type: None,
            category: FunctionCategory::Scalar,
        },
        FunctionSignature {
            name: "left",
            display_name: "LEFT",
            params: &[FunctionParam { name: "this", required: true }, FunctionParam { name: "expression", required: true }],
            return_type: None,
            category: FunctionCategory::Scalar,
        },
        FunctionSignature {
            name: "levenshtein",
            display_name: "LEVENSHTEIN",
            params: &[FunctionParam { name: "this", required: true }, FunctionParam { name: "expression", required: false }, FunctionParam { name: "ins_cost", required: false }, FunctionParam { name: "del_cost", required: false }, FunctionParam { name: "sub_cost", required: false }, FunctionParam { name: "max_dist", required: false }],
            return_type: None,
            category: FunctionCategory::Scalar,
        },
        FunctionSignature {
            name: "list",
            display_name: "LIST",
            params: &[FunctionParam { name: "expressions", required: false }],
            return_type: None,
            category: FunctionCategory::Scalar,
        },
        FunctionSignature {
            name: "ln",
            display_name: "LN",
            params: &[FunctionParam { name: "this", required: true }],
            return_type: None,
            category: FunctionCategory::Scalar,
        },
        FunctionSignature {
            name: "log",
            display_name: "LOG",
            params: &[FunctionParam { name: "this", required: true }, FunctionParam { name: "expression", required: false }],
            return_type: None,
            category: FunctionCategory::Scalar,
        },
        FunctionSignature {
            name: "lower_hex",
            display_name: "LOWER_HEX",
            params: &[FunctionParam { name: "this", required: true }],
            return_type: None,
            category: FunctionCategory::Scalar,
        },
        FunctionSignature {
            name: "make_interval",
            display_name: "MAKE_INTERVAL",
            params: &[FunctionParam { name: "year", required: false }, FunctionParam { name: "month", required: false }, FunctionParam { name: "day", required: false }, FunctionParam { name: "hour", required: false }, FunctionParam { name: "minute", required: false }, FunctionParam { name: "second", required: false }],
            return_type: None,
            category: FunctionCategory::Scalar,
        },
        FunctionSignature {
            name: "map",
            display_name: "MAP",
            params: &[FunctionParam { name: "keys", required: false }, FunctionParam { name: "values", required: false }],
            return_type: None,
            category: FunctionCategory::Scalar,
        },
        FunctionSignature {
            name: "map_from_entries",
            display_name: "MAP_FROM_ENTRIES",
            params: &[FunctionParam { name: "this", required: true }],
            return_type: None,
            category: FunctionCategory::Scalar,
        },
        FunctionSignature {
            name: "match_against",
            display_name: "MATCH_AGAINST",
            params: &[FunctionParam { name: "this", required: true }, FunctionParam { name: "expressions", required: true }, FunctionParam { name: "modifier", required: false }],
            return_type: None,
            category: FunctionCategory::Scalar,
        },
        FunctionSignature {
            name: "max",
            display_name: "MAX",
            params: &[FunctionParam { name: "this", required: true }, FunctionParam { name: "expressions", required: false }],
            return_type: Some(ReturnTypeRule::MatchFirstArg),
            category: FunctionCategory::Aggregate,
        },
        FunctionSignature {
            name: "md5",
            display_name: "MD5",
            params: &[FunctionParam { name: "this", required: true }],
            return_type: None,
            category: FunctionCategory::Scalar,
        },
        FunctionSignature {
            name: "md5digest",
            display_name: "MD5DIGEST",
            params: &[FunctionParam { name: "this", required: true }],
            return_type: None,
            category: FunctionCategory::Scalar,
        },
        FunctionSignature {
            name: "median",
            display_name: "MEDIAN",
            params: &[FunctionParam { name: "this", required: true }],
            return_type: None,
            category: FunctionCategory::Aggregate,
        },
        FunctionSignature {
            name: "min",
            display_name: "MIN",
            params: &[FunctionParam { name: "this", required: true }, FunctionParam { name: "expressions", required: false }],
            return_type: Some(ReturnTypeRule::MatchFirstArg),
            category: FunctionCategory::Aggregate,
        },
        FunctionSignature {
            name: "minhash",
            display_name: "MINHASH",
            params: &[FunctionParam { name: "this", required: true }, FunctionParam { name: "expressions", required: true }],
            return_type: None,
            category: FunctionCategory::Aggregate,
        },
        FunctionSignature {
            name: "minhash_combine",
            display_name: "MINHASH_COMBINE",
            params: &[FunctionParam { name: "this", required: true }],
            return_type: None,
            category: FunctionCategory::Aggregate,
        },
        FunctionSignature {
            name: "minute",
            display_name: "MINUTE",
            params: &[FunctionParam { name: "this", required: true }],
            return_type: None,
            category: FunctionCategory::Scalar,
        },
        FunctionSignature {
            name: "month",
            display_name: "MONTH",
            params: &[FunctionParam { name: "this", required: true }],
            return_type: None,
            category: FunctionCategory::Scalar,
        },
        FunctionSignature {
            name: "monthname",
            display_name: "MONTHNAME",
            params: &[FunctionParam { name: "this", required: true }],
            return_type: None,
            category: FunctionCategory::Scalar,
        },
        FunctionSignature {
            name: "months_between",
            display_name: "MONTHS_BETWEEN",
            params: &[FunctionParam { name: "this", required: true }, FunctionParam { name: "expression", required: true }, FunctionParam { name: "roundoff", required: false }],
            return_type: None,
            category: FunctionCategory::Scalar,
        },
        FunctionSignature {
            name: "md5number_lower64",
            display_name: "MD5NUMBER_LOWER64",
            params: &[FunctionParam { name: "this", required: true }],
            return_type: None,
            category: FunctionCategory::Scalar,
        },
        FunctionSignature {
            name: "md5number_upper64",
            display_name: "MD5NUMBER_UPPER64",
            params: &[FunctionParam { name: "this", required: true }],
            return_type: None,
            category: FunctionCategory::Scalar,
        },
        FunctionSignature {
            name: "ml_forecast",
            display_name: "ML_FORECAST",
            params: &[FunctionParam { name: "this", required: true }, FunctionParam { name: "expression", required: false }, FunctionParam { name: "params_struct", required: false }],
            return_type: None,
            category: FunctionCategory::Scalar,
        },
        FunctionSignature {
            name: "ml_translate",
            display_name: "ML_TRANSLATE",
            params: &[FunctionParam { name: "this", required: true }, FunctionParam { name: "expression", required: true }, FunctionParam { name: "params_struct", required: true }],
            return_type: None,
            category: FunctionCategory::Scalar,
        },
        FunctionSignature {
            name: "next_day",
            display_name: "NEXT_DAY",
            params: &[FunctionParam { name: "this", required: true }, FunctionParam { name: "expression", required: true }],
            return_type: None,
            category: FunctionCategory::Scalar,
        },
        FunctionSignature {
            name: "next_value_for",
            display_name: "NEXT_VALUE_FOR",
            params: &[FunctionParam { name: "this", required: true }, FunctionParam { name: "order", required: false }],
            return_type: None,
            category: FunctionCategory::Scalar,
        },
        FunctionSignature {
            name: "normalize",
            display_name: "NORMALIZE",
            params: &[FunctionParam { name: "this", required: true }, FunctionParam { name: "form", required: false }, FunctionParam { name: "is_casefold", required: false }],
            return_type: None,
            category: FunctionCategory::Scalar,
        },
        FunctionSignature {
            name: "now",
            display_name: "NOW",
            params: &[],
            return_type: Some(ReturnTypeRule::Timestamp),
            category: FunctionCategory::Scalar,
        },
        FunctionSignature {
            name: "nth_value",
            display_name: "NTH_VALUE",
            params: &[FunctionParam { name: "this", required: true }, FunctionParam { name: "offset", required: true }],
            return_type: None,
            category: FunctionCategory::Window,
        },
        FunctionSignature {
            name: "ntile",
            display_name: "NTILE",
            params: &[FunctionParam { name: "this", required: false }],
            return_type: Some(ReturnTypeRule::Integer),
            category: FunctionCategory::Window,
        },
        FunctionSignature {
            name: "nullif",
            display_name: "NULLIF",
            params: &[FunctionParam { name: "this", required: true }, FunctionParam { name: "expression", required: true }],
            return_type: None,
            category: FunctionCategory::Scalar,
        },
        FunctionSignature {
            name: "number_to_str",
            display_name: "NUMBER_TO_STR",
            params: &[FunctionParam { name: "this", required: true }, FunctionParam { name: "format", required: true }, FunctionParam { name: "culture", required: false }],
            return_type: None,
            category: FunctionCategory::Scalar,
        },
        FunctionSignature {
            name: "nvl2",
            display_name: "NVL2",
            params: &[FunctionParam { name: "this", required: true }, FunctionParam { name: "true", required: true }, FunctionParam { name: "false", required: false }],
            return_type: None,
            category: FunctionCategory::Scalar,
        },
        FunctionSignature {
            name: "object_agg",
            display_name: "OBJECT_AGG",
            params: &[FunctionParam { name: "this", required: true }, FunctionParam { name: "expression", required: true }],
            return_type: None,
            category: FunctionCategory::Aggregate,
        },
        FunctionSignature {
            name: "object_insert",
            display_name: "OBJECT_INSERT",
            params: &[FunctionParam { name: "this", required: true }, FunctionParam { name: "key", required: true }, FunctionParam { name: "value", required: true }, FunctionParam { name: "update_flag", required: false }],
            return_type: None,
            category: FunctionCategory::Scalar,
        },
        FunctionSignature {
            name: "open_json",
            display_name: "OPEN_JSON",
            params: &[FunctionParam { name: "this", required: true }, FunctionParam { name: "path", required: false }, FunctionParam { name: "expressions", required: false }],
            return_type: None,
            category: FunctionCategory::Scalar,
        },
        FunctionSignature {
            name: "or",
            display_name: "OR",
            params: &[FunctionParam { name: "this", required: true }, FunctionParam { name: "expression", required: true }],
            return_type: Some(ReturnTypeRule::Boolean),
            category: FunctionCategory::Scalar,
        },
        FunctionSignature {
            name: "overlay",
            display_name: "OVERLAY",
            params: &[FunctionParam { name: "this", required: true }, FunctionParam { name: "expression", required: true }, FunctionParam { name: "from_", required: true }, FunctionParam { name: "for_", required: false }],
            return_type: None,
            category: FunctionCategory::Scalar,
        },
        FunctionSignature {
            name: "pad",
            display_name: "PAD",
            params: &[FunctionParam { name: "this", required: true }, FunctionParam { name: "expression", required: true }, FunctionParam { name: "fill_pattern", required: false }, FunctionParam { name: "is_left", required: true }],
            return_type: None,
            category: FunctionCategory::Scalar,
        },
        FunctionSignature {
            name: "parameterized_agg",
            display_name: "PARAMETERIZED_AGG",
            params: &[FunctionParam { name: "this", required: true }, FunctionParam { name: "expressions", required: true }, FunctionParam { name: "params", required: true }],
            return_type: None,
            category: FunctionCategory::Aggregate,
        },
        FunctionSignature {
            name: "parse_bignumeric",
            display_name: "PARSE_BIGNUMERIC",
            params: &[FunctionParam { name: "this", required: true }],
            return_type: None,
            category: FunctionCategory::Scalar,
        },
        FunctionSignature {
            name: "parse_datetime",
            display_name: "PARSE_DATETIME",
            params: &[FunctionParam { name: "this", required: true }, FunctionParam { name: "format", required: false }, FunctionParam { name: "zone", required: false }],
            return_type: None,
            category: FunctionCategory::Scalar,
        },
        FunctionSignature {
            name: "parse_ip",
            display_name: "PARSE_IP",
            params: &[FunctionParam { name: "this", required: true }, FunctionParam { name: "type", required: true }, FunctionParam { name: "permissive", required: false }],
            return_type: None,
            category: FunctionCategory::Scalar,
        },
        FunctionSignature {
            name: "parse_numeric",
            display_name: "PARSE_NUMERIC",
            params: &[FunctionParam { name: "this", required: true }],
            return_type: None,
            category: FunctionCategory::Scalar,
        },
        FunctionSignature {
            name: "parse_time",
            display_name: "PARSE_TIME",
            params: &[FunctionParam { name: "this", required: true }, FunctionParam { name: "format", required: true }],
            return_type: None,
            category: FunctionCategory::Scalar,
        },
        FunctionSignature {
            name: "parse_url",
            display_name: "PARSE_URL",
            params: &[FunctionParam { name: "this", required: true }, FunctionParam { name: "part_to_extract", required: false }, FunctionParam { name: "key", required: false }, FunctionParam { name: "permissive", required: false }],
            return_type: None,
            category: FunctionCategory::Scalar,
        },
        FunctionSignature {
            name: "percentile_cont",
            display_name: "PERCENTILE_CONT",
            params: &[FunctionParam { name: "this", required: true }, FunctionParam { name: "expression", required: false }],
            return_type: None,
            category: FunctionCategory::Window,
        },
        FunctionSignature {
            name: "percentile_disc",
            display_name: "PERCENTILE_DISC",
            params: &[FunctionParam { name: "this", required: true }, FunctionParam { name: "expression", required: false }],
            return_type: None,
            category: FunctionCategory::Window,
        },
        FunctionSignature {
            name: "percent_rank",
            display_name: "PERCENT_RANK",
            params: &[FunctionParam { name: "expressions", required: false }],
            return_type: None,
            category: FunctionCategory::Window,
        },
        FunctionSignature {
            name: "pi",
            display_name: "PI",
            params: &[],
            return_type: None,
            category: FunctionCategory::Scalar,
        },
        FunctionSignature {
            name: "posexplode",
            display_name: "POSEXPLODE",
            params: &[FunctionParam { name: "this", required: true }, FunctionParam { name: "expressions", required: false }],
            return_type: None,
            category: FunctionCategory::Scalar,
        },
        FunctionSignature {
            name: "posexplode_outer",
            display_name: "POSEXPLODE_OUTER",
            params: &[FunctionParam { name: "this", required: true }, FunctionParam { name: "expressions", required: false }],
            return_type: None,
            category: FunctionCategory::Scalar,
        },
        FunctionSignature {
            name: "pow",
            display_name: "POW",
            params: &[FunctionParam { name: "this", required: true }, FunctionParam { name: "expression", required: true }],
            return_type: None,
            category: FunctionCategory::Scalar,
        },
        FunctionSignature {
            name: "predict",
            display_name: "PREDICT",
            params: &[FunctionParam { name: "this", required: true }, FunctionParam { name: "expression", required: true }, FunctionParam { name: "params_struct", required: false }],
            return_type: None,
            category: FunctionCategory::Scalar,
        },
        FunctionSignature {
            name: "previous_day",
            display_name: "PREVIOUS_DAY",
            params: &[FunctionParam { name: "this", required: true }, FunctionParam { name: "expression", required: true }],
            return_type: None,
            category: FunctionCategory::Scalar,
        },
        FunctionSignature {
            name: "quantile",
            display_name: "QUANTILE",
            params: &[FunctionParam { name: "this", required: true }, FunctionParam { name: "quantile", required: true }],
            return_type: None,
            category: FunctionCategory::Aggregate,
        },
        FunctionSignature {
            name: "quarter",
            display_name: "QUARTER",
            params: &[FunctionParam { name: "this", required: true }],
            return_type: None,
            category: FunctionCategory::Scalar,
        },
        FunctionSignature {
            name: "radians",
            display_name: "RADIANS",
            params: &[FunctionParam { name: "this", required: true }],
            return_type: None,
            category: FunctionCategory::Scalar,
        },
        FunctionSignature {
            name: "rand",
            display_name: "RAND",
            params: &[FunctionParam { name: "this", required: false }, FunctionParam { name: "lower", required: false }, FunctionParam { name: "upper", required: false }],
            return_type: None,
            category: FunctionCategory::Scalar,
        },
        FunctionSignature {
            name: "randn",
            display_name: "RANDN",
            params: &[FunctionParam { name: "this", required: false }],
            return_type: None,
            category: FunctionCategory::Scalar,
        },
        FunctionSignature {
            name: "range_bucket",
            display_name: "RANGE_BUCKET",
            params: &[FunctionParam { name: "this", required: true }, FunctionParam { name: "expression", required: true }],
            return_type: None,
            category: FunctionCategory::Scalar,
        },
        FunctionSignature {
            name: "range_n",
            display_name: "RANGE_N",
            params: &[FunctionParam { name: "this", required: true }, FunctionParam { name: "expressions", required: true }, FunctionParam { name: "each", required: false }],
            return_type: None,
            category: FunctionCategory::Scalar,
        },
        FunctionSignature {
            name: "rank",
            display_name: "RANK",
            params: &[FunctionParam { name: "expressions", required: false }],
            return_type: Some(ReturnTypeRule::Integer),
            category: FunctionCategory::Window,
        },
        FunctionSignature {
            name: "read_csv",
            display_name: "READ_CSV",
            params: &[FunctionParam { name: "this", required: true }, FunctionParam { name: "expressions", required: false }],
            return_type: None,
            category: FunctionCategory::Scalar,
        },
        FunctionSignature {
            name: "read_parquet",
            display_name: "READ_PARQUET",
            params: &[FunctionParam { name: "expressions", required: true }],
            return_type: None,
            category: FunctionCategory::Scalar,
        },
        FunctionSignature {
            name: "reduce",
            display_name: "REDUCE",
            params: &[FunctionParam { name: "this", required: true }, FunctionParam { name: "initial", required: true }, FunctionParam { name: "merge", required: true }, FunctionParam { name: "finish", required: false }],
            return_type: None,
            category: FunctionCategory::Scalar,
        },
        FunctionSignature {
            name: "regexp_count",
            display_name: "REGEXP_COUNT",
            params: &[FunctionParam { name: "this", required: true }, FunctionParam { name: "expression", required: true }, FunctionParam { name: "position", required: false }, FunctionParam { name: "parameters", required: false }],
            return_type: None,
            category: FunctionCategory::Scalar,
        },
        FunctionSignature {
            name: "regexp_extract",
            display_name: "REGEXP_EXTRACT",
            params: &[FunctionParam { name: "this", required: true }, FunctionParam { name: "expression", required: true }, FunctionParam { name: "position", required: false }, FunctionParam { name: "occurrence", required: false }, FunctionParam { name: "parameters", required: false }, FunctionParam { name: "group", required: false }],
            return_type: None,
            category: FunctionCategory::Scalar,
        },
        FunctionSignature {
            name: "regexp_extract_all",
            display_name: "REGEXP_EXTRACT_ALL",
            params: &[FunctionParam { name: "this", required: true }, FunctionParam { name: "expression", required: true }, FunctionParam { name: "group", required: false }, FunctionParam { name: "parameters", required: false }, FunctionParam { name: "position", required: false }, FunctionParam { name: "occurrence", required: false }],
            return_type: None,
            category: FunctionCategory::Scalar,
        },
        FunctionSignature {
            name: "regexp_full_match",
            display_name: "REGEXP_FULL_MATCH",
            params: &[FunctionParam { name: "this", required: true }, FunctionParam { name: "expression", required: true }, FunctionParam { name: "options", required: false }],
            return_type: None,
            category: FunctionCategory::Scalar,
        },
        FunctionSignature {
            name: "regexp_instr",
            display_name: "REGEXP_INSTR",
            params: &[FunctionParam { name: "this", required: true }, FunctionParam { name: "expression", required: true }, FunctionParam { name: "position", required: false }, FunctionParam { name: "occurrence", required: false }, FunctionParam { name: "option", required: false }, FunctionParam { name: "parameters", required: false }, FunctionParam { name: "group", required: false }],
            return_type: None,
            category: FunctionCategory::Scalar,
        },
        FunctionSignature {
            name: "regexp_i_like",
            display_name: "REGEXP_I_LIKE",
            params: &[FunctionParam { name: "this", required: true }, FunctionParam { name: "expression", required: true }, FunctionParam { name: "flag", required: false }],
            return_type: None,
            category: FunctionCategory::Scalar,
        },
        FunctionSignature {
            name: "regexp_like",
            display_name: "REGEXP_LIKE",
            params: &[FunctionParam { name: "this", required: true }, FunctionParam { name: "expression", required: true }, FunctionParam { name: "flag", required: false }],
            return_type: None,
            category: FunctionCategory::Scalar,
        },
        FunctionSignature {
            name: "regexp_replace",
            display_name: "REGEXP_REPLACE",
            params: &[FunctionParam { name: "this", required: true }, FunctionParam { name: "expression", required: true }, FunctionParam { name: "replacement", required: false }, FunctionParam { name: "position", required: false }, FunctionParam { name: "occurrence", required: false }, FunctionParam { name: "modifiers", required: false }, FunctionParam { name: "single_replace", required: false }],
            return_type: None,
            category: FunctionCategory::Scalar,
        },
        FunctionSignature {
            name: "regexp_split",
            display_name: "REGEXP_SPLIT",
            params: &[FunctionParam { name: "this", required: true }, FunctionParam { name: "expression", required: true }, FunctionParam { name: "limit", required: false }],
            return_type: None,
            category: FunctionCategory::Scalar,
        },
        FunctionSignature {
            name: "regr_avgx",
            display_name: "REGR_AVGX",
            params: &[FunctionParam { name: "this", required: true }, FunctionParam { name: "expression", required: true }],
            return_type: None,
            category: FunctionCategory::Scalar,
        },
        FunctionSignature {
            name: "regr_avgy",
            display_name: "REGR_AVGY",
            params: &[FunctionParam { name: "this", required: true }, FunctionParam { name: "expression", required: true }],
            return_type: None,
            category: FunctionCategory::Scalar,
        },
        FunctionSignature {
            name: "regr_valx",
            display_name: "REGR_VALX",
            params: &[FunctionParam { name: "this", required: true }, FunctionParam { name: "expression", required: true }],
            return_type: None,
            category: FunctionCategory::Scalar,
        },
        FunctionSignature {
            name: "regr_valy",
            display_name: "REGR_VALY",
            params: &[FunctionParam { name: "this", required: true }, FunctionParam { name: "expression", required: true }],
            return_type: None,
            category: FunctionCategory::Scalar,
        },
        FunctionSignature {
            name: "repeat",
            display_name: "REPEAT",
            params: &[FunctionParam { name: "this", required: true }, FunctionParam { name: "times", required: true }],
            return_type: None,
            category: FunctionCategory::Scalar,
        },
        FunctionSignature {
            name: "replace",
            display_name: "REPLACE",
            params: &[FunctionParam { name: "this", required: true }, FunctionParam { name: "expression", required: true }, FunctionParam { name: "replacement", required: false }],
            return_type: Some(ReturnTypeRule::Text),
            category: FunctionCategory::Scalar,
        },
        FunctionSignature {
            name: "reverse",
            display_name: "REVERSE",
            params: &[FunctionParam { name: "this", required: true }],
            return_type: None,
            category: FunctionCategory::Scalar,
        },
        FunctionSignature {
            name: "right",
            display_name: "RIGHT",
            params: &[FunctionParam { name: "this", required: true }, FunctionParam { name: "expression", required: true }],
            return_type: None,
            category: FunctionCategory::Scalar,
        },
        FunctionSignature {
            name: "round",
            display_name: "ROUND",
            params: &[FunctionParam { name: "this", required: true }, FunctionParam { name: "decimals", required: false }, FunctionParam { name: "truncate", required: false }],
            return_type: None,
            category: FunctionCategory::Scalar,
        },
        FunctionSignature {
            name: "row_number",
            display_name: "ROW_NUMBER",
            params: &[FunctionParam { name: "this", required: false }],
            return_type: Some(ReturnTypeRule::Integer),
            category: FunctionCategory::Window,
        },
        FunctionSignature {
            name: "rtrimmed_length",
            display_name: "RTRIMMED_LENGTH",
            params: &[FunctionParam { name: "this", required: true }],
            return_type: None,
            category: FunctionCategory::Scalar,
        },
        FunctionSignature {
            name: "safe_add",
            display_name: "SAFE_ADD",
            params: &[FunctionParam { name: "this", required: true }, FunctionParam { name: "expression", required: true }],
            return_type: None,
            category: FunctionCategory::Scalar,
        },
        FunctionSignature {
            name: "safe_convert_bytes_to_string",
            display_name: "SAFE_CONVERT_BYTES_TO_STRING",
            params: &[FunctionParam { name: "this", required: true }],
            return_type: None,
            category: FunctionCategory::Scalar,
        },
        FunctionSignature {
            name: "safe_divide",
            display_name: "SAFE_DIVIDE",
            params: &[FunctionParam { name: "this", required: true }, FunctionParam { name: "expression", required: true }],
            return_type: None,
            category: FunctionCategory::Scalar,
        },
        FunctionSignature {
            name: "safe_multiply",
            display_name: "SAFE_MULTIPLY",
            params: &[FunctionParam { name: "this", required: true }, FunctionParam { name: "expression", required: true }],
            return_type: None,
            category: FunctionCategory::Scalar,
        },
        FunctionSignature {
            name: "safe_negate",
            display_name: "SAFE_NEGATE",
            params: &[FunctionParam { name: "this", required: true }],
            return_type: None,
            category: FunctionCategory::Scalar,
        },
        FunctionSignature {
            name: "safe_subtract",
            display_name: "SAFE_SUBTRACT",
            params: &[FunctionParam { name: "this", required: true }, FunctionParam { name: "expression", required: true }],
            return_type: None,
            category: FunctionCategory::Scalar,
        },
        FunctionSignature {
            name: "search",
            display_name: "SEARCH",
            params: &[FunctionParam { name: "this", required: true }, FunctionParam { name: "expression", required: true }, FunctionParam { name: "json_scope", required: false }, FunctionParam { name: "analyzer", required: false }, FunctionParam { name: "analyzer_options", required: false }, FunctionParam { name: "search_mode", required: false }],
            return_type: None,
            category: FunctionCategory::Scalar,
        },
        FunctionSignature {
            name: "sec",
            display_name: "SEC",
            params: &[FunctionParam { name: "this", required: true }],
            return_type: None,
            category: FunctionCategory::Scalar,
        },
        FunctionSignature {
            name: "sech",
            display_name: "SECH",
            params: &[FunctionParam { name: "this", required: true }],
            return_type: None,
            category: FunctionCategory::Scalar,
        },
        FunctionSignature {
            name: "second",
            display_name: "SECOND",
            params: &[FunctionParam { name: "this", required: true }],
            return_type: None,
            category: FunctionCategory::Scalar,
        },
        FunctionSignature {
            name: "sha",
            display_name: "SHA",
            params: &[FunctionParam { name: "this", required: true }],
            return_type: None,
            category: FunctionCategory::Scalar,
        },
        FunctionSignature {
            name: "sha2",
            display_name: "SHA2",
            params: &[FunctionParam { name: "this", required: true }, FunctionParam { name: "length", required: false }],
            return_type: None,
            category: FunctionCategory::Scalar,
        },
        FunctionSignature {
            name: "sign",
            display_name: "SIGN",
            params: &[FunctionParam { name: "this", required: true }],
            return_type: None,
            category: FunctionCategory::Scalar,
        },
        FunctionSignature {
            name: "sin",
            display_name: "SIN",
            params: &[FunctionParam { name: "this", required: true }],
            return_type: None,
            category: FunctionCategory::Scalar,
        },
        FunctionSignature {
            name: "sinh",
            display_name: "SINH",
            params: &[FunctionParam { name: "this", required: true }],
            return_type: None,
            category: FunctionCategory::Scalar,
        },
        FunctionSignature {
            name: "skewness",
            display_name: "SKEWNESS",
            params: &[FunctionParam { name: "this", required: true }],
            return_type: None,
            category: FunctionCategory::Aggregate,
        },
        FunctionSignature {
            name: "sort_array",
            display_name: "SORT_ARRAY",
            params: &[FunctionParam { name: "this", required: true }, FunctionParam { name: "asc", required: false }, FunctionParam { name: "nulls_first", required: false }],
            return_type: None,
            category: FunctionCategory::Scalar,
        },
        FunctionSignature {
            name: "soundex",
            display_name: "SOUNDEX",
            params: &[FunctionParam { name: "this", required: true }],
            return_type: None,
            category: FunctionCategory::Scalar,
        },
        FunctionSignature {
            name: "soundex_p123",
            display_name: "SOUNDEX_P123",
            params: &[FunctionParam { name: "this", required: true }],
            return_type: None,
            category: FunctionCategory::Scalar,
        },
        FunctionSignature {
            name: "space",
            display_name: "SPACE",
            params: &[FunctionParam { name: "this", required: true }],
            return_type: None,
            category: FunctionCategory::Scalar,
        },
        FunctionSignature {
            name: "split",
            display_name: "SPLIT",
            params: &[FunctionParam { name: "this", required: true }, FunctionParam { name: "expression", required: true }, FunctionParam { name: "limit", required: false }],
            return_type: None,
            category: FunctionCategory::Scalar,
        },
        FunctionSignature {
            name: "string_to_array",
            display_name: "STRING_TO_ARRAY",
            params: &[FunctionParam { name: "this", required: true }, FunctionParam { name: "expression", required: false }, FunctionParam { name: "null", required: false }],
            return_type: None,
            category: FunctionCategory::Scalar,
        },
        FunctionSignature {
            name: "split_part",
            display_name: "SPLIT_PART",
            params: &[FunctionParam { name: "this", required: true }, FunctionParam { name: "delimiter", required: false }, FunctionParam { name: "part_index", required: false }],
            return_type: None,
            category: FunctionCategory::Scalar,
        },
        FunctionSignature {
            name: "sqrt",
            display_name: "SQRT",
            params: &[FunctionParam { name: "this", required: true }],
            return_type: None,
            category: FunctionCategory::Scalar,
        },
        FunctionSignature {
            name: "standard_hash",
            display_name: "STANDARD_HASH",
            params: &[FunctionParam { name: "this", required: true }, FunctionParam { name: "expression", required: false }],
            return_type: None,
            category: FunctionCategory::Scalar,
        },
        FunctionSignature {
            name: "starts_with",
            display_name: "STARTS_WITH",
            params: &[FunctionParam { name: "this", required: true }, FunctionParam { name: "expression", required: true }],
            return_type: None,
            category: FunctionCategory::Scalar,
        },
        FunctionSignature {
            name: "star_map",
            display_name: "STAR_MAP",
            params: &[FunctionParam { name: "this", required: true }],
            return_type: None,
            category: FunctionCategory::Scalar,
        },
        FunctionSignature {
            name: "stddev",
            display_name: "STDDEV",
            params: &[FunctionParam { name: "this", required: true }],
            return_type: None,
            category: FunctionCategory::Aggregate,
        },
        FunctionSignature {
            name: "stddev_pop",
            display_name: "STDDEV_POP",
            params: &[FunctionParam { name: "this", required: true }],
            return_type: None,
            category: FunctionCategory::Aggregate,
        },
        FunctionSignature {
            name: "stddev_samp",
            display_name: "STDDEV_SAMP",
            params: &[FunctionParam { name: "this", required: true }],
            return_type: None,
            category: FunctionCategory::Aggregate,
        },
        FunctionSignature {
            name: "string",
            display_name: "STRING",
            params: &[FunctionParam { name: "this", required: true }, FunctionParam { name: "zone", required: false }],
            return_type: None,
            category: FunctionCategory::Scalar,
        },
        FunctionSignature {
            name: "struct",
            display_name: "STRUCT",
            params: &[FunctionParam { name: "expressions", required: false }],
            return_type: None,
            category: FunctionCategory::Scalar,
        },
        FunctionSignature {
            name: "struct_extract",
            display_name: "STRUCT_EXTRACT",
            params: &[FunctionParam { name: "this", required: true }, FunctionParam { name: "expression", required: true }],
            return_type: None,
            category: FunctionCategory::Scalar,
        },
        FunctionSignature {
            name: "str_position",
            display_name: "STR_POSITION",
            params: &[FunctionParam { name: "this", required: true }, FunctionParam { name: "substr", required: true }, FunctionParam { name: "position", required: false }, FunctionParam { name: "occurrence", required: false }],
            return_type: None,
            category: FunctionCategory::Scalar,
        },
        FunctionSignature {
            name: "str_to_date",
            display_name: "STR_TO_DATE",
            params: &[FunctionParam { name: "this", required: true }, FunctionParam { name: "format", required: false }, FunctionParam { name: "safe", required: false }],
            return_type: None,
            category: FunctionCategory::Scalar,
        },
        FunctionSignature {
            name: "str_to_map",
            display_name: "STR_TO_MAP",
            params: &[FunctionParam { name: "this", required: true }, FunctionParam { name: "pair_delim", required: false }, FunctionParam { name: "key_value_delim", required: false }, FunctionParam { name: "duplicate_resolution_callback", required: false }],
            return_type: None,
            category: FunctionCategory::Scalar,
        },
        FunctionSignature {
            name: "str_to_time",
            display_name: "STR_TO_TIME",
            params: &[FunctionParam { name: "this", required: true }, FunctionParam { name: "format", required: true }, FunctionParam { name: "zone", required: false }, FunctionParam { name: "safe", required: false }],
            return_type: None,
            category: FunctionCategory::Scalar,
        },
        FunctionSignature {
            name: "str_to_unix",
            display_name: "STR_TO_UNIX",
            params: &[FunctionParam { name: "this", required: false }, FunctionParam { name: "format", required: false }],
            return_type: None,
            category: FunctionCategory::Scalar,
        },
        FunctionSignature {
            name: "st_distance",
            display_name: "ST_DISTANCE",
            params: &[FunctionParam { name: "this", required: true }, FunctionParam { name: "expression", required: true }, FunctionParam { name: "use_spheroid", required: false }],
            return_type: None,
            category: FunctionCategory::Scalar,
        },
        FunctionSignature {
            name: "st_point",
            display_name: "ST_POINT",
            params: &[FunctionParam { name: "this", required: true }, FunctionParam { name: "expression", required: true }, FunctionParam { name: "null", required: false }],
            return_type: None,
            category: FunctionCategory::Scalar,
        },
        FunctionSignature {
            name: "substring",
            display_name: "SUBSTRING",
            params: &[FunctionParam { name: "this", required: true }, FunctionParam { name: "start", required: false }, FunctionParam { name: "length", required: false }],
            return_type: Some(ReturnTypeRule::Text),
            category: FunctionCategory::Scalar,
        },
        FunctionSignature {
            name: "substring_index",
            display_name: "SUBSTRING_INDEX",
            params: &[FunctionParam { name: "this", required: true }, FunctionParam { name: "delimiter", required: true }, FunctionParam { name: "count", required: true }],
            return_type: None,
            category: FunctionCategory::Scalar,
        },
        FunctionSignature {
            name: "sum",
            display_name: "SUM",
            params: &[FunctionParam { name: "this", required: true }],
            return_type: Some(ReturnTypeRule::Numeric),
            category: FunctionCategory::Aggregate,
        },
        FunctionSignature {
            name: "sha1digest",
            display_name: "SHA1DIGEST",
            params: &[FunctionParam { name: "this", required: true }],
            return_type: None,
            category: FunctionCategory::Scalar,
        },
        FunctionSignature {
            name: "sha2digest",
            display_name: "SHA2DIGEST",
            params: &[FunctionParam { name: "this", required: true }, FunctionParam { name: "length", required: false }],
            return_type: None,
            category: FunctionCategory::Scalar,
        },
        FunctionSignature {
            name: "tan",
            display_name: "TAN",
            params: &[FunctionParam { name: "this", required: true }],
            return_type: None,
            category: FunctionCategory::Scalar,
        },
        FunctionSignature {
            name: "tanh",
            display_name: "TANH",
            params: &[FunctionParam { name: "this", required: true }],
            return_type: None,
            category: FunctionCategory::Scalar,
        },
        FunctionSignature {
            name: "time",
            display_name: "TIME",
            params: &[FunctionParam { name: "this", required: false }, FunctionParam { name: "zone", required: false }],
            return_type: None,
            category: FunctionCategory::Scalar,
        },
        FunctionSignature {
            name: "time_from_parts",
            display_name: "TIME_FROM_PARTS",
            params: &[FunctionParam { name: "hour", required: true }, FunctionParam { name: "min", required: true }, FunctionParam { name: "sec", required: true }, FunctionParam { name: "nano", required: false }, FunctionParam { name: "fractions", required: false }, FunctionParam { name: "precision", required: false }],
            return_type: None,
            category: FunctionCategory::Scalar,
        },
        FunctionSignature {
            name: "timestamp",
            display_name: "TIMESTAMP",
            params: &[FunctionParam { name: "this", required: false }, FunctionParam { name: "zone", required: false }, FunctionParam { name: "with_tz", required: false }],
            return_type: None,
            category: FunctionCategory::Scalar,
        },
        FunctionSignature {
            name: "timestamp_diff",
            display_name: "TIMESTAMP_DIFF",
            params: &[FunctionParam { name: "this", required: true }, FunctionParam { name: "expression", required: true }, FunctionParam { name: "unit", required: false }],
            return_type: None,
            category: FunctionCategory::Scalar,
        },
        FunctionSignature {
            name: "timestamp_from_parts",
            display_name: "TIMESTAMP_FROM_PARTS",
            params: &[FunctionParam { name: "year", required: false }, FunctionParam { name: "month", required: false }, FunctionParam { name: "day", required: false }, FunctionParam { name: "hour", required: false }, FunctionParam { name: "min", required: false }, FunctionParam { name: "sec", required: false }, FunctionParam { name: "nano", required: false }, FunctionParam { name: "zone", required: false }, FunctionParam { name: "milli", required: false }, FunctionParam { name: "this", required: false }, FunctionParam { name: "expression", required: false }],
            return_type: None,
            category: FunctionCategory::Scalar,
        },
        FunctionSignature {
            name: "timestamp_ltz_from_parts",
            display_name: "TIMESTAMP_LTZ_FROM_PARTS",
            params: &[FunctionParam { name: "year", required: false }, FunctionParam { name: "month", required: false }, FunctionParam { name: "day", required: false }, FunctionParam { name: "hour", required: false }, FunctionParam { name: "min", required: false }, FunctionParam { name: "sec", required: false }, FunctionParam { name: "nano", required: false }],
            return_type: None,
            category: FunctionCategory::Scalar,
        },
        FunctionSignature {
            name: "timestamp_tz_from_parts",
            display_name: "TIMESTAMP_TZ_FROM_PARTS",
            params: &[FunctionParam { name: "year", required: false }, FunctionParam { name: "month", required: false }, FunctionParam { name: "day", required: false }, FunctionParam { name: "hour", required: false }, FunctionParam { name: "min", required: false }, FunctionParam { name: "sec", required: false }, FunctionParam { name: "nano", required: false }, FunctionParam { name: "zone", required: false }],
            return_type: None,
            category: FunctionCategory::Scalar,
        },
        FunctionSignature {
            name: "timestamp_add",
            display_name: "TIMESTAMP_ADD",
            params: &[FunctionParam { name: "this", required: true }, FunctionParam { name: "expression", required: true }, FunctionParam { name: "unit", required: false }],
            return_type: None,
            category: FunctionCategory::Scalar,
        },
        FunctionSignature {
            name: "timestamp_sub",
            display_name: "TIMESTAMP_SUB",
            params: &[FunctionParam { name: "this", required: true }, FunctionParam { name: "expression", required: true }, FunctionParam { name: "unit", required: false }],
            return_type: None,
            category: FunctionCategory::Scalar,
        },
        FunctionSignature {
            name: "timestamp_trunc",
            display_name: "TIMESTAMP_TRUNC",
            params: &[FunctionParam { name: "this", required: true }, FunctionParam { name: "unit", required: true }, FunctionParam { name: "zone", required: false }],
            return_type: None,
            category: FunctionCategory::Scalar,
        },
        FunctionSignature {
            name: "time_add",
            display_name: "TIME_ADD",
            params: &[FunctionParam { name: "this", required: true }, FunctionParam { name: "expression", required: true }, FunctionParam { name: "unit", required: false }],
            return_type: None,
            category: FunctionCategory::Scalar,
        },
        FunctionSignature {
            name: "time_diff",
            display_name: "TIME_DIFF",
            params: &[FunctionParam { name: "this", required: true }, FunctionParam { name: "expression", required: true }, FunctionParam { name: "unit", required: false }],
            return_type: None,
            category: FunctionCategory::Scalar,
        },
        FunctionSignature {
            name: "time_slice",
            display_name: "TIME_SLICE",
            params: &[FunctionParam { name: "this", required: true }, FunctionParam { name: "expression", required: true }, FunctionParam { name: "unit", required: true }, FunctionParam { name: "kind", required: false }],
            return_type: None,
            category: FunctionCategory::Scalar,
        },
        FunctionSignature {
            name: "time_str_to_date",
            display_name: "TIME_STR_TO_DATE",
            params: &[FunctionParam { name: "this", required: true }],
            return_type: None,
            category: FunctionCategory::Scalar,
        },
        FunctionSignature {
            name: "time_str_to_time",
            display_name: "TIME_STR_TO_TIME",
            params: &[FunctionParam { name: "this", required: true }, FunctionParam { name: "zone", required: false }],
            return_type: None,
            category: FunctionCategory::Scalar,
        },
        FunctionSignature {
            name: "time_str_to_unix",
            display_name: "TIME_STR_TO_UNIX",
            params: &[FunctionParam { name: "this", required: true }],
            return_type: None,
            category: FunctionCategory::Scalar,
        },
        FunctionSignature {
            name: "time_sub",
            display_name: "TIME_SUB",
            params: &[FunctionParam { name: "this", required: true }, FunctionParam { name: "expression", required: true }, FunctionParam { name: "unit", required: false }],
            return_type: None,
            category: FunctionCategory::Scalar,
        },
        FunctionSignature {
            name: "time_to_str",
            display_name: "TIME_TO_STR",
            params: &[FunctionParam { name: "this", required: true }, FunctionParam { name: "format", required: true }, FunctionParam { name: "culture", required: false }, FunctionParam { name: "zone", required: false }],
            return_type: None,
            category: FunctionCategory::Scalar,
        },
        FunctionSignature {
            name: "time_to_time_str",
            display_name: "TIME_TO_TIME_STR",
            params: &[FunctionParam { name: "this", required: true }],
            return_type: None,
            category: FunctionCategory::Scalar,
        },
        FunctionSignature {
            name: "time_to_unix",
            display_name: "TIME_TO_UNIX",
            params: &[FunctionParam { name: "this", required: true }],
            return_type: None,
            category: FunctionCategory::Scalar,
        },
        FunctionSignature {
            name: "time_trunc",
            display_name: "TIME_TRUNC",
            params: &[FunctionParam { name: "this", required: true }, FunctionParam { name: "unit", required: true }, FunctionParam { name: "zone", required: false }],
            return_type: None,
            category: FunctionCategory::Scalar,
        },
        FunctionSignature {
            name: "to_array",
            display_name: "TO_ARRAY",
            params: &[FunctionParam { name: "this", required: true }],
            return_type: None,
            category: FunctionCategory::Scalar,
        },
        FunctionSignature {
            name: "to_base32",
            display_name: "TO_BASE32",
            params: &[FunctionParam { name: "this", required: true }],
            return_type: None,
            category: FunctionCategory::Scalar,
        },
        FunctionSignature {
            name: "to_base64",
            display_name: "TO_BASE64",
            params: &[FunctionParam { name: "this", required: true }],
            return_type: None,
            category: FunctionCategory::Scalar,
        },
        FunctionSignature {
            name: "to_char",
            display_name: "TO_CHAR",
            params: &[FunctionParam { name: "this", required: true }, FunctionParam { name: "format", required: false }, FunctionParam { name: "nlsparam", required: false }, FunctionParam { name: "is_numeric", required: false }],
            return_type: None,
            category: FunctionCategory::Scalar,
        },
        FunctionSignature {
            name: "to_code_points",
            display_name: "TO_CODE_POINTS",
            params: &[FunctionParam { name: "this", required: true }],
            return_type: None,
            category: FunctionCategory::Scalar,
        },
        FunctionSignature {
            name: "to_days",
            display_name: "TO_DAYS",
            params: &[FunctionParam { name: "this", required: true }],
            return_type: None,
            category: FunctionCategory::Scalar,
        },
        FunctionSignature {
            name: "to_double",
            display_name: "TO_DOUBLE",
            params: &[FunctionParam { name: "this", required: true }, FunctionParam { name: "format", required: false }],
            return_type: None,
            category: FunctionCategory::Scalar,
        },
        FunctionSignature {
            name: "to_map",
            display_name: "TO_MAP",
            params: &[FunctionParam { name: "this", required: true }],
            return_type: None,
            category: FunctionCategory::Scalar,
        },
        FunctionSignature {
            name: "to_number",
            display_name: "TO_NUMBER",
            params: &[FunctionParam { name: "this", required: true }, FunctionParam { name: "format", required: false }, FunctionParam { name: "nlsparam", required: false }, FunctionParam { name: "precision", required: false }, FunctionParam { name: "scale", required: false }],
            return_type: None,
            category: FunctionCategory::Scalar,
        },
        FunctionSignature {
            name: "transform",
            display_name: "TRANSFORM",
            params: &[FunctionParam { name: "this", required: true }, FunctionParam { name: "expression", required: true }],
            return_type: None,
            category: FunctionCategory::Scalar,
        },
        FunctionSignature {
            name: "translate",
            display_name: "TRANSLATE",
            params: &[FunctionParam { name: "this", required: true }, FunctionParam { name: "from_", required: true }, FunctionParam { name: "to", required: true }],
            return_type: None,
            category: FunctionCategory::Scalar,
        },
        FunctionSignature {
            name: "trim",
            display_name: "TRIM",
            params: &[FunctionParam { name: "this", required: true }, FunctionParam { name: "expression", required: false }, FunctionParam { name: "position", required: false }, FunctionParam { name: "collation", required: false }],
            return_type: Some(ReturnTypeRule::Text),
            category: FunctionCategory::Scalar,
        },
        FunctionSignature {
            name: "try",
            display_name: "TRY",
            params: &[FunctionParam { name: "this", required: true }],
            return_type: None,
            category: FunctionCategory::Scalar,
        },
        FunctionSignature {
            name: "try_base64decode_binary",
            display_name: "TRY_BASE64DECODE_BINARY",
            params: &[FunctionParam { name: "this", required: true }, FunctionParam { name: "alphabet", required: false }],
            return_type: None,
            category: FunctionCategory::Scalar,
        },
        FunctionSignature {
            name: "try_base64decode_string",
            display_name: "TRY_BASE64DECODE_STRING",
            params: &[FunctionParam { name: "this", required: true }, FunctionParam { name: "alphabet", required: false }],
            return_type: None,
            category: FunctionCategory::Scalar,
        },
        FunctionSignature {
            name: "try_cast",
            display_name: "TRY_CAST",
            params: &[FunctionParam { name: "this", required: true }, FunctionParam { name: "to", required: true }, FunctionParam { name: "format", required: false }, FunctionParam { name: "safe", required: false }, FunctionParam { name: "action", required: false }, FunctionParam { name: "default", required: false }, FunctionParam { name: "requires_string", required: false }],
            return_type: None,
            category: FunctionCategory::Scalar,
        },
        FunctionSignature {
            name: "try_hex_decode_binary",
            display_name: "TRY_HEX_DECODE_BINARY",
            params: &[FunctionParam { name: "this", required: true }],
            return_type: None,
            category: FunctionCategory::Scalar,
        },
        FunctionSignature {
            name: "try_hex_decode_string",
            display_name: "TRY_HEX_DECODE_STRING",
            params: &[FunctionParam { name: "this", required: true }],
            return_type: None,
            category: FunctionCategory::Scalar,
        },
        FunctionSignature {
            name: "ts_or_di_to_di",
            display_name: "TS_OR_DI_TO_DI",
            params: &[FunctionParam { name: "this", required: true }],
            return_type: None,
            category: FunctionCategory::Scalar,
        },
        FunctionSignature {
            name: "ts_or_ds_add",
            display_name: "TS_OR_DS_ADD",
            params: &[FunctionParam { name: "this", required: true }, FunctionParam { name: "expression", required: true }, FunctionParam { name: "unit", required: false }, FunctionParam { name: "return_type", required: false }],
            return_type: None,
            category: FunctionCategory::Scalar,
        },
        FunctionSignature {
            name: "ts_or_ds_diff",
            display_name: "TS_OR_DS_DIFF",
            params: &[FunctionParam { name: "this", required: true }, FunctionParam { name: "expression", required: true }, FunctionParam { name: "unit", required: false }],
            return_type: None,
            category: FunctionCategory::Scalar,
        },
        FunctionSignature {
            name: "ts_or_ds_to_date",
            display_name: "TS_OR_DS_TO_DATE",
            params: &[FunctionParam { name: "this", required: true }, FunctionParam { name: "format", required: false }, FunctionParam { name: "safe", required: false }],
            return_type: None,
            category: FunctionCategory::Scalar,
        },
        FunctionSignature {
            name: "ts_or_ds_to_datetime",
            display_name: "TS_OR_DS_TO_DATETIME",
            params: &[FunctionParam { name: "this", required: true }],
            return_type: None,
            category: FunctionCategory::Scalar,
        },
        FunctionSignature {
            name: "ts_or_ds_to_date_str",
            display_name: "TS_OR_DS_TO_DATE_STR",
            params: &[FunctionParam { name: "this", required: true }],
            return_type: None,
            category: FunctionCategory::Scalar,
        },
        FunctionSignature {
            name: "ts_or_ds_to_time",
            display_name: "TS_OR_DS_TO_TIME",
            params: &[FunctionParam { name: "this", required: true }, FunctionParam { name: "format", required: false }, FunctionParam { name: "safe", required: false }],
            return_type: None,
            category: FunctionCategory::Scalar,
        },
        FunctionSignature {
            name: "ts_or_ds_to_timestamp",
            display_name: "TS_OR_DS_TO_TIMESTAMP",
            params: &[FunctionParam { name: "this", required: true }],
            return_type: None,
            category: FunctionCategory::Scalar,
        },
        FunctionSignature {
            name: "typeof",
            display_name: "TYPEOF",
            params: &[FunctionParam { name: "this", required: true }],
            return_type: None,
            category: FunctionCategory::Scalar,
        },
        FunctionSignature {
            name: "upper",
            display_name: "UPPER",
            params: &[FunctionParam { name: "this", required: true }],
            return_type: Some(ReturnTypeRule::Text),
            category: FunctionCategory::Scalar,
        },
        FunctionSignature {
            name: "unhex",
            display_name: "UNHEX",
            params: &[FunctionParam { name: "this", required: true }, FunctionParam { name: "expression", required: false }],
            return_type: None,
            category: FunctionCategory::Scalar,
        },
        FunctionSignature {
            name: "unicode",
            display_name: "UNICODE",
            params: &[FunctionParam { name: "this", required: true }],
            return_type: None,
            category: FunctionCategory::Scalar,
        },
        FunctionSignature {
            name: "unix_date",
            display_name: "UNIX_DATE",
            params: &[FunctionParam { name: "this", required: true }],
            return_type: None,
            category: FunctionCategory::Scalar,
        },
        FunctionSignature {
            name: "unix_micros",
            display_name: "UNIX_MICROS",
            params: &[FunctionParam { name: "this", required: true }],
            return_type: None,
            category: FunctionCategory::Scalar,
        },
        FunctionSignature {
            name: "unix_millis",
            display_name: "UNIX_MILLIS",
            params: &[FunctionParam { name: "this", required: true }],
            return_type: None,
            category: FunctionCategory::Scalar,
        },
        FunctionSignature {
            name: "unix_seconds",
            display_name: "UNIX_SECONDS",
            params: &[FunctionParam { name: "this", required: true }],
            return_type: None,
            category: FunctionCategory::Scalar,
        },
        FunctionSignature {
            name: "unix_to_str",
            display_name: "UNIX_TO_STR",
            params: &[FunctionParam { name: "this", required: true }, FunctionParam { name: "format", required: false }],
            return_type: None,
            category: FunctionCategory::Scalar,
        },
        FunctionSignature {
            name: "unix_to_time",
            display_name: "UNIX_TO_TIME",
            params: &[FunctionParam { name: "this", required: true }, FunctionParam { name: "scale", required: false }, FunctionParam { name: "zone", required: false }, FunctionParam { name: "hours", required: false }, FunctionParam { name: "minutes", required: false }, FunctionParam { name: "format", required: false }],
            return_type: None,
            category: FunctionCategory::Scalar,
        },
        FunctionSignature {
            name: "unix_to_time_str",
            display_name: "UNIX_TO_TIME_STR",
            params: &[FunctionParam { name: "this", required: true }],
            return_type: None,
            category: FunctionCategory::Scalar,
        },
        FunctionSignature {
            name: "unnest",
            display_name: "UNNEST",
            params: &[FunctionParam { name: "expressions", required: true }, FunctionParam { name: "alias", required: false }, FunctionParam { name: "offset", required: false }, FunctionParam { name: "explode_array", required: false }],
            return_type: None,
            category: FunctionCategory::Scalar,
        },
        FunctionSignature {
            name: "utc_date",
            display_name: "UTC_DATE",
            params: &[],
            return_type: None,
            category: FunctionCategory::Scalar,
        },
        FunctionSignature {
            name: "utc_time",
            display_name: "UTC_TIME",
            params: &[FunctionParam { name: "this", required: false }],
            return_type: None,
            category: FunctionCategory::Scalar,
        },
        FunctionSignature {
            name: "utc_timestamp",
            display_name: "UTC_TIMESTAMP",
            params: &[FunctionParam { name: "this", required: false }],
            return_type: None,
            category: FunctionCategory::Scalar,
        },
        FunctionSignature {
            name: "variance",
            display_name: "VARIANCE",
            params: &[FunctionParam { name: "this", required: true }],
            return_type: None,
            category: FunctionCategory::Aggregate,
        },
        FunctionSignature {
            name: "variance_pop",
            display_name: "VARIANCE_POP",
            params: &[FunctionParam { name: "this", required: true }],
            return_type: None,
            category: FunctionCategory::Aggregate,
        },
        FunctionSignature {
            name: "var_map",
            display_name: "VAR_MAP",
            params: &[FunctionParam { name: "keys", required: true }, FunctionParam { name: "values", required: true }],
            return_type: None,
            category: FunctionCategory::Scalar,
        },
        FunctionSignature {
            name: "vector_search",
            display_name: "VECTOR_SEARCH",
            params: &[FunctionParam { name: "this", required: true }, FunctionParam { name: "column_to_search", required: true }, FunctionParam { name: "query_table", required: true }, FunctionParam { name: "query_column_to_search", required: false }, FunctionParam { name: "top_k", required: false }, FunctionParam { name: "distance_type", required: false }, FunctionParam { name: "options", required: false }],
            return_type: None,
            category: FunctionCategory::Scalar,
        },
        FunctionSignature {
            name: "week",
            display_name: "WEEK",
            params: &[FunctionParam { name: "this", required: true }, FunctionParam { name: "mode", required: false }],
            return_type: None,
            category: FunctionCategory::Scalar,
        },
        FunctionSignature {
            name: "week_of_year",
            display_name: "WEEK_OF_YEAR",
            params: &[FunctionParam { name: "this", required: true }],
            return_type: None,
            category: FunctionCategory::Scalar,
        },
        FunctionSignature {
            name: "width_bucket",
            display_name: "WIDTH_BUCKET",
            params: &[FunctionParam { name: "this", required: true }, FunctionParam { name: "min_value", required: true }, FunctionParam { name: "max_value", required: true }, FunctionParam { name: "num_buckets", required: true }],
            return_type: None,
            category: FunctionCategory::Scalar,
        },
        FunctionSignature {
            name: "xml_element",
            display_name: "XML_ELEMENT",
            params: &[FunctionParam { name: "this", required: true }, FunctionParam { name: "expressions", required: false }],
            return_type: None,
            category: FunctionCategory::Scalar,
        },
        FunctionSignature {
            name: "xor",
            display_name: "XOR",
            params: &[FunctionParam { name: "this", required: false }, FunctionParam { name: "expression", required: false }, FunctionParam { name: "expressions", required: false }],
            return_type: None,
            category: FunctionCategory::Scalar,
        },
        FunctionSignature {
            name: "xml_table",
            display_name: "XML_TABLE",
            params: &[FunctionParam { name: "this", required: true }, FunctionParam { name: "namespaces", required: false }, FunctionParam { name: "passing", required: false }, FunctionParam { name: "columns", required: false }, FunctionParam { name: "by_ref", required: false }],
            return_type: None,
            category: FunctionCategory::Scalar,
        },
        FunctionSignature {
            name: "year",
            display_name: "YEAR",
            params: &[FunctionParam { name: "this", required: true }],
            return_type: None,
            category: FunctionCategory::Scalar,
        },
        FunctionSignature {
            name: "year_of_week",
            display_name: "YEAR_OF_WEEK",
            params: &[FunctionParam { name: "this", required: true }],
            return_type: None,
            category: FunctionCategory::Scalar,
        },
        FunctionSignature {
            name: "year_of_week_iso",
            display_name: "YEAR_OF_WEEK_ISO",
            params: &[FunctionParam { name: "this", required: true }],
            return_type: None,
            category: FunctionCategory::Scalar,
        },
    ]
}

/// Every known function signature, keyed by lowercase name.
pub open spec fn spec_function_signature_table() -> Seq<FunctionSignature> {
    seq![
        FunctionSignature {
            name: "abs",
            display_name: "ABS",
            params: &[FunctionParam { name: "this", required: true }],
            return_type: None,
            category: FunctionCategory::Scalar,
        },
        FunctionSignature {
            name: "acos",
            display_name: "ACOS",
            params: &[FunctionParam { name: "this", required: true }],
            return_type: None,
            category: FunctionCategory::Scalar,
        },
        FunctionSignature {
            name: "acosh",
            display_name: "ACOSH",
            params: &[FunctionParam { name: "this", required: true }],
            return_type: None,
            category: FunctionCategory::Scalar,
        },
        FunctionSignature {
            name: "add_months",
            display_name: "ADD_MONTHS",
            params: &[FunctionParam { name: "this", required: true }, FunctionParam { name: "expression", required: true }],
            return_type: None,
            category: FunctionCategory::Scalar,
        },
        FunctionSignature {
            name: "agg_func",
            display_name: "AGG_FUNC",
            params: &[FunctionParam { name: "this", required: true }],
            return_type: None,
            category: FunctionCategory::Aggregate,
        },
        FunctionSignature {
            name: "ai_agg",
            display_name: "AI_AGG",
            params: &[FunctionParam { name: "this", required: true }, FunctionParam { name: "expression", required: true }],
            return_type: None,
            category: FunctionCategory::Aggregate,
        },
        FunctionSignature {
            name: "ai_classify",
            display_name: "AI_CLASSIFY",
            params: &[FunctionParam { name: "this", required: true }, FunctionParam { name: "categories", required: true }, FunctionParam { name: "config", required: false }],
            return_type: None,
            category: FunctionCategory::Scalar,
        },
        FunctionSignature {
            name: "ai_summarize_agg",
            display_name: "AI_SUMMARIZE_AGG",
            params: &[FunctionParam { name: "this", required: true }],
            return_type: None,
            category: FunctionCategory::Aggregate,
        },
        FunctionSignature {
            name: "and",
            display_name: "AND",
            params: &[FunctionParam { name: "this", required: true }, FunctionParam { name: "expression", required: true }],
            return_type: Some(ReturnTypeRule::Boolean),
            category: FunctionCategory::Scalar,
        },
        FunctionSignature {
            name: "any_value",
            display_name: "ANY_VALUE",
            params: &[FunctionParam { name: "this", required: true }],
            return_type: Some(ReturnTypeRule::MatchFirstArg),
            category: FunctionCategory::Aggregate,
        },
        FunctionSignature {
            name: "apply",
            display_name: "APPLY",
            params: &[FunctionParam { name: "this", required: true }, FunctionParam { name: "expression", required: true }],
            return_type: None,
            category: FunctionCategory::Scalar,
        },
        FunctionSignature {
            name: "approximate_similarity",
            display_name: "APPROXIMATE_SIMILARITY",
            params: &[FunctionParam { name: "this", required: true }],
            return_type: None,
            category: FunctionCategory::Aggregate,
        },
        FunctionSignature {
            name: "approx_distinct",
            display_name: "APPROX_DISTINCT",
            params: &[FunctionParam { name: "this", required: true }, FunctionParam { name: "accuracy", required: false }],
            return_type: None,
            category: FunctionCategory::Aggregate,
        },
        FunctionSignature {
            name: "approx_quantile",
            display_name: "APPROX_QUANTILE",
            params: &[FunctionParam { name: "this", required: true }, FunctionParam { name: "quantile", required: true }, FunctionParam { name: "accuracy", required: false }, FunctionParam { name: "weight", required: false }, FunctionParam { name: "error_tolerance", required: false }],
            return_type: None,
            category: FunctionCategory::Aggregate,
        },
        FunctionSignature {
            name: "approx_quantiles",
            display_name: "APPROX_QUANTILES",
            params: &[FunctionParam { name: "this", required: true }, FunctionParam { name: "expression", required: false }],
            return_type: None,
            category: FunctionCategory::Aggregate,
        },
        FunctionSignature {
            name: "approx_top_k",
            display_name: "APPROX_TOP_K",
            params: &[FunctionParam { name: "this", required: true }, FunctionParam { name: "expression", required: false }, FunctionParam { name: "counters", required: false }],
            return_type: None,
            category: FunctionCategory::Aggregate,
        },
        FunctionSignature {
            name: "approx_top_k_accumulate",
            display_name: "APPROX_TOP_K_ACCUMULATE",
            params: &[FunctionParam { name: "this", required: true }, FunctionParam { name: "expression", required: false }],
            return_type: None,
            category: FunctionCategory::Aggregate,
        },
        FunctionSignature {
            name: "approx_top_k_combine",
            display_name: "APPROX_TOP_K_COMBINE",
            params: &[FunctionParam { name: "this", required: true }, FunctionParam { name: "expression", required: false }],
            return_type: None,
            category: FunctionCategory::Aggregate,
        },
        FunctionSignature {
            name: "approx_top_sum",
            display_name: "APPROX_TOP_SUM",
            params: &[FunctionParam { name: "this", required: true }, FunctionParam { name: "expression", required: true }, FunctionParam { name: "count", required: true }],
            return_type: None,
            category: FunctionCategory::Aggregate,
        },
        FunctionSignature {
            name: "arg_max",
            display_name: "ARG_MAX",
            params: &[FunctionParam { name: "this", required: true }, FunctionParam { name: "expression", required: true }, FunctionParam { name: "count", required: false }],
            return_type: None,
            category: FunctionCategory::Aggregate,
        },
        FunctionSignature {
            name: "arg_min",
            display_name: "ARG_MIN",
            params: &[FunctionParam { name: "this", required: true }, FunctionParam { name: "expression", required: true }, FunctionParam { name: "count", required: false }],
            return_type: None,
            category: FunctionCategory::Aggregate,
        },
        FunctionSignature {
            name: "array",
            display_name: "ARRAY",
            params: &[FunctionParam { name: "expressions", required: false }],
            return_type: None,
            category: FunctionCategory::Scalar,
        },
        FunctionSignature {
            name: "array_agg",
            display_name: "ARRAY_AGG",
            params: &[FunctionParam { name: "this", required: true }],
            return_type: None,
            category: FunctionCategory::Aggregate,
        },
        FunctionSignature {
            name: "array_all",
            display_name: "ARRAY_ALL",
            params: &[FunctionParam { name: "this", required: true }, FunctionParam { name: "expression", required: true }],
            return_type: None,
            category: FunctionCategory::Scalar,
        },
        FunctionSignature {
            name: "array_any",
            display_name: "ARRAY_ANY",
            params: &[FunctionParam { name: "this", required: true }, FunctionParam { name: "expression", required: true }],
            return_type: None,
            category: FunctionCategory::Scalar,
        },
        FunctionSignature {
            name: "array_concat",
            display_name: "ARRAY_CONCAT",
            params: &[FunctionParam { name: "this", required: true }, FunctionParam { name: "expressions", required: false }],
            return_type: None,
            category: FunctionCategory::Scalar,
        },
        FunctionSignature {
            name: "array_concat_agg",
            display_name: "ARRAY_CONCAT_AGG",
            params: &[FunctionParam { name: "this", required: true }],
            return_type: None,
            category: FunctionCategory::Aggregate,
        },
        FunctionSignature {
            name: "array_construct_compact",
            display_name: "ARRAY_CONSTRUCT_COMPACT",
            params: &[FunctionParam { name: "expressions", required: true }],
            return_type: None,
            category: FunctionCategory::Scalar,
        },
        FunctionSignature {
            name: "array_contains",
            display_name: "ARRAY_CONTAINS",
            params: &[FunctionParam { name: "this", required: true }, FunctionParam { name: "expression", required: true }],
            return_type: None,
            category: FunctionCategory::Scalar,
        },
        FunctionSignature {
            name: "array_contains_all",
            display_name: "ARRAY_CONTAINS_ALL",
            params: &[FunctionParam { name: "this", required: true }, FunctionParam { name: "expression", required: true }],
            return_type: None,
            category: FunctionCategory::Scalar,
        },
        FunctionSignature {
            name: "array_filter",
            display_name: "ARRAY_FILTER",
            params: &[FunctionParam { name: "this", required: true }, FunctionParam { name: "expression", required: true }],
            return_type: None,
            category: FunctionCategory::Scalar,
        },
        FunctionSignature {
            name: "array_first",
            display_name: "ARRAY_FIRST",
            params: &[FunctionParam { name: "this", required: true }],
            return_type: None,
            category: FunctionCategory::Scalar,
        },
        FunctionSignature {
            name: "array_intersect",
            display_name: "ARRAY_INTERSECT",
            params: &[FunctionParam { name: "expressions", required: true }],
            return_type: None,
            category: FunctionCategory::Scalar,
        },
        FunctionSignature {
            name: "array_to_string",
            display_name: "ARRAY_TO_STRING",
            params: &[FunctionParam { name: "this", required: true }, FunctionParam { name: "expression", required: true }, FunctionParam { name: "null", required: false }],
            return_type: None,
            category: FunctionCategory::Scalar,
        },
        FunctionSignature {
            name: "array_last",
            display_name: "ARRAY_LAST",
            params: &[FunctionParam { name: "this", required: true }],
            return_type: None,
            category: FunctionCategory::Scalar,
        },
        FunctionSignature {
            name: "array_size",
            display_name: "ARRAY_SIZE",
            params: &[FunctionParam { name: "this", required: true }, FunctionParam { name: "expression", required: false }],
            return_type: None,
            category: FunctionCategory::Scalar,
        },
        FunctionSignature {
            name: "array_overlaps",
            display_name: "ARRAY_OVERLAPS",
            params: &[FunctionParam { name: "this", required: true }, FunctionParam { name: "expression", required: true }],
            return_type: None,
            category: FunctionCategory::Scalar,
        },
        FunctionSignature {
            name: "array_remove",
            display_name: "ARRAY_REMOVE",
            params: &[FunctionParam { name: "this", required: true }, FunctionParam { name: "expression", required: true }],
            return_type: None,
            category: FunctionCategory::Scalar,
        },
        FunctionSignature {
            name: "array_reverse",
            display_name: "ARRAY_REVERSE",
            params: &[FunctionParam { name: "this", required: true }],
            return_type: None,
            category: FunctionCategory::Scalar,
        },
        FunctionSignature {
            name: "array_slice",
            display_name: "ARRAY_SLICE",
            params: &[FunctionParam { name: "this", required: true }, FunctionParam { name: "start", required: true }, FunctionParam { name: "end", required: false }, FunctionParam { name: "step", required: false }],
            return_type: None,
            category: FunctionCategory::Scalar,
        },
        FunctionSignature {
            name: "array_sort",
            display_name: "ARRAY_SORT",
            params: &[FunctionParam { name: "this", required: true }, FunctionParam { name: "expression", required: false }],
            return_type: None,
            category: FunctionCategory::Scalar,
        },
        FunctionSignature {
            name: "array_sum",
            display_name: "ARRAY_SUM",
            params: &[FunctionParam { name: "this", required: true }, FunctionParam { name: "expression", required: false }],
            return_type: None,
            category: FunctionCategory::Scalar,
        },
        FunctionSignature {
            name: "array_union_agg",
            display_name: "ARRAY_UNION_AGG",
            params: &[FunctionParam { name: "this", required: true }],
            return_type: None,
            category: FunctionCategory::Aggregate,
        },
        FunctionSignature {
            name: "array_unique_agg",
            display_name: "ARRAY_UNIQUE_AGG",
            params: &[FunctionParam { name: "this", required: true }],
            return_type: None,
            category: FunctionCategory::Aggregate,
        },
        FunctionSignature {
            name: "ascii",
            display_name: "ASCII",
            params: &[FunctionParam { name: "this", required: true }],
            return_type: None,
            category: FunctionCategory::Scalar,
        },
        FunctionSignature {
            name: "asin",
            display_name: "ASIN",
            params: &[FunctionParam { name: "this", required: true }],
            return_type: None,
            category: FunctionCategory::Scalar,
        },
        FunctionSignature {
            name: "asinh",
            display_name: "ASINH",
            params: &[FunctionParam { name: "this", required: true }],
            return_type: None,
            category: FunctionCategory::Scalar,
        },
        FunctionSignature {
            name: "atan",
            display_name: "ATAN",
            params: &[FunctionParam { name: "this", required: true }, FunctionParam { name: "expression", required: false }],
            return_type: None,
            category: FunctionCategory::Scalar,
        },
        FunctionSignature {
            name: "atan2",
            display_name: "ATAN2",
            params: &[FunctionParam { name: "this", required: true }, FunctionParam { name: "expression", required: true }],
            return_type: None,
            category: FunctionCategory::Scalar,
        },
        FunctionSignature {
            name: "atanh",
            display_name: "ATANH",
            params: &[FunctionParam { name: "this", required: true }],
            return_type: None,
            category: FunctionCategory::Scalar,
        },
        FunctionSignature {
            name: "avg",
            display_name: "AVG",
            params: &[FunctionParam { name: "this", required: true }],
            return_type: Some(ReturnTypeRule::Numeric),
            category: FunctionCategory::Aggregate,
        },
        FunctionSignature {
            name: "base64decode_binary",
            display_name: "BASE64DECODE_BINARY",
            params: &[FunctionParam { name: "this", required: true }, FunctionParam { name: "alphabet", required: false }],
            return_type: None,
            category: FunctionCategory::Scalar,
        },
        FunctionSignature {
            name: "base64decode_string",
            display_name: "BASE64DECODE_STRING",
            params: &[FunctionParam { name: "this", required: true }, FunctionParam { name: "alphabet", required: false }],
            return_type: None,
            category: FunctionCategory::Scalar,
        },
        FunctionSignature {
            name: "base64encode",
            display_name: "BASE64ENCODE",
            params: &[FunctionParam { name: "this", required: true }, FunctionParam { name: "max_line_length", required: false }, FunctionParam { name: "alphabet", required: false }],
            return_type: None,
            category: FunctionCategory::Scalar,
        },
        FunctionSignature {
            name: "bitmap_bit_position",
            display_name: "BITMAP_BIT_POSITION",
            params: &[FunctionParam { name: "this", required: true }],
            return_type: None,
            category: FunctionCategory::Scalar,
        },
        FunctionSignature {
            name: "bitmap_bucket_number",
            display_name: "BITMAP_BUCKET_NUMBER",
            params: &[FunctionParam { name: "this", required: true }],
            return_type: None,
            category: FunctionCategory::Scalar,
        },
        FunctionSignature {
            name: "bitmap_construct_agg",
            display_name: "BITMAP_CONSTRUCT_AGG",
            params: &[FunctionParam { name: "this", required: true }],
            return_type: None,
            category: FunctionCategory::Aggregate,
        },
        FunctionSignature {
            name: "bitmap_count",
            display_name: "BITMAP_COUNT",
            params: &[FunctionParam { name: "this", required: true }],
            return_type: None,
            category: FunctionCategory::Scalar,
        },
        FunctionSignature {
            name: "bitmap_or_agg",
            display_name: "BITMAP_OR_AGG",
            params: &[FunctionParam { name: "this", required: true }],
            return_type: None,
            category: FunctionCategory::Aggregate,
        },
        FunctionSignature {
            name: "bitwise_and_agg",
            display_name: "BITWISE_AND_AGG",
            params: &[FunctionParam { name: "this", required: true }],
            return_type: None,
            category: FunctionCategory::Aggregate,
        },
        FunctionSignature {
            name: "bitwise_count",
            display_name: "BITWISE_COUNT",
            params: &[FunctionParam { name: "this", required: true }],
            return_type: None,
            category: FunctionCategory::Scalar,
        },
        FunctionSignature {
            name: "bitwise_or_agg",
            display_name: "BITWISE_OR_AGG",
            params: &[FunctionParam { name: "this", required: true }],
            return_type: None,
            category: FunctionCategory::Aggregate,
        },
        FunctionSignature {
            name: "bitwise_xor_agg",
            display_name: "BITWISE_XOR_AGG",
            params: &[FunctionParam { name: "this", required: true }],
            return_type: None,
            category: FunctionCategory::Aggregate,
        },
        FunctionSignature {
            name: "bit_length",
            display_name: "BIT_LENGTH",
            params: &[FunctionParam { name: "this", required: true }],
            return_type: None,
            category: FunctionCategory::Scalar,
        },
        FunctionSignature {
            name: "booland",
            display_name: "BOOLAND",
            params: &[FunctionParam { name: "this", required: true }, FunctionParam { name: "expression", required: true }],
            return_type: None,
            category: FunctionCategory::Scalar,
        },
        FunctionSignature {
            name: "logical_and",
            display_name: "LOGICAL_AND",
            params: &[FunctionParam { name: "this", required: true }],
            return_type: None,
            category: FunctionCategory::Aggregate,
        },
        FunctionSignature {
            name: "boolnot",
            display_name: "BOOLNOT",
            params: &[FunctionParam { name: "this", required: true }],
            return_type: None,
            category: FunctionCategory::Scalar,
        },
        FunctionSignature {
            name: "boolor",
            display_name: "BOOLOR",
            params: &[FunctionParam { name: "this", required: true }, FunctionParam { name: "expression", required: true }],
            return_type: None,
            category: FunctionCategory::Scalar,
        },
        FunctionSignature {
            name: "logical_or",
            display_name: "LOGICAL_OR",
            params: &[FunctionParam { name: "this", required: true }],
            return_type: None,
            category: FunctionCategory::Aggregate,
        },
        FunctionSignature {
            name: "boolxor_agg",
            display_name: "BOOLXOR_AGG",
            params: &[FunctionParam { name: "this", required: true }],
            return_type: None,
            category: FunctionCategory::Aggregate,
        },
        FunctionSignature {
            name: "byte_length",
            display_name: "BYTE_LENGTH",
            params: &[FunctionParam { name: "this", required: true }],
            return_type: None,
            category: FunctionCategory::Scalar,
        },
        FunctionSignature {
            name: "case",
            display_name: "CASE",
            params: &[FunctionParam { name: "this", required: false }, FunctionParam { name: "ifs", required: true }, FunctionParam { name: "default", required: false }],
            return_type: None,
            category: FunctionCategory::Scalar,
        },
        FunctionSignature {
            name: "cast",
            display_name: "CAST",
            params: &[FunctionParam { name: "this", required: true }, FunctionParam { name: "to", required: true }, FunctionParam { name: "format", required: false }, FunctionParam { name: "safe", required: false }, FunctionParam { name: "action", required: false }, FunctionParam { name: "default", required: false }],
            return_type: None,
            category: FunctionCategory::Scalar,
        },
        FunctionSignature {
            name: "cast_to_str_type",
            display_name: "CAST_TO_STR_TYPE",
            params: &[FunctionParam { name: "this", required: true }, FunctionParam { name: "to", required: true }],
            return_type: None,
            category: FunctionCategory::Scalar,
        },
        FunctionSignature {
            name: "cbrt",
            display_name: "CBRT",
            params: &[FunctionParam { name: "this", required: true }],
            return_type: None,
            category: FunctionCategory::Scalar,
        },
        FunctionSignature {
            name: "ceil",
            display_name: "CEIL",
            params: &[FunctionParam { name: "this", required: true }, FunctionParam { name: "decimals", required: false }, FunctionParam { name: "to", required: false }],
            return_type: None,
            category: FunctionCategory::Scalar,
        },
        FunctionSignature {
            name: "chr",
            display_name: "CHR",
            params: &[FunctionParam { name: "expressions", required: true }, FunctionParam { name: "charset", required: false }],
            return_type: None,
            category: FunctionCategory::Scalar,
        },
        FunctionSignature {
            name: "length",
            display_name: "LENGTH",
            params: &[FunctionParam { name: "this", required: true }, FunctionParam { name: "binary", required: false }, FunctionParam { name: "encoding", required: false }],
            return_type: None,
            category: FunctionCategory::Scalar,
        },
        FunctionSignature {
            name: "coalesce",
            display_name: "COALESCE",
            params: &[FunctionParam { name: "this", required: true }, FunctionParam { name: "expressions", required: false }, FunctionParam { name: "is_nvl", required: false }, FunctionParam { name: "is_null", required: false }],
            return_type: Some(ReturnTypeRule::MatchFirstArg),
            category: FunctionCategory::Scalar,
        },
        FunctionSignature {
            name: "code_points_to_bytes",
            display_name: "CODE_POINTS_TO_BYTES",
            params: &[FunctionParam { name: "this", required: true }],
            return_type: None,
            category: FunctionCategory::Scalar,
        },
        FunctionSignature {
            name: "code_points_to_string",
            display_name: "CODE_POINTS_TO_STRING",
            params: &[FunctionParam { name: "this", required: true }],
            return_type: None,
            category: FunctionCategory::Scalar,
        },
        FunctionSignature {
            name: "collate",
            display_name: "COLLATE",
            params: &[FunctionParam { name: "this", required: true }, FunctionParam { name: "expression", required: true }],
            return_type: None,
            category: FunctionCategory::Scalar,
        },
        FunctionSignature {
            name: "collation",
            display_name: "COLLATION",
            params: &[FunctionParam { name: "this", required: true }],
            return_type: None,
            category: FunctionCategory::Scalar,
        },
        FunctionSignature {
            name: "columns",
            display_name: "COLUMNS",
            params: &[FunctionParam { name: "this", required: true }, FunctionParam { name: "unpack", required: false }],
            return_type: None,
            category: FunctionCategory::Scalar,
        },
        FunctionSignature {
            name: "combined_agg_func",
            display_name: "COMBINED_AGG_FUNC",
            params: &[FunctionParam { name: "this", required: true }, FunctionParam { name: "expressions", required: false }],
            return_type: None,
            category: FunctionCategory::Aggregate,
        },
        FunctionSignature {
            name: "combined_parameterized_agg",
            display_name: "COMBINED_PARAMETERIZED_AGG",
            params: &[FunctionParam { name: "this", required: true }, FunctionParam { name: "expressions", required: true }, FunctionParam { name: "params", required: true }],
            return_type: None,
            category: FunctionCategory::Aggregate,
        },
        FunctionSignature {
            name: "compress",
            display_name: "COMPRESS",
            params: &[FunctionParam { name: "this", required: true }, FunctionParam { name: "method", required: false }],
            return_type: None,
            category: FunctionCategory::Scalar,
        },
        FunctionSignature {
            name: "concat",
            display_name: "CONCAT",
            params: &[FunctionParam { name: "expressions", required: true }, FunctionParam { name: "safe", required: false }, FunctionParam { name: "coalesce", required: false }],
            return_type: Some(ReturnTypeRule::Text),
            category: FunctionCategory::Scalar,
        },
        FunctionSignature {
            name: "concat_ws",
            display_name: "CONCAT_WS",
            params: &[FunctionParam { name: "expressions", required: true }, FunctionParam { name: "safe", required: false }, FunctionParam { name: "coalesce", required: false }],
            return_type: Some(ReturnTypeRule::Text),
            category: FunctionCategory::Scalar,
        },
        FunctionSignature {
            name: "connect_by_root",
            display_name: "CONNECT_BY_ROOT",
            params: &[FunctionParam { name: "this", required: true }],
            return_type: None,
            category: FunctionCategory::Scalar,
        },
        FunctionSignature {
            name: "contains",
            display_name: "CONTAINS",
            params: &[FunctionParam { name: "this", required: true }, FunctionParam { name: "expression", required: true }, FunctionParam { name: "json_scope", required: false }],
            return_type: None,
            category: FunctionCategory::Scalar,
        },
        FunctionSignature {
            name: "convert",
            display_name: "CONVERT",
            params: &[FunctionParam { name: "this", required: true }, FunctionParam { name: "expression", required: true }, FunctionParam { name: "style", required: false }, FunctionParam { name: "safe", required: false }],
            return_type: None,
            category: FunctionCategory::Scalar,
        },
        FunctionSignature {
            name: "convert_timezone",
            display_name: "CONVERT_TIMEZONE",
            params: &[FunctionParam { name: "source_tz", required: false }, FunctionParam { name: "target_tz", required: true }, FunctionParam { name: "timestamp", required: true }, FunctionParam { name: "options", required: false }],
            return_type: None,
            category: FunctionCategory::Scalar,
        },
        FunctionSignature {
            name: "convert_to_charset",
            display_name: "CONVERT_TO_CHARSET",
            params: &[FunctionParam { name: "this", required: true }, FunctionParam { name: "dest", required: true }, FunctionParam { name: "source", required: false }],
            return_type: None,
            category: FunctionCategory::Scalar,
        },
        FunctionSignature {
            name: "corr",
            display_name: "CORR",
            params: &[FunctionParam { name: "this", required: true }, FunctionParam { name: "expression", required: true }],
            return_type: None,
            category: FunctionCategory::Aggregate,
        },
        FunctionSignature {
            name: "cos",
            display_name: "COS",
            params: &[FunctionParam { name: "this", required: true }],
            return_type: None,
            category: FunctionCategory::Scalar,
        },
        FunctionSignature {
            name: "cosh",
            display_name: "COSH",
            params: &[FunctionParam { name: "this", required: true }],
            return_type: None,
            category: FunctionCategory::Scalar,
        },
        FunctionSignature {
            name: "cosine_distance",
            display_name: "COSINE_DISTANCE",
            params: &[FunctionParam { name: "this", required: true }, FunctionParam { name: "expression", required: true }],
            return_type: None,
            category: FunctionCategory::Scalar,
        },
        FunctionSignature {
            name: "cot",
            display_name: "COT",
            params: &[FunctionParam { name: "this", required: true }],
            return_type: None,
            category: FunctionCategory::Scalar,
        },
        FunctionSignature {
            name: "coth",
            display_name: "COTH",
            params: &[FunctionParam { name: "this", required: true }],
            return_type: None,
            category: FunctionCategory::Scalar,
        },
        FunctionSignature {
            name: "count",
            display_name: "COUNT",
            params: &[FunctionParam { name: "this", required: false }, FunctionParam { name: "expressions", required: false }, FunctionParam { name: "big_int", required: false }],
            return_type: Some(ReturnTypeRule::Integer),
            category: FunctionCategory::Aggregate,
        },
        FunctionSignature {
            name: "count_if",
            display_name: "COUNT_IF",
            params: &[FunctionParam { name: "this", required: true }],
            return_type: None,
            category: FunctionCategory::Aggregate,
        },
        FunctionSignature {
            name: "covar_pop",
            display_name: "COVAR_POP",
            params: &[FunctionParam { name: "this", required: true }, FunctionParam { name: "expression", required: true }],
            return_type: None,
            category: FunctionCategory::Aggregate,
        },
        FunctionSignature {
            name: "covar_samp",
            display_name: "COVAR_SAMP",
            params: &[FunctionParam { name: "this", required: true }, FunctionParam { name: "expression", required: true }],
            return_type: None,
            category: FunctionCategory::Aggregate,
        },
        FunctionSignature {
            name: "csc",
            display_name: "CSC",
            params: &[FunctionParam { name: "this", required: true }],
            return_type: None,
            category: FunctionCategory::Scalar,
        },
        FunctionSignature {
            name: "csch",
            display_name: "CSCH",
            params: &[FunctionParam { name: "this", required: true }],
            return_type: None,
            category: FunctionCategory::Scalar,
        },
        FunctionSignature {
            name: "cume_dist",
            display_name: "CUME_DIST",
            params: &[FunctionParam { name: "expressions", required: false }],
            return_type: None,
            category: FunctionCategory::Window,
        },
        FunctionSignature {
            name: "current_date",
            display_name: "CURRENT_DATE",
            params: &[FunctionParam { name: "this", required: false }],
            return_type: Some(ReturnTypeRule::Date),
            category: FunctionCategory::Scalar,
        },
        FunctionSignature {
            name: "current_datetime",
            display_name: "CURRENT_DATETIME",
            params: &[FunctionParam { name: "this", required: false }],
            return_type: None,
            category: FunctionCategory::Scalar,
        },
        FunctionSignature {
            name: "current_schema",
            display_name: "CURRENT_SCHEMA",
            params: &[FunctionParam { name: "this", required: false }],
            return_type: None,
            category: FunctionCategory::Scalar,
        },
        FunctionSignature {
            name: "current_time",
            display_name: "CURRENT_TIME",
            params: &[FunctionParam { name: "this", required: false }],
            return_type: None,
            category: FunctionCategory::Scalar,
        },
        FunctionSignature {
            name: "current_timestamp",
            display_name: "CURRENT_TIMESTAMP",
            params: &[FunctionParam { name: "this", required: false }, FunctionParam { name: "sysdate", required: false }],
            return_type: Some(ReturnTypeRule::Timestamp),
            category: FunctionCategory::Scalar,
        },
        FunctionSignature {
            name: "current_timestamp_ltz",
            display_name: "CURRENT_TIMESTAMP_LTZ",
            params: &[],
            return_type: None,
            category: FunctionCategory::Scalar,
        },
        FunctionSignature {
            name: "current_user",
            display_name: "CURRENT_USER",
            params: &[FunctionParam { name: "this", required: false }],
            return_type: None,
            category: FunctionCategory::Scalar,
        },
        FunctionSignature {
            name: "date",
            display_name: "DATE",
            params: &[FunctionParam { name: "this", required: false }, FunctionParam { name: "zone", required: false }, FunctionParam { name: "expressions", required: false }],
            return_type: None,
            category: FunctionCategory::Scalar,
        },
        FunctionSignature {
            name: "date_diff",
            display_name: "DATE_DIFF",
            params: &[FunctionParam { name: "this", required: true }, FunctionParam { name: "expression", required: true }, FunctionParam { name: "unit", required: false }, FunctionParam { name: "zone", required: false }, FunctionParam { name: "big_int", required: false }],
            return_type: None,
            category: FunctionCategory::Scalar,
        },
        FunctionSignature {
            name: "date_from_parts",
            display_name: "DATE_FROM_PARTS",
            params: &[FunctionParam { name: "year", required: true }, FunctionParam { name: "month", required: false }, FunctionParam { name: "day", required: false }],
            return_type: None,
            category: FunctionCategory::Scalar,
        },
        FunctionSignature {
            name: "datetime",
            display_name: "DATETIME",
            params: &[FunctionParam { name: "this", required: true }, FunctionParam { name: "expression", required: false }],
            return_type: None,
            category: FunctionCategory::Scalar,
        },
        FunctionSignature {
            name: "datetime_add",
            display_name: "DATETIME_ADD",
            params: &[FunctionParam { name: "this", required: true }, FunctionParam { name: "expression", required: true }, FunctionParam { name: "unit", required: false }],
            return_type: None,
            category: FunctionCategory::Scalar,
        },
        FunctionSignature {
            name: "datetime_diff",
            display_name: "DATETIME_DIFF",
            params: &[FunctionParam { name: "this", required: true }, FunctionParam { name: "expression", required: true }, FunctionParam { name: "unit", required: false }],
            return_type: None,
            category: FunctionCategory::Scalar,
        },
        FunctionSignature {
            name: "datetime_sub",
            display_name: "DATETIME_SUB",
            params: &[FunctionParam { name: "this", required: true }, FunctionParam { name: "expression", required: true }, FunctionParam { name: "unit", required: false }],
            return_type: None,
            category: FunctionCategory::Scalar,
        },
        FunctionSignature {
            name: "datetime_trunc",
            display_name: "DATETIME_TRUNC",
            params: &[FunctionParam { name: "this", required: true }, FunctionParam { name: "unit", required: true }, FunctionParam { name: "zone", required: false }],
            return_type: None,
            category: FunctionCategory::Scalar,
        },
        FunctionSignature {
            name: "date_add",
            display_name: "DATE_ADD",
            params: &[FunctionParam { name: "this", required: true }, FunctionParam { name: "expression", required: true }, FunctionParam { name: "unit", required: false }],
            return_type: None,
            category: FunctionCategory::Scalar,
        },
        FunctionSignature {
            name: "date_bin",
            display_name: "DATE_BIN",
            params: &[FunctionParam { name: "this", required: true }, FunctionParam { name: "expression", required: true }, FunctionParam { name: "unit", required: false }, FunctionParam { name: "zone", required: false }, FunctionParam { name: "origin", required: false }],
            return_type: None,
            category: FunctionCategory::Scalar,
        },
        FunctionSignature {
            name: "date_from_unix_date",
            display_name: "DATE_FROM_UNIX_DATE",
            params: &[FunctionParam { name: "this", required: true }],
            return_type: None,
            category: FunctionCategory::Scalar,
        },
        FunctionSignature {
            name: "date_str_to_date",
            display_name: "DATE_STR_TO_DATE",
            params: &[FunctionParam { name: "this", required: true }],
            return_type: None,
            category: FunctionCategory::Scalar,
        },
        FunctionSignature {
            name: "date_sub",
            display_name: "DATE_SUB",
            params: &[FunctionParam { name: "this", required: true }, FunctionParam { name: "expression", required: true }, FunctionParam { name: "unit", required: false }],
            return_type: None,
            category: FunctionCategory::Scalar,
        },
        FunctionSignature {
            name: "date_to_date_str",
            display_name: "DATE_TO_DATE_STR",
            params: &[FunctionParam { name: "this", required: true }],
            return_type: None,
            category: FunctionCategory::Scalar,
        },
        FunctionSignature {
            name: "date_to_di",
            display_name: "DATE_TO_DI",
            params: &[FunctionParam { name: "this", required: true }],
            return_type: None,
            category: FunctionCategory::Scalar,
        },
        FunctionSignature {
            name: "date_trunc",
            display_name: "DATE_TRUNC",
            params: &[FunctionParam { name: "unit", required: true }, FunctionParam { name: "this", required: true }, FunctionParam { name: "zone", required: false }],
            return_type: Some(ReturnTypeRule::MatchFirstArg),
            category: FunctionCategory::Scalar,
        },
        FunctionSignature {
            name: "day",
            display_name: "DAY",
            params: &[FunctionParam { name: "this", required: true }],
            return_type: None,
            category: FunctionCategory::Scalar,
        },
        FunctionSignature {
            name: "day_of_month",
            display_name: "DAY_OF_MONTH",
            params: &[FunctionParam { name: "this", required: true }],
            return_type: None,
            category: FunctionCategory::Scalar,
        },
        FunctionSignature {
            name: "day_of_week",
            display_name: "DAY_OF_WEEK",
            params: &[FunctionParam { name: "this", required: true }],
            return_type: None,
            category: FunctionCategory::Scalar,
        },
        FunctionSignature {
            name: "day_of_week_iso",
            display_name: "DAY_OF_WEEK_ISO",
            params: &[FunctionParam { name: "this", required: true }],
            return_type: None,
            category: FunctionCategory::Scalar,
        },
        FunctionSignature {
            name: "day_of_year",
            display_name: "DAY_OF_YEAR",
            params: &[FunctionParam { name: "this", required: true }],
            return_type: None,
            category: FunctionCategory::Scalar,
        },
        FunctionSignature {
            name: "decode",
            display_name: "DECODE",
            params: &[FunctionParam { name: "this", required: true }, FunctionParam { name: "charset", required: true }, FunctionParam { name: "replace", required: false }],
            return_type: None,
            category: FunctionCategory::Scalar,
        },
        FunctionSignature {
            name: "decode_case",
            display_name: "DECODE_CASE",
            params: &[FunctionParam { name: "expressions", required: true }],
            return_type: None,
            category: FunctionCategory::Scalar,
        },
        FunctionSignature {
            name: "decompress_binary",
            display_name: "DECOMPRESS_BINARY",
            params: &[FunctionParam { name: "this", required: true }, FunctionParam { name: "method", required: true }],
            return_type: None,
            category: FunctionCategory::Scalar,
        },
        FunctionSignature {
            name: "decompress_string",
            display_name: "DECOMPRESS_STRING",
            params: &[FunctionParam { name: "this", required: true }, FunctionParam { name: "method", required: true }],
            return_type: None,
            category: FunctionCategory::Scalar,
        },
        FunctionSignature {
            name: "degrees",
            display_name: "DEGREES",
            params: &[FunctionParam { name: "this", required: true }],
            return_type: None,
            category: FunctionCategory::Scalar,
        },
        FunctionSignature {
            name: "dense_rank",
            display_name: "DENSE_RANK",
            params: &[FunctionParam { name: "expressions", required: false }],
            return_type: Some(ReturnTypeRule::Integer),
            category: FunctionCategory::Window,
        },
        FunctionSignature {
            name: "di_to_date",
            display_name: "DI_TO_DATE",
            params: &[FunctionParam { name: "this", required: true }],
            return_type: None,
            category: FunctionCategory::Scalar,
        },
        FunctionSignature {
            name: "encode",
            display_name: "ENCODE",
            params: &[FunctionParam { name: "this", required: true }, FunctionParam { name: "charset", required: true }],
            return_type: None,
            category: FunctionCategory::Scalar,
        },
        FunctionSignature {
            name: "ends_with",
            display_name: "ENDS_WITH",
            params: &[FunctionParam { name: "this", required: true }, FunctionParam { name: "expression", required: true }],
            return_type: None,
            category: FunctionCategory::Scalar,
        },
        FunctionSignature {
            name: "equal_null",
            display_name: "EQUAL_NULL",
            params: &[FunctionParam { name: "this", required: true }, FunctionParam { name: "expression", required: true }],
            return_type: None,
            category: FunctionCategory::Scalar,
        },
        FunctionSignature {
            name: "euclidean_distance",
            display_name: "EUCLIDEAN_DISTANCE",
            params: &[FunctionParam { name: "this", required: true }, FunctionParam { name: "expression", required: true }],
            return_type: None,
            category: FunctionCategory::Scalar,
        },
        FunctionSignature {
            name: "exists",
            display_name: "EXISTS",
            params: &[FunctionParam { name: "this", required: true }, FunctionParam { name: "expression", required: false }],
            return_type: None,
            category: FunctionCategory::Scalar,
        },
        FunctionSignature {
            name: "exp",
            display_name: "EXP",
            params: &[FunctionParam { name: "this", required: true }],
            return_type: None,
            category: FunctionCategory::Scalar,
        },
        FunctionSignature {
            name: "explode",
            display_name: "EXPLODE",
            params: &[FunctionParam { name: "this", required: true }, FunctionParam { name: "expressions", required: false }],
            return_type: None,
            category: FunctionCategory::Scalar,
        },
        FunctionSignature {
            name: "explode_outer",
            display_name: "EXPLODE_OUTER",
            params: &[FunctionParam { name: "this", required: true }, FunctionParam { name: "expressions", required: false }],
            return_type: None,
            category: FunctionCategory::Scalar,
        },
        FunctionSignature {
            name: "exploding_generate_series",
            display_name: "EXPLODING_GENERATE_SERIES",
            params: &[FunctionParam { name: "start", required: true }, FunctionParam { name: "end", required: true }, FunctionParam { name: "step", required: false }, FunctionParam { name: "is_end_exclusive", required: false }],
            return_type: None,
            category: FunctionCategory::Scalar,
        },
        FunctionSignature {
            name: "extract",
            display_name: "EXTRACT",
            params: &[FunctionParam { name: "this", required: true }, FunctionParam { name: "expression", required: true }],
            return_type: None,
            category: FunctionCategory::Scalar,
        },
        FunctionSignature {
            name: "factorial",
            display_name: "FACTORIAL",
            params: &[FunctionParam { name: "this", required: true }],
            return_type: None,
            category: FunctionCategory::Scalar,
        },
        FunctionSignature {
            name: "farm_fingerprint",
            display_name: "FARM_FINGERPRINT",
            params: &[FunctionParam { name: "expressions", required: true }],
            return_type: None,
            category: FunctionCategory::Scalar,
        },
        FunctionSignature {
            name: "features_at_time",
            display_name: "FEATURES_AT_TIME",
            params: &[FunctionParam { name: "this", required: true }, FunctionParam { name: "time", required: false }, FunctionParam { name: "num_rows", required: false }, FunctionParam { name: "ignore_feature_nulls", required: false }],
            return_type: None,
            category: FunctionCategory::Scalar,
        },
        FunctionSignature {
            name: "first",
            display_name: "FIRST",
            params: &[FunctionParam { name: "this", required: true }, FunctionParam { name: "expression", required: false }],
            return_type: None,
            category: FunctionCategory::Aggregate,
        },
        FunctionSignature {
            name: "first_value",
            display_name: "FIRST_VALUE",
            params: &[FunctionParam { name: "this", required: true }],
            return_type: Some(ReturnTypeRule::MatchFirstArg),
            category: FunctionCategory::Window,
        },
        FunctionSignature {
            name: "flatten",
            display_name: "FLATTEN",
            params: &[FunctionParam { name: "this", required: true }],
            return_type: None,
            category: FunctionCategory::Scalar,
        },
        FunctionSignature {
            name: "float64",
            display_name: "FLOAT64",
            params: &[FunctionParam { name: "this", required: true }, FunctionParam { name: "expression", required: false }],
            return_type: None,
            category: FunctionCategory::Scalar,
        },
        FunctionSignature {
            name: "floor",
            display_name: "FLOOR",
            params: &[FunctionParam { name: "this", required: true }, FunctionParam { name: "decimals", required: false }, FunctionParam { name: "to", required: false }],
            return_type: None,
            category: FunctionCategory::Scalar,
        },
        FunctionSignature {
            name: "format",
            display_name: "FORMAT",
            params: &[FunctionParam { name: "this", required: true }, FunctionParam { name: "expressions", required: false }],
            return_type: None,
            category: FunctionCategory::Scalar,
        },
        FunctionSignature {
            name: "from_base",
            display_name: "FROM_BASE",
            params: &[FunctionParam { name: "this", required: true }, FunctionParam { name: "expression", required: true }],
            return_type: None,
            category: FunctionCategory::Scalar,
        },
        FunctionSignature {
            name: "from_base32",
            display_name: "FROM_BASE32",
            params: &[FunctionParam { name: "this", required: true }],
            return_type: None,
            category: FunctionCategory::Scalar,
        },
        FunctionSignature {
            name: "from_base64",
            display_name: "FROM_BASE64",
            params: &[FunctionParam { name: "this", required: true }],
            return_type: None,
            category: FunctionCategory::Scalar,
        },
        FunctionSignature {
            name: "from_iso8601timestamp",
            display_name: "FROM_ISO8601TIMESTAMP",
            params: &[FunctionParam { name: "this", required: true }],
            return_type: None,
            category: FunctionCategory::Scalar,
        },
        FunctionSignature {
            name: "gap_fill",
            display_name: "GAP_FILL",
            params: &[FunctionParam { name: "this", required: true }, FunctionParam { name: "ts_column", required: true }, FunctionParam { name: "bucket_width", required: true }, FunctionParam { name: "partitioning_columns", required: false }, FunctionParam { name: "value_columns", required: false }, FunctionParam { name: "origin", required: false }, FunctionParam { name: "ignore_nulls", required: false }],
            return_type: None,
            category: FunctionCategory::Scalar,
        },
        FunctionSignature {
            name: "generate_date_array",
            display_name: "GENERATE_DATE_ARRAY",
            params: &[FunctionParam { name: "start", required: true }, FunctionParam { name: "end", required: true }, FunctionParam { name: "step", required: false }],
            return_type: None,
            category: FunctionCategory::Scalar,
        },
        FunctionSignature {
            name: "generate_embedding",
            display_name: "GENERATE_EMBEDDING",
            params: &[FunctionParam { name: "this", required: true }, FunctionParam { name: "expression", required: true }, FunctionParam { name: "params_struct", required: false }, FunctionParam { name: "is_text", required: false }],
            return_type: None,
            category: FunctionCategory::Scalar,
        },
        FunctionSignature {
            name: "generate_series",
            display_name: "GENERATE_SERIES",
            params: &[FunctionParam { name: "start", required: true }, FunctionParam { name: "end", required: true }, FunctionParam { name: "step", required: false }, FunctionParam { name: "is_end_exclusive", required: false }],
            return_type: None,
            category: FunctionCategory::Scalar,
        },
        FunctionSignature {
            name: "generate_timestamp_array",
            display_name: "GENERATE_TIMESTAMP_ARRAY",
            params: &[FunctionParam { name: "start", required: true }, FunctionParam { name: "end", required: true }, FunctionParam { name: "step", required: true }],
            return_type: None,
            category: FunctionCategory::Scalar,
        },
        FunctionSignature {
            name: "uuid",
            display_name: "UUID",
            params: &[FunctionParam { name: "this", required: false }, FunctionParam { name: "name", required: false }, FunctionParam { name: "is_string", required: false }],
            return_type: None,
            category: FunctionCategory::Scalar,
        },
        FunctionSignature {
            name: "getbit",
            display_name: "GETBIT",
            params: &[FunctionParam { name: "this", required: true }, FunctionParam { name: "expression", required: true }],
            return_type: None,
            category: FunctionCategory::Scalar,
        },
        FunctionSignature {
            name: "get_extract",
            display_name: "GET_EXTRACT",
            params: &[FunctionParam { name: "this", required: true }, FunctionParam { name: "expression", required: true }],
            return_type: None,
            category: FunctionCategory::Scalar,
        },
        FunctionSignature {
            name: "greatest",
            display_name: "GREATEST",
            params: &[FunctionParam { name: "this", required: true }, FunctionParam { name: "expressions", required: false }, FunctionParam { name: "null_if_any_null", required: false }],
            return_type: None,
            category: FunctionCategory::Scalar,
        },
        FunctionSignature {
            name: "greatest_ignore_nulls",
            display_name: "GREATEST_IGNORE_NULLS",
            params: &[FunctionParam { name: "expressions", required: true }],
            return_type: None,
            category: FunctionCategory::Scalar,
        },
        FunctionSignature {
            name: "grouping",
            display_name: "GROUPING",
            params: &[FunctionParam { name: "expressions", required: true }],
            return_type: None,
            category: FunctionCategory::Aggregate,
        },
        FunctionSignature {
            name: "grouping_id",
            display_name: "GROUPING_ID",
            params: &[FunctionParam { name: "expressions", required: true }],
            return_type: None,
            category: FunctionCategory::Aggregate,
        },
        FunctionSignature {
            name: "group_concat",
            display_name: "GROUP_CONCAT",
            params: &[FunctionParam { name: "this", required: true }, FunctionParam { name: "separator", required: false }, FunctionParam { name: "on_overflow", required: false }],
            return_type: None,
            category: FunctionCategory::Aggregate,
        },
        FunctionSignature {
            name: "hex",
            display_name: "HEX",
            params: &[FunctionParam { name: "this", required: true }],
            return_type: None,
            category: FunctionCategory::Scalar,
        },
        FunctionSignature {
            name: "hex_decode_string",
            display_name: "HEX_DECODE_STRING",
            params: &[FunctionParam { name: "this", required: true }],
            return_type: None,
            category: FunctionCategory::Scalar,
        },
        FunctionSignature {
            name: "hex_encode",
            display_name: "HEX_ENCODE",
            params: &[FunctionParam { name: "this", required: true }, FunctionParam { name: "case", required: false }],
            return_type: None,
            category: FunctionCategory::Scalar,
        },
        FunctionSignature {
            name: "hll",
            display_name: "HLL",
            params: &[FunctionParam { name: "this", required: true }, FunctionParam { name: "expressions", required: false }],
            return_type: None,
            category: FunctionCategory::Aggregate,
        },
        FunctionSignature {
            name: "hour",
            display_name: "HOUR",
            params: &[FunctionParam { name: "this", required: true }],
            return_type: None,
            category: FunctionCategory::Scalar,
        },
        FunctionSignature {
            name: "if",
            display_name: "IF",
            params: &[FunctionParam { name: "this", required: true }, FunctionParam { name: "true", required: true }, FunctionParam { name: "false", required: false }],
            return_type: None,
            category: FunctionCategory::Scalar,
        },
        FunctionSignature {
            name: "initcap",
            display_name: "INITCAP",
            params: &[FunctionParam { name: "this", required: true }, FunctionParam { name: "expression", required: false }],
            return_type: None,
            category: FunctionCategory::Scalar,
        },
        FunctionSignature {
            name: "inline",
            display_name: "INLINE",
            params: &[FunctionParam { name: "this", required: true }],
            return_type: None,
            category: FunctionCategory::Scalar,
        },
        FunctionSignature {
            name: "stuff",
            display_name: "STUFF",
            params: &[FunctionParam { name: "this", required: true }, FunctionParam { name: "start", required: true }, FunctionParam { name: "length", required: true }, FunctionParam { name: "expression", required: true }],
            return_type: None,
            category: FunctionCategory::Scalar,
        },
        FunctionSignature {
            name: "int64",
            display_name: "INT64",
            params: &[FunctionParam { name: "this", required: true }],
            return_type: None,
            category: FunctionCategory::Scalar,
        },
        FunctionSignature {
            name: "is_inf",
            display_name: "IS_INF",
            params: &[FunctionParam { name: "this", required: true }],
            return_type: None,
            category: FunctionCategory::Scalar,
        },
        FunctionSignature {
            name: "is_nan",
            display_name: "IS_NAN",
            params: &[FunctionParam { name: "this", required: true }],
            return_type: None,
            category: FunctionCategory::Scalar,
        },
        FunctionSignature {
            name: "is_ascii",
            display_name: "IS_ASCII",
            params: &[FunctionParam { name: "this", required: true }],
            return_type: None,
            category: FunctionCategory::Scalar,
        },
        FunctionSignature {
            name: "is_null_value",
            display_name: "IS_NULL_VALUE",
            params: &[FunctionParam { name: "this", required: true }],
            return_type: None,
            category: FunctionCategory::Scalar,
        },
        FunctionSignature {
            name: "jarowinkler_similarity",
            display_name: "JAROWINKLER_SIMILARITY",
            params: &[FunctionParam { name: "this", required: true }, FunctionParam { name: "expression", required: true }],
            return_type: None,
            category: FunctionCategory::Scalar,
        },
        FunctionSignature {
            name: "jsonb_contains",
            display_name: "JSONB_CONTAINS",
            params: &[FunctionParam { name: "this", required: true }, FunctionParam { name: "expression", required: true }],
            return_type: None,
            category: FunctionCategory::Scalar,
        },
        FunctionSignature {
            name: "jsonb_exists",
            display_name: "JSONB_EXISTS",
            params: &[FunctionParam { name: "this", required: true }, FunctionParam { name: "path", required: true }],
            return_type: None,
            category: FunctionCategory::Scalar,
        },
        FunctionSignature {
            name: "jsonb_extract",
            display_name: "JSONB_EXTRACT",
            params: &[FunctionParam { name: "this", required: true }, FunctionParam { name: "expression", required: true }],
            return_type: None,
            category: FunctionCategory::Scalar,
        },
        FunctionSignature {
            name: "jsonb_extract_scalar",
            display_name: "JSONB_EXTRACT_SCALAR",
            params: &[FunctionParam { name: "this", required: true }, FunctionParam { name: "expression", required: true }, FunctionParam { name: "json_type", required: false }],
            return_type: None,
            category: FunctionCategory::Scalar,
        },
        FunctionSignature {
            name: "json_array_append",
            display_name: "JSON_ARRAY_APPEND",
            params: &[FunctionParam { name: "this", required: true }, FunctionParam { name: "expressions", required: true }],
            return_type: None,
            category: FunctionCategory::Scalar,
        },
        FunctionSignature {
            name: "json_array_contains",
            display_name: "JSON_ARRAY_CONTAINS",
            params: &[FunctionParam { name: "this", required: true }, FunctionParam { name: "expression", required: true }, FunctionParam { name: "json_type", required: false }],
            return_type: None,
            category: FunctionCategory::Scalar,
        },
        FunctionSignature {
            name: "json_array_insert",
            display_name: "JSON_ARRAY_INSERT",
            params: &[FunctionParam { name: "this", required: true }, FunctionParam { name: "expressions", required: true }],
            return_type: None,
            category: FunctionCategory::Scalar,
        },
        FunctionSignature {
            name: "json_extract",
            display_name: "JSON_EXTRACT",
            params: &[FunctionParam { name: "this", required: true }, FunctionParam { name: "expression", required: true }, FunctionParam { name: "only_json_types", required: false }, FunctionParam { name: "expressions", required: false }, FunctionParam { name: "variant_extract", required: false }, FunctionParam { name: "json_query", required: false }, FunctionParam { name: "option", required: false }, FunctionParam { name: "quote", required: false }, FunctionParam { name: "on_condition", required: false }, FunctionParam { name: "requires_json", required: false }],
            return_type: None,
            category: FunctionCategory::Scalar,
        },
        FunctionSignature {
            name: "json_extract_array",
            display_name: "JSON_EXTRACT_ARRAY",
            params: &[FunctionParam { name: "this", required: true }, FunctionParam { name: "expression", required: false }],
            return_type: None,
            category: FunctionCategory::Scalar,
        },
        FunctionSignature {
            name: "json_extract_scalar",
            display_name: "JSON_EXTRACT_SCALAR",
            params: &[FunctionParam { name: "this", required: true }, FunctionParam { name: "expression", required: true }, FunctionParam { name: "only_json_types", required: false }, FunctionParam { name: "expressions", required: false }, FunctionParam { name: "json_type", required: false }, FunctionParam { name: "scalar_only", required: false }],
            return_type: None,
            category: FunctionCategory::Scalar,
        },
        FunctionSignature {
            name: "json_format",
            display_name: "JSON_FORMAT",
            params: &[FunctionParam { name: "this", required: false }, FunctionParam { name: "options", required: false }, FunctionParam { name: "is_json", required: false }, FunctionParam { name: "to_json", required: false }],
            return_type: None,
            category: FunctionCategory::Scalar,
        },
        FunctionSignature {
            name: "parse_json",
            display_name: "PARSE_JSON",
            params: &[FunctionParam { name: "this", required: true }, FunctionParam { name: "expression", required: false }, FunctionParam { name: "safe", required: false }],
            return_type: None,
            category: FunctionCategory::Scalar,
        },
        FunctionSignature {
            name: "json_remove",
            display_name: "JSON_REMOVE",
            params: &[FunctionParam { name: "this", required: true }, FunctionParam { name: "expressions", required: true }],
            return_type: None,
            category: FunctionCategory::Scalar,
        },
        FunctionSignature {
            name: "json_set",
            display_name: "JSON_SET",
            params: &[FunctionParam { name: "this", required: true }, FunctionParam { name: "expressions", required: true }],
            return_type: None,
            category: FunctionCategory::Scalar,
        },
        FunctionSignature {
            name: "json_strip_nulls",
            display_name: "JSON_STRIP_NULLS",
            params: &[FunctionParam { name: "this", required: true }, FunctionParam { name: "expression", required: false }, FunctionParam { name: "include_arrays", required: false }, FunctionParam { name: "remove_empty", required: false }],
            return_type: None,
            category: FunctionCategory::Scalar,
        },
        FunctionSignature {
            name: "json_type",
            display_name: "JSON_TYPE",
            params: &[FunctionParam { name: "this", required: true }, FunctionParam { name: "expression", required: false }],
            return_type: None,
            category: FunctionCategory::Scalar,
        },
        FunctionSignature {
            name: "justify_days",
            display_name: "JUSTIFY_DAYS",
            params: &[FunctionParam { name: "this", required: true }],
            return_type: None,
            category: FunctionCategory::Scalar,
        },
        FunctionSignature {
            name: "justify_hours",
            display_name: "JUSTIFY_HOURS",
            params: &[FunctionParam { name: "this", required: true }],
            return_type: None,
            category: FunctionCategory::Scalar,
        },
        FunctionSignature {
            name: "justify_interval",
            display_name: "JUSTIFY_INTERVAL",
            params: &[FunctionParam { name: "this", required: true }],
            return_type: None,
            category: FunctionCategory::Scalar,
        },
        FunctionSignature {
            name: "json_array",
            display_name: "JSON_ARRAY",
            params: &[FunctionParam { name: "expressions", required: false }, FunctionParam { name: "null_handling", required: false }, FunctionParam { name: "return_type", required: false }, FunctionParam { name: "strict", required: false }],
            return_type: None,
            category: FunctionCategory::Scalar,
        },
        FunctionSignature {
            name: "json_array_agg",
            display_name: "JSON_ARRAY_AGG",
            params: &[FunctionParam { name: "this", required: true }, FunctionParam { name: "order", required: false }, FunctionParam { name: "null_handling", required: false }, FunctionParam { name: "return_type", required: false }, FunctionParam { name: "strict", required: false }],
            return_type: None,
            category: FunctionCategory::Scalar,
        },
        FunctionSignature {
            name: "json_bool",
            display_name: "JSON_BOOL",
            params: &[FunctionParam { name: "this", required: true }],
            return_type: None,
            category: FunctionCategory::Scalar,
        },
        FunctionSignature {
            name: "jsonb_contains_all_top_keys",
            display_name: "JSONB_CONTAINS_ALL_TOP_KEYS",
            params: &[FunctionParam { name: "this", required: true }, FunctionParam { name: "expression", required: true }],
            return_type: None,
            category: FunctionCategory::Scalar,
        },
        FunctionSignature {
            name: "jsonb_contains_any_top_keys",
            display_name: "JSONB_CONTAINS_ANY_TOP_KEYS",
            params: &[FunctionParam { name: "this", required: true }, FunctionParam { name: "expression", required: true }],
            return_type: None,
            category: FunctionCategory::Scalar,
        },
        FunctionSignature {
            name: "jsonb_delete_at_path",
            display_name: "JSONB_DELETE_AT_PATH",
            params: &[FunctionParam { name: "this", required: true }, FunctionParam { name: "expression", required: true }],
            return_type: None,
            category: FunctionCategory::Scalar,
        },
        FunctionSignature {
            name: "jsonb_object_agg",
            display_name: "JSONB_OBJECT_AGG",
            params: &[FunctionParam { name: "this", required: true }, FunctionParam { name: "expression", required: true }],
            return_type: None,
            category: FunctionCategory::Aggregate,
        },
        FunctionSignature {
            name: "json_cast",
            display_name: "JSON_CAST",
            params: &[FunctionParam { name: "this", required: true }, FunctionParam { name: "to", required: true }, FunctionParam { name: "format", required: false }, FunctionParam { name: "safe", required: false }, FunctionParam { name: "action", required: false }, FunctionParam { name: "default", required: false }],
            return_type: None,
            category: FunctionCategory::Scalar,
        },
        FunctionSignature {
            name: "json_exists",
            display_name: "JSON_EXISTS",
            params: &[FunctionParam { name: "this", required: true }, FunctionParam { name: "path", required: true }, FunctionParam { name: "passing", required: false }, FunctionParam { name: "on_condition", required: false }],
            return_type: None,
            category: FunctionCategory::Scalar,
        },
        FunctionSignature {
            name: "json_keys_at_depth",
            display_name: "JSON_KEYS_AT_DEPTH",
            params: &[FunctionParam { name: "this", required: true }, FunctionParam { name: "expression", required: false }, FunctionParam { name: "mode", required: false }],
            return_type: None,
            category: FunctionCategory::Scalar,
        },
        FunctionSignature {
            name: "json_object",
            display_name: "JSON_OBJECT",
            params: &[FunctionParam { name: "expressions", required: false }, FunctionParam { name: "null_handling", required: false }, FunctionParam { name: "unique_keys", required: false }, FunctionParam { name: "return_type", required: false }, FunctionParam { name: "encoding", required: false }],
            return_type: None,
            category: FunctionCategory::Scalar,
        },
        FunctionSignature {
            name: "json_object_agg",
            display_name: "JSON_OBJECT_AGG",
            params: &[FunctionParam { name: "expressions", required: false }, FunctionParam { name: "null_handling", required: false }, FunctionParam { name: "unique_keys", required: false }, FunctionParam { name: "return_type", required: false }, FunctionParam { name: "encoding", required: false }],
            return_type: None,
            category: FunctionCategory::Aggregate,
        },
        FunctionSignature {
            name: "json_table",
            display_name: "JSON_TABLE",
            params: &[FunctionParam { name: "this", required: true }, FunctionParam { name: "schema", required: true }, FunctionParam { name: "path", required: false }, FunctionParam { name: "error_handling", required: false }, FunctionParam { name: "empty_handling", required: false }],
            return_type: None,
            category: FunctionCategory::Scalar,
        },
        FunctionSignature {
            name: "json_value_array",
            display_name: "JSON_VALUE_ARRAY",
            params: &[FunctionParam { name: "this", required: true }, FunctionParam { name: "expression", required: false }],
            return_type: None,
            category: FunctionCategory::Scalar,
        },
        FunctionSignature {
            name: "lag",
            display_name: "LAG",
            params: &[FunctionParam { name: "this", required: true }, FunctionParam { name: "offset", required: false }, FunctionParam { name: "default", required: false }],
            return_type: Some(ReturnTypeRule::MatchFirstArg),
            category: FunctionCategory::Window,
        },
        FunctionSignature {
            name: "last",
            display_name: "LAST",
            params: &[FunctionParam { name: "this", required: true }, FunctionParam { name: "expression", required: false }],
            return_type: None,
            category: FunctionCategory::Aggregate,
        },
        FunctionSignature {
            name: "last_day",
            display_name: "LAST_DAY",
            params: &[FunctionParam { name: "this", required: true }, FunctionParam { name: "unit", required: false }],
            return_type: None,
            category: FunctionCategory::Scalar,
        },
        FunctionSignature {
            name: "last_value",
            display_name: "LAST_VALUE",
            params: &[FunctionParam { name: "this", required: true }],
            return_type: Some(ReturnTypeRule::MatchFirstArg),
            category: FunctionCategory::Window,
        },
        FunctionSignature {
            name: "lax_bool",
            display_name: "LAX_BOOL",
            params: &[FunctionParam { name: "this", required: true }],
            return_type: None,
            category: FunctionCategory::Scalar,
        },
        FunctionSignature {
            name: "lax_float64",
            display_name: "LAX_FLOAT64",
            params: &[FunctionParam { name: "this", required: true }],
            return_type: None,
            category: FunctionCategory::Scalar,
        },
        FunctionSignature {
            name: "lax_int64",
            display_name: "LAX_INT64",
            params: &[FunctionParam { name: "this", required: true }],
            return_type: None,
            category: FunctionCategory::Scalar,
        },
        FunctionSignature {
            name: "lax_string",
            display_name: "LAX_STRING",
            params: &[FunctionParam { name: "this", required: true }],
            return_type: None,
            category: FunctionCategory::Scalar,
        },
        FunctionSignature {
            name: "lower",
            display_name: "LOWER",
            params: &[FunctionParam { name: "this", required: true }],
            return_type: Some(ReturnTypeRule::Text),
            category: FunctionCategory::Scalar,
        },
        FunctionSignature {
            name: "lead",
            display_name: "LEAD",
            params: &[FunctionParam { name: "this", required: true }, FunctionParam { name: "offset", required: false }, FunctionParam { name: "default", required: false }],
            return_type: Some(ReturnTypeRule::MatchFirstArg),
            category: FunctionCategory::Window,
        },
        FunctionSignature {
            name: "least",
            display_name: "LEAST",
            params: &[FunctionParam { name: "this", required: true }, FunctionParam { name: "expressions", required: false }, FunctionParam { name: "null_if_any_null", required: false }],
            return_type: None,
            category: FunctionCategory::Scalar,
        },
        FunctionSignature {
            name: "least_ignore_nulls",
            display_name: "LEAST_IGNORE_NULLS",
            params: &[FunctionParam { name: "expressions", required: true }],
            return_type: None,
            category: FunctionCategory::Scalar,
        },
        FunctionSignature {
            name: "left",
            display_name: "LEFT",
            params: &[FunctionParam { name: "this", required: true }, FunctionParam { name: "expression", required: true }],
            return_type: None,
            category: FunctionCategory::Scalar,
        },
        FunctionSignature {
            name: "levenshtein",
            display_name: "LEVENSHTEIN",
            params: &[FunctionParam { name: "this", required: true }, FunctionParam { name: "expression", required: false }, FunctionParam { name: "ins_cost", required: false }, FunctionParam { name: "del_cost", required: false }, FunctionParam { name: "sub_cost", required: false }, FunctionParam { name: "max_dist", required: false }],
            return_type: None,
            category: FunctionCategory::Scalar,
        },
        FunctionSignature {
            name: "list",
            display_name: "LIST",
            params: &[FunctionParam { name: "expressions", required: false }],
            return_type: None,
            category: FunctionCategory::Scalar,
        },
        FunctionSignature {
            name: "ln",
            display_name: "LN",
            params: &[FunctionParam { name: "this", required: true }],
            return_type: None,
            category: FunctionCategory::Scalar,
        },
        FunctionSignature {
            name: "log",
            display_name: "LOG",
            params: &[FunctionParam { name: "this", required: true }, FunctionParam { name: "expression", required: false }],
            return_type: None,
            category: FunctionCategory::Scalar,
        },
        FunctionSignature {
            name: "lower_hex",
            display_name: "LOWER_HEX",
            params: &[FunctionParam { name: "this", required: true }],
            return_type: None,
            category: FunctionCategory::Scalar,
        },
        FunctionSignature {
            name: "make_interval",
            display_name: "MAKE_INTERVAL",
            params: &[FunctionParam { name: "year", required: false }, FunctionParam { name: "month", required: false }, FunctionParam { name: "day", required: false }, FunctionParam { name: "hour", required: false }, FunctionParam { name: "minute", required: false }, FunctionParam { name: "second", required: false }],
            return_type: None,
            category: FunctionCategory::Scalar,
        },
        FunctionSignature {
            name: "map",
            display_name: "MAP",
            params: &[FunctionParam { name: "keys", required: false }, FunctionParam { name: "values", required: false }],
            return_type: None,
            category: FunctionCategory::Scalar,
        },
        FunctionSignature {
            name: "map_from_entries",
            display_name: "MAP_FROM_ENTRIES",
            params: &[FunctionParam { name: "this", required: true }],
            return_type: None,
            category: FunctionCategory::Scalar,
        },
        FunctionSignature {
            name: "match_against",
            display_name: "MATCH_AGAINST",
            params: &[FunctionParam { name: "this", required: true }, FunctionParam { name: "expressions", required: true }, FunctionParam { name: "modifier", required: false }],
            return_type: None,
            category: FunctionCategory::Scalar,
        },
        FunctionSignature {
            name: "max",
            display_name: "MAX",
            params: &[FunctionParam { name: "this", required: true }, FunctionParam { name: "expressions", required: false }],
            return_type: Some(ReturnTypeRule::MatchFirstArg),
            category: FunctionCategory::Aggregate,
        },
        FunctionSignature {
            name: "md5",
            display_name: "MD5",
            params: &[FunctionParam { name: "this", required: true }],
            return_type: None,
            category: FunctionCategory::Scalar,
        },
        FunctionSignature {
            name: "md5digest",
            display_name: "MD5DIGEST",
            params: &[FunctionParam { name: "this", required: true }],
            return_type: None,
            category: FunctionCategory::Scalar,
        },
        FunctionSignature {
            name: "median",
            display_name: "MEDIAN",
            params: &[FunctionParam { name: "this", required: true }],
            return_type: None,
            category: FunctionCategory::Aggregate,
        },
        FunctionSignature {
            name: "min",
            display_name: "MIN",
            params: &[FunctionParam { name: "this", required: true }, FunctionParam { name: "expressions", required: false }],
            return_type: Some(ReturnTypeRule::MatchFirstArg),
            category: FunctionCategory::Aggregate,
        },
        FunctionSignature {
            name: "minhash",
            display_name: "MINHASH",
            params: &[FunctionParam { name: "this", required: true }, FunctionParam { name: "expressions", required: true }],
            return_type: None,
            category: FunctionCategory::Aggregate,
        },
        FunctionSignature {
            name: "minhash_combine",
            display_name: "MINHASH_COMBINE",
            params: &[FunctionParam { name: "this", required: true }],
            return_type: None,
            category: FunctionCategory::Aggregate,
        },
        FunctionSignature {
            name: "minute",
            display_name: "MINUTE",
            params: &[FunctionParam { name: "this", required: true }],
            return_type: None,
            category: FunctionCategory::Scalar,
        },
        FunctionSignature {
            name: "month",
            display_name: "MONTH",
            params: &[FunctionParam { name: "this", required: true }],
            return_type: None,
            category: FunctionCategory::Scalar,
        },
        FunctionSignature {
            name: "monthname",
            display_name: "MONTHNAME",
            params: &[FunctionParam { name: "this", required: true }],
            return_type: None,
            category: FunctionCategory::Scalar,
        },
        FunctionSignature {
            name: "months_between",
            display_name: "MONTHS_BETWEEN",
            params: &[FunctionParam { name: "this", required: true }, FunctionParam { name: "expression", required: true }, FunctionParam { name: "roundoff", required: false }],
            return_type: None,
            category: FunctionCategory::Scalar,
        },
        FunctionSignature {
            name: "md5number_lower64",
            display_name: "MD5NUMBER_LOWER64",
            params: &[FunctionParam { name: "this", required: true }],
            return_type: None,
            category: FunctionCategory::Scalar,
        },
        FunctionSignature {
            name: "md5number_upper64",
            display_name: "MD5NUMBER_UPPER64",
            params: &[FunctionParam { name: "this", required: true }],
            return_type: None,
            category: FunctionCategory::Scalar,
        },
        FunctionSignature {
            name: "ml_forecast",
            display_name: "ML_FORECAST",
            params: &[FunctionParam { name: "this", required: true }, FunctionParam { name: "expression", required: false }, FunctionParam { name: "params_struct", required: false }],
            return_type: None,
            category: FunctionCategory::Scalar,
        },
        FunctionSignature {
            name: "ml_translate",
            display_name: "ML_TRANSLATE",
            params: &[FunctionParam { name: "this", required: true }, FunctionParam { name: "expression", required: true }, FunctionParam { name: "params_struct", required: true }],
            return_type: None,
            category: FunctionCategory::Scalar,
        },
        FunctionSignature {
            name: "next_day",
            display_name: "NEXT_DAY",
            params: &[FunctionParam { name: "this", required: true }, FunctionParam { name: "expression", required: true }],
            return_type: None,
            category: FunctionCategory::Scalar,
        },
        FunctionSignature {
            name: "next_value_for",
            display_name: "NEXT_VALUE_FOR",
            params: &[FunctionParam { name: "this", required: true }, FunctionParam { name: "order", required: false }],
            return_type: None,
            category: FunctionCategory::Scalar,
        },
        FunctionSignature {
            name: "normalize",
            display_name: "NORMALIZE",
            params: &[FunctionParam { name: "this", required: true }, FunctionParam { name: "form", required: false }, FunctionParam { name: "is_casefold", required: false }],
            return_type: None,
            category: FunctionCategory::Scalar,
        },
        FunctionSignature {
            name: "now",
            display_name: "NOW",
            params: &[],
            return_type: Some(ReturnTypeRule::Timestamp),
            category: FunctionCategory::Scalar,
        },
        FunctionSignature {
            name: "nth_value",
            display_name: "NTH_VALUE",
            params: &[FunctionParam { name: "this", required: true }, FunctionParam { name: "offset", required: true }],
            return_type: None,
            category: FunctionCategory::Window,
        },
        FunctionSignature {
            name: "ntile",
            display_name: "NTILE",
            params: &[FunctionParam { name: "this", required: false }],
            return_type: Some(ReturnTypeRule::Integer),
            category: FunctionCategory::Window,
        },
        FunctionSignature {
            name: "nullif",
            display_name: "NULLIF",
            params: &[FunctionParam { name: "this", required: true }, FunctionParam { name: "expression", required: true }],
            return_type: None,
            category: FunctionCategory::Scalar,
        },
        FunctionSignature {
            name: "number_to_str",
            display_name: "NUMBER_TO_STR",
            params: &[FunctionParam { name: "this", required: true }, FunctionParam { name: "format", required: true }, FunctionParam { name: "culture", required: false }],
            return_type: None,
            category: FunctionCategory::Scalar,
        },
        FunctionSignature {
            name: "nvl2",
            display_name: "NVL2",
            params: &[FunctionParam { name: "this", required: true }, FunctionParam { name: "true", required: true }, FunctionParam { name: "false", required: false }],
            return_type: None,
            category: FunctionCategory::Scalar,
        },
        FunctionSignature {
            name: "object_agg",
            display_name: "OBJECT_AGG",
            params: &[FunctionParam { name: "this", required: true }, FunctionParam { name: "expression", required: true }],
            return_type: None,
            category: FunctionCategory::Aggregate,
        },
        FunctionSignature {
            name: "object_insert",
            display_name: "OBJECT_INSERT",
            params: &[FunctionParam { name: "this", required: true }, FunctionParam { name: "key", required: true }, FunctionParam { name: "value", required: true }, FunctionParam { name: "update_flag", required: false }],
            return_type: None,
            category: FunctionCategory::Scalar,
        },
        FunctionSignature {
            name: "open_json",
            display_name: "OPEN_JSON",
            params: &[FunctionParam { name: "this", required: true }, FunctionParam { name: "path", required: false }, FunctionParam { name: "expressions", required: false }],
            return_type: None,
            category: FunctionCategory::Scalar,
        },
        FunctionSignature {
            name: "or",
            display_name: "OR",
            params: &[FunctionParam { name: "this", required: true }, FunctionParam { name: "expression", required: true }],
            return_type: Some(ReturnTypeRule::Boolean),
            category: FunctionCategory::Scalar,
        },
        FunctionSignature {
            name: "overlay",
            display_name: "OVERLAY",
            params: &[FunctionParam { name: "this", required: true }, FunctionParam { name: "expression", required: true }, FunctionParam { name: "from_", required: true }, FunctionParam { name: "for_", required: false }],
            return_type: None,
            category: FunctionCategory::Scalar,
        },
        FunctionSignature {
            name: "pad",
            display_name: "PAD",
            params: &[FunctionParam { name: "this", required: true }, FunctionParam { name: "expression", required: true }, FunctionParam { name: "fill_pattern", required: false }, FunctionParam { name: "is_left", required: true }],
            return_type: None,
            category: FunctionCategory::Scalar,
        },
        FunctionSignature {
            name: "parameterized_agg",
            display_name: "PARAMETERIZED_AGG",
            params: &[FunctionParam { name: "this", required: true }, FunctionParam { name: "expressions", required: true }, FunctionParam { name: "params", required: true }],
            return_type: None,
            category: FunctionCategory::Aggregate,
        },
        FunctionSignature {
            name: "parse_bignumeric",
            display_name: "PARSE_BIGNUMERIC",
            params: &[FunctionParam { name: "this", required: true }],
            return_type: None,
            category: FunctionCategory::Scalar,
        },
        FunctionSignature {
            name: "parse_datetime",
            display_name: "PARSE_DATETIME",
            params: &[FunctionParam { name: "this", required: true }, FunctionParam { name: "format", required: false }, FunctionParam { name: "zone", required: false }],
            return_type: None,
            category: FunctionCategory::Scalar,
        },
        FunctionSignature {
            name: "parse_ip",
            display_name: "PARSE_IP",
            params: &[FunctionParam { name: "this", required: true }, FunctionParam { name: "type", required: true }, FunctionParam { name: "permissive", required: false }],
            return_type: None,
            category: FunctionCategory::Scalar,
        },
        FunctionSignature {
            name: "parse_numeric",
            display_name: "PARSE_NUMERIC",
            params: &[FunctionParam { name: "this", required: true }],
            return_type: None,
            category: FunctionCategory::Scalar,
        },
        FunctionSignature {
            name: "parse_time",
            display_name: "PARSE_TIME",
            params: &[FunctionParam { name: "this", required: true }, FunctionParam { name: "format", required: true }],
            return_type: None,
            category: FunctionCategory::Scalar,
        },
        FunctionSignature {
            name: "parse_url",
            display_name: "PARSE_URL",
            params: &[FunctionParam { name: "this", required: true }, FunctionParam { name: "part_to_extract", required: false }, FunctionParam { name: "key", required: false }, FunctionParam { name: "permissive", required: false }],
            return_type: None,
            category: FunctionCategory::Scalar,
        },
        FunctionSignature {
            name: "percentile_cont",
            display_name: "PERCENTILE_CONT",
            params: &[FunctionParam { name: "this", required: true }, FunctionParam { name: "expression", required: false }],
            return_type: None,
            category: FunctionCategory::Window,
        },
        FunctionSignature {
            name: "percentile_disc",
            display_name: "PERCENTILE_DISC",
            params: &[FunctionParam { name: "this", required: true }, FunctionParam { name: "expression", required: false }],
            return_type: None,
            category: FunctionCategory::Window,
        },
        FunctionSignature {
            name: "percent_rank",
            display_name: "PERCENT_RANK",
            params: &[FunctionParam { name: "expressions", required: false }],
            return_type: None,
            category: FunctionCategory::Window,
        },
        FunctionSignature {
            name: "pi",
            display_name: "PI",
            params: &[],
            return_type: None,
            category: FunctionCategory::Scalar,
        },
        FunctionSignature {
            name: "posexplode",
            display_name: "POSEXPLODE",
            params: &[FunctionParam { name: "this", required: true }, FunctionParam { name: "expressions", required: false }],
            return_type: None,
            category: FunctionCategory::Scalar,
        },
        FunctionSignature {
            name: "posexplode_outer",
            display_name: "POSEXPLODE_OUTER",
            params: &[FunctionParam { name: "this", required: true }, FunctionParam { name: "expressions", required: false }],
            return_type: None,
            category: FunctionCategory::Scalar,
        },
        FunctionSignature {
            name: "pow",
            display_name: "POW",
            params: &[FunctionParam { name: "this", required: true }, FunctionParam { name: "expression", required: true }],
            return_type: None,
            category: FunctionCategory::Scalar,
        },
        FunctionSignature {
            name: "predict",
            display_name: "PREDICT",
            params: &[FunctionParam { name: "this", required: true }, FunctionParam { name: "expression", required: true }, FunctionParam { name: "params_struct", required: false }],
            return_type: None,
            category: FunctionCategory::Scalar,
        },
        FunctionSignature {
            name: "previous_day",
            display_name: "PREVIOUS_DAY",
            params: &[FunctionParam { name: "this", required: true }, FunctionParam { name: "expression", required: true }],
            return_type: None,
            category: FunctionCategory::Scalar,
        },
        FunctionSignature {
            name: "quantile",
            display_name: "QUANTILE",
            params: &[FunctionParam { name: "this", required: true }, FunctionParam { name: "quantile", required: true }],
            return_type: None,
            category: FunctionCategory::Aggregate,
        },
        FunctionSignature {
            name: "quarter",
            display_name: "QUARTER",
            params: &[FunctionParam { name: "this", required: true }],
            return_type: None,
            category: FunctionCategory::Scalar,
        },
        FunctionSignature {
            name: "radians",
            display_name: "RADIANS",
            params: &[FunctionParam { name: "this", required: true }],
            return_type: None,
            category: FunctionCategory::Scalar,
        },
        FunctionSignature {
            name: "rand",
            display_name: "RAND",
            params: &[FunctionParam { name: "this", required: false }, FunctionParam { name: "lower", required: false }, FunctionParam { name: "upper", required: false }],
            return_type: None,
            category: FunctionCategory::Scalar,
        },
        FunctionSignature {
            name: "randn",
            display_name: "RANDN",
            params: &[FunctionParam { name: "this", required: false }],
            return_type: None,
            category: FunctionCategory::Scalar,
        },
        FunctionSignature {
            name: "range_bucket",
            display_name: "RANGE_BUCKET",
            params: &[FunctionParam { name: "this", required: true }, FunctionParam { name: "expression", required: true }],
            return_type: None,
            category: FunctionCategory::Scalar,
        },
        FunctionSignature {
            name: "range_n",
            display_name: "RANGE_N",
            params: &[FunctionParam { name: "this", required: true }, FunctionParam { name: "expressions", required: true }, FunctionParam { name: "each", required: false }],
            return_type: None,
            category: FunctionCategory::Scalar,
        },
        FunctionSignature {
            name: "rank",
            display_name: "RANK",
            params: &[FunctionParam { name: "expressions", required: false }],
            return_type: Some(ReturnTypeRule::Integer),
            category: FunctionCategory::Window,
        },
        FunctionSignature {
            name: "read_csv",
            display_name: "READ_CSV",
            params: &[FunctionParam { name: "this", required: true }, FunctionParam { name: "expressions", required: false }],
            return_type: None,
            category: FunctionCategory::Scalar,
        },
        FunctionSignature {
            name: "read_parquet",
            display_name: "READ_PARQUET",
            params: &[FunctionParam { name: "expressions", required: true }],
            return_type: None,
            category: FunctionCategory::Scalar,
        },
        FunctionSignature {
            name: "reduce",
            display_name: "REDUCE",
            params: &[FunctionParam { name: "this", required: true }, FunctionParam { name: "initial", required: true }, FunctionParam { name: "merge", required: true }, FunctionParam { name: "finish", required: false }],
            return_type: None,
            category: FunctionCategory::Scalar,
        },
        FunctionSignature {
            name: "regexp_count",
            display_name: "REGEXP_COUNT",
            params: &[FunctionParam { name: "this", required: true }, FunctionParam { name: "expression", required: true }, FunctionParam { name: "position", required: false }, FunctionParam { name: "parameters", required: false }],
            return_type: None,
            category: FunctionCategory::Scalar,
        },
        FunctionSignature {
            name: "regexp_extract",
            display_name: "REGEXP_EXTRACT",
            params: &[FunctionParam { name: "this", required: true }, FunctionParam { name: "expression", required: true }, FunctionParam { name: "position", required: false }, FunctionParam { name: "occurrence", required: false }, FunctionParam { name: "parameters", required: false }, FunctionParam { name: "group", required: false }],
            return_type: None,
            category: FunctionCategory::Scalar,
        },
        FunctionSignature {
            name: "regexp_extract_all",
            display_name: "REGEXP_EXTRACT_ALL",
            params: &[FunctionParam { name: "this", required: true }, FunctionParam { name: "expression", required: true }, FunctionParam { name: "group", required: false }, FunctionParam { name: "parameters", required: false }, FunctionParam { name: "position", required: false }, FunctionParam { name: "occurrence", required: false }],
            return_type: None,
            category: FunctionCategory::Scalar,
        },
        FunctionSignature {
            name: "regexp_full_match",
            display_name: "REGEXP_FULL_MATCH",
            params: &[FunctionParam { name: "this", required: true }, FunctionParam { name: "expression", required: true }, FunctionParam { name: "options", required: false }],
            return_type: None,
            category: FunctionCategory::Scalar,
        },
        FunctionSignature {
            name: "regexp_instr",
            display_name: "REGEXP_INSTR",
            params: &[FunctionParam { name: "this", required: true }, FunctionParam { name: "expression", required: true }, FunctionParam { name: "position", required: false }, FunctionParam { name: "occurrence", required: false }, FunctionParam { name: "option", required: false }, FunctionParam { name: "parameters", required: false }, FunctionParam { name: "group", required: false }],
            return_type: None,
            category: FunctionCategory::Scalar,
        },
        FunctionSignature {
            name: "regexp_i_like",
            display_name: "REGEXP_I_LIKE",
            params: &[FunctionParam { name: "this", required: true }, FunctionParam { name: "expression", required: true }, FunctionParam { name: "flag", required: false }],
            return_type: None,
            category: FunctionCategory::Scalar,
        },
        FunctionSignature {
            name: "regexp_like",
            display_name: "REGEXP_LIKE",
            params: &[FunctionParam { name: "this", required: true }, FunctionParam { name: "expression", required: true }, FunctionParam { name: "flag", required: false }],
            return_type: None,
            category: FunctionCategory::Scalar,
        },
        FunctionSignature {
            name: "regexp_replace",
            display_name: "REGEXP_REPLACE",
            params: &[FunctionParam { name: "this", required: true }, FunctionParam { name: "expression", required: true }, FunctionParam { name: "replacement", required: false }, FunctionParam { name: "position", required: false }, FunctionParam { name: "occurrence", required: false }, FunctionParam { name: "modifiers", required: false }, FunctionParam { name: "single_replace", required: false }],
            return_type: None,
            category: FunctionCategory::Scalar,
        },
        FunctionSignature {
            name: "regexp_split",
            display_name: "REGEXP_SPLIT",
            params: &[FunctionParam { name: "this", required: true }, FunctionParam { name: "expression", required: true }, FunctionParam { name: "limit", required: false }],
            return_type: None,
            category: FunctionCategory::Scalar,
        },
        FunctionSignature {
            name: "regr_avgx",
            display_name: "REGR_AVGX",
            params: &[FunctionParam { name: "this", required: true }, FunctionParam { name: "expression", required: true }],
            return_type: None,
            category: FunctionCategory::Scalar,
        },
        FunctionSignature {
            name: "regr_avgy",
            display_name: "REGR_AVGY",
            params: &[FunctionParam { name: "this", required: true }, FunctionParam { name: "expression", required: true }],
            return_type: None,
            category: FunctionCategory::Scalar,
        },
        FunctionSignature {
            name: "regr_valx",
            display_name: "REGR_VALX",
            params: &[FunctionParam { name: "this", required: true }, FunctionParam { name: "expression", required: true }],
            return_type: None,
            category: FunctionCategory::Scalar,
        },
        FunctionSignature {
            name: "regr_valy",
            display_name: "REGR_VALY",
            params: &[FunctionParam { name: "this", required: true }, FunctionParam { name: "expression", required: true }],
            return_type: None,
            category: FunctionCategory::Scalar,
        },
        FunctionSignature {
            name: "repeat",
            display_name: "REPEAT",
            params: &[FunctionParam { name: "this", required: true }, FunctionParam { name: "times", required: true }],
            return_type: None,
            category: FunctionCategory::Scalar,
        },
        FunctionSignature {
            name: "replace",
            display_name: "REPLACE",
            params: &[FunctionParam { name: "this", required: true }, FunctionParam { name: "expression", required: true }, FunctionParam { name: "replacement", required: false }],
            return_type: Some(ReturnTypeRule::Text),
            category: FunctionCategory::Scalar,
        },
        FunctionSignature {
            name: "reverse",
            display_name: "REVERSE",
            params: &[FunctionParam { name: "this", required: true }],
            return_type: None,
            category: FunctionCategory::Scalar,
        },
        FunctionSignature {
            name: "right",
            display_name: "RIGHT",
            params: &[FunctionParam { name: "this", required: true }, FunctionParam { name: "expression", required: true }],
            return_type: None,
            category: FunctionCategory::Scalar,
        },
        FunctionSignature {
            name: "round",
            display_name: "ROUND",
            params: &[FunctionParam { name: "this", required: true }, FunctionParam { name: "decimals", required: false }, FunctionParam { name: "truncate", required: false }],
            return_type: None,
            category: FunctionCategory::Scalar,
        },
        FunctionSignature {
            name: "row_number",
            display_name: "ROW_NUMBER",
            params: &[FunctionParam { name: "this", required: false }],
            return_type: Some(ReturnTypeRule::Integer),
            category: FunctionCategory::Window,
        },
        FunctionSignature {
            name: "rtrimmed_length",
            display_name: "RTRIMMED_LENGTH",
            params: &[FunctionParam { name: "this", required: true }],
            return_type: None,
            category: FunctionCategory::Scalar,
        },
        FunctionSignature {
            name: "safe_add",
            display_name: "SAFE_ADD",
            params: &[FunctionParam { name: "this", required: true }, FunctionParam { name: "expression", required: true }],
            return_type: None,
            category: FunctionCategory::Scalar,
        },
        FunctionSignature {
            name: "safe_convert_bytes_to_string",
            display_name: "SAFE_CONVERT_BYTES_TO_STRING",
            params: &[FunctionParam { name: "this", required: true }],
            return_type: None,
            category: FunctionCategory::Scalar,
        },
        FunctionSignature {
            name: "safe_divide",
            display_name: "SAFE_DIVIDE",
            params: &[FunctionParam { name: "this", required: true }, FunctionParam { name: "expression", required: true }],
            return_type: None,
            category: FunctionCategory::Scalar,
        },
        FunctionSignature {
            name: "safe_multiply",
            display_name: "SAFE_MULTIPLY",
            params: &[FunctionParam { name: "this", required: true }, FunctionParam { name: "expression", required: true }],
            return_type: None,
            category: FunctionCategory::Scalar,
        },
        FunctionSignature {
            name: "safe_negate",
            display_name: "SAFE_NEGATE",
            params: &[FunctionParam { name: "this", required: true }],
            return_type: None,
            category: FunctionCategory::Scalar,
        },
        FunctionSignature {
            name: "safe_subtract",
            display_name: "SAFE_SUBTRACT",
            params: &[FunctionParam { name: "this", required: true }, FunctionParam { name: "expression", required: true }],
            return_type: None,
            category: FunctionCategory::Scalar,
        },
        FunctionSignature {
            name: "search",
            display_name: "SEARCH",
            params: &[FunctionParam { name: "this", required: true }, FunctionParam { name: "expression", required: true }, FunctionParam { name: "json_scope", required: false }, FunctionParam { name: "analyzer", required: false }, FunctionParam { name: "analyzer_options", required: false }, FunctionParam { name: "search_mode", required: false }],
            return_type: None,
            category: FunctionCategory::Scalar,
        },
        FunctionSignature {
            name: "sec",
            display_name: "SEC",
            params: &[FunctionParam { name: "this", required: true }],
            return_type: None,
            category: FunctionCategory::Scalar,
        },
        FunctionSignature {
            name: "sech",
            display_name: "SECH",
            params: &[FunctionParam { name: "this", required: true }],
            return_type: None,
            category: FunctionCategory::Scalar,
        },
        FunctionSignature {
            name: "second",
            display_name: "SECOND",
            params: &[FunctionParam { name: "this", required: true }],
            return_type: None,
            category: FunctionCategory::Scalar,
        },
        FunctionSignature {
            name: "sha",
            display_name: "SHA",
            params: &[FunctionParam { name: "this", required: true }],
            return_type: None,
            category: FunctionCategory::Scalar,
        },
        FunctionSignature {
            name: "sha2",
            display_name: "SHA2",
            params: &[FunctionParam { name: "this", required: true }, FunctionParam { name: "length", required: false }],
            return_type: None,
            category: FunctionCategory::Scalar,
        },
        FunctionSignature {
            name: "sign",
            display_name: "SIGN",
            params: &[FunctionParam { name: "this", required: true }],
            return_type: None,
            category: FunctionCategory::Scalar,
        },
        FunctionSignature {
            name: "sin",
            display_name: "SIN",
            params: &[FunctionParam { name: "this", required: true }],
            return_type: None,
            category: FunctionCategory::Scalar,
        },
        FunctionSignature {
            name: "sinh",
            display_name: "SINH",
            params: &[FunctionParam { name: "this", required: true }],
            return_type: None,
            category: FunctionCategory::Scalar,
        },
        FunctionSignature {
            name: "skewness",
            display_name: "SKEWNESS",
            params: &[FunctionParam { name: "this", required: true }],
            return_type: None,
            category: FunctionCategory::Aggregate,
        },
        FunctionSignature {
            name: "sort_array",
            display_name: "SORT_ARRAY",
            params: &[FunctionParam { name: "this", required: true }, FunctionParam { name: "asc", required: false }, FunctionParam { name: "nulls_first", required: false }],
            return_type: None,
            category: FunctionCategory::Scalar,
        },
        FunctionSignature {
            name: "soundex",
            display_name: "SOUNDEX",
            params: &[FunctionParam { name: "this", required: true }],
            return_type: None,
            category: FunctionCategory::Scalar,
        },
        FunctionSignature {
            name: "soundex_p123",
            display_name: "SOUNDEX_P123",
            params: &[FunctionParam { name: "this", required: true }],
            return_type: None,
            category: FunctionCategory::Scalar,
        },
        FunctionSignature {
            name: "space",
            display_name: "SPACE",
            params: &[FunctionParam { name: "this", required: true }],
            return_type: None,
            category: FunctionCategory::Scalar,
        },
        FunctionSignature {
            name: "split",
            display_name: "SPLIT",
            params: &[FunctionParam { name: "this", required: true }, FunctionParam { name: "expression", required: true }, FunctionParam { name: "limit", required: false }],
            return_type: None,
            category: FunctionCategory::Scalar,
        },
        FunctionSignature {
            name: "string_to_array",
            display_name: "STRING_TO_ARRAY",
            params: &[FunctionParam { name: "this", required: true }, FunctionParam { name: "expression", required: false }, FunctionParam { name: "null", required: false }],
            return_type: None,
            category: FunctionCategory::Scalar,
        },
        FunctionSignature {
            name: "split_part",
            display_name: "SPLIT_PART",
            params: &[FunctionParam { name: "this", required: true }, FunctionParam { name: "delimiter", required: false }, FunctionParam { name: "part_index", required: false }],
            return_type: None,
            category: FunctionCategory::Scalar,
        },
        FunctionSignature {
            name: "sqrt",
            display_name: "SQRT",
            params: &[FunctionParam { name: "this", required: true }],
            return_type: None,
            category: FunctionCategory::Scalar,
        },
        FunctionSignature {
            name: "standard_hash",
            display_name: "STANDARD_HASH",
            params: &[FunctionParam { name: "this", required: true }, FunctionParam { name: "expression", required: false }],
            return_type: None,
            category: FunctionCategory::Scalar,
        },
        FunctionSignature {
            name: "starts_with",
            display_name: "STARTS_WITH",
            params: &[FunctionParam { name: "this", required: true }, FunctionParam { name: "expression", required: true }],
            return_type: None,
            category: FunctionCategory::Scalar,
        },
        FunctionSignature {
            name: "star_map",
            display_name: "STAR_MAP",
            params: &[FunctionParam { name: "this", required: true }],
            return_type: None,
            category: FunctionCategory::Scalar,
        },
        FunctionSignature {
            name: "stddev",
            display_name: "STDDEV",
            params: &[FunctionParam { name: "this", required: true }],
            return_type: None,
            category: FunctionCategory::Aggregate,
        },
        FunctionSignature {
            name: "stddev_pop",
            display_name: "STDDEV_POP",
            params: &[FunctionParam { name: "this", required: true }],
            return_type: None,
            category: FunctionCategory::Aggregate,
        },
        FunctionSignature {
            name: "stddev_samp",
            display_name: "STDDEV_SAMP",
            params: &[FunctionParam { name: "this", required: true }],
            return_type: None,
            category: FunctionCategory::Aggregate,
        },
        FunctionSignature {
            name: "string",
            display_name: "STRING",
            params: &[FunctionParam { name: "this", required: true }, FunctionParam { name: "zone", required: false }],
            return_type: None,
            category: FunctionCategory::Scalar,
        },
        FunctionSignature {
            name: "struct",
            display_name: "STRUCT",
            params: &[FunctionParam { name: "expressions", required: false }],
            return_type: None,
            category: FunctionCategory::Scalar,
        },
        FunctionSignature {
            name: "struct_extract",
            display_name: "STRUCT_EXTRACT",
            params: &[FunctionParam { name: "this", required: true }, FunctionParam { name: "expression", required: true }],
            return_type: None,
            category: FunctionCategory::Scalar,
        },
        FunctionSignature {
            name: "str_position",
            display_name: "STR_POSITION",
            params: &[FunctionParam { name: "this", required: true }, FunctionParam { name: "substr", required: true }, FunctionParam { name: "position", required: false }, FunctionParam { name: "occurrence", required: false }],
            return_type: None,
            category: FunctionCategory::Scalar,
        },
        FunctionSignature {
            name: "str_to_date",
            display_name: "STR_TO_DATE",
            params: &[FunctionParam { name: "this", required: true }, FunctionParam { name: "format", required: false }, FunctionParam { name: "safe", required: false }],
            return_type: None,
            category: FunctionCategory::Scalar,
        },
        FunctionSignature {
            name: "str_to_map",
            display_name: "STR_TO_MAP",
            params: &[FunctionParam { name: "this", required: true }, FunctionParam { name: "pair_delim", required: false }, FunctionParam { name: "key_value_delim", required: false }, FunctionParam { name: "duplicate_resolution_callback", required: false }],
            return_type: None,
            category: FunctionCategory::Scalar,
        },
        FunctionSignature {
            name: "str_to_time",
            display_name: "STR_TO_TIME",
            params: &[FunctionParam { name: "this", required: true }, FunctionParam { name: "format", required: true }, FunctionParam { name: "zone", required: false }, FunctionParam { name: "safe", required: false }],
            return_type: None,
            category: FunctionCategory::Scalar,
        },
        FunctionSignature {
            name: "str_to_unix",
            display_name: "STR_TO_UNIX",
            params: &[FunctionParam { name: "this", required: false }, FunctionParam { name: "format", required: false }],
            return_type: None,
            category: FunctionCategory::Scalar,
        },
        FunctionSignature {
            name: "st_distance",
            display_name: "ST_DISTANCE",
            params: &[FunctionParam { name: "this", required: true }, FunctionParam { name: "expression", required: true }, FunctionParam { name: "use_spheroid", required: false }],
            return_type: None,
            category: FunctionCategory::Scalar,
        },
        FunctionSignature {
            name: "st_point",
            display_name: "ST_POINT",
            params: &[FunctionParam { name: "this", required: true }, FunctionParam { name: "expression", required: true }, FunctionParam { name: "null", required: false }],
            return_type: None,
            category: FunctionCategory::Scalar,
        },
        FunctionSignature {
            name: "substring",
            display_name: "SUBSTRING",
            params: &[FunctionParam { name: "this", required: true }, FunctionParam { name: "start", required: false }, FunctionParam { name: "length", required: false }],
            return_type: Some(ReturnTypeRule::Text),
            category: FunctionCategory::Scalar,
        },
        FunctionSignature {
            name: "substring_index",
            display_name: "SUBSTRING_INDEX",
            params: &[FunctionParam { name: "this", required: true }, FunctionParam { name: "delimiter", required: true }, FunctionParam { name: "count", required: true }],
            return_type: None,
            category: FunctionCategory::Scalar,
        },
        FunctionSignature {
            name: "sum",
            display_name: "SUM",
            params: &[FunctionParam { name: "this", required: true }],
            return_type: Some(ReturnTypeRule::Numeric),
            category: FunctionCategory::Aggregate,
        },
        FunctionSignature {
            name: "sha1digest",
            display_name: "SHA1DIGEST",
            params: &[FunctionParam { name: "this", required: true }],
            return_type: None,
            category: FunctionCategory::Scalar,
        },
        FunctionSignature {
            name: "sha2digest",
            display_name: "SHA2DIGEST",
            params: &[FunctionParam { name: "this", required: true }, FunctionParam { name: "length", required: false }],
            return_type: None,
            category: FunctionCategory::Scalar,
        },
        FunctionSignature {
            name: "tan",
            display_name: "TAN",
            params: &[FunctionParam { name: "this", required: true }],
            return_type: None,
            category: FunctionCategory::Scalar,
        },
        FunctionSignature {
            name: "tanh",
            display_name: "TANH",
            params: &[FunctionParam { name: "this", required: true }],
            return_type: None,
            category: FunctionCategory::Scalar,
        },
        FunctionSignature {
            name: "time",
            display_name: "TIME",
            params: &[FunctionParam { name: "this", required: false }, FunctionParam { name: "zone", required: false }],
            return_type: None,
            category: FunctionCategory::Scalar,
        },
        FunctionSignature {
            name: "time_from_parts",
            display_name: "TIME_FROM_PARTS",
            params: &[FunctionParam { name: "hour", required: true }, FunctionParam { name: "min", required: true }, FunctionParam { name: "sec", required: true }, FunctionParam { name: "nano", required: false }, FunctionParam { name: "fractions", required: false }, FunctionParam { name: "precision", required: false }],
            return_type: None,
            category: FunctionCategory::Scalar,
        },
        FunctionSignature {
            name: "timestamp",
            display_name: "TIMESTAMP",
            params: &[FunctionParam { name: "this", required: false }, FunctionParam { name: "zone", required: false }, FunctionParam { name: "with_tz", required: false }],
            return_type: None,
            category: FunctionCategory::Scalar,
        },
        FunctionSignature {
            name: "timestamp_diff",
            display_name: "TIMESTAMP_DIFF",
            params: &[FunctionParam { name: "this", required: true }, FunctionParam { name: "expression", required: true }, FunctionParam { name: "unit", required: false }],
            return_type: None,
            category: FunctionCategory::Scalar,
        },
        FunctionSignature {
            name: "timestamp_from_parts",
            display_name: "TIMESTAMP_FROM_PARTS",
            params: &[FunctionParam { name: "year", required: false }, FunctionParam { name: "month", required: false }, FunctionParam { name: "day", required: false }, FunctionParam { name: "hour", required: false }, FunctionParam { name: "min", required: false }, FunctionParam { name: "sec", required: false }, FunctionParam { name: "nano", required: false }, FunctionParam { name: "zone", required: false }, FunctionParam { name: "milli", required: false }, FunctionParam { name: "this", required: false }, FunctionParam { name: "expression", required: false }],
            return_type: None,
            category: FunctionCategory::Scalar,
        },
        FunctionSignature {
            name: "timestamp_ltz_from_parts",
            display_name: "TIMESTAMP_LTZ_FROM_PARTS",
            params: &[FunctionParam { name: "year", required: false }, FunctionParam { name: "month", required: false }, FunctionParam { name: "day", required: false }, FunctionParam { name: "hour", required: false }, FunctionParam { name: "min", required: false }, FunctionParam { name: "sec", required: false }, FunctionParam { name: "nano", required: false }],
            return_type: None,
            category: FunctionCategory::Scalar,
        },
        FunctionSignature {
            name: "timestamp_tz_from_parts",
            display_name: "TIMESTAMP_TZ_FROM_PARTS",
            params: &[FunctionParam { name: "year", required: false }, FunctionParam { name: "month", required: false }, FunctionParam { name: "day", required: false }, FunctionParam { name: "hour", required: false }, FunctionParam { name: "min", required: false }, FunctionParam { name: "sec", required: false }, FunctionParam { name: "nano", required: false }, FunctionParam { name: "zone", required: false }],
            return_type: None,
            category: FunctionCategory::Scalar,
        },
        FunctionSignature {
            name: "timestamp_add",
            display_name: "TIMESTAMP_ADD",
            params: &[FunctionParam { name: "this", required: true }, FunctionParam { name: "expression", required: true }, FunctionParam { name: "unit", required: false }],
            return_type: None,
            category: FunctionCategory::Scalar,
        },
        FunctionSignature {
            name: "timestamp_sub",
            display_name: "TIMESTAMP_SUB",
            params: &[FunctionParam { name: "this", required: true }, FunctionParam { name: "expression", required: true }, FunctionParam { name: "unit", required: false }],
            return_type: None,
            category: FunctionCategory::Scalar,
        },
        FunctionSignature {
            name: "timestamp_trunc",
            display_name: "TIMESTAMP_TRUNC",
            params: &[FunctionParam { name: "this", required: true }, FunctionParam { name: "unit", required: true }, FunctionParam { name: "zone", required: false }],
            return_type: None,
            category: FunctionCategory::Scalar,
        },
        FunctionSignature {
            name: "time_add",
            display_name: "TIME_ADD",
            params: &[FunctionParam { name: "this", required: true }, FunctionParam { name: "expression", required: true }, FunctionParam { name: "unit", required: false }],
            return_type: None,
            category: FunctionCategory::Scalar,
        },
        FunctionSignature {
            name: "time_diff",
            display_name: "TIME_DIFF",
            params: &[FunctionParam { name: "this", required: true }, FunctionParam { name: "expression", required: true }, FunctionParam { name: "unit", required: false }],
            return_type: None,
            category: FunctionCategory::Scalar,
        },
        FunctionSignature {
            name: "time_slice",
            display_name: "TIME_SLICE",
            params: &[FunctionParam { name: "this", required: true }, FunctionParam { name: "expression", required: true }, FunctionParam { name: "unit", required: true }, FunctionParam { name: "kind", required: false }],
            return_type: None,
            category: FunctionCategory::Scalar,
        },
        FunctionSignature {
            name: "time_str_to_date",
            display_name: "TIME_STR_TO_DATE",
            params: &[FunctionParam { name: "this", required: true }],
            return_type: None,
            category: FunctionCategory::Scalar,
        },
        FunctionSignature {
            name: "time_str_to_time",
            display_name: "TIME_STR_TO_TIME",
            params: &[FunctionParam { name: "this", required: true }, FunctionParam { name: "zone", required: false }],
            return_type: None,
            category: FunctionCategory::Scalar,
        },
        FunctionSignature {
            name: "time_str_to_unix",
            display_name: "TIME_STR_TO_UNIX",
            params: &[FunctionParam { name: "this", required: true }],
            return_type: None,
            category: FunctionCategory::Scalar,
        },
        FunctionSignature {
            name: "time_sub",
            display_name: "TIME_SUB",
            params: &[FunctionParam { name: "this", required: true }, FunctionParam { name: "expression", required: true }, FunctionParam { name: "unit", required: false }],
            return_type: None,
            category: FunctionCategory::Scalar,
        },
        FunctionSignature {
            name: "time_to_str",
            display_name: "TIME_TO_STR",
            params: &[FunctionParam { name: "this", required: true }, FunctionParam { name: "format", required: true }, FunctionParam { name: "culture", required: false }, FunctionParam { name: "zone", required: false }],
            return_type: None,
            category: FunctionCategory::Scalar,
        },
        FunctionSignature {
            name: "time_to_time_str",
            display_name: "TIME_TO_TIME_STR",
            params: &[FunctionParam { name: "this", required: true }],
            return_type: None,
            category: FunctionCategory::Scalar,
        },
        FunctionSignature {
            name: "time_to_unix",
            display_name: "TIME_TO_UNIX",
            params: &[FunctionParam { name: "this", required: true }],
            return_type: None,
            category: FunctionCategory::Scalar,
        },
        FunctionSignature {
            name: "time_trunc",
            display_name: "TIME_TRUNC",
            params: &[FunctionParam { name: "this", required: true }, FunctionParam { name: "unit", required: true }, FunctionParam { name: "zone", required: false }],
            return_type: None,
            category: FunctionCategory::Scalar,
        },
        FunctionSignature {
            name: "to_array",
            display_name: "TO_ARRAY",
            params: &[FunctionParam { name: "this", required: true }],
            return_type: None,
            category: FunctionCategory::Scalar,
        },
        FunctionSignature {
            name: "to_base32",
            display_name: "TO_BASE32",
            params: &[FunctionParam { name: "this", required: true }],
            return_type: None,
            category: FunctionCategory::Scalar,
        },
        FunctionSignature {
            name: "to_base64",
            display_name: "TO_BASE64",
            params: &[FunctionParam { name: "this", required: true }],
            return_type: None,
            category: FunctionCategory::Scalar,
        },
        FunctionSignature {
            name: "to_char",
            display_name: "TO_CHAR",
            params: &[FunctionParam { name: "this", required: true }, FunctionParam { name: "format", required: false }, FunctionParam { name: "nlsparam", required: false }, FunctionParam { name: "is_numeric", required: false }],
            return_type: None,
            category: FunctionCategory::Scalar,
        },
        FunctionSignature {
            name: "to_code_points",
            display_name: "TO_CODE_POINTS",
            params: &[FunctionParam { name: "this", required: true }],
            return_type: None,
            category: FunctionCategory::Scalar,
        },
        FunctionSignature {
            name: "to_days",
            display_name: "TO_DAYS",
            params: &[FunctionParam { name: "this", required: true }],
            return_type: None,
            category: FunctionCategory::Scalar,
        },
        FunctionSignature {
            name: "to_double",
            display_name: "TO_DOUBLE",
            params: &[FunctionParam { name: "this", required: true }, FunctionParam { name: "format", required: false }],
            return_type: None,
            category: FunctionCategory::Scalar,
        },
        FunctionSignature {
            name: "to_map",
            display_name: "TO_MAP",
            params: &[FunctionParam { name: "this", required: true }],
            return_type: None,
            category: FunctionCategory::Scalar,
        },
        FunctionSignature {
            name: "to_number",
            display_name: "TO_NUMBER",
            params: &[FunctionParam { name: "this", required: true }, FunctionParam { name: "format", required: false }, FunctionParam { name: "nlsparam", required: false }, FunctionParam { name: "precision", required: false }, FunctionParam { name: "scale", required: false }],
            return_type: None,
            category: FunctionCategory::Scalar,
        },
        FunctionSignature {
            name: "transform",
            display_name: "TRANSFORM",
            params: &[FunctionParam { name: "this", required: true }, FunctionParam { name: "expression", required: true }],
            return_type: None,
            category: FunctionCategory::Scalar,
        },
        FunctionSignature {
            name: "translate",
            display_name: "TRANSLATE",
            params: &[FunctionParam { name: "this", required: true }, FunctionParam { name: "from_", required: true }, FunctionParam { name: "to", required: true }],
            return_type: None,
            category: FunctionCategory::Scalar,
        },
        FunctionSignature {
            name: "trim",
            display_name: "TRIM",
            params: &[FunctionParam { name: "this", required: true }, FunctionParam { name: "expression", required: false }, FunctionParam { name: "position", required: false }, FunctionParam { name: "collation", required: false }],
            return_type: Some(ReturnTypeRule::Text),
            category: FunctionCategory::Scalar,
        },
        FunctionSignature {
            name: "try",
            display_name: "TRY",
            params: &[FunctionParam { name: "this", required: true }],
            return_type: None,
            category: FunctionCategory::Scalar,
        },
        FunctionSignature {
            name: "try_base64decode_binary",
            display_name: "TRY_BASE64DECODE_BINARY",
            params: &[FunctionParam { name: "this", required: true }, FunctionParam { name: "alphabet", required: false }],
            return_type: None,
            category: FunctionCategory::Scalar,
        },
        FunctionSignature {
            name: "try_base64decode_string",
            display_name: "TRY_BASE64DECODE_STRING",
            params: &[FunctionParam { name: "this", required: true }, FunctionParam { name: "alphabet", required: false }],
            return_type: None,
            category: FunctionCategory::Scalar,
        },
        FunctionSignature {
            name: "try_cast",
            display_name: "TRY_CAST",
            params: &[FunctionParam { name: "this", required: true }, FunctionParam { name: "to", required: true }, FunctionParam { name: "format", required: false }, FunctionParam { name: "safe", required: false }, FunctionParam { name: "action", required: false }, FunctionParam { name: "default", required: false }, FunctionParam { name: "requires_string", required: false }],
            return_type: None,
            category: FunctionCategory::Scalar,
        },
        FunctionSignature {
            name: "try_hex_decode_binary",
            display_name: "TRY_HEX_DECODE_BINARY",
            params: &[FunctionParam { name: "this", required: true }],
            return_type: None,
            category: FunctionCategory::Scalar,
        },
        FunctionSignature {
            name: "try_hex_decode_string",
            display_name: "TRY_HEX_DECODE_STRING",
            params: &[FunctionParam { name: "this", required: true }],
            return_type: None,
            category: FunctionCategory::Scalar,
        },
        FunctionSignature {
            name: "ts_or_di_to_di",
            display_name: "TS_OR_DI_TO_DI",
            params: &[FunctionParam { name: "this", required: true }],
            return_type: None,
            category: FunctionCategory::Scalar,
        },
        FunctionSignature {
            name: "ts_or_ds_add",
            display_name: "TS_OR_DS_ADD",
            params: &[FunctionParam { name: "this", required: true }, FunctionParam { name: "expression", required: true }, FunctionParam { name: "unit", required: false }, FunctionParam { name: "return_type", required: false }],
            return_type: None,
            category: FunctionCategory::Scalar,
        },
        FunctionSignature {
            name: "ts_or_ds_diff",
            display_name: "TS_OR_DS_DIFF",
            params: &[FunctionParam { name: "this", required: true }, FunctionParam { name: "expression", required: true }, FunctionParam { name: "unit", required: false }],
            return_type: None,
            category: FunctionCategory::Scalar,
        },
        FunctionSignature {
            name: "ts_or_ds_to_date",
            display_name: "TS_OR_DS_TO_DATE",
            params: &[FunctionParam { name: "this", required: true }, FunctionParam { name: "format", required: false }, FunctionParam { name: "safe", required: false }],
            return_type: None,
            category: FunctionCategory::Scalar,
        },
        FunctionSignature {
            name: "ts_or_ds_to_datetime",
            display_name: "TS_OR_DS_TO_DATETIME",
            params: &[FunctionParam { name: "this", required: true }],
            return_type: None,
            category: FunctionCategory::Scalar,
        },
        FunctionSignature {
            name: "ts_or_ds_to_date_str",
            display_name: "TS_OR_DS_TO_DATE_STR",
            params: &[FunctionParam { name: "this", required: true }],
            return_type: None,
            category: FunctionCategory::Scalar,
        },
        FunctionSignature {
            name: "ts_or_ds_to_time",
            display_name: "TS_OR_DS_TO_TIME",
            params: &[FunctionParam { name: "this", required: true }, FunctionParam { name: "format", required: false }, FunctionParam { name: "safe", required: false }],
            return_type: None,
            category: FunctionCategory::Scalar,
        },
        FunctionSignature {
            name: "ts_or_ds_to_timestamp",
            display_name: "TS_OR_DS_TO_TIMESTAMP",
            params: &[FunctionParam { name: "this", required: true }],
            return_type: None,
            category: FunctionCategory::Scalar,
        },
        FunctionSignature {
            name: "typeof",
            display_name: "TYPEOF",
            params: &[FunctionParam { name: "this", required: true }],
            return_type: None,
            category: FunctionCategory::Scalar,
        },
        FunctionSignature {
            name: "upper",
            display_name: "UPPER",
            params: &[FunctionParam { name: "this", required: true }],
            return_type: Some(ReturnTypeRule::Text),
            category: FunctionCategory::Scalar,
        },
        FunctionSignature {
            name: "unhex",
            display_name: "UNHEX",
            params: &[FunctionParam { name: "this", required: true }, FunctionParam { name: "expression", required: false }],
            return_type: None,
            category: FunctionCategory::Scalar,
        },
        FunctionSignature {
            name: "unicode",
            display_name: "UNICODE",
            params: &[FunctionParam { name: "this", required: true }],
            return_type: None,
            category: FunctionCategory::Scalar,
        },
        FunctionSignature {
            name: "unix_date",
            display_name: "UNIX_DATE",
            params: &[FunctionParam { name: "this", required: true }],
            return_type: None,
            category: FunctionCategory::Scalar,
        },
        FunctionSignature {
            name: "unix_micros",
            display_name: "UNIX_MICROS",
            params: &[FunctionParam { name: "this", required: true }],
            return_type: None,
            category: FunctionCategory::Scalar,
        },
        FunctionSignature {
            name: "unix_millis",
            display_name: "UNIX_MILLIS",
            params: &[FunctionParam { name: "this", required: true }],
            return_type: None,
            category: FunctionCategory::Scalar,
        },
        FunctionSignature {
            name: "unix_seconds",
            display_name: "UNIX_SECONDS",
            params: &[FunctionParam { name: "this", required: true }],
            return_type: None,
            category: FunctionCategory::Scalar,
        },
        FunctionSignature {
            name: "unix_to_str",
            display_name: "UNIX_TO_STR",
            params: &[FunctionParam { name: "this", required: true }, FunctionParam { name: "format", required: false }],
            return_type: None,
            category: FunctionCategory::Scalar,
        },
        FunctionSignature {
            name: "unix_to_time",
            display_name: "UNIX_TO_TIME",
            params: &[FunctionParam { name: "this", required: true }, FunctionParam { name: "scale", required: false }, FunctionParam { name: "zone", required: false }, FunctionParam { name: "hours", required: false }, FunctionParam { name: "minutes", required: false }, FunctionParam { name: "format", required: false }],
            return_type: None,
            category: FunctionCategory::Scalar,
        },
        FunctionSignature {
            name: "unix_to_time_str",
            display_name: "UNIX_TO_TIME_STR",
            params: &[FunctionParam { name: "this", required: true }],
            return_type: None,
            category: FunctionCategory::Scalar,
        },
        FunctionSignature {
            name: "unnest",
            display_name: "UNNEST",
            params: &[FunctionParam { name: "expressions", required: true }, FunctionParam { name: "alias", required: false }, FunctionParam { name: "offset", required: false }, FunctionParam { name: "explode_array", required: false }],
            return_type: None,
            category: FunctionCategory::Scalar,
        },
        FunctionSignature {
            name: "utc_date",
            display_name: "UTC_DATE",
            params: &[],
            return_type: None,
            category: FunctionCategory::Scalar,
        },
        FunctionSignature {
            name: "utc_time",
            display_name: "UTC_TIME",
            params: &[FunctionParam { name: "this", required: false }],
            return_type: None,
            category: FunctionCategory::Scalar,
        },
        FunctionSignature {
            name: "utc_timestamp",
            display_name: "UTC_TIMESTAMP",
            params: &[FunctionParam { name: "this", required: false }],
            return_type: None,
            category: FunctionCategory::Scalar,
        },
        FunctionSignature {
            name: "variance",
            display_name: "VARIANCE",
            params: &[FunctionParam { name: "this", required: true }],
            return_type: None,
            category: FunctionCategory::Aggregate,
        },
        FunctionSignature {
            name: "variance_pop",
            display_name: "VARIANCE_POP",
            params: &[FunctionParam { name: "this", required: true }],
            return_type: None,
            category: FunctionCategory::Aggregate,
        },
        FunctionSignature {
            name: "var_map",
            display_name: "VAR_MAP",
            params: &[FunctionParam { name: "keys", required: true }, FunctionParam { name: "values", required: true }],
            return_type: None,
            category: FunctionCategory::Scalar,
        },
        FunctionSignature {
            name: "vector_search",
            display_name: "VECTOR_SEARCH",
            params: &[FunctionParam { name: "this", required: true }, FunctionParam { name: "column_to_search", required: true }, FunctionParam { name: "query_table", required: true }, FunctionParam { name: "query_column_to_search", required: false }, FunctionParam { name: "top_k", required: false }, FunctionParam { name: "distance_type", required: false }, FunctionParam { name: "options", required: false }],
            return_type: None,
            category: FunctionCategory::Scalar,
        },
        FunctionSignature {
            name: "week",
            display_name: "WEEK",
            params: &[FunctionParam { name: "this", required: true }, FunctionParam { name: "mode", required: false }],
            return_type: None,
            category: FunctionCategory::Scalar,
        },
        FunctionSignature {
            name: "week_of_year",
            display_name: "WEEK_OF_YEAR",
            params: &[FunctionParam { name: "this", required: true }],
            return_type: None,
            category: FunctionCategory::Scalar,
        },
        FunctionSignature {
            name: "width_bucket",
            display_name: "WIDTH_BUCKET",
            params: &[FunctionParam { name: "this", required: true }, FunctionParam { name: "min_value", required: true }, FunctionParam { name: "max_value", required: true }, FunctionParam { name: "num_buckets", required: true }],
            return_type: None,
            category: FunctionCategory::Scalar,
        },
        FunctionSignature {
            name: "xml_element",
            display_name: "XML_ELEMENT",
            params: &[FunctionParam { name: "this", required: true }, FunctionParam { name: "expressions", required: false }],
            return_type: None,
            category: FunctionCategory::Scalar,
        },
        FunctionSignature {
            name: "xor",
            display_name: "XOR",
            params: &[FunctionParam { name: "this", required: false }, FunctionParam { name: "expression", required: false }, FunctionParam { name: "expressions", required: false }],
            return_type: None,
            category: FunctionCategory::Scalar,
        },
        FunctionSignature {
            name: "xml_table",
            display_name: "XML_TABLE",
            params: &[FunctionParam { name: "this", required: true }, FunctionParam { name: "namespaces", required: false }, FunctionParam { name: "passing", required: false }, FunctionParam { name: "columns", required: false }, FunctionParam { name: "by_ref", required: false }],
            return_type: None,
            category: FunctionCategory::Scalar,
        },
        FunctionSignature {
            name: "year",
            display_name: "YEAR",
            params: &[FunctionParam { name: "this", required: true }],
            return_type: None,
            category: FunctionCategory::Scalar,
        },
        FunctionSignature {
            name: "year_of_week",
            display_name: "YEAR_OF_WEEK",
            params: &[FunctionParam { name: "this", required: true }],
            return_type: None,
            category: FunctionCategory::Scalar,
        },
        FunctionSignature {
            name: "year_of_week_iso",
            display_name: "YEAR_OF_WEEK_ISO",
            params: &[FunctionParam { name: "this", required: true }],
            return_type: None,
            category: FunctionCategory::Scalar,
        },
    ]
}

/// The first signature in `table` whose name holds the characters `key`.
pub open spec fn first_signature_named(table: Seq<FunctionSignature>, key: Seq<char>) -> Option<FunctionSignature>
    decreases table.len(),
{
    if table.len() == 0 {
        None
    } else if table[0].name@ == key {
        Some(table[0])
    } else {
        first_signature_named(table.drop_first(), key)
    }
}

/// The signature of a function, looked up case-insensitively (ASCII).
pub open spec fn spec_get_function_signature(name: Seq<char>) -> Option<FunctionSignature> {
    first_signature_named(spec_function_signature_table(), ascii_lower(name))
}

/// Looks up the complete function signature including parameters, return type,
/// and category. The lookup is case-insensitive; `None` for unknown functions.
pub fn get_function_signature(name: &str) -> (r: Option<FunctionSignature>)
    ensures
        r == spec_get_function_signature(name@),
{
    let lower = to_ascii_lowercase(name);
    let table = function_signature_table();
    let mut i: usize = 0;
    assert(table@.skip(0) =~= table@);
    while i < table.len()
        invariant
            table@ == spec_function_signature_table(),
            lower@ == ascii_lower(name@),
            0 <= i <= table@.len(),
            first_signature_named(table@, lower@) == first_signature_named(table@.skip(i as int), lower@),
        decreases table@.len() - i,
    {
        let sig = table[i];
        assert(table@.skip(i as int)[0] == table@[i as int]);
        if str_eq(sig.name, lower.as_str()) {
            return Some(sig);
        }
        assert(table@.skip(i as int).drop_first() =~= table@.skip(i + 1));
        i = i + 1;
    }
    None
}

/// The names that completion lists are populated from, in listing order.
pub fn function_names() -> (r: &'static [&'static str])
    ensures
        r@ == spec_function_names(),
{
    &[
        "abs",
        "acos",
        "acosh",
        "add_months",
        "agg_func",
        "ai_agg",
        "ai_classify",
        "ai_summarize_agg",
        "and",
        "any_value",
        "apply",
        "approximate_similarity",
        "approx_distinct",
        "approx_quantile",
        "approx_quantiles",
        "approx_top_k",
        "approx_top_k_accumulate",
        "approx_top_k_combine",
        "approx_top_sum",
        "arg_max",
        "arg_min",
        "array",
        "array_agg",
        "array_all",
        "array_any",
        "array_concat",
        "array_concat_agg",
        "array_construct_compact",
        "array_contains",
        "array_contains_all",
        "array_filter",
        "array_first",
        "array_intersect",
        "array_to_string",
        "array_last",
        "array_size",
        "array_overlaps",
        "array_remove",
        "array_reverse",
        "array_slice",
        "array_sort",
        "array_sum",
        "array_union_agg",
        "array_unique_agg",
        "ascii",
        "asin",
        "asinh",
        "atan",
        "atan2",
        "atanh",
        "avg",
        "base64decode_binary",
        "base64decode_string",
        "base64encode",
        "bitmap_bit_position",
        "bitmap_bucket_number",
        "bitmap_construct_agg",
        "bitmap_count",
        "bitmap_or_agg",
        "bitwise_and_agg",
        "bitwise_count",
        "bitwise_or_agg",
        "bitwise_xor_agg",
        "bit_length",
        "booland",
        "logical_and",
        "boolnot",
        "boolor",
        "logical_or",
        "boolxor_agg",
        "byte_length",
        "case",
        "cast",
        "cast_to_str_type",
        "cbrt",
        "ceil",
        "chr",
        "length",
        "coalesce",
        "code_points_to_bytes",
        "code_points_to_string",
        "collate",
        "collation",
        "columns",
        "combined_agg_func",
        "combined_parameterized_agg",
        "compress",
        "concat",
        "concat_ws",
        "connect_by_root",
        "contains",
        "convert",
        "convert_timezone",
        "convert_to_charset",
        "corr",
        "cos",
        "cosh",
        "cosine_distance",
        "cot",
        "coth",
        "count",
        "count_if",
        "covar_pop",
        "covar_samp",
        "csc",
        "csch",
        "cume_dist",
        "current_date",
        "current_datetime",
        "current_schema",
        "current_time",
        "current_timestamp",
        "current_timestamp_ltz",
        "current_user",
        "date",
        "date_diff",
        "date_from_parts",
        "datetime",
        "datetime_add",
        "datetime_diff",
        "datetime_sub",
        "datetime_trunc",
        "date_add",
        "date_bin",
        "date_from_unix_date",
        "date_str_to_date",
        "date_sub",
        "date_to_date_str",
        "date_to_di",
        "date_trunc",
        "day",
        "day_of_month",
        "day_of_week",
        "day_of_week_iso",
        "day_of_year",
        "decode",
        "decode_case",
        "decompress_binary",
        "decompress_string",
        "degrees",
        "dense_rank",
        "di_to_date",
        "encode",
        "ends_with",
        "equal_null",
        "euclidean_distance",
        "exists",
        "exp",
        "explode",
        "explode_outer",
        "exploding_generate_series",
        "extract",
        "factorial",
        "farm_fingerprint",
        "features_at_time",
        "first",
        "first_value",
        "flatten",
        "float64",
        "floor",
        "format",
        "from_base",
        "from_base32",
        "from_base64",
        "from_iso8601timestamp",
        "gap_fill",
        "generate_date_array",
        "generate_embedding",
        "generate_series",
        "generate_timestamp_array",
        "uuid",
        "getbit",
        "get_extract",
        "greatest",
        "greatest_ignore_nulls",
        "grouping",
        "grouping_id",
        "group_concat",
        "hex",
        "hex_decode_string",
        "hex_encode",
        "hll",
        "hour",
        "if",
        "initcap",
        "inline",
        "stuff",
        "int64",
        "is_inf",
        "is_nan",
        "is_ascii",
        "is_null_value",
        "jarowinkler_similarity",
        "jsonb_contains",
        "jsonb_exists",
        "jsonb_extract",
        "jsonb_extract_scalar",
        "json_array_append",
        "json_array_contains",
        "json_array_insert",
        "json_extract",
        "json_extract_array",
        "json_extract_scalar",
        "json_format",
        "parse_json",
        "json_remove",
        "json_set",
        "json_strip_nulls",
        "json_type",
        "justify_days",
        "justify_hours",
        "justify_interval",
        "json_array",
        "json_array_agg",
        "json_bool",
        "jsonb_contains_all_top_keys",
        "jsonb_contains_any_top_keys",
        "jsonb_delete_at_path",
        "jsonb_object_agg",
        "json_cast",
        "json_exists",
        "json_keys_at_depth",
        "json_object",
        "json_object_agg",
        "json_table",
        "json_value_array",
        "lag",
        "last",
        "last_day",
        "last_value",
        "lax_bool",
        "lax_float64",
        "lax_int64",
        "lax_string",
        "lower",
        "lead",
        "least",
        "least_ignore_nulls",
        "left",
        "levenshtein",
        "list",
        "ln",
        "log",
        "lower_hex",
        "make_interval",
        "map",
        "map_from_entries",
        "match_against",
        "max",
        "md5",
        "md5digest",
        "median",
        "min",
        "minhash",
        "minhash_combine",
        "minute",
        "month",
        "monthname",
        "months_between",
        "md5number_lower64",
        "md5number_upper64",
        "ml_forecast",
        "ml_translate",
        "next_day",
        "next_value_for",
        "normalize",
        "now",
        "nth_value",
        "ntile",
        "nullif",
        "number_to_str",
        "nvl2",
        "object_agg",
        "object_insert",
        "open_json",
        "or",
        "overlay",
        "pad",
        "parameterized_agg",
        "parse_bignumeric",
        "parse_datetime",
        "parse_ip",
        "parse_numeric",
        "parse_time",
        "parse_url",
        "percentile_cont",
        "percentile_disc",
        "percent_rank",
        "pi",
        "posexplode",
        "posexplode_outer",
        "pow",
        "predict",
        "previous_day",
        "quantile",
        "quarter",
        "radians",
        "rand",
        "randn",
        "range_bucket",
        "range_n",
        "rank",
        "read_csv",
        "read_parquet",
        "reduce",
        "regexp_count",
        "regexp_extract",
        "regexp_extract_all",
        "regexp_full_match",
        "regexp_instr",
        "regexp_i_like",
        "regexp_like",
        "regexp_replace",
        "regexp_split",
        "regr_avgx",
        "regr_avgy",
        "regr_valx",
        "regr_valy",
        "repeat",
        "replace",
        "reverse",
        "right",
        "round",
        "row_number",
        "rtrimmed_length",
        "safe_add",
        "safe_convert_bytes_to_string",
        "safe_divide",
        "safe_multiply",
        "safe_negate",
        "safe_subtract",
        "search",
        "sec",
        "sech",
        "second",
        "sha",
        "sha2",
        "sign",
        "sin",
        "sinh",
        "skewness",
        "sort_array",
        "soundex",
        "soundex_p123",
        "space",
        "split",
        "string_to_array",
        "split_part",
        "sqrt",
        "standard_hash",
        "starts_with",
        "star_map",
        "stddev",
        "stddev_pop",
        "stddev_samp",
        "string",
        "struct",
        "struct_extract",
        "str_position",
        "str_to_date",
        "str_to_map",
        "str_to_time",
        "str_to_unix",
        "st_distance",
        "st_point",
        "substring",
        "substring_index",
        "sum",
        "sha1digest",
        "sha2digest",
        "tan",
        "tanh",
        "time",
        "time_from_parts",
        "timestamp",
        "timestamp_diff",
        "timestamp_from_parts",
        "timestamp_ltz_from_parts",
        "timestamp_tz_from_parts",
        "timestamp_add",
        "timestamp_sub",
        "timestamp_trunc",
        "time_add",
        "time_diff",
        "time_slice",
        "time_str_to_date",
        "time_str_to_time",
        "time_str_to_unix",
        "time_sub",
        "time_to_str",
        "time_to_time_str",
        "time_to_unix",
        "time_trunc",
        "to_array",
        "to_base32",
        "to_base64",
        "to_char",
        "to_code_points",
        "to_days",
        "to_double",
        "to_map",
        "to_number",
        "transform",
        "translate",
        "trim",
        "try",
        "try_base64decode_binary",
        "try_base64decode_string",
        "try_cast",
        "try_hex_decode_binary",
        "try_hex_decode_string",
        "ts_or_di_to_di",
        "ts_or_ds_add",
        "ts_or_ds_diff",
        "ts_or_ds_to_date",
        "ts_or_ds_to_datetime",
        "ts_or_ds_to_date_str",
        "ts_or_ds_to_time",
        "ts_or_ds_to_timestamp",
        "typeof",
        "upper",
        "unhex",
        "unicode",
        "unix_date",
        "unix_micros",
        "unix_millis",
        "unix_seconds",
        "unix_to_str",
        "unix_to_time",
        "unix_to_time_str",
        "unnest",
        "utc_date",
        "utc_time",
        "utc_timestamp",
        "variance",
        "variance_pop",
        "var_map",
        "vector_search",
        "week",
        "week_of_year",
        "width_bucket",
        "xml_element",
        "xor",
        "xml_table",
        "year",
        "year_of_week",
        "year_of_week_iso",
    ]
}

/// The names that completion lists are populated from, in listing order.
pub open spec fn spec_function_names() -> Seq<&'static str> {
    seq![
        "abs",
        "acos",
        "acosh",
        "add_months",
        "agg_func",
        "ai_agg",
        "ai_classify",
        "ai_summarize_agg",
        "and",
        "any_value",
        "apply",
        "approximate_similarity",
        "approx_distinct",
        "approx_quantile",
        "approx_quantiles",
        "approx_top_k",
        "approx_top_k_accumulate",
        "approx_top_k_combine",
        "approx_top_sum",
        "arg_max",
        "arg_min",
        "array",
        "array_agg",
        "array_all",
        "array_any",
        "array_concat",
        "array_concat_agg",
        "array_construct_compact",
        "array_contains",
        "array_contains_all",
        "array_filter",
        "array_first",
        "array_intersect",
        "array_to_string",
        "array_last",
        "array_size",
        "array_overlaps",
        "array_remove",
        "array_reverse",
        "array_slice",
        "array_sort",
        "array_sum",
        "array_union_agg",
        "array_unique_agg",
        "ascii",
        "asin",
        "asinh",
        "atan",
        "atan2",
        "atanh",
        "avg",
        "base64decode_binary",
        "base64decode_string",
        "base64encode",
        "bitmap_bit_position",
        "bitmap_bucket_number",
        "bitmap_construct_agg",
        "bitmap_count",
        "bitmap_or_agg",
        "bitwise_and_agg",
        "bitwise_count",
        "bitwise_or_agg",
        "bitwise_xor_agg",
        "bit_length",
        "booland",
        "logical_and",
        "boolnot",
        "boolor",
        "logical_or",
        "boolxor_agg",
        "byte_length",
        "case",
        "cast",
        "cast_to_str_type",
        "cbrt",
        "ceil",
        "chr",
        "length",
        "coalesce",
        "code_points_to_bytes",
        "code_points_to_string",
        "collate",
        "collation",
        "columns",
        "combined_agg_func",
        "combined_parameterized_agg",
        "compress",
        "concat",
        "concat_ws",
        "connect_by_root",
        "contains",
        "convert",
        "convert_timezone",
        "convert_to_charset",
        "corr",
        "cos",
        "cosh",
        "cosine_distance",
        "cot",
        "coth",
        "count",
        "count_if",
        "covar_pop",
        "covar_samp",
        "csc",
        "csch",
        "cume_dist",
        "current_date",
        "current_datetime",
        "current_schema",
        "current_time",
        "current_timestamp",
        "current_timestamp_ltz",
        "current_user",
        "date",
        "date_diff",
        "date_from_parts",
        "datetime",
        "datetime_add",
        "datetime_diff",
        "datetime_sub",
        "datetime_trunc",
        "date_add",
        "date_bin",
        "date_from_unix_date",
        "date_str_to_date",
        "date_sub",
        "date_to_date_str",
        "date_to_di",
        "date_trunc",
        "day",
        "day_of_month",
        "day_of_week",
        "day_of_week_iso",
        "day_of_year",
        "decode",
        "decode_case",
        "decompress_binary",
        "decompress_string",
        "degrees",
        "dense_rank",
        "di_to_date",
        "encode",
        "ends_with",
        "equal_null",
        "euclidean_distance",
        "exists",
        "exp",
        "explode",
        "explode_outer",
        "exploding_generate_series",
        "extract",
        "factorial",
        "farm_fingerprint",
        "features_at_time",
        "first",
        "first_value",
        "flatten",
        "float64",
        "floor",
        "format",
        "from_base",
        "from_base32",
        "from_base64",
        "from_iso8601timestamp",
        "gap_fill",
        "generate_date_array",
        "generate_embedding",
        "generate_series",
        "generate_timestamp_array",
        "uuid",
        "getbit",
        "get_extract",
        "greatest",
        "greatest_ignore_nulls",
        "grouping",
        "grouping_id",
        "group_concat",
        "hex",
        "hex_decode_string",
        "hex_encode",
        "hll",
        "hour",
        "if",
        "initcap",
        "inline",
        "stuff",
        "int64",
        "is_inf",
        "is_nan",
        "is_ascii",
        "is_null_value",
        "jarowinkler_similarity",
        "jsonb_contains",
        "jsonb_exists",
        "jsonb_extract",
        "jsonb_extract_scalar",
        "json_array_append",
        "json_array_contains",
        "json_array_insert",
        "json_extract",
        "json_extract_array",
        "json_extract_scalar",
        "json_format",
        "parse_json",
        "json_remove",
        "json_set",
        "json_strip_nulls",
        "json_type",
        "justify_days",
        "justify_hours",
        "justify_interval",
        "json_array",
        "json_array_agg",
        "json_bool",
        "jsonb_contains_all_top_keys",
        "jsonb_contains_any_top_keys",
        "jsonb_delete_at_path",
        "jsonb_object_agg",
        "json_cast",
        "json_exists",
        "json_keys_at_depth",
        "json_object",
        "json_object_agg",
        "json_table",
        "json_value_array",
        "lag",
        "last",
        "last_day",
        "last_value",
        "lax_bool",
        "lax_float64",
        "lax_int64",
        "lax_string",
        "lower",
        "lead",
        "least",
        "least_ignore_nulls",
        "left",
        "levenshtein",
        "list",
        "ln",
        "log",
        "lower_hex",
        "make_interval",
        "map",
        "map_from_entries",
        "match_against",
        "max",
        "md5",
        "md5digest",
        "median",
        "min",
        "minhash",
        "minhash_combine",
        "minute",
        "month",
        "monthname",
        "months_between",
        "md5number_lower64",
        "md5number_upper64",
        "ml_forecast",
        "ml_translate",
        "next_day",
        "next_value_for",
        "normalize",
        "now",
        "nth_value",
        "ntile",
        "nullif",
        "number_to_str",
        "nvl2",
        "object_agg",
        "object_insert",
        "open_json",
        "or",
        "overlay",
        "pad",
        "parameterized_agg",
        "parse_bignumeric",
        "parse_datetime",
        "parse_ip",
        "parse_numeric",
        "parse_time",
        "parse_url",
        "percentile_cont",
        "percentile_disc",
        "percent_rank",
        "pi",
        "posexplode",
        "posexplode_outer",
        "pow",
        "predict",
        "previous_day",
        "quantile",
        "quarter",
        "radians",
        "rand",
        "randn",
        "range_bucket",
        "range_n",
        "rank",
        "read_csv",
        "read_parquet",
        "reduce",
        "regexp_count",
        "regexp_extract",
        "regexp_extract_all",
        "regexp_full_match",
        "regexp_instr",
        "regexp_i_like",
        "regexp_like",
        "regexp_replace",
        "regexp_split",
        "regr_avgx",
        "regr_avgy",
        "regr_valx",
        "regr_valy",
        "repeat",
        "replace",
        "reverse",
        "right",
        "round",
        "row_number",
        "rtrimmed_length",
        "safe_add",
        "safe_convert_bytes_to_string",
        "safe_divide",
        "safe_multiply",
        "safe_negate",
        "safe_subtract",
        "search",
        "sec",
        "sech",
        "second",
        "sha",
        "sha2",
        "sign",
        "sin",
        "sinh",
        "skewness",
        "sort_array",
        "soundex",
        "soundex_p123",
        "space",
        "split",
        "string_to_array",
        "split_part",
        "sqrt",
        "standard_hash",
        "starts_with",
        "star_map",
        "stddev",
        "stddev_pop",
        "stddev_samp",
        "string",
        "struct",
        "struct_extract",
        "str_position",
        "str_to_date",
        "str_to_map",
        "str_to_time",
        "str_to_unix",
        "st_distance",
        "st_point",
        "substring",
        "substring_index",
        "sum",
        "sha1digest",
        "sha2digest",
        "tan",
        "tanh",
        "time",
        "time_from_parts",
        "timestamp",
        "timestamp_diff",
        "timestamp_from_parts",
        "timestamp_ltz_from_parts",
        "timestamp_tz_from_parts",
        "timestamp_add",
        "timestamp_sub",
        "timestamp_trunc",
        "time_add",
        "time_diff",
        "time_slice",
        "time_str_to_date",
        "time_str_to_time",
        "time_str_to_unix",
        "time_sub",
        "time_to_str",
        "time_to_time_str",
        "time_to_unix",
        "time_trunc",
        "to_array",
        "to_base32",
        "to_base64",
        "to_char",
        "to_code_points",
        "to_days",
        "to_double",
        "to_map",
        "to_number",
        "transform",
        "translate",
        "trim",
        "try",
        "try_base64decode_binary",
        "try_base64decode_string",
        "try_cast",
        "try_hex_decode_binary",
        "try_hex_decode_string",
        "ts_or_di_to_di",
        "ts_or_ds_add",
        "ts_or_ds_diff",
        "ts_or_ds_to_date",
        "ts_or_ds_to_datetime",
        "ts_or_ds_to_date_str",
        "ts_or_ds_to_time",
        "ts_or_ds_to_timestamp",
        "typeof",
        "upper",
        "unhex",
        "unicode",
        "unix_date",
        "unix_micros",
        "unix_millis",
        "unix_seconds",
        "unix_to_str",
        "unix_to_time",
        "unix_to_time_str",
        "unnest",
        "utc_date",
        "utc_time",
        "utc_timestamp",
        "variance",
        "variance_pop",
        "var_map",
        "vector_search",
        "week",
        "week_of_year",
        "width_bucket",
        "xml_element",
        "xor",
        "xml_table",
        "year",
        "year_of_week",
        "year_of_week_iso",
    ]
}

/// The known signatures of `names`, in order, skipping unknown names.
pub open spec fn spec_signatures_of(names: Seq<&'static str>) -> Seq<FunctionSignature>
    decreases names.len(),
{
    if names.len() == 0 {
        Seq::empty()
    } else {
        let rest = spec_signatures_of(names.drop_last());
        match spec_get_function_signature(names.last()@) {
            Some(sig) => rest.push(sig),
            None => rest,
        }
    }
}

/// Returns all function signatures for completion, in listing order.
pub fn all_function_signatures() -> (r: Vec<FunctionSignature>)
    ensures
        r@ == spec_signatures_of(spec_function_names()),
{
    let names = function_names();
    let mut r: Vec<FunctionSignature> = Vec::new();
    let mut i: usize = 0;
    while i < names.len()
        invariant
            names@ == spec_function_names(),
            0 <= i <= names@.len(),
            r@ == spec_signatures_of(names@.take(i as int)),
        decreases names@.len() - i,
    {
        assert(names@.take(i + 1).drop_last() =~= names@.take(i as int));
        match get_function_signature(names[i]) {
            Some(sig) => r.push(sig),
            None => {},
        }
        i = i + 1;
    }
    assert(names@.take(names@.len() as int) =~= names@);
    r
}

/// A signature found by name is the one whose name is the ASCII-lowercased query.
pub proof fn law_signature_name_matches_query(table: Seq<FunctionSignature>, key: Seq<char>)
    ensures
        first_signature_named(table, key) matches Some(sig) ==> sig.name@ == key,
    decreases table.len(),
{
    if table.len() > 0 && table[0].name@ != key {
        law_signature_name_matches_query(table.drop_first(), key);
    }
}

/// Signature lookup ignores ASCII case: a name and its lowercase form find the same signature.
pub proof fn law_signature_lookup_case_insensitive(name: Seq<char>)
    ensures
        spec_get_function_signature(ascii_lower(name)) == spec_get_function_signature(name),
{
    crate::text::lemma_ascii_lower_idempotent(name);
}


/// Signature lookup ignores ASCII case in both directions.
pub proof fn law_signature_lookup_ignores_ascii_case(name: Seq<char>)
    ensures
        spec_get_function_signature(ascii_upper(name)) == spec_get_function_signature(name),
{
    crate::text::lemma_ascii_lower_of_upper(name);
}

/// Return-type inference ignores ASCII case: a name, its lowercase form and
/// its uppercase form infer the same rule.
pub proof fn law_return_type_lookup_ignores_ascii_case(name: Seq<char>)
    ensures
        first_value_for(spec_return_type_rules(), ascii_lower(ascii_lower(name)))
            == first_value_for(spec_return_type_rules(), ascii_lower(name)),
        first_value_for(spec_return_type_rules(), ascii_lower(ascii_upper(name)))
            == first_value_for(spec_return_type_rules(), ascii_lower(name)),
{
    crate::text::lemma_ascii_lower_idempotent(name);
    crate::text::lemma_ascii_lower_of_upper(name);
}

/// Every signature that the listing yields is the one that looking up its own
/// name finds.
pub proof fn law_listed_signatures_round_trip(names: Seq<&'static str>, i: int)
    requires
        0 <= i < spec_signatures_of(names).len(),
    ensures
        spec_get_function_signature(spec_signatures_of(names)[i].name@) == Some(
            spec_signatures_of(names)[i],
        ),
    decreases names.len(),
{
    let rest = spec_signatures_of(names.drop_last());
    if i < rest.len() {
        law_listed_signatures_round_trip(names.drop_last(), i);
    } else {
        let key = names.last()@;
        let sig = spec_signatures_of(names)[i];
        law_signature_name_matches_query(spec_function_signature_table(), ascii_lower(key));
        crate::text::lemma_ascii_lower_idempotent(key);
        assert(sig.name@ == ascii_lower(key));
    }
}

/// Each entry of the return type rule table is the one its name finds.
proof fn lemma_return_rule_entry(k: nat)
    requires
        k < 28,
    ensures
        first_value_for(spec_return_type_rules(), spec_return_type_rules()[k as int].0@) == Some(spec_return_type_rules()[k as int].1),
{
    let table = spec_return_type_rules();
    reveal_strlit("and");
    reveal_strlit("any_value");
    reveal_strlit("avg");
    reveal_strlit("coalesce");
    reveal_strlit("concat");
    reveal_strlit("concat_ws");
    reveal_strlit("count");
    reveal_strlit("current_date");
    reveal_strlit("current_timestamp");
    reveal_strlit("date_trunc");
    reveal_strlit("dense_rank");
    reveal_strlit("first_value");
    reveal_strlit("lag");
    reveal_strlit("last_value");
    reveal_strlit("lead");
    reveal_strlit("lower");
    reveal_strlit("max");
    reveal_strlit("min");
    reveal_strlit("now");
    reveal_strlit("ntile");
    reveal_strlit("or");
    reveal_strlit("rank");
    reveal_strlit("replace");
    reveal_strlit("row_number");
    reveal_strlit("substring");
    reveal_strlit("sum");
    reveal_strlit("trim");
    reveal_strlit("upper");
    reveal_with_fuel(crate::text::key_absent_before, 29);
    assert(table[0].0 == "and" && table[0].0@.len() == 3);
    assert(table[1].0 == "any_value" && table[1].0@.len() == 9);
    assert(table[2].0 == "avg" && table[2].0@.len() == 3);
    assert(table[3].0 == "coalesce" && table[3].0@.len() == 8);
    assert(table[4].0 == "concat" && table[4].0@.len() == 6);
    assert(table[5].0 == "concat_ws" && table[5].0@.len() == 9);
    assert(table[6].0 == "count" && table[6].0@.len() == 5);
    assert(table[7].0 == "current_date" && table[7].0@.len() == 12);
    assert(table[8].0 == "current_timestamp" && table[8].0@.len() == 17);
    assert(table[9].0 == "date_trunc" && table[9].0@.len() == 10);
    assert(table[10].0 == "dense_rank" && table[10].0@.len() == 10);
    assert(table[11].0 == "first_value" && table[11].0@.len() == 11);
    assert(table[12].0 == "lag" && table[12].0@.len() == 3);
    assert(table[13].0 == "last_value" && table[13].0@.len() == 10);
    assert(table[14].0 == "lead" && table[14].0@.len() == 4);
    assert(table[15].0 == "lower" && table[15].0@.len() == 5);
    assert(table[16].0 == "max" && table[16].0@.len() == 3);
    assert(table[17].0 == "min" && table[17].0@.len() == 3);
    assert(table[18].0 == "now" && table[18].0@.len() == 3);
    assert(table[19].0 == "ntile" && table[19].0@.len() == 5);
    assert(table[20].0 == "or" && table[20].0@.len() == 2);
    assert(table[21].0 == "rank" && table[21].0@.len() == 4);
    assert(table[22].0 == "replace" && table[22].0@.len() == 7);
    assert(table[23].0 == "row_number" && table[23].0@.len() == 10);
    assert(table[24].0 == "substring" && table[24].0@.len() == 9);
    assert(table[25].0 == "sum" && table[25].0@.len() == 3);
    assert(table[26].0 == "trim" && table[26].0@.len() == 4);
    assert(table[27].0 == "upper" && table[27].0@.len() == 5);
    if k == 0 {
        assert(crate::text::key_absent_before(table, table[0].0@, 0));
    } else if k == 1 {
        assert(crate::text::key_absent_before(table, table[1].0@, 1));
    } else if k == 2 {
        assert("and"@[1] != "avg"@[1]);
        assert(crate::text::key_absent_before(table, table[2].0@, 2));
    } else if k == 3 {
        assert(crate::text::key_absent_before(table, table[3].0@, 3));
    } else if k == 4 {
        assert(crate::text::key_absent_before(table, table[4].0@, 4));
    } else if k == 5 {
        assert("any_value"@[0] != "concat_ws"@[0]);
        assert(crate::text::key_absent_before(table, table[5].0@, 5));
    } else if k == 6 {
        assert(crate::text::key_absent_before(table, table[6].0@, 6));
    } else if k == 7 {
        assert(crate::text::key_absent_before(table, table[7].0@, 7));
    } else if k == 8 {
        assert(crate::text::key_absent_before(table, table[8].0@, 8));
    } else if k == 9 {
        assert(crate::text::key_absent_before(table, table[9].0@, 9));
    } else if k == 10 {
        assert("date_trunc"@[1] != "dense_rank"@[1]);
        assert(crate::text::key_absent_before(table, table[10].0@, 10));
    } else if k == 11 {
        assert(crate::text::key_absent_before(table, table[11].0@, 11));
    } else if k == 12 {
        assert("and"@[0] != "lag"@[0]);
        assert("avg"@[0] != "lag"@[0]);
        assert(crate::text::key_absent_before(table, table[12].0@, 12));
    } else if k == 13 {
        assert("date_trunc"@[0] != "last_value"@[0]);
        assert("dense_rank"@[0] != "last_value"@[0]);
        assert(crate::text::key_absent_before(table, table[13].0@, 13));
    } else if k == 14 {
        assert(crate::text::key_absent_before(table, table[14].0@, 14));
    } else if k == 15 {
        assert("count"@[0] != "lower"@[0]);
        assert(crate::text::key_absent_before(table, table[15].0@, 15));
    } else if k == 16 {
        assert("and"@[0] != "max"@[0]);
        assert("avg"@[0] != "max"@[0]);
        assert("lag"@[0] != "max"@[0]);
        assert(crate::text::key_absent_before(table, table[16].0@, 16));
    } else if k == 17 {
        assert("and"@[0] != "min"@[0]);
        assert("avg"@[0] != "min"@[0]);
        assert("lag"@[0] != "min"@[0]);
        assert("max"@[1] != "min"@[1]);
        assert(crate::text::key_absent_before(table, table[17].0@, 17));
    } else if k == 18 {
        assert("and"@[0] != "now"@[0]);
        assert("avg"@[0] != "now"@[0]);
        assert("lag"@[0] != "now"@[0]);
        assert("max"@[0] != "now"@[0]);
        assert("min"@[0] != "now"@[0]);
        assert(crate::text::key_absent_before(table, table[18].0@, 18));
    } else if k == 19 {
        assert("count"@[0] != "ntile"@[0]);
        assert("lower"@[0] != "ntile"@[0]);
        assert(crate::text::key_absent_before(table, table[19].0@, 19));
    } else if k == 20 {
        assert(crate::text::key_absent_before(table, table[20].0@, 20));
    } else if k == 21 {
        assert("lead"@[0] != "rank"@[0]);
        assert(crate::text::key_absent_before(table, table[21].0@, 21));
    } else if k == 22 {
        assert(crate::text::key_absent_before(table, table[22].0@, 22));
    } else if k == 23 {
        assert("date_trunc"@[0] != "row_number"@[0]);
        assert("dense_rank"@[0] != "row_number"@[0]);
        assert("last_value"@[0] != "row_number"@[0]);
        assert(crate::text::key_absent_before(table, table[23].0@, 23));
    } else if k == 24 {
        assert("any_value"@[0] != "substring"@[0]);
        assert("concat_ws"@[0] != "substring"@[0]);
        assert(crate::text::key_absent_before(table, table[24].0@, 24));
    } else if k == 25 {
        assert("and"@[0] != "sum"@[0]);
        assert("avg"@[0] != "sum"@[0]);
        assert("lag"@[0] != "sum"@[0]);
        assert("max"@[0] != "sum"@[0]);
        assert("min"@[0] != "sum"@[0]);
        assert("now"@[0] != "sum"@[0]);
        assert(crate::text::key_absent_before(table, table[25].0@, 25));
    } else if k == 26 {
        assert("lead"@[0] != "trim"@[0]);
        assert("rank"@[0] != "trim"@[0]);
        assert(crate::text::key_absent_before(table, table[26].0@, 26));
    } else if k == 27 {
        assert("count"@[0] != "upper"@[0]);
        assert("lower"@[0] != "upper"@[0]);
        assert("ntile"@[0] != "upper"@[0]);
        assert(crate::text::key_absent_before(table, table[27].0@, 27));
    }
    crate::text::lemma_first_value_at(table, table[k as int].0@, k);
}

/// A name that no entry of the return type rule table holds finds nothing.
proof fn lemma_return_rule_absent(key: Seq<char>)
    requires
        key != "and"@,
        key != "any_value"@,
        key != "avg"@,
        key != "coalesce"@,
        key != "concat"@,
        key != "concat_ws"@,
        key != "count"@,
        key != "current_date"@,
        key != "current_timestamp"@,
        key != "date_trunc"@,
        key != "dense_rank"@,
        key != "first_value"@,
        key != "lag"@,
        key != "last_value"@,
        key != "lead"@,
        key != "lower"@,
        key != "max"@,
        key != "min"@,
        key != "now"@,
        key != "ntile"@,
        key != "or"@,
        key != "rank"@,
        key != "replace"@,
        key != "row_number"@,
        key != "substring"@,
        key != "sum"@,
        key != "trim"@,
        key != "upper"@,
    ensures
        first_value_for(spec_return_type_rules(), key) is None,
{
    let table = spec_return_type_rules();
    reveal_with_fuel(crate::text::key_absent_before, 29);
    assert(crate::text::key_absent_before(table, key, 28));
    crate::text::lemma_first_value_absent(table, key, 28);
}

/// The counting and ranking functions, which return an integer.
pub open spec fn returns_integer(s: Seq<char>) -> bool {
    s == "count"@
        || s == "dense_rank"@
        || s == "ntile"@
        || s == "rank"@
        || s == "row_number"@
}

/// The summing and averaging aggregates, which return a number.
pub open spec fn returns_numeric(s: Seq<char>) -> bool {
    s == "avg"@
        || s == "sum"@
}

/// The string-building functions, which return text.
pub open spec fn returns_text(s: Seq<char>) -> bool {
    s == "concat"@
        || s == "concat_ws"@
        || s == "lower"@
        || s == "replace"@
        || s == "substring"@
        || s == "trim"@
        || s == "upper"@
}

/// The current-moment functions, which return a timestamp.
pub open spec fn returns_timestamp(s: Seq<char>) -> bool {
    s == "current_timestamp"@
        || s == "now"@
}

/// The logical connectives, which return a boolean.
pub open spec fn returns_boolean(s: Seq<char>) -> bool {
    s == "and"@
        || s == "or"@
}

/// The current-date function, which returns a date.
pub open spec fn returns_date(s: Seq<char>) -> bool {
    s == "current_date"@
}

/// The functions that return a value of their first argument's type.
pub open spec fn returns_match_first_arg(s: Seq<char>) -> bool {
    s == "any_value"@
        || s == "coalesce"@
        || s == "date_trunc"@
        || s == "first_value"@
        || s == "lag"@
        || s == "last_value"@
        || s == "lead"@
        || s == "max"@
        || s == "min"@
}

/// Whether a lowercase name is a function of some return type category.
pub open spec fn has_known_return_rule(s: Seq<char>) -> bool {
    returns_integer(s)
        || returns_numeric(s)
        || returns_text(s)
        || returns_timestamp(s)
        || returns_boolean(s)
        || returns_date(s)
        || returns_match_first_arg(s)
}

/// Each function with a known return type gets, in any ASCII case, the rule of its category: counting and ranking functions `Integer`, sums and averages `Numeric`, string functions `Text`, `NOW` and `CURRENT_TIMESTAMP` `Timestamp`, `CURRENT_DATE` `Date`, `AND` and `OR` `Boolean`, and the value-passing functions `MatchFirstArg`; any other name gets none.
pub proof fn law_return_types_by_function_category(name: Seq<char>)
    ensures
        returns_integer(ascii_lower(name)) ==> first_value_for(spec_return_type_rules(), ascii_lower(name)) == Some(ReturnTypeRule::Integer),
        returns_numeric(ascii_lower(name)) ==> first_value_for(spec_return_type_rules(), ascii_lower(name)) == Some(ReturnTypeRule::Numeric),
        returns_text(ascii_lower(name)) ==> first_value_for(spec_return_type_rules(), ascii_lower(name)) == Some(ReturnTypeRule::Text),
        returns_timestamp(ascii_lower(name)) ==> first_value_for(spec_return_type_rules(), ascii_lower(name)) == Some(ReturnTypeRule::Timestamp),
        returns_boolean(ascii_lower(name)) ==> first_value_for(spec_return_type_rules(), ascii_lower(name)) == Some(ReturnTypeRule::Boolean),
        returns_date(ascii_lower(name)) ==> first_value_for(spec_return_type_rules(), ascii_lower(name)) == Some(ReturnTypeRule::Date),
        returns_match_first_arg(ascii_lower(name)) ==> first_value_for(spec_return_type_rules(), ascii_lower(name)) == Some(ReturnTypeRule::MatchFirstArg),
        !has_known_return_rule(ascii_lower(name)) ==> first_value_for(spec_return_type_rules(), ascii_lower(name)) is None,
{
    let key = ascii_lower(name);
    reveal_strlit("count");
    reveal_strlit("dense_rank");
    reveal_strlit("ntile");
    reveal_strlit("rank");
    reveal_strlit("row_number");
    reveal_strlit("avg");
    reveal_strlit("sum");
    reveal_strlit("concat");
    reveal_strlit("concat_ws");
    reveal_strlit("lower");
    reveal_strlit("replace");
    reveal_strlit("substring");
    reveal_strlit("trim");
    reveal_strlit("upper");
    reveal_strlit("current_timestamp");
    reveal_strlit("now");
    reveal_strlit("and");
    reveal_strlit("or");
    reveal_strlit("current_date");
    reveal_strlit("any_value");
    reveal_strlit("coalesce");
    reveal_strlit("date_trunc");
    reveal_strlit("first_value");
    reveal_strlit("lag");
    reveal_strlit("last_value");
    reveal_strlit("lead");
    reveal_strlit("max");
    reveal_strlit("min");
    assert("count"@.len() == 5);
    assert("dense_rank"@.len() == 10);
    assert("ntile"@.len() == 5);
    assert("rank"@.len() == 4);
    assert("row_number"@.len() == 10);
    assert("avg"@.len() == 3);
    assert("sum"@.len() == 3);
    assert("concat"@.len() == 6);
    assert("concat_ws"@.len() == 9);
    assert("lower"@.len() == 5);
    assert("replace"@.len() == 7);
    assert("substring"@.len() == 9);
    assert("trim"@.len() == 4);
    assert("upper"@.len() == 5);
    assert("current_timestamp"@.len() == 17);
    assert("now"@.len() == 3);
    assert("and"@.len() == 3);
    assert("or"@.len() == 2);
    assert("current_date"@.len() == 12);
    assert("any_value"@.len() == 9);
    assert("coalesce"@.len() == 8);
    assert("date_trunc"@.len() == 10);
    assert("first_value"@.len() == 11);
    assert("lag"@.len() == 3);
    assert("last_value"@.len() == 10);
    assert("lead"@.len() == 4);
    assert("max"@.len() == 3);
    assert("min"@.len() == 3);
    if key == "count"@ {
        assert("count"@[0] != "lower"@[0]);
        assert("count"@[0] != "upper"@[0]);
        assert(!returns_numeric(key));
        assert(!returns_text(key));
        assert(!returns_timestamp(key));
        assert(!returns_boolean(key));
        assert(!returns_date(key));
        assert(!returns_match_first_arg(key));
        lemma_return_rule_entry(6);
        assert(spec_return_type_rules()[6] == ("count", ReturnTypeRule::Integer));
    } else if key == "dense_rank"@ {
        assert("dense_rank"@[1] != "date_trunc"@[1]);
        assert("dense_rank"@[0] != "last_value"@[0]);
        assert(!returns_numeric(key));
        assert(!returns_text(key));
        assert(!returns_timestamp(key));
        assert(!returns_boolean(key));
        assert(!returns_date(key));
        assert(!returns_match_first_arg(key));
        lemma_return_rule_entry(10);
        assert(spec_return_type_rules()[10] == ("dense_rank", ReturnTypeRule::Integer));
    } else if key == "ntile"@ {
        assert("ntile"@[0] != "lower"@[0]);
        assert("ntile"@[0] != "upper"@[0]);
        assert(!returns_numeric(key));
        assert(!returns_text(key));
        assert(!returns_timestamp(key));
        assert(!returns_boolean(key));
        assert(!returns_date(key));
        assert(!returns_match_first_arg(key));
        lemma_return_rule_entry(19);
        assert(spec_return_type_rules()[19] == ("ntile", ReturnTypeRule::Integer));
    } else if key == "rank"@ {
        assert("rank"@[0] != "trim"@[0]);
        assert("rank"@[0] != "lead"@[0]);
        assert(!returns_numeric(key));
        assert(!returns_text(key));
        assert(!returns_timestamp(key));
        assert(!returns_boolean(key));
        assert(!returns_date(key));
        assert(!returns_match_first_arg(key));
        lemma_return_rule_entry(21);
        assert(spec_return_type_rules()[21] == ("rank", ReturnTypeRule::Integer));
    } else if key == "row_number"@ {
        assert("row_number"@[0] != "date_trunc"@[0]);
        assert("row_number"@[0] != "last_value"@[0]);
        assert(!returns_numeric(key));
        assert(!returns_text(key));
        assert(!returns_timestamp(key));
        assert(!returns_boolean(key));
        assert(!returns_date(key));
        assert(!returns_match_first_arg(key));
        lemma_return_rule_entry(23);
        assert(spec_return_type_rules()[23] == ("row_number", ReturnTypeRule::Integer));
    } else if key == "avg"@ {
        assert("avg"@[0] != "now"@[0]);
        assert("avg"@[1] != "and"@[1]);
        assert("avg"@[0] != "lag"@[0]);
        assert("avg"@[0] != "max"@[0]);
        assert("avg"@[0] != "min"@[0]);
        assert(!returns_integer(key));
        assert(!returns_text(key));
        assert(!returns_timestamp(key));
        assert(!returns_boolean(key));
        assert(!returns_date(key));
        assert(!returns_match_first_arg(key));
        lemma_return_rule_entry(2);
        assert(spec_return_type_rules()[2] == ("avg", ReturnTypeRule::Numeric));
    } else if key == "sum"@ {
        assert("sum"@[0] != "now"@[0]);
        assert("sum"@[0] != "and"@[0]);
        assert("sum"@[0] != "lag"@[0]);
        assert("sum"@[0] != "max"@[0]);
        assert("sum"@[0] != "min"@[0]);
        assert(!returns_integer(key));
        assert(!returns_text(key));
        assert(!returns_timestamp(key));
        assert(!returns_boolean(key));
        assert(!returns_date(key));
        assert(!returns_match_first_arg(key));
        lemma_return_rule_entry(25);
        assert(spec_return_type_rules()[25] == ("sum", ReturnTypeRule::Numeric));
    } else if key == "concat"@ {
        assert(!returns_integer(key));
        assert(!returns_numeric(key));
        assert(!returns_timestamp(key));
        assert(!returns_boolean(key));
        assert(!returns_date(key));
        assert(!returns_match_first_arg(key));
        lemma_return_rule_entry(4);
        assert(spec_return_type_rules()[4] == ("concat", ReturnTypeRule::Text));
    } else if key == "concat_ws"@ {
        assert("concat_ws"@[0] != "any_value"@[0]);
        assert(!returns_integer(key));
        assert(!returns_numeric(key));
        assert(!returns_timestamp(key));
        assert(!returns_boolean(key));
        assert(!returns_date(key));
        assert(!returns_match_first_arg(key));
        lemma_return_rule_entry(5);
        assert(spec_return_type_rules()[5] == ("concat_ws", ReturnTypeRule::Text));
    } else if key == "lower"@ {
        assert("lower"@[0] != "count"@[0]);
        assert("lower"@[0] != "ntile"@[0]);
        assert(!returns_integer(key));
        assert(!returns_numeric(key));
        assert(!returns_timestamp(key));
        assert(!returns_boolean(key));
        assert(!returns_date(key));
        assert(!returns_match_first_arg(key));
        lemma_return_rule_entry(15);
        assert(spec_return_type_rules()[15] == ("lower", ReturnTypeRule::Text));
    } else if key == "replace"@ {
        assert(!returns_integer(key));
        assert(!returns_numeric(key));
        assert(!returns_timestamp(key));
        assert(!returns_boolean(key));
        assert(!returns_date(key));
        assert(!returns_match_first_arg(key));
        lemma_return_rule_entry(22);
        assert(spec_return_type_rules()[22] == ("replace", ReturnTypeRule::Text));
    } else if key == "substring"@ {
        assert("substring"@[0] != "any_value"@[0]);
        assert(!returns_integer(key));
        assert(!returns_numeric(key));
        assert(!returns_timestamp(key));
        assert(!returns_boolean(key));
        assert(!returns_date(key));
        assert(!returns_match_first_arg(key));
        lemma_return_rule_entry(24);
        assert(spec_return_type_rules()[24] == ("substring", ReturnTypeRule::Text));
    } else if key == "trim"@ {
        assert("trim"@[0] != "rank"@[0]);
        assert("trim"@[0] != "lead"@[0]);
        assert(!returns_integer(key));
        assert(!returns_numeric(key));
        assert(!returns_timestamp(key));
        assert(!returns_boolean(key));
        assert(!returns_date(key));
        assert(!returns_match_first_arg(key));
        lemma_return_rule_entry(26);
        assert(spec_return_type_rules()[26] == ("trim", ReturnTypeRule::Text));
    } else if key == "upper"@ {
        assert("upper"@[0] != "count"@[0]);
        assert("upper"@[0] != "ntile"@[0]);
        assert(!returns_integer(key));
        assert(!returns_numeric(key));
        assert(!returns_timestamp(key));
        assert(!returns_boolean(key));
        assert(!returns_date(key));
        assert(!returns_match_first_arg(key));
        lemma_return_rule_entry(27);
        assert(spec_return_type_rules()[27] == ("upper", ReturnTypeRule::Text));
    } else if key == "current_timestamp"@ {
        assert(!returns_integer(key));
        assert(!returns_numeric(key));
        assert(!returns_text(key));
        assert(!returns_boolean(key));
        assert(!returns_date(key));
        assert(!returns_match_first_arg(key));
        lemma_return_rule_entry(8);
        assert(spec_return_type_rules()[8] == ("current_timestamp", ReturnTypeRule::Timestamp));
    } else if key == "now"@ {
        assert("now"@[0] != "avg"@[0]);
        assert("now"@[0] != "sum"@[0]);
        assert("now"@[0] != "and"@[0]);
        assert("now"@[0] != "lag"@[0]);
        assert("now"@[0] != "max"@[0]);
        assert("now"@[0] != "min"@[0]);
        assert(!returns_integer(key));
        assert(!returns_numeric(key));
        assert(!returns_text(key));
        assert(!returns_boolean(key));
        assert(!returns_date(key));
        assert(!returns_match_first_arg(key));
        lemma_return_rule_entry(18);
        assert(spec_return_type_rules()[18] == ("now", ReturnTypeRule::Timestamp));
    } else if key == "and"@ {
        assert("and"@[1] != "avg"@[1]);
        assert("and"@[0] != "sum"@[0]);
        assert("and"@[0] != "now"@[0]);
        assert("and"@[0] != "lag"@[0]);
        assert("and"@[0] != "max"@[0]);
        assert("and"@[0] != "min"@[0]);
        assert(!returns_integer(key));
        assert(!returns_numeric(key));
        assert(!returns_text(key));
        assert(!returns_timestamp(key));
        assert(!returns_date(key));
        assert(!returns_match_first_arg(key));
        lemma_return_rule_entry(0);
        assert(spec_return_type_rules()[0] == ("and", ReturnTypeRule::Boolean));
    } else if key == "or"@ {
        assert(!returns_integer(key));
        assert(!returns_numeric(key));
        assert(!returns_text(key));
        assert(!returns_timestamp(key));
        assert(!returns_date(key));
        assert(!returns_match_first_arg(key));
        lemma_return_rule_entry(20);
        assert(spec_return_type_rules()[20] == ("or", ReturnTypeRule::Boolean));
    } else if key == "current_date"@ {
        assert(!returns_integer(key));
        assert(!returns_numeric(key));
        assert(!returns_text(key));
        assert(!returns_timestamp(key));
        assert(!returns_boolean(key));
        assert(!returns_match_first_arg(key));
        lemma_return_rule_entry(7);
        assert(spec_return_type_rules()[7] == ("current_date", ReturnTypeRule::Date));
    } else if key == "any_value"@ {
        assert("any_value"@[0] != "concat_ws"@[0]);
        assert("any_value"@[0] != "substring"@[0]);
        assert(!returns_integer(key));
        assert(!returns_numeric(key));
        assert(!returns_text(key));
        assert(!returns_timestamp(key));
        assert(!returns_boolean(key));
        assert(!returns_date(key));
        lemma_return_rule_entry(1);
        assert(spec_return_type_rules()[1] == ("any_value", ReturnTypeRule::MatchFirstArg));
    } else if key == "coalesce"@ {
        assert(!returns_integer(key));
        assert(!returns_numeric(key));
        assert(!returns_text(key));
        assert(!returns_timestamp(key));
        assert(!returns_boolean(key));
        assert(!returns_date(key));
        lemma_return_rule_entry(3);
        assert(spec_return_type_rules()[3] == ("coalesce", ReturnTypeRule::MatchFirstArg));
    } else if key == "date_trunc"@ {
        assert("date_trunc"@[1] != "dense_rank"@[1]);
        assert("date_trunc"@[0] != "row_number"@[0]);
        assert(!returns_integer(key));
        assert(!returns_numeric(key));
        assert(!returns_text(key));
        assert(!returns_timestamp(key));
        assert(!returns_boolean(key));
        assert(!returns_date(key));
        lemma_return_rule_entry(9);
        assert(spec_return_type_rules()[9] == ("date_trunc", ReturnTypeRule::MatchFirstArg));
    } else if key == "first_value"@ {
        assert(!returns_integer(key));
        assert(!returns_numeric(key));
        assert(!returns_text(key));
        assert(!returns_timestamp(key));
        assert(!returns_boolean(key));
        assert(!returns_date(key));
        lemma_return_rule_entry(11);
        assert(spec_return_type_rules()[11] == ("first_value", ReturnTypeRule::MatchFirstArg));
    } else if key == "lag"@ {
        assert("lag"@[0] != "avg"@[0]);
        assert("lag"@[0] != "sum"@[0]);
        assert("lag"@[0] != "now"@[0]);
        assert("lag"@[0] != "and"@[0]);
        assert(!returns_integer(key));
        assert(!returns_numeric(key));
        assert(!returns_text(key));
        assert(!returns_timestamp(key));
        assert(!returns_boolean(key));
        assert(!returns_date(key));
        lemma_return_rule_entry(12);
        assert(spec_return_type_rules()[12] == ("lag", ReturnTypeRule::MatchFirstArg));
    } else if key == "last_value"@ {
        assert("last_value"@[0] != "dense_rank"@[0]);
        assert("last_value"@[0] != "row_number"@[0]);
        assert(!returns_integer(key));
        assert(!returns_numeric(key));
        assert(!returns_text(key));
        assert(!returns_timestamp(key));
        assert(!returns_boolean(key));
        assert(!returns_date(key));
        lemma_return_rule_entry(13);
        assert(spec_return_type_rules()[13] == ("last_value", ReturnTypeRule::MatchFirstArg));
    } else if key == "lead"@ {
        assert("lead"@[0] != "rank"@[0]);
        assert("lead"@[0] != "trim"@[0]);
        assert(!returns_integer(key));
        assert(!returns_numeric(key));
        assert(!returns_text(key));
        assert(!returns_timestamp(key));
        assert(!returns_boolean(key));
        assert(!returns_date(key));
        lemma_return_rule_entry(14);
        assert(spec_return_type_rules()[14] == ("lead", ReturnTypeRule::MatchFirstArg));
    } else if key == "max"@ {
        assert("max"@[0] != "avg"@[0]);
        assert("max"@[0] != "sum"@[0]);
        assert("max"@[0] != "now"@[0]);
        assert("max"@[0] != "and"@[0]);
        assert(!returns_integer(key));
        assert(!returns_numeric(key));
        assert(!returns_text(key));
        assert(!returns_timestamp(key));
        assert(!returns_boolean(key));
        assert(!returns_date(key));
        lemma_return_rule_entry(16);
        assert(spec_return_type_rules()[16] == ("max", ReturnTypeRule::MatchFirstArg));
    } else if key == "min"@ {
        assert("min"@[0] != "avg"@[0]);
        assert("min"@[0] != "sum"@[0]);
        assert("min"@[0] != "now"@[0]);
        assert("min"@[0] != "and"@[0]);
        assert(!returns_integer(key));
        assert(!returns_numeric(key));
        assert(!returns_text(key));
        assert(!returns_timestamp(key));
        assert(!returns_boolean(key));
        assert(!returns_date(key));
        lemma_return_rule_entry(17);
        assert(spec_return_type_rules()[17] == ("min", ReturnTypeRule::MatchFirstArg));
    } else {
        lemma_return_rule_absent(key);
    }
}

/// The aggregate functions of standard SQL: `COUNT`, `SUM`, `AVG`, `MIN`, `MAX`.
pub open spec fn is_standard_aggregate(s: Seq<char>) -> bool {
    s == "count"@
        || s == "sum"@
        || s == "avg"@
        || s == "min"@
        || s == "max"@
}

/// The standard SQL aggregates are aggregate functions, in any ASCII case.
pub proof fn law_standard_aggregates_are_aggregates(name: Seq<char>)
    requires
        is_standard_aggregate(ascii_lower(name)),
    ensures
        seq_has_str(spec_aggregate_functions(), ascii_lower(name)),
{
    let list = spec_aggregate_functions();
    let key = ascii_lower(name);
    if key == "count"@ {
        assert(list[28] == "count");
        assert(list[28]@ == key);
    } else if key == "sum"@ {
        assert(list[54] == "sum");
        assert(list[54]@ == key);
    } else if key == "avg"@ {
        assert(list[18] == "avg");
        assert(list[18]@ == key);
    } else if key == "min"@ {
        assert(list[44] == "min");
        assert(list[44]@ == key);
    } else if key == "max"@ {
        assert(list[42] == "max");
        assert(list[42]@ == key);
    }
}

} // verus!
