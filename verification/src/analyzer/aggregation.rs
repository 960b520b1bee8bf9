//! Aggregation of projected expressions: the normalized form of GROUP BY keys,
//! the first aggregate call inside an expression, and how a projected
//! expression takes part in aggregation.

use vstd::prelude::*;

use super::context::StatementContext;
use super::expression::{join_dotted, ExpressionAnalyzer, FunctionArg, FunctionArgs, PairKind, SqlExpr, WrapKind, MAX_RECURSION_DEPTH};
use super::Analyzer;
use crate::generated::functions::{is_aggregate_function, spec_aggregate_functions};
use crate::text::{ascii_lower, seq_has_str, str_to_lowercase, str_to_uppercase, string_of, unicode_to_lowercase, unicode_to_uppercase};
use crate::types::AggregationInfo;

verus! {

/// The shape of a GROUP BY key expression, as far as its normalized form is concerned.
#[derive(Debug)]
pub enum GroupKeyKind {
    /// A bare identifier (its unquoted value).
    Identifier(String),
    /// A qualified name, part by part.
    CompoundIdentifier(Vec<String>),
    /// A parenthesized expression.
    Nested(Box<GroupKey>),
    /// Any other expression.
    Other,
}

/// A GROUP BY key expression with its SQL text as the parser prints it.
#[derive(Debug)]
pub struct GroupKey {
    pub kind: GroupKeyKind,
    pub text: String,
}

/// The normalized form of a GROUP BY key at depth `depth`: identifiers by the
/// dialect's case rules, qualified names part by part joined with `.`,
/// parentheses unwrapped, and any other expression (or one nested too deeply) as
/// its lowercased SQL text.
pub open spec fn group_key_text(a: Analyzer, k: GroupKey, depth: nat) -> Seq<char>
    decreases MAX_RECURSION_DEPTH + 1 - depth,
{
    if depth > MAX_RECURSION_DEPTH {
        unicode_to_lowercase(k.text@)
    } else {
        match k.kind {
            GroupKeyKind::Identifier(v) => a.spec_normalize(v@),
            GroupKeyKind::CompoundIdentifier(parts) => join_dotted(parts@.map_values(|p: String| a.spec_normalize(p@))),
            GroupKeyKind::Nested(inner) => group_key_text(a, *inner, depth + 1),
            GroupKeyKind::Other => unicode_to_lowercase(k.text@),
        }
    }
}

/// An aggregate function call: its name in uppercase and whether it aggregates
/// distinct values.
#[derive(Debug)]
pub struct AggregateCall {
    pub function: String,
    pub distinct: bool,
}

/// The first aggregate call inside `e` at depth `depth`, looking through binary
/// operators, unary operators, parentheses, casts, `CASE` and the arguments of
/// non-aggregate functions.
pub open spec fn aggregate_in(e: SqlExpr, depth: nat) -> Option<(Seq<char>, bool)>
    decreases MAX_RECURSION_DEPTH + 1 - depth, 0nat,
{
    if depth > MAX_RECURSION_DEPTH {
        None
    } else {
        let d = depth + 1;
        match e {
            SqlExpr::Function(name, args) => if seq_has_str(spec_aggregate_functions(), ascii_lower(name@)) {
                Some((unicode_to_uppercase(name@), args matches FunctionArgs::List(_, distinct) && distinct))
            } else {
                match args {
                    FunctionArgs::List(list, _) => aggregate_in_args(list@, d),
                    _ => None,
                }
            },
            SqlExpr::Pair(PairKind::BinaryOp, left, right) => match aggregate_in(*left, d) {
                Some(x) => Some(x),
                None => aggregate_in(*right, d),
            },
            SqlExpr::Wrapped(kind, inner) => if kind == WrapKind::UnaryOp || kind == WrapKind::Nested || kind
                == WrapKind::Cast {
                aggregate_in(*inner, d)
            } else {
                None
            },
            SqlExpr::Case(operand, conditions, else_result) => {
                let in_operand = match operand {
                    Some(op) => aggregate_in(*op, d),
                    None => None,
                };
                if in_operand is Some {
                    in_operand
                } else {
                    let in_when = aggregate_in_when(conditions@, d);
                    if in_when is Some {
                        in_when
                    } else {
                        match else_result {
                            Some(el) => aggregate_in(*el, d),
                            None => None,
                        }
                    }
                }
            },
            _ => None,
        }
    }
}

/// The first aggregate call inside the expression arguments of `list`.
pub open spec fn aggregate_in_args(list: Seq<FunctionArg>, depth: nat) -> Option<(Seq<char>, bool)>
    decreases MAX_RECURSION_DEPTH + 1 - depth, list.len() + 1,
{
    if list.len() == 0 {
        None
    } else {
        let rest = aggregate_in_args(list.drop_last(), depth);
        if rest is Some {
            rest
        } else {
            match list.last() {
                FunctionArg::Expr(x) => aggregate_in(x, depth),
                FunctionArg::Other => None,
            }
        }
    }
}

/// The first aggregate call inside the `WHEN` conditions and results of a `CASE`.
pub open spec fn aggregate_in_when(list: Seq<(SqlExpr, SqlExpr)>, depth: nat) -> Option<(Seq<char>, bool)>
    decreases MAX_RECURSION_DEPTH + 1 - depth, list.len() + 1,
{
    if list.len() == 0 {
        None
    } else {
        let rest = aggregate_in_when(list.drop_last(), depth);
        if rest is Some {
            rest
        } else {
            let in_condition = aggregate_in(list.last().0, depth);
            if in_condition is Some {
                in_condition
            } else {
                aggregate_in(list.last().1, depth)
            }
        }
    }
}

/// The value of aggregation information: grouping key, aggregate function, distinct mark.
pub struct AggregationView {
    pub is_grouping_key: bool,
    pub function: Option<Seq<char>>,
    pub distinct: Option<bool>,
}

impl DeepView for AggregationInfo {
    type V = AggregationView;

    open spec fn deep_view(&self) -> AggregationView {
        AggregationView {
            is_grouping_key: self.is_grouping_key,
            function: self.function.deep_view(),
            distinct: self.distinct,
        }
    }
}

/// How a projected expression takes part in aggregation: a grouping key of the
/// statement's GROUP BY, else an aggregate (with its function and distinct mark),
/// else not at all.
pub open spec fn aggregation_of(a: Analyzer, ctx: StatementContext, e: SqlExpr, key: GroupKey) -> Option<AggregationView> {
    if ctx.has_group_by && ctx.grouping_columns.as_map().contains_key(group_key_text(a, key, 0)) {
        Some(AggregationView { is_grouping_key: true, function: None, distinct: None })
    } else {
        match aggregate_in(e, 0) {
            Some(call) => Some(
                AggregationView {
                    is_grouping_key: false,
                    function: Some(call.0),
                    distinct: if call.1 {
                        Some(true)
                    } else {
                        None
                    },
                },
            ),
            None => None,
        }
    }
}

impl<'a> ExpressionAnalyzer<'a> {
    /// Normalizes a GROUP BY expression to a canonical string for comparison, so
    /// that `GROUP BY (col)` matches `SELECT col`; see `group_key_text`.
    pub fn normalize_group_by_expr(&self, key: &GroupKey) -> (r: String)
        ensures
            r@ == group_key_text(*old(self.analyzer), *key, 0),
    {
        Self::normalize_group_by_expr_inner(self.analyzer, key, 0)
    }

    /// The normalized form of a GROUP BY key met at depth `depth`.
    fn normalize_group_by_expr_inner(analyzer: &Analyzer, key: &GroupKey, depth: usize) -> (r: String)
        ensures
            r@ == group_key_text(*analyzer, *key, depth as nat),
        decreases MAX_RECURSION_DEPTH + 1 - depth,
    {
        if depth > MAX_RECURSION_DEPTH {
            return str_to_lowercase(key.text.as_str());
        }
        match &key.kind {
            GroupKeyKind::Identifier(v) => analyzer.normalize_identifier(v.as_str()),
            GroupKeyKind::CompoundIdentifier(parts) => {
                let ghost views = parts@.map_values(|p: String| analyzer.spec_normalize(p@));
                proof {
                    reveal_strlit("");
                    reveal_strlit(".");
                    assert(views.take(0) =~= Seq::<Seq<char>>::empty());
                }
                let mut out = string_of("");
                let mut i: usize = 0;
                while i < parts.len()
                    invariant
                        views == parts@.map_values(|p: String| analyzer.spec_normalize(p@)),
                        0 <= i <= parts@.len(),
                        out@ == join_dotted(views.take(i as int)),
                    decreases parts@.len() - i,
                {
                    proof {
                        assert(views.take(i + 1).drop_last() =~= views.take(i as int));
                        assert(views.take(i + 1).last() == analyzer.spec_normalize(parts@[i as int]@));
                    }
                    if i > 0 {
                        out.append(".");
                    }
                    let part = analyzer.normalize_identifier(parts[i].as_str());
                    out.append(part.as_str());
                    proof {
                        if i == 0 {
                            assert(views.take(1) =~= seq![views[0]]);
                        }
                    }
                    i = i + 1;
                }
                assert(views.take(views.len() as int) =~= views);
                out
            },
            GroupKeyKind::Nested(inner) => Self::normalize_group_by_expr_inner(analyzer, inner, depth + 1),
            GroupKeyKind::Other => str_to_lowercase(key.text.as_str()),
        }
    }

    /// The first aggregate call inside `expr` met at depth `depth`; see `aggregate_in`.
    pub fn find_aggregate_function(expr: &SqlExpr, depth: usize) -> (r: Option<AggregateCall>)
        ensures
            match r {
                Some(call) => aggregate_in(*expr, depth as nat) == Some((call.function@, call.distinct)),
                None => aggregate_in(*expr, depth as nat) is None,
            },
        decreases MAX_RECURSION_DEPTH + 1 - depth, 0nat,
    {
        if depth > MAX_RECURSION_DEPTH {
            return None;
        }
        let next_depth = depth + 1;
        match expr {
            SqlExpr::Function(name, args) => {
                if is_aggregate_function(name.as_str()) {
                    let distinct = match args {
                        FunctionArgs::List(_, d) => *d,
                        _ => false,
                    };
                    return Some(AggregateCall { function: str_to_uppercase(name.as_str()), distinct });
                }
                match args {
                    FunctionArgs::List(list, _) => Self::find_aggregate_in_function_args(list, next_depth),
                    _ => None,
                }
            },
            SqlExpr::Pair(kind, left, right) => {
                match kind {
                    PairKind::BinaryOp => {
                        match Self::find_aggregate_function(left, next_depth) {
                            Some(call) => Some(call),
                            None => Self::find_aggregate_function(right, next_depth),
                        }
                    },
                    _ => None,
                }
            },
            SqlExpr::Wrapped(kind, inner) => {
                match kind {
                    WrapKind::UnaryOp | WrapKind::Nested | WrapKind::Cast => Self::find_aggregate_function(inner, next_depth),
                    _ => None,
                }
            },
            SqlExpr::Case(operand, conditions, else_result) => {
                match operand {
                    Some(op) => match Self::find_aggregate_function(op, next_depth) {
                        Some(call) => {
                            return Some(call);
                        },
                        None => {},
                    },
                    None => {},
                }
                match Self::find_aggregate_in_case_conditions(conditions, next_depth) {
                    Some(call) => {
                        return Some(call);
                    },
                    None => {},
                }
                match else_result {
                    Some(el) => Self::find_aggregate_function(el, next_depth),
                    None => None,
                }
            },
            _ => None,
        }
    }

    /// The first aggregate call inside the expression arguments of `list`.
    fn find_aggregate_in_function_args(list: &Vec<FunctionArg>, depth: usize) -> (r: Option<AggregateCall>)
        requires
            depth <= MAX_RECURSION_DEPTH + 1,
        ensures
            match r {
                Some(call) => aggregate_in_args(list@, depth as nat) == Some((call.function@, call.distinct)),
                None => aggregate_in_args(list@, depth as nat) is None,
            },
        decreases MAX_RECURSION_DEPTH + 1 - depth, 1nat,
    {
        let mut i: usize = 0;
        assert(list@.take(0) =~= Seq::<FunctionArg>::empty());
        while i < list.len()
            invariant
                depth <= MAX_RECURSION_DEPTH + 1,
                0 <= i <= list@.len(),
                aggregate_in_args(list@.take(i as int), depth as nat) is None,
            decreases list@.len() - i,
        {
            proof {
                assert(list@.take(i + 1).drop_last() =~= list@.take(i as int));
                assert(list@.take(i + 1).last() == list@[i as int]);
            }
            match &list[i] {
                FunctionArg::Expr(x) => match Self::find_aggregate_function(x, depth) {
                    Some(call) => {
                        proof {
                            lemma_aggregate_in_args_prefix(list@, depth as nat, i + 1);
                        }
                        return Some(call);
                    },
                    None => {},
                },
                FunctionArg::Other => {},
            }
            i = i + 1;
        }
        assert(list@.take(i as int) =~= list@);
        None
    }

    /// The first aggregate call inside the `WHEN` conditions and results of a `CASE`.
    fn find_aggregate_in_case_conditions(list: &Vec<(SqlExpr, SqlExpr)>, depth: usize) -> (r: Option<AggregateCall>)
        requires
            depth <= MAX_RECURSION_DEPTH + 1,
        ensures
            match r {
                Some(call) => aggregate_in_when(list@, depth as nat) == Some((call.function@, call.distinct)),
                None => aggregate_in_when(list@, depth as nat) is None,
            },
        decreases MAX_RECURSION_DEPTH + 1 - depth, 1nat,
    {
        let mut i: usize = 0;
        assert(list@.take(0) =~= Seq::<(SqlExpr, SqlExpr)>::empty());
        while i < list.len()
            invariant
                depth <= MAX_RECURSION_DEPTH + 1,
                0 <= i <= list@.len(),
                aggregate_in_when(list@.take(i as int), depth as nat) is None,
            decreases list@.len() - i,
        {
            proof {
                assert(list@.take(i + 1).drop_last() =~= list@.take(i as int));
                assert(list@.take(i + 1).last() == list@[i as int]);
            }
            let found = match Self::find_aggregate_function(&list[i].0, depth) {
                Some(call) => Some(call),
                None => Self::find_aggregate_function(&list[i].1, depth),
            };
            match found {
                Some(call) => {
                    proof {
                        lemma_aggregate_in_when_prefix(list@, depth as nat, i + 1);
                    }
                    return Some(call);
                },
                None => {},
            }
            i = i + 1;
        }
        assert(list@.take(i as int) =~= list@);
        None
    }

    /// How a projected expression takes part in aggregation; see `aggregation_of`.
    /// `key` is the same expression as a GROUP BY key.
    pub fn detect_aggregation(&self, expr: &SqlExpr, key: &GroupKey) -> (r: Option<AggregationInfo>)
        requires
            old(self.ctx).wf(),
        ensures
            r.deep_view() == aggregation_of(*old(self.analyzer), *old(self.ctx), *expr, *key),
    {
        if self.ctx.has_group_by {
            let normalized = self.normalize_group_by_expr(key);
            if self.ctx.is_grouping_column(normalized.as_str()) {
                return Some(AggregationInfo { is_grouping_key: true, function: None, distinct: None });
            }
        }
        match Self::find_aggregate_function(expr, 0) {
            Some(call) => Some(
                AggregationInfo {
                    is_grouping_key: false,
                    function: Some(call.function),
                    distinct: if call.distinct {
                        Some(true)
                    } else {
                        None
                    },
                },
            ),
            None => None,
        }
    }
}

/// A lookup that found nothing among the first arguments finds the same in a longer prefix.
proof fn lemma_aggregate_in_args_prefix(list: Seq<FunctionArg>, depth: nat, n: int)
    requires
        0 <= n <= list.len(),
        aggregate_in_args(list.take(n), depth) is Some,
    ensures
        aggregate_in_args(list, depth) == aggregate_in_args(list.take(n), depth),
    decreases list.len() - n,
{
    if n < list.len() {
        assert(list.take(n + 1).drop_last() =~= list.take(n));
        lemma_aggregate_in_args_prefix(list, depth, n + 1);
    } else {
        assert(list.take(n) =~= list);
    }
}

/// A lookup that found something among the first `WHEN` branches finds the same in a longer prefix.
proof fn lemma_aggregate_in_when_prefix(list: Seq<(SqlExpr, SqlExpr)>, depth: nat, n: int)
    requires
        0 <= n <= list.len(),
        aggregate_in_when(list.take(n), depth) is Some,
    ensures
        aggregate_in_when(list, depth) == aggregate_in_when(list.take(n), depth),
    decreases list.len() - n,
{
    if n < list.len() {
        assert(list.take(n + 1).drop_last() =~= list.take(n));
        lemma_aggregate_in_when_prefix(list, depth, n + 1);
    } else {
        assert(list.take(n) =~= list);
    }
}

/// Parentheses, a unary operator or a cast around an expression do not change
/// which aggregate call it contains: the search goes on one level deeper.
pub proof fn law_wrapping_keeps_aggregates(kind: WrapKind, e: SqlExpr, depth: nat)
    requires
        kind == WrapKind::UnaryOp || kind == WrapKind::Nested || kind == WrapKind::Cast,
    ensures
        aggregate_in(SqlExpr::Wrapped(kind, Box::new(e)), depth) == aggregate_in(e, depth + 1),
{
    reveal_with_fuel(aggregate_in, 2);
}

/// The aggregate call of a binary operation is that of its left operand, else
/// that of its right operand, one level deeper: an aggregate in either operand
/// makes the whole an aggregate.
pub proof fn law_binary_operands_keep_aggregates(left: SqlExpr, right: SqlExpr, depth: nat)
    ensures
        aggregate_in(SqlExpr::Pair(PairKind::BinaryOp, Box::new(left), Box::new(right)), depth) == (if aggregate_in(
            left,
            depth + 1,
        ) is Some {
            aggregate_in(left, depth + 1)
        } else {
            aggregate_in(right, depth + 1)
        }),
        aggregate_in(left, depth + 1) is Some || aggregate_in(right, depth + 1) is Some ==> aggregate_in(
            SqlExpr::Pair(PairKind::BinaryOp, Box::new(left), Box::new(right)),
            depth,
        ) is Some,
{
    reveal_with_fuel(aggregate_in, 2);
}

/// A call of an aggregate function within the depth limit is itself the
/// aggregate found, under its uppercase name.
pub proof fn law_aggregate_call_is_found(name: String, args: FunctionArgs, depth: nat)
    requires
        depth <= MAX_RECURSION_DEPTH,
        seq_has_str(spec_aggregate_functions(), ascii_lower(name@)),
    ensures
        aggregate_in(SqlExpr::Function(name, args), depth) matches Some(found) && found.0 == unicode_to_uppercase(name@),
{
}

/// An aggregate call in any expression argument of a call to a non-aggregate
/// function within the depth limit makes the call an aggregate.
pub proof fn law_arguments_keep_aggregates(name: String, list: Vec<FunctionArg>, distinct: bool, depth: nat, i: int)
    requires
        depth <= MAX_RECURSION_DEPTH,
        0 <= i < list@.len(),
        list@[i] matches FunctionArg::Expr(x) && aggregate_in(x, depth + 1) is Some,
    ensures
        aggregate_in(SqlExpr::Function(name, FunctionArgs::List(list, distinct)), depth) is Some,
{
    lemma_args_find_aggregate(list@, depth + 1, i);
}

/// An aggregate in the `i`-th expression argument is found among the arguments.
proof fn lemma_args_find_aggregate(list: Seq<FunctionArg>, depth: nat, i: int)
    requires
        0 <= i < list.len(),
        list[i] matches FunctionArg::Expr(x) && aggregate_in(x, depth) is Some,
    ensures
        aggregate_in_args(list, depth) is Some,
    decreases list.len(),
{
    if i < list.len() - 1 {
        lemma_args_find_aggregate(list.drop_last(), depth, i);
    }
}

/// An aggregate call in the operand, a `WHEN` condition or result, or the `ELSE`
/// result of a `CASE` within the depth limit makes the `CASE` an aggregate.
pub proof fn law_case_keeps_aggregates(
    operand: Option<Box<SqlExpr>>,
    conditions: Vec<(SqlExpr, SqlExpr)>,
    else_result: Option<Box<SqlExpr>>,
    depth: nat,
)
    requires
        depth <= MAX_RECURSION_DEPTH,
    ensures
        aggregate_in(SqlExpr::Case(operand, conditions, else_result), depth) is Some <==> (
            (operand matches Some(op) && aggregate_in(*op, depth + 1) is Some)
            || aggregate_in_when(conditions@, depth + 1) is Some
            || (else_result matches Some(el) && aggregate_in(*el, depth + 1) is Some)),
{
}

} // verus!
