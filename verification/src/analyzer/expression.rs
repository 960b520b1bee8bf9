//! Expression analysis: the column references and the bare identifiers of a SQL
//! expression, and the state that the analysis of an expression carries.

use vstd::prelude::*;

use super::context::{ColumnRef, StatementContext};
use super::Analyzer;
use crate::collections::KeyMap;
use crate::dialect::Dialect;
use crate::generated::case_sensitivity::spec_pseudocolumns;
use crate::generated::function_rules::{function_key, spec_skip_args};
use crate::generated::skip_args_for_function;
use crate::text::{ascii_lower, string_of, to_ascii_lowercase};

verus! {

/// Maximum recursion depth for expression traversal, which bounds the work on deeply
/// nested expressions.
pub const MAX_RECURSION_DEPTH: usize = 100;

/// Expression forms with a single operand.
#[derive(Debug, Clone, Copy, PartialEq, Eq, Structural)]
pub enum WrapKind {
    UnaryOp,
    Cast,
    Nested,
    Extract,
    IsNull,
    IsNotNull,
    IsFalse,
    IsNotFalse,
    IsTrue,
    IsNotTrue,
    IsUnknown,
    IsNotUnknown,
    Ceil,
    Floor,
    JsonAccess,
}

/// Expression forms with two operands.
#[derive(Debug, Clone, Copy, PartialEq, Eq, Structural)]
pub enum PairKind {
    BinaryOp,
    AnyOp,
    AllOp,
    Like,
    ILike,
    SimilarTo,
    RLike,
    Position,
    AtTimeZone,
    InUnnest,
    IsDistinctFrom,
    IsNotDistinctFrom,
}

/// A SQL expression, as far as column references and identifiers are concerned.
#[derive(Debug)]
pub enum SqlExpr {
    /// A bare identifier.
    Identifier(String),
    /// A qualified name such as `t.col` or `schema.t.col`.
    CompoundIdentifier(Vec<String>),
    /// A form with one operand.
    Wrapped(WrapKind, Box<SqlExpr>),
    /// A form with two operands.
    Pair(PairKind, Box<SqlExpr>, Box<SqlExpr>),
    /// `expr BETWEEN low AND high`.
    Between(Box<SqlExpr>, Box<SqlExpr>, Box<SqlExpr>),
    /// `expr IN (list)`.
    InList(Box<SqlExpr>, Vec<SqlExpr>),
    /// `(a, b, ...)`.
    Tuple(Vec<SqlExpr>),
    /// A function call: its name as written and its arguments.
    Function(String, FunctionArgs),
    /// `CASE operand WHEN condition THEN result ... ELSE else_result END`.
    Case(Option<Box<SqlExpr>>, Vec<(SqlExpr, SqlExpr)>, Option<Box<SqlExpr>>),
    /// `SUBSTRING(expr FROM from FOR for)`.
    Substring(Box<SqlExpr>, Option<Box<SqlExpr>>, Option<Box<SqlExpr>>),
    /// A subquery, `IN (subquery)` or `EXISTS (subquery)`.
    Subquery,
    /// Any other expression.
    Other,
}

/// The arguments of a function call.
#[derive(Debug)]
pub enum FunctionArgs {
    /// A list of arguments, and whether it is marked `DISTINCT`.
    List(Vec<FunctionArg>, bool),
    /// A subquery as the argument.
    Subquery,
    /// No argument list.
    Absent,
}

/// One argument of a function call.
#[derive(Debug)]
pub enum FunctionArg {
    /// An expression, positional or named.
    Expr(SqlExpr),
    /// A wildcard or another non-expression argument.
    Other,
}

/// The value of a column reference: qualifier and column name.
impl DeepView for ColumnRef {
    type V = (Option<Seq<char>>, Seq<char>);

    open spec fn deep_view(&self) -> (Option<Seq<char>>, Seq<char>) {
        (self.table.deep_view(), self.column@)
    }
}

/// Whether column references are looked for inside the operand of `kind`.
pub open spec fn wrap_has_refs(kind: WrapKind) -> bool {
    match kind {
        WrapKind::UnaryOp | WrapKind::Cast | WrapKind::Nested | WrapKind::Extract | WrapKind::IsNull
        | WrapKind::IsNotNull | WrapKind::IsFalse | WrapKind::IsNotFalse | WrapKind::IsTrue
        | WrapKind::IsNotTrue => true,
        _ => false,
    }
}

/// Whether column references are looked for inside the operands of `kind`.
pub open spec fn pair_has_refs(kind: PairKind) -> bool {
    match kind {
        PairKind::BinaryOp | PairKind::Like | PairKind::ILike => true,
        _ => false,
    }
}

/// Whether `name` is a pseudocolumn of `dialect`, compared case-insensitively.
pub open spec fn is_pseudocolumn(dialect: Dialect, name: Seq<char>) -> bool {
    exists|i: int| 0 <= i < spec_pseudocolumns(dialect).len()
        && ascii_lower((#[trigger] spec_pseudocolumns(dialect)[i])@) == ascii_lower(name)
}

/// The parts of a qualified name joined with `.`.
pub open spec fn join_dotted(parts: Seq<Seq<char>>) -> Seq<char>
    decreases parts.len(),
{
    if parts.len() == 0 {
        Seq::empty()
    } else if parts.len() == 1 {
        parts[0]
    } else {
        join_dotted(parts.drop_last()) + "."@ + parts.last()
    }
}

/// Combines two traversal results: references appended, depth limits or-ed.
pub open spec fn both(
    a: (Seq<(Option<Seq<char>>, Seq<char>)>, bool),
    b: (Seq<(Option<Seq<char>>, Seq<char>)>, bool),
) -> (Seq<(Option<Seq<char>>, Seq<char>)>, bool) {
    (a.0 + b.0, a.1 || b.1)
}

/// The column references of `e` at depth `depth`, in order, and whether the depth
/// limit was hit on the way.
pub open spec fn column_refs(e: SqlExpr, dialect: Dialect, depth: nat) -> (Seq<(Option<Seq<char>>, Seq<char>)>, bool)
    decreases MAX_RECURSION_DEPTH + 1 - depth, 0nat,
{
    if depth > MAX_RECURSION_DEPTH {
        (Seq::empty(), true)
    } else {
        let d = depth + 1;
        match e {
            SqlExpr::Identifier(name) => if is_pseudocolumn(dialect, name@) {
                (Seq::empty(), false)
            } else {
                (seq![(None, name@)], false)
            },
            SqlExpr::CompoundIdentifier(parts) => if parts@.len() >= 2 {
                let views = parts@.map_values(|p: String| p@);
                (seq![(Some(join_dotted(views.drop_last())), views.last())], false)
            } else {
                (Seq::empty(), false)
            },
            SqlExpr::Wrapped(kind, inner) => if wrap_has_refs(kind) {
                column_refs(*inner, dialect, d)
            } else {
                (Seq::empty(), false)
            },
            SqlExpr::Pair(kind, left, right) => if pair_has_refs(kind) {
                both(column_refs(*left, dialect, d), column_refs(*right, dialect, d))
            } else {
                (Seq::empty(), false)
            },
            SqlExpr::Between(x, low, high) => both(
                column_refs(*x, dialect, d),
                both(column_refs(*low, dialect, d), column_refs(*high, dialect, d)),
            ),
            SqlExpr::InList(x, list) => both(column_refs(*x, dialect, d), list_refs(list@, dialect, d)),
            SqlExpr::Tuple(list) => list_refs(list@, dialect, d),
            SqlExpr::Function(name, args) => match args {
                FunctionArgs::List(list, _) => arg_refs(list@, 0, spec_skip_args(dialect, function_key(name@)), dialect, d),
                _ => (Seq::empty(), false),
            },
            SqlExpr::Case(operand, conditions, else_result) => both(
                match operand {
                    Some(op) => column_refs(*op, dialect, d),
                    None => (Seq::empty(), false),
                },
                both(
                    when_refs(conditions@, dialect, d),
                    match else_result {
                        Some(el) => column_refs(*el, dialect, d),
                        None => (Seq::empty(), false),
                    },
                ),
            ),
            _ => (Seq::empty(), false),
        }
    }
}

/// The column references of each expression of `list` in turn.
pub open spec fn list_refs(list: Seq<SqlExpr>, dialect: Dialect, depth: nat) -> (Seq<(Option<Seq<char>>, Seq<char>)>, bool)
    decreases MAX_RECURSION_DEPTH + 1 - depth, list.len() + 1,
{
    if list.len() == 0 {
        (Seq::empty(), false)
    } else {
        both(list_refs(list.drop_last(), dialect, depth), column_refs(list.last(), dialect, depth))
    }
}

/// The column references of the `WHEN` conditions and results of a `CASE`, in order.
pub open spec fn when_refs(list: Seq<(SqlExpr, SqlExpr)>, dialect: Dialect, depth: nat) -> (Seq<(Option<Seq<char>>, Seq<char>)>, bool)
    decreases MAX_RECURSION_DEPTH + 1 - depth, list.len() + 1,
{
    if list.len() == 0 {
        (Seq::empty(), false)
    } else {
        both(
            when_refs(list.drop_last(), dialect, depth),
            both(column_refs(list.last().0, dialect, depth), column_refs(list.last().1, dialect, depth)),
        )
    }
}

/// The column references of the function arguments of `list`, the first of which is
/// at position `start`, except those at positions in `skip`.
pub open spec fn arg_refs(
    list: Seq<FunctionArg>,
    start: nat,
    skip: Seq<usize>,
    dialect: Dialect,
    depth: nat,
) -> (Seq<(Option<Seq<char>>, Seq<char>)>, bool)
    decreases MAX_RECURSION_DEPTH + 1 - depth, list.len() + 1,
{
    if list.len() == 0 {
        (Seq::empty(), false)
    } else {
        let last = (start + list.len() - 1) as nat;
        let rest = arg_refs(list.drop_last(), start, skip, dialect, depth);
        if skip.contains(last as usize) {
            rest
        } else {
            match list.last() {
                FunctionArg::Expr(x) => both(rest, column_refs(x, dialect, depth)),
                FunctionArg::Other => rest,
            }
        }
    }
}

/// The bare identifiers of `e` at depth `depth`: identifiers not qualified with a
/// table name, outside subqueries.
pub open spec fn simple_idents(e: SqlExpr, depth: nat) -> Set<Seq<char>>
    decreases MAX_RECURSION_DEPTH + 1 - depth, 0nat,
{
    if depth > MAX_RECURSION_DEPTH {
        Set::empty()
    } else {
        let d = depth + 1;
        match e {
            SqlExpr::Identifier(name) => set![name@],
            SqlExpr::Wrapped(_, inner) => simple_idents(*inner, d),
            SqlExpr::Pair(_, left, right) => simple_idents(*left, d) + simple_idents(*right, d),
            SqlExpr::Between(x, low, high) => simple_idents(*x, d) + (simple_idents(*low, d) + simple_idents(*high, d)),
            SqlExpr::InList(x, list) => simple_idents(*x, d) + list_idents(list@, d),
            SqlExpr::Tuple(list) => list_idents(list@, d),
            SqlExpr::Function(_, args) => match args {
                FunctionArgs::List(list, _) => arg_idents(list@, d),
                _ => Set::empty(),
            },
            SqlExpr::Case(operand, conditions, else_result) => (match operand {
                Some(op) => simple_idents(*op, d),
                None => Set::empty(),
            }) + (when_idents(conditions@, d) + match else_result {
                Some(el) => simple_idents(*el, d),
                None => Set::empty(),
            }),
            SqlExpr::Substring(x, from, len) => simple_idents(*x, d) + ((match from {
                Some(f) => simple_idents(*f, d),
                None => Set::empty(),
            }) + match len {
                Some(l) => simple_idents(*l, d),
                None => Set::empty(),
            }),
            _ => Set::empty(),
        }
    }
}

/// The bare identifiers of the expressions of `list`.
pub open spec fn list_idents(list: Seq<SqlExpr>, depth: nat) -> Set<Seq<char>>
    decreases MAX_RECURSION_DEPTH + 1 - depth, list.len() + 1,
{
    if list.len() == 0 {
        Set::empty()
    } else {
        list_idents(list.drop_last(), depth) + simple_idents(list.last(), depth)
    }
}

/// The bare identifiers of the `WHEN` conditions and results of a `CASE`.
pub open spec fn when_idents(list: Seq<(SqlExpr, SqlExpr)>, depth: nat) -> Set<Seq<char>>
    decreases MAX_RECURSION_DEPTH + 1 - depth, list.len() + 1,
{
    if list.len() == 0 {
        Set::empty()
    } else {
        when_idents(list.drop_last(), depth) + (simple_idents(list.last().0, depth) + simple_idents(list.last().1, depth))
    }
}

/// The bare identifiers of the expression arguments of `list`.
pub open spec fn arg_idents(list: Seq<FunctionArg>, depth: nat) -> Set<Seq<char>>
    decreases MAX_RECURSION_DEPTH + 1 - depth, list.len() + 1,
{
    if list.len() == 0 {
        Set::empty()
    } else {
        arg_idents(list.drop_last(), depth) + match list.last() {
            FunctionArg::Expr(x) => simple_idents(x, depth),
            FunctionArg::Other => Set::empty(),
        }
    }
}

} // verus!

verus! {

/// Analyzes SQL expressions to extract column references, detect aggregations and
/// capture filter predicates; it borrows the parent analyzer, for schema information,
/// and the statement context that the lineage graph is built in.
pub struct ExpressionAnalyzer<'a> {
    pub analyzer: &'a mut Analyzer,
    pub ctx: &'a mut StatementContext,
}

impl<'a> ExpressionAnalyzer<'a> {
    /// Creates a new expression analyzer borrowing the parent analyzer and statement context.
    pub fn new(analyzer: &'a mut Analyzer, ctx: &'a mut StatementContext) -> (r: ExpressionAnalyzer<'a>)
        ensures
            *r.analyzer == *old(analyzer),
            *r.ctx == *old(ctx),
            *final(analyzer) == *final(r.analyzer),
            *final(ctx) == *final(r.ctx),
    {
        ExpressionAnalyzer { analyzer, ctx }
    }
}

/// Whether `name` is a pseudocolumn of `dialect`, compared case-insensitively.
fn pseudocolumn(dialect: Dialect, name: &str) -> (r: bool)
    ensures
        r == is_pseudocolumn(dialect, name@),
{
    let pcs = dialect.pseudocolumns();
    let lower = to_ascii_lowercase(name);
    let mut i: usize = 0;
    while i < pcs.len()
        invariant
            pcs@ == spec_pseudocolumns(dialect),
            lower@ == ascii_lower(name@),
            0 <= i <= pcs@.len(),
            forall|j: int| 0 <= j < i ==> ascii_lower((#[trigger] pcs@[j])@) != ascii_lower(name@),
        decreases pcs@.len() - i,
    {
        let p = to_ascii_lowercase(pcs[i]);
        if p == lower {
            return true;
        }
        i = i + 1;
    }
    false
}

/// The first `n` parts of a qualified name joined with `.`.
fn join_parts(parts: &Vec<String>, n: usize) -> (r: String)
    requires
        n <= parts@.len(),
    ensures
        r@ == join_dotted(parts@.map_values(|p: String| p@).take(n as int)),
{
    let ghost views = parts@.map_values(|p: String| p@);
    let mut out = string_of("");
    proof {
        reveal_strlit("");
        reveal_strlit(".");
        assert(views.take(0) =~= Seq::<Seq<char>>::empty());
    }
    let mut i: usize = 0;
    while i < n
        invariant
            n <= parts@.len(),
            views == parts@.map_values(|p: String| p@),
            0 <= i <= n,
            out@ == join_dotted(views.take(i as int)),
        decreases n - i,
    {
        proof {
            assert(views.take(i + 1).drop_last() =~= views.take(i as int));
            assert(views.take(i + 1).last() == parts@[i as int]@);
        }
        if i > 0 {
            out.append(".");
        }
        out.append(parts[i].as_str());
        proof {
            if i == 0 {
                assert(views.take(1) =~= seq![parts@[0]@]);
            }
        }
        i = i + 1;
    }
    out
}

/// Whether `skip` holds `x`.
fn holds_index(skip: &[usize], x: usize) -> (r: bool)
    ensures
        r == skip@.contains(x),
{
    let mut i: usize = 0;
    while i < skip.len()
        invariant
            0 <= i <= skip@.len(),
            forall|j: int| 0 <= j < i ==> skip@[j] != x,
        decreases skip@.len() - i,
    {
        if skip[i] == x {
            assert(skip@[i as int] == x);
            return true;
        }
        i = i + 1;
    }
    false
}

impl<'a> ExpressionAnalyzer<'a> {
    /// Collects the column references of `expr` into `refs`, in order, and reports
    /// whether the depth limit cut the traversal short.
    ///
    /// Dialect pseudocolumns (such as Oracle `ROWNUM`) are not column references; the
    /// arguments a dialect's function takes as keywords (such as the unit of
    /// `DATEDIFF`) are skipped; subqueries are left to their own analysis.
    #[verifier::spinoff_prover]
    #[verifier::rlimit(60)]
    pub fn collect_column_refs(expr: &SqlExpr, refs: &mut Vec<ColumnRef>, dialect: Dialect, depth: usize) -> (limited: bool)
        ensures
            final(refs).deep_view() == old(refs).deep_view() + column_refs(*expr, dialect, depth as nat).0,
            limited == column_refs(*expr, dialect, depth as nat).1,
        decreases MAX_RECURSION_DEPTH + 1 - depth, 0nat,
    {
        let ghost start = refs.deep_view();
        if depth > MAX_RECURSION_DEPTH {
            assert(refs.deep_view() =~= start + Seq::<(Option<Seq<char>>, Seq<char>)>::empty());
            return true;
        }
        let next_depth = depth + 1;
        let ghost d = next_depth as nat;
        match expr {
            SqlExpr::Identifier(name) => {
                if !pseudocolumn(dialect, name.as_str()) {
                    refs.push(ColumnRef { table: None, column: name.clone() });
                    assert(refs.deep_view() =~= start + seq![(None::<Seq<char>>, name@)]);
                } else {
                    assert(refs.deep_view() =~= start + Seq::<(Option<Seq<char>>, Seq<char>)>::empty());
                }
                false
            },
            SqlExpr::CompoundIdentifier(parts) => {
                if parts.len() >= 2 {
                    let n = parts.len();
                    let table = join_parts(parts, n - 1);
                    let column = parts[n - 1].clone();
                    let ghost views = parts@.map_values(|p: String| p@);
                    assert(views.drop_last() =~= views.take(n - 1));
                    refs.push(ColumnRef { table: Some(table), column });
                    assert(refs.deep_view() =~= start + seq![(Some(join_dotted(views.drop_last())), views.last())]);
                } else {
                    assert(refs.deep_view() =~= start + Seq::<(Option<Seq<char>>, Seq<char>)>::empty());
                }
                false
            },
            SqlExpr::Wrapped(kind, inner) => {
                match kind {
                    WrapKind::UnaryOp | WrapKind::Cast | WrapKind::Nested | WrapKind::Extract | WrapKind::IsNull
                    | WrapKind::IsNotNull | WrapKind::IsFalse | WrapKind::IsNotFalse | WrapKind::IsTrue
                    | WrapKind::IsNotTrue => Self::collect_column_refs(inner, refs, dialect, next_depth),
                    _ => {
                        assert(refs.deep_view() =~= start + Seq::<(Option<Seq<char>>, Seq<char>)>::empty());
                        false
                    },
                }
            },
            SqlExpr::Pair(kind, left, right) => {
                match kind {
                    PairKind::BinaryOp | PairKind::Like | PairKind::ILike => {
                        let a = Self::collect_column_refs(left, refs, dialect, next_depth);
                        let b = Self::collect_column_refs(right, refs, dialect, next_depth);
                        assert(refs.deep_view() =~= start + (column_refs(**left, dialect, d).0 + column_refs(**right, dialect, d).0));
                        a || b
                    },
                    _ => {
                        assert(refs.deep_view() =~= start + Seq::<(Option<Seq<char>>, Seq<char>)>::empty());
                        false
                    },
                }
            },
            SqlExpr::Between(x, low, high) => {
                let a = Self::collect_column_refs(x, refs, dialect, next_depth);
                let b = Self::collect_column_refs(low, refs, dialect, next_depth);
                let c = Self::collect_column_refs(high, refs, dialect, next_depth);
                assert(refs.deep_view() =~= start + (column_refs(**x, dialect, d).0 + (column_refs(**low, dialect, d).0
                    + column_refs(**high, dialect, d).0)));
                a || (b || c)
            },
            SqlExpr::InList(x, list) => {
                let a = Self::collect_column_refs(x, refs, dialect, next_depth);
                let ghost mid = refs.deep_view();
                let b = Self::collect_list_refs(list, refs, dialect, next_depth);
                assert(refs.deep_view() =~= start + (column_refs(**x, dialect, d).0 + list_refs(list@, dialect, d).0));
                a || b
            },
            SqlExpr::Tuple(list) => Self::collect_list_refs(list, refs, dialect, next_depth),
            SqlExpr::Function(name, args) => {
                match args {
                    FunctionArgs::List(list, _) => {
                        let skip = skip_args_for_function(dialect, name.as_str());
                        Self::collect_arg_refs(list, skip, refs, dialect, next_depth)
                    },
                    _ => {
                        assert(refs.deep_view() =~= start + Seq::<(Option<Seq<char>>, Seq<char>)>::empty());
                        false
                    },
                }
            },
            SqlExpr::Case(operand, conditions, else_result) => {
                let a = match operand {
                    Some(op) => Self::collect_column_refs(op, refs, dialect, next_depth),
                    None => false,
                };
                let ghost after_operand = refs.deep_view();
                let b = Self::collect_when_refs(conditions, refs, dialect, next_depth);
                let ghost after_when = refs.deep_view();
                let c = match else_result {
                    Some(el) => Self::collect_column_refs(el, refs, dialect, next_depth),
                    None => false,
                };
                proof {
                    let op_refs = match operand {
                        Some(op) => column_refs(**op, dialect, d),
                        None => (Seq::<(Option<Seq<char>>, Seq<char>)>::empty(), false),
                    };
                    let el_refs = match else_result {
                        Some(el) => column_refs(**el, dialect, d),
                        None => (Seq::<(Option<Seq<char>>, Seq<char>)>::empty(), false),
                    };
                    assert(after_operand =~= start + op_refs.0);
                    assert(refs.deep_view() =~= after_when + el_refs.0);
                    assert(refs.deep_view() =~= start + (op_refs.0 + (when_refs(conditions@, dialect, d).0 + el_refs.0)));
                }
                a || (b || c)
            },
            _ => {
                assert(refs.deep_view() =~= start + Seq::<(Option<Seq<char>>, Seq<char>)>::empty());
                false
            },
        }
    }

    /// Collects the column references of each expression of `list` in turn.
    fn collect_list_refs(list: &Vec<SqlExpr>, refs: &mut Vec<ColumnRef>, dialect: Dialect, depth: usize) -> (limited: bool)
        requires
            depth <= MAX_RECURSION_DEPTH + 1,
        ensures
            final(refs).deep_view() == old(refs).deep_view() + list_refs(list@, dialect, depth as nat).0,
            limited == list_refs(list@, dialect, depth as nat).1,
        decreases MAX_RECURSION_DEPTH + 1 - depth, 1nat,
    {
        let ghost start = refs.deep_view();
        let mut limited = false;
        let mut i: usize = 0;
        assert(list@.take(0) =~= Seq::<SqlExpr>::empty());
        while i < list.len()
            invariant
                depth <= MAX_RECURSION_DEPTH + 1,
                0 <= i <= list@.len(),
                refs.deep_view() == start + list_refs(list@.take(i as int), dialect, depth as nat).0,
                limited == list_refs(list@.take(i as int), dialect, depth as nat).1,
            decreases list@.len() - i,
        {
            let ghost before = refs.deep_view();
            let r = Self::collect_column_refs(&list[i], refs, dialect, depth);
            proof {
                assert(list@.take(i + 1).drop_last() =~= list@.take(i as int));
                assert(list@.take(i + 1).last() == list@[i as int]);
                assert(refs.deep_view() =~= start + (list_refs(list@.take(i as int), dialect, depth as nat).0
                    + column_refs(list@[i as int], dialect, depth as nat).0));
            }
            limited = limited || r;
            i = i + 1;
        }
        assert(list@.take(i as int) =~= list@);
        limited
    }

    /// Collects the column references of the `WHEN` conditions and results of a `CASE`.
    fn collect_when_refs(list: &Vec<(SqlExpr, SqlExpr)>, refs: &mut Vec<ColumnRef>, dialect: Dialect, depth: usize) -> (limited: bool)
        requires
            depth <= MAX_RECURSION_DEPTH + 1,
        ensures
            final(refs).deep_view() == old(refs).deep_view() + when_refs(list@, dialect, depth as nat).0,
            limited == when_refs(list@, dialect, depth as nat).1,
        decreases MAX_RECURSION_DEPTH + 1 - depth, 1nat,
    {
        let ghost start = refs.deep_view();
        let mut limited = false;
        let mut i: usize = 0;
        assert(list@.take(0) =~= Seq::<(SqlExpr, SqlExpr)>::empty());
        while i < list.len()
            invariant
                depth <= MAX_RECURSION_DEPTH + 1,
                0 <= i <= list@.len(),
                refs.deep_view() == start + when_refs(list@.take(i as int), dialect, depth as nat).0,
                limited == when_refs(list@.take(i as int), dialect, depth as nat).1,
            decreases list@.len() - i,
        {
            let a = Self::collect_column_refs(&list[i].0, refs, dialect, depth);
            let b = Self::collect_column_refs(&list[i].1, refs, dialect, depth);
            proof {
                assert(list@.take(i + 1).drop_last() =~= list@.take(i as int));
                assert(list@.take(i + 1).last() == list@[i as int]);
                assert(refs.deep_view() =~= start + (when_refs(list@.take(i as int), dialect, depth as nat).0
                    + (column_refs(list@[i as int].0, dialect, depth as nat).0 + column_refs(list@[i as int].1, dialect, depth as nat).0)));
            }
            limited = limited || (a || b);
            i = i + 1;
        }
        assert(list@.take(i as int) =~= list@);
        limited
    }

    /// Collects the column references of the function arguments of `list`, except
    /// those at positions in `skip`.
    fn collect_arg_refs(list: &Vec<FunctionArg>, skip: &[usize], refs: &mut Vec<ColumnRef>, dialect: Dialect, depth: usize) -> (limited: bool)
        requires
            depth <= MAX_RECURSION_DEPTH + 1,
        ensures
            final(refs).deep_view() == old(refs).deep_view() + arg_refs(list@, 0, skip@, dialect, depth as nat).0,
            limited == arg_refs(list@, 0, skip@, dialect, depth as nat).1,
        decreases MAX_RECURSION_DEPTH + 1 - depth, 1nat,
    {
        let ghost start = refs.deep_view();
        let mut limited = false;
        let mut i: usize = 0;
        assert(list@.take(0) =~= Seq::<FunctionArg>::empty());
        while i < list.len()
            invariant
                depth <= MAX_RECURSION_DEPTH + 1,
                0 <= i <= list@.len(),
                refs.deep_view() == start + arg_refs(list@.take(i as int), 0, skip@, dialect, depth as nat).0,
                limited == arg_refs(list@.take(i as int), 0, skip@, dialect, depth as nat).1,
            decreases list@.len() - i,
        {
            proof {
                assert(list@.take(i + 1).drop_last() =~= list@.take(i as int));
                assert(list@.take(i + 1).last() == list@[i as int]);
            }
            if !holds_index(skip, i) {
                match &list[i] {
                    FunctionArg::Expr(x) => {
                        let ghost before = refs.deep_view();
                        let r = Self::collect_column_refs(x, refs, dialect, depth);
                        assert(refs.deep_view() =~= start + (arg_refs(list@.take(i as int), 0, skip@, dialect, depth as nat).0
                            + column_refs(*x, dialect, depth as nat).0));
                        limited = limited || r;
                    },
                    FunctionArg::Other => {},
                }
            }
            i = i + 1;
        }
        assert(list@.take(i as int) =~= list@);
        limited
    }

    /// Extracts all column references from an expression (dialect-aware), with whether
    /// the depth limit cut the traversal short.
    pub fn extract_column_refs_with_dialect(expr: &SqlExpr, dialect: Dialect) -> (r: (Vec<ColumnRef>, bool))
        ensures
            r.0.deep_view() == column_refs(*expr, dialect, 0).0,
            r.1 == column_refs(*expr, dialect, 0).1,
    {
        let mut refs: Vec<ColumnRef> = Vec::new();
        let limited = Self::collect_column_refs(expr, &mut refs, dialect, 0);
        assert(refs.deep_view() =~= Seq::<(Option<Seq<char>>, Seq<char>)>::empty() + column_refs(*expr, dialect, 0).0);
        (refs, limited)
    }
}

impl<'a> ExpressionAnalyzer<'a> {
    /// Collects the bare identifiers of `expr` into `identifiers`: identifiers not
    /// qualified with a table name, outside subqueries.
    #[verifier::spinoff_prover]
    #[verifier::rlimit(60)]
    pub fn collect_simple_identifiers(expr: &SqlExpr, identifiers: &mut KeyMap<String, ()>, depth: usize)
        requires
            old(identifiers).wf(),
        ensures
            final(identifiers).wf(),
            final(identifiers).as_map().dom() == old(identifiers).as_map().dom() + simple_idents(*expr, depth as nat),
        decreases MAX_RECURSION_DEPTH + 1 - depth, 0nat,
    {
        let ghost start = identifiers.as_map().dom();
        if depth > MAX_RECURSION_DEPTH {
            assert(identifiers.as_map().dom() =~= start + Set::<Seq<char>>::empty());
            return;
        }
        let next_depth = depth + 1;
        let ghost d = next_depth as nat;
        match expr {
            SqlExpr::Identifier(name) => {
                identifiers.insert(name.clone(), ());
                assert(identifiers.as_map().dom() =~= start + set![name@]);
            },
            SqlExpr::Wrapped(_, inner) => Self::collect_simple_identifiers(inner, identifiers, next_depth),
            SqlExpr::Pair(_, left, right) => {
                Self::collect_simple_identifiers(left, identifiers, next_depth);
                Self::collect_simple_identifiers(right, identifiers, next_depth);
                assert(identifiers.as_map().dom() =~= start + (simple_idents(**left, d) + simple_idents(**right, d)));
            },
            SqlExpr::Between(x, low, high) => {
                Self::collect_simple_identifiers(x, identifiers, next_depth);
                Self::collect_simple_identifiers(low, identifiers, next_depth);
                Self::collect_simple_identifiers(high, identifiers, next_depth);
                assert(identifiers.as_map().dom() =~= start + (simple_idents(**x, d) + (simple_idents(**low, d)
                    + simple_idents(**high, d))));
            },
            SqlExpr::InList(x, list) => {
                Self::collect_simple_identifiers(x, identifiers, next_depth);
                Self::collect_list_identifiers(list, identifiers, next_depth);
                assert(identifiers.as_map().dom() =~= start + (simple_idents(**x, d) + list_idents(list@, d)));
            },
            SqlExpr::Tuple(list) => Self::collect_list_identifiers(list, identifiers, next_depth),
            SqlExpr::Function(_, args) => match args {
                FunctionArgs::List(list, _) => Self::collect_arg_identifiers(list, identifiers, next_depth),
                _ => {
                    assert(identifiers.as_map().dom() =~= start + Set::<Seq<char>>::empty());
                },
            },
            SqlExpr::Case(operand, conditions, else_result) => {
                match operand {
                    Some(op) => Self::collect_simple_identifiers(op, identifiers, next_depth),
                    None => {},
                }
                let ghost after_operand = identifiers.as_map().dom();
                Self::collect_when_identifiers(conditions, identifiers, next_depth);
                let ghost after_when = identifiers.as_map().dom();
                match else_result {
                    Some(el) => Self::collect_simple_identifiers(el, identifiers, next_depth),
                    None => {},
                }
                proof {
                    let op_ids = match operand {
                        Some(op) => simple_idents(**op, d),
                        None => Set::<Seq<char>>::empty(),
                    };
                    let el_ids = match else_result {
                        Some(el) => simple_idents(**el, d),
                        None => Set::<Seq<char>>::empty(),
                    };
                    assert(after_operand =~= start + op_ids);
                    assert(identifiers.as_map().dom() =~= after_when + el_ids);
                    assert(identifiers.as_map().dom() =~= start + (op_ids + (when_idents(conditions@, d) + el_ids)));
                }
            },
            SqlExpr::Substring(x, from, len) => {
                Self::collect_simple_identifiers(x, identifiers, next_depth);
                let ghost after_x = identifiers.as_map().dom();
                match from {
                    Some(f) => Self::collect_simple_identifiers(f, identifiers, next_depth),
                    None => {},
                }
                let ghost after_from = identifiers.as_map().dom();
                match len {
                    Some(l) => Self::collect_simple_identifiers(l, identifiers, next_depth),
                    None => {},
                }
                proof {
                    let from_ids = match from {
                        Some(f) => simple_idents(**f, d),
                        None => Set::<Seq<char>>::empty(),
                    };
                    let len_ids = match len {
                        Some(l) => simple_idents(**l, d),
                        None => Set::<Seq<char>>::empty(),
                    };
                    assert(after_from =~= after_x + from_ids);
                    assert(identifiers.as_map().dom() =~= after_from + len_ids);
                    assert(identifiers.as_map().dom() =~= start + (simple_idents(**x, d) + (from_ids + len_ids)));
                }
            },
            _ => {
                assert(identifiers.as_map().dom() =~= start + Set::<Seq<char>>::empty());
            },
        }
    }

    /// Collects the bare identifiers of the expressions of `list`.
    fn collect_list_identifiers(list: &Vec<SqlExpr>, identifiers: &mut KeyMap<String, ()>, depth: usize)
        requires
            old(identifiers).wf(),
            depth <= MAX_RECURSION_DEPTH + 1,
        ensures
            final(identifiers).wf(),
            final(identifiers).as_map().dom() == old(identifiers).as_map().dom() + list_idents(list@, depth as nat),
        decreases MAX_RECURSION_DEPTH + 1 - depth, 1nat,
    {
        let ghost start = identifiers.as_map().dom();
        let mut i: usize = 0;
        assert(list@.take(0) =~= Seq::<SqlExpr>::empty());
        assert(identifiers.as_map().dom() =~= start + Set::<Seq<char>>::empty());
        while i < list.len()
            invariant
                identifiers.wf(),
                depth <= MAX_RECURSION_DEPTH + 1,
                0 <= i <= list@.len(),
                identifiers.as_map().dom() == start + list_idents(list@.take(i as int), depth as nat),
            decreases list@.len() - i,
        {
            Self::collect_simple_identifiers(&list[i], identifiers, depth);
            proof {
                assert(list@.take(i + 1).drop_last() =~= list@.take(i as int));
                assert(list@.take(i + 1).last() == list@[i as int]);
                assert(identifiers.as_map().dom() =~= start + (list_idents(list@.take(i as int), depth as nat)
                    + simple_idents(list@[i as int], depth as nat)));
            }
            i = i + 1;
        }
        assert(list@.take(i as int) =~= list@);
    }

    /// Collects the bare identifiers of the `WHEN` conditions and results of a `CASE`.
    fn collect_when_identifiers(list: &Vec<(SqlExpr, SqlExpr)>, identifiers: &mut KeyMap<String, ()>, depth: usize)
        requires
            old(identifiers).wf(),
            depth <= MAX_RECURSION_DEPTH + 1,
        ensures
            final(identifiers).wf(),
            final(identifiers).as_map().dom() == old(identifiers).as_map().dom() + when_idents(list@, depth as nat),
        decreases MAX_RECURSION_DEPTH + 1 - depth, 1nat,
    {
        let ghost start = identifiers.as_map().dom();
        let mut i: usize = 0;
        assert(list@.take(0) =~= Seq::<(SqlExpr, SqlExpr)>::empty());
        assert(identifiers.as_map().dom() =~= start + Set::<Seq<char>>::empty());
        while i < list.len()
            invariant
                identifiers.wf(),
                depth <= MAX_RECURSION_DEPTH + 1,
                0 <= i <= list@.len(),
                identifiers.as_map().dom() == start + when_idents(list@.take(i as int), depth as nat),
            decreases list@.len() - i,
        {
            Self::collect_simple_identifiers(&list[i].0, identifiers, depth);
            Self::collect_simple_identifiers(&list[i].1, identifiers, depth);
            proof {
                assert(list@.take(i + 1).drop_last() =~= list@.take(i as int));
                assert(list@.take(i + 1).last() == list@[i as int]);
                assert(identifiers.as_map().dom() =~= start + (when_idents(list@.take(i as int), depth as nat)
                    + (simple_idents(list@[i as int].0, depth as nat) + simple_idents(list@[i as int].1, depth as nat))));
            }
            i = i + 1;
        }
        assert(list@.take(i as int) =~= list@);
    }

    /// Collects the bare identifiers of the expression arguments of `list`.
    fn collect_arg_identifiers(list: &Vec<FunctionArg>, identifiers: &mut KeyMap<String, ()>, depth: usize)
        requires
            old(identifiers).wf(),
            depth <= MAX_RECURSION_DEPTH + 1,
        ensures
            final(identifiers).wf(),
            final(identifiers).as_map().dom() == old(identifiers).as_map().dom() + arg_idents(list@, depth as nat),
        decreases MAX_RECURSION_DEPTH + 1 - depth, 1nat,
    {
        let ghost start = identifiers.as_map().dom();
        let mut i: usize = 0;
        assert(list@.take(0) =~= Seq::<FunctionArg>::empty());
        assert(identifiers.as_map().dom() =~= start + Set::<Seq<char>>::empty());
        while i < list.len()
            invariant
                identifiers.wf(),
                depth <= MAX_RECURSION_DEPTH + 1,
                0 <= i <= list@.len(),
                identifiers.as_map().dom() == start + arg_idents(list@.take(i as int), depth as nat),
            decreases list@.len() - i,
        {
            proof {
                assert(list@.take(i + 1).drop_last() =~= list@.take(i as int));
                assert(list@.take(i + 1).last() == list@[i as int]);
            }
            match &list[i] {
                FunctionArg::Expr(x) => {
                    Self::collect_simple_identifiers(x, identifiers, depth);
                    assert(identifiers.as_map().dom() =~= start + (arg_idents(list@.take(i as int), depth as nat)
                        + simple_idents(*x, depth as nat)));
                },
                FunctionArg::Other => {
                    assert(identifiers.as_map().dom() =~= start + (arg_idents(list@.take(i as int), depth as nat)
                        + Set::<Seq<char>>::empty()));
                },
            }
            i = i + 1;
        }
        assert(list@.take(i as int) =~= list@);
    }

    /// Extracts the bare identifiers of an expression: identifiers not qualified with a
    /// table name, outside subqueries. Used for alias visibility checks.
    pub fn extract_simple_identifiers(expr: &SqlExpr) -> (r: KeyMap<String, ()>)
        ensures
            r.wf(),
            r.as_map().dom() == simple_idents(*expr, 0),
    {
        let mut identifiers: KeyMap<String, ()> = KeyMap::new();
        Self::collect_simple_identifiers(expr, &mut identifiers, 0);
        assert(identifiers.as_map().dom() =~= Set::<Seq<char>>::empty() + simple_idents(*expr, 0));
        identifiers
    }
}

} // verus!
