//! Filter localisation: a WHERE or HAVING predicate is split at its top-level
//! `AND`s and each conjunct is attached to the one relation whose columns it
//! reads.

use vstd::prelude::*;

use super::context::{opt_chars, pending_for, StatementContext};
use super::expression::{column_refs, ExpressionAnalyzer, SqlExpr};
use super::projection::{opt_as_str, warnings_appended};
use super::query::{candidate_tables, scope_tables};
use super::resolution::{
    column_table_warning, filter_column_table, instance_node_for, issue_pushed, issues_appended,
    law_filter_routing_extends_lineage_resolution, law_unresolved_columns_are_reported,
};
use super::wildcard::lemma_issues_appended_trans;
use crate::issue_codes::UNRESOLVED_REFERENCE;
use crate::types::Severity;
use super::Analyzer;
use crate::types::{FilterClauseType, FilterView};

verus! {

/// A filter predicate as far as localisation is concerned: its top-level `AND`s,
/// and for each conjunct the expression with its SQL text as the parser prints it.
#[derive(Debug)]
pub enum SqlPredicate {
    And(Box<SqlPredicate>, Box<SqlPredicate>),
    Leaf(SqlExpr, String),
}

/// The conjuncts of a predicate, left to right, with their SQL text.
pub open spec fn conjuncts(p: SqlPredicate) -> Seq<(SqlExpr, Seq<char>)>
    decreases p,
{
    match p {
        SqlPredicate::And(l, r) => conjuncts(*l) + conjuncts(*r),
        SqlPredicate::Leaf(e, t) => seq![(e, t@)],
    }
}

/// `s` with `x` added at the end unless it is there.
pub open spec fn add_once(s: Seq<Seq<char>>, x: Seq<char>) -> Seq<Seq<char>> {
    if s.contains(x) {
        s
    } else {
        s.push(x)
    }
}

/// Where the column references `refs` of a conjunct route it: the tables reached
/// through unqualified or instance-less references, the instance nodes reached
/// through qualifiers, every table referenced, each in order of first reference,
/// and the warnings of references that resolve to no table.
pub open spec fn filter_routes(
    a: Analyzer,
    ctx: StatementContext,
    refs: Seq<(Option<Seq<char>>, Seq<char>)>,
) -> (Seq<Seq<char>>, Seq<Seq<char>>, Seq<Seq<char>>, Seq<Seq<char>>)
    decreases refs.len(),
{
    if refs.len() == 0 {
        (Seq::empty(), Seq::empty(), Seq::empty(), Seq::empty())
    } else {
        let rest = filter_routes(a, ctx, refs.drop_last());
        let x = refs.last();
        match filter_column_table(a, ctx, x.0, x.1) {
            Some(tc) => {
                let referenced = add_once(rest.2, tc);
                match x.0 {
                    Some(q) => match instance_node_for(a, ctx, q) {
                        Some(n) => (rest.0, add_once(rest.1, n), referenced, rest.3),
                        None => (add_once(rest.0, tc), rest.1, referenced, rest.3),
                    },
                    None => (add_once(rest.0, tc), rest.1, referenced, rest.3),
                }
            },
            None => (
                rest.0,
                rest.1,
                rest.2,
                match column_table_warning(a, ctx, x.0, x.1) {
                    Some(m) => rest.3.push(m),
                    None => rest.3,
                },
            ),
        }
    }
}

/// The tables a conjunct is attached to: those it routes to, or, when its column
/// references resolve nowhere and the current scope has a single table, that table.
pub open spec fn filter_tables(a: Analyzer, ctx: StatementContext, refs: Seq<(Option<Seq<char>>, Seq<char>)>) -> Seq<Seq<char>> {
    let routes = filter_routes(a, ctx, refs);
    if routes.0.len() == 0 && routes.1.len() == 0 && refs.len() > 0 && scope_tables(ctx).len() == 1 {
        seq![scope_tables(ctx)[0]]
    } else {
        routes.0
    }
}

/// `m` with `fv` appended to the predicates of each key of `keys` in turn.
pub open spec fn filters_for_all(m: Map<Seq<char>, Seq<FilterView>>, keys: Seq<Seq<char>>, fv: FilterView) -> Map<Seq<char>, Seq<FilterView>>
    decreases keys.len(),
{
    if keys.len() == 0 {
        m
    } else {
        let m1 = filters_for_all(m, keys.drop_last(), fv);
        m1.insert(keys.last(), pending_for(m1, keys.last()).push(fv))
    }
}

/// The pending table filters, pending instance filters and warnings of a capture.
pub struct FilterState {
    pub tables: Map<Seq<char>, Seq<FilterView>>,
    pub instances: Map<Seq<char>, Seq<FilterView>>,
    pub warnings: Seq<Seq<char>>,
}

/// The state after one conjunct with SQL text `text` and column references `refs`:
/// a conjunct that references several tables is attached nowhere; otherwise it
/// is attached to its tables, or, when it reaches none, to its instance nodes.
pub open spec fn conjunct_step(
    a: Analyzer,
    ctx: StatementContext,
    st: FilterState,
    refs: Seq<(Option<Seq<char>>, Seq<char>)>,
    text: Seq<char>,
    clause: FilterClauseType,
) -> FilterState {
    let routes = filter_routes(a, ctx, refs);
    let warnings = st.warnings + routes.3;
    let tables = filter_tables(a, ctx, refs);
    let fv = FilterView { expression: text, clause_type: clause };
    if routes.2.len() > 1 {
        FilterState { warnings, ..st }
    } else if tables.len() > 0 {
        FilterState { tables: filters_for_all(st.tables, tables, fv), warnings, ..st }
    } else {
        FilterState { instances: filters_for_all(st.instances, routes.1, fv), warnings, ..st }
    }
}

/// The state after the conjuncts `conjs` in turn.
pub open spec fn captured_filters(
    a: Analyzer,
    ctx: StatementContext,
    st: FilterState,
    conjs: Seq<(SqlExpr, Seq<char>)>,
    clause: FilterClauseType,
) -> FilterState
    decreases conjs.len(),
{
    if conjs.len() == 0 {
        st
    } else {
        let before = captured_filters(a, ctx, st, conjs.drop_last(), clause);
        conjunct_step(a, ctx, before, column_refs(conjs.last().0, a.request.dialect, 0).0, conjs.last().1, clause)
    }
}

/// Resolution reads only the schema and request of the analyzer and the scopes
/// and name maps of the statement.
pub open spec fn resolution_frame(a0: Analyzer, a1: Analyzer, c0: StatementContext, c1: StatementContext) -> bool {
    &&& a0.schema == a1.schema
    &&& a0.request == a1.request
    &&& c0.scope_stack == c1.scope_stack
    &&& c0.aliased_subquery_columns == c1.aliased_subquery_columns
    &&& c0.table_aliases == c1.table_aliases
    &&& c0.cte_definitions == c1.cte_definitions
    &&& c0.subquery_aliases == c1.subquery_aliases
    &&& c0.table_node_ids == c1.table_node_ids
}

proof fn lemma_candidates_read(
    a0: Analyzer,
    a1: Analyzer,
    c0: StatementContext,
    c1: StatementContext,
    tables: Seq<Seq<char>>,
    name: Seq<char>,
)
    requires
        resolution_frame(a0, a1, c0, c1),
    ensures
        candidate_tables(a0, c0, tables, name) == candidate_tables(a1, c1, tables, name),
    decreases tables.len(),
{
    if tables.len() > 0 {
        lemma_candidates_read(a0, a1, c0, c1, tables.drop_last(), name);
    }
}

proof fn lemma_routes_read(a0: Analyzer, a1: Analyzer, c0: StatementContext, c1: StatementContext, refs: Seq<(Option<Seq<char>>, Seq<char>)>)
    requires
        resolution_frame(a0, a1, c0, c1),
    ensures
        filter_routes(a0, c0, refs) == filter_routes(a1, c1, refs),
        filter_tables(a0, c0, refs) == filter_tables(a1, c1, refs),
    decreases refs.len(),
{
    if refs.len() > 0 {
        lemma_routes_read(a0, a1, c0, c1, refs.drop_last());
        lemma_candidates_read(a0, a1, c0, c1, scope_tables(c0), a0.spec_normalize(refs.last().1));
    }
}

proof fn lemma_captured_append(
    a: Analyzer,
    ctx: StatementContext,
    st: FilterState,
    s1: Seq<(SqlExpr, Seq<char>)>,
    s2: Seq<(SqlExpr, Seq<char>)>,
    clause: FilterClauseType,
)
    ensures
        captured_filters(a, ctx, st, s1 + s2, clause) == captured_filters(a, ctx, captured_filters(a, ctx, st, s1, clause), s2, clause),
    decreases s2.len(),
{
    if s2.len() == 0 {
        assert(s1 + s2 =~= s1);
    } else {
        lemma_captured_append(a, ctx, st, s1, s2.drop_last(), clause);
        assert((s1 + s2).drop_last() =~= s1 + s2.drop_last());
        assert((s1 + s2).last() == s2.last());
    }
}

impl Analyzer {
    /// Attaches `fv` to the pending filters of each table of `keys`.
    fn add_table_filters(&self, ctx: &mut StatementContext, keys: &Vec<String>, fv_text: &String, clause: FilterClauseType)
        requires
            old(ctx).wf(),
        ensures
            final(ctx).wf(),
            final(ctx).pending_filters.as_map() == filters_for_all(
                old(ctx).pending_filters.as_map(),
                keys.deep_view(),
                FilterView { expression: fv_text@, clause_type: clause },
            ),
            *final(ctx) == (StatementContext { pending_filters: final(ctx).pending_filters, ..*old(ctx) }),
    {
        let ghost c0 = *ctx;
        let ghost fv = FilterView { expression: fv_text@, clause_type: clause };
        let ghost ks = keys.deep_view();
        let mut i: usize = 0;
        assert(ks.take(0) =~= Seq::<Seq<char>>::empty());
        while i < keys.len()
            invariant
                ctx.wf(),
                ks == keys.deep_view(),
                fv == (FilterView { expression: fv_text@, clause_type: clause }),
                0 <= i <= ks.len(),
                ctx.pending_filters.as_map() == filters_for_all(c0.pending_filters.as_map(), ks.take(i as int), fv),
                *ctx == (StatementContext { pending_filters: ctx.pending_filters, ..c0 }),
            decreases ks.len() - i,
        {
            proof {
                assert(ks.take(i + 1).drop_last() =~= ks.take(i as int));
                assert(ks.take(i + 1).last() == keys@[i as int]@);
            }
            ctx.add_filter_for_table(keys[i].as_str(), fv_text.clone(), clause);
            i = i + 1;
        }
        assert(ks.take(ks.len() as int) =~= ks);
    }

    /// Attaches `fv` to the pending filters of each instance node of `keys`.
    fn add_instance_filters(&self, ctx: &mut StatementContext, keys: &Vec<String>, fv_text: &String, clause: FilterClauseType)
        requires
            old(ctx).wf(),
        ensures
            final(ctx).wf(),
            final(ctx).pending_instance_filters.as_map() == filters_for_all(
                old(ctx).pending_instance_filters.as_map(),
                keys.deep_view(),
                FilterView { expression: fv_text@, clause_type: clause },
            ),
            *final(ctx) == (StatementContext { pending_instance_filters: final(ctx).pending_instance_filters, ..*old(ctx) }),
    {
        let ghost c0 = *ctx;
        let ghost fv = FilterView { expression: fv_text@, clause_type: clause };
        let ghost ks = keys.deep_view();
        let mut i: usize = 0;
        assert(ks.take(0) =~= Seq::<Seq<char>>::empty());
        while i < keys.len()
            invariant
                ctx.wf(),
                ks == keys.deep_view(),
                fv == (FilterView { expression: fv_text@, clause_type: clause }),
                0 <= i <= ks.len(),
                ctx.pending_instance_filters.as_map() == filters_for_all(c0.pending_instance_filters.as_map(), ks.take(i as int), fv),
                *ctx == (StatementContext { pending_instance_filters: ctx.pending_instance_filters, ..c0 }),
            decreases ks.len() - i,
        {
            proof {
                assert(ks.take(i + 1).drop_last() =~= ks.take(i as int));
                assert(ks.take(i + 1).last() == keys@[i as int]@);
            }
            ctx.add_filter_for_instance(&keys[i], fv_text.clone(), clause);
            i = i + 1;
        }
        assert(ks.take(ks.len() as int) =~= ks);
    }
}

/// Adds `x` to `v` unless `v` holds it.
fn push_once(v: &mut Vec<String>, x: String)
    ensures
        final(v).deep_view() == add_once(old(v).deep_view(), x@),
{
    let ghost s = v.deep_view();
    let mut i: usize = 0;
    while i < v.len()
        invariant
            s == v.deep_view(),
            0 <= i <= s.len(),
            forall|k: int| 0 <= k < i ==> s[k] != x@,
        decreases s.len() - i,
    {
        assert(s[i as int] == v@[i as int]@);
        if crate::text::str_eq(v[i].as_str(), x.as_str()) {
            assert(s.contains(x@));
            return;
        }
        i = i + 1;
    }
    let ghost xv = x@;
    v.push(x);
    assert(v.deep_view() =~= s.push(xv));
}

/// The conjuncts of `p`, left to right, appended to `out`.
fn collect_conjuncts<'c>(p: &'c SqlPredicate, out: &mut Vec<(&'c SqlExpr, &'c String)>)
    ensures
        final(out)@.map_values(|x: (&SqlExpr, &String)| (*x.0, x.1@)) == old(out)@.map_values(
            |x: (&SqlExpr, &String)| (*x.0, x.1@),
        ) + conjuncts(*p),
    decreases p,
{
    match p {
        SqlPredicate::And(l, r) => {
            let ghost start = out@.map_values(|x: (&SqlExpr, &String)| (*x.0, x.1@));
            collect_conjuncts(l, out);
            collect_conjuncts(r, out);
            assert(out@.map_values(|x: (&SqlExpr, &String)| (*x.0, x.1@)) =~= start + (conjuncts(**l) + conjuncts(**r)));
        },
        SqlPredicate::Leaf(e, t) => {
            let ghost start = out@;
            out.push((e, t));
            assert(out@.map_values(|x: (&SqlExpr, &String)| (*x.0, x.1@)) =~= start.map_values(
                |x: (&SqlExpr, &String)| (*x.0, x.1@),
            ) + seq![(*e, t@)]);
        },
    }
}

proof fn lemma_pushed_is_appended(
    before: Seq<crate::types::Issue>,
    after: Seq<crate::types::Issue>,
    m: Seq<char>,
    statement: usize,
)
    requires
        issue_pushed(before, after, Severity::Warning, UNRESOLVED_REFERENCE@, m, statement),
    ensures
        issues_appended(before, after, Severity::Warning, UNRESOLVED_REFERENCE@, seq![m], statement),
{
    assert(after.take(before.len() as int) =~= after.drop_last());
    assert(after[before.len() + 0int] == after.last());
}

proof fn lemma_appended_none(before: Seq<crate::types::Issue>, statement: usize)
    ensures
        issues_appended(before, before, Severity::Warning, UNRESOLVED_REFERENCE@, Seq::empty(), statement),
{
    assert(before.take(before.len() as int) =~= before);
}

impl Analyzer {
    /// Localises one conjunct of a filter predicate; see `conjunct_step`.
    pub fn capture_conjunct(&mut self, ctx: &mut StatementContext, expr: &SqlExpr, text: &String, clause: FilterClauseType)
        requires
            old(self).wf(),
            old(ctx).wf(),
        ensures
            final(self).wf(),
            final(ctx).wf(),
            *final(self) == (Analyzer { issues: final(self).issues, ..*old(self) }),
            *final(ctx) == (StatementContext {
                pending_filters: final(ctx).pending_filters,
                pending_instance_filters: final(ctx).pending_instance_filters,
                ..*old(ctx)
            }),
            ({
                let st = conjunct_step(
                    *old(self),
                    *old(ctx),
                    FilterState {
                        tables: old(ctx).pending_filters.as_map(),
                        instances: old(ctx).pending_instance_filters.as_map(),
                        warnings: Seq::empty(),
                    },
                    column_refs(*expr, old(self).request.dialect, 0).0,
                    text@,
                    clause,
                );
                &&& final(ctx).pending_filters.as_map() == st.tables
                &&& final(ctx).pending_instance_filters.as_map() == st.instances
                &&& warnings_appended(old(self).issues@, final(self).issues@, st.warnings, old(ctx).statement_index)
            }),
    {
        let ghost a0 = *self;
        let ghost c0 = *ctx;
        let (refs, _limited) = ExpressionAnalyzer::extract_column_refs_with_dialect(expr, self.request.dialect);
        let ghost rv = refs.deep_view();
        let mut tables: Vec<String> = Vec::new();
        let mut instances: Vec<String> = Vec::new();
        let mut referenced: Vec<String> = Vec::new();
        let mut i: usize = 0;
        proof {
            assert(rv.take(0) =~= Seq::<(Option<Seq<char>>, Seq<char>)>::empty());
            assert(tables.deep_view() =~= Seq::<Seq<char>>::empty());
            assert(instances.deep_view() =~= Seq::<Seq<char>>::empty());
            assert(referenced.deep_view() =~= Seq::<Seq<char>>::empty());
            lemma_appended_none(a0.issues@, c0.statement_index);
        }
        while i < refs.len()
            invariant
                self.wf(),
                ctx.wf(),
                *ctx == c0,
                rv == refs.deep_view(),
                0 <= i <= rv.len(),
                *self == (Analyzer { issues: self.issues, ..a0 }),
                tables.deep_view() == filter_routes(a0, c0, rv.take(i as int)).0,
                instances.deep_view() == filter_routes(a0, c0, rv.take(i as int)).1,
                referenced.deep_view() == filter_routes(a0, c0, rv.take(i as int)).2,
                issues_appended(a0.issues@, self.issues@, Severity::Warning, UNRESOLVED_REFERENCE@, filter_routes(a0, c0, rv.take(i as int)).3, c0.statement_index),
            decreases rv.len() - i,
        {
            let ghost a_i = *self;
            let r = &refs[i];
            assert(rv[i as int] == r.deep_view());
            proof {
                assert(rv.take(i + 1).drop_last() =~= rv.take(i as int));
                assert(rv.take(i + 1).last() == rv[i as int]);
                lemma_candidates_read(a0, a_i, c0, c0, scope_tables(c0), a0.spec_normalize(r.column@));
                law_filter_routing_extends_lineage_resolution(a0, c0, opt_chars(r.table), r.column@);
                law_unresolved_columns_are_reported(a0, c0, opt_chars(r.table), r.column@);
            }
            let q = opt_as_str(&r.table);
            assert(crate::analyzer::resolution::opt_str(q) == opt_chars(r.table));
            let tc = match self.resolve_filter_column_table(ctx, q, r.column.as_str()) {
                Some(t) => Some(t),
                None => self.resolve_column_table(ctx, q, r.column.as_str()),
            };
            proof {
                let prev = filter_routes(a0, c0, rv.take(i as int)).3;
                match filter_column_table(a0, c0, opt_chars(r.table), r.column@) {
                    Some(_) => {
                        assert(self.issues@ == a_i.issues@);
                        assert(prev + Seq::<Seq<char>>::empty() =~= prev);
                    },
                    None => match column_table_warning(a0, c0, opt_chars(r.table), r.column@) {
                        Some(m) => {
                            lemma_pushed_is_appended(a_i.issues@, self.issues@, m, c0.statement_index);
                            lemma_issues_appended_trans(a0.issues@, a_i.issues@, self.issues@, Severity::Warning, UNRESOLVED_REFERENCE@, prev, seq![m], c0.statement_index);
                            assert(prev + seq![m] =~= prev.push(m));
                        },
                        None => {
                            assert(self.issues@ == a_i.issues@);
                        },
                    },
                }
            }
            match tc {
                Some(t) => {
                    push_once(&mut referenced, t.clone());
                    match q {
                        Some(qq) => match self.resolve_instance_node_id(ctx, qq) {
                            Some(n) => push_once(&mut instances, n),
                            None => push_once(&mut tables, t),
                        },
                        None => push_once(&mut tables, t),
                    }
                },
                None => {},
            }
            i = i + 1;
        }
        assert(rv.take(rv.len() as int) =~= rv);
        let ghost routes = filter_routes(a0, c0, rv);
        if tables.len() == 0 && instances.len() == 0 && refs.len() > 0 {
            let in_scope = ctx.tables_in_current_scope();
            if in_scope.len() == 1 {
                tables.push(in_scope[0].clone());
                assert(tables.deep_view() =~= seq![scope_tables(c0)[0]]);
            }
        }
        assert(tables.deep_view() == filter_tables(a0, c0, rv));
        if referenced.len() > 1 {
            return;
        }
        if tables.len() > 0 {
            self.add_table_filters(ctx, &tables, text, clause);
        } else {
            self.add_instance_filters(ctx, &instances, text, clause);
        }
    }

    /// Splits a WHERE or HAVING predicate at its top-level `AND`s and attaches
    /// each conjunct to the one relation whose columns it reads: to its table, or
    /// to the instance node its qualifier names. A conjunct over several tables
    /// (such as a join condition) is attached nowhere; an unqualified column that
    /// no single table owns raises a warning. See `captured_filters`.
    pub fn capture_filter_predicates(&mut self, ctx: &mut StatementContext, predicate: &SqlPredicate, clause: FilterClauseType)
        requires
            old(self).wf(),
            old(ctx).wf(),
        ensures
            final(self).wf(),
            final(ctx).wf(),
            *final(self) == (Analyzer { issues: final(self).issues, ..*old(self) }),
            *final(ctx) == (StatementContext {
                pending_filters: final(ctx).pending_filters,
                pending_instance_filters: final(ctx).pending_instance_filters,
                ..*old(ctx)
            }),
            ({
                let st = captured_filters(
                    *old(self),
                    *old(ctx),
                    FilterState {
                        tables: old(ctx).pending_filters.as_map(),
                        instances: old(ctx).pending_instance_filters.as_map(),
                        warnings: Seq::empty(),
                    },
                    conjuncts(*predicate),
                    clause,
                );
                &&& final(ctx).pending_filters.as_map() == st.tables
                &&& final(ctx).pending_instance_filters.as_map() == st.instances
                &&& warnings_appended(old(self).issues@, final(self).issues@, st.warnings, old(ctx).statement_index)
            }),
    {
        let ghost a0 = *self;
        let ghost c0 = *ctx;
        let ghost st0 = FilterState {
            tables: c0.pending_filters.as_map(),
            instances: c0.pending_instance_filters.as_map(),
            warnings: Seq::empty(),
        };
        let mut conjs: Vec<(&SqlExpr, &String)> = Vec::new();
        collect_conjuncts(predicate, &mut conjs);
        let ghost cv = conjs@.map_values(|x: (&SqlExpr, &String)| (*x.0, x.1@));
        assert(cv =~= conjuncts(*predicate));
        let mut i: usize = 0;
        proof {
            assert(cv.take(0) =~= Seq::<(SqlExpr, Seq<char>)>::empty());
            lemma_appended_none(a0.issues@, c0.statement_index);
        }
        while i < conjs.len()
            invariant
                self.wf(),
                ctx.wf(),
                cv == conjs@.map_values(|x: (&SqlExpr, &String)| (*x.0, x.1@)),
                0 <= i <= cv.len(),
                *self == (Analyzer { issues: self.issues, ..a0 }),
                *ctx == (StatementContext {
                    pending_filters: ctx.pending_filters,
                    pending_instance_filters: ctx.pending_instance_filters,
                    ..c0
                }),
                ctx.pending_filters.as_map() == captured_filters(a0, c0, st0, cv.take(i as int), clause).tables,
                ctx.pending_instance_filters.as_map() == captured_filters(a0, c0, st0, cv.take(i as int), clause).instances,
                issues_appended(a0.issues@, self.issues@, Severity::Warning, UNRESOLVED_REFERENCE@, captured_filters(a0, c0, st0, cv.take(i as int), clause).warnings, c0.statement_index),
            decreases cv.len() - i,
        {
            let ghost a_i = *self;
            let ghost c_i = *ctx;
            let (e, t) = conjs[i];
            assert(cv[i as int] == (*e, t@));
            let ghost refs = column_refs(*e, a0.request.dialect, 0).0;
            proof {
                assert(cv.take(i + 1).drop_last() =~= cv.take(i as int));
                assert(cv.take(i + 1).last() == cv[i as int]);
                lemma_routes_read(a0, a_i, c0, c_i, refs);
            }
            self.capture_conjunct(ctx, e, t, clause);
            proof {
                let prev = captured_filters(a0, c0, st0, cv.take(i as int), clause);
                let routes = filter_routes(a0, c0, refs);
                lemma_issues_appended_trans(a0.issues@, a_i.issues@, self.issues@, Severity::Warning, UNRESOLVED_REFERENCE@, prev.warnings, routes.3, c0.statement_index);
            }
            i = i + 1;
        }
        assert(cv.take(cv.len() as int) =~= cv);
    }
}

/// Attaching a predicate to distinct keys appends it once to each of them and
/// leaves every other key's predicates as they were.
pub proof fn law_filters_attached_once_per_key(
    m: Map<Seq<char>, Seq<FilterView>>,
    keys: Seq<Seq<char>>,
    fv: FilterView,
    k: Seq<char>,
)
    requires
        keys.no_duplicates(),
    ensures
        keys.contains(k) ==> pending_for(filters_for_all(m, keys, fv), k) == pending_for(m, k).push(fv),
        !keys.contains(k) ==> pending_for(filters_for_all(m, keys, fv), k) == pending_for(m, k),
    decreases keys.len(),
{
    if keys.len() > 0 {
        let rest = keys.drop_last();
        assert(rest.no_duplicates());
        law_filters_attached_once_per_key(m, rest, fv, k);
        if k != keys.last() {
            assert(keys.contains(k) ==> rest.contains(k)) by {
                if keys.contains(k) {
                    let j = choose|j: int| 0 <= j < keys.len() && keys[j] == k;
                    assert(rest[j] == k);
                }
            }
            assert(rest.contains(k) ==> keys.contains(k)) by {
                if rest.contains(k) {
                    let j = choose|j: int| 0 <= j < rest.len() && rest[j] == k;
                    assert(keys[j] == k);
                }
            }
        } else {
            assert(keys[keys.len() - 1] == k);
            assert(!rest.contains(k)) by {
                if rest.contains(k) {
                    let j = choose|j: int| 0 <= j < rest.len() && rest[j] == k;
                    assert(keys[j] == keys[keys.len() - 1]);
                }
            }
        }
    }
}

/// The tables, instance nodes and referenced tables a conjunct routes to are each
/// free of repetitions, so a conjunct is attached at most once to any of them.
pub proof fn law_filter_routes_distinct(a: Analyzer, ctx: StatementContext, refs: Seq<(Option<Seq<char>>, Seq<char>)>)
    ensures
        filter_routes(a, ctx, refs).0.no_duplicates(),
        filter_routes(a, ctx, refs).1.no_duplicates(),
        filter_routes(a, ctx, refs).2.no_duplicates(),
        filter_tables(a, ctx, refs).no_duplicates(),
    decreases refs.len(),
{
    if refs.len() > 0 {
        law_filter_routes_distinct(a, ctx, refs.drop_last());
        let rest = filter_routes(a, ctx, refs.drop_last());
        assert forall|s: Seq<Seq<char>>, x: Seq<char>| s.no_duplicates() implies #[trigger] add_once(s, x).no_duplicates() by {
            if !s.contains(x) {
                let t = s.push(x);
                assert forall|i: int, j: int| 0 <= i < t.len() && 0 <= j < t.len() && i != j implies t[i] != t[j] by {
                    if i < s.len() && j < s.len() {
                    } else if i == s.len() {
                        assert(t[j] == s[j]);
                    } else {
                        assert(t[i] == s[i]);
                    }
                }
            }
        }
    }
}

} // verus!
