//! Expansion of `SELECT *` and `t.*` into output columns, or into approximate
//! lineage when the columns are not known.

use vstd::prelude::*;

use super::context::{
    find_subquery_columns, has_edge_id, opt_chars, ColumnRef, ColumnView, PendingWildcard,
    StatementContext, WildcardView,
};
use super::projection::{
    add_edge_once, graph_grows, lemma_graph_grows_keeps, lemma_graph_grows_refl, lemma_graph_grows_trans,
    output_column_added, source_warnings,
};
use super::query::{wildcard_sources, ExpandedColumnInfo};
use super::resolution::{column_table_warning, instance_node_for, issues_appended, opt_str, qualifier_target};
use super::Analyzer;
use crate::ids::{generate_edge_id, spec_column_node_id, spec_edge_id};
use crate::issue_codes::APPROXIMATE_LINEAGE;
use crate::text::string_of;
use crate::types::{Edge, EdgeType, Severity};

verus! {

/// The relations a wildcard expands: those of its qualifier (none when the
/// qualifier names a subquery), else every relation of the current scope; each
/// with the qualifier its columns are read through.
pub open spec fn wildcard_tables(a: Analyzer, ctx: StatementContext, qualifier: Option<Seq<char>>) -> Seq<(Seq<char>, Seq<char>)> {
    match qualifier {
        Some(q) => match qualifier_target(a, ctx, q) {
            Some(c) => seq![(c, q)],
            None => Seq::empty(),
        },
        None => wildcard_sources(ctx),
    }
}

/// The columns of a relation that a wildcard expands to, with their data types:
/// those of its known schema, else those of a CTE or derived table that has any.
pub open spec fn known_columns(a: Analyzer, ctx: StatementContext, canonical: Seq<char>) -> Option<Seq<(Seq<char>, Option<Seq<char>>)>> {
    if a.schema.as_map().contains_key(canonical) {
        Some(a.schema.as_map()[canonical].columns)
    } else {
        match find_subquery_columns(ctx.scope_stack@, ctx.aliased_subquery_columns.as_map(), canonical) {
            Some(cols) => if cols.len() > 0 {
                Some(cols.map_values(|c: ColumnView| (c.name, c.data_type)))
            } else {
                None
            },
            None => None,
        }
    }
}

/// The output columns the columns `cols` become under `target`.
pub open spec fn column_views(a: Analyzer, cols: Seq<(Seq<char>, Option<Seq<char>>)>, target: Option<Seq<char>>) -> Seq<ColumnView> {
    cols.map_values(
        |c: (Seq<char>, Option<Seq<char>>)|
            ColumnView {
                name: a.spec_normalize(c.0),
                data_type: c.1,
                node_id: spec_column_node_id(target, a.spec_normalize(c.0)),
            },
    )
}

/// The message of the issue raised for a relation whose columns are unknown.
pub open spec fn approximate_message(canonical: Seq<char>) -> Seq<char> {
    "SELECT * from '"@ + canonical + "' - column list unknown without schema metadata"@
}

/// The node an approximate edge of a wildcard leaves from: the instance of its
/// qualifier, else the table node of its relation.
pub open spec fn wildcard_source_node(a: Analyzer, ctx: StatementContext, canonical: Seq<char>, qualifier: Seq<char>) -> Option<Seq<char>> {
    match instance_node_for(a, ctx, qualifier) {
        Some(id) => Some(id),
        None => if ctx.table_node_ids.as_map().contains_key(canonical) {
            Some(ctx.table_node_ids.as_map()[canonical])
        } else {
            None
        },
    }
}

/// The output columns expanding `tables` adds, in order.
pub open spec fn expanded_columns(a: Analyzer, ctx: StatementContext, tables: Seq<(Seq<char>, Seq<char>)>, target: Option<Seq<char>>) -> Seq<ColumnView>
    decreases tables.len(),
{
    if tables.len() == 0 {
        Seq::empty()
    } else {
        expanded_columns(a, ctx, tables.drop_last(), target) + match known_columns(a, ctx, tables.last().0) {
            Some(cols) => column_views(a, cols, target),
            None => Seq::empty(),
        }
    }
}

/// The messages of the issues expanding `tables` raises, in order.
pub open spec fn approximation_messages(a: Analyzer, ctx: StatementContext, tables: Seq<(Seq<char>, Seq<char>)>) -> Seq<Seq<char>>
    decreases tables.len(),
{
    if tables.len() == 0 {
        Seq::empty()
    } else {
        let rest = approximation_messages(a, ctx, tables.drop_last());
        if known_columns(a, ctx, tables.last().0) is Some {
            rest
        } else {
            rest.push(approximate_message(tables.last().0))
        }
    }
}

/// The wildcards recorded for backward column inference while expanding `tables`
/// into `target`, in order.
pub open spec fn recorded_wildcards(
    a: Analyzer,
    ctx: StatementContext,
    tables: Seq<(Seq<char>, Seq<char>)>,
    target: Option<Seq<char>>,
) -> Seq<WildcardView>
    decreases tables.len(),
{
    if tables.len() == 0 {
        Seq::empty()
    } else {
        let rest = recorded_wildcards(a, ctx, tables.drop_last(), target);
        let t = tables.last();
        let names = ctx.cte_node_to_name.as_map();
        if known_columns(a, ctx, t.0) is None && target is Some && names.contains_key(target->0)
            && wildcard_source_node(a, ctx, t.0, t.1) is Some {
            rest.push(
                WildcardView {
                    source_canonical: t.0,
                    target_name: names[target->0],
                    source_node_id: wildcard_source_node(a, ctx, t.0, t.1)->0,
                },
            )
        } else {
            rest
        }
    }
}

/// Only the graph, the output columns and the recorded wildcards of `a` may differ in `b`.
pub open spec fn expansion_frame(a: StatementContext, b: StatementContext) -> bool {
    b == (StatementContext {
        nodes: b.nodes,
        node_ids: b.node_ids,
        node_index: b.node_index,
        edges: b.edges,
        edge_ids: b.edge_ids,
        output_columns: b.output_columns,
        pending_wildcards: b.pending_wildcards,
        ..a
    })
}

/// The name and data type of each column to expand.
pub open spec fn info_view(s: Seq<ExpandedColumnInfo>) -> Seq<(Seq<char>, Option<Seq<char>>)> {
    s.map_values(|c: ExpandedColumnInfo| (c.name@, opt_chars(c.data_type)))
}

pub(crate) proof fn lemma_issues_appended_trans(
    b0: Seq<crate::types::Issue>,
    b1: Seq<crate::types::Issue>,
    b2: Seq<crate::types::Issue>,
    severity: Severity,
    code: Seq<char>,
    m1: Seq<Seq<char>>,
    m2: Seq<Seq<char>>,
    statement: usize,
)
    requires
        issues_appended(b0, b1, severity, code, m1, statement),
        issues_appended(b1, b2, severity, code, m2, statement),
    ensures
        issues_appended(b0, b2, severity, code, m1 + m2, statement),
{
    let m = m1 + m2;
    assert(b2.take(b0.len() as int) =~= b2.take(b1.len() as int).take(b0.len() as int));
    assert forall|k: int| 0 <= k < m.len() implies {
        let issue = #[trigger] b2[b0.len() + k];
        &&& issue.severity == severity
        &&& issue.code@ == code
        &&& issue.message@ == m[k]
        &&& issue.span is None
        &&& issue.statement_index == Some(statement)
    } by {
        if k < m1.len() {
            assert(b2.take(b1.len() as int)[b0.len() + k] == b2[b0.len() + k]);
            assert(b1[b0.len() + k] == b2[b0.len() + k]);
        } else {
            assert(b2[b1.len() + (k - m1.len())] == b2[b0.len() + k]);
        }
    }
}

impl Analyzer {
    /// The columns a wildcard over `canonical` expands to; see `known_columns`.
    pub fn columns_to_expand(&self, ctx: &StatementContext, canonical: &String) -> (r: Option<Vec<ExpandedColumnInfo>>)
        requires
            self.wf(),
            ctx.wf(),
        ensures
            match r {
                Some(v) => known_columns(*self, *ctx, canonical@) == Some(info_view(v@)),
                None => known_columns(*self, *ctx, canonical@) is None,
            },
    {
        match self.schema.get(canonical) {
            Some(entry) => {
                let ghost cols = entry.columns.deep_view();
                let mut out: Vec<ExpandedColumnInfo> = Vec::new();
                let mut i: usize = 0;
                while i < entry.columns.len()
                    invariant
                        cols == entry.columns.deep_view(),
                        0 <= i <= cols.len(),
                        info_view(out@) == cols.take(i as int),
                    decreases cols.len() - i,
                {
                    let c = &entry.columns[i];
                    assert(cols[i as int] == c.deep_view());
                    let info = ExpandedColumnInfo::new(c.name.clone(), crate::analyzer::context::copy_opt_string(&c.data_type));
                    let ghost before = out@;
                    out.push(info);
                    assert(info_view(out@) =~= info_view(before).push((c.name@, opt_chars(c.data_type))));
                    assert(cols.take(i + 1) =~= cols.take(i as int).push(cols[i as int]));
                    i = i + 1;
                }
                assert(cols.take(cols.len() as int) =~= cols);
                Some(out)
            },
            None => match ctx.resolve_subquery_columns(canonical.as_str()) {
                Some(cols) => {
                    if cols.len() == 0 {
                        return None;
                    }
                    let ghost dv = cols.deep_view();
                    let ghost want = dv.map_values(|c: ColumnView| (c.name, c.data_type));
                    let mut out: Vec<ExpandedColumnInfo> = Vec::new();
                    let mut i: usize = 0;
                    while i < cols.len()
                        invariant
                            dv == cols.deep_view(),
                            want == dv.map_values(|c: ColumnView| (c.name, c.data_type)),
                            0 <= i <= dv.len(),
                            info_view(out@) == want.take(i as int),
                        decreases dv.len() - i,
                    {
                        let c = &cols[i];
                        assert(dv[i as int] == c.deep_view());
                        let info = ExpandedColumnInfo::new(c.name.clone(), crate::analyzer::context::copy_opt_string(&c.data_type));
                        let ghost before = out@;
                        out.push(info);
                        assert(info_view(out@) =~= info_view(before).push((c.name@, opt_chars(c.data_type))));
                        assert(want.take(i + 1) =~= want.take(i as int).push(want[i as int]));
                        i = i + 1;
                    }
                    assert(want.take(want.len() as int) =~= want);
                    Some(out)
                },
                None => None,
            },
        }
    }

    /// Expands a wildcard over one relation, read through `source_qualifier`: its
    /// known columns become output columns of `target_node`; otherwise an
    /// `APPROXIMATE_LINEAGE` note is raised and, with a target, an approximate
    /// edge from the relation is added and the wildcard is recorded for backward
    /// column inference when the target is a CTE or derived table.
    pub fn expand_wildcard_table(
        &mut self,
        ctx: &mut StatementContext,
        table_canonical: &String,
        source_qualifier: &String,
        target_node: Option<&str>,
    )
        requires
            old(self).wf(),
            old(ctx).wf(),
        ensures
            final(self).wf(),
            final(ctx).wf(),
            *final(self) == (Analyzer { issues: final(self).issues, ..*old(self) }),
            expansion_frame(*old(ctx), *final(ctx)),
            graph_grows(*old(ctx), *final(ctx)),
            final(ctx).output_columns.deep_view() == old(ctx).output_columns.deep_view() + expanded_columns(
                *old(self),
                *old(ctx),
                seq![(table_canonical@, source_qualifier@)],
                opt_str(target_node),
            ),
            issues_appended(
                old(self).issues@,
                final(self).issues@,
                Severity::Info,
                APPROXIMATE_LINEAGE@,
                approximation_messages(*old(self), *old(ctx), seq![(table_canonical@, source_qualifier@)]),
                old(ctx).statement_index,
            ),
            final(ctx).pending_wildcards.deep_view() == old(ctx).pending_wildcards.deep_view() + recorded_wildcards(
                *old(self),
                *old(ctx),
                seq![(table_canonical@, source_qualifier@)],
                opt_str(target_node),
            ),
            known_columns(*old(self), *old(ctx), table_canonical@) is None && target_node is Some
                && wildcard_source_node(*old(self), *old(ctx), table_canonical@, source_qualifier@) is Some ==> has_edge_id(
                final(ctx).edges@,
                spec_edge_id(
                    wildcard_source_node(*old(self), *old(ctx), table_canonical@, source_qualifier@)->0,
                    target_node->0@,
                ),
            ),
    {
        let ghost a0 = *self;
        let ghost c0 = *ctx;
        let ghost tables = seq![(table_canonical@, source_qualifier@)];
        let ghost tgt = opt_str(target_node);
        proof {
            assert(tables.drop_last() =~= Seq::<(Seq<char>, Seq<char>)>::empty());
            assert(tables.last() == (table_canonical@, source_qualifier@));
            lemma_graph_grows_refl(c0);
            reveal_with_fuel(expanded_columns, 2);
            reveal_with_fuel(approximation_messages, 2);
            reveal_with_fuel(recorded_wildcards, 2);
        }
        match self.columns_to_expand(ctx, table_canonical) {
            Some(columns) => {
                let ghost cols = info_view(columns@);
                let ghost views = column_views(a0, cols, tgt);
                assert(expanded_columns(a0, c0, tables, tgt) =~= views);
                let mut i: usize = 0;
                assert(self.issues@.take(a0.issues@.len() as int) =~= a0.issues@);
                while i < columns.len()
                    invariant
                        self.wf(),
                        ctx.wf(),
                        cols == info_view(columns@),
                        tgt == opt_str(target_node),
                        views == column_views(a0, cols, tgt),
                        0 <= i <= cols.len(),
                        *self == (Analyzer { issues: self.issues, ..a0 }),
                        self.issues@ == a0.issues@,
                        expansion_frame(c0, *ctx),
                        ctx.pending_wildcards == c0.pending_wildcards,
                        graph_grows(c0, *ctx),
                        ctx.output_columns.deep_view() == c0.output_columns.deep_view() + views.take(i as int),
                    decreases cols.len() - i,
                {
                    let ghost a_i = *self;
                    let ghost c_i = *ctx;
                    let info = &columns[i];
                    assert(cols[i as int] == (info.name@, opt_chars(info.data_type)));
                    let mut sources: Vec<ColumnRef> = Vec::new();
                    sources.push(ColumnRef { table: Some(source_qualifier.clone()), column: info.name.clone() });
                    let ghost refs = sources.deep_view();
                    assert(refs =~= seq![(Some(source_qualifier@), info.name@)]);
                    let data_type = crate::analyzer::context::copy_opt_string(&info.data_type);
                    let ghost dtv = opt_chars(data_type);
                    assert(dtv == opt_chars(info.data_type));
                    let column_name = info.name.as_str();
                    assert(column_name@ == info.name@);
                    self.add_output_column(ctx, column_name, sources, None, data_type, target_node, false);
                    proof {
                        let c_a = *ctx;
                        assert(refs.drop_last() =~= Seq::<(Option<Seq<char>>, Seq<char>)>::empty());
                        assert(column_table_warning(a_i, c_i, refs.last().0, refs.last().1) is None);
                        reveal_with_fuel(source_warnings, 2);
                        assert(source_warnings(a_i, c_i, refs) =~= Seq::<Seq<char>>::empty());
                        assert(refs[0].0 is Some);
                        assert(a_i.spec_normalize(info.name@) == a0.spec_normalize(cols[i as int].0));
                        assert(self.issues@ =~= a_i.issues@);
                        lemma_graph_grows_trans(c0, c_i, c_a);
                        assert(!crate::analyzer::projection::drops_unresolved(a_i, c_i, info.name@, refs, None));
                        let pushed = ColumnView {
                            name: a_i.spec_normalize(info.name@),
                            data_type: opt_chars(info.data_type),
                            node_id: spec_column_node_id(tgt, a_i.spec_normalize(info.name@)),
                        };
                        assert(ctx.output_columns.deep_view() == c_i.output_columns.deep_view().push(pushed));
                        assert(views[i as int] == pushed);
                        assert(views.take(i + 1) =~= views.take(i as int).push(views[i as int]));
                        assert(ctx.output_columns.deep_view() =~= c0.output_columns.deep_view() + views.take(i + 1));
                    }
                    i = i + 1;
                }
                proof {
                    assert(views.take(views.len() as int) =~= views);
                    assert(approximation_messages(a0, c0, tables) =~= Seq::<Seq<char>>::empty());
                    assert(recorded_wildcards(a0, c0, tables, tgt) =~= Seq::<WildcardView>::empty());
                    assert(self.issues@.take(a0.issues@.len() as int) =~= a0.issues@);
                    assert(ctx.pending_wildcards.deep_view() =~= c0.pending_wildcards.deep_view() + Seq::<WildcardView>::empty());
                }
            },
            None => {
                assert(expanded_columns(a0, c0, tables, tgt) =~= Seq::<ColumnView>::empty());
                assert(ctx.output_columns.deep_view() =~= c0.output_columns.deep_view() + Seq::<ColumnView>::empty());
                let mut m = string_of("SELECT * from '");
                m.append(table_canonical.as_str());
                m.append("' - column list unknown without schema metadata");
                self.push_issue(Severity::Info, APPROXIMATE_LINEAGE, m, ctx.statement_index);
                proof {
                    let msgs = approximation_messages(a0, c0, tables);
                    assert(msgs =~= seq![approximate_message(table_canonical@)]);
                    assert(self.issues@.take(a0.issues@.len() as int) =~= a0.issues@);
                    assert(self.issues@[a0.issues@.len() + 0int] == self.issues@.last());
                }
                let mut recorded = false;
                match target_node {
                    Some(target) => {
                        let source_node_id = match self.resolve_instance_node_id(ctx, source_qualifier.as_str()) {
                            Some(id) => Some(id),
                            None => match ctx.table_node_ids.get(table_canonical) {
                                Some(id) => Some(id.clone()),
                                None => None,
                            },
                        };
                        assert(opt_chars(source_node_id) == wildcard_source_node(a0, c0, table_canonical@, source_qualifier@));
                        match source_node_id {
                            Some(source_node_id) => {
                                let edge_id = generate_edge_id(source_node_id.as_str(), target);
                                let mut edge = Edge::basic(edge_id, source_node_id.clone(), string_of(target), EdgeType::DataFlow);
                                edge.approximate = Some(true);
                                let ghost c_b = *ctx;
                                add_edge_once(ctx, edge);
                                proof {
                                    let c_a = *ctx;
                                    assert(c_a.edges@.take(c_b.edges@.len() as int) =~= c_b.edges@);
                                    assert(c_a.nodes@.take(c_b.nodes@.len() as int) =~= c_b.nodes@);
                                }
                                let target_key = string_of(target);
                                match ctx.cte_node_to_name.get(&target_key) {
                                    Some(alias_name) => {
                                        let wildcard = PendingWildcard {
                                            source_canonical: table_canonical.clone(),
                                            target_name: alias_name.clone(),
                                            source_node_id,
                                        };
                                        let ghost before = ctx.pending_wildcards.deep_view();
                                        let ghost wv = wildcard.deep_view();
                                        ctx.pending_wildcards.push(wildcard);
                                        recorded = true;
                                        proof {
                                            assert(ctx.pending_wildcards.deep_view() =~= before.push(wv));
                                            assert(recorded_wildcards(a0, c0, tables, tgt) =~= seq![wv]);
                                            assert(ctx.pending_wildcards.deep_view() =~= c0.pending_wildcards.deep_view() + seq![wv]);
                                        }
                                    },
                                    None => {},
                                }
                            },
                            None => {},
                        }
                    },
                    None => {},
                }
                proof {
                    if !recorded {
                        assert(recorded_wildcards(a0, c0, tables, tgt) =~= Seq::<WildcardView>::empty());
                        assert(ctx.pending_wildcards.deep_view() =~= c0.pending_wildcards.deep_view() + Seq::<WildcardView>::empty());
                    }
                }
            },
        }
    }
}

impl Analyzer {
    /// Expands `SELECT *` (or `t.*` with `table_qualifier`) into output columns
    /// of `target_node`: the columns of each relation in scope whose columns are
    /// known, in schema order; for a relation whose columns are unknown an
    /// `APPROXIMATE_LINEAGE` note, and with a target an approximate edge from the
    /// relation and a recorded wildcard for backward column inference.
    pub fn expand_wildcard(&mut self, ctx: &mut StatementContext, table_qualifier: Option<&str>, target_node: Option<&str>)
        requires
            old(self).wf(),
            old(ctx).wf(),
        ensures
            final(self).wf(),
            final(ctx).wf(),
            *final(self) == (Analyzer { issues: final(self).issues, ..*old(self) }),
            expansion_frame(*old(ctx), *final(ctx)),
            graph_grows(*old(ctx), *final(ctx)),
            final(ctx).output_columns.deep_view() == old(ctx).output_columns.deep_view() + expanded_columns(
                *old(self),
                *old(ctx),
                wildcard_tables(*old(self), *old(ctx), opt_str(table_qualifier)),
                opt_str(target_node),
            ),
            issues_appended(
                old(self).issues@,
                final(self).issues@,
                Severity::Info,
                APPROXIMATE_LINEAGE@,
                approximation_messages(*old(self), *old(ctx), wildcard_tables(*old(self), *old(ctx), opt_str(table_qualifier))),
                old(ctx).statement_index,
            ),
            final(ctx).pending_wildcards.deep_view() == old(ctx).pending_wildcards.deep_view() + recorded_wildcards(
                *old(self),
                *old(ctx),
                wildcard_tables(*old(self), *old(ctx), opt_str(table_qualifier)),
                opt_str(target_node),
            ),
            forall|i: int| {
                let tables = wildcard_tables(*old(self), *old(ctx), opt_str(table_qualifier));
                &&& 0 <= i < tables.len()
                &&& known_columns(*old(self), *old(ctx), tables[i].0) is None
                &&& target_node is Some
                &&& wildcard_source_node(*old(self), *old(ctx), tables[i].0, tables[i].1) is Some
            } ==> has_edge_id(
                final(ctx).edges@,
                spec_edge_id(
                    #[trigger] wildcard_source_node(
                        *old(self),
                        *old(ctx),
                        wildcard_tables(*old(self), *old(ctx), opt_str(table_qualifier))[i].0,
                        wildcard_tables(*old(self), *old(ctx), opt_str(table_qualifier))[i].1,
                    )->0,
                    target_node->0@,
                ),
            ),
    {
        let ghost a0 = *self;
        let ghost c0 = *ctx;
        let ghost tgt = opt_str(target_node);
        let tables_to_expand: Vec<(String, String)> = match table_qualifier {
            Some(q) => match self.resolve_table_alias(ctx, Some(q)) {
                Some(canonical) => {
                    let mut v: Vec<(String, String)> = Vec::new();
                    v.push((canonical, string_of(q)));
                    v
                },
                None => Vec::new(),
            },
            None => self.wildcard_sources_in_current_scope(ctx),
        };
        let ghost tables = tables_to_expand.deep_view();
        assert(tables =~= wildcard_tables(a0, c0, opt_str(table_qualifier)));
        let mut i: usize = 0;
        proof {
            lemma_graph_grows_refl(c0);
            assert(tables.take(0) =~= Seq::<(Seq<char>, Seq<char>)>::empty());
            assert(ctx.output_columns.deep_view() =~= c0.output_columns.deep_view() + Seq::<ColumnView>::empty());
            assert(ctx.pending_wildcards.deep_view() =~= c0.pending_wildcards.deep_view() + Seq::<WildcardView>::empty());
            assert(self.issues@.take(a0.issues@.len() as int) =~= a0.issues@);
        }
        while i < tables_to_expand.len()
            invariant
                self.wf(),
                ctx.wf(),
                tables == tables_to_expand.deep_view(),
                tgt == opt_str(target_node),
                0 <= i <= tables.len(),
                *self == (Analyzer { issues: self.issues, ..a0 }),
                expansion_frame(c0, *ctx),
                graph_grows(c0, *ctx),
                ctx.output_columns.deep_view() == c0.output_columns.deep_view() + expanded_columns(a0, c0, tables.take(i as int), tgt),
                issues_appended(a0.issues@, self.issues@, Severity::Info, APPROXIMATE_LINEAGE@, approximation_messages(a0, c0, tables.take(i as int)), c0.statement_index),
                ctx.pending_wildcards.deep_view() == c0.pending_wildcards.deep_view() + recorded_wildcards(a0, c0, tables.take(i as int), tgt),
                forall|k: int| {
                    &&& 0 <= k < i
                    &&& known_columns(a0, c0, tables[k].0) is None
                    &&& target_node is Some
                    &&& wildcard_source_node(a0, c0, tables[k].0, tables[k].1) is Some
                } ==> has_edge_id(ctx.edges@, spec_edge_id(#[trigger] wildcard_source_node(a0, c0, tables[k].0, tables[k].1)->0, target_node->0@)),
            decreases tables.len() - i,
        {
            let ghost a_i = *self;
            let ghost c_i = *ctx;
            let canonical = &tables_to_expand[i].0;
            let qualifier = &tables_to_expand[i].1;
            let ghost t = (canonical@, qualifier@);
            assert(tables[i as int] == t);
            self.expand_wildcard_table(ctx, canonical, qualifier, target_node);
            proof {
                let c_a = *ctx;
                let one = seq![t];
                reveal_with_fuel(expanded_columns, 2);
                reveal_with_fuel(approximation_messages, 2);
                reveal_with_fuel(recorded_wildcards, 2);
                assert(one.drop_last() =~= Seq::<(Seq<char>, Seq<char>)>::empty());
                assert(one.last() == t);
                assert(known_columns(a_i, c_i, t.0) == known_columns(a0, c0, t.0));
                assert(wildcard_source_node(a_i, c_i, t.0, t.1) == wildcard_source_node(a0, c0, t.0, t.1));
                if let Some(cols) = known_columns(a0, c0, t.0) {
                    assert(column_views(a_i, cols, tgt) =~= column_views(a0, cols, tgt));
                }
                assert(expanded_columns(a_i, c_i, one, tgt) == expanded_columns(a0, c0, one, tgt));
                assert(approximation_messages(a_i, c_i, one) == approximation_messages(a0, c0, one));
                assert(recorded_wildcards(a_i, c_i, one, tgt) == recorded_wildcards(a0, c0, one, tgt));
                let prefix = tables.take(i + 1);
                assert(prefix.drop_last() =~= tables.take(i as int));
                assert(prefix.last() == t);
                assert(expanded_columns(a0, c0, prefix, tgt) == expanded_columns(a0, c0, tables.take(i as int), tgt) + expanded_columns(a0, c0, one, tgt));
                assert(approximation_messages(a0, c0, prefix) =~= approximation_messages(a0, c0, tables.take(i as int)) + approximation_messages(a0, c0, one));
                assert(recorded_wildcards(a0, c0, prefix, tgt) =~= recorded_wildcards(a0, c0, tables.take(i as int), tgt) + recorded_wildcards(a0, c0, one, tgt));
                assert(c_a.output_columns.deep_view() =~= c0.output_columns.deep_view() + expanded_columns(a0, c0, prefix, tgt));
                assert(c_a.pending_wildcards.deep_view() =~= c0.pending_wildcards.deep_view() + recorded_wildcards(a0, c0, prefix, tgt));
                lemma_issues_appended_trans(a0.issues@, a_i.issues@, self.issues@, Severity::Info, APPROXIMATE_LINEAGE@,
                    approximation_messages(a0, c0, tables.take(i as int)), approximation_messages(a0, c0, one), c0.statement_index);
                lemma_graph_grows_trans(c0, c_i, c_a);
                assert forall|k: int| {
                    &&& 0 <= k < i + 1
                    &&& known_columns(a0, c0, tables[k].0) is None
                    &&& target_node is Some
                    &&& wildcard_source_node(a0, c0, tables[k].0, tables[k].1) is Some
                } implies has_edge_id(c_a.edges@, spec_edge_id(#[trigger] wildcard_source_node(a0, c0, tables[k].0, tables[k].1)->0, target_node->0@)) by {
                    if k < i {
                        lemma_graph_grows_keeps(c_i, c_a);
                    }
                }
            }
            i = i + 1;
        }
        assert(tables.take(tables.len() as int) =~= tables);
    }
}

} // verus!
