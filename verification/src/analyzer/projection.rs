//! Output columns of a projection: the column nodes, their ownership and data
//! flow edges, and the expansion of `SELECT *`.

use vstd::prelude::*;

use super::context::{
    copy_opt_string, current_instances, find_subquery_columns, has_edge_id, has_node_id, opt_chars,
    ColumnRef, ColumnView, OutputColumn, StatementContext,
};
use super::query::{candidate_tables, definitely_ambiguous, scope_tables};
use super::resolution::{column_table, column_table_warning, instance_node_for, issues_appended, opt_str};
use super::Analyzer;
use crate::ids::{generate_column_node_id, generate_edge_id, generate_node_id, spec_column_node_id, spec_edge_id, spec_node_id};
use crate::issue_codes::UNRESOLVED_REFERENCE;
use crate::text::string_of;
use crate::types::{AggregationInfo, Edge, EdgeType, Issue, Node, NodeMetadata, NodeType, Severity};

verus! {

/// What a projection item contributes as an output column.
pub struct OutputColumnParams {
    pub name: String,
    pub sources: Vec<ColumnRef>,
    pub expression: Option<String>,
    pub data_type: Option<String>,
    pub target_node: Option<String>,
    pub approximate: bool,
    pub aggregation: Option<AggregationInfo>,
}

/// The node of a relation known only by its canonical name.
pub open spec fn spec_relation_node_id(canonical: Seq<char>) -> Seq<char> {
    spec_node_id("table"@, canonical)
}

/// The node identifier of the first column of `cols` named `name`.
pub open spec fn first_column_named(cols: Seq<ColumnView>, name: Seq<char>) -> Option<Seq<char>>
    decreases cols.len(),
{
    if cols.len() == 0 {
        None
    } else if cols[0].name == name {
        Some(cols[0].node_id)
    } else {
        first_column_named(cols.drop_first(), name)
    }
}

/// The columns a source reference reads from: those of its qualifier, else those
/// of its table, when either is a CTE or derived table.
pub open spec fn source_columns(ctx: StatementContext, qualifier: Option<Seq<char>>, canonical: Seq<char>) -> Option<Seq<ColumnView>> {
    let scopes = ctx.scope_stack@;
    let global = ctx.aliased_subquery_columns.as_map();
    match qualifier {
        Some(q) => match find_subquery_columns(scopes, global, q) {
            Some(cols) => Some(cols),
            None => find_subquery_columns(scopes, global, canonical),
        },
        None => find_subquery_columns(scopes, global, canonical),
    }
}

/// The existing column node a source reference reads, when its relation exposes one.
pub open spec fn known_source_column(a: Analyzer, ctx: StatementContext, src: (Option<Seq<char>>, Seq<char>), canonical: Seq<char>) -> Option<Seq<char>> {
    match source_columns(ctx, src.0, canonical) {
        Some(cols) => first_column_named(cols, a.spec_normalize(src.1)),
        None => None,
    }
}

/// The node that owns the column a source reference reads. A known column keeps
/// to the qualifier's instance first; otherwise a CTE of that name comes first.
pub open spec fn source_table_node(a: Analyzer, ctx: StatementContext, src: (Option<Seq<char>>, Seq<char>), canonical: Seq<char>) -> Seq<char> {
    let by_instance = match src.0 {
        Some(q) => instance_node_for(a, ctx, q),
        None => None,
    };
    let tables = ctx.table_node_ids.as_map();
    let ctes = ctx.cte_definitions.as_map();
    if known_source_column(a, ctx, src, canonical) is Some {
        if by_instance is Some {
            by_instance->0
        } else if tables.contains_key(canonical) {
            tables[canonical]
        } else if ctes.contains_key(canonical) {
            ctes[canonical]
        } else {
            spec_relation_node_id(canonical)
        }
    } else {
        if ctes.contains_key(canonical) {
            ctes[canonical]
        } else if by_instance is Some {
            by_instance->0
        } else if tables.contains_key(canonical) {
            tables[canonical]
        } else {
            spec_relation_node_id(canonical)
        }
    }
}

/// The column node a source reference reads.
pub open spec fn source_column_node(a: Analyzer, ctx: StatementContext, src: (Option<Seq<char>>, Seq<char>), canonical: Seq<char>) -> Seq<char> {
    match known_source_column(a, ctx, src, canonical) {
        Some(id) => id,
        None => spec_column_node_id(Some(source_table_node(a, ctx, src, canonical)), a.spec_normalize(src.1)),
    }
}

/// The kind of the edges that carry values into an output column.
pub open spec fn flow_edge_type(expression: Option<String>) -> EdgeType {
    if expression is Some {
        EdgeType::Derivation
    } else {
        EdgeType::DataFlow
    }
}

/// The approximation mark of the edges into an output column.
pub open spec fn flow_approximate(approximate: bool) -> Option<bool> {
    if approximate {
        Some(true)
    } else {
        None
    }
}

/// Every edge of `after` beyond `before` is an ownership edge between nodes that
/// `owner` accepts, or carries values into `column` from a node that `feeder`
/// accepts, with the given kind, expression and approximation.
pub open spec fn new_edges_typed(
    before: Seq<Edge>,
    after: Seq<Edge>,
    column: Seq<char>,
    edge_type: EdgeType,
    expression: Option<String>,
    approximate: Option<bool>,
    owner: spec_fn(Seq<char>, Seq<char>) -> bool,
    feeder: spec_fn(Seq<char>) -> bool,
) -> bool {
    forall|i: int| before.len() <= i < after.len() ==> {
        let e = #[trigger] after[i];
        ||| (e.edge_type == EdgeType::Ownership && e.expression is None && e.approximate is None
            && owner(e.from@, e.to@))
        ||| (e.to@ == column && feeder(e.from@) && e.edge_type == edge_type && e.expression == expression
            && e.approximate == approximate)
    }
}

/// Some edge of `edges` has identifier `id`, goes from `from` to `to` and is of kind `edge_type`.
pub open spec fn edge_at(edges: Seq<Edge>, id: Seq<char>, from: Seq<char>, to: Seq<char>, edge_type: EdgeType) -> bool {
    exists|i: int|
        0 <= i < edges.len() && (#[trigger] edges[i]).id@ == id && edges[i].from@ == from && edges[i].to@ == to
            && edges[i].edge_type == edge_type
}

/// The ownership edge of the column a resolved source reference reads goes from
/// `from` to `to`.
pub open spec fn source_edge_ends(
    a: Analyzer,
    ctx: StatementContext,
    src: (Option<Seq<char>>, Seq<char>),
    from: Seq<char>,
    to: Seq<char>,
) -> bool {
    match column_table(a, ctx, src.0, src.1) {
        Some(c) => from == source_table_node(a, ctx, src, c) && to == source_column_node(a, ctx, src, c),
        None => false,
    }
}

/// `from` is the column that a resolved source reference reads.
pub open spec fn source_feeds(a: Analyzer, ctx: StatementContext, src: (Option<Seq<char>>, Seq<char>), from: Seq<char>) -> bool {
    match column_table(a, ctx, src.0, src.1) {
        Some(c) => from == source_column_node(a, ctx, src, c),
        None => false,
    }
}

/// An ownership edge that adding an output column may create: from the target
/// node to the column, or from a source's relation to the column it reads.
pub open spec fn owned_by_output(
    a: Analyzer,
    ctx: StatementContext,
    refs: Seq<(Option<Seq<char>>, Seq<char>)>,
    target: Option<Seq<char>>,
    col: Seq<char>,
    from: Seq<char>,
    to: Seq<char>,
) -> bool {
    ||| (target == Some(from) && to == col)
    ||| exists|k: int| 0 <= k < refs.len() && #[trigger] source_edge_ends(a, ctx, refs[k], from, to)
}

/// A node that values of an output column may flow from: a source column, or,
/// for a column without sources, a relation instance of the current scope.
pub open spec fn feeds_output(
    a: Analyzer,
    ctx: StatementContext,
    refs: Seq<(Option<Seq<char>>, Seq<char>)>,
    from: Seq<char>,
) -> bool {
    ||| exists|k: int| 0 <= k < refs.len() && #[trigger] source_feeds(a, ctx, refs[k], from)
    ||| (refs.len() == 0 && exists|i: int|
        0 <= i < current_instances(ctx).len() && (#[trigger] current_instances(ctx)[i]).node_id == from)
}

/// `b` holds the graph of `a` and possibly more: nodes and edges are only appended.
pub open spec fn graph_grows(a: StatementContext, b: StatementContext) -> bool {
    &&& a.nodes@.len() <= b.nodes@.len()
    &&& b.nodes@.take(a.nodes@.len() as int) == a.nodes@
    &&& a.edges@.len() <= b.edges@.len()
    &&& b.edges@.take(a.edges@.len() as int) == a.edges@
}

/// Only the graph of `a` may differ in `b`.
pub open spec fn only_graph_changed(a: StatementContext, b: StatementContext) -> bool {
    b == (StatementContext {
        nodes: b.nodes,
        node_ids: b.node_ids,
        node_index: b.node_index,
        edges: b.edges,
        edge_ids: b.edge_ids,
        ..a
    })
}

pub(crate) proof fn lemma_graph_grows_refl(a: StatementContext)
    ensures
        graph_grows(a, a),
{
    assert(a.nodes@.take(a.nodes@.len() as int) =~= a.nodes@);
    assert(a.edges@.take(a.edges@.len() as int) =~= a.edges@);
}

pub(crate) proof fn lemma_graph_grows_trans(a: StatementContext, b: StatementContext, c: StatementContext)
    requires
        graph_grows(a, b),
        graph_grows(b, c),
    ensures
        graph_grows(a, c),
{
    assert(c.nodes@.take(a.nodes@.len() as int) =~= c.nodes@.take(b.nodes@.len() as int).take(a.nodes@.len() as int));
    assert(c.edges@.take(a.edges@.len() as int) =~= c.edges@.take(b.edges@.len() as int).take(a.edges@.len() as int));
}

pub(crate) proof fn lemma_graph_grows_keeps(a: StatementContext, b: StatementContext)
    requires
        graph_grows(a, b),
    ensures
        forall|k: Seq<char>| has_node_id(a.nodes@, k) ==> #[trigger] has_node_id(b.nodes@, k),
        forall|k: Seq<char>| has_edge_id(a.edges@, k) ==> #[trigger] has_edge_id(b.edges@, k),
{
    assert forall|k: Seq<char>| has_node_id(a.nodes@, k) implies #[trigger] has_node_id(b.nodes@, k) by {
        let i = choose|i: int| 0 <= i < a.nodes@.len() && (#[trigger] a.nodes@[i]).id@ == k;
        assert(b.nodes@.take(a.nodes@.len() as int)[i] == b.nodes@[i]);
    }
    assert forall|k: Seq<char>| has_edge_id(a.edges@, k) implies #[trigger] has_edge_id(b.edges@, k) by {
        let i = choose|i: int| 0 <= i < a.edges@.len() && (#[trigger] a.edges@[i]).id@ == k;
        assert(b.edges@.take(a.edges@.len() as int)[i] == b.edges@[i]);
    }
}

proof fn lemma_new_edges_typed_trans(
    a: Seq<Edge>,
    b: Seq<Edge>,
    c: Seq<Edge>,
    column: Seq<char>,
    edge_type: EdgeType,
    expression: Option<String>,
    approximate: Option<bool>,
    o1: spec_fn(Seq<char>, Seq<char>) -> bool,
    f1: spec_fn(Seq<char>) -> bool,
    o2: spec_fn(Seq<char>, Seq<char>) -> bool,
    f2: spec_fn(Seq<char>) -> bool,
    o: spec_fn(Seq<char>, Seq<char>) -> bool,
    f: spec_fn(Seq<char>) -> bool,
)
    requires
        a.len() <= b.len(),
        c.len() >= b.len(),
        c.take(b.len() as int) == b,
        new_edges_typed(a, b, column, edge_type, expression, approximate, o1, f1),
        new_edges_typed(b, c, column, edge_type, expression, approximate, o2, f2),
        forall|x: Seq<char>, y: Seq<char>| #[trigger] o1(x, y) ==> o(x, y),
        forall|x: Seq<char>, y: Seq<char>| #[trigger] o2(x, y) ==> o(x, y),
        forall|x: Seq<char>| #[trigger] f1(x) ==> f(x),
        forall|x: Seq<char>| #[trigger] f2(x) ==> f(x),
    ensures
        new_edges_typed(a, c, column, edge_type, expression, approximate, o, f),
{
    assert forall|i: int| a.len() <= i < c.len() implies {
        let e = #[trigger] c[i];
        ||| (e.edge_type == EdgeType::Ownership && e.expression is None && e.approximate is None
            && o(e.from@, e.to@))
        ||| (e.to@ == column && f(e.from@) && e.edge_type == edge_type && e.expression == expression
            && e.approximate == approximate)
    } by {
        if i < b.len() {
            assert(c.take(b.len() as int)[i] == c[i]);
            assert(b[i] == c[i]);
        }
    }
}

proof fn lemma_edge_at_kept(a: Seq<Edge>, b: Seq<Edge>, id: Seq<char>, from: Seq<char>, to: Seq<char>, edge_type: EdgeType)
    requires
        edge_at(a, id, from, to, edge_type),
        a.len() <= b.len(),
        b.take(a.len() as int) == a,
    ensures
        edge_at(b, id, from, to, edge_type),
{
    let i = choose|i: int|
        0 <= i < a.len() && (#[trigger] a[i]).id@ == id && a[i].from@ == from && a[i].to@ == to
            && a[i].edge_type == edge_type;
    assert(b.take(a.len() as int)[i] == b[i]);
}

/// The optional string as a string slice.
pub fn opt_as_str(o: &Option<String>) -> (r: Option<&str>)
    ensures
        match r {
            Some(s) => *o matches Some(t) && s@ == t@,
            None => o is None,
        },
{
    match o {
        Some(s) => Some(s.as_str()),
        None => None,
    }
}

/// The node identifier of the first column of `cols` named `name`.
fn find_column_named(cols: &[OutputColumn], name: &str) -> (r: Option<String>)
    ensures
        opt_chars(r) == first_column_named(cols.deep_view(), name@),
{
    let ghost all = cols.deep_view();
    let mut i: usize = 0;
    assert(all.skip(0) =~= all);
    while i < cols.len()
        invariant
            all == cols.deep_view(),
            0 <= i <= all.len(),
            first_column_named(all, name@) == first_column_named(all.skip(i as int), name@),
        decreases all.len() - i,
    {
        assert(all.skip(i as int)[0] == cols@[i as int].deep_view());
        if crate::text::str_eq(cols[i].name.as_str(), name) {
            return Some(cols[i].node_id.clone());
        }
        assert(all.skip(i as int).drop_first() =~= all.skip(i + 1));
        i = i + 1;
    }
    None
}

/// Adds `edge` unless an edge with its identifier is already in the graph.
pub fn add_edge_once(ctx: &mut StatementContext, edge: Edge)
    requires
        old(ctx).wf(),
    ensures
        final(ctx).wf(),
        has_edge_id(final(ctx).edges@, edge.id@),
        has_edge_id(old(ctx).edges@, edge.id@) ==> final(ctx).edges@ == old(ctx).edges@,
        !has_edge_id(old(ctx).edges@, edge.id@) ==> final(ctx).edges@ == old(ctx).edges@.push(edge),
        *final(ctx) == (StatementContext { edges: final(ctx).edges, edge_ids: final(ctx).edge_ids, ..*old(ctx) }),
{
    if !ctx.edge_ids.contains_key(&edge.id) {
        ctx.add_edge(edge);
    } else {
        assert(has_edge_id(ctx.edges@, edge.id@));
    }
}

impl Analyzer {
    /// The node of a relation known only by its canonical name.
    pub fn relation_node_id(&self, canonical: &str) -> (r: String)
        ensures
            r@ == spec_relation_node_id(canonical@),
    {
        generate_node_id("table", canonical)
    }

    /// Adds the column node a resolved source reference reads, its ownership edge,
    /// and the edge that carries its values into the output column `node_id`.
    pub fn add_source_flow(
        &self,
        ctx: &mut StatementContext,
        source: &ColumnRef,
        table_canonical: &String,
        node_id: &String,
        expression: &Option<String>,
        approximate: bool,
    )
        requires
            self.wf(),
            old(ctx).wf(),
        ensures
            final(ctx).wf(),
            only_graph_changed(*old(ctx), *final(ctx)),
            graph_grows(*old(ctx), *final(ctx)),
            has_node_id(final(ctx).nodes@, source_column_node(*self, *old(ctx), source.deep_view(), table_canonical@)),
            has_edge_id(
                final(ctx).edges@,
                spec_edge_id(
                    source_table_node(*self, *old(ctx), source.deep_view(), table_canonical@),
                    source_column_node(*self, *old(ctx), source.deep_view(), table_canonical@),
                ),
            ),
            has_edge_id(
                final(ctx).edges@,
                spec_edge_id(source_column_node(*self, *old(ctx), source.deep_view(), table_canonical@), node_id@),
            ),
            new_edges_typed(
                old(ctx).edges@,
                final(ctx).edges@,
                node_id@,
                flow_edge_type(*expression),
                *expression,
                flow_approximate(approximate),
                |f: Seq<char>, t: Seq<char>|
                    f == source_table_node(*self, *old(ctx), source.deep_view(), table_canonical@) && t
                        == source_column_node(*self, *old(ctx), source.deep_view(), table_canonical@),
                |f: Seq<char>| f == source_column_node(*self, *old(ctx), source.deep_view(), table_canonical@),
            ),
    {
        let ghost c0 = *ctx;
        let ghost src = source.deep_view();
        let ghost tn = source_table_node(*self, c0, src, table_canonical@);
        let ghost sc = source_column_node(*self, c0, src, table_canonical@);
        let ghost owner = |f: Seq<char>, t: Seq<char>| f == tn && t == sc;
        let ghost feeder = |f: Seq<char>| f == sc;
        let normalized_column = self.normalize_identifier(source.column.as_str());
        let cols = match opt_as_str(&source.table) {
            Some(q) => match ctx.resolve_subquery_columns(q) {
                Some(cols) => Some(cols),
                None => ctx.resolve_subquery_columns(table_canonical.as_str()),
            },
            None => ctx.resolve_subquery_columns(table_canonical.as_str()),
        };
        let known = match cols {
            Some(cols) => find_column_named(cols, normalized_column.as_str()),
            None => None,
        };
        assert(opt_chars(known) == known_source_column(*self, c0, src, table_canonical@));
        let by_instance = match opt_as_str(&source.table) {
            Some(q) => self.resolve_instance_node_id(ctx, q),
            None => None,
        };
        let table_node_id = if known.is_some() {
            match by_instance {
                Some(id) => id,
                None => match ctx.table_node_ids.get(table_canonical) {
                    Some(id) => id.clone(),
                    None => match ctx.cte_definitions.get(table_canonical) {
                        Some(id) => id.clone(),
                        None => self.relation_node_id(table_canonical.as_str()),
                    },
                },
            }
        } else {
            match ctx.cte_definitions.get(table_canonical) {
                Some(id) => id.clone(),
                None => match by_instance {
                    Some(id) => id,
                    None => match ctx.table_node_ids.get(table_canonical) {
                        Some(id) => id.clone(),
                        None => self.relation_node_id(table_canonical.as_str()),
                    },
                },
            }
        };
        assert(table_node_id@ == source_table_node(*self, c0, src, table_canonical@));
        let source_col_id = match known {
            Some(id) => id,
            None => generate_column_node_id(Some(table_node_id.as_str()), normalized_column.as_str()),
        };
        assert(source_col_id@ == source_column_node(*self, c0, src, table_canonical@));
        let mut qualified = table_canonical.clone();
        qualified.append(".");
        qualified.append(source.column.as_str());
        let source_col_node = Node::basic(source_col_id.clone(), NodeType::Column, source.column.clone(), Some(qualified));
        ctx.add_node(source_col_node);
        let ghost c1 = *ctx;
        proof {
            if c1.nodes@ != c0.nodes@ {
                assert(c1.nodes@.take(c0.nodes@.len() as int) =~= c0.nodes@);
            } else {
                assert(c1.nodes@.take(c0.nodes@.len() as int) =~= c0.nodes@);
            }
            assert(c1.edges@.take(c0.edges@.len() as int) =~= c0.edges@);
        }
        let ownership_edge_id = generate_edge_id(table_node_id.as_str(), source_col_id.as_str());
        add_edge_once(ctx, Edge::basic(ownership_edge_id, table_node_id, source_col_id.clone(), EdgeType::Ownership));
        let ghost c2 = *ctx;
        proof {
            assert(c2.edges@.take(c1.edges@.len() as int) =~= c1.edges@);
            assert(c2.nodes@.take(c1.nodes@.len() as int) =~= c1.nodes@);
            lemma_graph_grows_trans(c0, c1, c2);
            assert(new_edges_typed(c0.edges@, c2.edges@, node_id@, flow_edge_type(*expression), *expression, flow_approximate(approximate), owner, feeder));
        }
        let edge_type = if expression.is_some() {
            EdgeType::Derivation
        } else {
            EdgeType::DataFlow
        };
        let flow_edge_id = generate_edge_id(source_col_id.as_str(), node_id.as_str());
        let mut flow = Edge::basic(flow_edge_id, source_col_id, node_id.clone(), edge_type);
        flow.expression = copy_opt_string(expression);
        flow.approximate = if approximate {
            Some(true)
        } else {
            None
        };
        add_edge_once(ctx, flow);
        proof {
            let c3 = *ctx;
            assert(c3.edges@.take(c2.edges@.len() as int) =~= c2.edges@);
            assert(c3.nodes@.take(c2.nodes@.len() as int) =~= c2.nodes@);
            lemma_graph_grows_trans(c0, c2, c3);
            lemma_graph_grows_keeps(c1, c3);
            lemma_graph_grows_keeps(c2, c3);
            assert(new_edges_typed(c2.edges@, c3.edges@, node_id@, flow_edge_type(*expression), *expression, flow_approximate(approximate), owner, feeder));
            lemma_new_edges_typed_trans(c0.edges@, c2.edges@, c3.edges@, node_id@, flow_edge_type(*expression), *expression, flow_approximate(approximate), owner, feeder, owner, feeder, owner, feeder);
        }
    }
}


/// How many of the source references `refs` resolve to a table.
pub open spec fn resolved_count(a: Analyzer, ctx: StatementContext, refs: Seq<(Option<Seq<char>>, Seq<char>)>) -> nat
    decreases refs.len(),
{
    if refs.len() == 0 {
        0
    } else {
        resolved_count(a, ctx, refs.drop_last()) + if column_table(a, ctx, refs.last().0, refs.last().1) is Some {
            1nat
        } else {
            0nat
        }
    }
}

/// The warnings resolving `refs` raises, in order.
pub open spec fn source_warnings(a: Analyzer, ctx: StatementContext, refs: Seq<(Option<Seq<char>>, Seq<char>)>) -> Seq<Seq<char>>
    decreases refs.len(),
{
    if refs.len() == 0 {
        Seq::empty()
    } else {
        let rest = source_warnings(a, ctx, refs.drop_last());
        match column_table_warning(a, ctx, refs.last().0, refs.last().1) {
            Some(m) => rest.push(m),
            None => rest,
        }
    }
}

/// `after` is `before` followed by one unresolved-reference warning about
/// statement `statement` for each message of `messages`.
pub open spec fn warnings_appended(before: Seq<Issue>, after: Seq<Issue>, messages: Seq<Seq<char>>, statement: usize) -> bool {
    issues_appended(before, after, Severity::Warning, UNRESOLVED_REFERENCE@, messages, statement)
}

/// An output column named `name` whose single source is the unqualified column
/// of the same name is left out when no table resolves it and it is provably
/// ambiguous among the relation instances of the current scope (outside table
/// function scopes).
pub open spec fn drops_unresolved(
    a: Analyzer,
    ctx: StatementContext,
    name: Seq<char>,
    refs: Seq<(Option<Seq<char>>, Seq<char>)>,
    expression: Option<String>,
) -> bool {
    &&& resolved_count(a, ctx, refs) == 0
    &&& refs.len() == 1
    &&& expression is None
    &&& refs[0].0 is None
    &&& a.spec_normalize(refs[0].1) == a.spec_normalize(name)
    &&& !(ctx.scope_stack@.len() > 0 && ctx.scope_stack@.last().has_table_function_relation)
    &&& definitely_ambiguous(a, ctx, refs[0].1)
}

/// The output column that `a` adds to `c0`, giving `b` and `c1`: its node, the
/// ownership edge from the target node, an edge from each resolved source column
/// (or, without sources, from each base relation of the current scope), the
/// warnings of unresolved sources, and the output column record.
pub open spec fn output_column_added(
    a: Analyzer,
    b: Analyzer,
    c0: StatementContext,
    c1: StatementContext,
    name: Seq<char>,
    refs: Seq<(Option<Seq<char>>, Seq<char>)>,
    expression: Option<String>,
    data_type: Option<Seq<char>>,
    target: Option<Seq<char>>,
    approximate: bool,
) -> bool {
    let normalized = a.spec_normalize(name);
    let col = spec_column_node_id(target, normalized);
    let insts = current_instances(c0);
    &&& b == (Analyzer { issues: b.issues, ..a })
    &&& warnings_appended(a.issues@, b.issues@, source_warnings(a, c0, refs), c0.statement_index)
    &&& c1 == (StatementContext {
        nodes: c1.nodes,
        node_ids: c1.node_ids,
        node_index: c1.node_index,
        edges: c1.edges,
        edge_ids: c1.edge_ids,
        output_columns: c1.output_columns,
        ..c0
    })
    &&& forall|k: Seq<char>| has_node_id(c0.nodes@, k) && k != col ==> #[trigger] has_node_id(c1.nodes@, k)
    &&& drops_unresolved(a, c0, name, refs, expression) ==> {
        &&& c1.output_columns@ == c0.output_columns@
        &&& !has_node_id(c1.nodes@, col)
        &&& target matches Some(t) ==> !has_edge_id(c1.edges@, spec_edge_id(t, col))
    }
    &&& !drops_unresolved(a, c0, name, refs, expression) ==> {
        &&& c1.output_columns.deep_view() == c0.output_columns.deep_view().push(
            ColumnView { name: normalized, data_type: data_type, node_id: col },
        )
        &&& graph_grows(c0, c1)
        &&& has_node_id(c1.nodes@, col)
        &&& target matches Some(t) ==> has_edge_id(c1.edges@, spec_edge_id(t, col))
        &&& target matches Some(t) ==> (!has_edge_id(c0.edges@, spec_edge_id(t, col)) ==> edge_at(
            c1.edges@,
            spec_edge_id(t, col),
            t,
            col,
            EdgeType::Ownership,
        ))
        &&& forall|k: int| 0 <= k < refs.len() ==> (column_table(a, c0, refs[k].0, refs[k].1) matches Some(c)
            ==> has_edge_id(c1.edges@, spec_edge_id(source_column_node(a, c0, #[trigger] refs[k], c), col)))
        &&& refs.len() == 0 ==> forall|i: int| 0 <= i < insts.len()
            && (has_node_id(c0.nodes@, insts[i].node_id) || insts[i].node_id == col)
            && !c0.joined_table_info.as_map().contains_key(insts[i].node_id)
            ==> has_edge_id(c1.edges@, spec_edge_id(#[trigger] insts[i].node_id, col))
        &&& new_edges_typed(
            c0.edges@,
            c1.edges@,
            col,
            flow_edge_type(expression),
            expression,
            flow_approximate(approximate),
            |f: Seq<char>, t: Seq<char>| owned_by_output(a, c0, refs, target, col, f, t),
            |f: Seq<char>| feeds_output(a, c0, refs, f),
        )
    }
}

/// Resolution reads only the schema, the request and the scopes and maps of a
/// statement, never its graph or the issues gathered so far.
proof fn lemma_candidates_frame(
    a0: Analyzer,
    a1: Analyzer,
    c0: StatementContext,
    c1: StatementContext,
    tables: Seq<Seq<char>>,
    name: Seq<char>,
)
    requires
        a0.schema == a1.schema,
        a0.request == a1.request,
        c0.scope_stack == c1.scope_stack,
        c0.aliased_subquery_columns == c1.aliased_subquery_columns,
    ensures
        candidate_tables(a0, c0, tables, name) == candidate_tables(a1, c1, tables, name),
    decreases tables.len(),
{
    if tables.len() > 0 {
        lemma_candidates_frame(a0, a1, c0, c1, tables.drop_last(), name);
    }
}

proof fn lemma_resolution_frame(a0: Analyzer, a1: Analyzer, c0: StatementContext, c1: StatementContext, column: Seq<char>)
    requires
        a1 == (Analyzer { issues: a1.issues, ..a0 }),
        only_graph_changed(c0, c1) || c1 == (StatementContext {
            nodes: c1.nodes,
            node_ids: c1.node_ids,
            node_index: c1.node_index,
            edges: c1.edges,
            edge_ids: c1.edge_ids,
            output_columns: c1.output_columns,
            ..c0
        }),
    ensures
        forall|q: Option<Seq<char>>| #[trigger] column_table(a1, c1, q, column) == column_table(a0, c0, q, column),
        forall|q: Option<Seq<char>>| #[trigger] column_table_warning(a1, c1, q, column) == column_table_warning(a0, c0, q, column),
        definitely_ambiguous(a1, c1, column) == definitely_ambiguous(a0, c0, column),
{
    lemma_candidates_frame(a0, a1, c0, c1, scope_tables(c0), a0.spec_normalize(column));
}

proof fn lemma_sources_frame(
    a0: Analyzer,
    a1: Analyzer,
    c0: StatementContext,
    c1: StatementContext,
    refs: Seq<(Option<Seq<char>>, Seq<char>)>,
)
    requires
        a1 == (Analyzer { issues: a1.issues, ..a0 }),
        only_graph_changed(c0, c1),
    ensures
        resolved_count(a1, c1, refs) == resolved_count(a0, c0, refs),
        source_warnings(a1, c1, refs) == source_warnings(a0, c0, refs),
        forall|k: int| 0 <= k < refs.len() ==> #[trigger] column_table(a1, c1, refs[k].0, refs[k].1)
            == column_table(a0, c0, refs[k].0, refs[k].1),
    decreases refs.len(),
{
    if refs.len() > 0 {
        lemma_sources_frame(a0, a1, c0, c1, refs.drop_last());
        lemma_resolution_frame(a0, a1, c0, c1, refs.last().1);
        assert forall|k: int| 0 <= k < refs.len() implies #[trigger] column_table(a1, c1, refs[k].0, refs[k].1)
            == column_table(a0, c0, refs[k].0, refs[k].1) by {
            lemma_resolution_frame(a0, a1, c0, c1, refs[k].1);
        }
    }
}

impl Analyzer {
    /// Resolves each source reference of an output column and, for each that
    /// resolves, adds the edge from the column it reads into `node_id`; returns how
    /// many resolved.
    pub fn add_source_flows(
        &mut self,
        ctx: &mut StatementContext,
        sources: &Vec<ColumnRef>,
        node_id: &String,
        expression: &Option<String>,
        approximate: bool,
    ) -> (resolved: usize)
        requires
            old(self).wf(),
            old(ctx).wf(),
        ensures
            final(self).wf(),
            final(ctx).wf(),
            *final(self) == (Analyzer { issues: final(self).issues, ..*old(self) }),
            warnings_appended(old(self).issues@, final(self).issues@, source_warnings(*old(self), *old(ctx), sources.deep_view()), old(ctx).statement_index),
            only_graph_changed(*old(ctx), *final(ctx)),
            graph_grows(*old(ctx), *final(ctx)),
            resolved == resolved_count(*old(self), *old(ctx), sources.deep_view()),
            resolved == 0 ==> *final(ctx) == *old(ctx),
            forall|k: int| 0 <= k < sources.deep_view().len() ==> (column_table(*old(self), *old(ctx), sources.deep_view()[k].0, sources.deep_view()[k].1) matches Some(c)
                ==> has_edge_id(final(ctx).edges@, spec_edge_id(source_column_node(*old(self), *old(ctx), #[trigger] sources.deep_view()[k], c), node_id@))),
            new_edges_typed(
                old(ctx).edges@,
                final(ctx).edges@,
                node_id@,
                flow_edge_type(*expression),
                *expression,
                flow_approximate(approximate),
                |f: Seq<char>, t: Seq<char>|
                    exists|k: int| 0 <= k < sources.deep_view().len() && #[trigger] source_edge_ends(*old(self), *old(ctx), sources.deep_view()[k], f, t),
                |f: Seq<char>|
                    exists|k: int| 0 <= k < sources.deep_view().len() && #[trigger] source_feeds(*old(self), *old(ctx), sources.deep_view()[k], f),
            ),
    {
        let ghost a0 = *self;
        let ghost c0 = *ctx;
        let ghost refs = sources.deep_view();
        let ghost owner = |f: Seq<char>, t: Seq<char>|
            exists|k: int| 0 <= k < refs.len() && #[trigger] source_edge_ends(a0, c0, refs[k], f, t);
        let ghost feeder = |f: Seq<char>| exists|k: int| 0 <= k < refs.len() && #[trigger] source_feeds(a0, c0, refs[k], f);
        let ghost col = node_id@;
        proof {
            lemma_graph_grows_refl(c0);
        }
        let mut resolved_sources: usize = 0;
        let mut i: usize = 0;
        assert(refs.take(0) =~= Seq::<(Option<Seq<char>>, Seq<char>)>::empty());
        assert(self.issues@.take(a0.issues@.len() as int) =~= a0.issues@);
        while i < sources.len()
            invariant
                self.wf(),
                ctx.wf(),
                refs == sources.deep_view(),
                col == node_id@,
                0 <= i <= refs.len(),
                *self == (Analyzer { issues: self.issues, ..a0 }),
                only_graph_changed(c0, *ctx),
                graph_grows(c0, *ctx),
                resolved_sources == resolved_count(a0, c0, refs.take(i as int)),
                resolved_sources <= i,
                resolved_sources == 0 ==> *ctx == c0,
                warnings_appended(a0.issues@, self.issues@, source_warnings(a0, c0, refs.take(i as int)), c0.statement_index),
                forall|k: int| 0 <= k < i ==> (column_table(a0, c0, refs[k].0, refs[k].1) matches Some(c)
                    ==> has_edge_id(ctx.edges@, spec_edge_id(source_column_node(a0, c0, #[trigger] refs[k], c), col))),
                new_edges_typed(c0.edges@, ctx.edges@, col, flow_edge_type(*expression), *expression, flow_approximate(approximate), owner, feeder),
                owner == (|f: Seq<char>, t: Seq<char>|
                    exists|k: int| 0 <= k < refs.len() && #[trigger] source_edge_ends(a0, c0, refs[k], f, t)),
                feeder == (|f: Seq<char>| exists|k: int| 0 <= k < refs.len() && #[trigger] source_feeds(a0, c0, refs[k], f)),
            decreases refs.len() - i,
        {
            let ghost a_i = *self;
            let ghost c_i = *ctx;
            let source = &sources[i];
            assert(refs[i as int] == source.deep_view());
            proof {
                lemma_resolution_frame(a0, a_i, c0, c_i, source.column@);
            }
            let resolved = self.resolve_column_table(ctx, opt_as_str(&source.table), source.column.as_str());
            proof {
                assert(refs.take(i + 1).drop_last() =~= refs.take(i as int));
                assert(refs.take(i + 1).last() == refs[i as int]);
                let before = source_warnings(a0, c0, refs.take(i as int));
                let after = source_warnings(a0, c0, refs.take(i + 1));
                assert(self.issues@.take(a0.issues@.len() as int) =~= a0.issues@) by {
                    if self.issues@.len() > a_i.issues@.len() {
                        assert(self.issues@.drop_last() == a_i.issues@);
                        assert(self.issues@.take(a0.issues@.len() as int) =~= a_i.issues@.take(a0.issues@.len() as int));
                    }
                }
                assert forall|k: int| 0 <= k < after.len() implies {
                    let issue = #[trigger] self.issues@[a0.issues@.len() + k];
                    &&& issue.severity == Severity::Warning
                    &&& issue.code@ == UNRESOLVED_REFERENCE@
                    &&& issue.message@ == after[k]
                    &&& issue.span is None
                    &&& issue.statement_index == Some(c0.statement_index)
                } by {
                    if k < before.len() {
                        assert(after[k] == before[k]);
                        if self.issues@.len() > a_i.issues@.len() {
                            assert(self.issues@.drop_last()[a0.issues@.len() + k] == self.issues@[a0.issues@.len() + k]);
                        }
                    }
                }
            }
            match resolved {
                Some(table_canonical) => {
                    resolved_sources = resolved_sources + 1;
                    let ghost c_b = *ctx;
                    self.add_source_flow(ctx, source, &table_canonical, node_id, expression, approximate);
                    proof {
                        let c_a = *ctx;
                        lemma_graph_grows_trans(c0, c_b, c_a);
                        lemma_graph_grows_keeps(c_b, c_a);
                        let tn = source_table_node(*self, c_b, source.deep_view(), table_canonical@);
                        let sc = source_column_node(*self, c_b, source.deep_view(), table_canonical@);
                        assert(sc == source_column_node(a0, c0, refs[i as int], table_canonical@));
                        assert(tn == source_table_node(a0, c0, refs[i as int], table_canonical@));
                        let o2 = |f: Seq<char>, t: Seq<char>| f == tn && t == sc;
                        let f2 = |f: Seq<char>| f == sc;
                        assert forall|x: Seq<char>, y: Seq<char>| #[trigger] o2(x, y) implies owner(x, y) by {
                            assert(source_edge_ends(a0, c0, refs[i as int], x, y));
                        }
                        assert forall|x: Seq<char>| #[trigger] f2(x) implies feeder(x) by {
                            assert(source_feeds(a0, c0, refs[i as int], x));
                        }
                        lemma_new_edges_typed_trans(c0.edges@, c_b.edges@, c_a.edges@, col, flow_edge_type(*expression), *expression, flow_approximate(approximate), owner, feeder, o2, f2, owner, feeder);
                    }
                },
                None => {},
            }
            i = i + 1;
        }
        assert(refs.take(refs.len() as int) =~= refs);
        resolved_sources
    }

    /// For a projection without sources (such as `COUNT(*)`), adds an edge into
    /// `node_id` from each base relation of the current scope: the relation
    /// instances whose node is in the graph and was not introduced by a join.
    pub fn add_base_relation_flows(&self, ctx: &mut StatementContext, node_id: &String, expression: &Option<String>, approximate: bool)
        requires
            old(ctx).wf(),
        ensures
            final(ctx).wf(),
            only_graph_changed(*old(ctx), *final(ctx)),
            graph_grows(*old(ctx), *final(ctx)),
            final(ctx).nodes == old(ctx).nodes,
            forall|i: int| 0 <= i < current_instances(*old(ctx)).len()
                && has_node_id(old(ctx).nodes@, current_instances(*old(ctx))[i].node_id)
                && !old(ctx).joined_table_info.as_map().contains_key(current_instances(*old(ctx))[i].node_id)
                ==> has_edge_id(final(ctx).edges@, spec_edge_id(#[trigger] current_instances(*old(ctx))[i].node_id, node_id@)),
            new_edges_typed(
                old(ctx).edges@,
                final(ctx).edges@,
                node_id@,
                flow_edge_type(*expression),
                *expression,
                flow_approximate(approximate),
                |f: Seq<char>, t: Seq<char>| false,
                |f: Seq<char>|
                    exists|i: int| 0 <= i < current_instances(*old(ctx)).len() && (#[trigger] current_instances(*old(ctx))[i]).node_id == f,
            ),
    {
        let ghost c0 = *ctx;
        let ghost col = node_id@;
        let ghost owner = |f: Seq<char>, t: Seq<char>| false;
        let ghost feeder = |f: Seq<char>|
            exists|i: int| 0 <= i < current_instances(c0).len() && (#[trigger] current_instances(c0)[i]).node_id == f;
        let instances = ctx.relation_instances_in_current_scope();
        let ghost insts = instances.deep_view();
        let edge_type = if expression.is_some() {
            EdgeType::Derivation
        } else {
            EdgeType::DataFlow
        };
        proof {
            lemma_graph_grows_refl(c0);
        }
        let mut j: usize = 0;
        while j < instances.len()
            invariant
                ctx.wf(),
                insts == instances.deep_view(),
                insts == current_instances(c0),
                0 <= j <= insts.len(),
                col == node_id@,
                edge_type == flow_edge_type(*expression),
                only_graph_changed(c0, *ctx),
                ctx.nodes == c0.nodes,
                graph_grows(c0, *ctx),
                forall|k: int| 0 <= k < j
                    && has_node_id(c0.nodes@, insts[k].node_id)
                    && !c0.joined_table_info.as_map().contains_key(insts[k].node_id)
                    ==> has_edge_id(ctx.edges@, spec_edge_id(#[trigger] insts[k].node_id, col)),
                new_edges_typed(c0.edges@, ctx.edges@, col, flow_edge_type(*expression), *expression, flow_approximate(approximate), owner, feeder),
                owner == (|f: Seq<char>, t: Seq<char>| false),
                feeder == (|f: Seq<char>|
                    exists|i: int| 0 <= i < current_instances(c0).len() && (#[trigger] current_instances(c0)[i]).node_id == f),
            decreases insts.len() - j,
        {
            let relation_id = &instances[j].node_id;
            assert(insts[j as int] == instances@[j as int].deep_view());
            if ctx.node_ids.contains_key(relation_id) && !ctx.joined_table_info.contains_key(relation_id) {
                let ghost c_b = *ctx;
                let flow_edge_id = generate_edge_id(relation_id.as_str(), node_id.as_str());
                let mut flow = Edge::basic(flow_edge_id, relation_id.clone(), node_id.clone(), edge_type);
                flow.expression = copy_opt_string(expression);
                flow.approximate = if approximate {
                    Some(true)
                } else {
                    None
                };
                add_edge_once(ctx, flow);
                proof {
                    let c_a = *ctx;
                    assert(c_a.edges@.take(c_b.edges@.len() as int) =~= c_b.edges@);
                    assert(c_a.nodes@.take(c_b.nodes@.len() as int) =~= c_b.nodes@);
                    lemma_graph_grows_trans(c0, c_b, c_a);
                    lemma_graph_grows_keeps(c_b, c_a);
                    assert(feeder(relation_id@));
                    assert(new_edges_typed(c_b.edges@, c_a.edges@, col, flow_edge_type(*expression), *expression, flow_approximate(approximate), owner, feeder));
                    lemma_new_edges_typed_trans(c0.edges@, c_b.edges@, c_a.edges@, col, flow_edge_type(*expression), *expression, flow_approximate(approximate), owner, feeder, owner, feeder, owner, feeder);
                }
            }
            j = j + 1;
        }
    }

    /// Adds an output column that takes part in no aggregation; see
    /// `add_output_column_with_aggregation`.
    pub fn add_output_column(
        &mut self,
        ctx: &mut StatementContext,
        name: &str,
        sources: Vec<ColumnRef>,
        expression: Option<String>,
        data_type: Option<String>,
        target_node: Option<&str>,
        approximate: bool,
    )
        requires
            old(self).wf(),
            old(ctx).wf(),
        ensures
            final(self).wf(),
            final(ctx).wf(),
            output_column_added(
                *old(self),
                *final(self),
                *old(ctx),
                *final(ctx),
                name@,
                sources.deep_view(),
                expression,
                opt_chars(data_type),
                opt_str(target_node),
                approximate,
            ),
    {
        let target = match target_node {
            Some(t) => Some(string_of(t)),
            None => None,
        };
        assert(opt_chars(target) == opt_str(target_node));
        self.add_output_column_with_aggregation(
            ctx,
            OutputColumnParams {
                name: string_of(name),
                sources,
                expression,
                data_type,
                target_node: target,
                approximate,
                aggregation: None,
            },
        );
    }

    /// Adds an output column: its node, the ownership edge from the target node,
    /// an edge from each source column it reads (or, for a projection without
    /// sources such as `COUNT(*)`, from each base relation of the current scope),
    /// and the output column record. A bare unqualified column that no table
    /// resolves and that is provably ambiguous in a self-join is left out instead.
    #[verifier::rlimit(100)]
    #[verifier::spinoff_prover]
    pub fn add_output_column_with_aggregation(&mut self, ctx: &mut StatementContext, params: OutputColumnParams)
        requires
            old(self).wf(),
            old(ctx).wf(),
        ensures
            final(self).wf(),
            final(ctx).wf(),
            output_column_added(
                *old(self),
                *final(self),
                *old(ctx),
                *final(ctx),
                params.name@,
                params.sources.deep_view(),
                params.expression,
                opt_chars(params.data_type),
                opt_chars(params.target_node),
                params.approximate,
            ),
            !has_node_id(old(ctx).nodes@, spec_column_node_id(opt_chars(params.target_node), old(self).spec_normalize(params.name@)))
                && !drops_unresolved(*old(self), *old(ctx), params.name@, params.sources.deep_view(), params.expression) ==> {
                let n = final(ctx).nodes@[old(ctx).nodes@.len() as int];
                &&& n.id@ == spec_column_node_id(opt_chars(params.target_node), old(self).spec_normalize(params.name@))
                &&& n.node_type == NodeType::Column
                &&& n.label@ == old(self).spec_normalize(params.name@)
                &&& n.qualified_name is None
                &&& n.expression == params.expression
                &&& (params.data_type is None ==> n.metadata is None)
                &&& (params.data_type is Some ==> (n.metadata matches Some(m) && opt_chars(m.data_type) == opt_chars(params.data_type)))
                &&& n.aggregation == params.aggregation
            },
    {
        let ghost a0 = *self;
        let ghost c0 = *ctx;
        let ghost refs = params.sources.deep_view();
        let OutputColumnParams { name, sources, expression, data_type, target_node, approximate, aggregation } = params;
        let normalized_name = self.normalize_identifier(name.as_str());
        let node_id = generate_column_node_id(opt_as_str(&target_node), normalized_name.as_str());
        let ghost col = node_id@;
        assert(col == spec_column_node_id(opt_chars(target_node), a0.spec_normalize(name@)));
        let metadata = match &data_type {
            Some(dt) => Some(NodeMetadata { data_type: Some(dt.clone()), placeholder: false }),
            None => None,
        };
        let mut col_node = Node::basic(node_id.clone(), NodeType::Column, normalized_name.clone(), None);
        col_node.expression = copy_opt_string(&expression);
        col_node.metadata = metadata;
        col_node.aggregation = aggregation;
        let ghost the_node = col_node;
        ctx.add_node(col_node);
        let ownership_edge_id: Option<String> = match &target_node {
            Some(t) => {
                let eid = generate_edge_id(t.as_str(), node_id.as_str());
                add_edge_once(ctx, Edge::basic(eid.clone(), t.clone(), node_id.clone(), EdgeType::Ownership));
                Some(eid)
            },
            None => None,
        };
        let ghost c1 = *ctx;
        let ghost tgt = opt_chars(target_node);
        let ghost own0 = |f: Seq<char>, t: Seq<char>| tgt == Some(f) && t == col;
        let ghost none0 = |f: Seq<char>| false;
        let ghost owner = |f: Seq<char>, t: Seq<char>| owned_by_output(a0, c0, refs, tgt, col, f, t);
        let ghost feeder = |f: Seq<char>| feeds_output(a0, c0, refs, f);
        proof {
            assert(new_edges_typed(c0.edges@, c1.edges@, col, flow_edge_type(expression), expression, flow_approximate(approximate), own0, none0));
            if let Some(t) = tgt {
                if !has_edge_id(c0.edges@, spec_edge_id(t, col)) {
                    assert(c1.edges@[c0.edges@.len() as int].id@ == spec_edge_id(t, col));
                    assert(edge_at(c1.edges@, spec_edge_id(t, col), t, col, EdgeType::Ownership));
                }
            }
            assert(c1.nodes@.take(c0.nodes@.len() as int) =~= c0.nodes@);
            assert(c1.edges@.take(c0.edges@.len() as int) =~= c0.edges@);
            if !has_node_id(c0.nodes@, col) {
                assert(c1.nodes@[c0.nodes@.len() as int] == the_node);
            }
            assert forall|k: Seq<char>| has_node_id(c1.nodes@, k) <==> (has_node_id(c0.nodes@, k) || k == col) by {
                lemma_graph_grows_keeps(c0, c1);
                if has_node_id(c1.nodes@, k) && !has_node_id(c0.nodes@, k) {
                    let j = choose|j: int| 0 <= j < c1.nodes@.len() && (#[trigger] c1.nodes@[j]).id@ == k;
                    if j < c0.nodes@.len() {
                        assert(c1.nodes@.take(c0.nodes@.len() as int)[j] == c1.nodes@[j]);
                    }
                }
            }
            lemma_sources_frame(a0, a0, c0, c1, refs);
        }
        let resolved_sources = self.add_source_flows(ctx, &sources, &node_id, &expression, approximate);
        let ghost c2 = *ctx;
        let ghost a2 = *self;
        proof {
            lemma_graph_grows_trans(c0, c1, c2);
            lemma_graph_grows_keeps(c1, c2);
            let os = |f: Seq<char>, t: Seq<char>|
                exists|k: int| 0 <= k < refs.len() && #[trigger] source_edge_ends(a0, c1, refs[k], f, t);
            let fs = |f: Seq<char>| exists|k: int| 0 <= k < refs.len() && #[trigger] source_feeds(a0, c1, refs[k], f);
            assert forall|x: Seq<char>, y: Seq<char>| #[trigger] own0(x, y) implies owner(x, y) by {}
            assert forall|x: Seq<char>, y: Seq<char>| #[trigger] os(x, y) implies owner(x, y) by {
                let k = choose|k: int| 0 <= k < refs.len() && #[trigger] source_edge_ends(a0, c1, refs[k], x, y);
                assert(source_edge_ends(a0, c0, refs[k], x, y));
            }
            assert forall|x: Seq<char>| #[trigger] fs(x) implies feeder(x) by {
                let k = choose|k: int| 0 <= k < refs.len() && #[trigger] source_feeds(a0, c1, refs[k], x);
                assert(source_feeds(a0, c0, refs[k], x));
            }
            lemma_new_edges_typed_trans(c0.edges@, c1.edges@, c2.edges@, col, flow_edge_type(expression), expression, flow_approximate(approximate), own0, none0, os, fs, owner, feeder);
            if let Some(t) = tgt {
                if !has_edge_id(c0.edges@, spec_edge_id(t, col)) {
                    lemma_edge_at_kept(c1.edges@, c2.edges@, spec_edge_id(t, col), t, col, EdgeType::Ownership);
                }
            }
            if !has_node_id(c0.nodes@, col) {
                assert(c2.nodes@.take(c1.nodes@.len() as int)[c0.nodes@.len() as int] == c2.nodes@[c0.nodes@.len() as int]);
            }
        }
        if resolved_sources == 0 && sources.len() == 0 {
            self.add_base_relation_flows(ctx, &node_id, &expression, approximate);
            proof {
                let c3 = *ctx;
                lemma_graph_grows_trans(c0, c2, c3);
                lemma_graph_grows_keeps(c2, c3);
                assert(current_instances(c2) == current_instances(c0));
                let ob = |f: Seq<char>, t: Seq<char>| false;
                let fb = |f: Seq<char>|
                    exists|i: int| 0 <= i < current_instances(c2).len() && (#[trigger] current_instances(c2)[i]).node_id == f;
                assert forall|x: Seq<char>| #[trigger] fb(x) implies feeder(x) by {
                    let i = choose|i: int| 0 <= i < current_instances(c2).len() && (#[trigger] current_instances(c2)[i]).node_id == x;
                    assert(current_instances(c0)[i].node_id == x);
                }
                lemma_new_edges_typed_trans(c0.edges@, c2.edges@, c3.edges@, col, flow_edge_type(expression), expression, flow_approximate(approximate), owner, feeder, ob, fb, owner, feeder);
                if let Some(t) = tgt {
                    if !has_edge_id(c0.edges@, spec_edge_id(t, col)) {
                        lemma_edge_at_kept(c2.edges@, c3.edges@, spec_edge_id(t, col), t, col, EdgeType::Ownership);
                    }
                }
            }
        }
        let ghost c3 = *ctx;
        let mut should_drop = resolved_sources == 0 && sources.len() == 1 && expression.is_none()
            && sources[0].table.is_none();
        if should_drop {
            let source_name = self.normalize_identifier(sources[0].column.as_str());
            should_drop = crate::text::str_eq(source_name.as_str(), normalized_name.as_str())
                && !ctx.current_scope_has_table_function_relation()
                && self.is_definitely_ambiguous_unqualified_column(ctx, sources[0].column.as_str());
        }
        proof {
            if sources.len() == 1 {
                assert(refs[0] == sources@[0].deep_view());
                lemma_resolution_frame(a0, a2, c0, c3, refs[0].1);
            }
            assert(should_drop == drops_unresolved(a0, c0, name@, refs, expression));
            lemma_graph_grows_keeps(c0, c3);
        }
        if should_drop {
            ctx.remove_node_by_id(&node_id);
            let ghost c4 = *ctx;
            proof {
                super::context::law_remove_keeps_other_nodes(c3, c4, col);
            }
            match ownership_edge_id {
                Some(eid) => {
                    ctx.remove_edge_by_id(&eid);
                },
                None => {},
            }
            return;
        }
        let ghost before_cols = ctx.output_columns.deep_view();
        let column = OutputColumn { name: normalized_name, data_type, node_id };
        let ghost cv = column.deep_view();
        ctx.output_columns.push(column);
        assert(ctx.output_columns.deep_view() =~= before_cols.push(cv));
    }
}

} // verus!
