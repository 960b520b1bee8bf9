//! Query-level analysis: CTE references, source edges, schema columns, wildcard
//! sources, ambiguity of unqualified columns, pending filters, and backward column
//! inference through `SELECT *` chains.

use vstd::prelude::*;
use vstd::utf8::encode_utf8;

use super::context::{
    count_canonical, current_instances, find_subquery_columns, has_edge_id, has_node_id, opt_chars,
    top_scope_updated, ColumnView, InstanceView, OutputColumn, PendingWildcard, Scope,
    StatementContext,
};
use super::statements::has_edge_view_id;
use super::{Analyzer, SchemaColumn, SchemaOrigin};
use crate::collections::KeyMap;
use crate::ids::{
    decimal, generate_column_node_id, generate_edge_id, generate_node_id, spec_column_node_id, spec_edge_id,
    spec_node_id, usize_to_string,
};
use crate::text::string_of;
use crate::types::{
    Edge, EdgeType, EdgeView, FilterView, JoinType, Node, NodeMetadata, NodeType, ResolutionSource,
};

verus! {

/// A column to add while a wildcard is expanded: its name and data type.
pub struct ExpandedColumnInfo {
    pub name: String,
    pub data_type: Option<String>,
}

impl ExpandedColumnInfo {
    /// Creates column info from schema metadata or output columns.
    pub fn new(name: String, data_type: Option<String>) -> (r: ExpandedColumnInfo)
        ensures
            r.name == name,
            r.data_type == data_type,
    {
        ExpandedColumnInfo { name, data_type }
    }
}


/// The joined-relation map after a relation that already has a node is joined again.
pub open spec fn joined_after_reuse(ctx: StatementContext, node_id: Seq<char>) -> Map<Seq<char>, super::context::JoinView> {
    let m = ctx.joined_table_info.as_map();
    if (ctx.current_join_info.join_type is None && ctx.current_join_info.join_condition is None)
        || m.contains_key(node_id) {
        m
    } else {
        m.insert(node_id, ctx.current_join_info.deep_view())
    }
}

/// The data flow edge from a source relation to the node it feeds.
pub open spec fn source_edge(ctx: StatementContext, source_id: Seq<char>, target: Seq<char>) -> EdgeView {
    EdgeView {
        id: spec_edge_id(source_id, target),
        from: source_id,
        to: target,
        edge_type: EdgeType::DataFlow,
        expression: None,
        operation: opt_chars(ctx.last_operation),
        join_type: ctx.current_join_info.join_type,
        join_condition: opt_chars(ctx.current_join_info.join_condition),
        approximate: None,
    }
}

/// `edges` after `e` is added, unless an edge with its identifier is there.
pub open spec fn with_edge(edges: Seq<EdgeView>, e: EdgeView) -> Seq<EdgeView> {
    if exists|i: int| 0 <= i < edges.len() && (#[trigger] edges[i]).id == e.id {
        edges
    } else {
        edges.push(e)
    }
}

/// A plain edge with no operation, join or approximation facts.
pub open spec fn plain_edge(from: Seq<char>, to: Seq<char>, edge_type: EdgeType) -> EdgeView {
    EdgeView {
        id: spec_edge_id(from, to),
        from,
        to,
        edge_type,
        expression: None,
        operation: None,
        join_type: None,
        join_condition: None,
        approximate: None,
    }
}

/// Whether `a` comes before `b` in lexicographic order of code points.
pub open spec fn lex_less(a: Seq<char>, b: Seq<char>) -> bool
    decreases a.len(),
{
    if a.len() == 0 {
        b.len() > 0
    } else if b.len() == 0 {
        false
    } else if a[0] != b[0] {
        (a[0] as u32) < (b[0] as u32)
    } else {
        lex_less(a.drop_first(), b.drop_first())
    }
}

/// Whether `candidate` should replace `existing` as the qualifier of a relation with
/// canonical name `canonical`: the canonical name wins, then the longer qualifier (in
/// UTF-8 bytes), then the lexicographically smaller one.
pub open spec fn prefers_qualifier(existing: Seq<char>, candidate: Seq<char>, canonical: Seq<char>) -> bool {
    if existing == canonical {
        false
    } else if candidate == canonical {
        true
    } else if encode_utf8(candidate).len() != encode_utf8(existing).len() {
        encode_utf8(candidate).len() > encode_utf8(existing).len()
    } else {
        lex_less(candidate, existing)
    }
}

/// The position of the first pick for relation node `node` in `picks`, or -1.
pub open spec fn pick_index(picks: Seq<(Seq<char>, Seq<char>, Seq<char>)>, node: Seq<char>) -> int
    decreases picks.len(),
{
    if picks.len() == 0 {
        -1
    } else if picks[0].0 == node {
        0
    } else {
        let r = pick_index(picks.drop_first(), node);
        if r < 0 {
            -1
        } else {
            r + 1
        }
    }
}

/// One (node, canonical name, qualifier) pick per relation node among the alias
/// instances `quals` -> `insts`, visited in order, keeping the preferred qualifier.
pub open spec fn wildcard_picks(quals: Seq<Seq<char>>, insts: Seq<InstanceView>) -> Seq<(Seq<char>, Seq<char>, Seq<char>)>
    decreases quals.len(),
{
    if quals.len() == 0 {
        Seq::empty()
    } else {
        let n = quals.len() - 1;
        let acc = wildcard_picks(quals.take(n), insts);
        let q = quals[n];
        let inst = insts[n];
        let k = pick_index(acc, inst.node_id);
        if k < 0 {
            acc.push((inst.node_id, inst.canonical, q))
        } else if prefers_qualifier(acc[k].2, q, inst.canonical) {
            acc.update(k, (inst.node_id, inst.canonical, q))
        } else {
            acc
        }
    }
}

/// The wildcard sources of the current scope: (canonical name, qualifier) pairs.
pub open spec fn wildcard_sources(ctx: StatementContext) -> Seq<(Seq<char>, Seq<char>)> {
    if ctx.scope_stack@.len() == 0 {
        Seq::empty()
    } else {
        let insts = ctx.scope_stack@.last().alias_instances;
        wildcard_picks(insts.key_seq(), insts.value_seq()).map_values(
            |t: (Seq<char>, Seq<char>, Seq<char>)| (t.1, t.2),
        )
    }
}

proof fn lemma_pick_index_bounds(picks: Seq<(Seq<char>, Seq<char>, Seq<char>)>, node: Seq<char>)
    ensures
        -1 <= pick_index(picks, node) < picks.len(),
        pick_index(picks, node) >= 0 ==> picks[pick_index(picks, node)].0 == node,
        forall|j: int| 0 <= j < picks.len() && j < pick_index(picks, node) ==> (#[trigger] picks[j]).0 != node,
        pick_index(picks, node) < 0 ==> forall|j: int| 0 <= j < picks.len() ==> (#[trigger] picks[j]).0 != node,
    decreases picks.len(),
{
    if picks.len() > 0 {
        let rest = picks.drop_first();
        lemma_pick_index_bounds(rest, node);
        assert forall|j: int| 0 < j < picks.len() implies (#[trigger] picks[j]) == rest[j - 1] by {}
    }
}

pub fn str_lex_less(a: &str, b: &str) -> (r: bool)
    ensures
        r == lex_less(a@, b@),
{
    let n = a.unicode_len();
    let m = b.unicode_len();
    let mut i: usize = 0;
    assert(a@.skip(0) =~= a@);
    assert(b@.skip(0) =~= b@);
    while i < n && i < m
        invariant
            n == a@.len(),
            m == b@.len(),
            0 <= i <= n,
            i <= m,
            lex_less(a@, b@) == lex_less(a@.skip(i as int), b@.skip(i as int)),
        decreases n - i,
    {
        let ca = a.get_char(i);
        let cb = b.get_char(i);
        let ghost sa = a@.skip(i as int);
        let ghost sb = b@.skip(i as int);
        assert(sa[0] == ca && sb[0] == cb);
        if ca != cb {
            return (ca as u32) < (cb as u32);
        }
        assert(sa.drop_first() =~= a@.skip(i + 1));
        assert(sb.drop_first() =~= b@.skip(i + 1));
        i = i + 1;
    }
    i < m
}

/// An inferred column node: a column of `source_canonical` known only from a
/// `SELECT *` chain.
pub open spec fn is_inferred_column(n: Node, id: Seq<char>, source_canonical: Seq<char>, column: Seq<char>) -> bool {
    &&& n.id@ == id
    &&& n.node_type == NodeType::Column
    &&& n.label@ == column
    &&& n.qualified_name matches Some(q) && q@ == source_canonical + "."@ + column
    &&& n.resolution_source == Some(ResolutionSource::Implied)
    &&& n.expression is None
    &&& n.span is None
    &&& n.metadata is None
    &&& n.filters@.len() == 0
    &&& n.name_spans@.len() == 0
}

/// The implied-schema record after a column of `table` is seen with `data_type`.
pub open spec fn recorded_column(
    m: Map<(Seq<char>, Seq<char>), Option<Seq<char>>>,
    table: Seq<char>,
    column: Seq<char>,
    data_type: Option<Seq<char>>,
) -> Map<(Seq<char>, Seq<char>), Option<Seq<char>>> {
    let key = (table, column);
    if m.contains_key(key) && m[key] is Some {
        m
    } else {
        m.insert(key, data_type)
    }
}


/// What inferring a column of a source relation does to the context, besides its
/// edges: nothing when the column node exists; otherwise the inferred column node is
/// appended and the column is recorded in the implied schema.
pub open spec fn column_inferred(
    a: StatementContext,
    b: StatementContext,
    source_canonical: Seq<char>,
    source_node_id: Seq<char>,
    column: Seq<char>,
    data_type: Option<Seq<char>>,
) -> bool {
    let cid = spec_column_node_id(Some(source_node_id), column);
    if has_node_id(a.nodes@, cid) {
        b == (StatementContext { edges: b.edges, edge_ids: b.edge_ids, ..a })
    } else {
        &&& b.nodes@.len() == a.nodes@.len() + 1
        &&& b.nodes@.drop_last() == a.nodes@
        &&& is_inferred_column(b.nodes@.last(), cid, source_canonical, column)
        &&& b.source_table_columns.as_map() == recorded_column(
            a.source_table_columns.as_map(),
            source_canonical,
            column,
            data_type,
        )
        &&& b == (StatementContext {
            nodes: b.nodes,
            node_ids: b.node_ids,
            node_index: b.node_index,
            edges: b.edges,
            edge_ids: b.edge_ids,
            source_table_columns: b.source_table_columns,
            ..a
        })
    }
}

/// The edges after a column of a source relation is inferred: an ownership edge from
/// the relation to the new column node.
pub open spec fn edges_after_inferred(a: StatementContext, source_node_id: Seq<char>, column: Seq<char>) -> Seq<EdgeView> {
    let cid = spec_column_node_id(Some(source_node_id), column);
    if has_node_id(a.nodes@, cid) {
        a.edges.deep_view()
    } else {
        with_edge(a.edges.deep_view(), plain_edge(source_node_id, cid, EdgeType::Ownership))
    }
}

/// The node of `nodes` with identifier `id`, if any.
pub open spec fn node_by_id(nodes: Seq<Node>, id: Seq<char>) -> Option<Node> {
    if has_node_id(nodes, id) {
        Some(nodes[choose|i: int| 0 <= i < nodes.len() && (#[trigger] nodes[i]).id@ == id])
    } else {
        None
    }
}

/// The data type recorded on a column node.
pub open spec fn column_data_type(n: Node) -> Option<Seq<char>> {
    match n.metadata {
        Some(m) => m.data_type.deep_view(),
        None => None,
    }
}

/// The columns owned by `owner`, by the ownership edges of `edges` in order: name,
/// data type and node identifier of each column node found among `nodes`.
pub open spec fn owned_columns(edges: Seq<Edge>, nodes: Seq<Node>, owner: Seq<char>) -> Seq<(Seq<char>, Option<Seq<char>>, Seq<char>)>
    decreases edges.len(),
{
    if edges.len() == 0 {
        Seq::empty()
    } else {
        let acc = owned_columns(edges.drop_last(), nodes, owner);
        let e = edges.last();
        if e.edge_type == EdgeType::Ownership && e.from@ == owner {
            match node_by_id(nodes, e.to@) {
                Some(n) => if n.node_type == NodeType::Column {
                    acc.push((n.label@, column_data_type(n), n.id@))
                } else {
                    acc
                },
                None => acc,
            }
        } else {
            acc
        }
    }
}

/// The filters of `n` once the pending predicates for its identifier, then those for
/// its qualified name, are applied.
pub open spec fn filters_after(
    n: Node,
    by_instance: Map<Seq<char>, Seq<FilterView>>,
    by_canonical: Map<Seq<char>, Seq<FilterView>>,
) -> Seq<FilterView> {
    n.filters.deep_view() + super::context::pending_for(by_instance, n.id@) + match n.qualified_name {
        Some(q) => super::context::pending_for(by_canonical, q@),
        None => Seq::empty(),
    }
}


/// Backward column inference follows `SELECT *` chains at most this deep, which
/// bounds the work on pathological or cyclic queries.
pub const MAX_INFERENCE_DEPTH: usize = 20;

/// `edges` holds `e`, or else another edge that bears its identifier.
pub open spec fn edge_or_namesake(edges: Seq<EdgeView>, e: EdgeView) -> bool {
    ||| exists|i: int| 0 <= i < edges.len() && #[trigger] edges[i] == e
    ||| exists|i: int| 0 <= i < edges.len() && (#[trigger] edges[i]).id == e.id && edges[i] != e
}

/// An edge identifier in `edges` is borne by `e` or by another edge.
proof fn lemma_edge_or_namesake(edges: Seq<EdgeView>, e: EdgeView)
    requires
        has_edge_view_id(edges, e.id),
    ensures
        edge_or_namesake(edges, e),
{
    let i = choose|i: int| 0 <= i < edges.len() && (#[trigger] edges[i]).id == e.id;
    if edges[i] == e {
        assert(exists|i: int| 0 <= i < edges.len() && #[trigger] edges[i] == e);
    }
}

/// A plain ownership or data flow edge, identified by its endpoints and carrying
/// no expression, operation, join or approximation facts.
pub open spec fn is_inferred_edge(e: EdgeView) -> bool {
    &&& e.edge_type == EdgeType::Ownership || e.edge_type == EdgeType::DataFlow
    &&& e == plain_edge(e.from, e.to, e.edge_type)
}

/// `b` extends `a` by backward column inference: the nodes and edges of `a` stay, in
/// order; each added node is an implied column and each added edge a plain ownership
/// or data flow edge; besides the implied schema nothing else changes.
pub open spec fn inference_grows(a: StatementContext, b: StatementContext) -> bool {
    &&& a.nodes@.len() <= b.nodes@.len()
    &&& b.nodes@.take(a.nodes@.len() as int) == a.nodes@
    &&& a.edges@.len() <= b.edges@.len()
    &&& b.edges.deep_view().take(a.edges@.len() as int) == a.edges.deep_view()
    &&& forall|i: int| a.nodes@.len() <= i < b.nodes@.len() ==> (#[trigger] b.nodes@[i]).node_type == NodeType::Column
        && b.nodes@[i].resolution_source == Some(ResolutionSource::Implied)
    &&& forall|i: int| a.edges@.len() <= i < b.edges@.len() ==> is_inferred_edge(#[trigger] b.edges.deep_view()[i])
    &&& b == (StatementContext {
        nodes: b.nodes,
        node_ids: b.node_ids,
        node_index: b.node_index,
        edges: b.edges,
        edge_ids: b.edge_ids,
        source_table_columns: b.source_table_columns,
        ..a
    })
}

/// Inference growth composes.
proof fn lemma_grows_trans(a: StatementContext, b: StatementContext, c: StatementContext)
    requires
        inference_grows(a, b),
        inference_grows(b, c),
    ensures
        inference_grows(a, c),
{
    assert(c.nodes@.take(a.nodes@.len() as int) =~= b.nodes@.take(a.nodes@.len() as int)) by {
        assert forall|i: int| 0 <= i < a.nodes@.len() implies c.nodes@[i] == b.nodes@[i] by {
            assert(c.nodes@.take(b.nodes@.len() as int)[i] == b.nodes@[i]);
        }
    }
    assert(c.edges.deep_view().take(a.edges@.len() as int) =~= b.edges.deep_view().take(a.edges@.len() as int)) by {
        assert forall|i: int| 0 <= i < a.edges@.len() implies c.edges.deep_view()[i] == b.edges.deep_view()[i] by {
            assert(c.edges.deep_view().take(b.edges@.len() as int)[i] == b.edges.deep_view()[i]);
        }
    }
    assert forall|i: int| a.nodes@.len() <= i < c.nodes@.len() implies (#[trigger] c.nodes@[i]).node_type == NodeType::Column
        && c.nodes@[i].resolution_source == Some(ResolutionSource::Implied) by {
        if i < b.nodes@.len() {
            assert(c.nodes@.take(b.nodes@.len() as int)[i] == b.nodes@[i]);
        }
    }
    assert forall|i: int| a.edges@.len() <= i < c.edges@.len() implies is_inferred_edge(#[trigger] c.edges.deep_view()[i]) by {
        if i < b.edges@.len() {
            assert(c.edges.deep_view().take(b.edges@.len() as int)[i] == b.edges.deep_view()[i]);
        }
    }
}

/// Growth keeps every node and every edge identifier.
proof fn lemma_grows_keeps(a: StatementContext, b: StatementContext, node: Seq<char>, edge: Seq<char>)
    requires
        inference_grows(a, b),
    ensures
        has_node_id(a.nodes@, node) ==> has_node_id(b.nodes@, node),
        has_edge_view_id(a.edges.deep_view(), edge) ==> has_edge_view_id(b.edges.deep_view(), edge),
{
    if has_node_id(a.nodes@, node) {
        let i = choose|i: int| 0 <= i < a.nodes@.len() && (#[trigger] a.nodes@[i]).id@ == node;
        assert(b.nodes@.take(a.nodes@.len() as int)[i] == b.nodes@[i]);
        assert(b.nodes@[i].id@ == node);
    }
    if has_edge_view_id(a.edges.deep_view(), edge) {
        let i = choose|i: int| 0 <= i < a.edges.deep_view().len() && (#[trigger] a.edges.deep_view()[i]).id == edge;
        assert(b.edges.deep_view().take(a.edges@.len() as int)[i] == b.edges.deep_view()[i]);
    }
}

/// Growth is reflexive.
proof fn lemma_grows_refl(a: StatementContext)
    ensures
        inference_grows(a, a),
{
    assert(a.nodes@.take(a.nodes@.len() as int) =~= a.nodes@);
    assert(a.edges.deep_view().take(a.edges@.len() as int) =~= a.edges.deep_view());
}

/// Inferring a column with its edge to a target column grows the context, and
/// leaves the column node and the data flow edge in it.
proof fn lemma_inferred_grows(
    a: StatementContext,
    b: StatementContext,
    source_canonical: Seq<char>,
    source_node_id: Seq<char>,
    column: Seq<char>,
    data_type: Option<Seq<char>>,
    target: Seq<char>,
)
    requires
        column_inferred(a, b, source_canonical, source_node_id, column, data_type),
        b.edges.deep_view() == with_edge(
            edges_after_inferred(a, source_node_id, column),
            plain_edge(spec_column_node_id(Some(source_node_id), column), target, EdgeType::DataFlow),
        ),
    ensures
        inference_grows(a, b),
        has_node_id(b.nodes@, spec_column_node_id(Some(source_node_id), column)),
        has_edge_view_id(b.edges.deep_view(), spec_edge_id(spec_column_node_id(Some(source_node_id), column), target)),
{
    let cid = spec_column_node_id(Some(source_node_id), column);
    let mid = edges_after_inferred(a, source_node_id, column);
    let df = plain_edge(cid, target, EdgeType::DataFlow);
    let av = a.edges.deep_view();
    let bv = b.edges.deep_view();
    assert(mid.len() >= av.len() && mid.take(av.len() as int) =~= av);
    assert(bv.len() >= mid.len() && bv.take(mid.len() as int) =~= mid);
    assert(bv.take(av.len() as int) =~= av) by {
        assert forall|i: int| 0 <= i < av.len() implies bv[i] == av[i] by {
            assert(bv.take(mid.len() as int)[i] == mid[i]);
            assert(mid.take(av.len() as int)[i] == av[i]);
        }
    }
    lemma_with_edge(av, plain_edge(source_node_id, cid, EdgeType::Ownership));
    lemma_with_edge(mid, df);
    assert forall|i: int| a.edges@.len() <= i < b.edges@.len() implies is_inferred_edge(#[trigger] b.edges.deep_view()[i]) by {
        if i < mid.len() {
            assert(bv.take(mid.len() as int)[i] == mid[i]);
            assert(!has_node_id(a.nodes@, cid));
            assert(mid == with_edge(av, plain_edge(source_node_id, cid, EdgeType::Ownership)));
            assert(mid[i] == plain_edge(source_node_id, cid, EdgeType::Ownership));
        } else {
            assert(bv[i] == df);
        }
    }
    if has_node_id(a.nodes@, cid) {
        assert(b.nodes@.take(a.nodes@.len() as int) =~= a.nodes@);
    } else {
        assert(b.nodes@.take(a.nodes@.len() as int) =~= a.nodes@);
        assert(b.nodes@[b.nodes@.len() - 1].id@ == cid);
    }
    if !has_edge_view_id(mid, df.id) {
        assert(bv[bv.len() - 1].id == df.id);
    } else {
        let i = choose|i: int| 0 <= i < mid.len() && (#[trigger] mid[i]).id == df.id;
        assert(bv[i].id == df.id);
    }
}

/// The tables of the current scope, in the order they were registered.
pub open spec fn scope_tables(ctx: StatementContext) -> Seq<Seq<char>> {
    if ctx.scope_stack@.len() > 0 {
        ctx.scope_stack@.last().tables.key_seq()
    } else {
        Seq::empty()
    }
}

/// Whether `columns` has one named `name`.
pub open spec fn has_output_column(columns: Seq<ColumnView>, name: Seq<char>) -> bool {
    exists|i: int| 0 <= i < columns.len() && (#[trigger] columns[i]).name == name
}

/// Whether the known schema of `table` has a column that normalizes to `name`.
pub open spec fn schema_has_column(a: Analyzer, table: Seq<char>, name: Seq<char>) -> bool {
    a.schema.as_map().contains_key(table) && exists|i: int|
        0 <= i < a.schema.as_map()[table].columns.len()
            && a.spec_normalize((#[trigger] a.schema.as_map()[table].columns[i]).0) == name
}

/// Whether table `table` of the current scope may own the normalized column `name`:
/// its subquery columns or its known schema have it.
pub open spec fn table_may_own(a: Analyzer, ctx: StatementContext, table: Seq<char>, name: Seq<char>) -> bool {
    (match find_subquery_columns(ctx.scope_stack@, ctx.aliased_subquery_columns.as_map(), table) {
        Some(cols) => has_output_column(cols, name),
        None => false,
    }) || schema_has_column(a, table, name)
}

/// The tables of `tables` that may own the normalized column `name`, in order.
pub open spec fn candidate_tables(a: Analyzer, ctx: StatementContext, tables: Seq<Seq<char>>, name: Seq<char>) -> Seq<Seq<char>>
    decreases tables.len(),
{
    if tables.len() == 0 {
        Seq::empty()
    } else {
        let rest = candidate_tables(a, ctx, tables.drop_last(), name);
        if table_may_own(a, ctx, tables.last(), name) {
            rest.push(tables.last())
        } else {
            rest
        }
    }
}

/// Whether an unqualified column is provably ambiguous in the current scope: several
/// relation instances are in scope and either several tables have the column, or the
/// one table that has it occurs more than once, or no table is known to have it and
/// all instances are of one canonical table.
pub open spec fn definitely_ambiguous(a: Analyzer, ctx: StatementContext, column: Seq<char>) -> bool {
    let insts = current_instances(ctx);
    let cands = candidate_tables(a, ctx, scope_tables(ctx), a.spec_normalize(column));
    if insts.len() <= 1 {
        false
    } else if cands.len() > 1 {
        true
    } else if cands.len() == 1 {
        count_canonical(insts, cands[0]) > 1
    } else {
        forall|i: int| 0 <= i < insts.len() ==> (#[trigger] insts[i]).canonical == insts[0].canonical
    }
}

/// The column node of column `column` of table `canonical` with node `node`.
pub open spec fn is_schema_column_node(n: Node, canonical: Seq<char>, node: Seq<char>, column: Seq<char>) -> bool {
    &&& n.id@ == spec_column_node_id(Some(node), column)
    &&& n.node_type == NodeType::Column
    &&& n.label@ == column
    &&& n.qualified_name matches Some(q) && q@ == canonical + "."@ + column
}

/// The column node of one of the columns `cols` of table `canonical` with node `node`.
pub open spec fn is_column_of(n: Node, canonical: Seq<char>, node: Seq<char>, cols: Seq<(Seq<char>, Option<Seq<char>>)>) -> bool {
    exists|k: int| 0 <= k < cols.len() && is_schema_column_node(n, canonical, node, #[trigger] cols[k].0)
}

/// `b` extends `a` by the schema columns `cols` of table `canonical` with node
/// `node`: the nodes and edges of `a` stay, in order; each added node is a column node
/// of one of `cols` and each added edge an ownership edge from `node`.
pub open spec fn schema_columns_grow(
    a: StatementContext,
    b: StatementContext,
    canonical: Seq<char>,
    node: Seq<char>,
    cols: Seq<(Seq<char>, Option<Seq<char>>)>,
) -> bool {
    &&& a.nodes@.len() <= b.nodes@.len()
    &&& b.nodes@.take(a.nodes@.len() as int) == a.nodes@
    &&& a.edges@.len() <= b.edges@.len()
    &&& b.edges.deep_view().take(a.edges@.len() as int) == a.edges.deep_view()
    &&& forall|i: int| a.nodes@.len() <= i < b.nodes@.len() ==> is_column_of(#[trigger] b.nodes@[i], canonical, node, cols)
    &&& forall|i: int| a.edges@.len() <= i < b.edges@.len() ==> (#[trigger] b.edges@[i]).edge_type == EdgeType::Ownership
        && b.edges@[i].from@ == node
    &&& b == (StatementContext {
        nodes: b.nodes,
        node_ids: b.node_ids,
        node_index: b.node_index,
        edges: b.edges,
        edge_ids: b.edge_ids,
        ..a
    })
}

/// Whether `columns` has one named `name`.
fn output_columns_have(columns: &[OutputColumn], name: &String) -> (r: bool)
    ensures
        r == has_output_column(columns.deep_view(), name@),
{
    let mut i: usize = 0;
    while i < columns.len()
        invariant
            0 <= i <= columns@.len(),
            forall|j: int| 0 <= j < i ==> (#[trigger] columns.deep_view()[j]).name != name@,
        decreases columns@.len() - i,
    {
        assert(columns.deep_view()[i as int] == columns@[i as int].deep_view());
        if columns[i].name == *name {
            return true;
        }
        i = i + 1;
    }
    false
}

/// A node sequence that starts with `a` keeps the identifiers of `a`.
proof fn lemma_node_kept(a: Seq<Node>, b: Seq<Node>)
    requires
        a.len() <= b.len(),
        b.take(a.len() as int) == a,
    ensures
        forall|id: Seq<char>| has_node_id(a, id) ==> #[trigger] has_node_id(b, id),
{
    assert forall|id: Seq<char>| has_node_id(a, id) implies #[trigger] has_node_id(b, id) by {
        let i = choose|i: int| 0 <= i < a.len() && (#[trigger] a[i]).id@ == id;
        assert(b.take(a.len() as int)[i] == b[i]);
    }
}

/// `b` is `a` after its pending filters were applied to its nodes.
pub open spec fn pending_filters_applied(a: StatementContext, b: StatementContext) -> bool {
    &&& b.nodes@.len() == a.nodes@.len()
    &&& forall|i: int| 0 <= i < a.nodes@.len() ==> (#[trigger] b.nodes@[i]) == (Node {
        filters: b.nodes@[i].filters,
        ..a.nodes@[i]
    })
    &&& forall|i: int| 0 <= i < a.nodes@.len() ==> (#[trigger] b.nodes@[i]).filters.deep_view() == filters_after(
        a.nodes@[i],
        a.pending_instance_filters.as_map(),
        a.pending_filters.as_map(),
    )
    &&& b.pending_filters.as_map().is_empty()
    &&& b.pending_instance_filters.as_map().is_empty()
    &&& b == (StatementContext {
        nodes: b.nodes,
        pending_filters: b.pending_filters,
        pending_instance_filters: b.pending_instance_filters,
        ..a
    })
}

/// Applying pending filters a second time changes no node: every pending predicate
/// is applied once.
pub proof fn law_pending_filters_applied_once(a: StatementContext, b: StatementContext, c: StatementContext)
    requires
        pending_filters_applied(a, b),
        pending_filters_applied(b, c),
    ensures
        c.nodes@.len() == b.nodes@.len(),
        forall|i: int| 0 <= i < b.nodes@.len() ==> (#[trigger] c.nodes@[i]) == (Node {
            filters: c.nodes@[i].filters,
            ..b.nodes@[i]
        }),
        forall|i: int| 0 <= i < b.nodes@.len() ==> (#[trigger] c.nodes@[i]).filters.deep_view()
            == b.nodes@[i].filters.deep_view(),
{
    assert forall|i: int| 0 <= i < b.nodes@.len() implies (#[trigger] c.nodes@[i]).filters.deep_view()
        == b.nodes@[i].filters.deep_view() by {
        let n = b.nodes@[i];
        assert(super::context::pending_for(b.pending_instance_filters.as_map(), n.id@) =~= Seq::<FilterView>::empty());
        match n.qualified_name {
            Some(q) => {
                assert(super::context::pending_for(b.pending_filters.as_map(), q@) =~= Seq::<FilterView>::empty());
            },
            None => {},
        }
        assert(filters_after(n, b.pending_instance_filters.as_map(), b.pending_filters.as_map()) =~= n.filters.deep_view());
    }
}

/// No two picks are for the same relation node.
pub open spec fn picks_distinct(picks: Seq<(Seq<char>, Seq<char>, Seq<char>)>) -> bool {
    forall|a: int, b: int| 0 <= a < b < picks.len() ==> picks[a].0 != picks[b].0
}

/// A wildcard expands each relation node of the current scope once, however many
/// aliases name it.
pub proof fn law_wildcard_sources_one_per_node(quals: Seq<Seq<char>>, insts: Seq<InstanceView>)
    requires
        quals.len() <= insts.len(),
    ensures
        picks_distinct(wildcard_picks(quals, insts)),
        forall|i: int| 0 <= i < quals.len() ==> pick_index(wildcard_picks(quals, insts), #[trigger] insts[i].node_id) >= 0,
    decreases quals.len(),
{
    if quals.len() > 0 {
        let n = quals.len() - 1;
        let prev = quals.take(n);
        law_wildcard_sources_one_per_node(prev, insts);
        let acc = wildcard_picks(prev, insts);
        let inst = insts[n];
        let picks = wildcard_picks(quals, insts);
        lemma_pick_index_bounds(acc, inst.node_id);
        let k = pick_index(acc, inst.node_id);
        assert forall|i: int| 0 <= i < quals.len() implies pick_index(picks, #[trigger] insts[i].node_id) >= 0 by {
            lemma_pick_index_bounds(picks, insts[i].node_id);
            if i < n {
                assert(prev.len() == n);
                assert(pick_index(acc, insts[i].node_id) >= 0);
                lemma_pick_index_bounds(acc, insts[i].node_id);
                let j = pick_index(acc, insts[i].node_id);
                assert(picks[j].0 == insts[i].node_id);
            } else {
                if k < 0 {
                    assert(picks[acc.len() as int].0 == inst.node_id);
                } else {
                    assert(picks[k].0 == inst.node_id);
                }
            }
        }
    }
}

/// `b` keeps the nodes and edges of `a`, in order, and may have more.
pub open spec fn graph_extends(a: StatementContext, b: StatementContext) -> bool {
    &&& a.nodes@.len() <= b.nodes@.len()
    &&& b.nodes@.take(a.nodes@.len() as int) == a.nodes@
    &&& a.edges@.len() <= b.edges@.len()
    &&& b.edges.deep_view().take(a.edges@.len() as int) == a.edges.deep_view()
}

proof fn lemma_extends_refl(a: StatementContext)
    ensures
        graph_extends(a, a),
{
    assert(a.nodes@.take(a.nodes@.len() as int) =~= a.nodes@);
    assert(a.edges.deep_view().take(a.edges@.len() as int) =~= a.edges.deep_view());
}

proof fn lemma_extends_trans(a: StatementContext, b: StatementContext, c: StatementContext)
    requires
        graph_extends(a, b),
        graph_extends(b, c),
    ensures
        graph_extends(a, c),
{
    assert(c.nodes@.take(a.nodes@.len() as int) =~= a.nodes@) by {
        assert forall|i: int| 0 <= i < a.nodes@.len() implies c.nodes@[i] == a.nodes@[i] by {
            assert(c.nodes@.take(b.nodes@.len() as int)[i] == b.nodes@[i]);
            assert(b.nodes@.take(a.nodes@.len() as int)[i] == a.nodes@[i]);
        }
    }
    assert(c.edges.deep_view().take(a.edges@.len() as int) =~= a.edges.deep_view()) by {
        assert forall|i: int| 0 <= i < a.edges@.len() implies c.edges.deep_view()[i] == a.edges.deep_view()[i] by {
            assert(c.edges.deep_view().take(b.edges@.len() as int)[i] == b.edges.deep_view()[i]);
            assert(b.edges.deep_view().take(a.edges@.len() as int)[i] == a.edges.deep_view()[i]);
        }
    }
}

/// Extending the graph keeps every node and every edge identifier.
proof fn lemma_extends_keeps(a: StatementContext, b: StatementContext, node: Seq<char>, edge: Seq<char>)
    requires
        graph_extends(a, b),
    ensures
        has_node_id(a.nodes@, node) ==> has_node_id(b.nodes@, node),
        has_edge_view_id(a.edges.deep_view(), edge) ==> has_edge_view_id(b.edges.deep_view(), edge),
{
    if has_node_id(a.nodes@, node) {
        let i = choose|i: int| 0 <= i < a.nodes@.len() && (#[trigger] a.nodes@[i]).id@ == node;
        assert(b.nodes@.take(a.nodes@.len() as int)[i] == b.nodes@[i]);
    }
    if has_edge_view_id(a.edges.deep_view(), edge) {
        let i = choose|i: int| 0 <= i < a.edges.deep_view().len() && (#[trigger] a.edges.deep_view()[i]).id == edge;
        assert(b.edges.deep_view().take(a.edges@.len() as int)[i] == b.edges.deep_view()[i]);
    }
}

/// The columns of a CTE reference instance: each source column under the instance node.
pub open spec fn instance_columns(source: Seq<ColumnView>, instance: Seq<char>) -> Seq<ColumnView> {
    source.map_values(
        |c: ColumnView| ColumnView {
            name: c.name,
            data_type: c.data_type,
            node_id: spec_column_node_id(Some(instance), c.name),
        },
    )
}

/// An edge that materializing the columns `source` under `instance` adds: the
/// instance's ownership of one of its columns, or the data flow from a source
/// column's node into the instance column of the same name.
pub open spec fn materialized_edge(e: EdgeView, source: Seq<ColumnView>, instance: Seq<char>) -> bool {
    exists|k: int| 0 <= k < source.len() && {
        let cid = spec_column_node_id(Some(instance), #[trigger] source[k].name);
        ||| e == plain_edge(instance, cid, EdgeType::Ownership)
        ||| e == plain_edge(source[k].node_id, cid, EdgeType::DataFlow)
    }
}

/// Whether the columns of a CTE reference under `alias` are already materialized, or
/// there are no columns of `cte_name` to materialize.
pub open spec fn materialize_skips(ctx: StatementContext, cte_name: Seq<char>, alias: Seq<char>) -> bool {
    (ctx.scope_stack@.len() > 0 && ctx.scope_stack@.last().subquery_columns.as_map().contains_key(alias))
        || find_subquery_columns(ctx.scope_stack@, ctx.aliased_subquery_columns.as_map(), cte_name) is None
}

/// Adding an edge unless its identifier is there keeps the edges in order and leaves
/// an edge with its identifier.
proof fn lemma_with_edge(edges: Seq<EdgeView>, e: EdgeView)
    ensures
        with_edge(edges, e).len() >= edges.len(),
        with_edge(edges, e).take(edges.len() as int) == edges,
        has_edge_view_id(with_edge(edges, e), e.id),
        forall|i: int| edges.len() <= i < with_edge(edges, e).len() ==> #[trigger] with_edge(edges, e)[i] == e,
{
    let r = with_edge(edges, e);
    assert(r.take(edges.len() as int) =~= edges);
    if exists|i: int| 0 <= i < edges.len() && (#[trigger] edges[i]).id == e.id {
        let i = choose|i: int| 0 <= i < edges.len() && (#[trigger] edges[i]).id == e.id;
        assert(r[i].id == e.id);
    } else {
        assert(r[edges.len() as int] == e);
    }
}

/// Whether some scope of `scopes` holds the table `name`.
pub open spec fn in_any_scope(scopes: Seq<Scope>, name: Seq<char>) -> bool {
    exists|i: int| 0 <= i < scopes.len() && (#[trigger] scopes[i]).tables.as_map().contains_key(name)
}

/// The key of a CTE reference instance: statement, scope, CTE name and alias.
pub open spec fn cte_instance_key(statement_index: nat, scope_id: nat, cte_name: Seq<char>, alias_key: Seq<char>) -> Seq<char> {
    "statement_"@ + decimal(statement_index) + "::scope_"@ + decimal(scope_id) + "::"@ + cte_name + "::"@ + alias_key
}

/// The node a reference to CTE `cte_name` under `alias` stands for: a separate instance
/// node when the CTE is already in some enclosing scope (a self-join), else the
/// CTE's definition node.
pub open spec fn cte_reference_node(ctx: StatementContext, cte_name: Seq<char>, alias: Option<Seq<char>>) -> Seq<char> {
    if in_any_scope(ctx.scope_stack@, cte_name) {
        let alias_key = match alias {
            Some(a) => a,
            None => cte_name,
        };
        let scope_id = if ctx.scope_stack@.len() > 0 {
            ctx.scope_stack@.last().scope_id
        } else {
            0
        };
        spec_node_id("cte"@, cte_instance_key(ctx.statement_index as nat, scope_id as nat, cte_name, alias_key))
    } else {
        ctx.cte_definitions.as_map()[cte_name]
    }
}

/// In a CTE self-join, references under different aliases get different instance
/// nodes.
pub proof fn law_cte_self_join_aliases_get_distinct_nodes(
    ctx: StatementContext,
    cte_name: Seq<char>,
    alias1: Seq<char>,
    alias2: Seq<char>,
)
    requires
        in_any_scope(ctx.scope_stack@, cte_name),
        alias1 != alias2,
    ensures
        cte_reference_node(ctx, cte_name, Some(alias1)) != cte_reference_node(ctx, cte_name, Some(alias2)),
{
    let scope_id = if ctx.scope_stack@.len() > 0 {
        ctx.scope_stack@.last().scope_id
    } else {
        0
    };
    let prefix = "cte"@ + ":"@ + ("statement_"@ + decimal(ctx.statement_index as nat) + "::scope_"@ + decimal(scope_id as nat)
        + "::"@ + cte_name + "::"@);
    let n1 = cte_reference_node(ctx, cte_name, Some(alias1));
    let n2 = cte_reference_node(ctx, cte_name, Some(alias2));
    assert(n1 =~= prefix + alias1);
    assert(n2 =~= prefix + alias2);
    if n1 == n2 {
        assert((prefix + alias1).skip(prefix.len() as int) =~= alias1);
        assert((prefix + alias2).skip(prefix.len() as int) =~= alias2);
    }
}

/// Scope stacks that differ at most in the current scope, and not in its alias
/// instances, hold the same number of alias instances.
proof fn lemma_same_instances(a: Seq<Scope>, b: Seq<Scope>)
    requires
        a.len() == b.len(),
        forall|i: int| 0 <= i < a.len() - 1 ==> #[trigger] b[i] == a[i],
        a.len() > 0 ==> b.last().alias_instances == a.last().alias_instances,
    ensures
        super::context::total_alias_instances(a) == super::context::total_alias_instances(b),
{
    if a.len() > 0 {
        assert(a.drop_last() =~= b.drop_last());
    }
}

/// Each column of `cols` has an inferred column on `source_node` with a data flow edge
/// from it to the column's node.
pub open spec fn columns_propagated(
    ctx: StatementContext,
    source_node: Seq<char>,
    cols: Seq<(Seq<char>, Option<Seq<char>>, Seq<char>)>,
) -> bool {
    forall|k: int| 0 <= k < cols.len() ==> {
        let cid = spec_column_node_id(Some(source_node), (#[trigger] cols[k]).0);
        &&& has_node_id(ctx.nodes@, cid)
        &&& has_edge_view_id(ctx.edges.deep_view(), spec_edge_id(cid, cols[k].2))
    }
}

/// Owned columns depend on the edges only through their kinds and endpoints.
proof fn lemma_owned_same_views(e1: Seq<Edge>, e2: Seq<Edge>, nodes: Seq<Node>, owner: Seq<char>)
    requires
        e1.len() == e2.len(),
        forall|i: int| 0 <= i < e1.len() ==> (#[trigger] e1[i]).deep_view() == e2[i].deep_view(),
    ensures
        owned_columns(e1, nodes, owner) == owned_columns(e2, nodes, owner),
    decreases e1.len(),
{
    if e1.len() > 0 {
        assert forall|i: int| 0 <= i < e1.len() - 1 implies (#[trigger] e1.drop_last()[i]).deep_view() == e2.drop_last()[i].deep_view() by {
            assert(e1.drop_last()[i] == e1[i]);
            assert(e2.drop_last()[i] == e2[i]);
        }
        lemma_owned_same_views(e1.drop_last(), e2.drop_last(), nodes, owner);
        assert(e1.last().deep_view() == e2.last().deep_view());
    }
}

/// The owned columns of a prefix of the edges are among the owned columns of all edges.
proof fn lemma_owned_prefix(edges: Seq<Edge>, n: int, nodes: Seq<Node>, owner: Seq<char>)
    requires
        0 <= n <= edges.len(),
    ensures
        forall|c: (Seq<char>, Option<Seq<char>>, Seq<char>)| owned_columns(edges.take(n), nodes, owner).contains(c)
            ==> #[trigger] owned_columns(edges, nodes, owner).contains(c),
    decreases edges.len(),
{
    if n == edges.len() {
        assert(edges.take(n) =~= edges);
    } else {
        assert(edges.drop_last().take(n) =~= edges.take(n));
        lemma_owned_prefix(edges.drop_last(), n, nodes, owner);
        let a = owned_columns(edges.drop_last(), nodes, owner);
        let b = owned_columns(edges, nodes, owner);
        assert forall|c: (Seq<char>, Option<Seq<char>>, Seq<char>)| a.contains(c) implies #[trigger] b.contains(c) by {
            let k = choose|k: int| 0 <= k < a.len() && a[k] == c;
            assert(b[k] == a[k]);
        }
    }
}

/// With more nodes (the same ones first, all identifiers distinct), the owned columns
/// found before are found again.
proof fn lemma_owned_more_nodes(edges: Seq<Edge>, na: Seq<Node>, nb: Seq<Node>, owner: Seq<char>)
    requires
        na.len() <= nb.len(),
        nb.take(na.len() as int) == na,
        forall|i: int, j: int| 0 <= i < j < nb.len() ==> nb[i].id@ != nb[j].id@,
    ensures
        forall|c: (Seq<char>, Option<Seq<char>>, Seq<char>)| owned_columns(edges, na, owner).contains(c)
            ==> #[trigger] owned_columns(edges, nb, owner).contains(c),
    decreases edges.len(),
{
    if edges.len() > 0 {
        lemma_owned_more_nodes(edges.drop_last(), na, nb, owner);
        let e = edges.last();
        let a0 = owned_columns(edges.drop_last(), na, owner);
        let b0 = owned_columns(edges.drop_last(), nb, owner);
        let a = owned_columns(edges, na, owner);
        let b = owned_columns(edges, nb, owner);
        if has_node_id(na, e.to@) {
            let i = choose|i: int| 0 <= i < na.len() && (#[trigger] na[i]).id@ == e.to@;
            assert(nb[i] == na[i]) by {
                assert(nb.take(na.len() as int)[i] == nb[i]);
            }
            assert(has_node_id(nb, e.to@));
            let j = choose|j: int| 0 <= j < nb.len() && (#[trigger] nb[j]).id@ == e.to@;
            if i != j {
                if i < j {
                    assert(nb[i].id@ != nb[j].id@);
                } else {
                    assert(nb[j].id@ != nb[i].id@);
                }
            }
            assert forall|x: int, y: int| 0 <= x < y < na.len() implies na[x].id@ != na[y].id@ by {
                assert(nb.take(na.len() as int)[x] == nb[x]);
                assert(nb.take(na.len() as int)[y] == nb[y]);
            }
            let i2 = choose|i2: int| 0 <= i2 < na.len() && (#[trigger] na[i2]).id@ == e.to@;
            if i2 != i {
                if i2 < i {
                    assert(na[i2].id@ != na[i].id@);
                } else {
                    assert(na[i].id@ != na[i2].id@);
                }
            }
            assert(node_by_id(na, e.to@) == node_by_id(nb, e.to@));
        }
        assert forall|c: (Seq<char>, Option<Seq<char>>, Seq<char>)| a.contains(c) implies #[trigger] b.contains(c) by {
            let k = choose|k: int| 0 <= k < a.len() && a[k] == c;
            if k < a0.len() {
                assert(a0.contains(c));
                assert(b0.contains(c));
                let m = choose|m: int| 0 <= m < b0.len() && b0[m] == c;
                assert(b[m] == b0[m]);
            } else {
                assert(b[b.len() - 1] == c);
            }
        }
    }
}

/// Inference growth keeps the owned columns of every node.
proof fn lemma_owned_kept(a: StatementContext, b: StatementContext, owner: Seq<char>)
    requires
        inference_grows(a, b),
        b.wf(),
    ensures
        forall|c: (Seq<char>, Option<Seq<char>>, Seq<char>)| owned_columns(a.edges@, a.nodes@, owner).contains(c)
            ==> #[trigger] owned_columns(b.edges@, b.nodes@, owner).contains(c),
{
    let n = a.edges@.len() as int;
    let prefix = b.edges@.take(n);
    assert forall|i: int| 0 <= i < prefix.len() implies (#[trigger] prefix[i]).deep_view() == a.edges@[i].deep_view() by {
        assert(b.edges.deep_view().take(n)[i] == a.edges.deep_view()[i]);
        assert(b.edges.deep_view()[i] == b.edges@[i].deep_view());
        assert(a.edges.deep_view()[i] == a.edges@[i].deep_view());
    }
    lemma_owned_same_views(prefix, a.edges@, a.nodes@, owner);
    lemma_owned_prefix(b.edges@, n, a.nodes@, owner);
    lemma_owned_more_nodes(b.edges@, a.nodes@, b.nodes@, owner);
}

/// Propagated columns stay propagated as the context grows.
proof fn lemma_propagated_grows(
    a: StatementContext,
    b: StatementContext,
    source_node: Seq<char>,
    cols: Seq<(Seq<char>, Option<Seq<char>>, Seq<char>)>,
)
    requires
        inference_grows(a, b),
        columns_propagated(a, source_node, cols),
    ensures
        columns_propagated(b, source_node, cols),
{
    assert forall|k: int| 0 <= k < cols.len() implies {
        let cid = spec_column_node_id(Some(source_node), (#[trigger] cols[k]).0);
        &&& has_node_id(b.nodes@, cid)
        &&& has_edge_view_id(b.edges.deep_view(), spec_edge_id(cid, cols[k].2))
    } by {
        let cid = spec_column_node_id(Some(source_node), cols[k].0);
        lemma_grows_keeps(a, b, cid, spec_edge_id(cid, cols[k].2));
    }
}

/// Propagating a sequence of columns propagates each column among them.
proof fn lemma_propagated_subset(
    ctx: StatementContext,
    source_node: Seq<char>,
    small: Seq<(Seq<char>, Option<Seq<char>>, Seq<char>)>,
    big: Seq<(Seq<char>, Option<Seq<char>>, Seq<char>)>,
)
    requires
        forall|c: (Seq<char>, Option<Seq<char>>, Seq<char>)| small.contains(c) ==> #[trigger] big.contains(c),
        columns_propagated(ctx, source_node, big),
    ensures
        columns_propagated(ctx, source_node, small),
{
    assert forall|k: int| 0 <= k < small.len() implies {
        let cid = spec_column_node_id(Some(source_node), (#[trigger] small[k]).0);
        &&& has_node_id(ctx.nodes@, cid)
        &&& has_edge_view_id(ctx.edges.deep_view(), spec_edge_id(cid, small[k].2))
    } by {
        assert(small.contains(small[k]));
        assert(big.contains(small[k]));
        let m = choose|m: int| 0 <= m < big.len() && big[m] == small[k];
        assert(big[m] == small[k]);
    }
}

/// Appends copies of the predicates of `src` to `dst`.
fn append_filters(dst: &mut Vec<crate::types::FilterPredicate>, src: &Vec<crate::types::FilterPredicate>)
    ensures
        final(dst).deep_view() == old(dst).deep_view() + src.deep_view(),
{
    let ghost start = dst.deep_view();
    let mut i: usize = 0;
    while i < src.len()
        invariant
            0 <= i <= src@.len(),
            dst.deep_view() == start + src.deep_view().take(i as int),
        decreases src@.len() - i,
    {
        let ghost prev = dst.deep_view();
        dst.push(src[i].duplicate());
        assert(dst.deep_view() =~= prev.push(src@[i as int].deep_view()));
        assert(src.deep_view().take(i + 1) =~= src.deep_view().take(i as int).push(src@[i as int].deep_view()));
        i = i + 1;
    }
    assert(src.deep_view().take(i as int) =~= src.deep_view());
}

impl Analyzer {
    /// Records the current join metadata for a relation node that is reused, unless
    /// the node already has join metadata or there is none to record.
    pub fn apply_join_metadata_to_existing_node(&self, ctx: &mut StatementContext, node_id: &String)
        requires
            old(ctx).wf(),
        ensures
            final(ctx).wf(),
            final(ctx).joined_table_info.as_map() == joined_after_reuse(*old(ctx), node_id@),
            *final(ctx) == (StatementContext { joined_table_info: final(ctx).joined_table_info, ..*old(ctx) }),
    {
        if ctx.current_join_info.join_type.is_none() && ctx.current_join_info.join_condition.is_none() {
            return;
        }
        let info = ctx.current_join_info.duplicate();
        ctx.joined_table_info.insert_if_absent(node_id.clone(), info);
    }

    /// Connects a source relation to the node it feeds with a data flow edge that
    /// carries the current operation and join metadata, unless the edge exists.
    pub fn create_source_edge(&self, ctx: &mut StatementContext, source_id: &String, target_node: Option<&str>)
        requires
            old(ctx).wf(),
        ensures
            final(ctx).wf(),
            target_node is None ==> *final(ctx) == *old(ctx),
            target_node matches Some(t) ==> final(ctx).edges.deep_view()
                == with_edge(old(ctx).edges.deep_view(), source_edge(*old(ctx), source_id@, t@)),
            *final(ctx) == (StatementContext { edges: final(ctx).edges, edge_ids: final(ctx).edge_ids, ..*old(ctx) }),
    {
        let target = match target_node {
            Some(t) => t,
            None => {
                return;
            },
        };
        let edge_id = generate_edge_id(source_id.as_str(), target);
        let ghost ev = source_edge(*old(ctx), source_id@, target@);
        let ghost before = ctx.edges.deep_view();
        proof {
            Self::lemma_edge_id_views(ctx.edges, edge_id@);
        }
        if ctx.edge_ids.contains_key(&edge_id) {
            return;
        }
        let edge = Edge {
            id: edge_id,
            from: source_id.clone(),
            to: string_of(target),
            edge_type: EdgeType::DataFlow,
            expression: None,
            operation: super::context::copy_opt_string(&ctx.last_operation),
            join_type: ctx.current_join_info.join_type,
            join_condition: super::context::copy_opt_string(&ctx.current_join_info.join_condition),
            approximate: None,
        };
        assert(edge.deep_view() == ev);
        ctx.add_edge(edge);
        assert(ctx.edges.deep_view() =~= before.push(ev));
    }

    /// An edge identifier occurs among edges exactly when it occurs among their views.
    proof fn lemma_edge_id_views(edges: Vec<Edge>, id: Seq<char>)
        ensures
            has_edge_id(edges@, id) == exists|i: int| 0 <= i < edges.deep_view().len() && (#[trigger] edges.deep_view()[i]).id == id,
    {
        let ev = edges.deep_view();
        let es = edges@;
        if has_edge_id(es, id) {
            let i = choose|i: int| 0 <= i < es.len() && (#[trigger] es[i]).id@ == id;
            assert(ev[i].id == id);
        }
        if exists|i: int| 0 <= i < ev.len() && (#[trigger] ev[i]).id == id {
            let i = choose|i: int| 0 <= i < ev.len() && (#[trigger] ev[i]).id == id;
            assert(es[i].id@ == id);
        }
    }

    /// Decide which qualifier to keep when two alias keys map to the same node ID.
    ///
    /// For unaliased tables, the alias instances hold entries under both the simple
    /// name (`"employees"`) and the canonical name (`"public.employees"`). The
    /// canonical (fully-qualified) name is preferred when available; between two
    /// user-defined aliases the longer one is preferred, and equal lengths are
    /// decided by lexicographic order for deterministic output.
    pub fn should_prefer_instance_qualifier(&self, existing_qualifier: &str, candidate_qualifier: &str, canonical: &str) -> (r: bool)
        ensures
            r == prefers_qualifier(existing_qualifier@, candidate_qualifier@, canonical@),
    {
        if crate::text::str_eq(existing_qualifier, canonical) {
            return false;
        }
        if crate::text::str_eq(candidate_qualifier, canonical) {
            return true;
        }
        let cl = candidate_qualifier.as_bytes().len();
        let el = existing_qualifier.as_bytes().len();
        if cl > el {
            true
        } else if cl < el {
            false
        } else {
            str_lex_less(candidate_qualifier, existing_qualifier)
        }
    }

    /// Creates an inferred source column and a data flow edge from it to the target
    /// column; returns the column's name, data type and node identifier.
    pub fn create_inferred_column_with_edge(
        &self,
        ctx: &mut StatementContext,
        source_canonical: &str,
        source_node_id: &String,
        column_name: &str,
        data_type: Option<String>,
        target_col_id: &String,
    ) -> (r: Option<(String, Option<String>, String)>)
        requires
            old(ctx).wf(),
        ensures
            final(ctx).wf(),
            r matches Some(t) && t.0@ == column_name@ && t.1 == data_type
                && t.2@ == spec_column_node_id(Some(source_node_id@), column_name@),
            column_inferred(*old(ctx), *final(ctx), source_canonical@, source_node_id@, column_name@, opt_chars(data_type)),
            final(ctx).edges.deep_view() == with_edge(
                edges_after_inferred(*old(ctx), source_node_id@, column_name@),
                plain_edge(spec_column_node_id(Some(source_node_id@), column_name@), target_col_id@, EdgeType::DataFlow),
            ),
    {
        let dt = super::context::copy_opt_string(&data_type);
        let src_id = match self.create_inferred_source_column(ctx, source_canonical, source_node_id, column_name, dt) {
            Some(id) => id,
            None => {
                return None;
            },
        };
        let edge_id = generate_edge_id(src_id.as_str(), target_col_id.as_str());
        let ghost ev = plain_edge(src_id@, target_col_id@, EdgeType::DataFlow);
        let ghost before = ctx.edges.deep_view();
        proof {
            Self::lemma_edge_id_views(ctx.edges, edge_id@);
        }
        if !ctx.edge_ids.contains_key(&edge_id) {
            let edge = Edge::basic(edge_id, src_id.clone(), target_col_id.clone(), EdgeType::DataFlow);
            assert(edge.deep_view() == ev);
            ctx.add_edge(edge);
            assert(ctx.edges.deep_view() =~= before.push(ev));
        }
        Some((string_of(column_name), data_type, src_id))
    }

    /// Locates the node that a wildcard's target name stands for: the CTE of that name,
    /// else a node registered under that name.
    pub fn lookup_inference_target_node(&self, ctx: &StatementContext, target_name: &str) -> (r: Option<String>)
        requires
            ctx.wf(),
        ensures
            ctx.cte_definitions.as_map().contains_key(target_name@) ==> (r matches Some(id)
                && id@ == ctx.cte_definitions.as_map()[target_name@]),
            !ctx.cte_definitions.as_map().contains_key(target_name@) ==> (r is Some <==> exists|k: Seq<char>|
                #[trigger] ctx.cte_node_to_name.as_map().contains_key(k) && ctx.cte_node_to_name.as_map()[k] == target_name@),
            !ctx.cte_definitions.as_map().contains_key(target_name@) ==> (r matches Some(id)
                ==> ctx.cte_node_to_name.as_map().contains_key(id@) && ctx.cte_node_to_name.as_map()[id@] == target_name@),
    {
        let key = string_of(target_name);
        match ctx.cte_definitions.get(&key) {
            Some(id) => {
                return Some(id.clone());
            },
            None => {},
        }
        let names = &ctx.cte_node_to_name;
        proof {
            names.lemma_domain();
        }
        let n = names.len();
        let mut i: usize = 0;
        while i < n
            invariant
                names.wf(),
                *names == ctx.cte_node_to_name,
                !ctx.cte_definitions.as_map().contains_key(target_name@),
                n == names.key_seq().len(),
                0 <= i <= n,
                names.value_seq().len() == n,
                forall|j: int| 0 <= j < i ==> names.value_seq()[j] != target_name@,
            decreases n - i,
        {
            if crate::text::str_eq(names.value_at(i).as_str(), target_name) {
                proof {
                    names.lemma_index(i as int);
                }
                return Some(names.key_at(i).clone());
            }
            i = i + 1;
        }
        proof {
            assert forall|k: Seq<char>| #[trigger] names.as_map().contains_key(k) implies names.as_map()[k] != target_name@ by {
                let j = names.key_seq().index_of(k);
                names.lemma_index(j);
            }
        }
        None
    }

    /// Collects the name, data type and node identifier of each column node owned by
    /// `cte_node_id`, in the order of the ownership edges.
    pub fn collect_owned_columns(&self, ctx: &StatementContext, cte_node_id: &String) -> (r: Vec<(String, Option<String>, String)>)
        requires
            ctx.wf(),
        ensures
            r.deep_view() == owned_columns(ctx.edges@, ctx.nodes@, cte_node_id@),
    {
        let mut out: Vec<(String, Option<String>, String)> = Vec::new();
        let mut i: usize = 0;
        while i < ctx.edges.len()
            invariant
                ctx.wf(),
                0 <= i <= ctx.edges@.len(),
                out.deep_view() == owned_columns(ctx.edges@.take(i as int), ctx.nodes@, cte_node_id@),
            decreases ctx.edges@.len() - i,
        {
            proof {
                assert(ctx.edges@.take(i + 1).drop_last() =~= ctx.edges@.take(i as int));
            }
            let e = &ctx.edges[i];
            if e.edge_type == EdgeType::Ownership && e.from == *cte_node_id {
                match ctx.node_position(&e.to) {
                    Some(idx) => {
                        proof {
                            let nodes = ctx.nodes@;
                            let j = choose|j: int| 0 <= j < nodes.len() && (#[trigger] nodes[j]).id@ == e.to@;
                            if j != idx {
                                if j < idx {
                                    assert(nodes[j].id@ != nodes[idx as int].id@);
                                } else {
                                    assert(nodes[idx as int].id@ != nodes[j].id@);
                                }
                            }
                        }
                        let n = &ctx.nodes[idx];
                        if n.node_type == NodeType::Column {
                            let data_type = match &n.metadata {
                                Some(m) => super::context::copy_opt_string(&m.data_type),
                                None => None,
                            };
                            let ghost before = out.deep_view();
                            out.push((n.label.clone(), data_type, n.id.clone()));
                            assert(out.deep_view() =~= before.push((n.label@, column_data_type(*n), n.id@)));
                        }
                    },
                    None => {},
                }
            }
            i = i + 1;
        }
        assert(ctx.edges@.take(i as int) =~= ctx.edges@);
        out
    }

    /// Apply pending filters to table nodes before finalizing the statement.
    ///
    /// Each node receives the predicates pending for its identifier, then those pending
    /// for its qualified name (so unqualified predicates reach every instance of a
    /// self-joined table); predicates for identifiers of no node are dropped.
    pub fn apply_pending_filters(&self, ctx: &mut StatementContext)
        requires
            old(ctx).wf(),
        ensures
            final(ctx).wf(),
            final(ctx).nodes@.len() == old(ctx).nodes@.len(),
            forall|i: int| 0 <= i < old(ctx).nodes@.len() ==> (#[trigger] final(ctx).nodes@[i]) == (Node {
                filters: final(ctx).nodes@[i].filters,
                ..old(ctx).nodes@[i]
            }),
            forall|i: int| 0 <= i < old(ctx).nodes@.len() ==> (#[trigger] final(ctx).nodes@[i]).filters.deep_view()
                == filters_after(
                    old(ctx).nodes@[i],
                    old(ctx).pending_instance_filters.as_map(),
                    old(ctx).pending_filters.as_map(),
                ),
            final(ctx).pending_filters.as_map().is_empty(),
            final(ctx).pending_instance_filters.as_map().is_empty(),
            *final(ctx) == (StatementContext {
                nodes: final(ctx).nodes,
                pending_filters: final(ctx).pending_filters,
                pending_instance_filters: final(ctx).pending_instance_filters,
                ..*old(ctx)
            }),
            pending_filters_applied(*old(ctx), *final(ctx)),
    {
        let ghost old_nodes = ctx.nodes@;
        let ghost inst = ctx.pending_instance_filters.as_map();
        let ghost canon = ctx.pending_filters.as_map();
        let n = ctx.nodes.len();
        let mut i: usize = 0;
        while i < n
            invariant
                old(ctx).wf(),
                ctx.wf(),
                old_nodes == old(ctx).nodes@,
                inst == old(ctx).pending_instance_filters.as_map(),
                canon == old(ctx).pending_filters.as_map(),
                n == old_nodes.len(),
                ctx.nodes@.len() == n,
                0 <= i <= n,
                *ctx == (StatementContext { nodes: ctx.nodes, ..*old(ctx) }),
                forall|j: int| 0 <= j < n ==> (#[trigger] ctx.nodes@[j]) == (Node {
                    filters: ctx.nodes@[j].filters,
                    ..old_nodes[j]
                }),
                forall|j: int| 0 <= j < i ==> (#[trigger] ctx.nodes@[j]).filters.deep_view() == filters_after(old_nodes[j], inst, canon),
                forall|j: int| i <= j < n ==> #[trigger] ctx.nodes@[j] == old_nodes[j],
            decreases n - i,
        {
            let id = ctx.nodes[i].id.clone();
            let mut extra: Vec<crate::types::FilterPredicate> = Vec::new();
            match ctx.pending_instance_filters.get(&id) {
                Some(fs) => append_filters(&mut extra, fs),
                None => {},
            }
            match &ctx.nodes[i].qualified_name {
                Some(q) => match ctx.pending_filters.get(q) {
                    Some(fs) => append_filters(&mut extra, fs),
                    None => {},
                },
                None => {},
            }
            assert(extra.deep_view() =~= super::context::pending_for(inst, old_nodes[i as int].id@) + match old_nodes[i as int].qualified_name {
                Some(q) => super::context::pending_for(canon, q@),
                None => Seq::empty(),
            });
            let ghost before = *ctx;
            proof {
                let nodes = ctx.nodes@;
                assert forall|j: int| 0 <= j < nodes.len() && nodes[j].id@ == id@ implies j == i by {
                    if j < i {
                        assert(nodes[j].id@ != nodes[i as int].id@);
                    } else if j > i {
                        assert(nodes[i as int].id@ != nodes[j].id@);
                    }
                }
            }
            match ctx.node_mut(&id) {
                Some(node) => {
                    append_filters(&mut node.filters, &extra);
                },
                None => {},
            }
            proof {
                assert(ctx.nodes@[i as int].filters.deep_view() =~= before.nodes@[i as int].filters.deep_view() + extra.deep_view());
            }
            i = i + 1;
        }
        ctx.pending_instance_filters = KeyMap::new();
        ctx.pending_filters = KeyMap::new();
    }

    /// The relation sources a wildcard expands to in the current scope: one (canonical
    /// name, qualifier) pair per relation node, with the preferred qualifier when
    /// several aliases name the same node.
    pub fn wildcard_sources_in_current_scope(&self, ctx: &StatementContext) -> (r: Vec<(String, String)>)
        requires
            ctx.wf(),
        ensures
            r.deep_view() == wildcard_sources(*ctx),
    {
        let scope = match ctx.current_scope() {
            Some(scope) => scope,
            None => {
                return Vec::new();
            },
        };
        let insts = &scope.alias_instances;
        let ghost quals = insts.key_seq();
        let ghost vals = insts.value_seq();
        proof {
            insts.lemma_domain();
        }
        let n = insts.len();
        let mut picks: Vec<(String, String, String)> = Vec::new();
        let mut i: usize = 0;
        assert(quals.take(0) =~= Seq::<Seq<char>>::empty());
        while i < n
            invariant
                n == quals.len(),
                vals.len() == n,
                quals == insts.key_seq(),
                vals == insts.value_seq(),
                0 <= i <= n,
                picks.deep_view() == wildcard_picks(quals.take(i as int), vals),
            decreases n - i,
        {
            let qualifier = insts.key_at(i);
            let inst = insts.value_at(i);
            proof {
                assert(quals.take(i + 1).take(i as int) =~= quals.take(i as int));
                assert(quals.take(i + 1)[i as int] == quals[i as int]);
            }
            let ghost acc = picks.deep_view();
            let mut k: usize = 0;
            let mut found = false;
            while !found && k < picks.len()
                invariant
                    acc == picks.deep_view(),
                    0 <= k <= acc.len(),
                    found ==> k < acc.len() && acc[k as int].0 == inst.node_id@,
                    forall|j: int| 0 <= j < k ==> (#[trigger] acc[j]).0 != inst.node_id@,
                decreases acc.len() - k + if found { 0int } else { 1int },
            {
                if picks[k].0 == inst.node_id {
                    found = true;
                } else {
                    k = k + 1;
                }
            }
            proof {
                lemma_pick_index_bounds(acc, inst.node_id@);
                if found {
                    assert(acc[k as int].0 == inst.node_id@);
                    let r = pick_index(acc, inst.node_id@);
                    if r < k {
                        assert(acc[r].0 != inst.node_id@);
                    }
                    if r > k {
                        assert(acc[k as int].0 != inst.node_id@);
                    }
                } else {
                    assert(pick_index(acc, inst.node_id@) < 0);
                }
            }
            if found {
                let replace = self.should_prefer_instance_qualifier(picks[k].2.as_str(), qualifier.as_str(), inst.canonical.as_str());
                if replace {
                    picks[k] = (inst.node_id.clone(), inst.canonical.clone(), qualifier.clone());
                    assert(picks.deep_view() =~= acc.update(k as int, (inst.node_id@, inst.canonical@, qualifier@)));
                }
            } else {
                picks.push((inst.node_id.clone(), inst.canonical.clone(), qualifier.clone()));
                assert(picks.deep_view() =~= acc.push((inst.node_id@, inst.canonical@, qualifier@)));
            }
            i = i + 1;
        }
        assert(quals.take(n as int) =~= quals);
        let ghost all = picks.deep_view();
        let mut out: Vec<(String, String)> = Vec::new();
        let mut j: usize = 0;
        while j < picks.len()
            invariant
                all == picks.deep_view(),
                0 <= j <= all.len(),
                out.deep_view().len() == j,
                forall|x: int| 0 <= x < j ==> #[trigger] out.deep_view()[x] == (all[x].1, all[x].2),
            decreases all.len() - j,
        {
            let ghost prev = out.deep_view();
            out.push((picks[j].1.clone(), picks[j].2.clone()));
            assert(out.deep_view() =~= prev.push((all[j as int].1, all[j as int].2)));
            j = j + 1;
        }
        assert(out.deep_view() =~= all.map_values(|t: (Seq<char>, Seq<char>, Seq<char>)| (t.1, t.2)));
        out
    }

    /// Propagates inferred columns backward through `SELECT *` chains.
    ///
    /// When columns are referenced from a CTE that was created via `SELECT *`, this
    /// traces the chain back to the source table and creates column nodes, so that
    /// column-level lineage exists even without schema metadata. The pending
    /// wildcards are grouped by their target; for each target with a node that owns
    /// columns, each of its wildcards propagates those columns to its source.
    pub fn propagate_inferred_columns(&self, ctx: &mut StatementContext)
        requires
            old(ctx).wf(),
        ensures
            final(ctx).wf(),
            final(ctx).pending_wildcards@.len() == 0,
            inference_grows((StatementContext { pending_wildcards: final(ctx).pending_wildcards, ..*old(ctx) }), *final(ctx)),
            old(ctx).pending_wildcards@.len() == 0 ==> *final(ctx) == *old(ctx),
            forall|j: int| 0 <= j < old(ctx).pending_wildcards@.len()
                && old(ctx).cte_definitions.as_map().contains_key((#[trigger] old(ctx).pending_wildcards@[j]).target_name@)
                ==> columns_propagated(
                *final(ctx),
                old(ctx).pending_wildcards@[j].source_node_id@,
                owned_columns(
                    old(ctx).edges@,
                    old(ctx).nodes@,
                    old(ctx).cte_definitions.as_map()[old(ctx).pending_wildcards@[j].target_name@],
                ),
            ),
    {
        if ctx.pending_wildcards.len() == 0 {
            proof {
                lemma_grows_refl(*ctx);
            }
            return;
        }
        let mut pending: Vec<PendingWildcard> = Vec::new();
        std::mem::swap(&mut pending, &mut ctx.pending_wildcards);
        let ghost start = *ctx;
        let ghost defs = start.cte_definitions.as_map();
        let mut wildcards_by_target: KeyMap<String, Vec<PendingWildcard>> = KeyMap::new();
        let mut i: usize = 0;
        while i < pending.len()
            invariant
                wildcards_by_target.wf(),
                0 <= i <= pending@.len(),
                forall|j: int| 0 <= j < i ==> wildcards_by_target.as_map().contains_key((#[trigger] pending@[j]).target_name@)
                    && wildcards_by_target.as_map()[pending@[j].target_name@].contains(pending@[j].deep_view()),
            decreases pending@.len() - i,
        {
            let pw = pending[i].duplicate();
            let ghost m0 = wildcards_by_target.as_map();
            let ghost key = pending@[i as int].target_name@;
            match wildcards_by_target.get_mut(&pending[i].target_name) {
                Some(list) => {
                    let ghost l0 = list.deep_view();
                    list.push(pw);
                    proof {
                        assert(list.deep_view() =~= l0.push(pw.deep_view()));
                        assert(list.deep_view()[l0.len() as int] == pending@[i as int].deep_view());
                    }
                },
                None => {
                    let mut list: Vec<PendingWildcard> = Vec::new();
                    list.push(pw);
                    assert(list.deep_view()[0] == pending@[i as int].deep_view());
                    wildcards_by_target.insert(pending[i].target_name.clone(), list);
                },
            }
            proof {
                let m1 = wildcards_by_target.as_map();
                assert forall|j: int| 0 <= j < i + 1 implies wildcards_by_target.as_map().contains_key((#[trigger] pending@[j]).target_name@)
                    && wildcards_by_target.as_map()[pending@[j].target_name@].contains(pending@[j].deep_view()) by {
                    if j < i && pending@[j].target_name@ == key {
                        let k = choose|k: int| 0 <= k < m0[key].len() && m0[key][k] == pending@[j].deep_view();
                        assert(m1[key][k] == m0[key][k]);
                    }
                    if j == i {
                        assert(m1[key].contains(pending@[i as int].deep_view()));
                    }
                }
            }
            i = i + 1;
        }
        proof {
            lemma_grows_refl(*ctx);
            wildcards_by_target.lemma_domain();
        }
        let mut visited_pairs: KeyMap<(String, String), ()> = KeyMap::new();
        let n = wildcards_by_target.len();
        let ghost keys = wildcards_by_target.key_seq();
        let ghost groups = wildcards_by_target.value_seq();
        let mut t: usize = 0;
        while t < n
            invariant
                ctx.wf(),
                start.wf(),
                wildcards_by_target.wf(),
                visited_pairs.wf(),
                visited_pairs.as_map().is_empty(),
                keys == wildcards_by_target.key_seq(),
                groups == wildcards_by_target.value_seq(),
                n == keys.len(),
                groups.len() == n,
                0 <= t <= n,
                inference_grows(start, *ctx),
                defs == start.cte_definitions.as_map(),
                forall|j: int, wv: super::context::WildcardView| 0 <= j < t && #[trigger] groups[j].contains(wv)
                    && defs.contains_key(keys[j]) ==> columns_propagated(
                    *ctx,
                    wv.source_node_id,
                    owned_columns(start.edges@, start.nodes@, defs[keys[j]]),
                ),
            decreases n - t,
        {
            let target_name = wildcards_by_target.key_at(t);
            let wildcards = wildcards_by_target.value_at(t);
            let ghost iter_start = *ctx;
            let ghost orig = owned_columns(start.edges@, start.nodes@, defs[keys[t as int]]);
            proof {
                lemma_grows_refl(*ctx);
            }
            match self.lookup_inference_target_node(ctx, target_name.as_str()) {
                Some(cte_node_id) => {
                    let owned = self.collect_owned_columns(ctx, &cte_node_id);
                    proof {
                        if defs.contains_key(keys[t as int]) {
                            lemma_owned_kept(start, *ctx, cte_node_id@);
                        }
                    }
                    if owned.len() > 0 {
                        let ghost cur = owned.deep_view();
                        let ghost before_loop = *ctx;
                        proof {
                            lemma_grows_refl(*ctx);
                        }
                        let mut w: usize = 0;
                        while w < wildcards.len()
                            invariant
                                ctx.wf(),
                                start.wf(),
                                wildcards_by_target.wf(),
                                visited_pairs.wf(),
                                visited_pairs.as_map().is_empty(),
                                0 <= w <= wildcards@.len(),
                                inference_grows(start, *ctx),
                                inference_grows(iter_start, *ctx),
                                inference_grows(before_loop, *ctx),
                                cur == owned.deep_view(),
                                forall|x: int| 0 <= x < w ==> columns_propagated(
                                    *ctx,
                                    (#[trigger] wildcards@[x]).source_node_id@,
                                    cur,
                                ),
                            decreases wildcards@.len() - w,
                        {
                            let ghost before = *ctx;
                            self.propagate_wildcard_columns(
                                ctx,
                                target_name.as_str(),
                                &wildcards[w],
                                &owned,
                                &wildcards_by_target,
                                &mut visited_pairs,
                                0,
                            );
                            proof {
                                lemma_grows_trans(start, before, *ctx);
                                lemma_grows_trans(iter_start, before, *ctx);
                                lemma_grows_trans(before_loop, before, *ctx);
                                assert forall|k: int| 0 <= k < cur.len() implies {
                                    let cid = spec_column_node_id(Some(wildcards@[w as int].source_node_id@), (#[trigger] cur[k]).0);
                                    &&& has_node_id(ctx.nodes@, cid)
                                    &&& has_edge_view_id(ctx.edges.deep_view(), spec_edge_id(cid, cur[k].2))
                                } by {
                                    assert(cur[k] == owned@[k].deep_view());
                                }
                                assert forall|x: int| 0 <= x < w implies columns_propagated(
                                    *ctx,
                                    (#[trigger] wildcards@[x]).source_node_id@,
                                    cur,
                                ) by {
                                    lemma_propagated_grows(before, *ctx, wildcards@[x].source_node_id@, cur);
                                }
                            }
                            w = w + 1;
                        }
                        proof {
                            assert forall|wv: super::context::WildcardView| #[trigger] groups[t as int].contains(wv)
                                && defs.contains_key(keys[t as int]) implies columns_propagated(*ctx, wv.source_node_id, orig) by {
                                let x = choose|x: int| 0 <= x < groups[t as int].len() && groups[t as int][x] == wv;
                                assert(groups[t as int][x] == wildcards@[x].deep_view());
                                lemma_propagated_subset(*ctx, wv.source_node_id, orig, cur);
                            }
                        }
                    } else {
                        proof {
                            if defs.contains_key(keys[t as int]) {
                                assert(target_name@ == keys[t as int]);
                                assert(ctx.cte_definitions == start.cte_definitions);
                                assert(cte_node_id@ == defs[keys[t as int]]);
                                assert(owned.deep_view().len() == 0);
                                assert(orig.len() == 0) by {
                                    if orig.len() > 0 {
                                        let big = owned_columns(ctx.edges@, ctx.nodes@, cte_node_id@);
                                        assert(orig.contains(orig[0]));
                                        assert(big.contains(orig[0]));
                                        assert(big == owned.deep_view());
                                    }
                                }
                            }
                        }
                    }
                },
                None => {},
            }
            proof {
                assert forall|j: int, wv: super::context::WildcardView| 0 <= j < t + 1 && #[trigger] groups[j].contains(wv)
                    && defs.contains_key(keys[j]) implies columns_propagated(
                    *ctx,
                    wv.source_node_id,
                    owned_columns(start.edges@, start.nodes@, defs[keys[j]]),
                ) by {
                    if j < t {
                        lemma_propagated_grows(iter_start, *ctx, wv.source_node_id, owned_columns(start.edges@, start.nodes@, defs[keys[j]]));
                    }
                }
            }
            t = t + 1;
        }
        proof {
            assert forall|j: int| 0 <= j < pending@.len() && defs.contains_key((#[trigger] pending@[j]).target_name@)
                implies columns_propagated(
                *ctx,
                pending@[j].source_node_id@,
                owned_columns(start.edges@, start.nodes@, defs[pending@[j].target_name@]),
            ) by {
                let key = pending@[j].target_name@;
                let idx = keys.index_of(key);
                assert(keys[idx] == key);
                assert(groups[idx] == wildcards_by_target.as_map()[key]);
                assert(groups[idx].contains(pending@[j].deep_view()));
            }
        }
    }

    /// Propagates columns through a single wildcard: each column of `target_name`
    /// gets an inferred column on the wildcard's source with a data flow edge into it,
    /// and the propagation continues through the wildcards whose target is that
    /// source, up to the depth limit and without revisiting a (target, source) pair
    /// on the current chain.
    pub fn propagate_wildcard_columns(
        &self,
        ctx: &mut StatementContext,
        target_name: &str,
        wildcard: &PendingWildcard,
        columns: &Vec<(String, Option<String>, String)>,
        wildcards_by_target: &KeyMap<String, Vec<PendingWildcard>>,
        visited_pairs: &mut KeyMap<(String, String), ()>,
        depth: usize,
    )
        requires
            old(ctx).wf(),
            old(visited_pairs).wf(),
            wildcards_by_target.wf(),
        ensures
            final(ctx).wf(),
            final(visited_pairs).wf(),
            final(visited_pairs).as_map() == old(visited_pairs).as_map(),
            inference_grows(*old(ctx), *final(ctx)),
            depth < MAX_INFERENCE_DEPTH && !old(visited_pairs).as_map().contains_key(
                (target_name@, wildcard.source_canonical@),
            ) ==> forall|k: int| 0 <= k < columns@.len() ==> {
                let cid = spec_column_node_id(Some(wildcard.source_node_id@), #[trigger] columns@[k].0@);
                &&& has_node_id(final(ctx).nodes@, cid)
                &&& edge_or_namesake(final(ctx).edges.deep_view(), plain_edge(cid, columns@[k].2@, EdgeType::DataFlow))
            },
        decreases MAX_INFERENCE_DEPTH - depth,
    {
        proof {
            lemma_grows_refl(*ctx);
        }
        if depth >= MAX_INFERENCE_DEPTH {
            return;
        }
        let pair = (string_of(target_name), wildcard.source_canonical.clone());
        if visited_pairs.contains_key(&pair) {
            return;
        }
        let ghost pv = pair.deep_view();
        visited_pairs.insert(pair, ());
        let ghost start = *ctx;
        let ghost source = wildcard.source_node_id@;
        let mut source_columns: Vec<(String, Option<String>, String)> = Vec::new();
        let mut k: usize = 0;
        while k < columns.len()
            invariant
                ctx.wf(),
                start.wf(),
                inference_grows(start, *ctx),
                0 <= k <= columns@.len(),
                source == wildcard.source_node_id@,
                forall|j: int| 0 <= j < k ==> {
                    let cid = spec_column_node_id(Some(source), #[trigger] columns@[j].0@);
                    &&& has_node_id(ctx.nodes@, cid)
                    &&& has_edge_view_id(ctx.edges.deep_view(), spec_edge_id(cid, columns@[j].2@))
                },
            decreases columns@.len() - k,
        {
            let col = &columns[k];
            let ghost before = *ctx;
            let dt = super::context::copy_opt_string(&col.1);
            let created = self.create_inferred_column_with_edge(
                ctx,
                wildcard.source_canonical.as_str(),
                &wildcard.source_node_id,
                col.0.as_str(),
                dt,
                &col.2,
            );
            proof {
                lemma_inferred_grows(
                    before,
                    *ctx,
                    wildcard.source_canonical@,
                    source,
                    col.0@,
                    opt_chars(col.1),
                    col.2@,
                );
                lemma_grows_trans(start, before, *ctx);
                assert forall|j: int| 0 <= j < k implies {
                    let cid = spec_column_node_id(Some(source), #[trigger] columns@[j].0@);
                    &&& has_node_id(ctx.nodes@, cid)
                    &&& has_edge_view_id(ctx.edges.deep_view(), spec_edge_id(cid, columns@[j].2@))
                } by {
                    let cid = spec_column_node_id(Some(source), columns@[j].0@);
                    lemma_grows_keeps(before, *ctx, cid, spec_edge_id(cid, columns@[j].2@));
                }
            }
            match created {
                Some(t) => source_columns.push(t),
                None => {},
            }
            k = k + 1;
        }
        let ghost after_direct = *ctx;
        let ghost marked = visited_pairs.as_map();
        proof {
            lemma_grows_refl(*ctx);
        }
        match wildcards_by_target.get(&wildcard.source_canonical) {
            Some(upstream) => {
                let mut u: usize = 0;
                while u < upstream.len()
                    invariant
                        ctx.wf(),
                        visited_pairs.wf(),
                        wildcards_by_target.wf(),
                        depth < MAX_INFERENCE_DEPTH,
                        inference_grows(after_direct, *ctx),
                        visited_pairs.as_map() == marked,
                        0 <= u <= upstream@.len(),
                    decreases upstream@.len() - u,
                {
                    let ghost before = *ctx;
                    self.propagate_wildcard_columns(
                        ctx,
                        wildcard.source_canonical.as_str(),
                        &upstream[u],
                        &source_columns,
                        wildcards_by_target,
                        visited_pairs,
                        depth + 1,
                    );
                    proof {
                        lemma_grows_trans(after_direct, before, *ctx);
                    }
                    u = u + 1;
                }
            },
            None => {
                proof {
                    lemma_grows_refl(*ctx);
                }
            },
        }
        proof {
            lemma_grows_trans(start, after_direct, *ctx);
            assert forall|j: int| 0 <= j < columns@.len() implies {
                let cid = spec_column_node_id(Some(source), #[trigger] columns@[j].0@);
                &&& has_node_id(ctx.nodes@, cid)
                &&& has_edge_view_id(ctx.edges.deep_view(), spec_edge_id(cid, columns@[j].2@))
            } by {
                let cid = spec_column_node_id(Some(source), columns@[j].0@);
                lemma_grows_keeps(after_direct, *ctx, cid, spec_edge_id(cid, columns@[j].2@));
            }
            assert forall|j: int| 0 <= j < columns@.len() implies edge_or_namesake(
                ctx.edges.deep_view(),
                plain_edge(spec_column_node_id(Some(source), #[trigger] columns@[j].0@), columns@[j].2@, EdgeType::DataFlow),
            ) by {
                let cid = spec_column_node_id(Some(source), columns@[j].0@);
                lemma_edge_or_namesake(ctx.edges.deep_view(), plain_edge(cid, columns@[j].2@, EdgeType::DataFlow));
            }
        }
        assert(marked == old(visited_pairs).as_map().insert(pv, ()));
        visited_pairs.remove(&(string_of(target_name), wildcard.source_canonical.clone()));
        assert(visited_pairs.as_map() =~= old(visited_pairs).as_map());
    }

    /// Whether the known schema of `table` has a column that normalizes to `name`.
    fn schema_table_has_column(&self, table: &String, name: &String) -> (r: bool)
        requires
            self.wf(),
        ensures
            r == schema_has_column(*self, table@, name@),
    {
        match self.schema.get(table) {
            Some(entry) => {
                let ghost cols = entry.columns.deep_view();
                let mut i: usize = 0;
                while i < entry.columns.len()
                    invariant
                        cols == entry.columns.deep_view(),
                        self.schema.as_map().contains_key(table@),
                        cols == self.schema.as_map()[table@].columns,
                        0 <= i <= cols.len(),
                        forall|j: int| 0 <= j < i ==> self.spec_normalize((#[trigger] cols[j]).0) != name@,
                    decreases cols.len() - i,
                {
                    assert(cols[i as int] == entry.columns@[i as int].deep_view());
                    let normalized = self.normalize_identifier(entry.columns[i].name.as_str());
                    if normalized == *name {
                        assert(self.schema.as_map()[table@].columns[i as int] == cols[i as int]);
                        return true;
                    }
                    i = i + 1;
                }
                false
            },
            None => false,
        }
    }

    /// Whether table `table` of the current scope may own the normalized column `name`.
    fn table_may_own_column(&self, ctx: &StatementContext, table: &String, name: &String) -> (r: bool)
        requires
            self.wf(),
            ctx.wf(),
        ensures
            r == table_may_own(*self, *ctx, table@, name@),
    {
        let in_subquery = match ctx.resolve_subquery_columns(table.as_str()) {
            Some(cols) => output_columns_have(cols, name),
            None => false,
        };
        in_subquery || self.schema_table_has_column(table, name)
    }

    /// The tables of the current scope that may own `column`: those whose subquery
    /// columns or known schema have it.
    pub fn candidate_tables_for_column(&self, ctx: &StatementContext, column: &str) -> (r: Vec<String>)
        requires
            self.wf(),
            ctx.wf(),
        ensures
            r.deep_view() == candidate_tables(*self, *ctx, scope_tables(*ctx), self.spec_normalize(column@)),
    {
        let tables_in_scope = ctx.tables_in_current_scope();
        let normalized_col = self.normalize_identifier(column);
        let ghost tables = tables_in_scope.deep_view();
        let mut candidates: Vec<String> = Vec::new();
        let mut i: usize = 0;
        while i < tables_in_scope.len()
            invariant
                self.wf(),
                ctx.wf(),
                tables == tables_in_scope.deep_view(),
                tables == scope_tables(*ctx),
                0 <= i <= tables.len(),
                candidates.deep_view() == candidate_tables(*self, *ctx, tables.take(i as int), normalized_col@),
            decreases tables.len() - i,
        {
            proof {
                assert(tables.take(i + 1).drop_last() =~= tables.take(i as int));
                assert(tables[i as int] == tables_in_scope@[i as int]@);
            }
            if self.table_may_own_column(ctx, &tables_in_scope[i], &normalized_col) {
                let ghost before = candidates.deep_view();
                candidates.push(tables_in_scope[i].clone());
                assert(candidates.deep_view() =~= before.push(tables[i as int]));
            }
            i = i + 1;
        }
        assert(tables.take(i as int) =~= tables);
        candidates
    }

    /// Whether an unqualified column is provably ambiguous among the relation
    /// instances of the current scope (such as `id` in a self-join of `employees`).
    pub fn is_definitely_ambiguous_unqualified_column(&self, ctx: &StatementContext, column: &str) -> (r: bool)
        requires
            self.wf(),
            ctx.wf(),
        ensures
            r == definitely_ambiguous(*self, *ctx, column@),
    {
        let relation_instances = ctx.relation_instances_in_current_scope();
        if relation_instances.len() <= 1 {
            return false;
        }
        let candidates = self.candidate_tables_for_column(ctx, column);
        assert(candidates.deep_view().len() == candidates@.len());
        assert(relation_instances.deep_view().len() == relation_instances@.len());
        if candidates.len() > 1 {
            return true;
        }
        if candidates.len() == 1 {
            assert(candidates.deep_view()[0] == candidates@[0]@);
            return ctx.relation_instance_count_in_current_scope(candidates[0].as_str()) > 1;
        }
        let ghost insts = relation_instances.deep_view();
        let first = &relation_instances[0].canonical;
        assert(insts[0] == relation_instances@[0].deep_view());
        let mut i: usize = 1;
        while i < relation_instances.len()
            invariant
                insts == relation_instances.deep_view(),
                insts == current_instances(*ctx),
                candidate_tables(*self, *ctx, scope_tables(*ctx), self.spec_normalize(column@)).len() == 0,
                insts.len() > 1,
                first@ == insts[0].canonical,
                1 <= i <= insts.len(),
                forall|j: int| 0 <= j < i ==> (#[trigger] insts[j]).canonical == insts[0].canonical,
            decreases insts.len() - i,
        {
            assert(insts[i as int] == relation_instances@[i as int].deep_view());
            if relation_instances[i].canonical != *first {
                assert(insts[i as int].canonical != insts[0].canonical);
                return false;
            }
            i = i + 1;
        }
        true
    }

    /// Adds a column node, owned by the table node, for each column of the known
    /// schema of `table_canonical`; nothing when its schema is unknown.
    pub fn add_table_columns_from_schema(&self, ctx: &mut StatementContext, table_canonical: &str, table_node_id: &str)
        requires
            self.wf(),
            old(ctx).wf(),
        ensures
            final(ctx).wf(),
            !self.schema.as_map().contains_key(table_canonical@) ==> *final(ctx) == *old(ctx),
            self.schema.as_map().contains_key(table_canonical@) ==> {
                let cols = self.schema.as_map()[table_canonical@].columns;
                &&& schema_columns_grow(*old(ctx), *final(ctx), table_canonical@, table_node_id@, cols)
                &&& forall|k: int| 0 <= k < cols.len() ==> {
                    let cid = spec_column_node_id(Some(table_node_id@), #[trigger] cols[k].0);
                    &&& has_node_id(final(ctx).nodes@, cid)
                    &&& has_edge_view_id(final(ctx).edges.deep_view(), spec_edge_id(table_node_id@, cid))
                }
            },
    {
        let key = string_of(table_canonical);
        let entry = match self.schema.get(&key) {
            Some(entry) => entry,
            None => {
                return;
            },
        };
        let ghost cols = entry.columns.deep_view();
        let ghost start = *ctx;
        proof {
            reveal_strlit(".");
            assert(ctx.nodes@.take(ctx.nodes@.len() as int) =~= ctx.nodes@);
            assert(ctx.edges.deep_view().take(ctx.edges@.len() as int) =~= ctx.edges.deep_view());
        }
        let mut i: usize = 0;
        while i < entry.columns.len()
            invariant
                ctx.wf(),
                start.wf(),
                cols == entry.columns.deep_view(),
                cols == self.schema.as_map()[table_canonical@].columns,
                0 <= i <= cols.len(),
                schema_columns_grow(start, *ctx, table_canonical@, table_node_id@, cols),
                forall|k: int| 0 <= k < i ==> {
                    let cid = spec_column_node_id(Some(table_node_id@), #[trigger] cols[k].0);
                    &&& has_node_id(ctx.nodes@, cid)
                    &&& has_edge_view_id(ctx.edges.deep_view(), spec_edge_id(table_node_id@, cid))
                },
            decreases cols.len() - i,
        {
            let col: &SchemaColumn = &entry.columns[i];
            assert(cols[i as int] == col.deep_view());
            let col_node_id = generate_column_node_id(Some(table_node_id), col.name.as_str());
            let mut qualified = string_of(table_canonical);
            qualified.append(".");
            qualified.append(col.name.as_str());
            let node = Node::basic(col_node_id.clone(), NodeType::Column, col.name.clone(), Some(qualified));
            let ghost before = *ctx;
            ctx.add_node(node);
            proof {
                assert(ctx.nodes@.take(before.nodes@.len() as int) =~= before.nodes@);
                assert(ctx.nodes@.take(start.nodes@.len() as int) =~= start.nodes@) by {
                    assert forall|j: int| 0 <= j < start.nodes@.len() implies ctx.nodes@[j] == start.nodes@[j] by {
                        assert(ctx.nodes@.take(before.nodes@.len() as int)[j] == before.nodes@[j]);
                        assert(before.nodes@.take(start.nodes@.len() as int)[j] == start.nodes@[j]);
                    }
                }
                assert forall|j: int| start.nodes@.len() <= j < ctx.nodes@.len() implies is_column_of(#[trigger] ctx.nodes@[j], table_canonical@, table_node_id@, cols) by {
                    if j < before.nodes@.len() {
                        assert(ctx.nodes@.take(before.nodes@.len() as int)[j] == before.nodes@[j]);
                        assert(ctx.nodes@[j] == before.nodes@[j]);
                    } else {
                        assert(ctx.nodes@[j] == node);
                        assert(cols[i as int].0 == col.name@);
                        assert(is_schema_column_node(ctx.nodes@[j], table_canonical@, table_node_id@, cols[i as int].0));
                    }
                }
                lemma_node_kept(before.nodes@, ctx.nodes@);
            }
            let edge_id = generate_edge_id(table_node_id, col_node_id.as_str());
            let ghost ev = plain_edge(table_node_id@, col_node_id@, EdgeType::Ownership);
            let ghost mid = *ctx;
            proof {
                Self::lemma_edge_id_views(ctx.edges, edge_id@);
            }
            if !ctx.edge_ids.contains_key(&edge_id) {
                let edge = Edge::basic(edge_id, string_of(table_node_id), col_node_id.clone(), EdgeType::Ownership);
                assert(edge.deep_view() == ev);
                ctx.add_edge(edge);
                assert(ctx.edges.deep_view() =~= mid.edges.deep_view().push(ev));
                proof {
                    assert(ctx.edges@[ctx.edges@.len() - 1] == edge);
                }
            }
            proof {
                let cv = ctx.edges.deep_view();
                let mv = mid.edges.deep_view();
                let sv = start.edges.deep_view();
                assert(cv.take(mv.len() as int) =~= mv);
                assert(cv.take(sv.len() as int) =~= sv) by {
                    assert forall|j: int| 0 <= j < sv.len() implies cv[j] == sv[j] by {
                        assert(cv.take(mv.len() as int)[j] == mv[j]);
                        assert(mv.take(sv.len() as int)[j] == sv[j]);
                    }
                }
                assert(has_edge_view_id(cv, ev.id)) by {
                    if has_edge_view_id(mv, ev.id) {
                        let j = choose|j: int| 0 <= j < mv.len() && (#[trigger] mv[j]).id == ev.id;
                        assert(cv[j] == mv[j]);
                    } else {
                        assert(cv[cv.len() - 1] == ev);
                    }
                }
                assert forall|j: int| start.edges@.len() <= j < ctx.edges@.len() implies (#[trigger] ctx.edges@[j]).edge_type
                    == EdgeType::Ownership && ctx.edges@[j].from@ == table_node_id@ by {
                    if j < mid.edges@.len() {
                        assert(cv[j] == mv[j]);
                        assert(cv[j] == ctx.edges@[j].deep_view());
                        assert(mv[j] == mid.edges@[j].deep_view());
                    }
                }
                assert forall|k: int| 0 <= k < i + 1 implies {
                    let cid = spec_column_node_id(Some(table_node_id@), #[trigger] cols[k].0);
                    &&& has_node_id(ctx.nodes@, cid)
                    &&& has_edge_view_id(ctx.edges.deep_view(), spec_edge_id(table_node_id@, cid))
                } by {
                    let cid = spec_column_node_id(Some(table_node_id@), cols[k].0);
                    if k < i {
                        lemma_node_kept(before.nodes@, ctx.nodes@);
                        if has_edge_view_id(before.edges.deep_view(), spec_edge_id(table_node_id@, cid)) {
                            let j = choose|j: int| 0 <= j < before.edges.deep_view().len()
                                && (#[trigger] before.edges.deep_view()[j]).id == spec_edge_id(table_node_id@, cid);
                            assert(cv[j] == mv[j]);
                        }
                    }
                }
            }
            proof {
                assert(ctx.nodes == mid.nodes);
                assert forall|j: int| start.nodes@.len() <= j < ctx.nodes@.len() implies is_column_of(#[trigger] ctx.nodes@[j], table_canonical@, table_node_id@, cols) by {
                    assert(ctx.nodes@[j] == mid.nodes@[j]);
                }
            }
            i = i + 1;
        }
    }

    /// Adds a plain edge from `from` to `to` unless an edge with its identifier exists.
    fn add_plain_edge(ctx: &mut StatementContext, from: &str, to: &str, edge_type: EdgeType)
        requires
            old(ctx).wf(),
        ensures
            final(ctx).wf(),
            final(ctx).edges.deep_view() == with_edge(old(ctx).edges.deep_view(), plain_edge(from@, to@, edge_type)),
            *final(ctx) == (StatementContext { edges: final(ctx).edges, edge_ids: final(ctx).edge_ids, ..*old(ctx) }),
    {
        let edge_id = generate_edge_id(from, to);
        let ghost ev = plain_edge(from@, to@, edge_type);
        let ghost before = ctx.edges.deep_view();
        proof {
            Self::lemma_edge_id_views(ctx.edges, edge_id@);
        }
        if !ctx.edge_ids.contains_key(&edge_id) {
            let edge = Edge::basic(edge_id, string_of(from), string_of(to), edge_type);
            assert(edge.deep_view() == ev);
            ctx.add_edge(edge);
            assert(ctx.edges.deep_view() =~= before.push(ev));
        }
    }

    /// Materializes the columns of a CTE reference instance: each column of the CTE
    /// gets a column node under the instance node, owned by it and fed by the CTE's
    /// column, and the instance columns are registered under `alias` in the current
    /// scope. Nothing happens when they are registered already or the CTE has no
    /// known columns.
    pub fn materialize_cte_reference_columns(
        &self,
        ctx: &mut StatementContext,
        cte_name: &str,
        alias: &str,
        instance_node_id: &String,
    )
        requires
            old(ctx).wf(),
        ensures
            final(ctx).wf(),
            materialize_skips(*old(ctx), cte_name@, alias@) ==> *final(ctx) == *old(ctx),
            !materialize_skips(*old(ctx), cte_name@, alias@) ==> {
                let src = find_subquery_columns(
                    old(ctx).scope_stack@,
                    old(ctx).aliased_subquery_columns.as_map(),
                    cte_name@,
                ).unwrap();
                let cols = instance_columns(src, instance_node_id@);
                &&& graph_extends(*old(ctx), *final(ctx))
                &&& forall|i: int| old(ctx).nodes@.len() <= i < final(ctx).nodes@.len()
                    ==> (#[trigger] final(ctx).nodes@[i]).node_type == NodeType::Column
                &&& forall|i: int| old(ctx).edges@.len() <= i < final(ctx).edges@.len()
                    ==> materialized_edge(#[trigger] final(ctx).edges.deep_view()[i], src, instance_node_id@)
                &&& forall|k: int| 0 <= k < src.len() ==> {
                    let cid = spec_column_node_id(Some(instance_node_id@), #[trigger] src[k].name);
                    &&& has_node_id(final(ctx).nodes@, cid)
                    &&& has_edge_view_id(final(ctx).edges.deep_view(), spec_edge_id(instance_node_id@, cid))
                    &&& has_edge_view_id(final(ctx).edges.deep_view(), spec_edge_id(src[k].node_id, cid))
                }
                &&& old(ctx).scope_stack@.len() > 0 ==> {
                    let o = old(ctx).scope_stack@.last();
                    let f = final(ctx).scope_stack@.last();
                    &&& top_scope_updated(*old(ctx), *final(ctx))
                    &&& f == (Scope { subquery_columns: f.subquery_columns, ..o })
                    &&& f.subquery_columns.as_map() == o.subquery_columns.as_map().insert(alias@, cols)
                    &&& final(ctx).aliased_subquery_columns == old(ctx).aliased_subquery_columns
                }
                &&& old(ctx).scope_stack@.len() == 0 ==> {
                    &&& final(ctx).aliased_subquery_columns.as_map()
                        == old(ctx).aliased_subquery_columns.as_map().insert(alias@, cols)
                    &&& final(ctx).scope_stack == old(ctx).scope_stack
                }
                &&& *final(ctx) == (StatementContext {
                    nodes: final(ctx).nodes,
                    node_ids: final(ctx).node_ids,
                    node_index: final(ctx).node_index,
                    edges: final(ctx).edges,
                    edge_ids: final(ctx).edge_ids,
                    scope_stack: final(ctx).scope_stack,
                    aliased_subquery_columns: final(ctx).aliased_subquery_columns,
                    ..*old(ctx)
                })
            },
    {
        let ghost start = *ctx;
        if ctx.has_subquery_columns_in_current_scope(alias) {
            return;
        }
        let mut source: Vec<OutputColumn> = Vec::new();
        match ctx.resolve_subquery_columns(cte_name) {
            Some(cols) => {
                let mut i: usize = 0;
                while i < cols.len()
                    invariant
                        0 <= i <= cols@.len(),
                        source.deep_view() == cols.deep_view().take(i as int),
                    decreases cols@.len() - i,
                {
                    let ghost before = source.deep_view();
                    source.push(cols[i].duplicate());
                    assert(source.deep_view() =~= before.push(cols.deep_view()[i as int]));
                    assert(cols.deep_view().take(i + 1) =~= cols.deep_view().take(i as int).push(cols.deep_view()[i as int]));
                    i = i + 1;
                }
                assert(cols.deep_view().take(i as int) =~= cols.deep_view());
            },
            None => {
                return;
            },
        }
        let ghost src = source.deep_view();
        proof {
            reveal_strlit(".");
            lemma_extends_refl(*ctx);
        }
        let mut instance_cols: Vec<OutputColumn> = Vec::new();
        let mut k: usize = 0;
        while k < source.len()
            invariant
                ctx.wf(),
                start.wf(),
                src == source.deep_view(),
                0 <= k <= src.len(),
                graph_extends(start, *ctx),
                *ctx == (StatementContext {
                    nodes: ctx.nodes,
                    node_ids: ctx.node_ids,
                    node_index: ctx.node_index,
                    edges: ctx.edges,
                    edge_ids: ctx.edge_ids,
                    ..start
                }),
                forall|i: int| start.nodes@.len() <= i < ctx.nodes@.len() ==> (#[trigger] ctx.nodes@[i]).node_type == NodeType::Column,
                forall|i: int| start.edges@.len() <= i < ctx.edges@.len()
                    ==> materialized_edge(#[trigger] ctx.edges.deep_view()[i], src, instance_node_id@),
                instance_cols.deep_view() == instance_columns(src.take(k as int), instance_node_id@),
                forall|j: int| 0 <= j < k ==> {
                    let cid = spec_column_node_id(Some(instance_node_id@), #[trigger] src[j].name);
                    &&& has_node_id(ctx.nodes@, cid)
                    &&& has_edge_view_id(ctx.edges.deep_view(), spec_edge_id(instance_node_id@, cid))
                    &&& has_edge_view_id(ctx.edges.deep_view(), spec_edge_id(src[j].node_id, cid))
                },
            decreases src.len() - k,
        {
            let col = &source[k];
            assert(src[k as int] == col.deep_view());
            let col_id = generate_column_node_id(Some(instance_node_id.as_str()), col.name.as_str());
            let mut qualified = string_of(cte_name);
            qualified.append(".");
            qualified.append(col.name.as_str());
            let mut node = Node::basic(col_id.clone(), NodeType::Column, col.name.clone(), Some(qualified));
            node.metadata = match &col.data_type {
                Some(dt) => Some(NodeMetadata { data_type: Some(dt.clone()), placeholder: false }),
                None => None,
            };
            let ghost c0 = *ctx;
            ctx.add_node(node);
            proof {
                assert(ctx.nodes@.take(c0.nodes@.len() as int) =~= c0.nodes@);
                assert(ctx.edges.deep_view() == c0.edges.deep_view());
                assert(ctx.edges.deep_view().take(c0.edges@.len() as int) =~= c0.edges.deep_view());
                assert forall|i: int| start.nodes@.len() <= i < ctx.nodes@.len() implies (#[trigger] ctx.nodes@[i]).node_type == NodeType::Column by {
                    if i < c0.nodes@.len() {
                        assert(ctx.nodes@.take(c0.nodes@.len() as int)[i] == c0.nodes@[i]);
                    }
                }
            }
            let ghost c1 = *ctx;
            Self::add_plain_edge(ctx, instance_node_id.as_str(), col_id.as_str(), EdgeType::Ownership);
            let ghost c2 = *ctx;
            proof {
                lemma_with_edge(c1.edges.deep_view(), plain_edge(instance_node_id@, col_id@, EdgeType::Ownership));
                assert(ctx.nodes@.take(c1.nodes@.len() as int) =~= c1.nodes@);
            }
            Self::add_plain_edge(ctx, col.node_id.as_str(), col_id.as_str(), EdgeType::DataFlow);
            proof {
                lemma_with_edge(c2.edges.deep_view(), plain_edge(col.node_id@, col_id@, EdgeType::DataFlow));
                assert(ctx.nodes@.take(c2.nodes@.len() as int) =~= c2.nodes@);
                assert forall|i: int| start.edges@.len() <= i < ctx.edges@.len()
                    implies materialized_edge(#[trigger] ctx.edges.deep_view()[i], src, instance_node_id@) by {
                    let cid = spec_column_node_id(Some(instance_node_id@), src[k as int].name);
                    assert(col_id@ == cid);
                    if i < c2.edges@.len() {
                        assert(ctx.edges.deep_view().take(c2.edges@.len() as int)[i] == c2.edges.deep_view()[i]);
                        if i < c1.edges@.len() {
                            assert(c2.edges.deep_view().take(c1.edges@.len() as int)[i] == c1.edges.deep_view()[i]);
                            assert(c1.edges.deep_view()[i] == c0.edges.deep_view()[i]);
                        } else {
                            assert(c2.edges.deep_view()[i] == plain_edge(instance_node_id@, col_id@, EdgeType::Ownership));
                            assert(0 <= k < src.len());
                        }
                    } else {
                        assert(ctx.edges.deep_view()[i] == plain_edge(col.node_id@, col_id@, EdgeType::DataFlow));
                        assert(src[k as int].node_id == col.node_id@);
                    }
                }
                lemma_extends_trans(c0, c1, c2);
                lemma_extends_trans(c0, c2, *ctx);
                lemma_extends_trans(start, c0, *ctx);
                lemma_extends_keeps(c1, c2, col_id@, spec_edge_id(instance_node_id@, col_id@));
                lemma_extends_keeps(c1, *ctx, col_id@, spec_edge_id(instance_node_id@, col_id@));
                assert forall|j: int| 0 <= j < k + 1 implies {
                    let cid = spec_column_node_id(Some(instance_node_id@), #[trigger] src[j].name);
                    &&& has_node_id(ctx.nodes@, cid)
                    &&& has_edge_view_id(ctx.edges.deep_view(), spec_edge_id(instance_node_id@, cid))
                    &&& has_edge_view_id(ctx.edges.deep_view(), spec_edge_id(src[j].node_id, cid))
                } by {
                    let cid = spec_column_node_id(Some(instance_node_id@), src[j].name);
                    if j < k {
                        lemma_extends_keeps(c0, *ctx, cid, spec_edge_id(instance_node_id@, cid));
                        lemma_extends_keeps(c0, *ctx, cid, spec_edge_id(src[j].node_id, cid));
                    }
                }
            }
            let ghost before = instance_cols.deep_view();
            instance_cols.push(OutputColumn { name: col.name.clone(), data_type: super::context::copy_opt_string(&col.data_type), node_id: col_id });
            proof {
                let item = ColumnView {
                    name: src[k as int].name,
                    data_type: src[k as int].data_type,
                    node_id: spec_column_node_id(Some(instance_node_id@), src[k as int].name),
                };
                assert(instance_cols.deep_view() =~= before.push(item));
                assert(src.take(k + 1) =~= src.take(k as int).push(src[k as int]));
                assert(instance_columns(src.take(k + 1), instance_node_id@) =~= instance_columns(src.take(k as int), instance_node_id@).push(item));
            }
            k = k + 1;
        }
        assert(src.take(k as int) =~= src);
        ctx.register_subquery_columns_in_scope(string_of(alias), instance_cols);
    }

    /// Resolves a CTE reference and registers it in scope.
    ///
    /// For CTE self-joins (`FROM cte a JOIN cte b`) each alias gets a distinct instance
    /// node, connected to the CTE's definition node and with its own column set; other
    /// references reuse the CTE definition node. Returns the CTE name and the node.
    pub fn resolve_cte_reference(&self, ctx: &mut StatementContext, cte_name: &str, alias: Option<&str>) -> (r: Option<(String, String)>)
        requires
            old(ctx).wf(),
        ensures
            final(ctx).wf(),
            !old(ctx).cte_definitions.as_map().contains_key(cte_name@) ==> r is None && *final(ctx) == *old(ctx),
            old(ctx).cte_definitions.as_map().contains_key(cte_name@) ==> {
                let alias_view = match alias {
                    Some(a) => Some(a@),
                    None => None,
                };
                let alias_key = match alias {
                    Some(a) => a@,
                    None => cte_name@,
                };
                let node = cte_reference_node(*old(ctx), cte_name@, alias_view);
                let cte_id = old(ctx).cte_definitions.as_map()[cte_name@];
                let self_join = in_any_scope(old(ctx).scope_stack@, cte_name@);
                &&& r matches Some(p) && p.0@ == cte_name@ && p.1@ == node
                &&& graph_extends(*old(ctx), *final(ctx))
                &&& final(ctx).table_node_ids.as_map() == old(ctx).table_node_ids.as_map().insert(cte_name@, node)
                &&& self_join ==> has_node_id(final(ctx).nodes@, node)
                &&& self_join && !has_node_id(old(ctx).nodes@, node) ==> has_edge_view_id(
                    final(ctx).edges.deep_view(),
                    spec_edge_id(cte_id, node),
                )
                &&& self_join && !has_node_id(old(ctx).nodes@, node) && old(ctx).current_join_info.join_type is Some
                    ==> final(ctx).joined_table_info.as_map() == old(ctx).joined_table_info.as_map().insert(
                    node,
                    old(ctx).current_join_info.deep_view(),
                )
                &&& self_join && has_node_id(old(ctx).nodes@, node) ==> final(ctx).joined_table_info
                    == old(ctx).joined_table_info
                &&& !self_join ==> final(ctx).joined_table_info.as_map() == joined_after_reuse(*old(ctx), node)
                &&& old(ctx).scope_stack@.len() > 0 ==> final(ctx).scope_stack@.last().tables.as_map()
                    == old(ctx).scope_stack@.last().tables.as_map().insert(cte_name@, node)
                &&& old(ctx).scope_stack@.len() > 0 && old(ctx).total_instances() < super::context::MAX_INSTANCES_PER_STATEMENT
                    ==> final(ctx).scope_stack@.last().alias_instances.as_map()
                    == old(ctx).scope_stack@.last().alias_instances.as_map().insert(
                    alias_key,
                    InstanceView { canonical: cte_name@, node_id: node },
                )
            },
    {
        let key = string_of(cte_name);
        let cte_id = match ctx.cte_definitions.get(&key) {
            Some(id) => id.clone(),
            None => {
                return None;
            },
        };
        let ghost start = *ctx;
        let ghost alias_view: Option<Seq<char>> = match alias {
            Some(a) => Some(a@),
            None => None,
        };
        let mut is_self_join = false;
        let mut s: usize = 0;
        while s < ctx.scope_stack.len()
            invariant
                ctx.wf(),
                key@ == cte_name@,
                0 <= s <= ctx.scope_stack@.len(),
                is_self_join == exists|i: int| 0 <= i < s && (#[trigger] ctx.scope_stack@[i]).tables.as_map().contains_key(cte_name@),
            decreases ctx.scope_stack@.len() - s,
        {
            assert(ctx.scope_stack@[s as int].wf());
            if ctx.scope_stack[s].tables.contains_key(&key) {
                is_self_join = true;
            }
            s = s + 1;
        }
        let alias_key: &str = match alias {
            Some(a) => a,
            None => cte_name,
        };
        let node_id = if is_self_join {
            let scope_id = match ctx.current_scope_id() {
                Some(id) => id,
                None => 0,
            };
            let mut instance_key = string_of("statement_");
            instance_key.append(usize_to_string(ctx.statement_index).as_str());
            instance_key.append("::scope_");
            instance_key.append(usize_to_string(scope_id).as_str());
            instance_key.append("::");
            instance_key.append(cte_name);
            instance_key.append("::");
            instance_key.append(alias_key);
            let instance_id = generate_node_id("cte", instance_key.as_str());
            assert(instance_id@ == cte_reference_node(start, cte_name@, alias_view));
            proof {
                lemma_extends_refl(*ctx);
            }
            if !ctx.node_ids.contains_key(&instance_id) {
                let node = Node::basic(instance_id.clone(), NodeType::Cte, string_of(cte_name), Some(string_of(cte_name)));
                let ghost c0 = *ctx;
                ctx.add_node(node);
                proof {
                    assert(ctx.nodes@.take(c0.nodes@.len() as int) =~= c0.nodes@);
                    assert(ctx.edges.deep_view().take(c0.edges@.len() as int) =~= c0.edges.deep_view());
                }
                if ctx.current_join_info.join_type.is_some() {
                    let info = ctx.current_join_info.duplicate();
                    ctx.joined_table_info.insert(instance_id.clone(), info);
                }
                let ghost c1 = *ctx;
                Self::add_plain_edge(ctx, cte_id.as_str(), instance_id.as_str(), EdgeType::DataFlow);
                proof {
                    lemma_with_edge(c1.edges.deep_view(), plain_edge(cte_id@, instance_id@, EdgeType::DataFlow));
                    assert(ctx.nodes@.take(c1.nodes@.len() as int) =~= c1.nodes@);
                    lemma_extends_trans(c0, c1, *ctx);
                    lemma_extends_trans(start, c0, *ctx);
                    lemma_extends_keeps(c0, *ctx, instance_id@, spec_edge_id(cte_id@, instance_id@));
                }
            }
            let ghost c2 = *ctx;
            self.materialize_cte_reference_columns(ctx, cte_name, alias_key, &instance_id);
            proof {
                if !materialize_skips(c2, cte_name@, alias_key@) {
                    lemma_extends_trans(start, c2, *ctx);
                    lemma_extends_keeps(c2, *ctx, instance_id@, spec_edge_id(cte_id@, instance_id@));
                }
                assert(ctx.scope_stack@.len() == start.scope_stack@.len());
                assert(start.scope_stack@.len() > 0 ==> ctx.scope_stack@.last().alias_instances == start.scope_stack@.last().alias_instances);
                assert(start.scope_stack@.len() > 0 ==> ctx.scope_stack@.last().tables == start.scope_stack@.last().tables);
                assert(forall|i: int| 0 <= i < start.scope_stack@.len() - 1 ==> #[trigger] ctx.scope_stack@[i] == start.scope_stack@[i]);
            }
            instance_id
        } else {
            proof {
                assert(!in_any_scope(start.scope_stack@, cte_name@));
            }
            self.apply_join_metadata_to_existing_node(ctx, &cte_id);
            proof {
                lemma_extends_refl(*ctx);
            }
            cte_id
        };
        let ghost c3 = *ctx;
        ctx.register_table_in_scope(string_of(cte_name), node_id.clone());
        let ghost c4 = *ctx;
        proof {
            lemma_same_instances(start.scope_stack@, c4.scope_stack@);
            assert(c4.nodes == c3.nodes && c4.edges == c3.edges);
        }
        ctx.register_alias_instance(string_of(alias_key), string_of(cte_name), node_id.clone());
        proof {
            assert(ctx.nodes == c3.nodes && ctx.edges == c3.edges);
        }
        Some((string_of(cte_name), node_id))
    }

    /// Where a table's resolution comes from: the origin of its known schema; unknown
    /// when it has none and is not otherwise known; nothing to record otherwise.
    pub fn determine_resolution_source(&self, canonical: &str, is_known: bool) -> (r: Option<ResolutionSource>)
        requires
            self.wf(),
        ensures
            self.schema.as_map().contains_key(canonical@) ==> r == Some(
                match self.schema.as_map()[canonical@].origin {
                    SchemaOrigin::Imported => ResolutionSource::Imported,
                    SchemaOrigin::Implied => ResolutionSource::Implied,
                },
            ),
            !self.schema.as_map().contains_key(canonical@) && !is_known ==> r == Some(ResolutionSource::Unknown),
            !self.schema.as_map().contains_key(canonical@) && is_known ==> r is None,
    {
        match self.schema.get(&string_of(canonical)) {
            Some(entry) => match entry.origin {
                SchemaOrigin::Imported => Some(ResolutionSource::Imported),
                SchemaOrigin::Implied => Some(ResolutionSource::Implied),
            },
            None => if !is_known {
                Some(ResolutionSource::Unknown)
            } else {
                None
            },
        }
    }

    /// Creates an inferred column node on a source table, owned by it, and records
    /// the column in the implied schema.
    ///
    /// This is used during backward inference to add column nodes to source tables
    /// that were referenced via `SELECT *` but lacked schema metadata. Returns the
    /// column node ID, whether newly created or already existing.
    pub fn create_inferred_source_column(
        &self,
        ctx: &mut StatementContext,
        source_canonical: &str,
        source_node_id: &String,
        column_name: &str,
        data_type: Option<String>,
    ) -> (r: Option<String>)
        requires
            old(ctx).wf(),
        ensures
            final(ctx).wf(),
            r matches Some(id) && id@ == spec_column_node_id(Some(source_node_id@), column_name@),
            column_inferred(*old(ctx), *final(ctx), source_canonical@, source_node_id@, column_name@, opt_chars(data_type)),
            final(ctx).edges.deep_view() == edges_after_inferred(*old(ctx), source_node_id@, column_name@),
            has_node_id(old(ctx).nodes@, spec_column_node_id(Some(source_node_id@), column_name@))
                ==> *final(ctx) == *old(ctx),
    {
        let col_node_id = generate_column_node_id(Some(source_node_id.as_str()), column_name);
        if ctx.node_ids.contains_key(&col_node_id) {
            return Some(col_node_id);
        }
        let mut qualified = string_of(source_canonical);
        qualified.append(".");
        qualified.append(column_name);
        proof {
            reveal_strlit(".");
        }
        let mut node = Node::basic(col_node_id.clone(), NodeType::Column, string_of(column_name), Some(qualified));
        node.resolution_source = Some(ResolutionSource::Implied);
        let ghost before_nodes = ctx.nodes@;
        ctx.add_node(node);
        assert(ctx.nodes@.drop_last() =~= before_nodes);
        let edge_id = generate_edge_id(source_node_id.as_str(), col_node_id.as_str());
        let ghost ev = plain_edge(source_node_id@, col_node_id@, EdgeType::Ownership);
        let ghost before = ctx.edges.deep_view();
        proof {
            Self::lemma_edge_id_views(ctx.edges, edge_id@);
        }
        if !ctx.edge_ids.contains_key(&edge_id) {
            let edge = Edge::basic(edge_id, source_node_id.clone(), col_node_id.clone(), EdgeType::Ownership);
            assert(edge.deep_view() == ev);
            ctx.add_edge(edge);
            assert(ctx.edges.deep_view() =~= before.push(ev));
        }
        ctx.record_source_column(source_canonical, column_name, data_type);
        Some(col_node_id)
    }
}

} // verus!

verus! {

/// The edge operation label of a join type.
pub open spec fn join_operation(jt: JoinType) -> &'static str {
    match jt {
        JoinType::Inner => "INNER_JOIN",
        JoinType::Left => "LEFT_JOIN",
        JoinType::Right => "RIGHT_JOIN",
        JoinType::Full => "FULL_JOIN",
        JoinType::Cross => "CROSS_JOIN",
        JoinType::LeftSemi => "LEFT_SEMI_JOIN",
        JoinType::RightSemi => "RIGHT_SEMI_JOIN",
        JoinType::LeftAnti => "LEFT_ANTI_JOIN",
        JoinType::RightAnti => "RIGHT_ANTI_JOIN",
        JoinType::CrossApply => "CROSS_APPLY",
        JoinType::OuterApply => "OUTER_APPLY",
        JoinType::AsOf => "AS_OF_JOIN",
    }
}

impl Analyzer {
    /// Convert a join type to the operation string used for edge labels.
    pub fn join_type_to_operation(join_type: Option<JoinType>) -> (r: Option<String>)
        ensures
            join_type is None ==> r is None,
            join_type matches Some(jt) ==> r matches Some(s) && s@ == join_operation(jt)@,
    {
        match join_type {
            None => None,
            Some(jt) => {
                let label: &'static str = match jt {
                    JoinType::Inner => "INNER_JOIN",
                    JoinType::Left => "LEFT_JOIN",
                    JoinType::Right => "RIGHT_JOIN",
                    JoinType::Full => "FULL_JOIN",
                    JoinType::Cross => "CROSS_JOIN",
                    JoinType::LeftSemi => "LEFT_SEMI_JOIN",
                    JoinType::RightSemi => "RIGHT_SEMI_JOIN",
                    JoinType::LeftAnti => "LEFT_ANTI_JOIN",
                    JoinType::RightAnti => "RIGHT_ANTI_JOIN",
                    JoinType::CrossApply => "CROSS_APPLY",
                    JoinType::OuterApply => "OUTER_APPLY",
                    JoinType::AsOf => "AS_OF_JOIN",
                };
                Some(string_of(label))
            },
        }
    }
}

} // verus!
