//! Statement-level passes over the lineage graph: join metadata and join dependencies.

use vstd::prelude::*;

use super::context::{has_edge_id, JoinView, StatementContext};
use super::{Analyzer, TemplateMode};
use crate::collections::KeyMap;
use crate::ids::{generate_edge_id, spec_edge_id};
use crate::text::string_of;
use crate::types::{Edge, EdgeType, EdgeView, JoinType, Node};

verus! {

/// The table each column belongs to, by the ownership edges of `edges` (a later edge wins).
pub open spec fn ownership_map(edges: Seq<Edge>) -> Map<Seq<char>, Seq<char>>
    decreases edges.len(),
{
    if edges.len() == 0 {
        Map::empty()
    } else {
        let m = ownership_map(edges.drop_last());
        if edges.last().edge_type == EdgeType::Ownership {
            m.insert(edges.last().to@, edges.last().from@)
        } else {
            m
        }
    }
}

/// Whether an edge may carry join metadata: a data flow, derivation or join
/// dependency edge that has no join type yet.
pub open spec fn join_candidate(e: Edge) -> bool {
    (e.edge_type == EdgeType::DataFlow || e.edge_type == EdgeType::Derivation
        || e.edge_type == EdgeType::JoinDependency) && e.join_type is None
}

/// The joined table an edge starts from, directly or through the column it starts from.
pub open spec fn joined_source(
    joined: Map<Seq<char>, JoinView>,
    owners: Map<Seq<char>, Seq<char>>,
    from: Seq<char>,
) -> Option<Seq<char>> {
    if joined.contains_key(from) {
        Some(from)
    } else if owners.contains_key(from) && joined.contains_key(owners[from]) {
        Some(owners[from])
    } else {
        None
    }
}

/// An edge after join metadata has been propagated onto it.
pub open spec fn with_join_info(
    e: EdgeView,
    candidate: bool,
    joined: Map<Seq<char>, JoinView>,
    owners: Map<Seq<char>, Seq<char>>,
) -> EdgeView {
    if candidate {
        match joined_source(joined, owners, e.from) {
            Some(t) => EdgeView {
                join_type: joined[t].join_type,
                join_condition: if e.join_condition is None {
                    joined[t].join_condition
                } else {
                    e.join_condition
                },
                ..e
            },
            None => e,
        }
    } else {
        e
    }
}

impl Analyzer {
    /// Propagate join metadata from the context's `joined_table_info` onto edges.
    ///
    /// Data flow, derivation and join dependency edges without a join type that start
    /// at a joined table, or at a column owned by one, take that table's join type,
    /// and its join condition unless they already have one.
    pub fn propagate_join_info_to_edges(ctx: &mut StatementContext)
        requires
            old(ctx).wf(),
        ensures
            final(ctx).wf(),
            final(ctx).edges@.len() == old(ctx).edges@.len(),
            forall|i: int| 0 <= i < old(ctx).edges@.len() ==> (#[trigger] final(ctx).edges@[i]).deep_view()
                == with_join_info(
                    old(ctx).edges@[i].deep_view(),
                    join_candidate(old(ctx).edges@[i]),
                    old(ctx).joined_table_info.as_map(),
                    ownership_map(old(ctx).edges@),
                ),
            *final(ctx) == (StatementContext { edges: final(ctx).edges, ..*old(ctx) }),
    {
        if ctx.joined_table_info.len() == 0 {
            proof {
                ctx.joined_table_info.lemma_domain();
                assert(ctx.joined_table_info.as_map() =~= Map::<Seq<char>, JoinView>::empty());
            }
            return;
        }
        let ghost old_edges = ctx.edges@;
        let ghost joined = ctx.joined_table_info.as_map();
        let mut column_to_table: KeyMap<String, String> = KeyMap::new();
        let mut i: usize = 0;
        while i < ctx.edges.len()
            invariant
                ctx.edges@ == old_edges,
                0 <= i <= old_edges.len(),
                column_to_table.wf(),
                column_to_table.as_map() == ownership_map(old_edges.take(i as int)),
            decreases old_edges.len() - i,
        {
            assert(old_edges.take(i + 1).drop_last() =~= old_edges.take(i as int));
            if ctx.edges[i].edge_type == EdgeType::Ownership {
                column_to_table.insert(ctx.edges[i].to.clone(), ctx.edges[i].from.clone());
            }
            i = i + 1;
        }
        assert(old_edges.take(old_edges.len() as int) =~= old_edges);
        let ghost owners = ownership_map(old_edges);
        let mut i: usize = 0;
        while i < ctx.edges.len()
            invariant
                old(ctx).wf(),
                old_edges == old(ctx).edges@,
                joined == old(ctx).joined_table_info.as_map(),
                owners == ownership_map(old_edges),
                column_to_table.wf(),
                column_to_table.as_map() == owners,
                ctx.joined_table_info.wf(),
                *ctx == (StatementContext { edges: ctx.edges, ..*old(ctx) }),
                ctx.edges@.len() == old_edges.len(),
                0 <= i <= old_edges.len(),
                forall|j: int| 0 <= j < old_edges.len() ==> (#[trigger] ctx.edges@[j]).id == old_edges[j].id,
                forall|j: int| i <= j < old_edges.len() ==> #[trigger] ctx.edges@[j] == old_edges[j],
                forall|j: int| 0 <= j < i ==> (#[trigger] ctx.edges@[j]).deep_view() == with_join_info(
                    old_edges[j].deep_view(),
                    join_candidate(old_edges[j]),
                    joined,
                    owners,
                ),
            decreases old_edges.len() - i,
        {
            let candidate = {
                let e = &ctx.edges[i];
                (e.edge_type == EdgeType::DataFlow || e.edge_type == EdgeType::Derivation
                    || e.edge_type == EdgeType::JoinDependency) && e.join_type.is_none()
            };
            if candidate {
                let source = if ctx.joined_table_info.contains_key(&ctx.edges[i].from) {
                    Some(ctx.edges[i].from.clone())
                } else {
                    match column_to_table.get(&ctx.edges[i].from) {
                        Some(t) => {
                            if ctx.joined_table_info.contains_key(t) {
                                Some(t.clone())
                            } else {
                                None
                            }
                        },
                        None => None,
                    }
                };
                match source {
                    Some(t) => match ctx.joined_table_info.get(&t) {
                        Some(info) => {
                            let jt = info.join_type;
                            let jc = crate::analyzer::context::copy_opt_string(&info.join_condition);
                            ctx.edges[i].join_type = jt;
                            if ctx.edges[i].join_condition.is_none() {
                                ctx.edges[i].join_condition = jc;
                            }
                        },
                        None => {},
                    },
                    None => {},
                }
            }
            i = i + 1;
        }
        proof {
            let edges = ctx.edges@;
            assert forall|a: int, b: int| 0 <= a < b < edges.len() implies edges[a].id@ != edges[b].id@ by {
                assert(edges[a].id == old_edges[a].id);
                assert(edges[b].id == old_edges[b].id);
            }
            assert forall|k: Seq<char>| #[trigger] ctx.edge_ids.as_map().contains_key(k) <==> has_edge_id(edges, k) by {
                if has_edge_id(edges, k) {
                    let j = choose|j: int| 0 <= j < edges.len() && (#[trigger] edges[j]).id@ == k;
                    assert(old_edges[j].id == edges[j].id);
                }
                if has_edge_id(old_edges, k) {
                    let j = choose|j: int| 0 <= j < old_edges.len() && (#[trigger] old_edges[j]).id@ == k;
                    assert(old_edges[j].id == edges[j].id);
                }
            }
        }
    }
}

} // verus!

verus! {

/// Propagating join metadata is idempotent: an edge that has received it is left as
/// it is by a second propagation with the same joined relations and ownership.
pub proof fn law_join_info_idempotent(
    e: Edge,
    joined: Map<Seq<char>, JoinView>,
    owners: Map<Seq<char>, Seq<char>>,
)
    ensures
        ({
            let once = with_join_info(e.deep_view(), join_candidate(e), joined, owners);
            let candidate_again = (once.edge_type == EdgeType::DataFlow || once.edge_type == EdgeType::Derivation
                || once.edge_type == EdgeType::JoinDependency) && once.join_type is None;
            with_join_info(once, candidate_again, joined, owners) == once
        }),
{
}

} // verus!

verus! {

/// Whether values flow along the edge (data flow or derivation).
pub open spec fn flows(e: EdgeView) -> bool {
    e.edge_type == EdgeType::DataFlow || e.edge_type == EdgeType::Derivation
}

/// Whether `edges` has an ownership edge from `owner` to `column`.
pub open spec fn owns(edges: Seq<EdgeView>, owner: Seq<char>, column: Seq<char>) -> bool {
    exists|i: int| 0 <= i < edges.len() && (#[trigger] edges[i]).edge_type == EdgeType::Ownership
        && edges[i].from == owner && edges[i].to == column
}

/// Whether values flow from `node` (or a column it owns) into `output` (or a column it owns).
pub open spec fn contributes(edges: Seq<EdgeView>, node: Seq<char>, output: Seq<char>) -> bool {
    exists|i: int| 0 <= i < edges.len() && flows(#[trigger] edges[i])
        && (edges[i].from == node || owns(edges, node, edges[i].from))
        && (edges[i].to == output || owns(edges, output, edges[i].to))
}

/// Whether `edges` holds an edge with identifier `id`.
pub open spec fn has_edge_view_id(edges: Seq<EdgeView>, id: Seq<char>) -> bool {
    exists|i: int| 0 <= i < edges.len() && (#[trigger] edges[i]).id == id
}

/// How a join type is written in a join dependency key.
pub open spec fn spec_join_type_label(jt: Option<JoinType>) -> &'static str {
    match jt {
        None => "None",
        Some(JoinType::Inner) => "Some(Inner)",
        Some(JoinType::Left) => "Some(Left)",
        Some(JoinType::Right) => "Some(Right)",
        Some(JoinType::Full) => "Some(Full)",
        Some(JoinType::Cross) => "Some(Cross)",
        Some(JoinType::LeftSemi) => "Some(LeftSemi)",
        Some(JoinType::RightSemi) => "Some(RightSemi)",
        Some(JoinType::LeftAnti) => "Some(LeftAnti)",
        Some(JoinType::RightAnti) => "Some(RightAnti)",
        Some(JoinType::CrossApply) => "Some(CrossApply)",
        Some(JoinType::OuterApply) => "Some(OuterApply)",
        Some(JoinType::AsOf) => "Some(AsOf)",
    }
}

/// How a join type is written in a join dependency key.
pub fn join_type_label(jt: Option<JoinType>) -> (r: &'static str)
    ensures
        r == spec_join_type_label(jt),
{
    match jt {
        None => "None",
        Some(JoinType::Inner) => "Some(Inner)",
        Some(JoinType::Left) => "Some(Left)",
        Some(JoinType::Right) => "Some(Right)",
        Some(JoinType::Full) => "Some(Full)",
        Some(JoinType::Cross) => "Some(Cross)",
        Some(JoinType::LeftSemi) => "Some(LeftSemi)",
        Some(JoinType::RightSemi) => "Some(RightSemi)",
        Some(JoinType::LeftAnti) => "Some(LeftAnti)",
        Some(JoinType::RightAnti) => "Some(RightAnti)",
        Some(JoinType::CrossApply) => "Some(CrossApply)",
        Some(JoinType::OuterApply) => "Some(OuterApply)",
        Some(JoinType::AsOf) => "Some(AsOf)",
    }
}

/// The key a join dependency edge of `node_id` is identified by.
pub open spec fn join_dependency_key(node_id: Seq<char>, info: JoinView) -> Seq<char> {
    "join_dependency:"@ + node_id + ":"@ + spec_join_type_label(info.join_type)@ + ":"@ + match info.join_condition {
        Some(c) => c,
        None => Seq::empty(),
    }
}

/// The join dependency edge from a joined relation to the output node.
pub open spec fn join_dependency_edge(node_id: Seq<char>, info: JoinView, output: Seq<char>) -> EdgeView {
    EdgeView {
        id: spec_edge_id(join_dependency_key(node_id, info), output),
        from: node_id,
        to: output,
        edge_type: EdgeType::JoinDependency,
        expression: None,
        operation: None,
        join_type: info.join_type,
        join_condition: info.join_condition,
        approximate: None,
    }
}

/// The edges after join dependency edges are added for the joined relations among
/// `nodes` that do not already contribute to the output.
pub open spec fn with_join_dependencies(
    edges: Seq<EdgeView>,
    base: Seq<EdgeView>,
    nodes: Seq<Node>,
    joined: Map<Seq<char>, JoinView>,
    output: Seq<char>,
    lineage: bool,
) -> Seq<EdgeView>
    decreases nodes.len(),
{
    if nodes.len() == 0 {
        edges
    } else {
        let acc = with_join_dependencies(edges, base, nodes.drop_last(), joined, output, lineage);
        let n = nodes.last();
        if !n.node_type.spec_is_table_like() || !joined.contains_key(n.id@) {
            acc
        } else if lineage && contributes(base, n.id@, output) {
            acc
        } else {
            let e = join_dependency_edge(n.id@, joined[n.id@], output);
            if has_edge_view_id(acc, e.id) {
                acc
            } else {
                acc.push(e)
            }
        }
    }
}

/// Every edge the dependency pass adds is a join dependency edge from a joined
/// relation of `nodes` to the output node, and the edges it starts from stay first.
pub proof fn law_join_dependency_edges_target_output(
    edges: Seq<EdgeView>,
    base: Seq<EdgeView>,
    nodes: Seq<Node>,
    joined: Map<Seq<char>, JoinView>,
    output: Seq<char>,
    lineage: bool,
)
    ensures
        ({
            let r = with_join_dependencies(edges, base, nodes, joined, output, lineage);
            &&& r.len() >= edges.len()
            &&& r.take(edges.len() as int) == edges
            &&& forall|i: int| edges.len() <= i < r.len() ==> {
                &&& (#[trigger] r[i]).edge_type == EdgeType::JoinDependency
                &&& r[i].to == output
                &&& joined.contains_key(r[i].from)
                &&& r[i].join_type == joined[r[i].from].join_type
            }
        }),
    decreases nodes.len(),
{
    if nodes.len() > 0 {
        law_join_dependency_edges_target_output(edges, base, nodes.drop_last(), joined, output, lineage);
        let acc = with_join_dependencies(edges, base, nodes.drop_last(), joined, output, lineage);
        let r = with_join_dependencies(edges, base, nodes, joined, output, lineage);
        assert(r.take(edges.len() as int) =~= edges) by {
            assert forall|i: int| 0 <= i < edges.len() implies r[i] == edges[i] by {
                assert(acc.take(edges.len() as int)[i] == edges[i]);
            }
        }
    }
}

/// Whether the dependency pass has anything to connect: there is an output node, and
/// with column lineage the output already receives columns or values.
pub open spec fn join_dependencies_apply(ctx: StatementContext, lineage: bool) -> bool {
    match ctx.output_node_id {
        None => false,
        Some(out) => !lineage || exists|i: int| 0 <= i < ctx.edges@.len() && ({
            let e = (#[trigger] ctx.edges@[i]).deep_view();
            (e.edge_type == EdgeType::Ownership && e.from == out@) || (flows(e) && e.to == out@)
        }),
    }
}

impl Analyzer {
    /// Adds a join dependency edge from each joined relation that does not otherwise
    /// contribute to the output, so the join's effect on the row set stays visible.
    pub fn add_join_dependency_edges(&self, ctx: &mut StatementContext)
        requires
            old(ctx).wf(),
        ensures
            final(ctx).wf(),
            !join_dependencies_apply(*old(ctx), self.column_lineage_enabled) ==> *final(ctx) == *old(ctx),
            join_dependencies_apply(*old(ctx), self.column_lineage_enabled) ==> {
                &&& final(ctx).edges.deep_view() == with_join_dependencies(
                    old(ctx).edges.deep_view(),
                    old(ctx).edges.deep_view(),
                    old(ctx).nodes@,
                    old(ctx).joined_table_info.as_map(),
                    old(ctx).output_node_id.unwrap()@,
                    self.column_lineage_enabled,
                )
                &&& *final(ctx) == (StatementContext {
                    edges: final(ctx).edges,
                    edge_ids: final(ctx).edge_ids,
                    ..*old(ctx)
                })
            },
    {
        let output_node_id = match &ctx.output_node_id {
            Some(id) => id.clone(),
            None => {
                return;
            },
        };
        let ghost base = ctx.edges.deep_view();
        let lineage = self.column_lineage_enabled;
        let mut ownership: KeyMap<(String, String), ()> = KeyMap::new();
        let mut feeds_output = false;
        let mut i: usize = 0;
        while i < ctx.edges.len()
            invariant
                base == ctx.edges.deep_view(),
                ctx.edges@.len() == base.len(),
                0 <= i <= base.len(),
                ownership.wf(),
                forall|t: Seq<char>, c: Seq<char>| #[trigger] ownership.as_map().contains_key((t, c)) <==> exists|j: int|
                    0 <= j < i && (#[trigger] base[j]).edge_type == EdgeType::Ownership && base[j].from == t && base[j].to == c,
                feeds_output == exists|j: int| 0 <= j < i && ({
                    let e = #[trigger] base[j];
                    (e.edge_type == EdgeType::Ownership && e.from == output_node_id@) || (flows(e) && e.to == output_node_id@)
                }),
            decreases base.len() - i,
        {
            let e = &ctx.edges[i];
            assert(base[i as int] == e.deep_view());
            if e.edge_type == EdgeType::Ownership {
                ownership.insert((e.from.clone(), e.to.clone()), ());
                if e.from == output_node_id {
                    feeds_output = true;
                }
            }
            if (e.edge_type == EdgeType::DataFlow || e.edge_type == EdgeType::Derivation) && e.to == output_node_id {
                feeds_output = true;
            }
            i = i + 1;
        }
        proof {
            assert forall|j: int| 0 <= j < base.len() implies #[trigger] base[j] == ctx.edges@[j].deep_view() by {}
        }
        if lineage && !feeds_output {
            proof {
                if join_dependencies_apply(*old(ctx), lineage) {
                    let j = choose|j: int| 0 <= j < ctx.edges@.len() && ({
                        let e = (#[trigger] ctx.edges@[j]).deep_view();
                        (e.edge_type == EdgeType::Ownership && e.from == output_node_id@) || (flows(e) && e.to == output_node_id@)
                    });
                    assert(base[j] == ctx.edges@[j].deep_view());
                }
            }
            return;
        }
        let ghost n_base = base.len();
        let n_edges = ctx.edges.len();
        let mut k: usize = 0;
        assert(old(ctx).nodes@.take(0) =~= Seq::<Node>::empty());
        assert(ctx.edges.deep_view().take(n_base as int) =~= base);
        while k < ctx.nodes.len()
            invariant
                old(ctx).wf(),
                ctx.wf(),
                base == old(ctx).edges.deep_view(),
                ownership.wf(),
                forall|t: Seq<char>, c: Seq<char>| #[trigger] ownership.as_map().contains_key((t, c)) <==> owns(base, t, c),
                0 <= k <= old(ctx).nodes@.len(),
                ctx.edges.deep_view() == with_join_dependencies(
                    base,
                    base,
                    old(ctx).nodes@.take(k as int),
                    old(ctx).joined_table_info.as_map(),
                    output_node_id@,
                    lineage,
                ),
                *ctx == (StatementContext { edges: ctx.edges, edge_ids: ctx.edge_ids, ..*old(ctx) }),
                old(ctx).output_node_id == Some(output_node_id),
                n_base == base.len(),
                n_edges == n_base,
                ctx.edges@.len() >= n_base,
                ctx.edges.deep_view().take(n_base as int) == base,
            decreases old(ctx).nodes@.len() - k,
        {
            assert(old(ctx).nodes@.take(k + 1).drop_last() =~= old(ctx).nodes@.take(k as int));
            let node_id = ctx.nodes[k].id.clone();
            let table_like = ctx.nodes[k].node_type.is_table_like();
            let info = match ctx.joined_table_info.get(&node_id) {
                Some(info) => Some(info.duplicate()),
                None => None,
            };
            if table_like {
                match info {
                    Some(info) => {
                        let contributing = if lineage {
                            Self::contributes_to_output(&ctx.edges, n_edges, &ownership, &node_id, &output_node_id)
                        } else {
                            false
                        };
                        if !contributing {
                            let mut key = string_of("join_dependency:");
                            key.append(node_id.as_str());
                            key.append(":");
                            key.append(join_type_label(info.join_type));
                            key.append(":");
                            match &info.join_condition {
                                Some(c) => key.append(c.as_str()),
                                None => {},
                            }
                            let edge_id = generate_edge_id(key.as_str(), output_node_id.as_str());
                            let ghost acc = ctx.edges.deep_view();
                            let ghost ev = join_dependency_edge(node_id@, info.deep_view(), output_node_id@);
                            assert(edge_id@ == ev.id);
                            let exists = ctx.edge_ids.contains_key(&edge_id);
                            proof {
                                assert(exists == has_edge_view_id(acc, ev.id)) by {
                                    if has_edge_id(ctx.edges@, edge_id@) {
                                        let j = choose|j: int| 0 <= j < ctx.edges@.len() && (#[trigger] ctx.edges@[j]).id@ == edge_id@;
                                        assert(acc[j].id == edge_id@);
                                    }
                                    if has_edge_view_id(acc, ev.id) {
                                        let j = choose|j: int| 0 <= j < acc.len() && (#[trigger] acc[j]).id == ev.id;
                                        assert(ctx.edges@[j].id@ == edge_id@);
                                    }
                                }
                            }
                            if !exists {
                                let edge = Edge {
                                    id: edge_id,
                                    from: node_id,
                                    to: output_node_id.clone(),
                                    edge_type: EdgeType::JoinDependency,
                                    expression: None,
                                    operation: None,
                                    join_type: info.join_type,
                                    join_condition: info.join_condition,
                                    approximate: None,
                                };
                                assert(edge.deep_view() == ev);
                                ctx.add_edge(edge);
                                assert(ctx.edges.deep_view() =~= acc.push(ev));
                                assert(ctx.edges.deep_view().take(n_base as int) =~= acc.take(n_base as int));
                            }
                        }
                    },
                    None => {},
                }
            }
            k = k + 1;
        }
        assert(old(ctx).nodes@.take(old(ctx).nodes@.len() as int) =~= old(ctx).nodes@);
    }

    /// Whether values flow from `node_id` (or a column it owns) into the output
    /// node (or a column it owns); `ownership` holds the ownership pairs of `edges`.
    fn contributes_to_output(
        edges: &Vec<Edge>,
        count: usize,
        ownership: &KeyMap<(String, String), ()>,
        node_id: &String,
        output: &String,
    ) -> (r: bool)
        requires
            count <= edges.len(),
            ownership.wf(),
            forall|t: Seq<char>, c: Seq<char>| #[trigger] ownership.as_map().contains_key((t, c))
                <==> owns(edges.deep_view().take(count as int), t, c),
        ensures
            r == contributes(edges.deep_view().take(count as int), node_id@, output@),
    {
        let ghost ev = edges.deep_view().take(count as int);
        let mut i: usize = 0;
        while i < count
            invariant
                count <= edges.len(),
                ownership.wf(),
                forall|t: Seq<char>, c: Seq<char>| #[trigger] ownership.as_map().contains_key((t, c)) <==> owns(ev, t, c),
                ev == edges.deep_view().take(count as int),
                0 <= i <= ev.len(),
                forall|j: int| 0 <= j < i ==> !(flows(#[trigger] ev[j]) && (ev[j].from == node_id@ || owns(ev, node_id@, ev[j].from))
                    && (ev[j].to == output@ || owns(ev, output@, ev[j].to))),
            decreases ev.len() - i,
        {
            let e = &edges[i];
            assert(ev[i as int] == e.deep_view());
            if e.edge_type == EdgeType::DataFlow || e.edge_type == EdgeType::Derivation {
                let from_ok = *node_id == e.from || ownership.contains_key(&(node_id.clone(), e.from.clone()));
                let to_ok = *output == e.to || ownership.contains_key(&(output.clone(), e.to.clone()));
                if from_ok && to_ok {
                    return true;
                }
            }
            i = i + 1;
        }
        false
    }

    /// Checks if the analyzer is running in dbt template mode.
    pub fn is_dbt_mode(&self) -> (r: bool)
        ensures
            r == (self.request.template_mode == Some(TemplateMode::Dbt)),
    {
        match self.request.template_mode {
            Some(TemplateMode::Dbt) => true,
            _ => false,
        }
    }
}

} // verus!

verus! {

/// The position just after the last `c` in `s`, or 0 when `s` has none.
pub open spec fn after_last(s: Seq<char>, c: char) -> int
    decreases s.len(),
{
    if s.len() == 0 {
        0
    } else if s.last() == c {
        s.len() as int
    } else {
        after_last(s.drop_last(), c)
    }
}

/// Whether `s` ends with `suffix`.
pub open spec fn ends_with(s: Seq<char>, suffix: Seq<char>) -> bool {
    suffix.len() <= s.len() && s.subrange(s.len() - suffix.len(), s.len() as int) == suffix
}

/// The file name of a path: what follows its last `/`, then its last `\`.
pub open spec fn file_name(path: Seq<char>) -> Seq<char> {
    let f = path.skip(after_last(path, '/'));
    f.skip(after_last(f, '\\'))
}

/// The dbt model name of a source path: its file name without a `.sql` or
/// `.sql.jinja` extension.
pub open spec fn model_name(path: Seq<char>) -> Seq<char> {
    let f = file_name(path);
    if ends_with(f, ".sql"@) {
        f.take(f.len() - 4)
    } else if ends_with(f, ".sql.jinja"@) {
        f.take(f.len() - 10)
    } else {
        f
    }
}

proof fn lemma_after_last_bounds(s: Seq<char>, c: char)
    ensures
        0 <= after_last(s, c) <= s.len(),
    decreases s.len(),
{
    if s.len() > 0 {
        lemma_after_last_bounds(s.drop_last(), c);
    }
}

/// The position just after the last `c` among the characters of `s` from `from` on,
/// counted from the start of `s`.
fn find_after_last(s: &str, from: usize, c: char) -> (r: usize)
    requires
        from <= s@.len(),
    ensures
        r == from + after_last(s@.skip(from as int), c),
        from <= r <= s@.len(),
{
    let n = s.unicode_len();
    let ghost t = s@.skip(from as int);
    let mut last: usize = from;
    let mut i: usize = from;
    while i < n
        invariant
            n == s@.len(),
            from <= i <= n,
            t == s@.skip(from as int),
            last == from + after_last(t.take(i - from), c),
            from <= last <= i,
        decreases n - i,
    {
        proof {
            assert(t.take(i - from + 1).drop_last() =~= t.take(i - from));
            assert(t.take(i - from + 1).last() == s@[i as int]);
        }
        if s.get_char(i) == c {
            last = i + 1;
        }
        i = i + 1;
        proof {
            lemma_after_last_bounds(t.take(i - from), c);
        }
    }
    assert(t.take(n - from) =~= t);
    last
}

/// Whether the characters of `s` from `from` on end with `suffix`.
fn ends_with_from(s: &str, from: usize, suffix: &str) -> (r: bool)
    requires
        from <= s@.len(),
    ensures
        r == ends_with(s@.skip(from as int), suffix@),
{
    let n = s.unicode_len();
    let m = suffix.unicode_len();
    if m > n - from {
        return false;
    }
    let start = n - m;
    let mut j: usize = 0;
    while j < m
        invariant
            n == s@.len(),
            m == suffix@.len(),
            start == n - m,
            from <= start,
            0 <= j <= m,
            forall|k: int| 0 <= k < j ==> s@[start + k] == suffix@[k],
        decreases m - j,
    {
        if s.get_char(start + j) != suffix.get_char(j) {
            proof {
                let t = s@.skip(from as int);
                assert(t.subrange(t.len() - m, t.len() as int)[j as int] == s@[start + j]);
            }
            return false;
        }
        j = j + 1;
    }
    proof {
        let t = s@.skip(from as int);
        assert(t.subrange(t.len() - m, t.len() as int) =~= suffix@);
    }
    true
}

/// Extracts the model name from a dbt source path.
///
/// Given a path like `models/staging/stg_customers.sql`, extracts `stg_customers`.
/// Supports both `.sql` and `.sql.jinja` file extensions used by dbt, and both
/// `/` and `\` as path separators.
pub fn extract_model_name(path: &str) -> (r: &str)
    ensures
        r@ == model_name(path@),
{
    let n = path.unicode_len();
    let slash = find_after_last(path, 0, '/');
    let start = find_after_last(path, slash, '\\');
    proof {
        let f1 = path@.skip(0);
        assert(f1 =~= path@);
        let f = path@.skip(slash as int);
        assert(path@.skip(start as int) =~= f.skip(after_last(f, '\\')));
        reveal_strlit(".sql");
        reveal_strlit(".sql.jinja");
    }
    if ends_with_from(path, start, ".sql") {
        path.substring_char(start, n - 4)
    } else if ends_with_from(path, start, ".sql.jinja") {
        path.substring_char(start, n - 10)
    } else {
        path.substring_char(start, n)
    }
}

} // verus!
