//! Merging the statement graphs of a request into one project-level graph.

use vstd::prelude::*;

use super::projection::spec_relation_node_id;
use super::Analyzer;
use crate::collections::KeyMap;
use crate::ids::{generate_node_id, spec_node_id};
use crate::types::{
    EdgeType, GlobalEdge, GlobalEdgeView, GlobalLineage, GlobalNode, GlobalNodeView, Node, NodeType, StatementLineage,
    StatementRef,
};

verus! {

/// The canonical name of a node: its qualified name, else its label.
pub open spec fn node_canonical(n: Node) -> Seq<char> {
    match n.qualified_name {
        Some(q) => q@,
        None => n.label@,
    }
}

/// The node a statement node becomes in the project graph: relations merge by
/// canonical name (so the instances of a self-join collapse into one node),
/// qualified columns by qualified name; CTEs and other nodes keep their own.
pub open spec fn global_node_id(n: Node) -> Seq<char> {
    match n.node_type {
        NodeType::Table | NodeType::View => spec_relation_node_id(node_canonical(n)),
        NodeType::Column => if n.qualified_name is Some {
            spec_node_id("column"@, node_canonical(n))
        } else {
            n.id@
        },
        _ => n.id@,
    }
}

/// Statement `k` of `statements` has node `j`.
pub open spec fn has_node_at(statements: Seq<StatementLineage>, k: int, j: int) -> bool {
    0 <= k < statements.len() && 0 <= j < statements[k].nodes@.len()
}

/// Node `j` of statement `k` comes before node `jj` of statement `kk`.
pub open spec fn node_before(statements: Seq<StatementLineage>, k: int, j: int, kk: int, jj: int) -> bool {
    has_node_at(statements, k, j) && (k < kk || (k == kk && j < jj))
}

/// `v` carries the type, label and resolution source of the first statement node
/// whose global identifier is `g`.
#[verifier::opaque]
pub open spec fn first_merged(v: GlobalNodeView, statements: Seq<StatementLineage>, g: Seq<char>) -> bool {
    exists|k: int, j: int|
        #![trigger statements[k].nodes@[j]]
        has_node_at(statements, k, j) && global_node_id(statements[k].nodes@[j]) == g
            && v.node_type == statements[k].nodes@[j].node_type && v.label == statements[k].nodes@[j].label@
            && v.resolution_source == statements[k].nodes@[j].resolution_source
            && forall|k2: int, j2: int|
            #![trigger statements[k2].nodes@[j2]]
            node_before(statements, k2, j2, k, j) ==> global_node_id(statements[k2].nodes@[j2]) != g
}

/// The map from local node identifiers to global ones after the statement nodes
/// before position (`k`, `j`): a later node with the same local identifier wins.
pub open spec fn local_map(statements: Seq<StatementLineage>, k: nat, j: nat) -> Map<Seq<char>, Seq<char>>
    decreases k, j,
{
    if j == 0 {
        if k == 0 || k > statements.len() {
            Map::empty()
        } else {
            local_map(statements, (k - 1) as nat, statements[k - 1].nodes@.len())
        }
    } else if k >= statements.len() {
        Map::empty()
    } else {
        local_map(statements, k, (j - 1) as nat).insert(
            statements[k as int].nodes@[j - 1].id@,
            global_node_id(statements[k as int].nodes@[j - 1]),
        )
    }
}

/// A local node identifier mapped to its global identifier; unknown identifiers stay.
pub open spec fn mapped(m: Map<Seq<char>, Seq<char>>, x: Seq<char>) -> Seq<char> {
    if m.contains_key(x) {
        m[x]
    } else {
        x
    }
}

/// Edge `e` of statement `k`, with its endpoints mapped to global identifiers and
/// the statement as its producer.
pub open spec fn statement_edge_view(statements: Seq<StatementLineage>, k: int, e: int) -> GlobalEdgeView {
    let m = local_map(statements, k as nat, statements[k].nodes@.len());
    let edge = statements[k].edges@[e];
    GlobalEdgeView {
        id: edge.id@,
        from: mapped(m, edge.from@),
        to: mapped(m, edge.to@),
        edge_type: edge.edge_type,
        producer_statement: Some((statements[k].statement_index, None)),
    }
}

/// `acc` with `e` added unless an edge with its endpoints and kind is there.
pub open spec fn merge_edge(acc: Seq<GlobalEdgeView>, e: GlobalEdgeView) -> Seq<GlobalEdgeView> {
    if exists|i: int| 0 <= i < acc.len() && (#[trigger] acc[i]).from == e.from && acc[i].to == e.to && acc[i].edge_type == e.edge_type {
        acc
    } else {
        acc.push(e)
    }
}

/// The statement edges before position (`k`, `e`), mapped and kept once per
/// endpoints and kind (the first one wins).
pub open spec fn merged_edges(statements: Seq<StatementLineage>, k: nat, e: nat) -> Seq<GlobalEdgeView>
    decreases k, e,
{
    if e == 0 {
        if k == 0 || k > statements.len() {
            Seq::empty()
        } else {
            merged_edges(statements, (k - 1) as nat, statements[k - 1].edges@.len())
        }
    } else if k >= statements.len() {
        Seq::empty()
    } else {
        merge_edge(merged_edges(statements, k, (e - 1) as nat), statement_edge_view(statements, k as int, e - 1))
    }
}

/// The edges of `s` whose endpoints are both in `ids`, in order.
pub open spec fn keep_edges(s: Seq<GlobalEdgeView>, ids: Set<Seq<char>>) -> Seq<GlobalEdgeView>
    decreases s.len(),
{
    if s.len() == 0 {
        Seq::empty()
    } else {
        let rest = keep_edges(s.drop_last(), ids);
        if ids.contains(s.last().from) && ids.contains(s.last().to) {
            rest.push(s.last())
        } else {
            rest
        }
    }
}

/// `m` holds, under its global identifier, a node for each statement node before
/// position (`kk`, `jj`), referring back to that statement and node; and nothing else.
#[verifier::opaque]
pub open spec fn merged_upto(m: Map<Seq<char>, GlobalNodeView>, statements: Seq<StatementLineage>, kk: int, jj: int) -> bool {
    &&& forall|g: Seq<char>| #[trigger] m.contains_key(g) ==> m[g].id == g
    &&& forall|k: int, j: int| #![trigger statements[k].nodes@[j]] node_before(statements, k, j, kk, jj) ==> {
        let n = statements[k].nodes@[j];
        &&& m.contains_key(global_node_id(n))
        &&& m[global_node_id(n)].statement_refs.contains((statements[k].statement_index, Some(n.id@)))
    }
    &&& forall|g: Seq<char>| #[trigger] m.contains_key(g) ==> exists|k: int, j: int|
        #![trigger statements[k].nodes@[j]]
        node_before(statements, k, j, kk, jj) && global_node_id(statements[k].nodes@[j]) == g
    &&& forall|g: Seq<char>| #[trigger] m.contains_key(g) ==> first_merged(m[g], statements, g)
}

/// Whether some node of `nodes` has identifier `id`.
pub open spec fn has_global_node(nodes: Seq<GlobalNode>, id: Seq<char>) -> bool {
    exists|i: int| 0 <= i < nodes.len() && (#[trigger] nodes[i]).id@ == id
}

/// Each edge of the statements before `k`, mapped to global identifiers, has an
/// edge of `edges` with its endpoints and kind.
#[verifier::opaque]
pub open spec fn statement_edges_present(ss: Seq<StatementLineage>, k: int, edges: Seq<GlobalEdge>) -> bool {
    forall|k2: int, e2: int| #![trigger statement_edge_view(ss, k2, e2)] 0 <= k2 < k && 0 <= e2 < ss[k2].edges@.len() ==> exists|i: int|
        0 <= i < edges.len() && (#[trigger] edges[i]).from@ == statement_edge_view(ss, k2, e2).from
            && edges[i].to@ == statement_edge_view(ss, k2, e2).to
            && edges[i].edge_type == statement_edge_view(ss, k2, e2).edge_type
}

/// The keys of a map satisfying `merged_upto` are the identifiers of their nodes.
proof fn lemma_merged_ids(m: Map<Seq<char>, GlobalNodeView>, ss: Seq<StatementLineage>, kk: int, jj: int)
    requires
        merged_upto(m, ss, kk, jj),
    ensures
        forall|g: Seq<char>| #[trigger] m.contains_key(g) ==> m[g].id == g,
{
    reveal(merged_upto);
}

impl Analyzer {
    /// The project-graph identifier of a statement node; see `global_node_id`.
    pub fn global_node_id(&self, node: &Node) -> (r: String)
        ensures
            r@ == global_node_id(*node),
    {
        let canonical = match &node.qualified_name {
            Some(q) => q.clone(),
            None => node.label.clone(),
        };
        match node.node_type {
            NodeType::Table | NodeType::View => self.relation_node_id(canonical.as_str()),
            NodeType::Column => if node.qualified_name.is_some() {
                generate_node_id("column", canonical.as_str())
            } else {
                node.id.clone()
            },
            _ => node.id.clone(),
        }
    }

    /// Merges the statement graphs into the project graph.
    ///
    /// Every statement node is represented by the project node of its global
    /// identifier, which refers back to the statement and node and carries the
    /// type, label and resolution source of the first statement node merged into
    /// it; the project nodes have distinct identifiers and each stands for some
    /// statement node. The statement edges are remapped to project nodes and kept
    /// once per endpoints and kind (the first one keeps its identifier and
    /// producing statement), the edges across statements follow, and every edge
    /// whose endpoint is not a project node is dropped.
    pub fn build_global_lineage_from(&self, statements: &Vec<StatementLineage>, cross_statement_edges: Vec<GlobalEdge>) -> (g: GlobalLineage)
        ensures
            forall|a: int, b: int| 0 <= a < b < g.nodes@.len() ==> g.nodes@[a].id@ != g.nodes@[b].id@,
            forall|k: int, j: int| #![trigger statements@[k].nodes@[j]] has_node_at(statements@, k, j) ==> exists|i: int|
                0 <= i < g.nodes@.len() && (#[trigger] g.nodes@[i]).id@ == global_node_id(statements@[k].nodes@[j])
                    && g.nodes@[i].statement_refs.deep_view().contains(
                    (statements@[k].statement_index, Some(statements@[k].nodes@[j].id@)),
                ),
            forall|i: int| 0 <= i < g.nodes@.len() ==> exists|k: int, j: int|
                #![trigger statements@[k].nodes@[j]]
                has_node_at(statements@, k, j) && global_node_id(statements@[k].nodes@[j]) == (#[trigger] g.nodes@[i]).id@,
            forall|i: int| 0 <= i < g.edges@.len() ==> has_global_node(g.nodes@, (#[trigger] g.edges@[i]).from@)
                && has_global_node(g.nodes@, g.edges@[i].to@),
            forall|i: int| 0 <= i < cross_statement_edges@.len() && has_global_node(g.nodes@, (#[trigger] cross_statement_edges@[i]).from@)
                && has_global_node(g.nodes@, cross_statement_edges@[i].to@) ==> exists|r: int|
                0 <= r < g.edges@.len() && (#[trigger] g.edges@[r]).id@ == cross_statement_edges@[i].id@
                    && g.edges@[r].from@ == cross_statement_edges@[i].from@ && g.edges@[r].to@ == cross_statement_edges@[i].to@
                    && g.edges@[r].edge_type == cross_statement_edges@[i].edge_type,
            forall|i: int| 0 <= i < g.nodes@.len() ==> first_merged((#[trigger] g.nodes@[i]).deep_view(), statements@, g.nodes@[i].id@),
            g.edges.deep_view() == keep_edges(
                merged_edges(statements@, statements@.len(), 0) + cross_statement_edges.deep_view(),
                Set::new(|x: Seq<char>| has_global_node(g.nodes@, x)),
            ),
            forall|k: int, e: int| #![trigger statement_edge_view(statements@, k, e)]
                0 <= k < statements@.len() && 0 <= e < statements@[k].edges@.len()
                && has_global_node(g.nodes@, statement_edge_view(statements@, k, e).from)
                && has_global_node(g.nodes@, statement_edge_view(statements@, k, e).to) ==> exists|r: int|
                0 <= r < g.edges@.len() && (#[trigger] g.edges@[r]).from@ == statement_edge_view(statements@, k, e).from
                    && g.edges@[r].to@ == statement_edge_view(statements@, k, e).to
                    && g.edges@[r].edge_type == statement_edge_view(statements@, k, e).edge_type,
    {
        let ghost cross_dv = cross_statement_edges.deep_view();
        let ghost cross_view = cross_statement_edges@;
        let ghost ss = statements@;
        let mut merged: KeyMap<String, GlobalNode> = KeyMap::new();
        let mut local_to_global: KeyMap<String, String> = KeyMap::new();
        let mut edges: Vec<GlobalEdge> = Vec::new();
        let mut k: usize = 0;
        assert(merged_upto(merged.as_map(), ss, 0, 0)) by {
            reveal(merged_upto);
            reveal(first_merged);
        }
        assert(statement_edges_present(ss, 0, edges@)) by {
            reveal(statement_edges_present);
        }
        while k < statements.len()
            invariant
                ss == statements@,
                0 <= k <= ss.len(),
                merged.wf(),
                local_to_global.wf(),
                merged_upto(merged.as_map(), ss, k as int, 0),
                local_to_global.as_map() == local_map(ss, k as nat, 0),
                edges.deep_view() == merged_edges(ss, k as nat, 0),
                statement_edges_present(ss, k as int, edges@),
            decreases ss.len() - k,
        {
            let lineage = &statements[k];
            self.merge_statement_nodes(lineage, &mut merged, &mut local_to_global, Ghost(ss), Ghost(k));
            Self::merge_statement_edges(lineage, &local_to_global, &mut edges, Ghost(ss), Ghost(k));
            proof {
                assert(local_map(ss, (k + 1) as nat, 0) == local_map(ss, k as nat, ss[k as int].nodes@.len()));
            }
            k = k + 1;
        }
        let ghost before_cross = edges@;
        let mut cross = cross_statement_edges;
        edges.append(&mut cross);
        proof {
            assert(edges@ =~= before_cross + cross_view);
            assert(edges.deep_view() =~= merged_edges(ss, ss.len(), 0) + cross_dv);
        }
        let ghost all_edges = edges@;
        let kept = retain_linked_edges(&merged, edges);
        let ghost final_map = merged.as_map();
        proof {
            lemma_statement_edges_kept(ss, before_cross, cross_view, all_edges, kept@, final_map.dom());
        }
        let ghost keys = merged.key_seq();
        let ghost vals = merged.value_seq();
        proof {
            merged.lemma_domain();
            merged.lemma_keys_distinct();
        }
        let nodes = merged.into_values();
        proof {
            lemma_merged_ids(final_map, ss, ss.len() as int, 0);
            assert forall|i: int| 0 <= i < nodes@.len() implies (#[trigger] nodes@[i]).deep_view() == vals[i] by {
                assert(nodes.deep_view()[i] == nodes@[i].deep_view());
            }
            lemma_node_ids(final_map, keys, vals, nodes@);
            lemma_project_nodes(final_map, nodes@, ss);
        }
        GlobalLineage { nodes, edges: kept }
    }

    /// Merges the nodes of statement `k` into `merged`, recording the global
    /// identifier of each in `local_to_global`.
    fn merge_statement_nodes(
        &self,
        lineage: &StatementLineage,
        merged: &mut KeyMap<String, GlobalNode>,
        local_to_global: &mut KeyMap<String, String>,
        Ghost(ss): Ghost<Seq<StatementLineage>>,
        Ghost(k): Ghost<usize>,
    )
        requires
            0 <= k < ss.len(),
            *lineage == ss[k as int],
            old(merged).wf(),
            old(local_to_global).wf(),
            merged_upto(old(merged).as_map(), ss, k as int, 0),
            old(local_to_global).as_map() == local_map(ss, k as nat, 0),
        ensures
            final(merged).wf(),
            final(local_to_global).wf(),
            merged_upto(final(merged).as_map(), ss, k + 1, 0),
            final(local_to_global).as_map() == local_map(ss, k as nat, ss[k as int].nodes@.len()),
    {
        let mut j: usize = 0;
        while j < lineage.nodes.len()
            invariant
                0 <= k < ss.len(),
                *lineage == ss[k as int],
                0 <= j <= lineage.nodes@.len(),
                merged.wf(),
                local_to_global.wf(),
                merged_upto(merged.as_map(), ss, k as int, j as int),
                local_to_global.as_map() == local_map(ss, k as nat, j as nat),
            decreases lineage.nodes@.len() - j,
        {
            proof {
                reveal(merged_upto);
            }
            let node = &lineage.nodes[j];
            let gid = self.global_node_id(node);
            local_to_global.insert(node.id.clone(), gid.clone());
            let r = StatementRef { statement_index: lineage.statement_index, node_id: Some(node.id.clone()) };
            let ghost rv = r.deep_view();
            let ghost m0 = merged.as_map();
            assert(rv == (ss[k as int].statement_index, Some(ss[k as int].nodes@[j as int].id@)));
            match merged.get_mut(&gid) {
                Some(existing) => {
                    let ghost before = existing.statement_refs.deep_view();
                    existing.statement_refs.push(r);
                    assert(existing.statement_refs.deep_view() =~= before.push(rv));
                    assert(existing.statement_refs.deep_view()[before.len() as int] == rv);
                },
                None => {
                    let mut refs: Vec<StatementRef> = Vec::new();
                    refs.push(r);
                    assert(refs.deep_view() =~= seq![rv]);
                    assert(refs.deep_view()[0] == rv);
                    let created = GlobalNode {
                        id: gid.clone(),
                        node_type: node.node_type,
                        label: node.label.clone(),
                        statement_refs: refs,
                        resolution_source: node.resolution_source,
                    };
                    merged.insert(gid, created);
                },
            }
            proof {
                let m = merged.as_map();
                let g0 = global_node_id(ss[k as int].nodes@[j as int]);
                assert(m.contains_key(g0));
                assert(m[g0].statement_refs.contains(rv));
                assert forall|kk: int, jj: int| #![trigger ss[kk].nodes@[jj]] node_before(ss, kk, jj, k as int, j + 1) implies {
                    let n = ss[kk].nodes@[jj];
                    &&& m.contains_key(global_node_id(n))
                    &&& m[global_node_id(n)].statement_refs.contains((ss[kk].statement_index, Some(n.id@)))
                } by {
                    let n = ss[kk].nodes@[jj];
                    if node_before(ss, kk, jj, k as int, j as int) {
                        let gk = global_node_id(n);
                        assert(m0.contains_key(gk));
                        let want = (ss[kk].statement_index, Some(n.id@));
                        assert(m0[gk].statement_refs.contains(want));
                        if gk == g0 {
                            let p = choose|p: int| 0 <= p < m0[gk].statement_refs.len() && m0[gk].statement_refs[p] == want;
                            assert(m[gk].statement_refs[p] == want);
                        }
                    }
                }
                assert forall|g: Seq<char>| #[trigger] m.contains_key(g) implies exists|kk: int, jj: int|
                    #![trigger ss[kk].nodes@[jj]]
                    node_before(ss, kk, jj, k as int, j + 1) && global_node_id(ss[kk].nodes@[jj]) == g by {
                    if g == g0 {
                        assert(node_before(ss, k as int, j as int, k as int, j + 1));
                    } else {
                        assert(m0.contains_key(g));
                        let (kk, jj) = choose|kk: int, jj: int|
                            #![trigger ss[kk].nodes@[jj]]
                            node_before(ss, kk, jj, k as int, j as int) && global_node_id(ss[kk].nodes@[jj]) == g;
                        assert(node_before(ss, kk, jj, k as int, j + 1));
                    }
                }
                assert forall|g: Seq<char>| #[trigger] m.contains_key(g) implies first_merged(m[g], ss, g) by {
                    reveal(first_merged);
                    if g == g0 {
                        if m0.contains_key(g0) {
                            assert(m[g0].node_type == m0[g0].node_type);
                            assert(m[g0].label == m0[g0].label);
                            assert(m[g0].resolution_source == m0[g0].resolution_source);
                            assert(first_merged(m0[g0], ss, g0));
                        } else {
                            assert forall|k2: int, j2: int| #![trigger ss[k2].nodes@[j2]] node_before(ss, k2, j2, k as int, j as int)
                                implies global_node_id(ss[k2].nodes@[j2]) != g0 by {
                                if global_node_id(ss[k2].nodes@[j2]) == g0 {
                                    assert(m0.contains_key(g0));
                                }
                            }
                            assert(has_node_at(ss, k as int, j as int));
                        }
                    } else {
                        assert(m0.contains_key(g));
                        assert(m[g] == m0[g]);
                    }
                }
                assert(local_to_global.as_map() == local_map(ss, k as nat, (j + 1) as nat));
            }
            j = j + 1;
        }
        proof {
            reveal(merged_upto);
            let m = merged.as_map();
            assert forall|kk: int, jj: int| #![trigger ss[kk].nodes@[jj]] node_before(ss, kk, jj, k + 1, 0) implies node_before(
                ss,
                kk,
                jj,
                k as int,
                lineage.nodes@.len() as int,
            ) by {}
            assert forall|g: Seq<char>| #[trigger] m.contains_key(g) implies exists|kk: int, jj: int|
                #![trigger ss[kk].nodes@[jj]]
                node_before(ss, kk, jj, k + 1, 0) && global_node_id(ss[kk].nodes@[jj]) == g by {
                let (kk, jj) = choose|kk: int, jj: int|
                    #![trigger ss[kk].nodes@[jj]]
                    node_before(ss, kk, jj, k as int, lineage.nodes@.len() as int) && global_node_id(ss[kk].nodes@[jj]) == g;
                assert(node_before(ss, kk, jj, k + 1, 0));
            }
        }
    }

    /// Adds the edges of statement `k`, remapped to global identifiers, to
    /// `edges`, once per endpoints and kind.
    fn merge_statement_edges(
        lineage: &StatementLineage,
        local_to_global: &KeyMap<String, String>,
        edges: &mut Vec<GlobalEdge>,
        Ghost(ss): Ghost<Seq<StatementLineage>>,
        Ghost(k): Ghost<usize>,
    )
        requires
            0 <= k < ss.len(),
            *lineage == ss[k as int],
            local_to_global.wf(),
            local_to_global.as_map() == local_map(ss, k as nat, ss[k as int].nodes@.len()),
            old(edges).deep_view() == merged_edges(ss, k as nat, 0),
            statement_edges_present(ss, k as int, old(edges)@),
        ensures
            final(edges).deep_view() == merged_edges(ss, (k + 1) as nat, 0),
            statement_edges_present(ss, k + 1, final(edges)@),
    {
        assert(forall|k2: int, e2: int| #![trigger statement_edge_view(ss, k2, e2)] 0 <= k2 < k && 0 <= e2 < ss[k2].edges@.len() ==> exists|i: int|
            0 <= i < edges@.len() && (#[trigger] edges@[i]).from@ == statement_edge_view(ss, k2, e2).from
                && edges@[i].to@ == statement_edge_view(ss, k2, e2).to
                && edges@[i].edge_type == statement_edge_view(ss, k2, e2).edge_type) by {
            reveal(statement_edges_present);
        }
        let mut e: usize = 0;
        let ghost lm = local_map(ss, k as nat, lineage.nodes@.len());
        assert(local_to_global.as_map() == lm);
        while e < lineage.edges.len()
            invariant
                0 <= k < ss.len(),
                *lineage == ss[k as int],
                local_to_global.wf(),
                local_to_global.as_map() == lm,
                lm == local_map(ss, k as nat, ss[k as int].nodes@.len()),
                0 <= e <= lineage.edges@.len(),
                edges.deep_view() == merged_edges(ss, k as nat, e as nat),
                forall|k2: int, e2: int| #![trigger statement_edge_view(ss, k2, e2)] (0 <= k2 < k && 0 <= e2 < ss[k2].edges@.len()) || (k2 == k && 0 <= e2 < e) ==> exists|i: int|
                    0 <= i < edges@.len() && (#[trigger] edges@[i]).from@ == statement_edge_view(ss, k2, e2).from
                        && edges@[i].to@ == statement_edge_view(ss, k2, e2).to
                        && edges@[i].edge_type == statement_edge_view(ss, k2, e2).edge_type,
            decreases lineage.edges@.len() - e,
        {
            let ghost before = edges@;
            let ghost sv = statement_edge_view(ss, k as int, e as int);
            let edge = &lineage.edges[e];
            let from = match local_to_global.get(&edge.from) {
                Some(g) => g.clone(),
                None => edge.from.clone(),
            };
            let to = match local_to_global.get(&edge.to) {
                Some(g) => g.clone(),
                None => edge.to.clone(),
            };
            assert(from@ == sv.from && to@ == sv.to && edge.edge_type == sv.edge_type);
            let mut seen = false;
            let mut x: usize = 0;
            while x < edges.len()
                invariant
                    0 <= x <= edges@.len(),
                    seen == exists|i: int| 0 <= i < x && (#[trigger] edges@[i]).from@ == from@ && edges@[i].to@ == to@
                        && edges@[i].edge_type == edge.edge_type,
                decreases edges@.len() - x,
            {
                if crate::text::str_eq(edges[x].from.as_str(), from.as_str())
                    && crate::text::str_eq(edges[x].to.as_str(), to.as_str())
                    && edges[x].edge_type == edge.edge_type {
                    seen = true;
                }
                x = x + 1;
            }
            proof {
                let dv = edges.deep_view();
                assert(forall|i: int| 0 <= i < edges@.len() ==> #[trigger] dv[i] == edges@[i].deep_view());
                assert(seen == exists|i: int| 0 <= i < dv.len() && (#[trigger] dv[i]).from == sv.from && dv[i].to == sv.to
                    && dv[i].edge_type == sv.edge_type) by {
                    if seen {
                        let i = choose|i: int| 0 <= i < x && (#[trigger] edges@[i]).from@ == from@ && edges@[i].to@ == to@
                            && edges@[i].edge_type == edge.edge_type;
                        assert(dv[i].from == sv.from);
                    }
                    if exists|i: int| 0 <= i < dv.len() && (#[trigger] dv[i]).from == sv.from && dv[i].to == sv.to
                        && dv[i].edge_type == sv.edge_type {
                        let i = choose|i: int| 0 <= i < dv.len() && (#[trigger] dv[i]).from == sv.from && dv[i].to == sv.to
                            && dv[i].edge_type == sv.edge_type;
                        assert(edges@[i].from@ == from@);
                    }
                }
            }
            if !seen {
                edges.push(
                    GlobalEdge {
                        id: edge.id.clone(),
                        from,
                        to,
                        edge_type: edge.edge_type,
                        producer_statement: Some(StatementRef { statement_index: lineage.statement_index, node_id: None }),
                    },
                );
                proof {
                    assert(edges.deep_view() =~= merged_edges(ss, k as nat, e as nat).push(sv));
                    assert(edges@[before.len() as int].from@ == sv.from);
                    assert(forall|i: int| 0 <= i < before.len() ==> edges@[i] == before[i]);
                }
            } else {
                proof {
                    let dv = edges.deep_view();
                    let i = choose|i: int| 0 <= i < dv.len() && (#[trigger] dv[i]).from == sv.from && dv[i].to == sv.to
                        && dv[i].edge_type == sv.edge_type;
                    assert(edges@[i].from@ == sv.from);
                }
            }
            proof {
                assert(merged_edges(ss, k as nat, (e + 1) as nat) == merge_edge(merged_edges(ss, k as nat, e as nat), sv));
            }
            e = e + 1;
        }
        assert(merged_edges(ss, (k + 1) as nat, 0) == merged_edges(ss, k as nat, ss[k as int].edges@.len()));
        assert(statement_edges_present(ss, k + 1, edges@)) by {
            reveal(statement_edges_present);
        }
    }
}

/// The edges of `edges` whose endpoints are both keys of `merged`, in order.
fn retain_linked_edges(merged: &KeyMap<String, GlobalNode>, edges: Vec<GlobalEdge>) -> (kept: Vec<GlobalEdge>)
    requires
        merged.wf(),
    ensures
        kept.deep_view() == keep_edges(edges.deep_view(), merged.as_map().dom()),
        forall|i: int| 0 <= i < kept@.len() ==> merged.as_map().dom().contains((#[trigger] kept@[i]).from@)
            && merged.as_map().dom().contains(kept@[i].to@),
        forall|y: int| 0 <= y < edges@.len() && merged.as_map().dom().contains((#[trigger] edges@[y]).from@)
            && merged.as_map().dom().contains(edges@[y].to@) ==> exists|r: int|
            0 <= r < kept@.len() && (#[trigger] kept@[r]).id@ == edges@[y].id@
                && kept@[r].from@ == edges@[y].from@ && kept@[r].to@ == edges@[y].to@
                && kept@[r].edge_type == edges@[y].edge_type,
{
    let ghost all = edges.deep_view();
    let ghost dom = merged.as_map().dom();
    let mut kept: Vec<GlobalEdge> = Vec::new();
    let mut x: usize = 0;
    while x < edges.len()
        invariant
            merged.wf(),
            dom == merged.as_map().dom(),
            0 <= x <= edges@.len(),
            all == edges.deep_view(),
            kept.deep_view() == keep_edges(all.take(x as int), dom),
            forall|i: int| 0 <= i < kept@.len() ==> dom.contains((#[trigger] kept@[i]).from@) && dom.contains(kept@[i].to@),
            forall|y: int| 0 <= y < x && dom.contains((#[trigger] edges@[y]).from@) && dom.contains(edges@[y].to@) ==> exists|r: int|
                0 <= r < kept@.len() && (#[trigger] kept@[r]).id@ == edges@[y].id@
                    && kept@[r].from@ == edges@[y].from@ && kept@[r].to@ == edges@[y].to@
                    && kept@[r].edge_type == edges@[y].edge_type,
        decreases edges@.len() - x,
    {
        if merged.contains_key(&edges[x].from) && merged.contains_key(&edges[x].to) {
            let ghost before = kept@;
            let ghost before_dv = kept.deep_view();
            kept.push(edges[x].duplicate());
            assert(forall|i: int| 0 <= i < before.len() ==> kept@[i] == before[i]);
            assert(kept@[before.len() as int].id@ == edges@[x as int].id@);
            assert(kept.deep_view() =~= before_dv.push(all[x as int]));
        }
        proof {
            assert(all.take(x + 1).drop_last() =~= all.take(x as int));
            assert(all.take(x + 1).last() == all[x as int]);
            assert(all[x as int] == edges@[x as int].deep_view());
        }
        x = x + 1;
    }
    assert(all.take(all.len() as int) =~= all);
    kept
}

/// The statement edges and the cross-statement edges whose endpoints are in
/// `dom` survive the filtering of `edges` into `kept`.
proof fn lemma_statement_edges_kept(
    ss: Seq<StatementLineage>,
    before: Seq<GlobalEdge>,
    cross: Seq<GlobalEdge>,
    edges: Seq<GlobalEdge>,
    kept: Seq<GlobalEdge>,
    dom: Set<Seq<char>>,
)
    requires
        edges == before + cross,
        statement_edges_present(ss, ss.len() as int, before),
        forall|y: int| 0 <= y < edges.len() && dom.contains((#[trigger] edges[y]).from@) && dom.contains(edges[y].to@) ==> exists|r: int|
            0 <= r < kept.len() && (#[trigger] kept[r]).id@ == edges[y].id@
                && kept[r].from@ == edges[y].from@ && kept[r].to@ == edges[y].to@
                && kept[r].edge_type == edges[y].edge_type,
    ensures
        forall|k: int, e: int| #![trigger statement_edge_view(ss, k, e)]
            0 <= k < ss.len() && 0 <= e < ss[k].edges@.len()
            && dom.contains(statement_edge_view(ss, k, e).from)
            && dom.contains(statement_edge_view(ss, k, e).to) ==> exists|r: int|
            0 <= r < kept.len() && (#[trigger] kept[r]).from@ == statement_edge_view(ss, k, e).from
                && kept[r].to@ == statement_edge_view(ss, k, e).to
                && kept[r].edge_type == statement_edge_view(ss, k, e).edge_type,
        forall|i: int| 0 <= i < cross.len() && dom.contains((#[trigger] cross[i]).from@) && dom.contains(cross[i].to@) ==> exists|r: int|
            0 <= r < kept.len() && (#[trigger] kept[r]).id@ == cross[i].id@
                && kept[r].from@ == cross[i].from@ && kept[r].to@ == cross[i].to@
                && kept[r].edge_type == cross[i].edge_type,
{
    reveal(statement_edges_present);
    assert forall|k: int, e: int| #![trigger statement_edge_view(ss, k, e)]
        0 <= k < ss.len() && 0 <= e < ss[k].edges@.len()
        && dom.contains(statement_edge_view(ss, k, e).from)
        && dom.contains(statement_edge_view(ss, k, e).to) implies exists|r: int|
        0 <= r < kept.len() && (#[trigger] kept[r]).from@ == statement_edge_view(ss, k, e).from
            && kept[r].to@ == statement_edge_view(ss, k, e).to
            && kept[r].edge_type == statement_edge_view(ss, k, e).edge_type by {
        let sv = statement_edge_view(ss, k, e);
        let i = choose|i: int| 0 <= i < before.len() && (#[trigger] before[i]).from@ == sv.from
            && before[i].to@ == sv.to && before[i].edge_type == sv.edge_type;
        assert(edges[i] == before[i]);
    }
    assert forall|i: int| 0 <= i < cross.len() && dom.contains((#[trigger] cross[i]).from@) && dom.contains(cross[i].to@) implies exists|r: int|
        0 <= r < kept.len() && (#[trigger] kept[r]).id@ == cross[i].id@
            && kept[r].from@ == cross[i].from@ && kept[r].to@ == cross[i].to@
            && kept[r].edge_type == cross[i].edge_type by {
        assert(edges[before.len() + i] == cross[i]);
    }
}

/// The values of the final node map, laid out as `nodes`, carry the keys in
/// order: distinct identifiers, exactly the keys of the map.
proof fn lemma_node_ids(
    m: Map<Seq<char>, GlobalNodeView>,
    keys: Seq<Seq<char>>,
    vals: Seq<GlobalNodeView>,
    nodes: Seq<GlobalNode>,
)
    requires
        forall|g: Seq<char>| #[trigger] m.contains_key(g) ==> m[g].id == g,
        forall|a: int, b: int| 0 <= a < b < keys.len() ==> keys[a] != keys[b],
        forall|g: Seq<char>| #[trigger] m.contains_key(g) <==> keys.contains(g),
        vals.len() == keys.len(),
        forall|i: int| 0 <= i < keys.len() ==> #[trigger] m[keys[i]] == vals[i],
        nodes.len() == vals.len(),
        forall|i: int| 0 <= i < nodes.len() ==> (#[trigger] nodes[i]).deep_view() == vals[i],
    ensures
        forall|i: int| 0 <= i < nodes.len() ==> (#[trigger] nodes[i]).id@ == keys[i] && m.contains_key(keys[i])
            && m[keys[i]] == nodes[i].deep_view(),
        forall|a: int, b: int| 0 <= a < b < nodes.len() ==> nodes[a].id@ != nodes[b].id@,
        forall|x: Seq<char>| #[trigger] has_global_node(nodes, x) <==> m.dom().contains(x),
        Set::new(|x: Seq<char>| has_global_node(nodes, x)) == m.dom(),
{
    assert forall|i: int| 0 <= i < nodes.len() implies (#[trigger] nodes[i]).id@ == keys[i] && m.contains_key(keys[i])
        && m[keys[i]] == nodes[i].deep_view() by {
        assert(keys.contains(keys[i]));
        assert(m.contains_key(keys[i]));
        assert(m[keys[i]] == vals[i]);
        assert(nodes[i].deep_view() == vals[i]);
        assert(m[keys[i]].id == keys[i]);
    }
    assert forall|a: int, b: int| 0 <= a < b < nodes.len() implies nodes[a].id@ != nodes[b].id@ by {
        assert(nodes[a].id@ == keys[a]);
        assert(nodes[b].id@ == keys[b]);
    }
    assert forall|x: Seq<char>| #[trigger] has_global_node(nodes, x) <==> m.dom().contains(x) by {
        if m.dom().contains(x) {
            assert(m.contains_key(x));
            let i = choose|i: int| 0 <= i < keys.len() && keys[i] == x;
            assert(nodes[i].id@ == x);
        }
        if has_global_node(nodes, x) {
            let i = choose|i: int| 0 <= i < nodes.len() && (#[trigger] nodes[i]).id@ == x;
            assert(nodes[i].id@ == keys[i]);
            assert(m.contains_key(keys[i]));
        }
    }
    assert(Set::new(|x: Seq<char>| has_global_node(nodes, x)) =~= m.dom());
}

/// The project nodes stand for the statement nodes merged into them: every
/// statement node has one that refers back to it, every one has a statement
/// node, and each carries the fields of the first statement node merged in.
proof fn lemma_project_nodes(m: Map<Seq<char>, GlobalNodeView>, nodes: Seq<GlobalNode>, ss: Seq<StatementLineage>)
    requires
        merged_upto(m, ss, ss.len() as int, 0),
        forall|g: Seq<char>| #[trigger] m.contains_key(g) ==> has_global_node(nodes, g),
        forall|i: int| 0 <= i < nodes.len() ==> m.contains_key((#[trigger] nodes[i]).id@) && m[nodes[i].id@] == nodes[i].deep_view(),
    ensures
        forall|k: int, j: int| #![trigger ss[k].nodes@[j]] has_node_at(ss, k, j) ==> exists|i: int|
            0 <= i < nodes.len() && (#[trigger] nodes[i]).id@ == global_node_id(ss[k].nodes@[j])
                && nodes[i].statement_refs.deep_view().contains((ss[k].statement_index, Some(ss[k].nodes@[j].id@))),
        forall|i: int| 0 <= i < nodes.len() ==> exists|k: int, j: int|
            #![trigger ss[k].nodes@[j]]
            has_node_at(ss, k, j) && global_node_id(ss[k].nodes@[j]) == (#[trigger] nodes[i]).id@,
        forall|i: int| 0 <= i < nodes.len() ==> first_merged((#[trigger] nodes[i]).deep_view(), ss, nodes[i].id@),
{
    assert forall|k: int, j: int| #![trigger ss[k].nodes@[j]] has_node_at(ss, k, j) implies exists|i: int|
        0 <= i < nodes.len() && (#[trigger] nodes[i]).id@ == global_node_id(ss[k].nodes@[j])
            && nodes[i].statement_refs.deep_view().contains((ss[k].statement_index, Some(ss[k].nodes@[j].id@))) by {
        reveal(merged_upto);
        assert(node_before(ss, k, j, ss.len() as int, 0));
        let g = global_node_id(ss[k].nodes@[j]);
        assert(m.contains_key(g));
        let i = choose|i: int| 0 <= i < nodes.len() && (#[trigger] nodes[i]).id@ == g;
        assert(m[nodes[i].id@] == nodes[i].deep_view());
    }
    assert forall|i: int| 0 <= i < nodes.len() implies exists|k: int, j: int|
        #![trigger ss[k].nodes@[j]]
        has_node_at(ss, k, j) && global_node_id(ss[k].nodes@[j]) == (#[trigger] nodes[i]).id@ by {
        reveal(merged_upto);
        let g = nodes[i].id@;
        assert(m.contains_key(g));
        let (k, j) = choose|k: int, j: int|
            #![trigger ss[k].nodes@[j]]
            node_before(ss, k, j, ss.len() as int, 0) && global_node_id(ss[k].nodes@[j]) == g;
        assert(has_node_at(ss, k, j));
    }
    assert forall|i: int| 0 <= i < nodes.len() implies first_merged((#[trigger] nodes[i]).deep_view(), ss, nodes[i].id@) by {
        reveal(merged_upto);
        let g = nodes[i].id@;
        assert(m.contains_key(g));
        assert(first_merged(m[g], ss, g));
    }
}

} // verus!
