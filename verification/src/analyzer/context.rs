//! The per-statement analysis context.
//!
//! A `StatementContext` holds the lineage graph of one statement while it is
//! built, the scope stack used for name resolution, and the facts gathered along
//! the way (aliases, CTE columns, filters, implied schema, join metadata).

use vstd::prelude::*;

use crate::collections::{KeyMap, MapKey};
use crate::ids::{decimal, generate_output_node_id, spec_output_node_id};
use crate::text::string_of;
use crate::types::{Edge, FilterClauseType, FilterPredicate, FilterView, JoinType, Node, NodeType, Span};

verus! {

/// The value of an optional string.
pub open spec fn opt_chars(o: Option<String>) -> Option<Seq<char>> {
    o.deep_view()
}

/// A `SELECT *` that could not be expanded for want of schema.
#[derive(Debug)]
pub struct PendingWildcard {
    /// The source canonical name (table or CTE) with unknown columns
    pub source_canonical: String,
    /// The target entity (CTE name or derived table alias) receiving the wildcard
    pub target_name: String,
    /// Node ID of the source
    pub source_node_id: String,
}

/// A single table/view reference in a FROM or JOIN clause.
#[derive(Debug)]
pub struct RelationInstance {
    /// Canonical (fully-qualified) table name used for schema lookup
    pub canonical: String,
    /// Node ID in the lineage graph (unique per instance)
    pub node_id: String,
}

/// The value of a relation instance.
pub struct InstanceView {
    pub canonical: Seq<char>,
    pub node_id: Seq<char>,
}

impl PendingWildcard {
    pub fn duplicate(&self) -> (r: PendingWildcard)
        ensures
            r.source_canonical@ == self.source_canonical@,
            r.target_name@ == self.target_name@,
            r.source_node_id@ == self.source_node_id@,
    {
        PendingWildcard {
            source_canonical: self.source_canonical.clone(),
            target_name: self.target_name.clone(),
            source_node_id: self.source_node_id.clone(),
        }
    }
}

/// The value of a pending wildcard.
pub struct WildcardView {
    pub source_canonical: Seq<char>,
    pub target_name: Seq<char>,
    pub source_node_id: Seq<char>,
}

impl DeepView for PendingWildcard {
    type V = WildcardView;

    open spec fn deep_view(&self) -> WildcardView {
        WildcardView {
            source_canonical: self.source_canonical@,
            target_name: self.target_name@,
            source_node_id: self.source_node_id@,
        }
    }
}

impl DeepView for RelationInstance {
    type V = InstanceView;

    open spec fn deep_view(&self) -> InstanceView {
        InstanceView { canonical: self.canonical@, node_id: self.node_id@ }
    }
}

impl RelationInstance {
    pub fn duplicate(&self) -> (r: RelationInstance)
        ensures
            r.deep_view() == self.deep_view(),
    {
        RelationInstance { canonical: self.canonical.clone(), node_id: self.node_id.clone() }
    }
}

/// Represents an output column in the SELECT list.
#[derive(Debug)]
pub struct OutputColumn {
    /// Alias or derived name for the column
    pub name: String,
    /// Inferred data type of the column
    pub data_type: Option<String>,
    /// Node ID for this column
    pub node_id: String,
}

/// The value of an output column.
pub struct ColumnView {
    pub name: Seq<char>,
    pub data_type: Option<Seq<char>>,
    pub node_id: Seq<char>,
}

impl DeepView for OutputColumn {
    type V = ColumnView;

    open spec fn deep_view(&self) -> ColumnView {
        ColumnView { name: self.name@, data_type: opt_chars(self.data_type), node_id: self.node_id@ }
    }
}

impl OutputColumn {
    pub fn duplicate(&self) -> (r: OutputColumn)
        ensures
            r.deep_view() == self.deep_view(),
    {
        OutputColumn {
            name: self.name.clone(),
            data_type: copy_opt_string(&self.data_type),
            node_id: self.node_id.clone(),
        }
    }
}

/// A reference to a source column.
#[derive(Debug)]
pub struct ColumnRef {
    /// Table name or alias
    pub table: Option<String>,
    /// Column name
    pub column: String,
}

/// Information about the current JOIN being processed.
#[derive(Debug)]
pub struct JoinInfo {
    /// The type of join (INNER, LEFT, etc.)
    pub join_type: Option<JoinType>,
    /// The join condition expression (ON clause text)
    pub join_condition: Option<String>,
}

/// The value of join information.
pub struct JoinView {
    pub join_type: Option<JoinType>,
    pub join_condition: Option<Seq<char>>,
}

impl DeepView for JoinInfo {
    type V = JoinView;

    open spec fn deep_view(&self) -> JoinView {
        JoinView { join_type: self.join_type, join_condition: opt_chars(self.join_condition) }
    }
}

impl JoinInfo {
    pub fn none() -> (r: JoinInfo)
        ensures
            r.join_type is None,
            r.join_condition is None,
    {
        JoinInfo { join_type: None, join_condition: None }
    }

    pub fn duplicate(&self) -> (r: JoinInfo)
        ensures
            r.deep_view() == self.deep_view(),
            r.join_type == self.join_type,
    {
        JoinInfo { join_type: self.join_type, join_condition: copy_opt_string(&self.join_condition) }
    }
}

/// A copy of an optional string.
pub fn copy_opt_string(o: &Option<String>) -> (r: Option<String>)
    ensures
        r == *o,
{
    match o {
        Some(s) => Some(s.clone()),
        None => None,
    }
}

/// The pending predicates recorded under `key`, if any.
pub open spec fn pending_for(m: Map<Seq<char>, Seq<FilterView>>, key: Seq<char>) -> Seq<FilterView> {
    if m.contains_key(key) {
        m[key]
    } else {
        Seq::empty()
    }
}

/// Appends `p` to the predicates recorded under `key`.
pub fn push_filter(m: &mut KeyMap<String, Vec<FilterPredicate>>, key: String, p: FilterPredicate)
    requires
        old(m).wf(),
    ensures
        final(m).wf(),
        final(m).as_map() == old(m).as_map().insert(key@, pending_for(old(m).as_map(), key@).push(p.deep_view())),
{
    let ghost pv = p.deep_view();
    match m.get_mut(&key) {
        Some(list) => {
            let ghost before = list.deep_view();
            list.push(p);
            proof {
                assert(list.deep_view() =~= before.push(pv));
            }
        },
        None => {
            let mut list: Vec<FilterPredicate> = Vec::new();
            list.push(p);
            assert(list.deep_view() =~= Seq::<FilterView>::empty().push(pv));
            m.insert(key, list);
        },
    }
}

/// The label of a statement's output node.
pub open spec fn output_label(model_name: Option<Seq<char>>, statement_index: nat) -> Seq<char> {
    match model_name {
        Some(name) => name,
        None => if statement_index == 0 {
            "Output"@
        } else {
            "Output ("@ + decimal(statement_index + 1) + ")"@
        },
    }
}

/// The number of alias instances registered across `scopes`.
pub open spec fn total_alias_instances(scopes: Seq<Scope>) -> nat
    decreases scopes.len(),
{
    if scopes.len() == 0 {
        0
    } else {
        total_alias_instances(scopes.drop_last()) + scopes.last().alias_instances.key_seq().len()
    }
}

proof fn lemma_total_take_step(scopes: Seq<Scope>, i: int)
    requires
        0 <= i < scopes.len(),
    ensures
        total_alias_instances(scopes.take(i + 1)) == total_alias_instances(scopes.take(i))
            + scopes[i].alias_instances.key_seq().len(),
{
    assert(scopes.take(i + 1).drop_last() =~= scopes.take(i));
}

proof fn lemma_total_monotone(scopes: Seq<Scope>, i: int)
    requires
        0 <= i <= scopes.len(),
    ensures
        total_alias_instances(scopes.take(i)) <= total_alias_instances(scopes),
    decreases scopes.len() - i,
{
    if i < scopes.len() {
        lemma_total_monotone(scopes, i + 1);
        lemma_total_take_step(scopes, i);
    } else {
        assert(scopes.take(i) =~= scopes);
    }
}

/// Only the current scope may differ between `a` and `b`, and only when there is one.
pub open spec fn top_scope_updated(a: StatementContext, b: StatementContext) -> bool {
    &&& b.scope_stack@.len() == a.scope_stack@.len()
    &&& forall|i: int| 0 <= i < a.scope_stack@.len() - 1 ==> #[trigger] b.scope_stack@[i] == a.scope_stack@[i]
    &&& a.scope_stack@.len() == 0 ==> b.scope_stack@ == a.scope_stack@
}

/// The instance registered for `alias` in the innermost scope that has one.
pub open spec fn find_alias_instance(scopes: Seq<Scope>, alias: Seq<char>) -> Option<InstanceView>
    decreases scopes.len(),
{
    if scopes.len() == 0 {
        None
    } else if scopes.last().alias_instances.as_map().contains_key(alias) {
        Some(scopes.last().alias_instances.as_map()[alias])
    } else {
        find_alias_instance(scopes.drop_last(), alias)
    }
}

/// The instances of `vals`, keeping the first of each node identifier, in order.
pub open spec fn distinct_by_node(vals: Seq<InstanceView>) -> Seq<InstanceView>
    decreases vals.len(),
{
    if vals.len() == 0 {
        Seq::empty()
    } else {
        let rest = distinct_by_node(vals.drop_last());
        if exists|k: int| 0 <= k < rest.len() && rest[k].node_id == vals.last().node_id {
            rest
        } else {
            rest.push(vals.last())
        }
    }
}

/// The distinct relation instances of the current scope of `ctx`.
pub open spec fn current_instances(ctx: StatementContext) -> Seq<InstanceView> {
    if ctx.scope_stack@.len() > 0 {
        distinct_by_node(ctx.scope_stack@.last().alias_instances.value_seq())
    } else {
        Seq::empty()
    }
}

/// How many of `s` have the canonical name `c`.
pub open spec fn count_canonical(s: Seq<InstanceView>, c: Seq<char>) -> nat
    decreases s.len(),
{
    if s.len() == 0 {
        0
    } else {
        count_canonical(s.drop_last(), c) + if s.last().canonical == c {
            1nat
        } else {
            0nat
        }
    }
}

/// The columns of `name` in the innermost scope that has them, else the statement-global ones.
pub open spec fn find_subquery_columns(
    scopes: Seq<Scope>,
    global: Map<Seq<char>, Seq<ColumnView>>,
    name: Seq<char>,
) -> Option<Seq<ColumnView>>
    decreases scopes.len(),
{
    if scopes.len() == 0 {
        if global.contains_key(name) {
            Some(global[name])
        } else {
            None
        }
    } else if scopes.last().subquery_columns.as_map().contains_key(name) {
        Some(scopes.last().subquery_columns.as_map()[name])
    } else {
        find_subquery_columns(scopes.drop_last(), global, name)
    }
}

/// A single scope level for column resolution; each SELECT/subquery/CTE body has one.
pub struct Scope {
    /// Deterministic ID for this lexical scope within a statement.
    pub scope_id: usize,
    /// Tables referenced in this scope's FROM/JOIN clauses: canonical name -> node ID.
    pub tables: KeyMap<String, String>,
    /// Aliases defined in this scope (alias -> canonical name)
    pub aliases: KeyMap<String, String>,
    /// Alias -> relation instance, for instance-aware lookups.
    pub alias_instances: KeyMap<String, RelationInstance>,
    /// Subquery aliases in this scope
    pub subquery_aliases: KeyMap<String, ()>,
    /// Scope-local output columns for subquery/CTE aliases materialized in this scope.
    pub subquery_columns: KeyMap<String, Vec<OutputColumn>>,
    /// True when the scope contains a table function relation.
    pub has_table_function_relation: bool,
}

impl Scope {
    pub open spec fn wf(&self) -> bool {
        &&& self.tables.wf()
        &&& self.aliases.wf()
        &&& self.alias_instances.wf()
        &&& self.subquery_aliases.wf()
        &&& self.subquery_columns.wf()
    }

    pub fn new(scope_id: usize) -> (r: Scope)
        ensures
            r.wf(),
            r.scope_id == scope_id,
            r.tables.as_map().is_empty() && r.tables.key_seq().len() == 0,
            r.aliases.as_map().is_empty(),
            r.alias_instances.as_map().is_empty() && r.alias_instances.value_seq().len() == 0,
            r.subquery_aliases.as_map().is_empty(),
            r.subquery_columns.as_map().is_empty(),
            !r.has_table_function_relation,
    {
        Scope {
            scope_id,
            tables: KeyMap::new(),
            aliases: KeyMap::new(),
            alias_instances: KeyMap::new(),
            subquery_aliases: KeyMap::new(),
            subquery_columns: KeyMap::new(),
            has_table_function_relation: false,
        }
    }
}

/// Whether some node of `nodes` has the identifier `id`.
pub open spec fn has_node_id(nodes: Seq<Node>, id: Seq<char>) -> bool {
    exists|i: int| 0 <= i < nodes.len() && (#[trigger] nodes[i]).id@ == id
}

/// Whether some edge of `edges` has the identifier `id`.
pub open spec fn has_edge_id(edges: Seq<Edge>, id: Seq<char>) -> bool {
    exists|i: int| 0 <= i < edges.len() && (#[trigger] edges[i]).id@ == id
}

/// `b` is `a` after a scope was pushed: the stack grew by one fresh, empty scope with
/// the next scope identifier, which advanced.
pub open spec fn scope_pushed(a: StatementContext, b: StatementContext) -> bool {
    &&& b.scope_stack@.len() == a.scope_stack@.len() + 1
    &&& b.scope_stack@.drop_last() == a.scope_stack@
    &&& b.scope_stack@.last().scope_id == a.next_scope_id
    &&& b.next_scope_id == a.next_scope_id + 1
    &&& b == (StatementContext { scope_stack: b.scope_stack, next_scope_id: b.next_scope_id, ..a })
}

/// `b` is `a` after the current scope, if any, was popped.
pub open spec fn scope_popped(a: StatementContext, b: StatementContext) -> bool {
    &&& b.scope_stack@ == if a.scope_stack@.len() > 0 {
        a.scope_stack@.drop_last()
    } else {
        a.scope_stack@
    }
    &&& b == (StatementContext { scope_stack: b.scope_stack, ..a })
}

/// `b` is `a` after its output node was ensured, and `r` is that node: where `a`
/// had an output node already, `b` is `a` and `r` is that node; else `r` is the
/// new output node of `b`.
pub open spec fn output_node_settled(a: StatementContext, b: StatementContext, r: Seq<char>) -> bool {
    &&& a.output_node_id matches Some(existing) ==> r == existing@ && b == a
    &&& a.output_node_id is None ==> (b.output_node_id matches Some(o) && o@ == r)
}

/// `b` is `a` after `node` was added: appended unless a node with its identifier was there.
pub open spec fn node_added(a: StatementContext, b: StatementContext, node: Node) -> bool {
    &&& has_node_id(b.nodes@, node.id@)
    &&& has_node_id(a.nodes@, node.id@) ==> b.nodes@ == a.nodes@
    &&& !has_node_id(a.nodes@, node.id@) ==> b.nodes@ == a.nodes@.push(node)
    &&& b == (StatementContext { nodes: b.nodes, node_ids: b.node_ids, node_index: b.node_index, ..a })
}

/// `b` is `a` after the node with identifier `id`, if any, was removed, the last node
/// taking its place.
pub open spec fn node_removed(a: StatementContext, b: StatementContext, id: Seq<char>) -> bool {
    &&& !has_node_id(a.nodes@, id) ==> b.nodes@ == a.nodes@
    &&& has_node_id(a.nodes@, id) ==> exists|i: int|
        0 <= i < a.nodes@.len() && (#[trigger] a.nodes@[i]).id@ == id && b.nodes@ == a.nodes@.update(i, a.nodes@.last()).drop_last()
    &&& !has_node_id(b.nodes@, id)
    &&& b == (StatementContext { nodes: b.nodes, node_ids: b.node_ids, node_index: b.node_index, ..a })
}

/// `b` is `a` after `edge` was added: appended unless an edge with its identifier was there.
pub open spec fn edge_added(a: StatementContext, b: StatementContext, edge: Edge) -> bool {
    &&& has_edge_id(b.edges@, edge.id@)
    &&& has_edge_id(a.edges@, edge.id@) ==> b.edges@ == a.edges@
    &&& !has_edge_id(a.edges@, edge.id@) ==> b.edges@ == a.edges@.push(edge)
    &&& b == (StatementContext { edges: b.edges, edge_ids: b.edge_ids, ..a })
}

/// Context for analyzing a single statement.
pub struct StatementContext {
    pub statement_index: usize,
    /// Statement-local nodes; structural changes go through `add_node` / `remove_node_by_id`.
    pub nodes: Vec<Node>,
    pub edges: Vec<Edge>,
    pub node_ids: KeyMap<String, ()>,
    /// Node ID -> position in `nodes`, kept in sync with `add_node` / `remove_node_by_id`.
    pub node_index: KeyMap<String, usize>,
    pub edge_ids: KeyMap<String, ()>,
    /// CTE name -> node ID
    pub cte_definitions: KeyMap<String, String>,
    /// Node ID -> CTE/derived alias name for reverse lookups
    pub cte_node_to_name: KeyMap<String, String>,
    /// Cursor for sequential left-to-right searching of definition-like spans.
    pub span_search_cursor: usize,
    /// Per-relation cursor for table/view/CTE occurrences, keyed by the raw name.
    pub relation_span_cursors: KeyMap<String, usize>,
    /// Alias -> canonical table name (global)
    pub table_aliases: KeyMap<String, String>,
    /// Subquery aliases (for reference tracking)
    pub subquery_aliases: KeyMap<String, ()>,
    /// Last join/operation type for edge labeling
    pub last_operation: Option<String>,
    /// Current join information (type + condition) for edge labeling
    pub current_join_info: JoinInfo,
    /// Table canonical name -> node ID (for column ownership) — global registry.
    pub table_node_ids: KeyMap<String, String>,
    /// Output columns for this statement (for column lineage)
    pub output_columns: Vec<OutputColumn>,
    /// Output node ID for SELECT statements
    pub output_node_id: Option<String>,
    /// Statement-global output columns for named CTE definitions.
    pub aliased_subquery_columns: KeyMap<String, Vec<OutputColumn>>,
    /// Stack of scopes; the last element is the current scope.
    pub scope_stack: Vec<Scope>,
    /// Monotonic counter used to assign stable lexical scope IDs per statement.
    pub next_scope_id: usize,
    /// Pending filter predicates: table canonical name -> predicates.
    pub pending_filters: KeyMap<String, Vec<FilterPredicate>>,
    /// Instance-aware pending filters keyed by node ID.
    pub pending_instance_filters: KeyMap<String, Vec<FilterPredicate>>,
    /// Grouping columns for the current SELECT (normalized expression strings)
    pub grouping_columns: KeyMap<String, ()>,
    /// True if the current SELECT has a GROUP BY clause
    pub has_group_by: bool,
    /// Columns referenced per source table: (canonical name, column name) -> data type.
    pub source_table_columns: KeyMap<(String, String), Option<String>>,
    /// Implied foreign keys from JOIN conditions: (from table, from column) -> (to table, to column).
    pub implied_foreign_keys: KeyMap<(String, String), (String, String)>,
    /// Pending wildcards that couldn't be expanded due to missing schema.
    pub pending_wildcards: Vec<PendingWildcard>,
    /// Which table nodes were introduced via JOIN (node_id -> join metadata).
    pub joined_table_info: KeyMap<String, JoinInfo>,
    /// Set when alias instance registration is skipped due to the safety limit.
    pub instance_limit_reached: bool,
}

/// Maximum number of alias instances across all scopes in a single statement.
pub const MAX_INSTANCES_PER_STATEMENT: usize = 500;

impl StatementContext {
    /// The node bookkeeping is consistent: identifiers are distinct, `node_ids` holds
    /// exactly the identifiers of `nodes`, and `node_index` maps each to its position.
    pub open spec fn nodes_wf(&self) -> bool {
        &&& self.node_ids.wf()
        &&& self.node_index.wf()
        &&& forall|i: int, j: int| 0 <= i < j < self.nodes@.len() ==> self.nodes@[i].id@ != self.nodes@[j].id@
        &&& forall|k: Seq<char>| #[trigger] self.node_ids.as_map().contains_key(k) <==> has_node_id(self.nodes@, k)
        &&& forall|k: Seq<char>| #[trigger] self.node_index.as_map().contains_key(k) <==> has_node_id(self.nodes@, k)
        &&& forall|i: int| 0 <= i < self.nodes@.len() ==> self.node_index.as_map()[#[trigger] self.nodes@[i].id@] == i
    }

    /// Edge identifiers are distinct and `edge_ids` holds exactly them.
    pub open spec fn edges_wf(&self) -> bool {
        &&& self.edge_ids.wf()
        &&& forall|i: int, j: int| 0 <= i < j < self.edges@.len() ==> self.edges@[i].id@ != self.edges@[j].id@
        &&& forall|k: Seq<char>| #[trigger] self.edge_ids.as_map().contains_key(k) <==> has_edge_id(self.edges@, k)
    }

    /// Every scope is well formed.
    pub open spec fn scopes_wf(&self) -> bool {
        forall|i: int| 0 <= i < self.scope_stack@.len() ==> (#[trigger] self.scope_stack@[i]).wf()
    }

    /// The maps of the context are well formed.
    pub open spec fn maps_wf(&self) -> bool {
        &&& self.cte_definitions.wf()
        &&& self.cte_node_to_name.wf()
        &&& self.table_aliases.wf()
        &&& self.subquery_aliases.wf()
        &&& self.table_node_ids.wf()
        &&& self.aliased_subquery_columns.wf()
        &&& self.pending_filters.wf()
        &&& self.pending_instance_filters.wf()
        &&& self.grouping_columns.wf()
        &&& self.source_table_columns.wf()
        &&& self.implied_foreign_keys.wf()
        &&& self.joined_table_info.wf()
    }

    /// The context invariant.
    pub open spec fn wf(&self) -> bool {
        &&& self.nodes_wf()
        &&& self.edges_wf()
        &&& self.scopes_wf()
        &&& self.maps_wf()
        &&& self.span_cursors_wf()
    }

    pub open spec fn span_cursors_wf(&self) -> bool {
        self.relation_span_cursors.wf()
    }

    /// The per-relation span cursors: raw relation name -> cursor.
    pub open spec fn span_cursors(&self) -> Map<Seq<char>, usize> {
        self.relation_span_cursors.as_map()
    }

    pub fn new(statement_index: usize) -> (r: StatementContext)
        ensures
            r.wf(),
            r.statement_index == statement_index,
            r.nodes@.len() == 0,
            r.edges@.len() == 0,
            r.scope_stack@.len() == 0,
            r.next_scope_id == 0,
            r.output_columns@.len() == 0,
            r.output_node_id is None,
            r.last_operation is None,
            r.current_join_info.join_type is None,
            r.current_join_info.join_condition is None,
            r.span_search_cursor == 0,
            !r.has_group_by,
            !r.instance_limit_reached,
            r.pending_wildcards@.len() == 0,
            r.node_ids.as_map().is_empty(),
            r.edge_ids.as_map().is_empty(),
            r.cte_definitions.as_map().is_empty(),
            r.cte_node_to_name.as_map().is_empty(),
            r.span_cursors().is_empty(),
            r.table_aliases.as_map().is_empty(),
            r.subquery_aliases.as_map().is_empty(),
            r.table_node_ids.as_map().is_empty(),
            r.aliased_subquery_columns.as_map().is_empty(),
            r.pending_filters.as_map().is_empty(),
            r.pending_instance_filters.as_map().is_empty(),
            r.grouping_columns.as_map().is_empty(),
            r.source_table_columns.as_map().is_empty(),
            r.implied_foreign_keys.as_map().is_empty(),
            r.joined_table_info.as_map().is_empty(),
    {
        StatementContext {
            statement_index,
            nodes: Vec::new(),
            edges: Vec::new(),
            node_ids: KeyMap::new(),
            node_index: KeyMap::new(),
            edge_ids: KeyMap::new(),
            cte_definitions: KeyMap::new(),
            cte_node_to_name: KeyMap::new(),
            span_search_cursor: 0,
            relation_span_cursors: KeyMap::new(),
            table_aliases: KeyMap::new(),
            subquery_aliases: KeyMap::new(),
            last_operation: None,
            current_join_info: JoinInfo::none(),
            table_node_ids: KeyMap::new(),
            output_columns: Vec::new(),
            output_node_id: None,
            aliased_subquery_columns: KeyMap::new(),
            scope_stack: Vec::new(),
            next_scope_id: 0,
            pending_filters: KeyMap::new(),
            pending_instance_filters: KeyMap::new(),
            grouping_columns: KeyMap::new(),
            has_group_by: false,
            source_table_columns: KeyMap::new(),
            implied_foreign_keys: KeyMap::new(),
            pending_wildcards: Vec::new(),
            joined_table_info: KeyMap::new(),
            instance_limit_reached: false,
        }
    }

    /// Clear grouping context for a new SELECT.
    pub fn clear_grouping(&mut self)
        requires
            old(self).wf(),
        ensures
            final(self).wf(),
            final(self).grouping_columns.as_map().is_empty(),
            *final(self) == (StatementContext {
                grouping_columns: final(self).grouping_columns,
                has_group_by: false,
                ..*old(self)
            }),
    {
        self.grouping_columns = KeyMap::new();
        self.has_group_by = false;
    }

    /// Add a grouping column expression.
    pub fn add_grouping_column(&mut self, expr: String)
        requires
            old(self).wf(),
        ensures
            final(self).wf(),
            final(self).grouping_columns.as_map() == old(self).grouping_columns.as_map().insert(expr@, ()),
            *final(self) == (StatementContext {
                grouping_columns: final(self).grouping_columns,
                has_group_by: true,
                ..*old(self)
            }),
    {
        self.grouping_columns.insert(expr, ());
        self.has_group_by = true;
    }

    /// Check if an expression matches a grouping column.
    pub fn is_grouping_column(&self, expr: &str) -> (r: bool)
        requires
            self.wf(),
        ensures
            r == self.grouping_columns.as_map().contains_key(expr@),
    {
        self.grouping_columns.contains_key(&string_of(expr))
    }

    /// Record a column reference for a source table (for implied schema).
    ///
    /// A column seen without a type takes the type of a later reference that has one;
    /// a known type is never replaced.
    pub fn record_source_column(&mut self, canonical_table: &str, column_name: &str, data_type: Option<String>)
        requires
            old(self).wf(),
        ensures
            final(self).wf(),
            ({
                let key = (canonical_table@, column_name@);
                let m = old(self).source_table_columns.as_map();
                final(self).source_table_columns.as_map() == if m.contains_key(key) && m[key] is Some {
                    m
                } else {
                    m.insert(key, opt_chars(data_type))
                }
            }),
            *final(self) == (StatementContext {
                source_table_columns: final(self).source_table_columns,
                ..*old(self)
            }),
    {
        let key = (string_of(canonical_table), string_of(column_name));
        let known = match self.source_table_columns.get(&key) {
            Some(existing) => existing.is_some(),
            None => false,
        };
        if !known {
            self.source_table_columns.insert(key, data_type);
        }
    }

    /// Record an implied foreign key relationship from a JOIN condition.
    ///
    /// When we see `ON t1.a = t2.b`, t1.a is recorded as referencing t2.b.
    /// Conditions within one table (`from_table == to_table`) are excluded.
    pub fn record_implied_foreign_key(&mut self, from_table: &str, from_column: &str, to_table: &str, to_column: &str)
        requires
            old(self).wf(),
        ensures
            final(self).wf(),
            from_table@ != to_table@ ==> final(self).implied_foreign_keys.as_map()
                == old(self).implied_foreign_keys.as_map().insert((from_table@, from_column@), (to_table@, to_column@)),
            from_table@ == to_table@ ==> final(self).implied_foreign_keys.as_map()
                == old(self).implied_foreign_keys.as_map(),
            *final(self) == (StatementContext {
                implied_foreign_keys: final(self).implied_foreign_keys,
                ..*old(self)
            }),
    {
        if !crate::text::str_eq(from_table, to_table) {
            self.implied_foreign_keys.insert(
                (string_of(from_table), string_of(from_column)),
                (string_of(to_table), string_of(to_column)),
            );
        }
    }

    /// Add a filter predicate for a specific table.
    pub fn add_filter_for_table(&mut self, canonical: &str, expression: String, clause_type: FilterClauseType)
        requires
            old(self).wf(),
        ensures
            final(self).wf(),
            final(self).pending_filters.as_map() == old(self).pending_filters.as_map().insert(
                canonical@,
                pending_for(old(self).pending_filters.as_map(), canonical@).push(
                    FilterView { expression: expression@, clause_type },
                ),
            ),
            *final(self) == (StatementContext {
                pending_filters: final(self).pending_filters,
                ..*old(self)
            }),
    {
        let key = string_of(canonical);
        push_filter(&mut self.pending_filters, key, FilterPredicate { expression, clause_type });
    }

    /// Add a filter predicate targeted at a specific node by ID.
    pub fn add_filter_for_instance(&mut self, node_id: &String, expression: String, clause_type: FilterClauseType)
        requires
            old(self).wf(),
        ensures
            final(self).wf(),
            final(self).pending_instance_filters.as_map() == old(self).pending_instance_filters.as_map().insert(
                node_id@,
                pending_for(old(self).pending_instance_filters.as_map(), node_id@).push(
                    FilterView { expression: expression@, clause_type },
                ),
            ),
            *final(self) == (StatementContext {
                pending_instance_filters: final(self).pending_instance_filters,
                ..*old(self)
            }),
    {
        push_filter(&mut self.pending_instance_filters, node_id.clone(), FilterPredicate { expression, clause_type });
    }

    /// Adds `node` unless a node with its identifier exists; returns the identifier.
    pub fn add_node(&mut self, node: Node) -> (r: String)
        requires
            old(self).wf(),
        ensures
            final(self).wf(),
            r@ == node.id@,
            has_node_id(final(self).nodes@, node.id@),
            has_node_id(old(self).nodes@, node.id@) ==> final(self).nodes@ == old(self).nodes@,
            !has_node_id(old(self).nodes@, node.id@) ==> final(self).nodes@ == old(self).nodes@.push(node),
            *final(self) == (StatementContext {
                nodes: final(self).nodes,
                node_ids: final(self).node_ids,
                node_index: final(self).node_index,
                ..*old(self)
            }),
            node_added(*old(self), *final(self), node),
    {
        let id = node.id.clone();
        if !self.node_ids.contains_key(&id) {
            let ghost old_nodes = self.nodes@;
            let n = self.nodes.len();
            self.node_ids.insert(id.clone(), ());
            self.node_index.insert(id.clone(), n);
            self.nodes.push(node);
            proof {
                let nodes = self.nodes@;
                assert(nodes[n as int] == node);
                assert(forall|i: int| 0 <= i < n ==> nodes[i] == old_nodes[i]);
                assert forall|k: Seq<char>| has_node_id(nodes, k) <==> (has_node_id(old_nodes, k) || k == id@) by {
                    if has_node_id(nodes, k) {
                        let i = choose|i: int| 0 <= i < nodes.len() && (#[trigger] nodes[i]).id@ == k;
                        if i < n {
                            assert(old_nodes[i].id@ == k);
                        }
                    }
                    if has_node_id(old_nodes, k) {
                        let i = choose|i: int| 0 <= i < old_nodes.len() && (#[trigger] old_nodes[i]).id@ == k;
                        assert(nodes[i].id@ == k);
                    }
                    if k == id@ {
                        assert(nodes[n as int].id@ == k);
                    }
                }
                assert forall|i: int| 0 <= i < nodes.len() implies self.node_index.as_map()[#[trigger] nodes[i].id@] == i by {
                    if i < n {
                        assert(nodes[i].id@ != id@);
                    }
                }
            }
        }
        id
    }

    /// Remove a node (and its index entry) by ID; the last node takes its place.
    pub fn remove_node_by_id(&mut self, node_id: &String)
        requires
            old(self).wf(),
        ensures
            final(self).wf(),
            !has_node_id(old(self).nodes@, node_id@) ==> final(self).nodes@ == old(self).nodes@,
            has_node_id(old(self).nodes@, node_id@) ==> exists|i: int|
                0 <= i < old(self).nodes@.len() && (#[trigger] old(self).nodes@[i]).id@ == node_id@
                    && final(self).nodes@ == old(self).nodes@.update(i, old(self).nodes@.last()).drop_last(),
            !has_node_id(final(self).nodes@, node_id@),
            *final(self) == (StatementContext {
                nodes: final(self).nodes,
                node_ids: final(self).node_ids,
                node_index: final(self).node_index,
                ..*old(self)
            }),
            node_removed(*old(self), *final(self), node_id@),
    {
        let idx = match self.node_index.get(node_id) {
            Some(i) => *i,
            None => {
                return;
            },
        };
        let ghost old_nodes = self.nodes@;
        let ghost last = old_nodes.last();
        proof {
            let j = choose|j: int| 0 <= j < old_nodes.len() && (#[trigger] old_nodes[j]).id@ == node_id@;
            assert(self.node_index.as_map()[old_nodes[j].id@] == j);
        }
        self.node_index.remove(node_id);
        self.node_ids.remove(node_id);
        let _removed = self.nodes.swap_remove(idx);
        if idx < self.nodes.len() {
            let moved_id = self.nodes[idx].id.clone();
            self.node_index.insert(moved_id, idx);
        }
        proof {
            let nodes = self.nodes@;
            let n = old_nodes.len() - 1;
            assert(nodes.len() == n);
            assert(forall|i: int| 0 <= i < n && i != idx ==> nodes[i] == old_nodes[i]);
            assert(idx < n ==> nodes[idx as int] == last);
            assert(last == old_nodes[n]);
            assert forall|a: int, b: int| 0 <= a < b < nodes.len() implies nodes[a].id@ != nodes[b].id@ by {
                let a2 = if a == idx { n } else { a };
                let b2 = if b == idx { n } else { b };
                assert(nodes[a] == old_nodes[a2]);
                assert(nodes[b] == old_nodes[b2]);
            }
            assert forall|k: Seq<char>| has_node_id(nodes, k) <==> (has_node_id(old_nodes, k) && k != node_id@) by {
                if has_node_id(nodes, k) {
                    let i = choose|i: int| 0 <= i < nodes.len() && (#[trigger] nodes[i]).id@ == k;
                    let i2 = if i == idx { n } else { i };
                    assert(old_nodes[i2].id@ == k);
                    assert(i2 != idx);
                }
                if has_node_id(old_nodes, k) && k != node_id@ {
                    let i = choose|i: int| 0 <= i < old_nodes.len() && (#[trigger] old_nodes[i]).id@ == k;
                    assert(i != idx);
                    let i2 = if i == n { idx as int } else { i };
                    assert(nodes[i2].id@ == k);
                }
            }
            assert forall|i: int| 0 <= i < nodes.len() implies self.node_index.as_map()[#[trigger] nodes[i].id@] == i by {
                if i != idx {
                    assert(nodes[i] == old_nodes[i]);
                    assert(old_nodes[i].id@ != node_id@);
                    if idx < n {
                        assert(nodes[i].id@ != nodes[idx as int].id@);
                    }
                }
            }
            assert(old_nodes.update(idx as int, last).drop_last() =~= nodes);
        }
    }

    /// Adds `edge` unless an edge with its identifier exists.
    pub fn add_edge(&mut self, edge: Edge)
        requires
            old(self).wf(),
        ensures
            final(self).wf(),
            has_edge_id(final(self).edges@, edge.id@),
            has_edge_id(old(self).edges@, edge.id@) ==> final(self).edges@ == old(self).edges@,
            !has_edge_id(old(self).edges@, edge.id@) ==> final(self).edges@ == old(self).edges@.push(edge),
            *final(self) == (StatementContext {
                edges: final(self).edges,
                edge_ids: final(self).edge_ids,
                ..*old(self)
            }),
            edge_added(*old(self), *final(self), edge),
    {
        let id = edge.id.clone();
        if !self.edge_ids.contains_key(&id) {
            let ghost old_edges = self.edges@;
            let n = self.edges.len();
            self.edge_ids.insert(id, ());
            self.edges.push(edge);
            proof {
                let edges = self.edges@;
                assert(edges[n as int] == edge);
                assert(forall|i: int| 0 <= i < n ==> edges[i] == old_edges[i]);
                assert forall|k: Seq<char>| has_edge_id(edges, k) <==> (has_edge_id(old_edges, k) || k == edge.id@) by {
                    if has_edge_id(edges, k) {
                        let i = choose|i: int| 0 <= i < edges.len() && (#[trigger] edges[i]).id@ == k;
                        if i < n {
                            assert(old_edges[i].id@ == k);
                        }
                    }
                    if has_edge_id(old_edges, k) {
                        let i = choose|i: int| 0 <= i < old_edges.len() && (#[trigger] old_edges[i]).id@ == k;
                        assert(edges[i].id@ == k);
                    }
                    if k == edge.id@ {
                        assert(edges[n as int].id@ == k);
                    }
                }
            }
        }
    }

    /// Removes the edge with identifier `edge_id`, if there is one.
    pub fn remove_edge_by_id(&mut self, edge_id: &String)
        requires
            old(self).wf(),
        ensures
            final(self).wf(),
            !has_edge_id(final(self).edges@, edge_id@),
            !has_edge_id(old(self).edges@, edge_id@) ==> final(self).edges@ == old(self).edges@,
            has_edge_id(old(self).edges@, edge_id@) ==> exists|i: int|
                0 <= i < old(self).edges@.len() && (#[trigger] old(self).edges@[i]).id@ == edge_id@
                    && final(self).edges@ == old(self).edges@.remove(i),
            *final(self) == (StatementContext { edges: final(self).edges, edge_ids: final(self).edge_ids, ..*old(self) }),
    {
        if !self.edge_ids.contains_key(edge_id) {
            return;
        }
        let ghost old_edges = self.edges@;
        let n = self.edges.len();
        let mut i: usize = 0;
        let mut searching = true;
        while searching && i < n
            invariant
                self.wf(),
                self.edges@ == old_edges,
                n == old_edges.len(),
                0 <= i <= n,
                has_edge_id(old_edges, edge_id@),
                forall|k: int| 0 <= k < i ==> (#[trigger] old_edges[k]).id@ != edge_id@,
                !searching ==> i < n && old_edges[i as int].id@ == edge_id@,
            decreases (n - i) * 2 + if searching { 1int } else { 0int },
        {
            if crate::text::str_eq(self.edges[i].id.as_str(), edge_id.as_str()) {
                searching = false;
            } else {
                i = i + 1;
            }
        }
        if searching {
            proof {
                let j = choose|j: int| 0 <= j < old_edges.len() && (#[trigger] old_edges[j]).id@ == edge_id@;
                assert(old_edges[j].id@ != edge_id@);
            }
            return;
        }
        self.edges.remove(i);
        self.edge_ids.remove(edge_id);
        proof {
            let edges = self.edges@;
            assert(edges =~= old_edges.remove(i as int));
            assert forall|a: int, b: int| 0 <= a < b < edges.len() implies edges[a].id@ != edges[b].id@ by {
                let a2 = if a < i { a } else { a + 1 };
                let b2 = if b < i { b } else { b + 1 };
                assert(edges[a] == old_edges[a2]);
                assert(edges[b] == old_edges[b2]);
            }
            assert forall|k: Seq<char>| has_edge_id(edges, k) <==> (has_edge_id(old_edges, k) && k != edge_id@) by {
                if has_edge_id(edges, k) {
                    let a = choose|a: int| 0 <= a < edges.len() && (#[trigger] edges[a]).id@ == k;
                    let a2 = if a < i { a } else { a + 1 };
                    assert(old_edges[a2].id@ == k);
                    assert(a2 != i);
                }
                if has_edge_id(old_edges, k) && k != edge_id@ {
                    let a = choose|a: int| 0 <= a < old_edges.len() && (#[trigger] old_edges[a]).id@ == k;
                    assert(a != i);
                    let a2 = if a < i { a } else { a - 1 };
                    assert(edges[a2].id@ == k);
                }
            }
            assert(self.edge_ids.as_map().contains_key(edge_id@) == false);
        }
    }

    /// The position of the node with identifier `node_id`, if any.
    pub fn node_position(&self, node_id: &String) -> (r: Option<usize>)
        requires
            self.wf(),
        ensures
            r.is_some() == has_node_id(self.nodes@, node_id@),
            r matches Some(i) ==> i < self.nodes@.len() && self.nodes@[i as int].id@ == node_id@,
    {
        match self.node_index.get(node_id) {
            Some(i) => {
                proof {
                    let j = choose|j: int| 0 <= j < self.nodes@.len() && (#[trigger] self.nodes@[j]).id@ == node_id@;
                    assert(self.node_index.as_map()[self.nodes@[j].id@] == j);
                }
                Some(*i)
            },
            None => None,
        }
    }

    /// Returns a mutable node by ID using the maintained index.
    ///
    /// The context stays well formed as long as the caller keeps the node's identifier.
    pub fn node_mut(&mut self, node_id: &String) -> (r: Option<&mut Node>)
        requires
            old(self).wf(),
        ensures
            r.is_some() == has_node_id(old(self).nodes@, node_id@),
            r is None ==> *final(self) == *old(self),
            r matches Some(n) ==> n.id@ == node_id@,
            r matches Some(n) ==> exists|i: int|
                0 <= i < old(self).nodes@.len() && old(self).nodes@[i] == *n
                    && final(self).nodes@ == old(self).nodes@.update(i, *final(n)),
            r matches Some(n) ==> *final(self) == (StatementContext { nodes: final(self).nodes, ..*old(self) }),
            r matches Some(n) ==> (final(n).id == n.id ==> final(self).wf()),
    {
        match self.node_position(node_id) {
            Some(idx) => {
                proof {
                    let a = *old(self);
                    assert forall|b: StatementContext|
                        b == (StatementContext { nodes: b.nodes, ..a }) && b.nodes@.len() == a.nodes@.len()
                            && b.nodes@[idx as int].id == a.nodes@[idx as int].id
                            && (forall|j: int| 0 <= j < a.nodes@.len() && j != idx ==> b.nodes@[j] == a.nodes@[j])
                        implies #[trigger] b.wf() by {
                        assert forall|k: Seq<char>| has_node_id(b.nodes@, k) <==> has_node_id(a.nodes@, k) by {
                            if has_node_id(b.nodes@, k) {
                                let i = choose|i: int| 0 <= i < b.nodes@.len() && (#[trigger] b.nodes@[i]).id@ == k;
                                assert(a.nodes@[i].id@ == k);
                            }
                            if has_node_id(a.nodes@, k) {
                                let i = choose|i: int| 0 <= i < a.nodes@.len() && (#[trigger] a.nodes@[i]).id@ == k;
                                assert(b.nodes@[i].id@ == k);
                            }
                        }
                        assert forall|i: int| 0 <= i < b.nodes@.len() implies b.node_index.as_map()[#[trigger] b.nodes@[i].id@] == i by {
                            assert(b.nodes@[i].id@ == a.nodes@[i].id@);
                        }
                        assert forall|i: int, j: int| 0 <= i < j < b.nodes@.len() implies b.nodes@[i].id@ != b.nodes@[j].id@ by {
                            assert(b.nodes@[i].id@ == a.nodes@[i].id@);
                            assert(b.nodes@[j].id@ == a.nodes@[j].id@);
                        }
                    }
                }
                Some(&mut self.nodes[idx])
            },
            None => None,
        }
    }

    /// Returns the per-relation name-occurrence cursor for `raw_name`, starting at 0.
    pub fn relation_span_cursor(&mut self, raw_name: &str) -> (r: &mut usize)
        requires
            old(self).wf(),
        ensures
            *r == if old(self).span_cursors().contains_key(raw_name@) {
                old(self).span_cursors()[raw_name@]
            } else {
                0
            },
            final(self).wf(),
            final(self).span_cursors() == old(self).span_cursors().insert(raw_name@, *final(r)),
            *final(self) == (StatementContext {
                relation_span_cursors: final(self).relation_span_cursors,
                ..*old(self)
            }),
    {
        let key = string_of(raw_name);
        if !self.relation_span_cursors.contains_key(&key) {
            self.relation_span_cursors.insert(key.clone(), 0);
        }
        self.relation_span_cursors.get_mut(&key).unwrap()
    }

    /// Attach a relation-name occurrence span to an existing node (once).
    pub fn add_name_span(&mut self, node_id: &String, span: Span)
        requires
            old(self).wf(),
        ensures
            final(self).wf(),
            !has_node_id(old(self).nodes@, node_id@) ==> final(self).nodes@ == old(self).nodes@,
            has_node_id(old(self).nodes@, node_id@) ==> exists|i: int|
                0 <= i < old(self).nodes@.len() && (#[trigger] old(self).nodes@[i]).id@ == node_id@
                    && final(self).nodes@.len() == old(self).nodes@.len()
                    && (forall|j: int| 0 <= j < old(self).nodes@.len() && j != i ==> final(self).nodes@[j] == old(self).nodes@[j])
                    && final(self).nodes@[i] == (Node {
                        name_spans: final(self).nodes@[i].name_spans,
                        ..old(self).nodes@[i]
                    })
                    && final(self).nodes@[i].name_spans@ == if old(self).nodes@[i].name_spans@.contains(span) {
                        old(self).nodes@[i].name_spans@
                    } else {
                        old(self).nodes@[i].name_spans@.push(span)
                    },
            *final(self) == (StatementContext { nodes: final(self).nodes, ..*old(self) }),
    {
        match self.node_mut(node_id) {
            Some(node) => {
                let mut found = false;
                let mut i: usize = 0;
                while i < node.name_spans.len()
                    invariant
                        0 <= i <= node.name_spans@.len(),
                        found == exists|j: int| 0 <= j < i && node.name_spans@[j] == span,
                    decreases node.name_spans@.len() - i,
                {
                    if node.name_spans[i] == span {
                        found = true;
                    }
                    i = i + 1;
                }
                if !found {
                    node.name_spans.push(span);
                }
            },
            None => {},
        }
    }

    /// Creates or returns the output node for this statement.
    ///
    /// With a model name (e.g., a dbt model) the node is labelled and qualified by it;
    /// otherwise the first statement's node is labelled `Output` and later ones `Output (n)`.
    pub fn ensure_output_node_with_model(&mut self, model_name: Option<&str>) -> (r: String)
        requires
            old(self).wf(),
            old(self).statement_index < usize::MAX,
        ensures
            final(self).wf(),
            output_node_settled(*old(self), *final(self), r@),
            old(self).output_node_id matches Some(existing) ==> r == existing && *final(self) == *old(self),
            old(self).output_node_id is None ==> {
                &&& r@ == spec_output_node_id(old(self).statement_index as nat)
                &&& final(self).output_node_id == Some(r)
                &&& has_node_id(old(self).nodes@, r@) ==> final(self).nodes@ == old(self).nodes@
                &&& !has_node_id(old(self).nodes@, r@) ==> {
                    &&& final(self).nodes@.len() == old(self).nodes@.len() + 1
                    &&& final(self).nodes@.drop_last() == old(self).nodes@
                    &&& final(self).nodes@.last().id@ == r@
                    &&& final(self).nodes@.last().node_type == NodeType::Output
                    &&& final(self).nodes@.last().label@ == output_label(
                        match model_name {
                            Some(m) => Some(m@),
                            None => None,
                        },
                        old(self).statement_index as nat,
                    )
                    &&& opt_chars(final(self).nodes@.last().qualified_name) == match model_name {
                        Some(m) => Some(m@),
                        None => None,
                    }
                }
                &&& *final(self) == (StatementContext {
                    nodes: final(self).nodes,
                    node_ids: final(self).node_ids,
                    node_index: final(self).node_index,
                    output_node_id: final(self).output_node_id,
                    ..*old(self)
                })
            },
    {
        match &self.output_node_id {
            Some(existing) => {
                return existing.clone();
            },
            None => {},
        }
        let node_id = generate_output_node_id(self.statement_index);
        let label = match model_name {
            Some(name) => string_of(name),
            None => {
                if self.statement_index == 0 {
                    string_of("Output")
                } else {
                    let mut l = string_of("Output (");
                    let n = crate::ids::usize_to_string(self.statement_index + 1);
                    l.append(n.as_str());
                    l.append(")");
                    l
                }
            },
        };
        let qualified_name = match model_name {
            Some(name) => Some(string_of(name)),
            None => None,
        };
        let output_node = Node::basic(node_id.clone(), NodeType::Output, label, qualified_name);
        let ghost before = self.nodes@;
        self.add_node(output_node);
        proof {
            if !has_node_id(before, node_id@) {
                assert(self.nodes@.drop_last() =~= before);
            }
        }
        self.output_node_id = Some(node_id.clone());
        node_id
    }

    pub fn output_node_id(&self) -> (r: Option<&String>)
        ensures
            r == match self.output_node_id {
                Some(ref id) => Some(id),
                None => None,
            },
    {
        self.output_node_id.as_ref()
    }

    /// Push a new scope onto the stack (entering a SELECT/subquery).
    pub fn push_scope(&mut self)
        requires
            old(self).wf(),
            old(self).next_scope_id < usize::MAX,
        ensures
            final(self).wf(),
            final(self).scope_stack@.len() == old(self).scope_stack@.len() + 1,
            final(self).scope_stack@.drop_last() == old(self).scope_stack@,
            final(self).scope_stack@.last().scope_id == old(self).next_scope_id,
            final(self).scope_stack@.last().tables.as_map().is_empty(),
            final(self).scope_stack@.last().tables.key_seq().len() == 0,
            final(self).scope_stack@.last().aliases.as_map().is_empty(),
            final(self).scope_stack@.last().alias_instances.as_map().is_empty(),
            final(self).scope_stack@.last().alias_instances.value_seq().len() == 0,
            final(self).scope_stack@.last().subquery_aliases.as_map().is_empty(),
            final(self).scope_stack@.last().subquery_columns.as_map().is_empty(),
            !final(self).scope_stack@.last().has_table_function_relation,
            *final(self) == (StatementContext {
                scope_stack: final(self).scope_stack,
                next_scope_id: (old(self).next_scope_id + 1) as usize,
                ..*old(self)
            }),
            scope_pushed(*old(self), *final(self)),
    {
        let scope_id = self.next_scope_id;
        self.next_scope_id = self.next_scope_id + 1;
        let ghost before = self.scope_stack@;
        self.scope_stack.push(Scope::new(scope_id));
        assert(self.scope_stack@.drop_last() =~= before);
    }

    /// Pop the current scope (leaving a SELECT/subquery).
    pub fn pop_scope(&mut self)
        requires
            old(self).wf(),
        ensures
            final(self).wf(),
            final(self).scope_stack@ == if old(self).scope_stack@.len() > 0 {
                old(self).scope_stack@.drop_last()
            } else {
                old(self).scope_stack@
            },
            *final(self) == (StatementContext { scope_stack: final(self).scope_stack, ..*old(self) }),
            scope_popped(*old(self), *final(self)),
    {
        let _ = self.scope_stack.pop();
    }

    /// Get the current (topmost) scope, if any.
    pub fn current_scope(&self) -> (r: Option<&Scope>)
        ensures
            r.is_some() == (self.scope_stack@.len() > 0),
            r matches Some(s) ==> *s == self.scope_stack@.last(),
    {
        self.scope_stack.last()
    }

    /// Returns the deterministic ID of the current lexical scope.
    pub fn current_scope_id(&self) -> (r: Option<usize>)
        ensures
            r == if self.scope_stack@.len() > 0 {
                Some(self.scope_stack@.last().scope_id)
            } else {
                None
            },
    {
        match self.current_scope() {
            Some(scope) => Some(scope.scope_id),
            None => None,
        }
    }

    /// Get the current (topmost) scope mutably, if any.
    ///
    /// The context stays well formed as long as the caller keeps the scope well formed.
    pub fn current_scope_mut(&mut self) -> (r: Option<&mut Scope>)
        requires
            old(self).wf(),
        ensures
            r.is_some() == (old(self).scope_stack@.len() > 0),
            r is None ==> *final(self) == *old(self),
            r matches Some(s) ==> *s == old(self).scope_stack@.last(),
            r matches Some(s) ==> final(self).scope_stack@ == old(self).scope_stack@.update(
                old(self).scope_stack@.len() - 1,
                *final(s),
            ),
            r matches Some(s) ==> *final(self) == (StatementContext {
                scope_stack: final(self).scope_stack,
                ..*old(self)
            }),
            r matches Some(s) ==> (final(s).wf() ==> final(self).wf()),
    {
        let n = self.scope_stack.len();
        if n == 0 {
            return None;
        }
        proof {
            let a = *old(self);
            assert forall|b: StatementContext|
                b == (StatementContext { scope_stack: b.scope_stack, ..a }) && b.scope_stack@.len() == a.scope_stack@.len()
                    && b.scope_stack@[n - 1].wf()
                    && (forall|j: int| 0 <= j < a.scope_stack@.len() && j != n - 1 ==> b.scope_stack@[j] == a.scope_stack@[j])
                implies #[trigger] b.wf() by {
                assert forall|i: int| 0 <= i < b.scope_stack@.len() implies (#[trigger] b.scope_stack@[i]).wf() by {
                    if i != n - 1 {
                        assert(b.scope_stack@[i] == a.scope_stack@[i]);
                    }
                }
            }
        }
        Some(&mut self.scope_stack[n - 1])
    }

    /// Register a table in the current scope (and in the global table registry).
    pub fn register_table_in_scope(&mut self, canonical: String, node_id: String)
        requires
            old(self).wf(),
        ensures
            final(self).wf(),
            final(self).table_node_ids.as_map() == old(self).table_node_ids.as_map().insert(canonical@, node_id@),
            top_scope_updated(*old(self), *final(self)),
            old(self).scope_stack@.len() > 0 ==> {
                let o = old(self).scope_stack@.last();
                let f = final(self).scope_stack@.last();
                &&& f == (Scope { tables: f.tables, ..o })
                &&& f.tables.as_map() == o.tables.as_map().insert(canonical@, node_id@)
                &&& o.tables.key_seq().contains(canonical@) ==> f.tables.key_seq() == o.tables.key_seq()
                &&& !o.tables.key_seq().contains(canonical@) ==> f.tables.key_seq() == o.tables.key_seq().push(canonical@)
            },
            *final(self) == (StatementContext {
                table_node_ids: final(self).table_node_ids,
                scope_stack: final(self).scope_stack,
                ..*old(self)
            }),
    {
        self.table_node_ids.insert(canonical.clone(), node_id.clone());
        match self.current_scope_mut() {
            Some(scope) => {
                scope.tables.insert(canonical, node_id);
            },
            None => {},
        }
    }

    /// Register an alias in the current scope (and globally).
    ///
    /// When the canonical name already has a node, the alias also gets a relation
    /// instance, unless it already has one.
    pub fn register_alias_in_scope(&mut self, alias: String, canonical: String)
        requires
            old(self).wf(),
        ensures
            final(self).wf(),
            final(self).table_aliases.as_map() == old(self).table_aliases.as_map().insert(alias@, canonical@),
            top_scope_updated(*old(self), *final(self)),
            old(self).scope_stack@.len() > 0 ==> {
                let o = old(self).scope_stack@.last();
                let f = final(self).scope_stack@.last();
                let ids = old(self).table_node_ids.as_map();
                &&& f == (Scope { aliases: f.aliases, alias_instances: f.alias_instances, ..o })
                &&& f.aliases.as_map() == o.aliases.as_map().insert(alias@, canonical@)
                &&& f.alias_instances.as_map() == if ids.contains_key(canonical@)
                    && !o.alias_instances.as_map().contains_key(alias@) {
                    o.alias_instances.as_map().insert(
                        alias@,
                        InstanceView { canonical: canonical@, node_id: ids[canonical@] },
                    )
                } else {
                    o.alias_instances.as_map()
                }
            },
            *final(self) == (StatementContext {
                table_aliases: final(self).table_aliases,
                scope_stack: final(self).scope_stack,
                ..*old(self)
            }),
    {
        self.table_aliases.insert(alias.clone(), canonical.clone());
        let node_id = match self.table_node_ids.get(&canonical) {
            Some(id) => Some(id.clone()),
            None => None,
        };
        match self.current_scope_mut() {
            Some(scope) => {
                scope.aliases.insert(alias.clone(), canonical.clone());
                match node_id {
                    Some(node_id) => {
                        scope.alias_instances.insert_if_absent(alias, RelationInstance { canonical, node_id });
                    },
                    None => {},
                }
            },
            None => {},
        }
    }

    /// The number of alias instances registered across all scopes.
    pub open spec fn total_instances(&self) -> nat {
        total_alias_instances(self.scope_stack@)
    }

    /// Register an alias with its instance node ID for self-join-aware resolution.
    ///
    /// Once the statement holds `MAX_INSTANCES_PER_STATEMENT` instances, further
    /// registrations are skipped and `instance_limit_reached` is set.
    pub fn register_alias_instance(&mut self, alias: String, canonical: String, node_id: String)
        requires
            old(self).wf(),
        ensures
            final(self).wf(),
            old(self).total_instances() >= MAX_INSTANCES_PER_STATEMENT ==> *final(self) == (StatementContext {
                instance_limit_reached: true,
                ..*old(self)
            }),
            old(self).total_instances() < MAX_INSTANCES_PER_STATEMENT ==> {
                &&& top_scope_updated(*old(self), *final(self))
                &&& old(self).scope_stack@.len() > 0 ==> {
                    let o = old(self).scope_stack@.last();
                    let f = final(self).scope_stack@.last();
                    &&& f == (Scope { alias_instances: f.alias_instances, ..o })
                    &&& f.alias_instances.as_map() == o.alias_instances.as_map().insert(
                        alias@,
                        InstanceView { canonical: canonical@, node_id: node_id@ },
                    )
                }
                &&& *final(self) == (StatementContext { scope_stack: final(self).scope_stack, ..*old(self) })
            },
    {
        let mut total: usize = 0;
        let mut i: usize = 0;
        let mut reached = false;
        while i < self.scope_stack.len() && !reached
            invariant
                0 <= i <= self.scope_stack@.len(),
                total < MAX_INSTANCES_PER_STATEMENT,
                !reached ==> total == total_alias_instances(self.scope_stack@.take(i as int)),
                reached ==> total_alias_instances(self.scope_stack@) >= MAX_INSTANCES_PER_STATEMENT,
            decreases self.scope_stack@.len() - i + (if reached { 0int } else { 1 }),
        {
            let n = self.scope_stack[i].alias_instances.len();
            proof {
                lemma_total_take_step(self.scope_stack@, i as int);
            }
            if n >= MAX_INSTANCES_PER_STATEMENT - total {
                proof {
                    lemma_total_monotone(self.scope_stack@, i + 1);
                }
                reached = true;
            } else {
                total = total + n;
                i = i + 1;
            }
        }
        if !reached {
            assert(self.scope_stack@.take(self.scope_stack@.len() as int) =~= self.scope_stack@);
        }
        if reached {
            self.instance_limit_reached = true;
            return;
        }
        match self.current_scope_mut() {
            Some(scope) => {
                scope.alias_instances.insert(alias, RelationInstance { canonical, node_id });
            },
            None => {},
        }
    }

    /// Resolve an alias to its relation instance, searching from the innermost scope out.
    pub fn resolve_alias_instance(&self, alias: &str) -> (r: Option<&RelationInstance>)
        requires
            self.wf(),
        ensures
            r.deep_view() == find_alias_instance(self.scope_stack@, alias@),
    {
        let key = string_of(alias);
        let mut i = self.scope_stack.len();
        assert(self.scope_stack@.take(i as int) =~= self.scope_stack@);
        while i > 0
            invariant
                self.wf(),
                key@ == alias@,
                0 <= i <= self.scope_stack@.len(),
                find_alias_instance(self.scope_stack@, alias@) == find_alias_instance(self.scope_stack@.take(i as int), alias@),
            decreases i,
        {
            let scope = &self.scope_stack[i - 1];
            assert(self.scope_stack@.take(i as int).last() == self.scope_stack@[i - 1]);
            assert(self.scope_stack@.take(i as int).drop_last() =~= self.scope_stack@.take(i - 1));
            assert(scope.wf());
            match scope.alias_instances.get(&key) {
                Some(instance) => {
                    return Some(instance);
                },
                None => {},
            }
            i = i - 1;
        }
        None
    }

    /// Distinct relation instances in the current scope (first alias of each node wins).
    ///
    /// Unlike `tables_in_current_scope`, this keeps multiple aliases that refer to the
    /// same canonical relation through different nodes.
    pub fn relation_instances_in_current_scope(&self) -> (r: Vec<RelationInstance>)
        requires
            self.wf(),
        ensures
            r.deep_view() == current_instances(*self),
    {
        let mut out: Vec<RelationInstance> = Vec::new();
        let n = self.scope_stack.len();
        if n == 0 {
            assert(out.deep_view() =~= Seq::<InstanceView>::empty());
            return out;
        }
        let scope = &self.scope_stack[n - 1];
        let ghost vals = scope.alias_instances.value_seq();
        let mut i: usize = 0;
        assert(out.deep_view() =~= distinct_by_node(vals.take(0)));
        while i < scope.alias_instances.len()
            invariant
                vals == scope.alias_instances.value_seq(),
                0 <= i <= vals.len(),
                out.deep_view() == distinct_by_node(vals.take(i as int)),
            decreases vals.len() - i,
        {
            let instance = scope.alias_instances.value_at(i);
            let mut seen = false;
            let mut j: usize = 0;
            while j < out.len()
                invariant
                    0 <= j <= out@.len(),
                    seen == exists|k: int| 0 <= k < j && out.deep_view()[k].node_id == instance.node_id@,
                decreases out@.len() - j,
            {
                assert(out.deep_view()[j as int] == out@[j as int].deep_view());
                if out[j].node_id == instance.node_id {
                    seen = true;
                }
                j = j + 1;
            }
            assert(vals.take(i + 1).drop_last() =~= vals.take(i as int));
            assert(vals.take(i + 1).last() == instance.deep_view());
            if !seen {
                let ghost before = out.deep_view();
                out.push(instance.duplicate());
                assert(out.deep_view() =~= before.push(instance.deep_view()));
            }
            i = i + 1;
        }
        assert(vals.take(vals.len() as int) =~= vals);
        out
    }

    /// Count distinct relation instances for a canonical name in the current scope.
    pub fn relation_instance_count_in_current_scope(&self, canonical: &str) -> (r: usize)
        requires
            self.wf(),
        ensures
            r == count_canonical(current_instances(*self), canonical@),
    {
        let instances = self.relation_instances_in_current_scope();
        let ghost all = instances.deep_view();
        let mut count: usize = 0;
        let mut i: usize = 0;
        while i < instances.len()
            invariant
                all == instances.deep_view(),
                0 <= i <= all.len(),
                count == count_canonical(all.take(i as int), canonical@),
                count <= i,
            decreases all.len() - i,
        {
            assert(all.take(i + 1).drop_last() =~= all.take(i as int));
            if crate::text::str_eq(instances[i].canonical.as_str(), canonical) {
                count = count + 1;
            }
            i = i + 1;
        }
        assert(all.take(all.len() as int) =~= all);
        count
    }

    /// Register a subquery alias in the current scope (and globally).
    pub fn register_subquery_alias_in_scope(&mut self, alias: String)
        requires
            old(self).wf(),
        ensures
            final(self).wf(),
            final(self).subquery_aliases.as_map() == old(self).subquery_aliases.as_map().insert(alias@, ()),
            top_scope_updated(*old(self), *final(self)),
            old(self).scope_stack@.len() > 0 ==> {
                let o = old(self).scope_stack@.last();
                let f = final(self).scope_stack@.last();
                &&& f == (Scope { subquery_aliases: f.subquery_aliases, ..o })
                &&& f.subquery_aliases.as_map() == o.subquery_aliases.as_map().insert(alias@, ())
            },
            *final(self) == (StatementContext {
                subquery_aliases: final(self).subquery_aliases,
                scope_stack: final(self).scope_stack,
                ..*old(self)
            }),
    {
        self.subquery_aliases.insert(alias.clone(), ());
        match self.current_scope_mut() {
            Some(scope) => {
                scope.subquery_aliases.insert(alias, ());
            },
            None => {},
        }
    }

    /// Mark that the current scope contains a table function relation.
    pub fn mark_table_function_in_scope(&mut self)
        requires
            old(self).wf(),
        ensures
            final(self).wf(),
            top_scope_updated(*old(self), *final(self)),
            old(self).scope_stack@.len() > 0 ==> final(self).scope_stack@.last() == (Scope {
                has_table_function_relation: true,
                ..old(self).scope_stack@.last()
            }),
            *final(self) == (StatementContext { scope_stack: final(self).scope_stack, ..*old(self) }),
    {
        match self.current_scope_mut() {
            Some(scope) => {
                scope.has_table_function_relation = true;
            },
            None => {},
        }
    }

    /// Returns true when the current scope contains a table function relation.
    pub fn current_scope_has_table_function_relation(&self) -> (r: bool)
        ensures
            r == (self.scope_stack@.len() > 0 && self.scope_stack@.last().has_table_function_relation),
    {
        match self.current_scope() {
            Some(scope) => scope.has_table_function_relation,
            None => false,
        }
    }

    /// Register statement-global output columns for a named CTE definition.
    pub fn register_cte_output_columns(&mut self, name: String, columns: Vec<OutputColumn>)
        requires
            old(self).wf(),
        ensures
            final(self).wf(),
            final(self).aliased_subquery_columns.as_map() == old(self).aliased_subquery_columns.as_map().insert(
                name@,
                columns.deep_view(),
            ),
            *final(self) == (StatementContext {
                aliased_subquery_columns: final(self).aliased_subquery_columns,
                ..*old(self)
            }),
    {
        self.aliased_subquery_columns.insert(name, columns);
    }

    /// Register scope-local output columns for a derived table or aliased CTE instance;
    /// without a scope they become statement-global.
    pub fn register_subquery_columns_in_scope(&mut self, name: String, columns: Vec<OutputColumn>)
        requires
            old(self).wf(),
        ensures
            final(self).wf(),
            old(self).scope_stack@.len() > 0 ==> {
                let o = old(self).scope_stack@.last();
                let f = final(self).scope_stack@.last();
                &&& top_scope_updated(*old(self), *final(self))
                &&& f == (Scope { subquery_columns: f.subquery_columns, ..o })
                &&& f.subquery_columns.as_map() == o.subquery_columns.as_map().insert(name@, columns.deep_view())
                &&& *final(self) == (StatementContext { scope_stack: final(self).scope_stack, ..*old(self) })
            },
            old(self).scope_stack@.len() == 0 ==> {
                &&& final(self).aliased_subquery_columns.as_map()
                    == old(self).aliased_subquery_columns.as_map().insert(name@, columns.deep_view())
                &&& *final(self) == (StatementContext {
                    aliased_subquery_columns: final(self).aliased_subquery_columns,
                    ..*old(self)
                })
            },
    {
        if self.scope_stack.len() > 0 {
            match self.current_scope_mut() {
                Some(scope) => {
                    scope.subquery_columns.insert(name, columns);
                },
                None => {},
            }
        } else {
            self.aliased_subquery_columns.insert(name, columns);
        }
    }

    /// Returns true when the current scope already materialized columns for `name`.
    pub fn has_subquery_columns_in_current_scope(&self, name: &str) -> (r: bool)
        requires
            self.wf(),
        ensures
            r == (self.scope_stack@.len() > 0
                && self.scope_stack@.last().subquery_columns.as_map().contains_key(name@)),
    {
        match self.current_scope() {
            Some(scope) => {
                assert(self.scope_stack@[self.scope_stack@.len() - 1].wf());
                scope.subquery_columns.contains_key(&string_of(name))
            },
            None => false,
        }
    }

    /// Resolve subquery/CTE output columns with lexical scoping.
    ///
    /// Scope-local aliases (innermost first) shadow statement-global CTE definitions.
    pub fn resolve_subquery_columns(&self, name: &str) -> (r: Option<&[OutputColumn]>)
        requires
            self.wf(),
        ensures
            r.deep_view() == find_subquery_columns(
                self.scope_stack@,
                self.aliased_subquery_columns.as_map(),
                name@,
            ),
    {
        let key = string_of(name);
        let mut i = self.scope_stack.len();
        assert(self.scope_stack@.take(i as int) =~= self.scope_stack@);
        while i > 0
            invariant
                self.wf(),
                key@ == name@,
                0 <= i <= self.scope_stack@.len(),
                find_subquery_columns(self.scope_stack@, self.aliased_subquery_columns.as_map(), name@)
                    == find_subquery_columns(self.scope_stack@.take(i as int), self.aliased_subquery_columns.as_map(), name@),
            decreases i,
        {
            let scope = &self.scope_stack[i - 1];
            assert(self.scope_stack@.take(i as int).last() == self.scope_stack@[i - 1]);
            assert(self.scope_stack@.take(i as int).drop_last() =~= self.scope_stack@.take(i - 1));
            assert(scope.wf());
            match scope.subquery_columns.get(&key) {
                Some(columns) => {
                    return Some(columns.as_slice());
                },
                None => {},
            }
            i = i - 1;
        }
        match self.aliased_subquery_columns.get(&key) {
            Some(columns) => Some(columns.as_slice()),
            None => None,
        }
    }

    /// Tables in scope for column resolution: those of the current scope only.
    pub fn tables_in_current_scope(&self) -> (r: Vec<String>)
        ensures
            r.deep_view() == if self.scope_stack@.len() > 0 {
                self.scope_stack@.last().tables.key_seq()
            } else {
                Seq::empty()
            },
    {
        let mut out: Vec<String> = Vec::new();
        match self.current_scope() {
            Some(scope) => {
                let mut i: usize = 0;
                while i < scope.tables.len()
                    invariant
                        0 <= i <= scope.tables.key_seq().len(),
                        out.deep_view() == scope.tables.key_seq().take(i as int),
                    decreases scope.tables.key_seq().len() - i,
                {
                    let ghost before = out.deep_view();
                    let k = scope.tables.key_at(i).clone();
                    out.push(k);
                    assert(out.deep_view() =~= before.push(k@));
                    assert(scope.tables.key_seq().take(i + 1) =~= scope.tables.key_seq().take(i as int).push(k@));
                    i = i + 1;
                }
                assert(scope.tables.key_seq().take(scope.tables.key_seq().len() as int) =~= scope.tables.key_seq());
            },
            None => {
                assert(out.deep_view() =~= Seq::<Seq<char>>::empty());
            },
        }
        out
    }

    /// The current length of the output column buffer.
    ///
    /// Taken before analyzing a nested query, it lets `take_output_columns_since`
    /// extract exactly the columns that query produced.
    pub fn projection_checkpoint(&self) -> (r: usize)
        ensures
            r == self.output_columns@.len(),
    {
        self.output_columns.len()
    }

    /// Drains output columns produced since the provided checkpoint.
    ///
    /// A checkpoint past the end of the buffer yields nothing and changes nothing.
    pub fn take_output_columns_since(&mut self, checkpoint: usize) -> (r: Vec<OutputColumn>)
        requires
            old(self).wf(),
        ensures
            final(self).wf(),
            checkpoint <= old(self).output_columns@.len() ==> {
                &&& r@ == old(self).output_columns@.subrange(checkpoint as int, old(self).output_columns@.len() as int)
                &&& final(self).output_columns@ == old(self).output_columns@.take(checkpoint as int)
            },
            checkpoint > old(self).output_columns@.len() ==> r@.len() == 0 && final(self).output_columns@
                == old(self).output_columns@,
            *final(self) == (StatementContext { output_columns: final(self).output_columns, ..*old(self) }),
    {
        if checkpoint > self.output_columns.len() {
            return Vec::new();
        }
        if checkpoint == self.output_columns.len() {
            let r = Vec::new();
            assert(r@ =~= old(self).output_columns@.subrange(checkpoint as int, old(self).output_columns@.len() as int));
            assert(self.output_columns@ =~= old(self).output_columns@.take(checkpoint as int));
            return r;
        }
        self.output_columns.split_off(checkpoint)
    }
}

/// Popping the scope that was just pushed restores the scope stack; only the scope
/// identifier counter has moved on.
pub proof fn law_pop_undoes_push(a: StatementContext, b: StatementContext, c: StatementContext)
    requires
        scope_pushed(a, b),
        scope_popped(b, c),
    ensures
        c.scope_stack@ == a.scope_stack@,
        c == (StatementContext { scope_stack: c.scope_stack, next_scope_id: c.next_scope_id, ..a }),
        c.next_scope_id == a.next_scope_id + 1,
{
    assert(c.scope_stack@ =~= a.scope_stack@);
}

/// Ensuring the output node a second time, with any model name, returns the node
/// the first time returned and changes nothing.
pub proof fn law_output_node_settles(a: StatementContext, b: StatementContext, c: StatementContext, r1: Seq<char>, r2: Seq<char>)
    requires
        output_node_settled(a, b, r1),
        output_node_settled(b, c, r2),
    ensures
        r2 == r1,
        c == b,
{
}

/// Adding a node is idempotent: adding the same node again changes nothing.
pub proof fn law_add_node_idempotent(a: StatementContext, b: StatementContext, c: StatementContext, node: Node)
    requires
        node_added(a, b, node),
        node_added(b, c, node),
    ensures
        c.nodes@ == b.nodes@,
{
}

/// Adding an edge is idempotent: adding the same edge again changes nothing.
pub proof fn law_add_edge_idempotent(a: StatementContext, b: StatementContext, c: StatementContext, edge: Edge)
    requires
        edge_added(a, b, edge),
        edge_added(b, c, edge),
    ensures
        c.edges@ == b.edges@,
{
}

/// Removing a node takes away exactly that node: every other node stays, and the
/// nodes after are, as a multiset, those before less the removed one.
pub proof fn law_remove_keeps_other_nodes(a: StatementContext, b: StatementContext, id: Seq<char>)
    requires
        node_removed(a, b, id),
    ensures
        !has_node_id(b.nodes@, id),
        forall|k: Seq<char>| has_node_id(a.nodes@, k) && k != id ==> #[trigger] has_node_id(b.nodes@, k),
        !has_node_id(a.nodes@, id) ==> b.nodes@ == a.nodes@,
        has_node_id(a.nodes@, id) ==> exists|i: int|
            0 <= i < a.nodes@.len() && (#[trigger] a.nodes@[i]).id@ == id
                && b.nodes@.to_multiset() == a.nodes@.to_multiset().remove(a.nodes@[i]),
{
    broadcast use vstd::seq_lib::group_to_multiset_ensures;
    if has_node_id(a.nodes@, id) {
        let s = a.nodes@;
        let i = choose|i: int|
            0 <= i < s.len() && (#[trigger] s[i]).id@ == id && b.nodes@ == s.update(i, s.last()).drop_last();
        let u = s.update(i, s.last());
        assert(b.nodes@ =~= u.remove(u.len() - 1));
        vstd::seq_lib::to_multiset_update(s, i, s.last());
        vstd::seq_lib::to_multiset_remove(u, u.len() - 1);
        assert(u[u.len() - 1] == s.last());
        broadcast use vstd::multiset::group_multiset_axioms;
        assert(s.to_multiset().insert(s.last()).remove(s[i]).remove(s.last()) =~= s.to_multiset().remove(s[i]));
        assert forall|k: Seq<char>| has_node_id(a.nodes@, k) && k != id implies #[trigger] has_node_id(b.nodes@, k) by {
            let j = choose|j: int| 0 <= j < s.len() && (#[trigger] s[j]).id@ == k;
            if j == s.len() - 1 {
                assert(b.nodes@[i].id@ == k);
            } else {
                assert(b.nodes@[j].id@ == k);
            }
        }
    }
}

/// After a node is removed, every other identifier still finds, through the node
/// index, the very node it found before.
pub proof fn law_remove_keeps_lookup(a: StatementContext, b: StatementContext, id: Seq<char>)
    requires
        a.wf(),
        b.wf(),
        node_removed(a, b, id),
    ensures
        forall|k: Seq<char>| #[trigger] a.node_index.as_map().contains_key(k) && k != id ==> {
            &&& b.node_index.as_map().contains_key(k)
            &&& 0 <= b.node_index.as_map()[k] < b.nodes@.len()
            &&& b.nodes@[b.node_index.as_map()[k] as int] == a.nodes@[a.node_index.as_map()[k] as int]
        },
{
    law_remove_keeps_other_nodes(a, b, id);
    assert forall|k: Seq<char>| #[trigger] a.node_index.as_map().contains_key(k) && k != id implies {
        &&& b.node_index.as_map().contains_key(k)
        &&& 0 <= b.node_index.as_map()[k] < b.nodes@.len()
        &&& b.nodes@[b.node_index.as_map()[k] as int] == a.nodes@[a.node_index.as_map()[k] as int]
    } by {
        let s = a.nodes@;
        assert(has_node_id(s, k));
        let j = choose|j: int| 0 <= j < s.len() && (#[trigger] s[j]).id@ == k;
        assert(a.node_index.as_map()[s[j].id@] == j);
        assert(has_node_id(b.nodes@, k));
        let j2 = choose|j2: int| 0 <= j2 < b.nodes@.len() && (#[trigger] b.nodes@[j2]).id@ == k;
        assert(b.node_index.as_map()[b.nodes@[j2].id@] == j2);
        if has_node_id(s, id) {
            let i = choose|i: int|
                0 <= i < s.len() && (#[trigger] s[i]).id@ == id && b.nodes@ == s.update(i, s.last()).drop_last();
            let m = if j2 == i { s.len() - 1 } else { j2 };
            assert(b.nodes@[j2] == s[m]);
            if m != j {
                if m < j {
                    assert(s[m].id@ != s[j].id@);
                } else {
                    assert(s[j].id@ != s[m].id@);
                }
            }
        }
    }
}

/// Removing a node that was just added, under an identifier that was new, restores
/// the node list.
pub proof fn law_remove_undoes_add(a: StatementContext, b: StatementContext, c: StatementContext, node: Node)
    requires
        b.wf(),
        !has_node_id(a.nodes@, node.id@),
        node_added(a, b, node),
        node_removed(b, c, node.id@),
    ensures
        c.nodes@ == a.nodes@,
{
    let n = a.nodes@.len() as int;
    assert(b.nodes@[n] == node);
    let i = choose|i: int| 0 <= i < b.nodes@.len() && (#[trigger] b.nodes@[i]).id@ == node.id@
        && c.nodes@ == b.nodes@.update(i, b.nodes@.last()).drop_last();
    if i < n {
        assert(b.nodes@[i].id@ != b.nodes@[n].id@);
    }
    assert(c.nodes@ =~= a.nodes@);
}

/// What is registered in a scope does not outlive it: after a scope is pushed,
/// changed (and nothing else) and popped, the scope stack is as before the push, so
/// scope-local aliases, instances and columns do not leak into sibling branches.
pub proof fn law_popped_scope_leaves_nothing(a: StatementContext, b: StatementContext, c: StatementContext, d: StatementContext)
    requires
        scope_pushed(a, b),
        top_scope_updated(b, c),
        scope_popped(c, d),
    ensures
        d.scope_stack@ == a.scope_stack@,
{
    assert(c.scope_stack@.drop_last() =~= b.scope_stack@.drop_last());
}

} // verus!
