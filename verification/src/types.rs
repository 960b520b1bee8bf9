//! The statement-level lineage graph: nodes, edges, spans and filter predicates.

use vstd::prelude::*;

verus! {

/// A byte range in the analyzed SQL text.
#[derive(Debug, Clone, Copy, PartialEq, Eq, Structural)]
pub struct Span {
    pub start: usize,
    pub end: usize,
}

impl Span {
    pub fn new(start: usize, end: usize) -> (r: Span)
        ensures
            r == (Span { start, end }),
    {
        Span { start, end }
    }
}

/// The kind of a lineage graph node.
#[derive(Debug, Clone, Copy, PartialEq, Eq, Structural)]
pub enum NodeType {
    Table,
    View,
    Cte,
    Output,
    Column,
}

impl NodeType {
    /// Tables and views: the persistent relations.
    pub open spec fn spec_is_table_or_view(self) -> bool {
        self == NodeType::Table || self == NodeType::View
    }

    /// Relations a query can read rows from: tables, views and CTEs.
    pub open spec fn spec_is_table_like(self) -> bool {
        self == NodeType::Table || self == NodeType::View || self == NodeType::Cte
    }

    pub fn is_table_or_view(&self) -> (r: bool)
        ensures
            r == self.spec_is_table_or_view(),
    {
        matches!(self, NodeType::Table | NodeType::View)
    }

    pub fn is_table_like(&self) -> (r: bool)
        ensures
            r == self.spec_is_table_like(),
    {
        matches!(self, NodeType::Table | NodeType::View | NodeType::Cte)
    }
}

/// The kind of a lineage graph edge.
#[derive(Debug, Clone, Copy, PartialEq, Eq, Structural)]
pub enum EdgeType {
    /// A relation owns a column.
    Ownership,
    /// Values flow unchanged.
    DataFlow,
    /// Values are computed from the source.
    Derivation,
    /// A joined relation shapes the output rows without contributing columns.
    JoinDependency,
    /// A relation produced by one statement is consumed by another.
    CrossStatement,
}

/// SQL join kinds.
#[derive(Debug, Clone, Copy, PartialEq, Eq, Structural)]
pub enum JoinType {
    Inner,
    Left,
    Right,
    Full,
    Cross,
    LeftSemi,
    RightSemi,
    LeftAnti,
    RightAnti,
    CrossApply,
    OuterApply,
    AsOf,
}

/// Where a table's schema came from.
#[derive(Debug, Clone, Copy, PartialEq, Eq, Structural)]
pub enum ResolutionSource {
    Imported,
    Implied,
    Unknown,
}

/// The clause a filter predicate was written in.
#[derive(Debug, Clone, Copy, PartialEq, Eq, Structural)]
pub enum FilterClauseType {
    Where,
    Having,
    JoinOn,
}

/// A filter predicate attached to a relation.
#[derive(Debug)]
pub struct FilterPredicate {
    pub expression: String,
    pub clause_type: FilterClauseType,
}

/// The value of a filter predicate.
pub struct FilterView {
    pub expression: Seq<char>,
    pub clause_type: FilterClauseType,
}

impl DeepView for FilterPredicate {
    type V = FilterView;

    open spec fn deep_view(&self) -> FilterView {
        FilterView { expression: self.expression@, clause_type: self.clause_type }
    }
}

impl FilterPredicate {
    pub fn duplicate(&self) -> (r: FilterPredicate)
        ensures
            r.deep_view() == self.deep_view(),
    {
        FilterPredicate { expression: self.expression.clone(), clause_type: self.clause_type }
    }
}

/// Extra facts recorded on a node.
#[derive(Debug)]
pub struct NodeMetadata {
    /// The inferred data type of a column node.
    pub data_type: Option<String>,
    /// Set on table nodes that could not be resolved against any schema.
    pub placeholder: bool,
}

/// How a column takes part in aggregation.
#[derive(Debug)]
pub struct AggregationInfo {
    /// The column is a grouping key of its GROUP BY.
    pub is_grouping_key: bool,
    /// The aggregate function computing the column, if any.
    pub function: Option<String>,
    /// Set when the aggregate is over distinct values.
    pub distinct: Option<bool>,
}

/// A node of the statement lineage graph.
#[derive(Debug)]
pub struct Node {
    pub id: String,
    pub node_type: NodeType,
    pub label: String,
    pub qualified_name: Option<String>,
    pub expression: Option<String>,
    pub span: Option<Span>,
    pub metadata: Option<NodeMetadata>,
    pub resolution_source: Option<ResolutionSource>,
    pub filters: Vec<FilterPredicate>,
    pub name_spans: Vec<Span>,
    pub aggregation: Option<AggregationInfo>,
}

impl Node {
    /// A node with the given identity and no further facts.
    pub fn basic(id: String, node_type: NodeType, label: String, qualified_name: Option<String>) -> (r: Node)
        ensures
            r.id == id,
            r.node_type == node_type,
            r.label == label,
            r.qualified_name == qualified_name,
            r.expression is None,
            r.span is None,
            r.metadata is None,
            r.resolution_source is None,
            r.filters@.len() == 0,
            r.name_spans@.len() == 0,
            r.aggregation is None,
    {
        Node {
            id,
            node_type,
            label,
            qualified_name,
            expression: None,
            span: None,
            metadata: None,
            resolution_source: None,
            filters: Vec::new(),
            name_spans: Vec::new(),
            aggregation: None,
        }
    }
}

/// An edge of the statement lineage graph.
#[derive(Debug)]
pub struct Edge {
    pub id: String,
    pub from: String,
    pub to: String,
    pub edge_type: EdgeType,
    pub expression: Option<String>,
    pub operation: Option<String>,
    pub join_type: Option<JoinType>,
    pub join_condition: Option<String>,
    pub approximate: Option<bool>,
}

impl Edge {
    /// An edge with the given endpoints and no further facts.
    pub fn basic(id: String, from: String, to: String, edge_type: EdgeType) -> (r: Edge)
        ensures
            r.id == id,
            r.from == from,
            r.to == to,
            r.edge_type == edge_type,
            r.expression is None,
            r.operation is None,
            r.join_type is None,
            r.join_condition is None,
            r.approximate is None,
    {
        Edge {
            id,
            from,
            to,
            edge_type,
            expression: None,
            operation: None,
            join_type: None,
            join_condition: None,
            approximate: None,
        }
    }
}

/// The value of an edge.
pub struct EdgeView {
    pub id: Seq<char>,
    pub from: Seq<char>,
    pub to: Seq<char>,
    pub edge_type: EdgeType,
    pub expression: Option<Seq<char>>,
    pub operation: Option<Seq<char>>,
    pub join_type: Option<JoinType>,
    pub join_condition: Option<Seq<char>>,
    pub approximate: Option<bool>,
}

impl DeepView for Edge {
    type V = EdgeView;

    open spec fn deep_view(&self) -> EdgeView {
        EdgeView {
            id: self.id@,
            from: self.from@,
            to: self.to@,
            edge_type: self.edge_type,
            expression: self.expression.deep_view(),
            operation: self.operation.deep_view(),
            join_type: self.join_type,
            join_condition: self.join_condition.deep_view(),
            approximate: self.approximate,
        }
    }
}

/// How severe an analysis issue is.
#[derive(Debug, Clone, Copy, PartialEq, Eq, Structural)]
pub enum Severity {
    Error,
    Warning,
    Info,
}

/// A diagnostic produced during analysis.
#[derive(Debug)]
pub struct Issue {
    pub severity: Severity,
    pub code: String,
    pub message: String,
    pub span: Option<Span>,
    pub statement_index: Option<usize>,
}

/// Where a global node or edge occurs: a statement, and the node there.
#[derive(Debug)]
pub struct StatementRef {
    pub statement_index: usize,
    pub node_id: Option<String>,
}

impl DeepView for StatementRef {
    type V = (usize, Option<Seq<char>>);

    open spec fn deep_view(&self) -> (usize, Option<Seq<char>>) {
        (self.statement_index, self.node_id.deep_view())
    }
}

/// A node of the lineage graph across all statements of a request.
#[derive(Debug)]
pub struct GlobalNode {
    pub id: String,
    pub node_type: NodeType,
    pub label: String,
    pub statement_refs: Vec<StatementRef>,
    pub resolution_source: Option<ResolutionSource>,
}

/// The value of a global node.
pub struct GlobalNodeView {
    pub id: Seq<char>,
    pub node_type: NodeType,
    pub label: Seq<char>,
    pub statement_refs: Seq<(usize, Option<Seq<char>>)>,
    pub resolution_source: Option<ResolutionSource>,
}

impl DeepView for GlobalNode {
    type V = GlobalNodeView;

    open spec fn deep_view(&self) -> GlobalNodeView {
        GlobalNodeView {
            id: self.id@,
            node_type: self.node_type,
            label: self.label@,
            statement_refs: self.statement_refs.deep_view(),
            resolution_source: self.resolution_source,
        }
    }
}

/// An edge of the lineage graph across all statements of a request.
#[derive(Debug)]
pub struct GlobalEdge {
    pub id: String,
    pub from: String,
    pub to: String,
    pub edge_type: EdgeType,
    pub producer_statement: Option<StatementRef>,
}

impl StatementRef {
    /// A copy of this reference.
    pub fn duplicate(&self) -> (r: StatementRef)
        ensures
            r.deep_view() == self.deep_view(),
    {
        StatementRef {
            statement_index: self.statement_index,
            node_id: match &self.node_id {
                Some(n) => Some(n.clone()),
                None => None,
            },
        }
    }
}

/// The value of a global edge.
pub struct GlobalEdgeView {
    pub id: Seq<char>,
    pub from: Seq<char>,
    pub to: Seq<char>,
    pub edge_type: EdgeType,
    pub producer_statement: Option<(usize, Option<Seq<char>>)>,
}

impl DeepView for GlobalEdge {
    type V = GlobalEdgeView;

    open spec fn deep_view(&self) -> GlobalEdgeView {
        GlobalEdgeView {
            id: self.id@,
            from: self.from@,
            to: self.to@,
            edge_type: self.edge_type,
            producer_statement: self.producer_statement.deep_view(),
        }
    }
}

impl GlobalEdge {
    /// A copy of this edge.
    pub fn duplicate(&self) -> (r: GlobalEdge)
        ensures
            r.deep_view() == self.deep_view(),
    {
        GlobalEdge {
            id: self.id.clone(),
            from: self.from.clone(),
            to: self.to.clone(),
            edge_type: self.edge_type,
            producer_statement: match &self.producer_statement {
                Some(p) => Some(p.duplicate()),
                None => None,
            },
        }
    }
}

/// The lineage graph across all statements of a request.
#[derive(Debug)]
pub struct GlobalLineage {
    pub nodes: Vec<GlobalNode>,
    pub edges: Vec<GlobalEdge>,
}

/// The lineage graph of one statement.
#[derive(Debug)]
pub struct StatementLineage {
    pub statement_index: usize,
    pub nodes: Vec<Node>,
    pub edges: Vec<Edge>,
    /// The number of joins in the statement.
    pub join_count: usize,
}

/// Issue counts by severity.
#[derive(Debug, Clone, Copy, PartialEq, Eq, Structural)]
pub struct IssueCount {
    pub errors: usize,
    pub warnings: usize,
    pub infos: usize,
}

/// Project-level figures of an analysis.
#[derive(Debug, Clone, Copy, PartialEq, Eq, Structural)]
pub struct Summary {
    pub statement_count: usize,
    /// Tables, views and CTEs together.
    pub table_count: usize,
    pub column_count: usize,
    pub join_count: usize,
    pub complexity_score: u8,
    pub issue_count: IssueCount,
    pub has_errors: bool,
}

} // verus!
