//! Project-level results: the summary figures and the complexity score.

use vstd::prelude::*;

use super::Analyzer;
use crate::types::{
    EdgeType, GlobalLineage, GlobalNode, Issue, IssueCount, Node, NodeType, Severity,
    StatementLineage, Summary,
};

verus! {

/// The weight of a table in the complexity score.
pub const TABLE_WEIGHT: usize = 5;

/// The weight of a CTE in the complexity score.
pub const CTE_WEIGHT: usize = 8;

/// The weight of a join in the complexity score.
pub const JOIN_WEIGHT: usize = 10;

/// The weight of a filter predicate in the complexity score.
pub const FILTER_WEIGHT: usize = 2;

/// The weighted sum the complexity score is clamped from.
pub open spec fn raw_complexity(tables: nat, ctes: nat, joins: nat, filters: nat) -> nat {
    tables * 5 + ctes * 8 + joins * 10 + filters * 2
}

/// The project-level complexity score: the weighted sum clamped to `1..=100`.
pub open spec fn global_complexity(tables: nat, ctes: nat, joins: nat, filters: nat) -> int {
    let raw = raw_complexity(tables, ctes, joins, filters);
    if raw < 1 {
        1
    } else if raw > 100 {
        100
    } else {
        raw as int
    }
}

/// Calculate complexity score for project-level summary.
///
/// Returns a score from 1-100 based on structural complexity indicators.
/// The weights reflect typical query maintenance and comprehension burden:
/// - Tables (5): Base data sources add moderate complexity
/// - CTEs (8): Higher than tables since they introduce intermediate logic
/// - Joins (10): Highest weight as joins significantly increase query complexity
/// - Filters (2): Low weight since WHERE clauses are straightforward but add
///   some cognitive load when numerous
pub fn calculate_global_complexity(table_count: usize, cte_count: usize, join_count: usize, filter_count: usize) -> (r: u8)
    requires
        raw_complexity(table_count as nat, cte_count as nat, join_count as nat, filter_count as nat) <= usize::MAX,
    ensures
        r == global_complexity(table_count as nat, cte_count as nat, join_count as nat, filter_count as nat),
        1 <= r <= 100,
{
    let raw_score = table_count * TABLE_WEIGHT + cte_count * CTE_WEIGHT + join_count * JOIN_WEIGHT
        + filter_count * FILTER_WEIGHT;
    if raw_score < 1 {
        1
    } else if raw_score > 100 {
        100
    } else {
        raw_score as u8
    }
}

/// The complexity score never decreases when any of the counts grows.
pub proof fn law_global_complexity_monotone(
    tables: nat,
    ctes: nat,
    joins: nat,
    filters: nat,
    tables2: nat,
    ctes2: nat,
    joins2: nat,
    filters2: nat,
)
    requires
        tables <= tables2,
        ctes <= ctes2,
        joins <= joins2,
        filters <= filters2,
    ensures
        global_complexity(tables, ctes, joins, filters) <= global_complexity(tables2, ctes2, joins2, filters2),
{
    assert(tables * 5 <= tables2 * 5) by (nonlinear_arith)
        requires
            tables <= tables2,
    ;
    assert(ctes * 8 <= ctes2 * 8) by (nonlinear_arith)
        requires
            ctes <= ctes2,
    ;
    assert(joins * 10 <= joins2 * 10) by (nonlinear_arith)
        requires
            joins <= joins2,
    ;
    assert(filters * 2 <= filters2 * 2) by (nonlinear_arith)
        requires
            filters <= filters2,
    ;
}

/// The number of issues of severity `severity`.
pub open spec fn count_severity(issues: Seq<Issue>, severity: Severity) -> nat
    decreases issues.len(),
{
    if issues.len() == 0 {
        0
    } else {
        count_severity(issues.drop_last(), severity) + if issues.last().severity == severity {
            1nat
        } else {
            0nat
        }
    }
}

/// The number of global nodes of type `node_type`.
pub open spec fn count_node_type(nodes: Seq<GlobalNode>, node_type: NodeType) -> nat
    decreases nodes.len(),
{
    if nodes.len() == 0 {
        0
    } else {
        count_node_type(nodes.drop_last(), node_type) + if nodes.last().node_type == node_type {
            1nat
        } else {
            0nat
        }
    }
}

/// The number of global nodes that are tables or views.
pub open spec fn count_tables_and_views(nodes: Seq<GlobalNode>) -> nat
    decreases nodes.len(),
{
    if nodes.len() == 0 {
        0
    } else {
        count_tables_and_views(nodes.drop_last()) + if nodes.last().node_type.spec_is_table_or_view() {
            1nat
        } else {
            0nat
        }
    }
}

/// The joins of all statements together.
pub open spec fn total_joins(lineages: Seq<StatementLineage>) -> nat
    decreases lineages.len(),
{
    if lineages.len() == 0 {
        0
    } else {
        total_joins(lineages.drop_last()) + lineages.last().join_count as nat
    }
}

/// The filter predicates on `nodes` together.
pub open spec fn node_filters(nodes: Seq<Node>) -> nat
    decreases nodes.len(),
{
    if nodes.len() == 0 {
        0
    } else {
        node_filters(nodes.drop_last()) + nodes.last().filters@.len()
    }
}

/// The filter predicates on the nodes of all statements together.
pub open spec fn total_filters(lineages: Seq<StatementLineage>) -> nat
    decreases lineages.len(),
{
    if lineages.len() == 0 {
        0
    } else {
        total_filters(lineages.drop_last()) + node_filters(lineages.last().nodes@)
    }
}

proof fn lemma_count_severity_bound(issues: Seq<Issue>, severity: Severity)
    ensures
        count_severity(issues, severity) <= issues.len(),
    decreases issues.len(),
{
    if issues.len() > 0 {
        lemma_count_severity_bound(issues.drop_last(), severity);
    }
}

proof fn lemma_count_node_type_bound(nodes: Seq<GlobalNode>, node_type: NodeType)
    ensures
        count_node_type(nodes, node_type) <= nodes.len(),
        count_tables_and_views(nodes) <= nodes.len(),
        count_tables_and_views(nodes) + count_node_type(nodes, NodeType::Cte) <= nodes.len(),
    decreases nodes.len(),
{
    if nodes.len() > 0 {
        lemma_count_node_type_bound(nodes.drop_last(), node_type);
    }
}

proof fn lemma_total_joins_prefix(lineages: Seq<StatementLineage>, i: int)
    requires
        0 <= i <= lineages.len(),
    ensures
        total_joins(lineages.take(i)) <= total_joins(lineages),
    decreases lineages.len(),
{
    if i < lineages.len() {
        assert(lineages.drop_last().take(i) =~= lineages.take(i));
        lemma_total_joins_prefix(lineages.drop_last(), i);
    } else {
        assert(lineages.take(i) =~= lineages);
    }
}

proof fn lemma_node_filters_prefix(nodes: Seq<Node>, i: int)
    requires
        0 <= i <= nodes.len(),
    ensures
        node_filters(nodes.take(i)) <= node_filters(nodes),
    decreases nodes.len(),
{
    if i < nodes.len() {
        assert(nodes.drop_last().take(i) =~= nodes.take(i));
        lemma_node_filters_prefix(nodes.drop_last(), i);
    } else {
        assert(nodes.take(i) =~= nodes);
    }
}

proof fn lemma_total_filters_prefix(lineages: Seq<StatementLineage>, i: int)
    requires
        0 <= i <= lineages.len(),
    ensures
        total_filters(lineages.take(i)) <= total_filters(lineages),
    decreases lineages.len(),
{
    if i < lineages.len() {
        assert(lineages.drop_last().take(i) =~= lineages.take(i));
        lemma_total_filters_prefix(lineages.drop_last(), i);
    } else {
        assert(lineages.take(i) =~= lineages);
    }
}

/// The summary of an analysis whose issues, statements and global graph are given.
pub open spec fn summary_of(
    issues: Seq<Issue>,
    lineages: Seq<StatementLineage>,
    nodes: Seq<GlobalNode>,
) -> Summary {
    let tables = count_tables_and_views(nodes);
    let ctes = count_node_type(nodes, NodeType::Cte);
    let errors = count_severity(issues, Severity::Error);
    Summary {
        statement_count: lineages.len() as usize,
        table_count: (tables + ctes) as usize,
        column_count: count_node_type(nodes, NodeType::Column) as usize,
        join_count: total_joins(lineages) as usize,
        complexity_score: global_complexity(tables, ctes, total_joins(lineages), total_filters(lineages)) as u8,
        issue_count: IssueCount {
            errors: errors as usize,
            warnings: count_severity(issues, Severity::Warning) as usize,
            infos: count_severity(issues, Severity::Info) as usize,
        },
        has_errors: errors > 0,
    }
}

/// Whether the figures of a summary fit in machine integers.
pub open spec fn summary_fits(lineages: Seq<StatementLineage>, nodes: Seq<GlobalNode>) -> bool {
    &&& total_joins(lineages) <= usize::MAX
    &&& total_filters(lineages) <= usize::MAX
    &&& raw_complexity(
        count_tables_and_views(nodes),
        count_node_type(nodes, NodeType::Cte),
        total_joins(lineages),
        total_filters(lineages),
    ) <= usize::MAX
}

fn count_issues(issues: &Vec<Issue>, severity: Severity) -> (r: usize)
    ensures
        r == count_severity(issues@, severity),
{
    let mut n: usize = 0;
    let mut i: usize = 0;
    while i < issues.len()
        invariant
            0 <= i <= issues@.len(),
            n == count_severity(issues@.take(i as int), severity),
        decreases issues@.len() - i,
    {
        proof {
            assert(issues@.take(i + 1).drop_last() =~= issues@.take(i as int));
            lemma_count_severity_bound(issues@.take(i as int), severity);
        }
        if issues[i].severity == severity {
            n = n + 1;
        }
        i = i + 1;
    }
    assert(issues@.take(i as int) =~= issues@);
    n
}

fn count_global_nodes(nodes: &Vec<GlobalNode>) -> (r: (usize, usize, usize))
    ensures
        r.0 == count_tables_and_views(nodes@),
        r.1 == count_node_type(nodes@, NodeType::Cte),
        r.2 == count_node_type(nodes@, NodeType::Column),
{
    let mut tables: usize = 0;
    let mut ctes: usize = 0;
    let mut columns: usize = 0;
    let mut i: usize = 0;
    while i < nodes.len()
        invariant
            0 <= i <= nodes@.len(),
            tables == count_tables_and_views(nodes@.take(i as int)),
            ctes == count_node_type(nodes@.take(i as int), NodeType::Cte),
            columns == count_node_type(nodes@.take(i as int), NodeType::Column),
        decreases nodes@.len() - i,
    {
        proof {
            assert(nodes@.take(i + 1).drop_last() =~= nodes@.take(i as int));
            lemma_count_node_type_bound(nodes@.take(i as int), NodeType::Cte);
            lemma_count_node_type_bound(nodes@.take(i as int), NodeType::Column);
        }
        if nodes[i].node_type.is_table_or_view() {
            tables = tables + 1;
        }
        if nodes[i].node_type == NodeType::Cte {
            ctes = ctes + 1;
        }
        if nodes[i].node_type == NodeType::Column {
            columns = columns + 1;
        }
        i = i + 1;
    }
    assert(nodes@.take(i as int) =~= nodes@);
    (tables, ctes, columns)
}

fn sum_node_filters(nodes: &Vec<Node>) -> (r: usize)
    requires
        node_filters(nodes@) <= usize::MAX,
    ensures
        r == node_filters(nodes@),
{
    let mut n: usize = 0;
    let mut i: usize = 0;
    while i < nodes.len()
        invariant
            0 <= i <= nodes@.len(),
            node_filters(nodes@) <= usize::MAX,
            n == node_filters(nodes@.take(i as int)),
        decreases nodes@.len() - i,
    {
        proof {
            assert(nodes@.take(i + 1).drop_last() =~= nodes@.take(i as int));
            lemma_node_filters_prefix(nodes@, i + 1);
        }
        n = n + nodes[i].filters.len();
        i = i + 1;
    }
    assert(nodes@.take(i as int) =~= nodes@);
    n
}

impl Analyzer {
    /// How edges are told apart when the statement graphs are merged.
    pub fn global_edge_kind(edge_type: EdgeType) -> (r: &'static str)
        ensures
            r@ == match edge_type {
                EdgeType::Ownership => "ownership"@,
                EdgeType::DataFlow => "data_flow"@,
                EdgeType::Derivation => "derivation"@,
                EdgeType::JoinDependency => "join_dependency"@,
                EdgeType::CrossStatement => "cross_statement"@,
            },
    {
        match edge_type {
            EdgeType::Ownership => "ownership",
            EdgeType::DataFlow => "data_flow",
            EdgeType::Derivation => "derivation",
            EdgeType::JoinDependency => "join_dependency",
            EdgeType::CrossStatement => "cross_statement",
        }
    }

    /// The project-level summary: statement, relation, column and join counts, the
    /// complexity score and the issue counts by severity.
    pub fn build_summary(&self, global_lineage: &GlobalLineage) -> (r: Summary)
        requires
            summary_fits(self.statement_lineages@, global_lineage.nodes@),
        ensures
            r == summary_of(self.issues@, self.statement_lineages@, global_lineage.nodes@),
    {
        let error_count = count_issues(&self.issues, Severity::Error);
        let warning_count = count_issues(&self.issues, Severity::Warning);
        let info_count = count_issues(&self.issues, Severity::Info);
        let (table_count, cte_count, column_count) = count_global_nodes(&global_lineage.nodes);
        proof {
            lemma_count_node_type_bound(global_lineage.nodes@, NodeType::Cte);
        }
        let ghost ls = self.statement_lineages@;
        let mut join_count: usize = 0;
        let mut filter_count: usize = 0;
        let mut i: usize = 0;
        while i < self.statement_lineages.len()
            invariant
                ls == self.statement_lineages@,
                0 <= i <= ls.len(),
                summary_fits(ls, global_lineage.nodes@),
                join_count == total_joins(ls.take(i as int)),
                filter_count == total_filters(ls.take(i as int)),
            decreases ls.len() - i,
        {
            proof {
                assert(ls.take(i + 1).drop_last() =~= ls.take(i as int));
                lemma_total_joins_prefix(ls, i + 1);
                lemma_total_filters_prefix(ls, i + 1);
                lemma_total_filters_prefix(ls.take(i + 1), i as int);
            }
            join_count = join_count + self.statement_lineages[i].join_count;
            let node_count = sum_node_filters(&self.statement_lineages[i].nodes);
            filter_count = filter_count + node_count;
            i = i + 1;
        }
        assert(ls.take(i as int) =~= ls);
        let complexity_score = calculate_global_complexity(table_count, cte_count, join_count, filter_count);
        Summary {
            statement_count: self.statement_lineages.len(),
            table_count: table_count + cte_count,
            column_count,
            join_count,
            complexity_score,
            issue_count: IssueCount { errors: error_count, warnings: warning_count, infos: info_count },
            has_errors: error_count > 0,
        }
    }
}

} // verus!
