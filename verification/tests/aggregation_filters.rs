use flowscope_core::analyzer::aggregation::{GroupKey, GroupKeyKind};
use flowscope_core::analyzer::context::StatementContext;
use flowscope_core::analyzer::expression::{ExpressionAnalyzer, FunctionArg, FunctionArgs, PairKind, SqlExpr, WrapKind};
use flowscope_core::analyzer::filters::SqlPredicate;
use flowscope_core::analyzer::{AnalyzeRequest, Analyzer, SchemaColumn, SchemaOrigin, SchemaTable};
use flowscope_core::collections::KeyMap;
use flowscope_core::types::{Edge, EdgeType, FilterClauseType, GlobalEdge, Node, NodeType, Severity};
use flowscope_core::Dialect;

fn analyzer(dialect: Dialect) -> Analyzer {
    Analyzer {
        request: AnalyzeRequest { sql: String::new(), dialect, template_mode: None },
        column_lineage_enabled: true,
        issues: Vec::new(),
        statement_lineages: Vec::new(),
        schema: KeyMap::new(),
    }
}

fn schema_table(columns: &[&str]) -> SchemaTable {
    SchemaTable {
        columns: columns.iter().map(|n| SchemaColumn { name: n.to_string(), data_type: None }).collect(),
        origin: SchemaOrigin::Imported,
    }
}

fn ident(name: &str) -> SqlExpr {
    SqlExpr::Identifier(name.to_string())
}

fn compound(parts: &[&str]) -> SqlExpr {
    SqlExpr::CompoundIdentifier(parts.iter().map(|p| p.to_string()).collect())
}

fn call(name: &str, args: Vec<SqlExpr>, distinct: bool) -> SqlExpr {
    SqlExpr::Function(name.to_string(), FunctionArgs::List(args.into_iter().map(FunctionArg::Expr).collect(), distinct))
}

fn key(kind: GroupKeyKind, text: &str) -> GroupKey {
    GroupKey { kind, text: text.to_string() }
}

fn leaf(expr: SqlExpr, text: &str) -> SqlPredicate {
    SqlPredicate::Leaf(expr, text.to_string())
}

fn and(l: SqlPredicate, r: SqlPredicate) -> SqlPredicate {
    SqlPredicate::And(Box::new(l), Box::new(r))
}

fn eq(l: SqlExpr, r: SqlExpr) -> SqlExpr {
    SqlExpr::Pair(PairKind::BinaryOp, Box::new(l), Box::new(r))
}

fn two_table_scope() -> StatementContext {
    let mut ctx = StatementContext::new(0);
    ctx.push_scope();
    ctx.register_table_in_scope("users".to_string(), "table:users".to_string());
    ctx.register_table_in_scope("orders".to_string(), "table:orders".to_string());
    ctx.register_alias_in_scope("u".to_string(), "users".to_string());
    ctx.register_alias_in_scope("o".to_string(), "orders".to_string());
    ctx.register_alias_instance("u".to_string(), "users".to_string(), "table:users".to_string());
    ctx.register_alias_instance("o".to_string(), "orders".to_string(), "table:orders".to_string());
    ctx
}

#[test]
fn group_keys_normalize_identifiers_and_unwrap_parentheses() {
    let mut a = analyzer(Dialect::Postgres);
    let mut ctx = StatementContext::new(0);
    let ea = ExpressionAnalyzer::new(&mut a, &mut ctx);
    assert_eq!(ea.normalize_group_by_expr(&key(GroupKeyKind::Identifier("Region".to_string()), "Region")), "region");
    assert_eq!(
        ea.normalize_group_by_expr(&key(
            GroupKeyKind::CompoundIdentifier(vec!["T".to_string(), "Region".to_string()]),
            "T.Region"
        )),
        "t.region"
    );
    let nested = key(GroupKeyKind::Nested(Box::new(key(GroupKeyKind::Identifier("Col".to_string()), "Col"))), "(Col)");
    assert_eq!(ea.normalize_group_by_expr(&nested), "col");
    assert_eq!(ea.normalize_group_by_expr(&key(GroupKeyKind::Other, "UPPER(Name)")), "upper(name)");
}

#[test]
fn aggregates_are_found_inside_expressions() {
    let sum = call("sum", vec![ident("amount")], false);
    let found = ExpressionAnalyzer::find_aggregate_function(&sum, 0).unwrap();
    assert_eq!(found.function, "SUM");
    assert!(!found.distinct);
    let nested = SqlExpr::Wrapped(
        WrapKind::Cast,
        Box::new(eq(ident("x"), call("round", vec![call("count", vec![ident("id")], true)], false))),
    );
    let found = ExpressionAnalyzer::find_aggregate_function(&nested, 0).unwrap();
    assert_eq!(found.function, "COUNT");
    assert!(found.distinct);
    assert!(ExpressionAnalyzer::find_aggregate_function(&call("upper", vec![ident("name")], false), 0).is_none());
    let case = SqlExpr::Case(None, vec![(ident("flag"), call("max", vec![ident("v")], false))], None);
    assert_eq!(ExpressionAnalyzer::find_aggregate_function(&case, 0).unwrap().function, "MAX");
}

#[test]
fn aggregation_prefers_grouping_keys() {
    let mut a = analyzer(Dialect::Generic);
    let mut ctx = StatementContext::new(0);
    ctx.has_group_by = true;
    ctx.add_grouping_column("region".to_string());
    let ea = ExpressionAnalyzer::new(&mut a, &mut ctx);
    let region = ident("region");
    let info = ea.detect_aggregation(&region, &key(GroupKeyKind::Identifier("region".to_string()), "region")).unwrap();
    assert!(info.is_grouping_key);
    assert!(info.function.is_none());
    let total = call("sum", vec![ident("amount")], true);
    let info = ea.detect_aggregation(&total, &key(GroupKeyKind::Other, "sum(DISTINCT amount)")).unwrap();
    assert!(!info.is_grouping_key);
    assert_eq!(info.function.as_deref(), Some("SUM"));
    assert_eq!(info.distinct, Some(true));
    assert!(ea.detect_aggregation(&ident("other"), &key(GroupKeyKind::Identifier("other".to_string()), "other")).is_none());
}

#[test]
fn filters_are_localised_per_table() {
    let mut a = analyzer(Dialect::Generic);
    a.schema.insert("users".to_string(), schema_table(&["id", "active"]));
    a.schema.insert("orders".to_string(), schema_table(&["id", "total"]));
    let mut ctx = two_table_scope();
    let predicate = and(
        and(leaf(eq(ident("active"), SqlExpr::Other), "active = TRUE"), leaf(eq(compound(&["o", "id"]), compound(&["u", "id"])), "o.id = u.id")),
        leaf(eq(compound(&["o", "total"]), SqlExpr::Other), "o.total > 10"),
    );
    a.capture_filter_predicates(&mut ctx, &predicate, FilterClauseType::Where);
    let users = ctx.pending_filters.get(&"users".to_string()).unwrap();
    assert_eq!(users.len(), 1);
    assert_eq!(users[0].expression, "active = TRUE");
    assert_eq!(users[0].clause_type, FilterClauseType::Where);
    let orders = ctx.pending_instance_filters.get(&"table:orders".to_string()).unwrap();
    assert_eq!(orders.len(), 1);
    assert_eq!(orders[0].expression, "o.total > 10");
    assert!(ctx.pending_filters.get(&"orders".to_string()).is_none());
    assert!(a.issues.is_empty());
}

#[test]
fn unresolvable_filter_columns_warn_and_fall_back_to_the_only_table() {
    let mut a = analyzer(Dialect::Generic);
    let mut ctx = two_table_scope();
    a.capture_filter_predicates(&mut ctx, &leaf(eq(ident("status"), SqlExpr::Other), "status = 'x'"), FilterClauseType::Having);
    assert!(ctx.pending_filters.get(&"users".to_string()).is_none());
    assert_eq!(a.issues.len(), 1);
    assert_eq!(a.issues[0].severity, Severity::Warning);
    let mut single = StatementContext::new(0);
    single.push_scope();
    single.register_table_in_scope("users".to_string(), "table:users".to_string());
    let mut b = analyzer(Dialect::Generic);
    b.capture_filter_predicates(&mut single, &leaf(eq(ident("status"), SqlExpr::Other), "status = 'x'"), FilterClauseType::Where);
    assert_eq!(single.pending_filters.get(&"users".to_string()).unwrap()[0].expression, "status = 'x'");
}

fn lineage(index: usize, nodes: Vec<flowscope_core::types::Node>, edges: Vec<flowscope_core::types::Edge>) -> flowscope_core::types::StatementLineage {
    flowscope_core::types::StatementLineage { statement_index: index, nodes, edges, join_count: 0 }
}

#[test]
fn statement_graphs_merge_by_canonical_name() {
    let a = analyzer(Dialect::Generic);
    let s0 = lineage(
        0,
        vec![
            Node::basic("table:e1".to_string(), NodeType::Table, "employees".to_string(), Some("hr.employees".to_string())),
            Node::basic("table:e2".to_string(), NodeType::Table, "employees".to_string(), Some("hr.employees".to_string())),
            Node::basic("output:0".to_string(), NodeType::Output, "Output".to_string(), None),
        ],
        vec![
            Edge::basic("edge:table:e1->output:0".to_string(), "table:e1".to_string(), "output:0".to_string(), EdgeType::DataFlow),
            Edge::basic("edge:table:e2->output:0".to_string(), "table:e2".to_string(), "output:0".to_string(), EdgeType::DataFlow),
            Edge::basic("edge:x->y".to_string(), "gone".to_string(), "output:0".to_string(), EdgeType::DataFlow),
        ],
    );
    let s1 = lineage(
        1,
        vec![Node::basic("table:x".to_string(), NodeType::Table, "employees".to_string(), Some("hr.employees".to_string()))],
        vec![],
    );
    let cross = vec![GlobalEdge {
        id: "cross".to_string(),
        from: "table:hr.employees".to_string(),
        to: "output:0".to_string(),
        edge_type: EdgeType::CrossStatement,
        producer_statement: None,
    }];
    let g = a.build_global_lineage_from(&vec![s0, s1], cross);
    let ids: Vec<&str> = g.nodes.iter().map(|n| n.id.as_str()).collect();
    assert_eq!(ids, vec!["table:hr.employees", "output:0"]);
    assert_eq!(g.nodes[0].statement_refs.len(), 3);
    assert_eq!(g.nodes[0].statement_refs[2].statement_index, 1);
    assert_eq!(g.nodes[0].statement_refs[2].node_id.as_deref(), Some("table:x"));
    assert_eq!(g.edges.len(), 2);
    assert_eq!(g.edges[0].from, "table:hr.employees");
    assert_eq!(g.edges[1].edge_type, EdgeType::CrossStatement);
}

#[test]
fn statement_edges_reach_the_project_graph_once_per_endpoints_and_kind() {
    let a = analyzer(Dialect::Generic);
    let s0 = lineage(
        0,
        vec![
            Node::basic("table:a".to_string(), NodeType::Table, "Orders".to_string(), Some("shop.orders".to_string())),
            Node::basic("output:0".to_string(), NodeType::Output, "Output".to_string(), None),
        ],
        vec![Edge::basic("e0".to_string(), "table:a".to_string(), "output:0".to_string(), EdgeType::DataFlow)],
    );
    let s1 = lineage(
        1,
        vec![
            Node::basic("table:b".to_string(), NodeType::Table, "orders_alias".to_string(), Some("shop.orders".to_string())),
            Node::basic("output:0".to_string(), NodeType::Output, "Output (2)".to_string(), None),
            Node::basic("output:1".to_string(), NodeType::Output, "Output (2)".to_string(), None),
        ],
        vec![
            Edge::basic("e1".to_string(), "table:b".to_string(), "output:0".to_string(), EdgeType::DataFlow),
            Edge::basic("e2".to_string(), "table:b".to_string(), "output:1".to_string(), EdgeType::DataFlow),
            Edge::basic("e3".to_string(), "table:b".to_string(), "output:1".to_string(), EdgeType::Derivation),
        ],
    );
    let g = a.build_global_lineage_from(&vec![s0, s1], Vec::new());
    let ids: Vec<&str> = g.nodes.iter().map(|n| n.id.as_str()).collect();
    assert_eq!(ids, vec!["table:shop.orders", "output:0", "output:1"]);
    assert_eq!(g.nodes[0].label, "Orders");
    assert_eq!(g.nodes[1].label, "Output");
    let edges: Vec<(&str, &str, &str, EdgeType, usize)> = g
        .edges
        .iter()
        .map(|e| (e.id.as_str(), e.from.as_str(), e.to.as_str(), e.edge_type, e.producer_statement.as_ref().unwrap().statement_index))
        .collect();
    assert_eq!(
        edges,
        vec![
            ("e0", "table:shop.orders", "output:0", EdgeType::DataFlow, 0),
            ("e2", "table:shop.orders", "output:1", EdgeType::DataFlow, 1),
            ("e3", "table:shop.orders", "output:1", EdgeType::Derivation, 1),
        ]
    );
}
