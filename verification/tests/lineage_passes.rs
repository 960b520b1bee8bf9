use flowscope_core::analyzer::context::{JoinInfo, OutputColumn, PendingWildcard, StatementContext};
use flowscope_core::analyzer::expression::ExpressionAnalyzer;
use flowscope_core::analyzer::global::calculate_global_complexity;
use flowscope_core::analyzer::query::{ExpandedColumnInfo, MAX_INFERENCE_DEPTH};
use flowscope_core::analyzer::statements::extract_model_name;
use flowscope_core::analyzer::visitor::LineageVisitor;
use flowscope_core::analyzer::{
    AnalyzeRequest, Analyzer, SchemaColumn, SchemaOrigin, SchemaTable, TemplateMode,
};
use flowscope_core::collections::KeyMap;
use flowscope_core::types::{
    Edge, EdgeType, FilterClauseType, GlobalLineage, GlobalNode, Issue, JoinType, Node,
    NodeMetadata, NodeType, ResolutionSource, Severity, StatementLineage,
};
use flowscope_core::Dialect;

fn analyzer(dialect: Dialect) -> Analyzer {
    Analyzer {
        request: AnalyzeRequest { sql: String::new(), dialect, template_mode: None },
        column_lineage_enabled: true,
        issues: Vec::new(),
        statement_lineages: Vec::new(),
        schema: KeyMap::new(),
    }
}

fn node(id: &str, node_type: NodeType, label: &str, qualified: Option<&str>) -> Node {
    Node::basic(id.to_string(), node_type, label.to_string(), qualified.map(|q| q.to_string()))
}

fn edge(from: &str, to: &str, edge_type: EdgeType) -> Edge {
    Edge::basic(format!("edge:{from}->{to}"), from.to_string(), to.to_string(), edge_type)
}

fn schema_table(columns: &[(&str, Option<&str>)]) -> SchemaTable {
    SchemaTable {
        columns: columns
            .iter()
            .map(|(n, t)| SchemaColumn { name: n.to_string(), data_type: t.map(|s| s.to_string()) })
            .collect(),
        origin: SchemaOrigin::Imported,
    }
}

#[test]
fn model_names_from_dbt_paths() {
    assert_eq!(extract_model_name("models/staging/stg_customers.sql"), "stg_customers");
    assert_eq!(extract_model_name("models\\marts\\orders.sql.jinja"), "orders");
    assert_eq!(extract_model_name("dir/sub\\inner.sql"), "inner");
    assert_eq!(extract_model_name("plain"), "plain");
    assert_eq!(extract_model_name("notes/readme.txt"), "readme.txt");
    assert_eq!(extract_model_name("trailing/"), "");
}

#[test]
fn dbt_mode_follows_the_template_mode() {
    let mut a = analyzer(Dialect::Generic);
    assert!(!a.is_dbt_mode());
    a.request.template_mode = Some(TemplateMode::Jinja);
    assert!(!a.is_dbt_mode());
    a.request.template_mode = Some(TemplateMode::Dbt);
    assert!(a.is_dbt_mode());
}

#[test]
fn join_operations_label_edges() {
    assert_eq!(Analyzer::join_type_to_operation(Some(JoinType::Left)), Some("LEFT_JOIN".to_string()));
    assert_eq!(Analyzer::join_type_to_operation(Some(JoinType::AsOf)), Some("AS_OF_JOIN".to_string()));
    assert_eq!(Analyzer::join_type_to_operation(None), None);
}

#[test]
fn join_info_reaches_edges_from_joined_tables_and_their_columns() {
    let mut ctx = StatementContext::new(0);
    ctx.add_edge(edge("table:u", "column:table:u.id", EdgeType::Ownership));
    ctx.add_edge(edge("column:table:u.id", "column:out.id", EdgeType::DataFlow));
    ctx.add_edge(edge("table:u", "output:0", EdgeType::DataFlow));
    ctx.add_edge(edge("table:t", "output:0", EdgeType::DataFlow));
    ctx.joined_table_info.insert(
        "table:u".to_string(),
        JoinInfo { join_type: Some(JoinType::Left), join_condition: Some("t.id = u.id".to_string()) },
    );
    Analyzer::propagate_join_info_to_edges(&mut ctx);
    assert_eq!(ctx.edges[0].join_type, None);
    assert_eq!(ctx.edges[1].join_type, Some(JoinType::Left));
    assert_eq!(ctx.edges[1].join_condition.as_deref(), Some("t.id = u.id"));
    assert_eq!(ctx.edges[2].join_type, Some(JoinType::Left));
    assert_eq!(ctx.edges[3].join_type, None);
    // A second pass changes nothing.
    Analyzer::propagate_join_info_to_edges(&mut ctx);
    assert_eq!(ctx.edges[1].join_type, Some(JoinType::Left));
    assert_eq!(ctx.edges[3].join_condition, None);
}

#[test]
fn joined_relation_without_columns_gets_a_dependency_edge() {
    let a = analyzer(Dialect::Generic);
    let mut ctx = StatementContext::new(0);
    ctx.add_node(node("table:t", NodeType::Table, "t", Some("t")));
    ctx.add_node(node("table:u", NodeType::Table, "u", Some("u")));
    let out = ctx.ensure_output_node_with_model(None);
    ctx.add_edge(edge(&out, "column:out.id", EdgeType::Ownership));
    ctx.add_edge(edge("table:t", "column:t.id", EdgeType::Ownership));
    ctx.add_edge(edge("column:t.id", "column:out.id", EdgeType::DataFlow));
    ctx.joined_table_info.insert(
        "table:u".to_string(),
        JoinInfo { join_type: Some(JoinType::Inner), join_condition: Some("t.id = u.id".to_string()) },
    );
    ctx.joined_table_info.insert("table:t".to_string(), JoinInfo { join_type: Some(JoinType::Inner), join_condition: None });
    a.add_join_dependency_edges(&mut ctx);
    let deps: Vec<&Edge> = ctx.edges.iter().filter(|e| e.edge_type == EdgeType::JoinDependency).collect();
    assert_eq!(deps.len(), 1);
    assert_eq!(deps[0].from, "table:u");
    assert_eq!(deps[0].to, out);
    assert_eq!(deps[0].id, "edge:join_dependency:table:u:Some(Inner):t.id = u.id->output:0");
    assert_eq!(deps[0].join_condition.as_deref(), Some("t.id = u.id"));
    let count = ctx.edges.len();
    a.add_join_dependency_edges(&mut ctx);
    assert_eq!(ctx.edges.len(), count);
}

#[test]
fn no_dependency_edges_without_output_lineage() {
    let a = analyzer(Dialect::Generic);
    let mut ctx = StatementContext::new(0);
    ctx.add_node(node("table:u", NodeType::Table, "u", Some("u")));
    ctx.ensure_output_node_with_model(None);
    ctx.joined_table_info.insert("table:u".to_string(), JoinInfo { join_type: Some(JoinType::Left), join_condition: None });
    a.add_join_dependency_edges(&mut ctx);
    assert!(ctx.edges.is_empty());
    let mut table_level = analyzer(Dialect::Generic);
    table_level.column_lineage_enabled = false;
    table_level.add_join_dependency_edges(&mut ctx);
    assert_eq!(ctx.edges.len(), 1);
    assert_eq!(ctx.edges[0].id, "edge:join_dependency:table:u:Some(Left):->output:0");
}

#[test]
fn reused_node_records_join_metadata_once() {
    let a = analyzer(Dialect::Generic);
    let mut ctx = StatementContext::new(0);
    a.apply_join_metadata_to_existing_node(&mut ctx, &"cte:x".to_string());
    assert_eq!(ctx.joined_table_info.len(), 0);
    ctx.current_join_info = JoinInfo { join_type: Some(JoinType::Right), join_condition: None };
    a.apply_join_metadata_to_existing_node(&mut ctx, &"cte:x".to_string());
    ctx.current_join_info = JoinInfo { join_type: Some(JoinType::Full), join_condition: None };
    a.apply_join_metadata_to_existing_node(&mut ctx, &"cte:x".to_string());
    assert_eq!(ctx.joined_table_info.get(&"cte:x".to_string()).map(|j| j.join_type), Some(Some(JoinType::Right)));
}

#[test]
fn source_edges_carry_operation_and_join() {
    let a = analyzer(Dialect::Generic);
    let mut ctx = StatementContext::new(0);
    a.create_source_edge(&mut ctx, &"table:t".to_string(), None);
    assert!(ctx.edges.is_empty());
    ctx.last_operation = Some("INSERT".to_string());
    ctx.current_join_info = JoinInfo { join_type: Some(JoinType::Cross), join_condition: None };
    a.create_source_edge(&mut ctx, &"table:t".to_string(), Some("table:target"));
    a.create_source_edge(&mut ctx, &"table:t".to_string(), Some("table:target"));
    assert_eq!(ctx.edges.len(), 1);
    assert_eq!(ctx.edges[0].id, "edge:table:t->table:target");
    assert_eq!(ctx.edges[0].edge_type, EdgeType::DataFlow);
    assert_eq!(ctx.edges[0].operation.as_deref(), Some("INSERT"));
    assert_eq!(ctx.edges[0].join_type, Some(JoinType::Cross));
}

#[test]
fn qualifier_preference() {
    let a = analyzer(Dialect::Generic);
    assert!(!a.should_prefer_instance_qualifier("public.users", "u", "public.users"));
    assert!(a.should_prefer_instance_qualifier("u", "public.users", "public.users"));
    assert!(a.should_prefer_instance_qualifier("u", "usr", "public.users"));
    assert!(!a.should_prefer_instance_qualifier("usr", "u", "public.users"));
    assert!(a.should_prefer_instance_qualifier("ub", "ua", "public.users"));
    assert!(!a.should_prefer_instance_qualifier("ua", "ub", "public.users"));
    // Lengths count UTF-8 bytes.
    assert!(a.should_prefer_instance_qualifier("abc", "\u{e9}\u{e9}", "t"));
}

#[test]
fn wildcard_expands_each_relation_node_once() {
    let a = analyzer(Dialect::Generic);
    let mut ctx = StatementContext::new(0);
    assert!(a.wildcard_sources_in_current_scope(&ctx).is_empty());
    ctx.push_scope();
    ctx.register_alias_instance("employees".to_string(), "public.employees".to_string(), "table:e1".to_string());
    ctx.register_alias_instance("public.employees".to_string(), "public.employees".to_string(), "table:e1".to_string());
    ctx.register_alias_instance("e2".to_string(), "public.employees".to_string(), "table:e2".to_string());
    ctx.register_alias_instance("boss".to_string(), "public.employees".to_string(), "table:e2".to_string());
    let sources = a.wildcard_sources_in_current_scope(&ctx);
    assert_eq!(
        sources,
        vec![
            ("public.employees".to_string(), "public.employees".to_string()),
            ("public.employees".to_string(), "boss".to_string()),
        ]
    );
}

#[test]
fn pending_filters_reach_instances_and_canonical_matches() {
    let a = analyzer(Dialect::Generic);
    let mut ctx = StatementContext::new(0);
    ctx.add_node(node("table:e1", NodeType::Table, "employees", Some("employees")));
    ctx.add_node(node("table:e2", NodeType::Table, "employees", Some("employees")));
    ctx.add_node(node("table:d", NodeType::Table, "departments", Some("departments")));
    ctx.add_filter_for_table("employees", "active".to_string(), FilterClauseType::Where);
    ctx.add_filter_for_instance(&"table:e2".to_string(), "e2.id > 1".to_string(), FilterClauseType::JoinOn);
    ctx.add_filter_for_instance(&"table:gone".to_string(), "x".to_string(), FilterClauseType::Where);
    a.apply_pending_filters(&mut ctx);
    let exprs = |i: usize| ctx.nodes[i].filters.iter().map(|f| f.expression.clone()).collect::<Vec<_>>();
    assert_eq!(exprs(0), vec!["active".to_string()]);
    assert_eq!(exprs(1), vec!["e2.id > 1".to_string(), "active".to_string()]);
    assert!(exprs(2).is_empty());
    assert_eq!(ctx.pending_filters.len(), 0);
    assert_eq!(ctx.pending_instance_filters.len(), 0);
    a.apply_pending_filters(&mut ctx);
    assert_eq!(ctx.nodes[1].filters.len(), 2);
}

#[test]
fn inference_target_lookup() {
    let a = analyzer(Dialect::Generic);
    let mut ctx = StatementContext::new(0);
    ctx.cte_definitions.insert("recent".to_string(), "cte:recent".to_string());
    ctx.cte_node_to_name.insert("derived:d1".to_string(), "d".to_string());
    assert_eq!(a.lookup_inference_target_node(&ctx, "recent"), Some("cte:recent".to_string()));
    assert_eq!(a.lookup_inference_target_node(&ctx, "d"), Some("derived:d1".to_string()));
    assert_eq!(a.lookup_inference_target_node(&ctx, "none"), None);
}

#[test]
fn owned_columns_follow_ownership_edges() {
    let a = analyzer(Dialect::Generic);
    let mut ctx = StatementContext::new(0);
    ctx.add_node(node("cte:c", NodeType::Cte, "c", Some("c")));
    let mut typed = node("column:cte:c.id", NodeType::Column, "id", None);
    typed.metadata = Some(NodeMetadata { data_type: Some("INTEGER".to_string()), placeholder: false });
    ctx.add_node(typed);
    ctx.add_node(node("column:cte:c.name", NodeType::Column, "name", None));
    ctx.add_node(node("table:x", NodeType::Table, "x", Some("x")));
    ctx.add_edge(edge("cte:c", "column:cte:c.id", EdgeType::Ownership));
    ctx.add_edge(edge("cte:c", "table:x", EdgeType::Ownership));
    ctx.add_edge(edge("cte:c", "column:cte:c.name", EdgeType::Ownership));
    ctx.add_edge(edge("cte:c", "column:missing", EdgeType::Ownership));
    let cols = a.collect_owned_columns(&ctx, &"cte:c".to_string());
    assert_eq!(
        cols,
        vec![
            ("id".to_string(), Some("INTEGER".to_string()), "column:cte:c.id".to_string()),
            ("name".to_string(), None, "column:cte:c.name".to_string()),
        ]
    );
}

#[test]
fn inferred_columns_are_owned_and_recorded() {
    let a = analyzer(Dialect::Generic);
    let mut ctx = StatementContext::new(0);
    let id = a.create_inferred_source_column(&mut ctx, "public.users", &"table:users".to_string(), "email", Some("TEXT".to_string()));
    assert_eq!(id, Some("column:table:users.email".to_string()));
    assert_eq!(ctx.nodes.len(), 1);
    assert_eq!(ctx.nodes[0].qualified_name.as_deref(), Some("public.users.email"));
    assert_eq!(ctx.nodes[0].resolution_source, Some(ResolutionSource::Implied));
    assert_eq!(ctx.edges[0].edge_type, EdgeType::Ownership);
    assert_eq!(ctx.edges[0].from, "table:users");
    assert_eq!(
        ctx.source_table_columns.get(&("public.users".to_string(), "email".to_string())),
        Some(&Some("TEXT".to_string()))
    );
    let again = a.create_inferred_source_column(&mut ctx, "public.users", &"table:users".to_string(), "email", None);
    assert_eq!(again, id);
    assert_eq!(ctx.nodes.len(), 1);
    let with_edge = a.create_inferred_column_with_edge(
        &mut ctx,
        "public.users",
        &"table:users".to_string(),
        "name",
        None,
        &"column:cte:c.name".to_string(),
    );
    assert_eq!(with_edge, Some(("name".to_string(), None, "column:table:users.name".to_string())));
    assert!(ctx.edges.iter().any(|e| e.id == "edge:column:table:users.name->column:cte:c.name" && e.edge_type == EdgeType::DataFlow));
}

#[test]
fn inferred_columns_flow_back_through_select_star_chains() {
    let a = analyzer(Dialect::Generic);
    let mut ctx = StatementContext::new(0);
    ctx.add_node(node("cte:b", NodeType::Cte, "b", Some("b")));
    ctx.add_node(node("column:cte:b.x", NodeType::Column, "x", None));
    ctx.add_edge(edge("cte:b", "column:cte:b.x", EdgeType::Ownership));
    ctx.cte_definitions.insert("b".to_string(), "cte:b".to_string());
    ctx.cte_definitions.insert("a".to_string(), "cte:a".to_string());
    ctx.add_node(node("cte:a", NodeType::Cte, "a", Some("a")));
    // b is `SELECT * FROM a`, and a is `SELECT * FROM raw`.
    ctx.pending_wildcards.push(PendingWildcard {
        source_canonical: "a".to_string(),
        target_name: "b".to_string(),
        source_node_id: "cte:a".to_string(),
    });
    ctx.pending_wildcards.push(PendingWildcard {
        source_canonical: "raw".to_string(),
        target_name: "a".to_string(),
        source_node_id: "table:raw".to_string(),
    });
    a.propagate_inferred_columns(&mut ctx);
    assert!(ctx.pending_wildcards.is_empty());
    let ids: Vec<&str> = ctx.nodes.iter().map(|n| n.id.as_str()).collect();
    assert!(ids.contains(&"column:cte:a.x"));
    assert!(ids.contains(&"column:table:raw.x"));
    assert!(ctx.edges.iter().any(|e| e.from == "column:cte:a.x" && e.to == "column:cte:b.x"));
    assert!(ctx.edges.iter().any(|e| e.from == "column:table:raw.x" && e.to == "column:cte:a.x"));
    assert_eq!(MAX_INFERENCE_DEPTH, 20);
}

#[test]
fn cyclic_wildcards_terminate() {
    let a = analyzer(Dialect::Generic);
    let mut ctx = StatementContext::new(0);
    ctx.add_node(node("cte:a", NodeType::Cte, "a", Some("a")));
    ctx.add_node(node("column:cte:a.x", NodeType::Column, "x", None));
    ctx.add_edge(edge("cte:a", "column:cte:a.x", EdgeType::Ownership));
    ctx.cte_definitions.insert("a".to_string(), "cte:a".to_string());
    ctx.pending_wildcards.push(PendingWildcard {
        source_canonical: "a".to_string(),
        target_name: "a".to_string(),
        source_node_id: "cte:a".to_string(),
    });
    a.propagate_inferred_columns(&mut ctx);
    assert!(ctx.edges.iter().any(|e| e.from == "column:cte:a.x" && e.to == "column:cte:a.x"));
}

#[test]
fn schema_columns_become_owned_column_nodes() {
    let mut a = analyzer(Dialect::Postgres);
    a.schema.insert("public.users".to_string(), schema_table(&[("id", Some("INTEGER")), ("email", None)]));
    let mut ctx = StatementContext::new(0);
    a.add_table_columns_from_schema(&mut ctx, "public.orders", "table:orders");
    assert!(ctx.nodes.is_empty());
    a.add_table_columns_from_schema(&mut ctx, "public.users", "table:users");
    let ids: Vec<&str> = ctx.nodes.iter().map(|n| n.id.as_str()).collect();
    assert_eq!(ids, vec!["column:table:users.id", "column:table:users.email"]);
    assert_eq!(ctx.nodes[1].qualified_name.as_deref(), Some("public.users.email"));
    assert_eq!(ctx.edges.len(), 2);
    assert!(ctx.edges.iter().all(|e| e.edge_type == EdgeType::Ownership && e.from == "table:users"));
}

#[test]
fn candidate_tables_and_ambiguity() {
    let mut a = analyzer(Dialect::Postgres);
    a.schema.insert("users".to_string(), schema_table(&[("ID", None), ("email", None)]));
    a.schema.insert("orders".to_string(), schema_table(&[("id", None), ("total", None)]));
    assert_eq!(a.normalize_identifier("Email"), "email");
    let mut ctx = StatementContext::new(0);
    ctx.push_scope();
    ctx.register_table_in_scope("users".to_string(), "table:users".to_string());
    ctx.register_table_in_scope("orders".to_string(), "table:orders".to_string());
    ctx.register_alias_instance("users".to_string(), "users".to_string(), "table:users".to_string());
    ctx.register_alias_instance("orders".to_string(), "orders".to_string(), "table:orders".to_string());
    assert_eq!(a.candidate_tables_for_column(&ctx, "Id"), vec!["users".to_string(), "orders".to_string()]);
    assert_eq!(a.candidate_tables_for_column(&ctx, "total"), vec!["orders".to_string()]);
    assert!(a.candidate_tables_for_column(&ctx, "nothing").is_empty());
    assert!(a.is_definitely_ambiguous_unqualified_column(&ctx, "id"));
    assert!(!a.is_definitely_ambiguous_unqualified_column(&ctx, "total"));
    assert!(!a.is_definitely_ambiguous_unqualified_column(&ctx, "nothing"));
}

#[test]
fn self_join_columns_are_ambiguous() {
    let a = analyzer(Dialect::Generic);
    let mut ctx = StatementContext::new(0);
    ctx.push_scope();
    ctx.register_table_in_scope("employees".to_string(), "table:e1".to_string());
    ctx.register_alias_instance("e1".to_string(), "employees".to_string(), "table:e1".to_string());
    ctx.register_alias_instance("e2".to_string(), "employees".to_string(), "table:e2".to_string());
    assert!(a.is_definitely_ambiguous_unqualified_column(&ctx, "id"));
    let mut single = StatementContext::new(0);
    single.push_scope();
    single.register_alias_instance("e1".to_string(), "employees".to_string(), "table:e1".to_string());
    assert!(!a.is_definitely_ambiguous_unqualified_column(&single, "id"));
}

#[test]
fn subquery_columns_make_candidates() {
    let a = analyzer(Dialect::Generic);
    let mut ctx = StatementContext::new(0);
    ctx.push_scope();
    ctx.register_table_in_scope("recent".to_string(), "cte:recent".to_string());
    ctx.register_cte_output_columns(
        "recent".to_string(),
        vec![OutputColumn { name: "id".to_string(), data_type: None, node_id: "column:cte:recent.id".to_string() }],
    );
    assert_eq!(a.candidate_tables_for_column(&ctx, "id"), vec!["recent".to_string()]);
}

#[test]
fn complexity_scores_are_clamped() {
    assert_eq!(calculate_global_complexity(0, 0, 0, 0), 1);
    assert_eq!(calculate_global_complexity(2, 1, 1, 3), 34);
    assert_eq!(calculate_global_complexity(1, 0, 0, 0), 5);
    assert_eq!(calculate_global_complexity(10, 10, 10, 10), 100);
    assert!(calculate_global_complexity(3, 0, 0, 0) <= calculate_global_complexity(3, 1, 0, 0));
}

#[test]
fn global_edge_kinds() {
    assert_eq!(Analyzer::global_edge_kind(EdgeType::Ownership), "ownership");
    assert_eq!(Analyzer::global_edge_kind(EdgeType::JoinDependency), "join_dependency");
    assert_eq!(Analyzer::global_edge_kind(EdgeType::CrossStatement), "cross_statement");
}

#[test]
fn summary_counts_the_project() {
    let mut a = analyzer(Dialect::Generic);
    let issue = |severity| Issue { severity, code: "X".to_string(), message: String::new(), span: None, statement_index: None };
    a.issues = vec![issue(Severity::Warning), issue(Severity::Error), issue(Severity::Info), issue(Severity::Warning)];
    let mut filtered = node("table:t", NodeType::Table, "t", Some("t"));
    filtered.filters.push(flowscope_core::types::FilterPredicate {
        expression: "x > 1".to_string(),
        clause_type: FilterClauseType::Where,
    });
    a.statement_lineages = vec![
        StatementLineage { statement_index: 0, nodes: vec![filtered], edges: Vec::new(), join_count: 2 },
        StatementLineage { statement_index: 1, nodes: Vec::new(), edges: Vec::new(), join_count: 1 },
    ];
    let global = |id: &str, node_type| GlobalNode {
        id: id.to_string(),
        node_type,
        label: id.to_string(),
        statement_refs: Vec::new(),
        resolution_source: None,
    };
    let lineage = GlobalLineage {
        nodes: vec![
            global("t", NodeType::Table),
            global("v", NodeType::View),
            global("c", NodeType::Cte),
            global("col", NodeType::Column),
            global("out", NodeType::Output),
        ],
        edges: Vec::new(),
    };
    let summary = a.build_summary(&lineage);
    assert_eq!(summary.statement_count, 2);
    assert_eq!(summary.table_count, 3);
    assert_eq!(summary.column_count, 1);
    assert_eq!(summary.join_count, 3);
    // 2 tables * 5 + 1 CTE * 8 + 3 joins * 10 + 1 filter * 2
    assert_eq!(summary.complexity_score, 50);
    assert_eq!(summary.issue_count.errors, 1);
    assert_eq!(summary.issue_count.warnings, 2);
    assert_eq!(summary.issue_count.infos, 1);
    assert!(summary.has_errors);
}

#[test]
fn visitor_state_setters() {
    let mut a = analyzer(Dialect::Generic);
    let mut ctx = StatementContext::new(0);
    {
        let mut v = LineageVisitor::new(&mut a, &mut ctx, None);
        v.set_target_node(Some("table:target".to_string()));
        assert_eq!(v.target_node.as_deref(), Some("table:target"));
        v.set_last_operation(Some("INSERT".to_string()));
    }
    assert_eq!(ctx.last_operation.as_deref(), Some("INSERT"));
    let id = "node:1".to_string();
    assert_eq!(LineageVisitor::target_from_arc(Some(&id)), Some("node:1".to_string()));
    assert_eq!(LineageVisitor::target_from_arc(None), None);
    let e = ExpressionAnalyzer::new(&mut a, &mut ctx);
    assert_eq!(e.ctx.statement_index, 0);
    let info = ExpandedColumnInfo::new("id".to_string(), Some("INTEGER".to_string()));
    assert_eq!(info.name, "id");
    assert_eq!(info.data_type.as_deref(), Some("INTEGER"));
}

#[test]
fn cte_self_join_gets_an_instance_node() {
    let a = analyzer(Dialect::Generic);
    let mut ctx = StatementContext::new(0);
    ctx.cte_definitions.insert("recent".to_string(), "cte:recent".to_string());
    ctx.add_node(node("cte:recent", NodeType::Cte, "recent", Some("recent")));
    ctx.register_cte_output_columns(
        "recent".to_string(),
        vec![OutputColumn { name: "id".to_string(), data_type: Some("INTEGER".to_string()), node_id: "column:cte:recent.id".to_string() }],
    );
    ctx.push_scope();
    assert_eq!(a.resolve_cte_reference(&mut ctx, "missing", None), None);
    let first = a.resolve_cte_reference(&mut ctx, "recent", Some("r1"));
    assert_eq!(first, Some(("recent".to_string(), "cte:recent".to_string())));
    ctx.current_join_info = JoinInfo { join_type: Some(JoinType::Inner), join_condition: Some("r1.id = r2.id".to_string()) };
    let second = a.resolve_cte_reference(&mut ctx, "recent", Some("r2"));
    let instance = "cte:statement_0::scope_0::recent::r2".to_string();
    assert_eq!(second, Some(("recent".to_string(), instance.clone())));
    assert!(ctx.nodes.iter().any(|n| n.id == instance && n.node_type == NodeType::Cte));
    assert!(ctx.edges.iter().any(|e| e.from == "cte:recent" && e.to == instance && e.edge_type == EdgeType::DataFlow));
    let column_id = format!("column:{instance}.id");
    assert!(ctx.nodes.iter().any(|n| n.id == column_id && n.qualified_name.as_deref() == Some("recent.id")));
    assert!(ctx.edges.iter().any(|e| e.from == "column:cte:recent.id" && e.to == column_id));
    assert_eq!(ctx.resolve_subquery_columns("r2").map(|c| c[0].node_id.clone()), Some(column_id));
    assert_eq!(ctx.joined_table_info.get(&instance).and_then(|j| j.join_type), Some(JoinType::Inner));
    assert_eq!(ctx.resolve_alias_instance("r2").map(|i| i.node_id.clone()), Some(instance.clone()));
    assert_eq!(ctx.resolve_alias_instance("r1").map(|i| i.node_id.clone()), Some("cte:recent".to_string()));
    assert_eq!(ctx.table_node_ids.get(&"recent".to_string()), Some(&instance));
    let third = a.resolve_cte_reference(&mut ctx, "recent", Some("r3")).map(|r| r.1);
    assert_eq!(third, Some("cte:statement_0::scope_0::recent::r3".to_string()));
    assert_ne!(third, Some(instance));
}

#[test]
fn cte_columns_are_materialized_once_per_alias() {
    let a = analyzer(Dialect::Generic);
    let mut ctx = StatementContext::new(0);
    ctx.push_scope();
    a.materialize_cte_reference_columns(&mut ctx, "nothing", "x", &"cte:inst".to_string());
    assert!(ctx.nodes.is_empty());
    ctx.register_cte_output_columns(
        "c".to_string(),
        vec![OutputColumn { name: "v".to_string(), data_type: None, node_id: "column:cte:c.v".to_string() }],
    );
    a.materialize_cte_reference_columns(&mut ctx, "c", "x", &"cte:inst".to_string());
    assert_eq!(ctx.nodes.len(), 1);
    assert_eq!(ctx.edges.len(), 2);
    a.materialize_cte_reference_columns(&mut ctx, "c", "x", &"cte:inst".to_string());
    assert_eq!(ctx.nodes.len(), 1);
    assert_eq!(ctx.edges.len(), 2);
}

#[test]
fn resolution_sources() {
    let mut a = analyzer(Dialect::Generic);
    a.schema.insert("imported".to_string(), schema_table(&[("id", None)]));
    let mut implied = schema_table(&[("id", None)]);
    implied.origin = SchemaOrigin::Implied;
    a.schema.insert("implied".to_string(), implied);
    assert_eq!(a.determine_resolution_source("imported", false), Some(ResolutionSource::Imported));
    assert_eq!(a.determine_resolution_source("implied", true), Some(ResolutionSource::Implied));
    assert_eq!(a.determine_resolution_source("other", false), Some(ResolutionSource::Unknown));
    assert_eq!(a.determine_resolution_source("other", true), None);
}

#[test]
fn materialized_cte_columns_are_owned_by_the_instance_and_fed_by_the_cte() {
    let a = analyzer(Dialect::Generic);
    let mut ctx = StatementContext::new(0);
    ctx.push_scope();
    ctx.register_cte_output_columns(
        "c".to_string(),
        vec![OutputColumn { name: "v".to_string(), data_type: None, node_id: "column:cte:c.v".to_string() }],
    );
    a.materialize_cte_reference_columns(&mut ctx, "c", "x", &"cte:inst".to_string());
    let edges: Vec<(&str, &str, EdgeType)> = ctx.edges.iter().map(|e| (e.from.as_str(), e.to.as_str(), e.edge_type)).collect();
    assert_eq!(
        edges,
        vec![
            ("cte:inst", "column:cte:inst.v", EdgeType::Ownership),
            ("column:cte:c.v", "column:cte:inst.v", EdgeType::DataFlow),
        ]
    );
    assert_eq!(ctx.edges[0].id, "edge:cte:inst->column:cte:inst.v");
}
