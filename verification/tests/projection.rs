use flowscope_core::analyzer::context::{ColumnRef, OutputColumn, StatementContext};
use flowscope_core::analyzer::projection::OutputColumnParams;
use flowscope_core::analyzer::resolution::{joined_names, sorted_names};
use flowscope_core::analyzer::{AnalyzeRequest, Analyzer, SchemaColumn, SchemaOrigin, SchemaTable};
use flowscope_core::collections::KeyMap;
use flowscope_core::types::{EdgeType, Node, NodeType, Severity};
use flowscope_core::Dialect;

fn analyzer(dialect: Dialect) -> Analyzer {
    Analyzer {
        request: AnalyzeRequest { sql: String::new(), dialect, template_mode: None },
        column_lineage_enabled: true,
        issues: Vec::new(),
        statement_lineages: Vec::new(),
        schema: KeyMap::new(),
    }
}

fn schema_table(columns: &[(&str, Option<&str>)]) -> SchemaTable {
    SchemaTable {
        columns: columns
            .iter()
            .map(|(n, t)| SchemaColumn { name: n.to_string(), data_type: t.map(|s| s.to_string()) })
            .collect(),
        origin: SchemaOrigin::Imported,
    }
}

fn table_node(id: &str, name: &str) -> Node {
    Node::basic(id.to_string(), NodeType::Table, name.to_string(), Some(name.to_string()))
}

fn column_ref(table: Option<&str>, column: &str) -> ColumnRef {
    ColumnRef { table: table.map(|t| t.to_string()), column: column.to_string() }
}

fn has_edge(ctx: &StatementContext, from: &str, to: &str) -> Option<EdgeType> {
    ctx.edges.iter().find(|e| e.from == from && e.to == to).map(|e| e.edge_type)
}

/// A scope with `users u` and `orders o`, each with a table node.
fn two_table_scope() -> StatementContext {
    let mut ctx = StatementContext::new(0);
    ctx.push_scope();
    ctx.add_node(table_node("table:users", "users"));
    ctx.add_node(table_node("table:orders", "orders"));
    ctx.register_table_in_scope("users".to_string(), "table:users".to_string());
    ctx.register_table_in_scope("orders".to_string(), "table:orders".to_string());
    ctx.register_alias_in_scope("u".to_string(), "users".to_string());
    ctx.register_alias_in_scope("o".to_string(), "orders".to_string());
    ctx.register_alias_instance("u".to_string(), "users".to_string(), "table:users".to_string());
    ctx.register_alias_instance("o".to_string(), "orders".to_string(), "table:orders".to_string());
    ctx.table_node_ids.insert("users".to_string(), "table:users".to_string());
    ctx.table_node_ids.insert("orders".to_string(), "table:orders".to_string());
    ctx
}

#[test]
fn qualifiers_resolve_through_scopes_aliases_and_ctes() {
    let a = analyzer(Dialect::Postgres);
    let mut ctx = two_table_scope();
    assert_eq!(a.resolve_table_alias(&ctx, Some("u")), Some("users".to_string()));
    assert_eq!(a.resolve_table_alias(&ctx, None), None);
    ctx.table_aliases.insert("legacy".to_string(), "archive.orders".to_string());
    assert_eq!(a.resolve_table_alias(&ctx, Some("legacy")), Some("archive.orders".to_string()));
    ctx.cte_definitions.insert("recent".to_string(), "cte:recent".to_string());
    assert_eq!(a.resolve_table_alias(&ctx, Some("recent")), Some("recent".to_string()));
    ctx.register_subquery_alias_in_scope("sub".to_string());
    assert_eq!(a.resolve_table_alias(&ctx, Some("sub")), None);
    assert_eq!(a.resolve_table_alias(&ctx, Some("Payments")), Some("payments".to_string()));
    let resolution = a.canonicalize_table_reference("Users");
    assert_eq!(resolution.canonical, "users");
    assert!(!resolution.matched_schema);
}

#[test]
fn qualifiers_find_their_instance_nodes() {
    let a = analyzer(Dialect::Generic);
    let mut ctx = two_table_scope();
    assert_eq!(a.resolve_instance_node_id(&ctx, "o"), Some("table:orders".to_string()));
    ctx.cte_definitions.insert("recent".to_string(), "cte:recent".to_string());
    assert_eq!(a.resolve_instance_node_id(&ctx, "recent"), Some("cte:recent".to_string()));
    assert_eq!(a.resolve_instance_node_id(&ctx, "nowhere"), None);
}

#[test]
fn unqualified_columns_without_tables_warn() {
    let mut a = analyzer(Dialect::Generic);
    let ctx = StatementContext::new(3);
    assert_eq!(a.resolve_column_table(&ctx, None, "id"), None);
    assert_eq!(a.issues.len(), 1);
    assert_eq!(a.issues[0].severity, Severity::Warning);
    assert_eq!(a.issues[0].code, "UNRESOLVED_REFERENCE");
    assert_eq!(a.issues[0].message, "Column 'id' referenced but no tables are currently in scope");
    assert_eq!(a.issues[0].statement_index, Some(3));
    assert!(a.issues[0].span.is_none());
}

#[test]
fn unqualified_columns_resolve_to_their_only_owner() {
    let mut a = analyzer(Dialect::Generic);
    a.schema.insert("users".to_string(), schema_table(&[("id", None), ("email", None)]));
    a.schema.insert("orders".to_string(), schema_table(&[("id", None), ("total", None)]));
    let ctx = two_table_scope();
    assert_eq!(a.resolve_column_table(&ctx, None, "email"), Some("users".to_string()));
    assert_eq!(a.resolve_column_table(&ctx, Some("o"), "id"), Some("orders".to_string()));
    assert!(a.issues.is_empty());
    assert_eq!(a.resolve_column_table(&ctx, None, "id"), None);
    assert_eq!(
        a.issues[0].message,
        "Column 'id' exists in multiple tables in scope: orders, users. Qualify the column to disambiguate."
    );
    assert_eq!(a.resolve_column_table(&ctx, None, "nothing"), None);
    assert_eq!(a.issues[1].message, "Column 'nothing' is ambiguous across tables in scope: orders, users");
    assert_eq!(a.issues.len(), 2);
}

#[test]
fn self_join_columns_stay_unresolved_for_lineage_but_not_for_filters() {
    let mut a = analyzer(Dialect::Generic);
    a.schema.insert("employees".to_string(), schema_table(&[("id", None)]));
    let mut ctx = StatementContext::new(0);
    ctx.push_scope();
    ctx.register_table_in_scope("employees".to_string(), "table:e1".to_string());
    ctx.register_alias_instance("e1".to_string(), "employees".to_string(), "table:e1".to_string());
    ctx.register_alias_instance("e2".to_string(), "employees".to_string(), "table:e2".to_string());
    assert_eq!(a.resolve_filter_column_table(&ctx, None, "id"), Some("employees".to_string()));
    assert_eq!(a.resolve_column_table(&ctx, None, "id"), None);
    assert_eq!(
        a.issues[0].message,
        "Column 'id' exists in multiple tables in scope: employees, employees. Qualify the column to disambiguate."
    );
}

#[test]
fn names_sort_and_join() {
    let names = vec!["orders".to_string(), "Users".to_string(), "accounts".to_string(), "orders".to_string()];
    let sorted = sorted_names(&names);
    assert_eq!(sorted, vec!["Users", "accounts", "orders", "orders"]);
    assert_eq!(joined_names(&sorted), "Users, accounts, orders, orders");
    assert_eq!(joined_names(&Vec::new()), "");
}

#[test]
fn output_columns_flow_from_their_sources() {
    let mut a = analyzer(Dialect::Postgres);
    a.schema.insert("users".to_string(), schema_table(&[("id", Some("integer")), ("email", None)]));
    let mut ctx = two_table_scope();
    ctx.add_node(Node::basic("output:0".to_string(), NodeType::Output, "Output".to_string(), None));
    a.add_output_column(&mut ctx, "Email", vec![column_ref(Some("u"), "email")], None, None, Some("output:0"), false);
    assert_eq!(ctx.output_columns.len(), 1);
    assert_eq!(ctx.output_columns[0].name, "email");
    assert_eq!(ctx.output_columns[0].node_id, "column:output:0.email");
    let col = ctx.nodes.iter().find(|n| n.id == "column:output:0.email").unwrap();
    assert_eq!(col.node_type, NodeType::Column);
    assert_eq!(col.label, "email");
    assert_eq!(has_edge(&ctx, "output:0", "column:output:0.email"), Some(EdgeType::Ownership));
    assert_eq!(has_edge(&ctx, "table:users", "column:table:users.email"), Some(EdgeType::Ownership));
    assert_eq!(has_edge(&ctx, "column:table:users.email", "column:output:0.email"), Some(EdgeType::DataFlow));
    let source = ctx.nodes.iter().find(|n| n.id == "column:table:users.email").unwrap();
    assert_eq!(source.qualified_name.as_deref(), Some("users.email"));
}

#[test]
fn computed_output_columns_are_derivations() {
    let mut a = analyzer(Dialect::Generic);
    let mut ctx = two_table_scope();
    a.add_output_column_with_aggregation(
        &mut ctx,
        OutputColumnParams {
            name: "total_plus".to_string(),
            sources: vec![column_ref(Some("o"), "total")],
            expression: Some("o.total + 1".to_string()),
            data_type: Some("integer".to_string()),
            target_node: Some("output:0".to_string()),
            approximate: true,
            aggregation: None,
        },
    );
    let flow = ctx
        .edges
        .iter()
        .find(|e| e.to == "column:output:0.total_plus" && e.edge_type != EdgeType::Ownership)
        .unwrap();
    assert_eq!(flow.edge_type, EdgeType::Derivation);
    assert_eq!(flow.expression.as_deref(), Some("o.total + 1"));
    assert_eq!(flow.approximate, Some(true));
    let col = ctx.nodes.iter().find(|n| n.id == "column:output:0.total_plus").unwrap();
    assert_eq!(col.metadata.as_ref().unwrap().data_type.as_deref(), Some("integer"));
    assert_eq!(ctx.output_columns[0].data_type.as_deref(), Some("integer"));
}

#[test]
fn sourceless_projections_depend_on_base_relations() {
    let mut a = analyzer(Dialect::Generic);
    let mut ctx = two_table_scope();
    ctx.joined_table_info.insert("table:orders".to_string(), flowscope_core::analyzer::context::JoinInfo::none());
    a.add_output_column(&mut ctx, "n", Vec::new(), Some("COUNT(*)".to_string()), None, Some("output:0"), false);
    assert_eq!(has_edge(&ctx, "table:users", "column:output:0.n"), Some(EdgeType::Derivation));
    assert_eq!(has_edge(&ctx, "table:orders", "column:output:0.n"), None);
    assert_eq!(ctx.output_columns.len(), 1);
}

#[test]
fn ambiguous_self_join_projections_are_dropped() {
    let mut a = analyzer(Dialect::Generic);
    let mut ctx = StatementContext::new(0);
    ctx.push_scope();
    ctx.register_table_in_scope("employees".to_string(), "table:e1".to_string());
    ctx.register_alias_instance("e1".to_string(), "employees".to_string(), "table:e1".to_string());
    ctx.register_alias_instance("e2".to_string(), "employees".to_string(), "table:e2".to_string());
    a.add_output_column(&mut ctx, "id", vec![column_ref(None, "id")], None, None, Some("output:0"), false);
    assert!(ctx.output_columns.is_empty());
    assert!(ctx.nodes.iter().all(|n| n.id != "column:output:0.id"));
    assert!(ctx.edges.iter().all(|e| e.to != "column:output:0.id"));
    assert_eq!(a.issues.len(), 1);
}

#[test]
fn wildcards_expand_known_columns_in_schema_order() {
    let mut a = analyzer(Dialect::Generic);
    a.schema.insert("users".to_string(), schema_table(&[("id", Some("integer")), ("email", Some("text"))]));
    let mut ctx = two_table_scope();
    ctx.register_cte_output_columns(
        "orders".to_string(),
        vec![OutputColumn { name: "total".to_string(), data_type: None, node_id: "column:table:orders.total".to_string() }],
    );
    a.expand_wildcard(&mut ctx, None, Some("output:0"));
    let names: Vec<&str> = ctx.output_columns.iter().map(|c| c.name.as_str()).collect();
    assert_eq!(names, vec!["id", "email", "total"]);
    assert_eq!(ctx.output_columns[0].data_type.as_deref(), Some("integer"));
    assert!(a.issues.is_empty());
    assert_eq!(has_edge(&ctx, "column:table:users.id", "column:output:0.id"), Some(EdgeType::DataFlow));
    assert_eq!(has_edge(&ctx, "column:table:orders.total", "column:output:0.total"), Some(EdgeType::DataFlow));
}

#[test]
fn wildcards_over_unknown_tables_are_approximate() {
    let mut a = analyzer(Dialect::Generic);
    let mut ctx = two_table_scope();
    ctx.cte_node_to_name.insert("cte:recent".to_string(), "recent".to_string());
    a.expand_wildcard(&mut ctx, Some("u"), Some("cte:recent"));
    assert!(ctx.output_columns.is_empty());
    assert_eq!(a.issues.len(), 1);
    assert_eq!(a.issues[0].severity, Severity::Info);
    assert_eq!(a.issues[0].code, "APPROXIMATE_LINEAGE");
    assert_eq!(a.issues[0].message, "SELECT * from 'users' - column list unknown without schema metadata");
    let edge = ctx.edges.iter().find(|e| e.from == "table:users" && e.to == "cte:recent").unwrap();
    assert_eq!(edge.edge_type, EdgeType::DataFlow);
    assert_eq!(edge.approximate, Some(true));
    assert_eq!(ctx.pending_wildcards.len(), 1);
    assert_eq!(ctx.pending_wildcards[0].source_canonical, "users");
    assert_eq!(ctx.pending_wildcards[0].target_name, "recent");
    assert_eq!(ctx.pending_wildcards[0].source_node_id, "table:users");
}

#[test]
fn wildcards_without_target_only_note_the_approximation() {
    let mut a = analyzer(Dialect::Generic);
    let mut ctx = two_table_scope();
    a.expand_wildcard(&mut ctx, None, None);
    assert_eq!(a.issues.len(), 2);
    assert!(ctx.edges.is_empty());
    assert!(ctx.pending_wildcards.is_empty());
}

#[test]
fn visitor_resolves_aliases_of_its_statement() {
    let mut a = analyzer(Dialect::Generic);
    let mut ctx = two_table_scope();
    let visitor = flowscope_core::analyzer::visitor::LineageVisitor::new(&mut a, &mut ctx, None);
    assert_eq!(visitor.resolve_table_alias(Some("o")), Some("orders".to_string()));
    assert_eq!(visitor.resolve_table_alias(None), None);
}

#[test]
fn text_helpers_fold_ascii_and_write_decimals() {
    assert_eq!(flowscope_core::text::to_ascii_lowercase("MixÉd_1"), "mixÉd_1");
    assert_eq!(flowscope_core::text::to_ascii_uppercase("MixÉd_1"), "MIXÉD_1");
    assert!(flowscope_core::text::str_eq("abc", "abc"));
    assert!(!flowscope_core::text::str_eq("abc", "abd"));
    assert!(!flowscope_core::text::str_eq("abc", "ab"));
    assert_eq!(flowscope_core::ids::usize_to_string(0), "0");
    assert_eq!(flowscope_core::ids::usize_to_string(1203), "1203");
}
