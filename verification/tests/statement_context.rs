use flowscope_core::analyzer::context::{OutputColumn, StatementContext, MAX_INSTANCES_PER_STATEMENT};
use flowscope_core::types::{Edge, EdgeType, FilterClauseType, Node, NodeType};

fn table(id: &str, qualified: &str) -> Node {
    Node::basic(id.to_string(), NodeType::Table, qualified.to_string(), Some(qualified.to_string()))
}

fn column(name: &str, id: &str) -> OutputColumn {
    OutputColumn { name: name.to_string(), data_type: None, node_id: id.to_string() }
}

#[test]
fn adding_a_node_twice_keeps_one() {
    let mut ctx = StatementContext::new(0);
    let id = ctx.add_node(table("table:users", "users"));
    assert_eq!(id, "table:users");
    ctx.add_node(table("table:users", "users"));
    assert_eq!(ctx.nodes.len(), 1);
    assert_eq!(ctx.node_position(&"table:users".to_string()), Some(0));
}

#[test]
fn removing_a_new_node_restores_the_list() {
    let mut ctx = StatementContext::new(0);
    ctx.add_node(table("table:a", "a"));
    ctx.add_node(table("table:b", "b"));
    ctx.add_node(table("table:c", "c"));
    ctx.remove_node_by_id(&"table:c".to_string());
    let ids: Vec<&str> = ctx.nodes.iter().map(|n| n.id.as_str()).collect();
    assert_eq!(ids, vec!["table:a", "table:b"]);
    ctx.remove_node_by_id(&"table:a".to_string());
    let ids: Vec<&str> = ctx.nodes.iter().map(|n| n.id.as_str()).collect();
    assert_eq!(ids, vec!["table:b"]);
    assert_eq!(ctx.node_position(&"table:b".to_string()), Some(0));
    assert_eq!(ctx.node_position(&"table:a".to_string()), None);
}

#[test]
fn adding_an_edge_twice_keeps_one() {
    let mut ctx = StatementContext::new(0);
    let e = Edge::basic("edge:a->b".to_string(), "a".to_string(), "b".to_string(), EdgeType::DataFlow);
    ctx.add_edge(e);
    let e = Edge::basic("edge:a->b".to_string(), "a".to_string(), "c".to_string(), EdgeType::DataFlow);
    ctx.add_edge(e);
    assert_eq!(ctx.edges.len(), 1);
    assert_eq!(ctx.edges[0].to, "b");
}

#[test]
fn pop_undoes_push() {
    let mut ctx = StatementContext::new(0);
    ctx.push_scope();
    ctx.register_table_in_scope("users".to_string(), "table:users".to_string());
    let depth = ctx.scope_stack.len();
    ctx.push_scope();
    assert_eq!(ctx.current_scope_id(), Some(1));
    ctx.pop_scope();
    assert_eq!(ctx.scope_stack.len(), depth);
    assert_eq!(ctx.current_scope_id(), Some(0));
    assert_eq!(ctx.tables_in_current_scope(), vec!["users".to_string()]);
    ctx.pop_scope();
    ctx.pop_scope();
    assert!(ctx.current_scope().is_none());
}

#[test]
fn innermost_alias_instance_wins() {
    let mut ctx = StatementContext::new(0);
    ctx.push_scope();
    ctx.register_alias_instance("e".to_string(), "employees".to_string(), "table:employees".to_string());
    ctx.push_scope();
    ctx.register_alias_instance("e".to_string(), "events".to_string(), "table:events".to_string());
    assert_eq!(ctx.resolve_alias_instance("e").map(|i| i.canonical.clone()), Some("events".to_string()));
    ctx.pop_scope();
    assert_eq!(ctx.resolve_alias_instance("e").map(|i| i.canonical.clone()), Some("employees".to_string()));
    assert!(ctx.resolve_alias_instance("x").is_none());
}

#[test]
fn self_join_instances_are_counted_per_node() {
    let mut ctx = StatementContext::new(0);
    ctx.push_scope();
    ctx.register_alias_instance("e1".to_string(), "employees".to_string(), "table:employees#1".to_string());
    ctx.register_alias_instance("e2".to_string(), "employees".to_string(), "table:employees#2".to_string());
    ctx.register_alias_instance("employees".to_string(), "employees".to_string(), "table:employees#1".to_string());
    let instances = ctx.relation_instances_in_current_scope();
    assert_eq!(instances.len(), 2);
    assert_eq!(ctx.relation_instance_count_in_current_scope("employees"), 2);
    assert_eq!(ctx.relation_instance_count_in_current_scope("orders"), 0);
}

#[test]
fn instance_limit_stops_registration() {
    let mut ctx = StatementContext::new(0);
    ctx.push_scope();
    for i in 0..MAX_INSTANCES_PER_STATEMENT {
        ctx.register_alias_instance(format!("a{i}"), "t".to_string(), format!("n{i}"));
    }
    assert!(!ctx.instance_limit_reached);
    ctx.register_alias_instance("extra".to_string(), "t".to_string(), "n_extra".to_string());
    assert!(ctx.instance_limit_reached);
    assert!(ctx.resolve_alias_instance("extra").is_none());
}

#[test]
fn implied_foreign_keys_skip_self_joins() {
    let mut ctx = StatementContext::new(0);
    ctx.record_implied_foreign_key("orders", "customer_id", "customers", "id");
    ctx.record_implied_foreign_key("employees", "manager_id", "employees", "id");
    assert_eq!(ctx.implied_foreign_keys.len(), 1);
    assert_eq!(
        ctx.implied_foreign_keys.get(&("orders".to_string(), "customer_id".to_string())),
        Some(&("customers".to_string(), "id".to_string()))
    );
}

#[test]
fn known_column_types_are_kept() {
    let mut ctx = StatementContext::new(0);
    ctx.record_source_column("users", "id", None);
    ctx.record_source_column("users", "id", Some("INTEGER".to_string()));
    ctx.record_source_column("users", "id", Some("TEXT".to_string()));
    assert_eq!(
        ctx.source_table_columns.get(&("users".to_string(), "id".to_string())),
        Some(&Some("INTEGER".to_string()))
    );
}

#[test]
fn grouping_columns_are_tracked() {
    let mut ctx = StatementContext::new(0);
    ctx.add_grouping_column("region".to_string());
    assert!(ctx.is_grouping_column("region"));
    assert!(!ctx.is_grouping_column("city"));
    ctx.clear_grouping();
    assert!(!ctx.is_grouping_column("region"));
    assert!(!ctx.has_group_by);
}

#[test]
fn checkpoint_takes_the_columns_added_since() {
    let mut ctx = StatementContext::new(0);
    ctx.output_columns.push(column("a", "column:a"));
    let checkpoint = ctx.projection_checkpoint();
    ctx.output_columns.push(column("b", "column:b"));
    ctx.output_columns.push(column("c", "column:c"));
    let taken = ctx.take_output_columns_since(checkpoint);
    let names: Vec<&str> = taken.iter().map(|c| c.name.as_str()).collect();
    assert_eq!(names, vec!["b", "c"]);
    assert_eq!(ctx.output_columns.len(), 1);
    assert!(ctx.take_output_columns_since(5).is_empty());
    assert_eq!(ctx.output_columns.len(), 1);
}

#[test]
fn subquery_columns_are_scoped() {
    let mut ctx = StatementContext::new(0);
    ctx.register_cte_output_columns("recent".to_string(), vec![column("id", "column:recent.id")]);
    ctx.push_scope();
    ctx.register_subquery_columns_in_scope("recent".to_string(), vec![column("name", "column:sub.name")]);
    assert!(ctx.has_subquery_columns_in_current_scope("recent"));
    assert_eq!(ctx.resolve_subquery_columns("recent").map(|c| c[0].name.clone()), Some("name".to_string()));
    ctx.pop_scope();
    assert_eq!(ctx.resolve_subquery_columns("recent").map(|c| c[0].name.clone()), Some("id".to_string()));
    assert!(ctx.resolve_subquery_columns("missing").is_none());
}

#[test]
fn output_node_is_created_once() {
    let mut ctx = StatementContext::new(0);
    let id = ctx.ensure_output_node_with_model(None);
    let again = ctx.ensure_output_node_with_model(Some("model"));
    assert_eq!(id, again);
    assert_eq!(ctx.nodes.len(), 1);
    assert_eq!(ctx.nodes[0].label, "Output");
    assert_eq!(ctx.nodes[0].node_type, NodeType::Output);
    let mut second = StatementContext::new(1);
    second.ensure_output_node_with_model(None);
    assert_eq!(second.nodes[0].label, "Output (2)");
    let mut model = StatementContext::new(3);
    model.ensure_output_node_with_model(Some("stg_customers"));
    assert_eq!(model.nodes[0].label, "stg_customers");
    assert_eq!(model.nodes[0].qualified_name.as_deref(), Some("stg_customers"));
}

#[test]
fn name_spans_are_recorded_once() {
    let mut ctx = StatementContext::new(0);
    ctx.add_node(table("table:users", "users"));
    let span = flowscope_core::types::Span::new(5, 10);
    ctx.add_name_span(&"table:users".to_string(), span);
    ctx.add_name_span(&"table:users".to_string(), span);
    assert_eq!(ctx.nodes[0].name_spans, vec![span]);
    let cursor = ctx.relation_span_cursor("users");
    assert_eq!(*cursor, 0);
    *cursor = 12;
    assert_eq!(*ctx.relation_span_cursor("users"), 12);
}

#[test]
fn filters_are_recorded_per_table_and_instance() {
    let mut ctx = StatementContext::new(0);
    ctx.add_filter_for_table("users", "active = 1".to_string(), FilterClauseType::Where);
    ctx.add_filter_for_instance(&"table:users#2".to_string(), "id > 3".to_string(), FilterClauseType::JoinOn);
    assert_eq!(ctx.pending_filters.get(&"users".to_string()).map(|v| v.len()), Some(1));
    assert_eq!(ctx.pending_instance_filters.get(&"table:users#2".to_string()).map(|v| v.len()), Some(1));
}

#[test]
fn scope_aliases_and_table_functions() {
    let mut ctx = StatementContext::new(0);
    assert!(!ctx.current_scope_has_table_function_relation());
    ctx.push_scope();
    ctx.register_alias_in_scope("u".to_string(), "public.users".to_string());
    ctx.register_subquery_alias_in_scope("sub".to_string());
    ctx.mark_table_function_in_scope();
    assert!(ctx.current_scope_has_table_function_relation());
    let scope = ctx.current_scope().expect("scope");
    assert_eq!(scope.aliases.get(&"u".to_string()), Some(&"public.users".to_string()));
    assert!(scope.subquery_aliases.contains_key(&"sub".to_string()));
    assert!(ctx.subquery_aliases.contains_key(&"sub".to_string()));
    ctx.push_scope();
    assert!(!ctx.current_scope_has_table_function_relation());
    ctx.register_table_in_scope("public.orders".to_string(), "table:orders".to_string());
    ctx.register_alias_in_scope("o".to_string(), "public.orders".to_string());
    assert_eq!(ctx.resolve_alias_instance("o").map(|i| i.node_id.clone()), Some("table:orders".to_string()));
    assert_eq!(ctx.table_aliases.get(&"o".to_string()), Some(&"public.orders".to_string()));
}

#[test]
fn scope_local_registrations_do_not_leak() {
    let mut ctx = StatementContext::new(0);
    ctx.push_scope();
    ctx.push_scope();
    ctx.register_subquery_columns_in_scope("d".to_string(), vec![column("x", "column:d.x")]);
    ctx.register_alias_instance("d".to_string(), "d".to_string(), "derived:d".to_string());
    ctx.register_table_in_scope("d".to_string(), "derived:d".to_string());
    ctx.pop_scope();
    assert!(ctx.resolve_subquery_columns("d").is_none());
    assert!(ctx.resolve_alias_instance("d").is_none());
    assert!(ctx.tables_in_current_scope().is_empty());
}
