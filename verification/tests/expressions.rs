use flowscope_core::analyzer::context::ColumnRef;
use flowscope_core::analyzer::expression::{
    ExpressionAnalyzer, FunctionArg, FunctionArgs, PairKind, SqlExpr, WrapKind, MAX_RECURSION_DEPTH,
};
use flowscope_core::Dialect;

fn ident(name: &str) -> SqlExpr {
    SqlExpr::Identifier(name.to_string())
}

fn compound(parts: &[&str]) -> SqlExpr {
    SqlExpr::CompoundIdentifier(parts.iter().map(|p| p.to_string()).collect())
}

fn refs_of(expr: &SqlExpr, dialect: Dialect) -> Vec<(Option<String>, String)> {
    let (refs, limited) = ExpressionAnalyzer::extract_column_refs_with_dialect(expr, dialect);
    assert!(!limited);
    refs.into_iter().map(|r: ColumnRef| (r.table, r.column)).collect()
}

#[test]
fn collect_column_refs_reports_depth_limit() {
    let expr = ident("col");
    let mut refs = Vec::new();
    let hit = ExpressionAnalyzer::collect_column_refs(&expr, &mut refs, Dialect::Generic, MAX_RECURSION_DEPTH + 1);
    assert!(hit, "expected depth guard to trigger");
    assert!(refs.is_empty(), "no column refs should be recorded when guard triggers");
}

#[test]
fn column_refs_of_binary_and_qualified_names() {
    let expr = SqlExpr::Pair(
        PairKind::BinaryOp,
        Box::new(compound(&["o", "total"])),
        Box::new(compound(&["sales", "orders", "tax"])),
    );
    assert_eq!(
        refs_of(&expr, Dialect::Generic),
        vec![
            (Some("o".to_string()), "total".to_string()),
            (Some("sales.orders".to_string()), "tax".to_string()),
        ]
    );
}

#[test]
fn pseudocolumns_are_not_column_refs() {
    let expr = SqlExpr::Tuple(vec![ident("rownum"), ident("id")]);
    assert_eq!(refs_of(&expr, Dialect::Oracle), vec![(None, "id".to_string())]);
    assert_eq!(refs_of(&expr, Dialect::Postgres).len(), 2);
}

#[test]
fn keyword_arguments_are_skipped() {
    let call = SqlExpr::Function(
        "DATEDIFF".to_string(),
        FunctionArgs::List(vec![
            FunctionArg::Expr(ident("day")),
            FunctionArg::Expr(ident("start_at")),
            FunctionArg::Other,
            FunctionArg::Expr(ident("end_at")),
        ], false),
    );
    assert_eq!(
        refs_of(&call, Dialect::Snowflake),
        vec![(None, "start_at".to_string()), (None, "end_at".to_string())]
    );
    assert_eq!(refs_of(&call, Dialect::Postgres).len(), 3);
    let sub = SqlExpr::Function("count".to_string(), FunctionArgs::Subquery);
    assert!(refs_of(&sub, Dialect::Generic).is_empty());
}

#[test]
fn case_between_and_in_list() {
    let case = SqlExpr::Case(
        Some(Box::new(ident("status"))),
        vec![(ident("a"), ident("b"))],
        Some(Box::new(SqlExpr::Wrapped(WrapKind::Cast, Box::new(ident("c"))))),
    );
    let names: Vec<String> = refs_of(&case, Dialect::Generic).into_iter().map(|r| r.1).collect();
    assert_eq!(names, vec!["status", "a", "b", "c"]);
    let between = SqlExpr::Between(Box::new(ident("x")), Box::new(ident("lo")), Box::new(ident("hi")));
    assert_eq!(refs_of(&between, Dialect::Generic).len(), 3);
    let in_list = SqlExpr::InList(Box::new(ident("x")), vec![ident("y"), SqlExpr::Subquery]);
    assert_eq!(refs_of(&in_list, Dialect::Generic).len(), 2);
    let ceil = SqlExpr::Wrapped(WrapKind::Ceil, Box::new(ident("x")));
    assert!(refs_of(&ceil, Dialect::Generic).is_empty());
}

#[test]
fn deep_expressions_hit_the_limit() {
    let mut expr = ident("deep");
    for _ in 0..(MAX_RECURSION_DEPTH + 5) {
        expr = SqlExpr::Wrapped(WrapKind::Nested, Box::new(expr));
    }
    let (refs, limited) = ExpressionAnalyzer::extract_column_refs_with_dialect(&expr, Dialect::Generic);
    assert!(limited);
    assert!(refs.is_empty());
}

#[test]
fn simple_identifiers_skip_qualified_names_and_subqueries() {
    let expr = SqlExpr::Pair(
        PairKind::AtTimeZone,
        Box::new(SqlExpr::Wrapped(WrapKind::Ceil, Box::new(ident("amount")))),
        Box::new(SqlExpr::Tuple(vec![compound(&["t", "c"]), SqlExpr::Subquery, ident("zone"), ident("amount")])),
    );
    let ids = ExpressionAnalyzer::extract_simple_identifiers(&expr);
    assert_eq!(ids.len(), 2);
    assert!(ids.contains_key(&"amount".to_string()));
    assert!(ids.contains_key(&"zone".to_string()));
    let substring = SqlExpr::Substring(Box::new(ident("s")), Some(Box::new(ident("f"))), None);
    assert_eq!(ExpressionAnalyzer::extract_simple_identifiers(&substring).len(), 2);
}
