//! Resolving table qualifiers and column references to the relations of a
//! statement, with the warnings an unresolvable column reference raises.

use vstd::prelude::*;

use super::context::{
    count_canonical, current_instances, find_alias_instance, opt_chars, InstanceView,
    RelationInstance, Scope, StatementContext,
};
use super::query::{candidate_tables, lex_less, scope_tables, str_lex_less};
use super::Analyzer;
use crate::issue_codes::UNRESOLVED_REFERENCE;
use crate::text::string_of;
use crate::types::{Issue, Severity};

verus! {

/// The canonical form of a table reference.
pub struct TableResolution {
    /// The canonical name of the table.
    pub canonical: String,
    /// Whether the known schema has a table of that name.
    pub matched_schema: bool,
}

/// The characters of an optional string slice.
pub open spec fn opt_str(o: Option<&str>) -> Option<Seq<char>> {
    match o {
        Some(s) => Some(s@),
        None => None,
    }
}

/// The canonical name that `q` aliases in the innermost scope that defines it.
pub open spec fn find_scope_alias(scopes: Seq<Scope>, q: Seq<char>) -> Option<Seq<char>>
    decreases scopes.len(),
{
    if scopes.len() == 0 {
        None
    } else if scopes.last().aliases.as_map().contains_key(q) {
        Some(scopes.last().aliases.as_map()[q])
    } else {
        find_scope_alias(scopes.drop_last(), q)
    }
}

/// The relation a qualifier names: a scope alias (innermost first), then a
/// statement-wide alias, then a CTE by its own name; a subquery alias names no
/// canonical relation; anything else is taken as a table name.
pub open spec fn qualifier_target(a: Analyzer, ctx: StatementContext, q: Seq<char>) -> Option<Seq<char>> {
    match find_scope_alias(ctx.scope_stack@, q) {
        Some(c) => Some(c),
        None => if ctx.table_aliases.as_map().contains_key(q) {
            Some(ctx.table_aliases.as_map()[q])
        } else if ctx.cte_definitions.as_map().contains_key(q) {
            Some(q)
        } else if ctx.subquery_aliases.as_map().contains_key(q) {
            None
        } else {
            Some(a.spec_normalize(q))
        },
    }
}

/// The graph node a qualifier stands for: its alias instance, else the node of the
/// relation it names (a table node first, then a CTE node).
pub open spec fn instance_node_for(a: Analyzer, ctx: StatementContext, q: Seq<char>) -> Option<Seq<char>> {
    match find_alias_instance(ctx.scope_stack@, q) {
        Some(inst) => Some(inst.node_id),
        None => match qualifier_target(a, ctx, q) {
            Some(c) => if ctx.table_node_ids.as_map().contains_key(c) {
                Some(ctx.table_node_ids.as_map()[c])
            } else if ctx.cte_definitions.as_map().contains_key(c) {
                Some(ctx.cte_definitions.as_map()[c])
            } else {
                None
            },
            None => None,
        },
    }
}

/// The canonical names of `insts`, in order.
pub open spec fn instance_names(insts: Seq<InstanceView>) -> Seq<Seq<char>> {
    insts.map_values(|i: InstanceView| i.canonical)
}

/// The table a column belongs to for filter routing: a qualifier resolves as an
/// alias; an unqualified column belongs to the one relation instance in scope, or
/// else to the one table of the scope that may own it.
pub open spec fn filter_column_table(
    a: Analyzer,
    ctx: StatementContext,
    qualifier: Option<Seq<char>>,
    column: Seq<char>,
) -> Option<Seq<char>> {
    match qualifier {
        Some(q) => qualifier_target(a, ctx, q),
        None => {
            let insts = current_instances(ctx);
            let cands = candidate_tables(a, ctx, scope_tables(ctx), a.spec_normalize(column));
            if insts.len() == 0 {
                None
            } else if insts.len() == 1 {
                Some(insts[0].canonical)
            } else if cands.len() == 1 {
                Some(cands[0])
            } else {
                None
            }
        },
    }
}

/// The table a column belongs to for lineage: as for filter routing, except that
/// a table occurring as several relation instances (a self-join) stays ambiguous.
pub open spec fn column_table(
    a: Analyzer,
    ctx: StatementContext,
    qualifier: Option<Seq<char>>,
    column: Seq<char>,
) -> Option<Seq<char>> {
    match qualifier {
        Some(q) => qualifier_target(a, ctx, q),
        None => {
            let insts = current_instances(ctx);
            let cands = candidate_tables(a, ctx, scope_tables(ctx), a.spec_normalize(column));
            if insts.len() == 0 {
                None
            } else if insts.len() == 1 {
                Some(insts[0].canonical)
            } else if cands.len() == 1 && count_canonical(insts, cands[0]) == 1 {
                Some(cands[0])
            } else {
                None
            }
        },
    }
}

/// The message of the warning raised when an unqualified column cannot be
/// attributed to one table; `None` when no warning is raised.
pub open spec fn column_table_warning(
    a: Analyzer,
    ctx: StatementContext,
    qualifier: Option<Seq<char>>,
    column: Seq<char>,
) -> Option<Seq<char>> {
    let insts = current_instances(ctx);
    let cands = candidate_tables(a, ctx, scope_tables(ctx), a.spec_normalize(column));
    if qualifier is Some || insts.len() == 1 {
        None
    } else if insts.len() == 0 {
        Some("Column '"@ + column + "' referenced but no tables are currently in scope"@)
    } else if cands.len() == 1 {
        if count_canonical(insts, cands[0]) == 1 {
            None
        } else {
            Some(
                "Column '"@ + column + "' exists in multiple tables in scope: "@ + join_names(
                    sort_names(instance_names(insts)),
                ) + ". Qualify the column to disambiguate."@,
            )
        }
    } else if cands.len() == 0 {
        Some(
            "Column '"@ + column + "' is ambiguous across tables in scope: "@ + join_names(
                sort_names(instance_names(insts)),
            ),
        )
    } else {
        Some(
            "Column '"@ + column + "' exists in multiple tables in scope: "@ + join_names(
                sort_names(cands),
            ) + ". Qualify the column to disambiguate."@,
        )
    }
}

/// `s` with `x` inserted before the first name not less than it.
pub open spec fn insert_sorted(s: Seq<Seq<char>>, x: Seq<char>) -> Seq<Seq<char>>
    decreases s.len(),
{
    if s.len() == 0 {
        seq![x]
    } else if !lex_less(s[0], x) {
        seq![x] + s
    } else {
        seq![s[0]] + insert_sorted(s.drop_first(), x)
    }
}

/// The names of `s` in lexicographic order.
pub open spec fn sort_names(s: Seq<Seq<char>>) -> Seq<Seq<char>>
    decreases s.len(),
{
    if s.len() == 0 {
        Seq::empty()
    } else {
        insert_sorted(sort_names(s.drop_last()), s.last())
    }
}

/// The names of `s` separated by `", "`.
pub open spec fn join_names(s: Seq<Seq<char>>) -> Seq<char>
    decreases s.len(),
{
    if s.len() == 0 {
        Seq::empty()
    } else if s.len() == 1 {
        s[0]
    } else {
        join_names(s.drop_last()) + ", "@ + s.last()
    }
}

/// `after` is `before` with one more issue: of `severity` and `code`, saying
/// `message`, about statement `statement`, without a source span.
pub open spec fn issue_pushed(
    before: Seq<Issue>,
    after: Seq<Issue>,
    severity: Severity,
    code: Seq<char>,
    message: Seq<char>,
    statement: usize,
) -> bool {
    &&& after.len() == before.len() + 1
    &&& after.drop_last() == before
    &&& after.last().severity == severity
    &&& after.last().code@ == code
    &&& after.last().message@ == message
    &&& after.last().span is None
    &&& after.last().statement_index == Some(statement)
}

/// `after` is `before` followed by one issue of `severity` and `code` about
/// statement `statement` for each message of `messages`.
pub open spec fn issues_appended(
    before: Seq<Issue>,
    after: Seq<Issue>,
    severity: Severity,
    code: Seq<char>,
    messages: Seq<Seq<char>>,
    statement: usize,
) -> bool {
    &&& after.len() == before.len() + messages.len()
    &&& after.take(before.len() as int) == before
    &&& forall|k: int| 0 <= k < messages.len() ==> {
        let issue = #[trigger] after[before.len() + k];
        &&& issue.severity == severity
        &&& issue.code@ == code
        &&& issue.message@ == messages[k]
        &&& issue.span is None
        &&& issue.statement_index == Some(statement)
    }
}

proof fn lemma_insert_sorted_at(s: Seq<Seq<char>>, x: Seq<char>, j: int)
    requires
        0 <= j <= s.len(),
        forall|k: int| 0 <= k < j ==> lex_less(#[trigger] s[k], x),
        j < s.len() ==> !lex_less(s[j], x),
    ensures
        insert_sorted(s, x) == s.insert(j, x),
    decreases s.len(),
{
    if s.len() == 0 {
        assert(s.insert(0, x) =~= seq![x]);
    } else if j == 0 {
        assert(s.insert(0, x) =~= seq![x] + s);
    } else {
        let t = s.drop_first();
        assert forall|k: int| 0 <= k < j - 1 implies lex_less(#[trigger] t[k], x) by {
            assert(t[k] == s[k + 1]);
        }
        lemma_insert_sorted_at(t, x, j - 1);
        assert(s.insert(j, x) =~= seq![s[0]] + t.insert(j - 1, x));
    }
}

/// The names of `names` in lexicographic order.
pub fn sorted_names(names: &Vec<String>) -> (r: Vec<String>)
    ensures
        r.deep_view() == sort_names(names.deep_view()),
{
    let ghost all = names.deep_view();
    let mut out: Vec<String> = Vec::new();
    let mut i: usize = 0;
    assert(out.deep_view() =~= sort_names(all.take(0)));
    while i < names.len()
        invariant
            all == names.deep_view(),
            0 <= i <= all.len(),
            out.deep_view() == sort_names(all.take(i as int)),
        decreases all.len() - i,
    {
        let x = &names[i];
        let ghost before = out.deep_view();
        let mut j: usize = 0;
        let mut moving = true;
        while moving && j < out.len()
            invariant
                before == out.deep_view(),
                0 <= j <= before.len(),
                forall|k: int| 0 <= k < j ==> lex_less(#[trigger] before[k], x@),
                !moving ==> j < before.len() && !lex_less(before[j as int], x@),
            decreases (before.len() - j) * 2 + if moving { 1int } else { 0int },
        {
            assert(before[j as int] == out@[j as int]@);
            if str_lex_less(out[j].as_str(), x.as_str()) {
                j = j + 1;
            } else {
                moving = false;
            }
        }
        proof {
            lemma_insert_sorted_at(before, x@, j as int);
            assert(all.take(i + 1).drop_last() =~= all.take(i as int));
            assert(all.take(i + 1).last() == x@);
        }
        let c = x.clone();
        out.insert(j, c);
        assert(out.deep_view() =~= before.insert(j as int, x@));
        i = i + 1;
    }
    assert(all.take(all.len() as int) =~= all);
    out
}

/// The names of `names` separated by `", "`.
pub fn joined_names(names: &Vec<String>) -> (r: String)
    ensures
        r@ == join_names(names.deep_view()),
{
    let ghost all = names.deep_view();
    proof {
        reveal_strlit("");
    }
    let mut r = string_of("");
    let mut i: usize = 0;
    assert(all.take(0) =~= Seq::<Seq<char>>::empty());
    while i < names.len()
        invariant
            all == names.deep_view(),
            0 <= i <= all.len(),
            r@ == join_names(all.take(i as int)),
        decreases all.len() - i,
    {
        assert(all.take(i + 1).drop_last() =~= all.take(i as int));
        assert(all.take(i + 1).last() == names@[i as int]@);
        if i > 0 {
            r.append(", ");
        } else {
            assert(r@ + names@[0]@ =~= names@[0]@);
        }
        r.append(names[i].as_str());
        i = i + 1;
    }
    assert(all.take(all.len() as int) =~= all);
    r
}

/// The canonical names of `instances`, in order.
pub fn instance_canonicals(instances: &Vec<RelationInstance>) -> (r: Vec<String>)
    ensures
        r.deep_view() == instance_names(instances.deep_view()),
{
    let mut out: Vec<String> = Vec::new();
    let mut i: usize = 0;
    while i < instances.len()
        invariant
            0 <= i <= instances@.len(),
            out.deep_view() == instance_names(instances.deep_view()).take(i as int),
        decreases instances@.len() - i,
    {
        let ghost before = out.deep_view();
        let c = instances[i].canonical.clone();
        let ghost cv = c@;
        out.push(c);
        assert(out.deep_view() =~= before.push(cv));
        assert(instances.deep_view()[i as int] == instances@[i as int].deep_view());
        assert(instance_names(instances.deep_view())[i as int] == instances@[i as int].canonical@);
        assert(out.deep_view() =~= instance_names(instances.deep_view()).take(i + 1));
        i = i + 1;
    }
    assert(instance_names(instances.deep_view()).take(i as int) =~= instance_names(instances.deep_view()));
    out
}

impl Analyzer {
    /// Canonicalizes a table reference: the name as the dialect normalizes it, and
    /// whether the known schema has a table of that name.
    pub fn canonicalize_table_reference(&self, name: &str) -> (r: TableResolution)
        requires
            self.wf(),
        ensures
            r.canonical@ == self.spec_normalize(name@),
            r.matched_schema == self.schema.as_map().contains_key(r.canonical@),
    {
        let canonical = self.normalize_identifier(name);
        let matched_schema = self.schema.contains_key(&canonical);
        TableResolution { canonical, matched_schema }
    }

    /// Resolves a qualifier to the canonical relation it names; see
    /// `qualifier_target`. No qualifier resolves to nothing.
    pub fn resolve_table_alias(&self, ctx: &StatementContext, qualifier: Option<&str>) -> (r: Option<String>)
        requires
            self.wf(),
            ctx.wf(),
        ensures
            opt_chars(r) == match qualifier {
                Some(q) => qualifier_target(*self, *ctx, q@),
                None => None,
            },
    {
        let q = match qualifier {
            Some(q) => q,
            None => {
                return None;
            },
        };
        let key = string_of(q);
        let mut i = ctx.scope_stack.len();
        assert(ctx.scope_stack@.take(i as int) =~= ctx.scope_stack@);
        while i > 0
            invariant
                ctx.wf(),
                qualifier == Some(q),
                key@ == q@,
                0 <= i <= ctx.scope_stack@.len(),
                find_scope_alias(ctx.scope_stack@, q@) == find_scope_alias(ctx.scope_stack@.take(i as int), q@),
            decreases i,
        {
            let scope = &ctx.scope_stack[i - 1];
            assert(ctx.scope_stack@.take(i as int).last() == ctx.scope_stack@[i - 1]);
            assert(ctx.scope_stack@.take(i as int).drop_last() =~= ctx.scope_stack@.take(i - 1));
            assert(scope.wf());
            match scope.aliases.get(&key) {
                Some(canonical) => {
                    return Some(canonical.clone());
                },
                None => {},
            }
            i = i - 1;
        }
        assert(find_scope_alias(ctx.scope_stack@.take(0), q@) is None);
        match ctx.table_aliases.get(&key) {
            Some(canonical) => {
                return Some(canonical.clone());
            },
            None => {},
        }
        if ctx.cte_definitions.contains_key(&key) {
            return Some(key);
        }
        if ctx.subquery_aliases.contains_key(&key) {
            return None;
        }
        Some(self.canonicalize_table_reference(q).canonical)
    }

    /// Resolves a qualifier to the node of the relation instance it stands for;
    /// see `instance_node_for`. In a self-join each alias finds its own node.
    pub fn resolve_instance_node_id(&self, ctx: &StatementContext, qualifier: &str) -> (r: Option<String>)
        requires
            self.wf(),
            ctx.wf(),
        ensures
            opt_chars(r) == instance_node_for(*self, *ctx, qualifier@),
    {
        match ctx.resolve_alias_instance(qualifier) {
            Some(instance) => {
                return Some(instance.node_id.clone());
            },
            None => {},
        }
        let canonical = match self.resolve_table_alias(ctx, Some(qualifier)) {
            Some(c) => c,
            None => {
                return None;
            },
        };
        match ctx.table_node_ids.get(&canonical) {
            Some(id) => Some(id.clone()),
            None => match ctx.cte_definitions.get(&canonical) {
                Some(id) => Some(id.clone()),
                None => None,
            },
        }
    }

    /// Resolves the canonical source table of a filter column without treating
    /// several instances of one relation as separate sources.
    pub fn resolve_filter_column_table(
        &self,
        ctx: &StatementContext,
        qualifier: Option<&str>,
        column: &str,
    ) -> (r: Option<String>)
        requires
            self.wf(),
            ctx.wf(),
        ensures
            opt_chars(r) == filter_column_table(*self, *ctx, opt_str(qualifier), column@),
    {
        if qualifier.is_some() {
            return self.resolve_table_alias(ctx, qualifier);
        }
        let instances = ctx.relation_instances_in_current_scope();
        if instances.len() == 0 {
            return None;
        }
        if instances.len() == 1 {
            assert(instances.deep_view()[0] == instances@[0].deep_view());
            return Some(instances[0].canonical.clone());
        }
        let candidates = self.candidate_tables_for_column(ctx, column);
        if candidates.len() == 1 {
            assert(candidates.deep_view()[0] == candidates@[0]@);
            Some(candidates[0].clone())
        } else {
            None
        }
    }

    /// Records a diagnostic about statement `statement_index`.
    pub fn push_issue(&mut self, severity: Severity, code: &str, message: String, statement_index: usize)
        ensures
            *final(self) == (Analyzer { issues: final(self).issues, ..*old(self) }),
            issue_pushed(old(self).issues@, final(self).issues@, severity, code@, message@, statement_index),
    {
        let issue = Issue {
            severity,
            code: string_of(code),
            message,
            span: None,
            statement_index: Some(statement_index),
        };
        self.issues.push(issue);
        assert(self.issues@.drop_last() =~= old(self).issues@);
    }

    /// Resolves the table an output column's source belongs to; see
    /// `column_table`. An unqualified column that no single table owns raises an
    /// `UNRESOLVED_REFERENCE` warning; see `column_table_warning`.
    pub fn resolve_column_table(&mut self, ctx: &StatementContext, qualifier: Option<&str>, column: &str) -> (r: Option<String>)
        requires
            old(self).wf(),
            ctx.wf(),
        ensures
            final(self).wf(),
            opt_chars(r) == column_table(*old(self), *ctx, opt_str(qualifier), column@),
            *final(self) == (Analyzer { issues: final(self).issues, ..*old(self) }),
            match column_table_warning(*old(self), *ctx, opt_str(qualifier), column@) {
                None => final(self).issues@ == old(self).issues@,
                Some(m) => issue_pushed(
                    old(self).issues@,
                    final(self).issues@,
                    Severity::Warning,
                    UNRESOLVED_REFERENCE@,
                    m,
                    ctx.statement_index,
                ),
            },
    {
        if qualifier.is_some() {
            return self.resolve_table_alias(ctx, qualifier);
        }
        let instances = ctx.relation_instances_in_current_scope();
        if instances.len() == 0 {
            let mut m = string_of("Column '");
            m.append(column);
            m.append("' referenced but no tables are currently in scope");
            self.push_issue(Severity::Warning, UNRESOLVED_REFERENCE, m, ctx.statement_index);
            return None;
        }
        if instances.len() == 1 {
            assert(instances.deep_view()[0] == instances@[0].deep_view());
            return Some(instances[0].canonical.clone());
        }
        let candidates = self.candidate_tables_for_column(ctx, column);
        if candidates.len() == 1 {
            assert(candidates.deep_view()[0] == candidates@[0]@);
            if ctx.relation_instance_count_in_current_scope(candidates[0].as_str()) == 1 {
                return Some(candidates[0].clone());
            }
            let names = sorted_names(&instance_canonicals(&instances));
            let mut m = string_of("Column '");
            m.append(column);
            m.append("' exists in multiple tables in scope: ");
            m.append(joined_names(&names).as_str());
            m.append(". Qualify the column to disambiguate.");
            self.push_issue(Severity::Warning, UNRESOLVED_REFERENCE, m, ctx.statement_index);
            None
        } else if candidates.len() == 0 {
            let names = sorted_names(&instance_canonicals(&instances));
            let mut m = string_of("Column '");
            m.append(column);
            m.append("' is ambiguous across tables in scope: ");
            m.append(joined_names(&names).as_str());
            self.push_issue(Severity::Warning, UNRESOLVED_REFERENCE, m, ctx.statement_index);
            None
        } else {
            let names = sorted_names(&candidates);
            let mut m = string_of("Column '");
            m.append(column);
            m.append("' exists in multiple tables in scope: ");
            m.append(joined_names(&names).as_str());
            m.append(". Qualify the column to disambiguate.");
            self.push_issue(Severity::Warning, UNRESOLVED_REFERENCE, m, ctx.statement_index);
            None
        }
    }
}

/// An unqualified column reference that lineage cannot attribute to a table is
/// always reported, and one that it can attribute never is; a qualified
/// reference is never reported.
pub proof fn law_unresolved_columns_are_reported(a: Analyzer, ctx: StatementContext, qualifier: Option<Seq<char>>, column: Seq<char>)
    ensures
        column_table_warning(a, ctx, qualifier, column) is Some <==> (qualifier is None && column_table(a, ctx, qualifier, column) is None),
{
}

/// Filter routing resolves every column that lineage resolves, to the same
/// table; it differs only in also resolving a column of a self-joined table.
pub proof fn law_filter_routing_extends_lineage_resolution(a: Analyzer, ctx: StatementContext, qualifier: Option<Seq<char>>, column: Seq<char>)
    ensures
        column_table(a, ctx, qualifier, column) is Some ==> filter_column_table(a, ctx, qualifier, column) == column_table(a, ctx, qualifier, column),
{
}

/// In a self-join, each alias of the current scope stands for its own relation
/// instance node.
pub proof fn law_aliases_resolve_to_their_instances(a: Analyzer, ctx: StatementContext, q: Seq<char>)
    requires
        ctx.scope_stack@.len() > 0,
        ctx.scope_stack@.last().alias_instances.as_map().contains_key(q),
    ensures
        instance_node_for(a, ctx, q) == Some(ctx.scope_stack@.last().alias_instances.as_map()[q].node_id),
{
}

} // verus!
