//! The lineage visitor: the state a traversal of a statement carries.

use vstd::prelude::*;

use super::context::{opt_chars, StatementContext};
use super::resolution::qualifier_target;
use super::Analyzer;

verus! {

/// Builds the lineage graph of a statement while its syntax tree is traversed.
pub struct LineageVisitor<'a> {
    pub analyzer: &'a mut Analyzer,
    pub ctx: &'a mut StatementContext,
    /// The node that relations found next feed, if any.
    pub target_node: Option<String>,
}

impl<'a> LineageVisitor<'a> {
    pub fn new(analyzer: &'a mut Analyzer, ctx: &'a mut StatementContext, target_node: Option<String>) -> (r: LineageVisitor<'a>)
        ensures
            r.target_node == target_node,
            *r.analyzer == *old(analyzer),
            *r.ctx == *old(ctx),
            *final(analyzer) == *final(r.analyzer),
            *final(ctx) == *final(r.ctx),
    {
        LineageVisitor { analyzer, ctx, target_node }
    }

    /// A target node identifier as an owned string.
    pub fn target_from_arc(arc: Option<&String>) -> (r: Option<String>)
        ensures
            arc is None ==> r is None,
            arc matches Some(a) ==> (r matches Some(s) && s@ == a@),
    {
        match arc {
            Some(a) => Some(a.clone()),
            None => None,
        }
    }

    /// Sets the node that relations found next feed.
    pub fn set_target_node(&mut self, target: Option<String>)
        ensures
            final(self).target_node == target,
            *final(self).ctx == *old(self).ctx,
            *final(self).analyzer == *old(self).analyzer,
    {
        self.target_node = target;
    }

    /// Resolves a qualifier to the canonical relation it names in the statement
    /// being visited.
    pub fn resolve_table_alias(&self, alias: Option<&str>) -> (r: Option<String>)
        requires
            self.analyzer.wf(),
            self.ctx.wf(),
        ensures
            opt_chars(r) == match alias {
                Some(q) => qualifier_target(*old(self.analyzer), *old(self.ctx), q@),
                None => None,
            },
    {
        self.analyzer.resolve_table_alias(self.ctx, alias)
    }

    /// Sets the operation label of the edges added next.
    pub fn set_last_operation(&mut self, op: Option<String>)
        ensures
            *final(self).ctx == (StatementContext { last_operation: op, ..*old(self).ctx }),
            final(self).target_node == old(self).target_node,
            *final(self).analyzer == *old(self).analyzer,
    {
        self.ctx.last_operation = op;
    }
}

} // verus!
