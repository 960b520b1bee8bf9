//! Statement analysis: the analyzer state, the per-statement context that the
//! lineage graph is built in, and the passes over it.

pub mod aggregation;
pub mod context;
pub mod expression;
pub mod filters;
pub mod global;
pub mod merge;
pub mod query;
pub mod projection;
pub mod resolution;
pub mod statements;
pub mod visitor;
pub mod wildcard;

use vstd::prelude::*;

use crate::collections::KeyMap;
use crate::dialect::Dialect;
use crate::generated::case_sensitivity::{spec_apply, spec_normalization_strategy};
use crate::types::{Issue, StatementLineage};
use crate::text::string_of;

verus! {

/// How the SQL text was templated before analysis.
#[derive(Debug, Clone, Copy, PartialEq, Eq, Structural)]
pub enum TemplateMode {
    Jinja,
    Dbt,
}

/// What the analyzer was asked to analyze.
#[derive(Debug)]
pub struct AnalyzeRequest {
    pub sql: String,
    pub dialect: Dialect,
    /// The templating mode, when the SQL was templated.
    pub template_mode: Option<TemplateMode>,
}

/// The state of an analysis run across the statements of a request.
pub struct Analyzer {
    pub request: AnalyzeRequest,
    /// Whether column-level lineage is built (otherwise only table-level lineage).
    pub column_lineage_enabled: bool,
    /// Diagnostics gathered so far.
    pub issues: Vec<Issue>,
    /// The lineage of each statement analyzed so far.
    pub statement_lineages: Vec<StatementLineage>,
    /// The known schema: canonical table name -> its columns.
    pub schema: KeyMap<String, SchemaTable>,
}

/// A column of a table whose schema is known.
#[derive(Debug)]
pub struct SchemaColumn {
    pub name: String,
    pub data_type: Option<String>,
}

impl DeepView for SchemaColumn {
    type V = (Seq<char>, Option<Seq<char>>);

    open spec fn deep_view(&self) -> (Seq<char>, Option<Seq<char>>) {
        (self.name@, self.data_type.deep_view())
    }
}

/// Where a table's schema came from.
#[derive(Debug, Clone, Copy, PartialEq, Eq, Structural)]
pub enum SchemaOrigin {
    /// Provided with the request.
    Imported,
    /// Inferred from the analyzed statements.
    Implied,
}

/// The schema known for a table.
#[derive(Debug)]
pub struct SchemaTable {
    pub columns: Vec<SchemaColumn>,
    pub origin: SchemaOrigin,
}

/// The value of a table schema.
pub struct SchemaTableView {
    pub columns: Seq<(Seq<char>, Option<Seq<char>>)>,
    pub origin: SchemaOrigin,
}

impl DeepView for SchemaTable {
    type V = SchemaTableView;

    open spec fn deep_view(&self) -> SchemaTableView {
        SchemaTableView { columns: self.columns.deep_view(), origin: self.origin }
    }
}

impl Analyzer {
    /// The analyzer's own bookkeeping is consistent.
    pub open spec fn wf(&self) -> bool {
        self.schema.wf()
    }

    /// An identifier as the request's dialect normalizes it.
    pub open spec fn spec_normalize(&self, name: Seq<char>) -> Seq<char> {
        spec_apply(spec_normalization_strategy(self.request.dialect), name)
    }

    /// Normalizes an identifier by the case rules of the request's dialect.
    pub fn normalize_identifier(&self, name: &str) -> (r: String)
        ensures
            r@ == self.spec_normalize(name@),
    {
        match self.request.dialect.normalization_strategy().apply(name) {
            std::borrow::Cow::Borrowed(b) => string_of(b),
            std::borrow::Cow::Owned(o) => o,
        }
    }
}

} // verus!
