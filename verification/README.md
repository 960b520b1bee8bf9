# flowscope_core

The core of column- and table-level lineage analysis for SQL, written in Verus:
the dialect rules and function and type tables, and the per-statement lineage
graph with the passes that build and refine it. Each function carries a
contract; Verus proves every one of them except the small trusted wrappers in
`text.rs` around standard-library character and string routines, whose contracts
state what the standard library documents or give its result a name.

The library works on a statement context that a caller fills in while walking a
parsed statement (relations, aliases, scopes, CTEs), and on models of the
parser's expressions and predicates that carry what the analysis reads; parsing
SQL itself is not part of it.

Layout of `src/`:

- `dialect.rs`: the SQL dialects.
- `generated/`: dialect tables: identifier case rules, function argument
  rules, function classification and signatures, and the canonical type system.
- `text.rs`, `ids.rs`, `collections.rs`: character-level helpers, node and edge
  identifiers, and the insertion-ordered `KeyMap` the analysis state is kept in.
- `issue_codes.rs`: the codes of the diagnostics the analyzer raises.
- `types.rs`: the lineage graph: nodes, edges, filters, issues, and the
  project-level graph and summary.
- `analyzer/`: the analysis proper.
  - `context.rs`: the per-statement context: nodes and edges with their
    identifier indexes, lexical scopes, alias instances, pending filters and
    wildcards, implied schema and foreign keys.
  - `resolution.rs`: resolving table qualifiers and column references to the
    relations in scope, with the warnings an unresolvable column raises.
  - `projection.rs`: output columns with their ownership and data flow edges.
  - `wildcard.rs`: expansion of `SELECT *` and `t.*`, or approximate lineage
    where the columns are unknown.
  - `query.rs`: relation and CTE resolution, wildcard sources, pending filters,
    schema columns, ambiguity of unqualified columns, and backward column
    inference through `SELECT *` chains.
  - `statements.rs`: join metadata and join dependency edges; dbt model names.
  - `expression.rs`: column references and bare identifiers of expressions.
  - `aggregation.rs`: GROUP BY key normalization and aggregate detection.
  - `filters.rs`: localisation of WHERE/HAVING conjuncts to the relations they read.
  - `merge.rs`: merging the statement graphs into the project graph.
  - `global.rs`: the project summary and complexity score.
  - `visitor.rs`: the state a statement traversal carries.

Properties that relate several operations are stated as `law_*` proof
functions next to the operations they are about. `tests/` exercises the
library on concrete values.
