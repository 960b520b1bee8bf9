//! Codes of the issues the analyzer reports.

use vstd::prelude::*;

verus! {

/// Lineage was built without knowing the columns involved (such as `SELECT *`
/// from a table whose schema is unknown).
pub const APPROXIMATE_LINEAGE: &'static str = "APPROXIMATE_LINEAGE";

/// A column reference could not be attributed to one table.
pub const UNRESOLVED_REFERENCE: &'static str = "UNRESOLVED_REFERENCE";

} // verus!
