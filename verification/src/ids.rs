//! Identifiers of lineage graph nodes and edges.
//!
//! Every identifier is a readable string that begins with the kind of the thing
//! it names, so identifiers of different kinds never coincide.

use vstd::prelude::*;

use crate::text::string_of;

verus! {

/// The decimal digit character of `d` (for `d < 10`).
pub open spec fn digit_char(d: nat) -> char {
    ((48 + d) as u8) as char
}

/// The decimal representation of `n`, without leading zeros.
pub open spec fn decimal(n: nat) -> Seq<char>
    decreases n,
{
    if n < 10 {
        seq![digit_char(n)]
    } else {
        decimal(n / 10).push(digit_char(n % 10))
    }
}

/// Writes `n` in decimal, without leading zeros.
pub fn usize_to_string(n: usize) -> (r: String)
    ensures
        r@ == decimal(n as nat),
    decreases n,
{
    let digit = n % 10;
    let c = ((48 + digit) as u8) as char;
    assert(c == digit_char((n % 10) as nat));
    if n < 10 {
        proof {
            reveal_strlit("");
        }
        let mut r = string_of("");
        crate::text::push_char(&mut r, c);
        assert(r@ =~= seq![c]);
        r
    } else {
        let mut r = usize_to_string(n / 10);
        crate::text::push_char(&mut r, c);
        r
    }
}

/// The identifier of a node of kind `kind` named `name`.
pub open spec fn spec_node_id(kind: Seq<char>, name: Seq<char>) -> Seq<char> {
    kind + ":"@ + name
}

/// Builds the identifier of a node of kind `kind` named `name`.
pub fn generate_node_id(kind: &str, name: &str) -> (r: String)
    ensures
        r@ == spec_node_id(kind@, name@),
{
    let mut r = string_of(kind);
    r.append(":");
    r.append(name);
    r
}

/// The identifier of a column node, qualified by the node that owns it when known.
pub open spec fn spec_column_node_id(parent: Option<Seq<char>>, name: Seq<char>) -> Seq<char> {
    match parent {
        Some(p) => "column:"@ + p + "."@ + name,
        None => "column:"@ + name,
    }
}

/// Builds the identifier of a column node.
pub fn generate_column_node_id(parent: Option<&str>, name: &str) -> (r: String)
    ensures
        r@ == spec_column_node_id(
            match parent {
                Some(p) => Some(p@),
                None => None,
            },
            name@,
        ),
{
    let mut r = string_of("column:");
    match parent {
        Some(p) => {
            r.append(p);
            r.append(".");
        },
        None => {},
    }
    r.append(name);
    r
}

/// The identifier of the edge from `from` to `to`.
pub open spec fn spec_edge_id(from: Seq<char>, to: Seq<char>) -> Seq<char> {
    "edge:"@ + from + "->"@ + to
}

/// Builds the identifier of the edge from `from` to `to`.
pub fn generate_edge_id(from: &str, to: &str) -> (r: String)
    ensures
        r@ == spec_edge_id(from@, to@),
{
    let mut r = string_of("edge:");
    r.append(from);
    r.append("->");
    r.append(to);
    r
}

/// The identifier of the output node of statement `index`.
pub open spec fn spec_output_node_id(index: nat) -> Seq<char> {
    "output:"@ + decimal(index)
}

/// Builds the identifier of the output node of statement `index`.
pub fn generate_output_node_id(index: usize) -> (r: String)
    ensures
        r@ == spec_output_node_id(index as nat),
{
    let mut r = string_of("output:");
    let n = usize_to_string(index);
    r.append(n.as_str());
    r
}

} // verus!
