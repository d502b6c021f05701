//! Graphviz DOT output.
use vstd::prelude::*;

use crate::text::{push_all, str_chars, string_from_chars};
use crate::viz::graph::{roots_size, roots_text, write_roots, Node, Style};

verus! {

/// The DOT text of statement trees: a `digraph` header, each statement's
/// nodes and edges, and the closing brace.
pub open spec fn dot_text(roots: Seq<Node>) -> Seq<char> {
    "digraph coral_ast {\n"@ + "  rankdir=TB;\n"@
        + "  node [fontname=\"Helvetica\", shape=box, style=\"rounded,filled\"];\n"@
        + "  edge [fontname=\"Helvetica\"];\n\n"@ + roots_text(Style::Dot, roots, 0, 0) + "}\n"@
}

/// Render statement trees as DOT.
pub fn render(roots: &[Node]) -> (r: String)
    requires
        roots_size(roots@, 0) <= u32::MAX,
    ensures
        r@ == dot_text(roots@),
{
    let mut out = str_chars("digraph coral_ast {\n");
    push_all(&mut out, &str_chars("  rankdir=TB;\n"));
    push_all(&mut out, &str_chars("  node [fontname=\"Helvetica\", shape=box, style=\"rounded,filled\"];\n"));
    push_all(&mut out, &str_chars("  edge [fontname=\"Helvetica\"];\n\n"));
    write_roots(Style::Dot, roots, &mut out);
    push_all(&mut out, &str_chars("}\n"));
    string_from_chars(out)
}

} // verus!
