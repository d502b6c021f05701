//! Syntax-tree visualisation: a statement drawn as a tree of labelled
//! boxes, in Graphviz DOT or PlantUML.
pub mod dot;
pub mod graph;
pub mod plantuml;
pub mod walker;

pub use graph::{Node, NodeKind};

use vstd::prelude::*;

use crate::sql::ast::{parse_sql_text, parse_count};
use graph::{forest_size, roots_size, tree_size};

verus! {

/// The output syntaxes.
#[derive(Debug, Clone, Copy, PartialEq, Eq)]
pub enum Format {
    Dot,
    PlantUml,
}

/// Why a text could not be drawn.
#[derive(Debug)]
pub enum VizError {
    /// The text did not parse; the parser's message.
    Parse(String),
    /// The trees have more nodes than the renderers number (`u32`).
    TooLarge,
}

impl VizError {
    /// The message the error displays.
    pub fn message(&self) -> (r: String)
        ensures
            r@ == match self {
                VizError::Parse(m) => "parse error: "@ + m@,
                VizError::TooLarge => "tree too large to number"@,
            },
    {
        match self {
            VizError::Parse(m) => {
                let mut out = crate::text::str_chars("parse error: ");
                crate::text::push_all(&mut out, &crate::text::str_chars(m.as_str()));
                crate::text::string_from_chars(out)
            },
            VizError::TooLarge => crate::text::string_from_chars(crate::text::str_chars("tree too large to number")),
        }
    }
}

/// The number of nodes of a tree, if it is at most `limit`.
fn tree_count(n: &Node, limit: u64) -> (r: Option<u64>)
    ensures
        match r {
            Some(c) => c == tree_size(*n) && c <= limit,
            None => tree_size(*n) > limit,
        },
    decreases n, 1nat,
{
    if limit == 0 {
        return None;
    }
    match forest_count(&n.children, limit - 1) {
        Some(c) => Some(c + 1),
        None => None,
    }
}

fn forest_count(cs: &Vec<Node>, limit: u64) -> (r: Option<u64>)
    ensures
        match r {
            Some(c) => c == forest_size(cs@) && c <= limit,
            None => forest_size(cs@) > limit,
        },
    decreases cs@, 0nat,
{
    let mut total: u64 = 0;
    let mut i: usize = 0;
    assert(cs@.skip(0) =~= cs@);
    while i < cs.len()
        invariant
            i <= cs.len(),
            total <= limit,
            total + forest_size(cs@.skip(i as int)) == forest_size(cs@),
        decreases cs.len() - i,
    {
        assert(cs@.skip(i as int).drop_first() =~= cs@.skip(i + 1));
        assert(cs@.skip(i as int)[0] == cs@[i as int]);
        match tree_count(&cs[i], limit - total) {
            Some(c) => {
                total = total + c;
            },
            None => {
                return None;
            },
        }
        i = i + 1;
    }
    assert(cs@.skip(cs.len() as int) =~= Seq::<Node>::empty());
    Some(total)
}

fn roots_fit(roots: &Vec<Node>) -> (r: bool)
    ensures
        r == (roots_size(roots@, 0) <= u32::MAX),
{
    let mut total: u64 = 0;
    let mut i: usize = 0;
    while i < roots.len()
        invariant
            i <= roots.len(),
            total <= u32::MAX,
            total + roots_size(roots@, i as nat) == roots_size(roots@, 0),
        decreases roots.len() - i,
    {
        match tree_count(&roots[i], 0xffff_ffffu64 - total) {
            Some(c) => {
                total = total + c;
            },
            None => {
                return false;
            },
        }
        i = i + 1;
    }
    true
}

/// Whether a text is the drawing, in `format`, of one tree per statement
/// (`n` statements), each rooted at a statement, query or summary node.
pub open spec fn draws_statements(s: Seq<char>, format: Format, n: nat) -> bool {
    exists|roots: Seq<graph::Node>| {
        &&& roots.len() == n
        &&& roots_size(roots, 0) <= u32::MAX
        &&& forall|i: int| 0 <= i < roots.len() ==> is_statement_root(#[trigger] roots[i])
        &&& s == #[trigger] drawing(roots, format)
    }
}

/// The drawing of trees in a format.
pub open spec fn drawing(roots: Seq<graph::Node>, format: Format) -> Seq<char> {
    match format {
        Format::Dot => dot::dot_text(roots),
        Format::PlantUml => plantuml::plantuml_text(roots),
    }
}

/// The kinds the tree of a statement is rooted at.
pub open spec fn is_statement_root(n: graph::Node) -> bool {
    n.kind == graph::NodeKind::Query || n.kind == graph::NodeKind::Statement || n.kind == graph::NodeKind::Misc
}

/// Draw every statement of a SQL text: one tree per parsed statement,
/// drawn in `format`. A parse error exactly when the text does not parse;
/// otherwise the drawing, or `TooLarge` when the trees have more nodes
/// than fit in a `u32`.
pub fn render(sql: &str, format: Format) -> (r: Result<String, VizError>)
    ensures
        parse_count(sql@) is None <==> r matches Err(VizError::Parse(_)),
        r matches Ok(s) ==> draws_statements(s@, format, parse_count(sql@)->0),
{
    match parse_sql_text(sql) {
        Err(e) => Err(VizError::Parse(e)),
        Ok(stmts) => {
            let mut roots: Vec<Node> = Vec::new();
            let mut i: usize = 0;
            while i < stmts.len()
                invariant
                    i <= stmts.len(),
                    roots.len() == i,
                    forall|k: int| 0 <= k < i ==> is_statement_root(#[trigger] roots@[k]),
                decreases stmts.len() - i,
            {
                let n = walker::walk_statement(&stmts[i]);
                let ghost r0 = roots@;
                roots.push(n);
                assert(forall|k: int| 0 <= k < i ==> #[trigger] roots@[k] == r0[k]);
                i = i + 1;
            }
            if !roots_fit(&roots) {
                return Err(VizError::TooLarge);
            }
            let out = match format {
                Format::Dot => dot::render(roots.as_slice()),
                Format::PlantUml => plantuml::render(roots.as_slice()),
            };
            assert(out@ == drawing(roots@, format));
            Ok(out)
        },
    }
}

} // verus!
