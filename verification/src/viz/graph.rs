//! The node tree the renderers print, and the printing both share: nodes
//! are numbered in pre-order, one line per node and one per edge from its
//! parent.
use vstd::prelude::*;

use crate::text::{dec, push_all, str_chars, usize_text};

verus! {

/// What a node stands for; the renderers color by it.
#[derive(Debug, Clone, Copy, PartialEq, Eq)]
pub enum NodeKind {
    Statement,
    Query,
    Select,
    From,
    Table,
    Join,
    Filter,
    GroupBy,
    Having,
    OrderBy,
    Limit,
    Projection,
    SetOp,
    Cte,
    Expression,
    Subquery,
    Values,
    Misc,
}

/// A labelled node with its children.
#[derive(Debug)]
pub struct Node {
    pub label: String,
    pub kind: NodeKind,
    pub children: Vec<Node>,
}

/// The two output syntaxes.
#[derive(Debug, Clone, Copy, PartialEq, Eq)]
pub enum Style {
    Dot,
    PlantUml,
}

/// Fill color of a kind (the same in both syntaxes).
pub open spec fn kind_color(k: NodeKind) -> Seq<char> {
    match k {
        NodeKind::Statement | NodeKind::Query | NodeKind::Subquery | NodeKind::Cte => "#E8EAF6"@,
        NodeKind::Select | NodeKind::Projection => "#E3F2FD"@,
        NodeKind::From | NodeKind::Table | NodeKind::Join => "#FFF3E0"@,
        NodeKind::Filter | NodeKind::Having => "#FCE4EC"@,
        NodeKind::GroupBy | NodeKind::OrderBy | NodeKind::Limit => "#F1F8E9"@,
        NodeKind::SetOp => "#EDE7F6"@,
        NodeKind::Expression => "#FFFFFF"@,
        NodeKind::Values | NodeKind::Misc => "#EEEEEE"@,
    }
}

/// DOT shape of a kind.
pub open spec fn kind_shape(k: NodeKind) -> Seq<char> {
    match k {
        NodeKind::Table => "cylinder"@,
        NodeKind::Expression => "ellipse"@,
        _ => "box"@,
    }
}

fn color_of(k: NodeKind) -> (r: &'static str)
    ensures
        r@ == kind_color(k),
{
    match k {
        NodeKind::Statement | NodeKind::Query | NodeKind::Subquery | NodeKind::Cte => "#E8EAF6",
        NodeKind::Select | NodeKind::Projection => "#E3F2FD",
        NodeKind::From | NodeKind::Table | NodeKind::Join => "#FFF3E0",
        NodeKind::Filter | NodeKind::Having => "#FCE4EC",
        NodeKind::GroupBy | NodeKind::OrderBy | NodeKind::Limit => "#F1F8E9",
        NodeKind::SetOp => "#EDE7F6",
        NodeKind::Expression => "#FFFFFF",
        NodeKind::Values | NodeKind::Misc => "#EEEEEE",
    }
}

fn shape_of(k: NodeKind) -> (r: &'static str)
    ensures
        r@ == kind_shape(k),
{
    match k {
        NodeKind::Table => "cylinder",
        NodeKind::Expression => "ellipse",
        _ => "box",
    }
}

/// A label character as DOT writes it inside quotes: backslash, double
/// quote and newline escaped with a backslash.
pub open spec fn dot_escape_char(c: char) -> Seq<char> {
    if c == '\\' {
        seq!['\\', '\\']
    } else if c == '"' {
        seq!['\\', '"']
    } else if c == '\n' {
        seq!['\\', 'n']
    } else {
        seq![c]
    }
}

/// A label character as PlantUML writes it inside quotes: a double quote
/// as two single quotes, a newline as a space.
pub open spec fn plant_escape_char(c: char) -> Seq<char> {
    if c == '"' {
        seq!['\'', '\'']
    } else if c == '\n' {
        seq![' ']
    } else {
        seq![c]
    }
}

pub open spec fn escape_char(style: Style, c: char) -> Seq<char> {
    match style {
        Style::Dot => dot_escape_char(c),
        Style::PlantUml => plant_escape_char(c),
    }
}

/// A label escaped for `style`.
pub open spec fn escape(style: Style, s: Seq<char>) -> Seq<char>
    decreases s.len(),
{
    if s.len() == 0 {
        Seq::empty()
    } else {
        escape(style, s.drop_last()) + escape_char(style, s.last())
    }
}

/// Escape a label for `style`.
pub fn escape_label(style: Style, s: &str) -> (r: Vec<char>)
    ensures
        r@ == escape(style, s@),
{
    let cs = str_chars(s);
    let mut out: Vec<char> = Vec::new();
    let mut i: usize = 0;
    while i < cs.len()
        invariant
            i <= cs.len(),
            cs@ == s@,
            out@ == escape(style, cs@.take(i as int)),
        decreases cs.len() - i,
    {
        let c = cs[i];
        assert(cs@.take(i + 1).drop_last() =~= cs@.take(i as int));
        match style {
            Style::Dot => {
                if c == '\\' {
                    out.push('\\');
                    out.push('\\');
                } else if c == '"' {
                    out.push('\\');
                    out.push('"');
                } else if c == '\n' {
                    out.push('\\');
                    out.push('n');
                } else {
                    out.push(c);
                }
            },
            Style::PlantUml => {
                if c == '"' {
                    out.push('\'');
                    out.push('\'');
                } else if c == '\n' {
                    out.push(' ');
                } else {
                    out.push(c);
                }
            },
        }
        assert(out@ =~= escape(style, cs@.take(i + 1)));
        i = i + 1;
    }
    assert(cs@.take(cs.len() as int) =~= cs@);
    out
}

/// The line that declares node `id`.
pub open spec fn node_line(style: Style, id: nat, n: Node) -> Seq<char> {
    match style {
        Style::Dot => "  n"@ + dec(id) + " [label=\""@ + escape(style, n.label@) + "\", fillcolor=\""@
            + kind_color(n.kind) + "\", shape="@ + kind_shape(n.kind) + "];\n"@,
        Style::PlantUml => "rectangle \""@ + escape(style, n.label@) + "\" as n"@ + dec(id) + " "@
            + kind_color(n.kind) + "\n"@,
    }
}

/// The line of the edge from `parent` to `id`.
pub open spec fn edge_line(style: Style, parent: nat, id: nat) -> Seq<char> {
    match style {
        Style::Dot => "  n"@ + dec(parent) + " -> n"@ + dec(id) + ";\n"@,
        Style::PlantUml => "n"@ + dec(parent) + " --> n"@ + dec(id) + "\n"@,
    }
}

/// How many nodes a tree has.
pub open spec fn tree_size(n: Node) -> nat
    decreases n, 1nat,
{
    1 + forest_size(n.children@)
}

pub open spec fn forest_size(cs: Seq<Node>) -> nat
    decreases cs, 0nat,
{
    if cs.len() == 0 {
        0
    } else {
        tree_size(cs[0]) + forest_size(cs.drop_first())
    }
}

/// The text of a tree whose root gets number `id`, its nodes numbered in
/// pre-order.
pub open spec fn tree_text(style: Style, n: Node, id: nat, parent: Option<nat>) -> Seq<char>
    decreases n, 1nat,
{
    let head = node_line(style, id, n) + match parent {
        Some(p) => edge_line(style, p, id),
        None => Seq::empty(),
    };
    head + forest_text(style, n.children@, id + 1, id)
}

/// The text of sibling trees, numbered from `id` on, all children of
/// `parent`.
pub open spec fn forest_text(style: Style, cs: Seq<Node>, id: nat, parent: nat) -> Seq<char>
    decreases cs, 0nat,
{
    if cs.len() == 0 {
        Seq::empty()
    } else {
        tree_text(style, cs[0], id, Some(parent)) + forest_text(style, cs.drop_first(), id + tree_size(cs[0]), parent)
    }
}

/// The comment that opens statement `i`.
pub open spec fn statement_comment(style: Style, i: nat) -> Seq<char> {
    match style {
        Style::Dot => "  // statement "@ + dec(i) + "\n"@,
        Style::PlantUml => "' statement "@ + dec(i) + "\n"@,
    }
}

/// The statements from `i` on, the first numbered from `id`.
pub open spec fn roots_text(style: Style, roots: Seq<Node>, i: nat, id: nat) -> Seq<char>
    decreases roots.len() - i,
{
    if i >= roots.len() {
        Seq::empty()
    } else {
        statement_comment(style, i) + tree_text(style, roots[i as int], id, None) + "\n"@
            + roots_text(style, roots, i + 1, id + tree_size(roots[i as int]))
    }
}

pub open spec fn roots_size(roots: Seq<Node>, i: nat) -> nat
    decreases roots.len() - i,
{
    if i >= roots.len() {
        0
    } else {
        tree_size(roots[i as int]) + roots_size(roots, i + 1)
    }
}

fn push_str(out: &mut Vec<char>, s: &str)
    ensures
        final(out)@ == old(out)@ + s@,
{
    push_all(out, &str_chars(s));
}

fn push_num(out: &mut Vec<char>, n: u32)
    ensures
        final(out)@ == old(out)@ + dec(n as nat),
{
    push_all(out, &usize_text(n as usize));
}

fn write_head(style: Style, node: &Node, id: u32, parent: Option<u32>, out: &mut Vec<char>)
    ensures
        final(out)@ == old(out)@ + node_line(style, id as nat, *node) + match parent {
            Some(p) => edge_line(style, p as nat, id as nat),
            None => Seq::empty(),
        },
{
    let label = escape_label(style, node.label.as_str());
    let ghost o0 = out@;
    match style {
        Style::Dot => {
            push_str(out, "  n");
            push_num(out, id);
            push_str(out, " [label=\"");
            push_all(out, &label);
            push_str(out, "\", fillcolor=\"");
            push_str(out, color_of(node.kind));
            push_str(out, "\", shape=");
            push_str(out, shape_of(node.kind));
            push_str(out, "];\n");
            assert(out@ =~= o0 + node_line(style, id as nat, *node));
            let ghost o1 = out@;
            if let Some(p) = parent {
                push_str(out, "  n");
                push_num(out, p);
                push_str(out, " -> n");
                push_num(out, id);
                push_str(out, ";\n");
                assert(out@ =~= o1 + edge_line(style, p as nat, id as nat));
            }
        },
        Style::PlantUml => {
            push_str(out, "rectangle \"");
            push_all(out, &label);
            push_str(out, "\" as n");
            push_num(out, id);
            push_str(out, " ");
            push_str(out, color_of(node.kind));
            push_str(out, "\n");
            assert(out@ =~= o0 + node_line(style, id as nat, *node));
            let ghost o1 = out@;
            if let Some(p) = parent {
                push_str(out, "n");
                push_num(out, p);
                push_str(out, " --> n");
                push_num(out, id);
                push_str(out, "\n");
                assert(out@ =~= o1 + edge_line(style, p as nat, id as nat));
            }
        },
    }
}

fn write_tree(style: Style, node: &Node, counter: &mut u32, parent: Option<u32>, out: &mut Vec<char>)
    requires
        *old(counter) + tree_size(*node) <= u32::MAX,
    ensures
        *final(counter) == *old(counter) + tree_size(*node),
        final(out)@ == old(out)@ + tree_text(
            style,
            *node,
            *old(counter) as nat,
            match parent {
                Some(p) => Some(p as nat),
                None => None,
            },
        ),
    decreases node, 1nat,
{
    let id = *counter;
    *counter = *counter + 1;
    let ghost o0 = out@;
    write_head(style, node, id, parent, out);
    let ghost o1 = out@;
    write_forest(style, &node.children, counter, id, out);
    assert(out@ =~= o0 + (o1.skip(o0.len() as int) + forest_text(style, node.children@, id as nat + 1, id as nat)));
}

fn write_forest(style: Style, cs: &Vec<Node>, counter: &mut u32, parent: u32, out: &mut Vec<char>)
    requires
        *old(counter) + forest_size(cs@) <= u32::MAX,
    ensures
        *final(counter) == *old(counter) + forest_size(cs@),
        final(out)@ == old(out)@ + forest_text(style, cs@, *old(counter) as nat, parent as nat),
    decreases cs@, 0nat,
{
    let ghost c0 = *counter as nat;
    let ghost o0 = out@;
    assert(cs@.skip(0) =~= cs@);
    let mut i: usize = 0;
    while i < cs.len()
        invariant
            i <= cs.len(),
            *counter == c0 + forest_size(cs@) - forest_size(cs@.skip(i as int)),
            c0 + forest_size(cs@) <= u32::MAX,
            out@ + forest_text(style, cs@.skip(i as int), *counter as nat, parent as nat) == o0
                + forest_text(style, cs@, c0, parent as nat),
            forest_size(cs@.skip(i as int)) <= forest_size(cs@),
        decreases cs.len() - i,
    {
        let ghost rest = cs@.skip(i as int);
        assert(rest[0] == cs@[i as int]);
        assert(rest.drop_first() =~= cs@.skip(i + 1));
        write_tree(style, &cs[i], counter, Some(parent), out);
        i = i + 1;
    }
    assert(cs@.skip(cs.len() as int) =~= Seq::<Node>::empty());
}

/// Print the statement trees in order, numbering all nodes from 0.
pub fn write_roots(style: Style, roots: &[Node], out: &mut Vec<char>)
    requires
        roots_size(roots@, 0) <= u32::MAX,
    ensures
        final(out)@ == old(out)@ + roots_text(style, roots@, 0, 0),
{
    let ghost o0 = out@;
    let mut counter: u32 = 0;
    let mut i: usize = 0;
    while i < roots.len()
        invariant
            i <= roots.len(),
            counter + roots_size(roots@, i as nat) == roots_size(roots@, 0),
            roots_size(roots@, 0) <= u32::MAX,
            out@ + roots_text(style, roots@, i as nat, counter as nat) == o0 + roots_text(style, roots@, 0, 0),
        decreases roots.len() - i,
    {
        let ghost o1 = out@;
        match style {
            Style::Dot => push_str(out, "  // statement "),
            Style::PlantUml => push_str(out, "' statement "),
        }
        push_all(out, &usize_text(i));
        push_str(out, "\n");
        assert(out@ =~= o1 + statement_comment(style, i as nat));
        write_tree(style, &roots[i], &mut counter, None, out);
        push_str(out, "\n");
        i = i + 1;
    }
}

} // verus!
