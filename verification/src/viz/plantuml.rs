//! PlantUML output.
use vstd::prelude::*;

use crate::text::{push_all, str_chars, string_from_chars};
use crate::viz::graph::{roots_size, roots_text, write_roots, Node, Style};

verus! {

/// The PlantUML text of statement trees, between `@startuml` and
/// `@enduml`.
pub open spec fn plantuml_text(roots: Seq<Node>) -> Seq<char> {
    "@startuml\n"@ + "skinparam rectangleBackgroundColor #FAFAFA\n"@
        + "skinparam rectangleBorderColor #BDBDBD\n"@ + "skinparam roundCorner 10\n\n"@
        + roots_text(Style::PlantUml, roots, 0, 0) + "@enduml\n"@
}

/// Render statement trees as PlantUML.
pub fn render(roots: &[Node]) -> (r: String)
    requires
        roots_size(roots@, 0) <= u32::MAX,
    ensures
        r@ == plantuml_text(roots@),
{
    let mut out = str_chars("@startuml\n");
    push_all(&mut out, &str_chars("skinparam rectangleBackgroundColor #FAFAFA\n"));
    push_all(&mut out, &str_chars("skinparam rectangleBorderColor #BDBDBD\n"));
    push_all(&mut out, &str_chars("skinparam roundCorner 10\n\n"));
    write_roots(Style::PlantUml, roots, &mut out);
    push_all(&mut out, &str_chars("@enduml\n"));
    string_from_chars(out)
}

} // verus!
