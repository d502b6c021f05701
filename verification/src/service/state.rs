//! The service's shared state: generated graph sources by id.
use vstd::prelude::*;

verus! {

/// A generated graph: its format (`dot` or `plantuml`) and its source.
#[derive(Debug)]
pub struct GraphPayload {
    pub format: String,
    pub source: String,
}

/// The format and source of a graph.
pub open spec fn payload_view(p: GraphPayload) -> (Seq<char>, Seq<char>) {
    (p.format@, p.source@)
}

/// The graph most recently stored under `id`.
pub open spec fn lookup_graph(es: Seq<(String, GraphPayload)>, id: Seq<char>) -> Option<(Seq<char>, Seq<char>)>
    decreases es.len(),
{
    if es.len() == 0 {
        None
    } else if es.last().0@ == id {
        Some(payload_view(es.last().1))
    } else {
        lookup_graph(es.drop_last(), id)
    }
}

/// Generated graphs by id.
pub struct AppState {
    graphs: Vec<(String, GraphPayload)>,
}

impl View for AppState {
    /// Graph id to (format, source).
    type V = Map<Seq<char>, (Seq<char>, Seq<char>)>;

    closed spec fn view(&self) -> Self::V {
        Map::new(
            |k: Seq<char>| lookup_graph(self.graphs@, k) is Some,
            |k: Seq<char>| lookup_graph(self.graphs@, k)->0,
        )
    }
}

impl AppState {
    /// No graphs.
    pub fn new() -> (r: Self)
        ensures
            r@ == Map::<Seq<char>, (Seq<char>, Seq<char>)>::empty(),
    {
        let r = AppState { graphs: Vec::new() };
        assert(r@ =~= Map::<Seq<char>, (Seq<char>, Seq<char>)>::empty());
        r
    }

    /// Store a graph under `id`, replacing any graph stored there before.
    pub fn store(&mut self, id: String, payload: GraphPayload)
        ensures
            final(self)@ == old(self)@.insert(id@, payload_view(payload)),
    {
        let ghost es = self.graphs@;
        let ghost k = id@;
        let ghost pv = payload_view(payload);
        self.graphs.push((id, payload));
        assert(self.graphs@.drop_last() =~= es);
        assert forall|x: Seq<char>| #[trigger] lookup_graph(self.graphs@, x) == if x == k {
            Some(pv)
        } else {
            lookup_graph(es, x)
        } by {}
        assert(self@ =~= old(self)@.insert(k, pv));
    }

    /// The graph stored under `id`, if any.
    pub fn get(&self, id: &str) -> (r: Option<GraphPayload>)
        ensures
            match r {
                Some(p) => self@.contains_key(id@) && self@[id@] == payload_view(p),
                None => !self@.contains_key(id@),
            },
    {
        let ghost es = self.graphs@;
        let mut k: usize = self.graphs.len();
        assert(es.take(k as int) =~= es);
        while k > 0
            invariant
                k <= self.graphs.len(),
                es == self.graphs@,
                lookup_graph(es, id@) == lookup_graph(es.take(k as int), id@),
            decreases k,
        {
            assert(es.take(k as int).drop_last() =~= es.take(k - 1));
            let entry = &self.graphs[k - 1];
            if crate::text::equals_str(&crate::text::str_chars(entry.0.as_str()), id) {
                let p = GraphPayload { format: entry.1.format.clone(), source: entry.1.source.clone() };
                return Some(p);
            }
            k = k - 1;
        }
        None
    }
}

/// A graph stored under an id is what a fetch of that id gives back, and
/// storing it leaves the graphs under other ids as they were.
pub proof fn law_get_after_store(
    before: Map<Seq<char>, (Seq<char>, Seq<char>)>,
    after: Map<Seq<char>, (Seq<char>, Seq<char>)>,
    id: Seq<char>,
    p: (Seq<char>, Seq<char>),
    other: Seq<char>,
)
    requires
        after == before.insert(id, p),
        other != id,
    ensures
        after.contains_key(id) && after[id] == p,
        after.contains_key(other) == before.contains_key(other),
        before.contains_key(other) ==> after[other] == before[other],
{
}

} // verus!
