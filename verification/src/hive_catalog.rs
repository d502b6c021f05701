//! Remote metastore catalog with a per-table cache.
//!
//! The transport that reaches the metastore is pluggable through the
//! [`Transport`] trait. Column lookups go through a cache keyed by the
//! lower-cased `(db, table)` pair: the first lookup of a table asks the
//! transport, later ones are answered from the cache. A table the server
//! does not know is cached as absent; a transport failure is not cached, so
//! the next lookup asks again.
use vstd::prelude::*;

use crate::catalog::{strings_view, Catalog};
use crate::preprocess::connect_by::same;
use crate::text::{ascii_lowercase, lower_seq, push_all, slice_chars, str_chars, string_from_chars};

verus! {

/// Errors that can occur when talking to a remote metastore.
#[derive(Debug)]
pub enum CatalogError {
    /// Network / transport failure (timeout, DNS, TLS, HTTP non-2xx).
    Transport(String),
    /// The server replied but the payload did not match the wire format.
    BadResponse(String),
}

impl CatalogError {
    /// The message the error displays.
    pub fn message(&self) -> (r: String)
        ensures
            r@ == match self {
                CatalogError::Transport(m) => "transport error: "@ + m@,
                CatalogError::BadResponse(m) => "response parse error: "@ + m@,
            },
    {
        let (prefix, m) = match self {
            CatalogError::Transport(m) => ("transport error: ", m),
            CatalogError::BadResponse(m) => ("response parse error: ", m),
        };
        let mut out = str_chars(prefix);
        let tail = str_chars(m.as_str());
        crate::text::push_all(&mut out, &tail);
        string_from_chars(out)
    }
}

/// How the catalog reaches the metastore. Implementations return `Ok(None)`
/// when the server has no such table, and `Err(..)` for a transport-level
/// failure.
pub trait Transport {
    fn get_table_schema(&self, db: &str, table: &str) -> Result<Option<TableSchemaJson>, CatalogError>;
}

/// Wire format of a table schema: its columns in declaration order.
#[derive(Debug)]
pub struct TableSchemaJson {
    pub columns: Vec<ColumnJson>,
}

/// One column of the wire format: its name and Hive-style type string.
#[derive(Debug)]
pub struct ColumnJson {
    pub name: String,
    pub data_type: String,
}

/// One cached lookup: the lower-cased key and the column names, or `None`
/// for a table the server reported as absent.
struct CacheEntry {
    db: Vec<char>,
    table: Vec<char>,
    columns: Option<Vec<String>>,
}

/// Catalog backed by a [`Transport`], caching each table's columns.
pub struct HiveCatalog<T: Transport> {
    transport: T,
    cache: Vec<CacheEntry>,
    /// Every `(db, table)` handed to the transport, in order.
    requests: Ghost<Seq<(Seq<char>, Seq<char>)>>,
}

/// The cache key of a lookup: db and table lower-cased.
pub open spec fn cache_key(db: Seq<char>, table: Seq<char>) -> (Seq<char>, Seq<char>) {
    (lower_seq(db), lower_seq(table))
}

spec fn entry_columns(e: CacheEntry) -> Option<Seq<Seq<char>>> {
    match e.columns {
        Some(cs) => Some(strings_view(cs@)),
        None => None,
    }
}

/// Cache contents: for each key, the last entry stored under it.
spec fn cache_map(es: Seq<CacheEntry>) -> Map<(Seq<char>, Seq<char>), Option<Seq<Seq<char>>>>
    decreases es.len(),
{
    if es.len() == 0 {
        Map::empty()
    } else {
        cache_map(es.drop_last()).insert((es.last().db@, es.last().table@), entry_columns(es.last()))
    }
}

/// The column names of a schema reply, in order.
pub open spec fn schema_column_names(s: TableSchemaJson) -> Seq<Seq<char>> {
    s.columns@.map_values(|c: ColumnJson| c.name@)
}

impl<T: Transport> HiveCatalog<T> {
    /// What the cache holds: lower-cased `(db, table)` to the column names,
    /// `None` standing for a table known to be absent.
    pub closed spec fn cached(&self) -> Map<(Seq<char>, Seq<char>), Option<Seq<Seq<char>>>> {
        cache_map(self.cache@)
    }

    /// The transport the catalog talks to.
    pub closed spec fn spec_transport(&self) -> T {
        self.transport
    }

    /// Every `(db, table)` the catalog has handed to the transport, in
    /// order, as it was given to the lookup.
    pub closed spec fn asked(&self) -> Seq<(Seq<char>, Seq<char>)> {
        self.requests@
    }

    /// A catalog with an empty cache.
    pub fn new(transport: T) -> (r: Self)
        ensures
            r.cached() == Map::<(Seq<char>, Seq<char>), Option<Seq<Seq<char>>>>::empty(),
            r.spec_transport() == transport,
            r.asked() == Seq::<(Seq<char>, Seq<char>)>::empty(),
    {
        HiveCatalog { transport, cache: Vec::new(), requests: Ghost(Seq::empty()) }
    }

    /// Evict one cached entry (e.g. after an out-of-band CREATE / ALTER).
    pub fn invalidate(&mut self, db: &str, table: &str)
        ensures
            final(self).cached() == old(self).cached().remove(cache_key(db@, table@)),
            final(self).spec_transport() == old(self).spec_transport(),
            final(self).asked() == old(self).asked(),
    {
        let d = str_chars(&ascii_lowercase(db));
        let t = str_chars(&ascii_lowercase(table));
        let ghost key = cache_key(db@, table@);
        let ghost es = self.cache@;
        let mut kept: Vec<CacheEntry> = Vec::new();
        let mut i: usize = 0;
        while i < self.cache.len()
            invariant
                es == self.cache@,
                i <= es.len(),
                key == (d@, t@),
                cache_map(kept@) == cache_map(es.take(i as int)).remove(key),
            decreases es.len() - i,
        {
            let e = &self.cache[i];
            let ghost before = cache_map(es.take(i as int));
            assert(es.take(i + 1).drop_last() =~= es.take(i as int));
            if same(&e.db, &d) && same(&e.table, &t) {
                assert(before.insert(key, entry_columns(*e)).remove(key) =~= before.remove(key));
            } else {
                let copy = CacheEntry {
                    db: slice_chars(&e.db, 0, e.db.len()),
                    table: slice_chars(&e.table, 0, e.table.len()),
                    columns: clone_columns(&e.columns),
                };
                assert(copy.db@ =~= e.db@);
                assert(copy.table@ =~= e.table@);
                let ghost k0 = kept@;
                kept.push(copy);
                assert(kept@.drop_last() =~= k0);
                assert(before.insert((e.db@, e.table@), entry_columns(*e)).remove(key) =~= before.remove(
                    key,
                ).insert((e.db@, e.table@), entry_columns(*e)));
            }
            i = i + 1;
        }
        assert(es.take(es.len() as int) =~= es);
        self.cache = kept;
    }

    /// Drop every cached entry.
    pub fn invalidate_all(&mut self)
        ensures
            final(self).cached() == Map::<(Seq<char>, Seq<char>), Option<Seq<Seq<char>>>>::empty(),
            final(self).spec_transport() == old(self).spec_transport(),
            final(self).asked() == old(self).asked(),
    {
        self.cache = Vec::new();
    }

    /// The underlying transport.
    pub fn transport(&self) -> (r: &T)
        ensures
            *r == self.spec_transport(),
    {
        &self.transport
    }

    /// Pre-warm the cache for one table: a table already cached is left as
    /// it is; otherwise the transport is asked, and its answer (a schema,
    /// or that the table is unknown) is cached unless the transport failed.
    pub fn prefetch(&mut self, db: &str, table: &str)
        ensures
            final(self).spec_transport() == old(self).spec_transport(),
            final(self).asked() == if old(self).cached().contains_key(cache_key(db@, table@)) {
                old(self).asked()
            } else {
                old(self).asked().push((db@, table@))
            },
            old(self).cached().contains_key(cache_key(db@, table@)) ==> final(self).cached() == old(self).cached(),
            !old(self).cached().contains_key(cache_key(db@, table@)) ==> {
                ||| final(self).cached() == old(self).cached()
                ||| exists|v: Option<Seq<Seq<char>>>| final(self).cached() == #[trigger] old(self).cached().insert(
                    cache_key(db@, table@),
                    v,
                )
            },
            forall|k| k != cache_key(db@, table@) && old(self).cached().contains_key(k)
                ==> #[trigger] final(self).cached().contains_key(k) && final(self).cached()[k]
                == old(self).cached()[k],
    {
        let _ = self.fetch_and_cache(db, table);
    }

    fn lookup_cached(&self, d: &Vec<char>, t: &Vec<char>) -> (r: Option<Option<Vec<String>>>)
        ensures
            match r {
                Some(c) => self.cached().contains_key((d@, t@)) && self.cached()[(d@, t@)] == match c {
                    Some(cs) => Some(strings_view(cs@)),
                    None => None::<Seq<Seq<char>>>,
                },
                None => !self.cached().contains_key((d@, t@)),
            },
    {
        let ghost key = (d@, t@);
        let mut found: Option<Option<Vec<String>>> = None;
        let mut i: usize = 0;
        while i < self.cache.len()
            invariant
                i <= self.cache.len(),
                key == (d@, t@),
                match found {
                    Some(c) => cache_map(self.cache@.take(i as int)).contains_key(key)
                        && cache_map(self.cache@.take(i as int))[key] == match c {
                        Some(cs) => Some(strings_view(cs@)),
                        None => None::<Seq<Seq<char>>>,
                    },
                    None => !cache_map(self.cache@.take(i as int)).contains_key(key),
                },
            decreases self.cache.len() - i,
        {
            assert(self.cache@.take(i + 1).drop_last() =~= self.cache@.take(i as int));
            if same(&self.cache[i].db, d) && same(&self.cache[i].table, t) {
                found = Some(clone_columns(&self.cache[i].columns));
            }
            i = i + 1;
        }
        assert(self.cache@.take(self.cache.len() as int) =~= self.cache@);
        found
    }

    /// Answer a lookup from the cache, or ask the transport and cache the
    /// reply (unless the transport failed).
    fn fetch_and_cache(&mut self, db: &str, table: &str) -> (r: Option<Vec<String>>)
        ensures
            final(self).spec_transport() == old(self).spec_transport(),
            final(self).asked() == if old(self).cached().contains_key(cache_key(db@, table@)) {
                old(self).asked()
            } else {
                old(self).asked().push((db@, table@))
            },
            old(self).cached().contains_key(cache_key(db@, table@)) ==> {
                &&& final(self).cached() == old(self).cached()
                &&& old(self).cached()[cache_key(db@, table@)] == match r {
                    Some(cs) => Some(strings_view(cs@)),
                    None => None::<Seq<Seq<char>>>,
                }
            },
            !old(self).cached().contains_key(cache_key(db@, table@)) ==> {
                ||| final(self).cached() == old(self).cached() && r is None
                ||| final(self).cached() == old(self).cached().insert(
                    cache_key(db@, table@),
                    match r {
                        Some(cs) => Some(strings_view(cs@)),
                        None => None::<Seq<Seq<char>>>,
                    },
                )
            },
    {
        let d = str_chars(&ascii_lowercase(db));
        let t = str_chars(&ascii_lowercase(table));
        if let Some(hit) = self.lookup_cached(&d, &t) {
            return hit;
        }
        proof {
            self.requests = Ghost(self.requests@.push((db@, table@)));
        }
        let reply = self.transport.get_table_schema(db, table);
        self.record_reply(db, table, reply)
    }

    /// What a lookup answers from the transport's reply, and what it caches:
    /// a schema gives its column names, in order, and is cached; a table the
    /// server does not know gives `None` and is cached as absent; a
    /// transport failure gives `None` and leaves the cache as it was.
    pub fn record_reply(
        &mut self,
        db: &str,
        table: &str,
        reply: Result<Option<TableSchemaJson>, CatalogError>,
    ) -> (r: Option<Vec<String>>)
        ensures
            final(self).spec_transport() == old(self).spec_transport(),
            final(self).asked() == old(self).asked(),
            match reply {
                Err(_) => r is None && final(self).cached() == old(self).cached(),
                Ok(None) => r is None && final(self).cached() == old(self).cached().insert(
                    cache_key(db@, table@),
                    None,
                ),
                Ok(Some(s)) => r matches Some(cs) && strings_view(cs@) == schema_column_names(s)
                    && final(self).cached() == old(self).cached().insert(
                    cache_key(db@, table@),
                    Some(schema_column_names(s)),
                ),
            },
    {
        let result = match reply {
            Ok(Some(schema)) => Some(column_names(&schema)),
            Ok(None) => None,
            Err(_) => {
                return None;
            },
        };
        let d = str_chars(&ascii_lowercase(db));
        let t = str_chars(&ascii_lowercase(table));
        let stored = clone_columns(&result);
        let ghost es = self.cache@;
        self.cache.push(CacheEntry { db: d, table: t, columns: stored });
        assert(self.cache@.drop_last() =~= es);
        result
    }
}

/// The column names of a schema reply, in order.
fn column_names(s: &TableSchemaJson) -> (r: Vec<String>)
    ensures
        strings_view(r@) == schema_column_names(*s),
{
    let mut out: Vec<String> = Vec::new();
    let mut i: usize = 0;
    while i < s.columns.len()
        invariant
            i <= s.columns.len(),
            out.len() == i,
            forall|j: int| 0 <= j < i ==> #[trigger] out@[j]@ == s.columns@[j].name@,
        decreases s.columns.len() - i,
    {
        out.push(s.columns[i].name.clone());
        i = i + 1;
    }
    assert(strings_view(out@) =~= schema_column_names(*s));
    out
}

fn clone_columns(c: &Option<Vec<String>>) -> (r: Option<Vec<String>>)
    ensures
        match (r, *c) {
            (Some(a), Some(b)) => strings_view(a@) == strings_view(b@),
            (None, None) => true,
            _ => false,
        },
{
    match c {
        Some(cs) => {
            let mut out: Vec<String> = Vec::new();
            let mut i: usize = 0;
            while i < cs.len()
                invariant
                    i <= cs.len(),
                    out.len() == i,
                    forall|j: int| 0 <= j < i ==> #[trigger] out@[j]@ == cs@[j]@,
                decreases cs.len() - i,
            {
                out.push(cs[i].clone());
                i = i + 1;
            }
            assert(strings_view(out@) =~= strings_view(cs@));
            Some(out)
        },
        None => None,
    }
}

impl<T: Transport> Catalog for HiveCatalog<T> {
    /// Served from the cache when the key is there (the cache unchanged);
    /// otherwise asked of the transport, and the reply cached unless the
    /// transport failed (then `None`, the cache unchanged).
    fn columns_of(&mut self, db: &str, table: &str) -> (r: Option<Vec<String>>)
        ensures
            final(self).spec_transport() == old(self).spec_transport(),
            lookup_step(old(self).cached(), cache_key(db@, table@), opt_view(r), final(self).cached()),
            final(self).asked() == if old(self).cached().contains_key(cache_key(db@, table@)) {
                old(self).asked()
            } else {
                old(self).asked().push((db@, table@))
            },
    {
        self.fetch_and_cache(db, table)
    }
}

/// One lookup of `key` against the cache `c0`, answering `r` and leaving
/// the cache `c1`: a cached key is answered from the cache, which stays as
/// it is; otherwise the reply is cached, or, when the transport failed,
/// the answer is `None` and the cache stays as it is.
pub open spec fn lookup_step(
    c0: Map<(Seq<char>, Seq<char>), Option<Seq<Seq<char>>>>,
    key: (Seq<char>, Seq<char>),
    r: Option<Seq<Seq<char>>>,
    c1: Map<(Seq<char>, Seq<char>), Option<Seq<Seq<char>>>>,
) -> bool {
    if c0.contains_key(key) {
        c1 == c0 && c0[key] == r
    } else {
        (c1 == c0 && r is None) || c1 == c0.insert(key, r)
    }
}

/// A table a lookup found is answered the same by the next lookup of it,
/// from the cache, which stays as it is.
pub proof fn law_found_table_is_served_from_cache(
    c0: Map<(Seq<char>, Seq<char>), Option<Seq<Seq<char>>>>,
    c1: Map<(Seq<char>, Seq<char>), Option<Seq<Seq<char>>>>,
    c2: Map<(Seq<char>, Seq<char>), Option<Seq<Seq<char>>>>,
    key: (Seq<char>, Seq<char>),
    r1: Option<Seq<Seq<char>>>,
    r2: Option<Seq<Seq<char>>>,
)
    requires
        lookup_step(c0, key, r1, c1),
        r1 is Some,
        lookup_step(c1, key, r2, c2),
    ensures
        r2 == r1,
        c2 == c1,
{
}

/// Once a lookup has left its key in the cache (a table found, or one the
/// server reported absent), the next lookup of that key gives the same
/// answer and leaves the cache as it is.
pub proof fn law_cached_answer_is_repeated(
    c0: Map<(Seq<char>, Seq<char>), Option<Seq<Seq<char>>>>,
    c1: Map<(Seq<char>, Seq<char>), Option<Seq<Seq<char>>>>,
    c2: Map<(Seq<char>, Seq<char>), Option<Seq<Seq<char>>>>,
    key: (Seq<char>, Seq<char>),
    r1: Option<Seq<Seq<char>>>,
    r2: Option<Seq<Seq<char>>>,
)
    requires
        lookup_step(c0, key, r1, c1),
        c1.contains_key(key),
        lookup_step(c1, key, r2, c2),
    ensures
        r2 == r1,
        c2 == c1,
{
}

/// Lookups of one key never disturb what the cache holds for the others.
pub proof fn law_lookup_keeps_other_keys(
    c0: Map<(Seq<char>, Seq<char>), Option<Seq<Seq<char>>>>,
    c1: Map<(Seq<char>, Seq<char>), Option<Seq<Seq<char>>>>,
    key: (Seq<char>, Seq<char>),
    r: Option<Seq<Seq<char>>>,
    other: (Seq<char>, Seq<char>),
)
    requires
        lookup_step(c0, key, r, c1),
        other != key,
    ensures
        c1.contains_key(other) == c0.contains_key(other),
        c0.contains_key(other) ==> c1[other] == c0[other],
{
}

/// After an eviction the next lookup of the key is not answered from the
/// cache: it caches the transport's reply, or fails with the cache as the
/// eviction left it.
pub proof fn law_invalidated_key_is_refetched(
    c0: Map<(Seq<char>, Seq<char>), Option<Seq<Seq<char>>>>,
    key: (Seq<char>, Seq<char>),
    r: Option<Seq<Seq<char>>>,
    c2: Map<(Seq<char>, Seq<char>), Option<Seq<Seq<char>>>>,
)
    requires
        lookup_step(c0.remove(key), key, r, c2),
    ensures
        (c2 == c0.remove(key) && r is None) || c2 == c0.remove(key).insert(key, r),
{
}

/// The column names held by an optional list.
pub open spec fn opt_view(c: Option<Vec<String>>) -> Option<Seq<Seq<char>>> {
    match c {
        Some(cs) => Some(strings_view(cs@)),
        None => None,
    }
}

// ---------------------------------------------------------------------------
// URL path segments
// ---------------------------------------------------------------------------

/// Bytes that pass through a URL segment unchanged: ASCII letters, digits,
/// `_`, `-` and `.`.
pub open spec fn url_safe(b: u8) -> bool {
    (0x61 <= b <= 0x7a) || (0x41 <= b <= 0x5a) || (0x30 <= b <= 0x39) || b == 0x5f || b == 0x2d
        || b == 0x2e
}

/// Upper-case hexadecimal digit of `d` (0..16).
pub open spec fn hex_digit(d: int) -> char {
    if d < 10 {
        ((0x30 + d) as u8) as char
    } else {
        ((0x41 + d - 10) as u8) as char
    }
}

/// How one byte appears in a segment: itself, or `%XX` (upper-case hex).
pub open spec fn encode_byte(b: u8) -> Seq<char> {
    if url_safe(b) {
        seq![b as char]
    } else {
        seq!['%', hex_digit(b as int / 16), hex_digit(b as int % 16)]
    }
}

pub open spec fn encode_bytes(bs: Seq<u8>) -> Seq<char>
    decreases bs.len(),
{
    if bs.len() == 0 {
        Seq::empty()
    } else {
        encode_bytes(bs.drop_last()) + encode_byte(bs.last())
    }
}

fn hex_char(d: u8) -> (r: char)
    requires
        d < 16,
    ensures
        r == hex_digit(d as int),
{
    if d < 10 {
        (0x30u8 + d) as char
    } else {
        (0x41u8 + d - 10) as char
    }
}

/// Percent-encode `s` as one URL path segment: the UTF-8 bytes of `s`,
/// letters, digits, `_`, `-` and `.` as they are, every other byte as
/// `%XX`.
pub fn url_segment(s: &str) -> (r: String)
    ensures
        r@ == encode_bytes(vstd::utf8::encode_utf8(s@)),
{
    let bytes = s.as_bytes();
    let mut out: Vec<char> = Vec::new();
    let mut i: usize = 0;
    while i < bytes.len()
        invariant
            i <= bytes@.len(),
            bytes@ == vstd::utf8::encode_utf8(s@),
            out@ == encode_bytes(bytes@.take(i as int)),
        decreases bytes@.len() - i,
    {
        let b = bytes[i];
        assert(bytes@.take(i + 1).drop_last() =~= bytes@.take(i as int));
        if (0x61u8 <= b && b <= 0x7au8) || (0x41u8 <= b && b <= 0x5au8) || (0x30u8 <= b && b
            <= 0x39u8) || b == 0x5fu8 || b == 0x2du8 || b == 0x2eu8 {
            out.push(b as char);
        } else {
            out.push('%');
            out.push(hex_char(b / 16));
            out.push(hex_char(b % 16));
        }
        assert(out@ =~= encode_bytes(bytes@.take(i + 1)));
        i = i + 1;
    }
    assert(bytes@.take(bytes@.len() as int) =~= bytes@);
    string_from_chars(out)
}

// ---------------------------------------------------------------------------
// The HTTP transport's addresses
// ---------------------------------------------------------------------------

/// A base URL without its trailing slashes.
pub fn trimmed_base_url(base: &str) -> (r: String)
    ensures
        r@ == crate::text::trim_end_char(base@, '/'),
{
    string_from_chars(crate::text::trim_end_char_vec(&str_chars(base), '/'))
}

/// The address of a table's schema under a (trimmed) base URL:
/// `{base}/databases/{db}/tables/{table}`, database and table encoded as
/// URL path segments.
pub fn schema_url(base: &str, db: &str, table: &str) -> (r: String)
    ensures
        r@ == base@ + "/databases/"@ + encode_bytes(vstd::utf8::encode_utf8(db@)) + "/tables/"@ + encode_bytes(
            vstd::utf8::encode_utf8(table@),
        ),
{
    let mut out = str_chars(base);
    push_all(&mut out, &str_chars("/databases/"));
    push_all(&mut out, &str_chars(url_segment(db).as_str()));
    push_all(&mut out, &str_chars("/tables/"));
    push_all(&mut out, &str_chars(url_segment(table).as_str()));
    string_from_chars(out)
}

/// What an HTTP schema request came to: a body that was read as a schema
/// (or the reason it could not be), a 404, or a failure of the request.
pub enum SchemaReply {
    Body(Result<TableSchemaJson, String>),
    NotFound,
    Failed(String),
}

/// A reply as the transport answers it: a schema, no table for a 404, a
/// bad response for an unreadable body, a transport error otherwise.
pub fn schema_from_reply(reply: SchemaReply) -> (r: Result<Option<TableSchemaJson>, CatalogError>)
    ensures
        match reply {
            SchemaReply::Body(Ok(s)) => r == Ok::<Option<TableSchemaJson>, CatalogError>(Some(s)),
            SchemaReply::Body(Err(m)) => r matches Err(CatalogError::BadResponse(m2)) && m2 == m,
            SchemaReply::NotFound => r == Ok::<Option<TableSchemaJson>, CatalogError>(None),
            SchemaReply::Failed(m) => r matches Err(CatalogError::Transport(m2)) && m2 == m,
        },
{
    match reply {
        SchemaReply::Body(Ok(s)) => Ok(Some(s)),
        SchemaReply::Body(Err(m)) => Err(CatalogError::BadResponse(m)),
        SchemaReply::NotFound => Ok(None),
        SchemaReply::Failed(m) => Err(CatalogError::Transport(m)),
    }
}

} // verus!
