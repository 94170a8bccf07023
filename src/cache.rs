//! The run-wide cache of rendered stylesheet and favicon fragments, shared by
//! every concurrent unit of a build.
use dashmap::DashMap;
use vstd::prelude::*;
use crate::error::{Error, Result};
use crate::template::{favicon_fragment, favicon_fragment_of, stylesheet_fragment, STYLE_CLOSE, STYLE_OPEN};

verus! {

#[verifier::external_type_specification]
#[verifier::external_body]
#[verifier::reject_recursive_types(K)]
#[verifier::reject_recursive_types(V)]
#[verifier::reject_recursive_types(S)]
pub struct ExDashMap<K, V, S>(DashMap<K, V, S>);

/// The entries a map of fragments holds over its whole life. Entries are only
/// ever added, never replaced or removed, so every value observed for a key is
/// the one recorded here.
pub uninterp spec fn cache_entries(m: DashMap<String, String>) -> Map<Seq<char>, Seq<char>>;

/// Every (key, fragment) pair offered to a map of fragments over its whole
/// life, whether or not it was stored.
pub uninterp spec fn cache_offers(m: DashMap<String, String>) -> Set<(Seq<char>, Seq<char>)>;

/// Relies on `DashMap::new`.
#[verifier::external_body]
fn new_map() -> DashMap<String, String> {
    DashMap::new()
}

/// Relies on `DashMap::get`: the value held for `key`, if there is one yet.
#[verifier::external_body]
fn map_get(m: &DashMap<String, String>, key: &str) -> (r: Option<String>)
    ensures
        r matches Some(v) ==> cache_entries(*m).contains_key(key@) && v@ == cache_entries(*m)[key@]
            && cache_offers(*m).contains((key@, v@)),
{
    m.get(key).map(|v| v.value().clone())
}

/// Relies on `DashMap::entry` and `Entry::or_insert`: under the key's shard lock,
/// an existing value is kept and returned; otherwise `fragment` is stored and returned.
#[verifier::external_body]
fn map_settle(m: &DashMap<String, String>, key: String, fragment: String) -> (r: String)
    ensures
        cache_entries(*m) == cache_entries(*m).insert(key@, r@),
        cache_offers(*m) == cache_offers(*m).insert((key@, fragment@)).insert((key@, r@)),
{
    m.entry(key).or_insert(fragment).value().clone()
}

/// Fragments keyed by canonical asset path. Each key settles on one fragment
/// for the life of the cache; keys live in separate shards, so work on
/// different keys does not contend on one lock.
pub struct AssetCache {
    map: DashMap<String, String>,
}

impl AssetCache {
    /// The fragment each key has settled on.
    pub closed spec fn entries(&self) -> Map<Seq<char>, Seq<char>> {
        cache_entries(self.map)
    }

    /// The fragments callers have offered for each key.
    pub closed spec fn offers(&self) -> Set<(Seq<char>, Seq<char>)> {
        cache_offers(self.map)
    }

    /// Whether some caller offered `fragment` for `key`.
    pub open spec fn offered(&self, key: Seq<char>, fragment: Seq<char>) -> bool {
        self.offers().contains((key, fragment))
    }

    /// Whether `key` has settled on `fragment`, which a caller offered for it.
    pub open spec fn holds(&self, key: Seq<char>, fragment: Seq<char>) -> bool {
        self.entries().contains_key(key) && self.entries()[key] == fragment && self.offered(key, fragment)
    }

    /// An empty cache.
    pub fn new() -> (r: AssetCache) {
        AssetCache { map: new_map() }
    }

    /// The fragment stored for `key`, if one has been stored yet.
    pub fn get(&self, key: &str) -> (r: Option<String>)
        ensures
            r matches Some(v) ==> self.holds(key@, v@),
    {
        map_get(&self.map, key)
    }

    /// Stores `fragment` for `key` unless the key already has one, and returns
    /// the fragment the key holds: the same for every caller.
    pub fn get_or_insert(&self, key: String, fragment: String) -> (r: String)
        ensures
            self.holds(key@, r@),
            self.offered(key@, fragment@),
    {
        let ghost f = fragment@;
        let r = map_settle(&self.map, key, fragment);
        assert(self.entries().insert(key@, r@).contains_key(key@));
        assert(self.offers().insert((key@, f)).insert((key@, r@)).contains((key@, r@)));
        assert(self.offers().insert((key@, f)).insert((key@, r@)).contains((key@, f)));
        r
    }

    /// The stylesheet fragment for `key`, rendered from the file's contents
    /// when the key has none yet. A stylesheet that could not be read (its
    /// error message in `contents`) is an I/O error naming `key`.
    pub fn stylesheet(&self, key: String, contents: core::result::Result<String, String>) -> (r: Result<String>)
        ensures
            contents matches Err(m) ==> r == Err::<String, Error>(Error::Io { err: m, path: key }),
            contents matches Ok(c) ==> (r matches Ok(f) && self.holds(key@, f@) && self.offered(
                key@,
                STYLE_OPEN@ + c@ + STYLE_CLOSE@,
            )),
    {
        match contents {
            Err(m) => Err(Error::Io { err: m, path: key }),
            Ok(c) => Ok(self.get_or_insert(key, stylesheet_fragment(c.as_str()))),
        }
    }

    /// The favicon fragment for `key`, rendered from the file's contents
    /// (`None` when the file does not exist) when the key has none yet.
    pub fn favicon(&self, key: String, contents: Option<&[u8]>) -> (r: String)
        ensures
            self.holds(key@, r@),
            self.offered(
                key@,
                favicon_fragment_of(
                    match contents {
                        Some(b) => Some(b@),
                        None => None,
                    },
                ),
            ),
    {
        self.get_or_insert(key, favicon_fragment(contents))
    }
}

/// Every caller that obtains a fragment for one key of one cache obtains the
/// same fragment.
pub proof fn lemma_one_fragment_per_key(cache: AssetCache, key: Seq<char>, a: Seq<char>, b: Seq<char>)
    requires
        cache.holds(key, a),
        cache.holds(key, b),
    ensures
        a == b,
{
}

/// When every caller offers the same fragment for a key (they all read the
/// same file), every caller obtains that fragment: concurrent requests for one
/// stylesheet all get its style element, and a favicon that every caller finds
/// missing settles on the empty fragment.
pub proof fn lemma_agreeing_callers_settle(cache: AssetCache, key: Seq<char>, f: Seq<char>, r: Seq<char>)
    requires
        cache.holds(key, r),
        forall|v: Seq<char>| #[trigger] cache.offered(key, v) ==> v == f,
    ensures
        r == f,
{
}

} // verus!
