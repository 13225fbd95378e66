//! The cache store: encoded outputs by cache key, held in a `DashMap`.

use vstd::prelude::*;

verus! {

/// `dashmap::DashMap`, a hash map in shards that are locked one by one.
#[verifier::external_type_specification]
#[verifier::external_body]
#[verifier::reject_recursive_types(K)]
#[verifier::reject_recursive_types(V)]
#[verifier::reject_recursive_types(S)]
pub struct ExDashMap<K, V, S>(dashmap::DashMap<K, V, S>);

/// The entries of a map: the bytes kept under each key.
pub uninterp spec fn entries(map: dashmap::DashMap<String, Vec<u8>>) -> Map<Seq<char>, Seq<u8>>;

/// The entries of a store in which nothing is kept.
pub open spec fn nothing_kept() -> Map<Seq<char>, Seq<u8>> {
    Map::empty()
}

/// `dashmap::DashMap::new`: a map with no entries.
#[verifier::external_body]
fn map_new() -> (map: dashmap::DashMap<String, Vec<u8>>)
    ensures
        entries(map) == nothing_kept(),
{
    dashmap::DashMap::new()
}

/// `dashmap::DashMap::get`, with the entry copied out: the bytes kept under
/// `key`, or `None` where the map has no such key.
#[verifier::external_body]
fn map_get(map: &dashmap::DashMap<String, Vec<u8>>, key: &str) -> (out: Option<Vec<u8>>)
    ensures
        out is Some == entries(*map).contains_key(key@),
        out is Some ==> out->0@ == entries(*map)[key@],
{
    map.get(key).map(|entry| entry.value().clone())
}

/// `dashmap::DashMap::insert`, on a map that nothing else holds: `value`
/// stands under `key` afterwards, in place of what stood there, and every
/// other entry is as it was.
#[verifier::external_body]
fn map_insert(map: &mut dashmap::DashMap<String, Vec<u8>>, key: String, value: Vec<u8>)
    ensures
        entries(*final(map)) == entries(*old(map)).insert(key@, value@),
{
    map.insert(key, value);
}

/// Encoded outputs by cache key. Nothing is ever evicted: an entry stays
/// until it is overwritten or the store is dropped. Reading takes a shared
/// reference and writing an exclusive one, so what a store holds changes
/// only through `put`.
#[derive(Debug)]
pub struct CacheStore {
    map: dashmap::DashMap<String, Vec<u8>>,
}

impl View for CacheStore {
    type V = Map<Seq<char>, Seq<u8>>;

    /// The bytes kept under each key.
    closed spec fn view(&self) -> Map<Seq<char>, Seq<u8>> {
        entries(self.map)
    }
}

impl CacheStore {
    /// A store in which nothing is kept.
    pub fn new() -> (store: Self)
        ensures
            store@ == nothing_kept(),
    {
        CacheStore { map: map_new() }
    }

    /// The bytes kept under `key`, if there are any.
    pub fn get(&self, key: &str) -> (out: Option<Vec<u8>>)
        ensures
            out is Some == self@.contains_key(key@),
            out is Some ==> out->0@ == self@[key@],
    {
        map_get(&self.map, key)
    }

    /// Keeps `bytes` under `key`, in place of what was kept there.
    pub fn put(&mut self, key: String, bytes: Vec<u8>)
        ensures
            final(self)@ == old(self)@.insert(key@, bytes@),
    {
        map_insert(&mut self.map, key, bytes);
    }
}

} // verus!
