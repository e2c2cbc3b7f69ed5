//! The map from paths to bytes that holds a memory database's partitions.
use vstd::prelude::*;

verus! {

/// Bytes by path, held in a `hashbrown` map.
#[verifier::external_body]
pub struct PathStore {
    map: hashbrown::HashMap<String, Vec<u8>>,
}

/// What a store holds: the bytes under each path.
pub uninterp spec fn path_store_contents(s: PathStore) -> Map<Seq<char>, Seq<u8>>;

impl PathStore {
    /// Relies on `hashbrown::HashMap::new`: a map with no entries.
    #[verifier::external_body]
    pub(crate) fn new() -> (r: PathStore)
        ensures
            path_store_contents(r).dom().is_empty(),
    {
        PathStore { map: hashbrown::HashMap::new() }
    }

    /// Relies on `hashbrown::HashMap::get`: the bytes under `key` (a copy), if any.
    #[verifier::external_body]
    pub(crate) fn get(&self, key: &str) -> (r: Option<Vec<u8>>)
        ensures
            r is Some <==> path_store_contents(*self).contains_key(key@),
            r matches Some(b) ==> b@ == path_store_contents(*self)[key@],
    {
        self.map.get(key).cloned()
    }

    /// Relies on `hashbrown::HashMap::insert`: `key` now maps to `value`; other
    /// keys keep theirs.
    #[verifier::external_body]
    pub(crate) fn insert(&mut self, key: String, value: Vec<u8>)
        ensures
            path_store_contents(*final(self)) == path_store_contents(*old(self)).insert(key@, value@),
    {
        self.map.insert(key, value);
    }
}

} // verus!
