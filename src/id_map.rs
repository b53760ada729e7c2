use vstd::prelude::*;

verus! {

/// A hash map from `u64` keys to `usize` values, held in a `hashbrown::HashMap`.
#[verifier::external_body]
pub struct IdMap {
    inner: hashbrown::HashMap<u64, usize>,
}

/// The entries an [`IdMap`] holds.
pub uninterp spec fn id_map_entries(m: IdMap) -> Map<u64, usize>;

/// The map with no entry.
pub open spec fn empty_ids() -> Map<u64, usize> {
    Map::empty()
}

impl IdMap {
    /// Relies on `hashbrown::HashMap::new`: the map starts empty.
    #[verifier::external_body]
    pub(crate) fn new() -> (r: IdMap)
        ensures
            id_map_entries(r) == empty_ids(),
    {
        IdMap { inner: hashbrown::HashMap::new() }
    }

    /// Relies on `hashbrown::HashMap::get`: the value stored under `key`, if any.
    #[verifier::external_body]
    pub(crate) fn get(&self, key: u64) -> (r: Option<usize>)
        ensures
            r == (if id_map_entries(*self).contains_key(key) {
                Some(id_map_entries(*self)[key])
            } else {
                None
            }),
    {
        self.inner.get(&key).copied()
    }

    /// Relies on `hashbrown::HashMap::insert`: `key` then maps to `value`, and
    /// every other entry stays.
    #[verifier::external_body]
    pub(crate) fn insert(&mut self, key: u64, value: usize)
        ensures
            id_map_entries(*final(self)) == id_map_entries(*old(self)).insert(key, value),
    {
        self.inner.insert(key, value);
    }
}

} // verus!
