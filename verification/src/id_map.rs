//! A string-keyed index backed by `hashbrown::HashMap`.
//!
//! The rack keys its modules and controls by id string. The hash map comes
//! from the `hashbrown` crate, so Verus cannot look inside it: the struct
//! hides it, [`id_map_contents`] names what it holds, and each method's
//! contract states — on trust — what `hashbrown`'s documentation and source
//! promise of the corresponding operation.

use vstd::prelude::*;

verus! {

/// An insert-only map from id strings to indices into an arena.
#[verifier::external_body]
pub struct IdMap {
    table: hashbrown::HashMap<String, usize>,
}

/// What an [`IdMap`] holds, as a mathematical map from character sequences
/// to indices.
pub uninterp spec fn id_map_contents(m: IdMap) -> Map<Seq<char>, usize>;

impl IdMap {
    /// Relies on `hashbrown::HashMap::new`. Nothing is claimed of the
    /// fresh map's contents; [`IdMap::empty`] establishes emptiness
    /// through [`IdMap::clear`].
    #[verifier::external_body]
    fn new() -> (res: IdMap) {
        IdMap { table: hashbrown::HashMap::new() }
    }

    /// Relies on `hashbrown::HashMap::clear`: every entry the map held is
    /// removed.
    #[verifier::external_body]
    fn clear(&mut self)
        ensures
            id_map_contents(*final(self)) == id_map_contents(*old(self)).remove_keys(
                id_map_contents(*old(self)).dom(),
            ),
    {
        self.table.clear();
    }

    /// An empty map.
    pub fn empty() -> (res: IdMap)
        ensures
            id_map_contents(res) == Map::<Seq<char>, usize>::empty(),
    {
        let mut m = IdMap::new();
        m.clear();
        proof {
            assert(id_map_contents(m) =~= Map::<Seq<char>, usize>::empty());
        }
        m
    }

    /// Relies on `hashbrown::HashMap::insert`: the key is mapped to the
    /// new value and every other entry is kept.
    #[verifier::external_body]
    pub fn insert(&mut self, key: String, value: usize)
        ensures
            id_map_contents(*final(self)) == id_map_contents(*old(self)).insert(key@, value),
    {
        self.table.insert(key, value);
    }

    /// Relies on `hashbrown::HashMap::get`: the value stored under the
    /// key, or `None` when the key is absent.
    #[verifier::external_body]
    pub fn get(&self, key: &str) -> (r: Option<usize>)
        ensures
            r == if id_map_contents(*self).dom().contains(key@) {
                Some(id_map_contents(*self)[key@])
            } else {
                None::<usize>
            },
    {
        self.table.get(key).copied()
    }

    /// Relies on `hashbrown::HashMap::contains_key`: whether the key is
    /// present.
    #[verifier::external_body]
    pub fn contains_key(&self, key: &str) -> (r: bool)
        ensures
            r == id_map_contents(*self).dom().contains(key@),
    {
        self.table.contains_key(key)
    }
}

} // verus!
