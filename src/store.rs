use vstd::prelude::*;
use vstd::hash_map::StringHashMap;
use crate::records::{
    EntityView, Partial, PartialEntity, PartialEntityView, PartialProperty,
    PartialPropertyView, PropertyView, Record,
};

verus! {

/// The record store: a mapping from caller-chosen keys to full records.
/// Records are replaced whole by `set` and merged field by field by `update`;
/// a missing key is an absent result, never an error.
#[verifier::reject_recursive_types(T)]
pub struct AppState<T> {
    records: StringHashMap<T>,
}

impl<T: Record> View for AppState<T> {
    type V = Map<Seq<char>, T::V>;

    closed spec fn view(&self) -> Map<Seq<char>, T::V> {
        self.records@.map_values(|v: T| v@)
    }
}

impl<T: Record> Default for AppState<T> {
    fn default() -> (r: Self)
        ensures
            r@ == Map::<Seq<char>, T::V>::empty(),
    {
        Self::new()
    }
}

impl<T: Record> AppState<T> {
    pub fn new() -> (r: Self)
        ensures
            r@ == Map::<Seq<char>, T::V>::empty(),
    {
        let r = AppState { records: StringHashMap::new() };
        assert(r@ =~= Map::<Seq<char>, T::V>::empty());
        r
    }

    /// The record stored under `key`, if any.
    pub fn get(&self, key: &str) -> (r: Option<T>)
        ensures
            match r {
                Some(v) => self@.contains_key(key@) && v@ == self@[key@],
                None => !self@.contains_key(key@),
            },
    {
        match self.records.get(key) {
            Some(v) => Some(v.duplicate()),
            None => None,
        }
    }

    /// Stores `value` under `key`, replacing any record there; returns the
    /// record it replaced.
    pub fn set(&mut self, key: &str, value: &T) -> (r: Option<T>)
        ensures
            final(self)@ == old(self)@.insert(key@, value@),
            match r {
                Some(v) => old(self)@.contains_key(key@) && v@ == old(self)@[key@],
                None => !old(self)@.contains_key(key@),
            },
    {
        let prior = self.get(key);
        self.records.insert(key.to_owned(), value.duplicate());
        assert(self@ =~= old(self)@.insert(key@, value@));
        prior
    }

    /// Merges `partial_value` onto the record under `key` and stores the
    /// result, which it returns. Where no record is stored under `key`,
    /// nothing changes and nothing is returned.
    pub fn update<U: Partial<T> + Record>(&mut self, key: &str, partial_value: &U) -> (r: Option<T>)
        ensures
            old(self)@.contains_key(key@) ==> {
                &&& r.is_some()
                &&& r.unwrap()@ == U::merged(partial_value@, old(self)@[key@])
                &&& final(self)@ == old(self)@.insert(key@, r.unwrap()@)
            },
            !old(self)@.contains_key(key@) ==> r.is_none() && final(self)@ == old(self)@,
    {
        match self.get(key) {
            Some(value) => {
                let merged = partial_value.duplicate().merge(&value);
                let stored = merged.duplicate();
                self.records.insert(key.to_owned(), stored);
                assert(self@ =~= old(self)@.insert(key@, merged@));
                Some(merged)
            },
            None => None,
        }
    }

    /// Removes the record under `key` and returns it; removing an absent
    /// key changes nothing.
    pub fn rm(&mut self, key: &str) -> (r: Option<T>)
        ensures
            final(self)@ == old(self)@.remove(key@),
            match r {
                Some(v) => old(self)@.contains_key(key@) && v@ == old(self)@[key@],
                None => !old(self)@.contains_key(key@),
            },
    {
        let prior = self.get(key);
        self.records.remove(key);
        assert(self@ =~= old(self)@.remove(key@));
        prior
    }
}

/// Storing a record under a key and then reading that key gives back the
/// record stored (`set` moves the store to `before.insert(key, value)`; `get`
/// reads the map).
pub proof fn lemma_set_then_get<V>(before: Map<Seq<char>, V>, key: Seq<char>, value: V)
    ensures
        before.insert(key, value).contains_key(key),
        before.insert(key, value)[key] == value,
{
}

/// Updating an existing entity takes each field given in the partial record
/// and keeps every other field of the stored entity.
pub proof fn lemma_update_entity_merges_fields(
    before: Map<Seq<char>, EntityView>,
    key: Seq<char>,
    partial: PartialEntityView,
)
    requires
        before.contains_key(key),
    ensures
        ({
            let after = before.insert(key, PartialEntity::merged(partial, before[key]));
            &&& after.contains_key(key)
            &&& after[key].origin == (match partial.origin {
                Some(o) => o,
                None => before[key].origin,
            })
            &&& after[key].colour == (match partial.colour {
                Some(c) => c,
                None => before[key].colour,
            })
            &&& forall|k: Seq<char>| k != key ==> #[trigger] after.contains_key(k) == before.contains_key(k)
                && (before.contains_key(k) ==> after[k] == before[k])
        }),
{
}

/// Updating an existing property takes each field given in the partial record
/// and keeps every other field of the stored property.
pub proof fn lemma_update_property_merges_fields(
    before: Map<Seq<char>, PropertyView>,
    key: Seq<char>,
    partial: PartialPropertyView,
)
    requires
        before.contains_key(key),
    ensures
        ({
            let after = before.insert(key, PartialProperty::merged(partial, before[key]));
            &&& after.contains_key(key)
            &&& after[key].property == (match partial.property {
                Some(p) => p,
                None => before[key].property,
            })
            &&& after[key].value == (match partial.value {
                Some(v) => v,
                None => before[key].value,
            })
            &&& forall|k: Seq<char>| k != key ==> #[trigger] after.contains_key(k) == before.contains_key(k)
                && (before.contains_key(k) ==> after[k] == before[k])
        }),
{
}

/// After a removal the key reads as absent; removing an absent key leaves
/// the store as it was.
pub proof fn lemma_remove_then_get<V>(before: Map<Seq<char>, V>, key: Seq<char>)
    ensures
        !before.remove(key).contains_key(key),
        !before.contains_key(key) ==> before.remove(key) == before,
{
    if !before.contains_key(key) {
        assert(before.remove(key) =~= before);
    }
}

} // verus!
