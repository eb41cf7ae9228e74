//! Keyed storage of arbitrary objects.
//!
//! A `Container` maps keys to stored objects; its contents are modelled as a
//! `Map` from key to object. What the hash table promises holds for keys that
//! obey the key model of `vstd` (the integer types, among them the device id
//! type); every contract below is stated for such keys.
use std::collections::HashMap;
use std::collections::hash_map::Iter;
use std::hash::Hash;
use vstd::prelude::*;
use vstd::std_specs::hash::obeys_key_model;
use vstd::std_specs::iter::IteratorSpec;
use crate::io::event::IOEvent;

verus! {

broadcast use vstd::std_specs::hash::group_hash_axioms;

/// Basic interface to stored data: `T` is the stored type, `K` the key.
pub trait Collection<T, K> {
    /// Add a key-value pair; `false`, with nothing changed, if the key is
    /// already present.
    fn add(&mut self, key: K, data: T) -> bool;

    /// The object stored under `key`, if any.
    fn get(&self, key: K) -> Option<&T>;

    /// Remove the pair stored under `key` and return its object.
    fn remove(&mut self, key: K) -> Option<T>;

    /// `true` if nothing is stored.
    fn is_empty(&self) -> bool;

    /// Number of stored pairs.
    fn length(&self) -> usize;
}

/// Key-value storage for objects of type `T` under keys of type `K`.
pub struct Container<T, K> where K: Eq + Hash {
    inner: HashMap<K, T>,
}

impl<T, K: Eq + Hash> View for Container<T, K> {
    type V = Map<K, T>;

    closed spec fn view(&self) -> Map<K, T> {
        self.inner@
    }
}

impl<T, K: Eq + Hash> Container<T, K> {
    /// An empty container.
    pub fn new() -> (c: Self)
        ensures
            c@ == Map::<K, T>::empty(),
            c@.dom().finite(),
    {
        Container { inner: HashMap::new() }
    }

    /// Iterator over the stored pairs, in the table's own order: each pair of
    /// the container comes exactly once.
    pub fn iter(&self) -> (it: Iter<'_, K, T>)
        ensures
            obeys_key_model::<K>() ==> {
                let v = IteratorSpec::remaining(&it);
                &&& v.len() == self@.len()
                &&& v.no_duplicates()
                &&& forall|i: int|
                    #![trigger v[i]]
                    0 <= i < v.len() ==> self@.contains_key(*v[i].0) && self@[*v[i].0]
                        == *v[i].1
                &&& forall|k: K| #[trigger] self@.contains_key(k) ==> v.contains((&k, &self@[k]))
            },
    {
        let it = self.inner.iter();
        proof {
            vstd::std_specs::hash::axiom_spec_hash_map_iter(&self.inner);
        }
        it
    }
}

/// Adding `data` under `key`: refused, with the contents unchanged, when the
/// key is present; otherwise accepted, with the pair inserted.
pub open spec fn model_add<T, K>(m: Map<K, T>, key: K, data: T) -> (bool, Map<K, T>) {
    if m.contains_key(key) {
        (false, m)
    } else {
        (true, m.insert(key, data))
    }
}

/// The object stored under `key`, if any.
pub open spec fn model_get<T, K>(m: Map<K, T>, key: K) -> Option<T> {
    if m.contains_key(key) {
        Some(m[key])
    } else {
        None
    }
}

/// Removing `key`: the object that was stored under it, if any, and the
/// contents without it.
pub open spec fn model_remove<T, K>(m: Map<K, T>, key: K) -> (Option<T>, Map<K, T>) {
    (model_get(m, key), m.remove(key))
}

impl<T, K: Eq + Hash> Collection<T, K> for Container<T, K> {
    fn add(&mut self, key: K, data: T) -> (added: bool)
        ensures
            obeys_key_model::<K>() ==> (added, final(self)@) == model_add(old(self)@, key, data),
            final(self)@.dom().finite(),
    {
        if self.inner.contains_key(&key) {
            false
        } else {
            self.inner.insert(key, data);
            true
        }
    }

    fn get(&self, key: K) -> (r: Option<&T>)
        ensures
            obeys_key_model::<K>() ==> match r {
                Some(v) => model_get(self@, key) == Some(*v),
                None => model_get(self@, key) is None,
            },
    {
        self.inner.get(&key)
    }

    fn remove(&mut self, key: K) -> (r: Option<T>)
        ensures
            obeys_key_model::<K>() ==> (r, final(self)@) == model_remove(old(self)@, key),
            final(self)@.dom().finite(),
    {
        self.inner.remove(&key)
    }

    fn is_empty(&self) -> (b: bool)
        ensures
            b == self@.is_empty(),
    {
        self.inner.is_empty()
    }

    fn length(&self) -> (n: usize)
        ensures
            obeys_key_model::<K>() ==> n == self@.len(),
            self@.dom().finite(),
    {
        self.inner.len()
    }
}

/// A pair added under a fresh key is what a lookup of that key gives back.
pub proof fn law_get_after_add<T, K>(m: Map<K, T>, key: K, data: T)
    requires
        !m.contains_key(key),
    ensures
        model_add(m, key, data).0,
        model_get(model_add(m, key, data).1, key) == Some(data),
{
}

/// Adding under a key that is present is refused and changes nothing.
pub proof fn law_add_existing_refused<T, K>(m: Map<K, T>, key: K, data: T)
    requires
        m.contains_key(key),
    ensures
        model_add(m, key, data) == (false, m),
{
}

/// Removing a pair just added under a fresh key gives back its object and
/// the contents as they were before.
pub proof fn law_remove_undoes_add<T, K>(m: Map<K, T>, key: K, data: T)
    requires
        !m.contains_key(key),
    ensures
        model_remove(model_add(m, key, data).1, key) == (Some(data), m),
{
    assert(m.insert(key, data).remove(key) =~= m);
}

/// Adding under a fresh key grows a finite container by one; a refused add
/// keeps its size.
pub proof fn law_add_length<T, K>(m: Map<K, T>, key: K, data: T)
    requires
        m.dom().finite(),
    ensures
        model_add(m, key, data).0 ==> model_add(m, key, data).1.len() == m.len() + 1,
        !model_add(m, key, data).0 ==> model_add(m, key, data).1.len() == m.len(),
{
}

/// Types that provide a specialised `Container` for themselves.
pub trait Containerized<T, K> where K: Eq + Hash {
    /// A new, empty container.
    fn container() -> (c: Container<T, K>)
        ensures
            c@ == Map::<K, T>::empty(),
    ;
}

impl<K: Eq + Hash> Containerized<IOEvent, K> for IOEvent {
    fn container() -> (c: Container<IOEvent, K>) {
        Container::new()
    }
}

} // verus!
