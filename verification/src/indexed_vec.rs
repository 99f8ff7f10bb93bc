use vstd::prelude::*;

use std::marker::PhantomData;

verus! {

/// A key type for `IndexedVec`: a value that stands for a position.
pub trait IndexKey: Sized {
    /// The position that the key stands for.
    spec fn key_index(&self) -> int;

    /// The key of position `i`.
    fn from_usize(i: usize) -> (r: Self)
        ensures
            r.key_index() == i,
    ;

    /// The position that the key stands for.
    fn to_usize(&self) -> (r: usize)
        ensures
            r == self.key_index(),
    ;
}

/// A vector indexed by a key type of its own.
pub struct IndexedVec<K, V> {
    values: Vec<V>,
    phantom: PhantomData<K>,
}

impl<K, V> View for IndexedVec<K, V> {
    type V = Seq<V>;

    closed spec fn view(&self) -> Seq<V> {
        self.values@
    }
}

impl<K: IndexKey, V> IndexedVec<K, V> {
    /// The empty vector.
    pub fn new() -> (r: Self)
        ensures
            r@ == Seq::<V>::empty(),
    {
        IndexedVec { values: Vec::new(), phantom: PhantomData }
    }

    /// Appends a value; its key is the former length.
    pub fn push(&mut self, v: V)
        ensures
            final(self)@ == old(self)@.push(v),
    {
        self.values.push(v);
    }

    /// The value at the key's position.
    pub fn at(&self, k: K) -> (r: &V)
        requires
            0 <= k.key_index() < self@.len(),
        ensures
            *r == self@[k.key_index()],
    {
        let i = k.to_usize();
        &self.values[i]
    }

    /// The number of values.
    pub fn len(&self) -> (r: usize)
        ensures
            r == self@.len(),
    {
        self.values.len()
    }

    /// Each key with its value, in order.
    pub fn iter(&self) -> (r: Vec<(K, &V)>)
        ensures
            r@.len() == self@.len(),
            forall|i: int|
                0 <= i < r@.len() ==> (#[trigger] r@[i]).0.key_index() == i && *r@[i].1
                    == self@[i],
    {
        let mut out: Vec<(K, &V)> = Vec::new();
        let mut i: usize = 0;
        while i < self.values.len()
            invariant
                0 <= i <= self@.len(),
                out@.len() == i,
                forall|j: int|
                    0 <= j < i ==> (#[trigger] out@[j]).0.key_index() == j && *out@[j].1
                        == self@[j],
            decreases self@.len() - i,
        {
            out.push((K::from_usize(i), &self.values[i]));
            i += 1;
        }
        out
    }
}

impl<K: IndexKey, V> Default for IndexedVec<K, V> {
    fn default() -> (r: Self)
        ensures
            r@ == Seq::<V>::empty(),
    {
        IndexedVec { values: Vec::new(), phantom: PhantomData }
    }
}

} // verus!
