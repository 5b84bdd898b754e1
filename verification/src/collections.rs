//! Insertion-ordered sets and maps over `Vec`, for keys that are compared by
//! their view.
//!
//! A set is seen as the sequence of its elements without repetition; removing
//! an element moves the last one into its place. A map is seen as a `Map` from
//! the views of its keys.

use vstd::prelude::*;

verus! {

/// A value that identifies something: two of them name the same thing exactly
/// when their views are equal.
pub trait Key: View + Sized {
    /// Whether `self` and `other` have the same view.
    fn same(&self, other: &Self) -> (b: bool)
        ensures
            b == (self@ == other@),
    ;

    /// A fresh value with the same view.
    fn duplicate(&self) -> (c: Self)
        ensures
            c@ == self@,
    ;
}

impl Key for String {
    fn same(&self, other: &Self) -> (b: bool) {
        *self == *other
    }

    fn duplicate(&self) -> (c: Self) {
        self.clone()
    }
}

/// `s` with `a` appended unless it is already there.
pub open spec fn seq_inserted<A>(s: Seq<A>, a: A) -> Seq<A> {
    if s.contains(a) {
        s
    } else {
        s.push(a)
    }
}

/// `s` with the element at `i` replaced by the last one, and the last one dropped.
pub open spec fn seq_swap_removed<A>(s: Seq<A>, i: int) -> Seq<A> {
    s.update(i, s.last()).drop_last()
}

/// `s` without `a`: the last element takes the place of `a`.
pub open spec fn seq_removed<A>(s: Seq<A>, a: A) -> Seq<A> {
    if s.contains(a) {
        seq_swap_removed(s, s.index_of(a))
    } else {
        s
    }
}

/// In a sequence without repetition an element is found at one index only.
pub proof fn lemma_index_of_unique<A>(s: Seq<A>, i: int)
    requires
        s.no_duplicates(),
        0 <= i < s.len(),
    ensures
        s.contains(s[i]),
        s.index_of(s[i]) == i,
{
    // the index chosen for `s[i]` holds `s[i]`, so it is `i`
    let j = s.index_of(s[i]);
    assert(s[j] == s[i]);
}

/// Inserting keeps a sequence free of repetition and adds exactly `a`.
pub proof fn lemma_seq_inserted<A>(s: Seq<A>, a: A)
    requires
        s.no_duplicates(),
    ensures
        seq_inserted(s, a).no_duplicates(),
        seq_inserted(s, a).contains(a),
        seq_inserted(s, a).len() == if s.contains(a) {
            s.len()
        } else {
            s.len() + 1
        },
        forall|x: A| #[trigger] seq_inserted(s, a).contains(x) <==> s.contains(x) || x == a,
{
    let r = seq_inserted(s, a);
    if s.contains(a) {
    } else {
        assert(r[s.len() as int] == a);
        assert forall|x: A| #[trigger] r.contains(x) <==> s.contains(x) || x == a by {
            if s.contains(x) {
                let j = s.index_of(x);
                assert(r[j] == x);
            }
        }
    }
}

/// Swap-removing keeps a sequence free of repetition and removes exactly the
/// element at `i`.
pub proof fn lemma_seq_swap_removed<A>(s: Seq<A>, i: int)
    requires
        s.no_duplicates(),
        0 <= i < s.len(),
    ensures
        seq_swap_removed(s, i).no_duplicates(),
        seq_swap_removed(s, i).len() == s.len() - 1,
        forall|x: A| #[trigger]
            seq_swap_removed(s, i).contains(x) <==> s.contains(x) && x != s[i],
{
    let r = seq_swap_removed(s, i);
    let last = s.len() - 1;
    assert forall|x: A| #[trigger] r.contains(x) <==> s.contains(x) && x != s[i] by {
        if r.contains(x) {
            // found in `r`: it stands in `s` at the same index, or at the end
            let j = r.index_of(x);
            assert(s[if j == i { last } else { j }] == x);
        }
        if s.contains(x) && x != s[i] {
            // found in `s`: it stands in `r` at the same index, or in the gap
            let j = s.index_of(x);
            assert(r[if j == last { i } else { j }] == x);
        }
    }
}

/// Removing keeps a sequence free of repetition and removes exactly `a`.
pub proof fn lemma_seq_removed<A>(s: Seq<A>, a: A)
    requires
        s.no_duplicates(),
    ensures
        seq_removed(s, a).no_duplicates(),
        !seq_removed(s, a).contains(a),
        seq_removed(s, a).len() == if s.contains(a) {
            s.len() - 1
        } else {
            s.len() as int
        },
        forall|x: A| #[trigger] seq_removed(s, a).contains(x) <==> s.contains(x) && x != a,
{
    if s.contains(a) {
        let i = s.index_of(a);
        lemma_seq_swap_removed(s, i);
    }
}

/// A set of keys, kept in the order in which they were inserted.
pub struct VecSet<K> {
    items: Vec<K>,
}

impl<K: Key> View for VecSet<K> {
    type V = Seq<K::V>;

    closed spec fn view(&self) -> Seq<K::V> {
        self.items@.map_values(|k: K| k@)
    }
}

impl<K: Key> VecSet<K> {
    /// No element occurs twice.
    pub open spec fn wf(&self) -> bool {
        self@.no_duplicates()
    }

    /// The empty set.
    pub fn new() -> (s: Self)
        ensures
            s.wf(),
            s@ == Seq::<K::V>::empty(),
    {
        let s = VecSet { items: Vec::new() };
        s
    }

    /// The number of elements.
    pub fn len(&self) -> (n: usize)
        ensures
            n == self@.len(),
    {
        self.items.len()
    }

    /// Whether the set has no element.
    pub fn is_empty(&self) -> (b: bool)
        ensures
            b == (self@.len() == 0),
    {
        self.items.len() == 0
    }

    /// The first index at which `k` stands, if it is in the set.
    pub fn position(&self, k: &K) -> (r: Option<usize>)
        ensures
            match r {
                Some(i) => i < self@.len() && self@[i as int] == k@,
                None => !self@.contains(k@),
            },
    {
        let mut i: usize = 0;
        while i < self.items.len()
            invariant
                i <= self.items.len(),
                forall|j: int| 0 <= j < i ==> self@[j] != k@,
            decreases self.items.len() - i,
        {
            if self.items[i].same(k) {
                return Some(i);
            }
            i += 1;
        }
        None
    }

    /// Whether `k` is in the set.
    pub fn contains(&self, k: &K) -> (b: bool)
        ensures
            b == self@.contains(k@),
    {
        self.position(k).is_some()
    }

    /// Adds `k` at the end unless it is already in the set; says whether it was added.
    pub fn insert(&mut self, k: K) -> (added: bool)
        requires
            old(self).wf(),
        ensures
            final(self).wf(),
            added == !old(self)@.contains(k@),
            final(self)@ == seq_inserted(old(self)@, k@),
    {
        proof {
            lemma_seq_inserted(self@, k@);
        }
        match self.position(&k) {
            Some(_) => false,
            None => {
                self.items.push(k);
                assert(self@ =~= old(self)@.push(k@));
                true
            },
        }
    }

    /// Removes `k`, moving the last element into its place; says whether it was there.
    pub fn remove(&mut self, k: &K) -> (removed: bool)
        requires
            old(self).wf(),
        ensures
            final(self).wf(),
            removed == old(self)@.contains(k@),
            final(self)@ == seq_removed(old(self)@, k@),
    {
        proof {
            lemma_seq_removed(self@, k@);
        }
        match self.position(k) {
            Some(i) => {
                proof {
                    lemma_index_of_unique(self@, i as int);
                }
                self.items.swap_remove(i);
                assert(self@ =~= seq_swap_removed(old(self)@, i as int));
                true
            },
            None => false,
        }
    }

    /// The elements, in order.
    pub fn to_vec(&self) -> (v: Vec<K>)
        ensures
            v@.map_values(|k: K| k@) == self@,
    {
        let mut v: Vec<K> = Vec::new();
        let mut i: usize = 0;
        while i < self.items.len()
            invariant
                i <= self.items.len(),
                v@.len() == i,
                forall|j: int| 0 <= j < i ==> (#[trigger] v@[j])@ == self@[j],
            decreases self.items.len() - i,
        {
            v.push(self.items[i].duplicate());
            i += 1;
        }
        v
    }
}

/// A map from keys to values, over two vectors of equal length.
pub struct VecMap<K, V> {
    keys: Vec<K>,
    values: Vec<V>,
}

impl<K: Key, V> View for VecMap<K, V> {
    type V = Map<K::V, V>;

    closed spec fn view(&self) -> Map<K::V, V> {
        Map::new(
            |k: K::V| self.key_seq().contains(k),
            |k: K::V| self.values@[self.key_seq().index_of(k)],
        )
    }
}

impl<K: Key, V> VecMap<K, V> {
    /// The views of the keys, in storage order.
    pub closed spec fn key_seq(&self) -> Seq<K::V> {
        self.keys@.map_values(|k: K| k@)
    }

    /// Every key has its value, and no key occurs twice.
    pub closed spec fn wf(&self) -> bool {
        &&& self.keys@.len() == self.values@.len()
        &&& self.key_seq().no_duplicates()
    }

    /// The empty map.
    pub fn new() -> (m: Self)
        ensures
            m.wf(),
            m@ == Map::<K::V, V>::empty(),
    {
        let m = VecMap { keys: Vec::new(), values: Vec::new() };
        m
    }

    fn position(&self, k: &K) -> (r: Option<usize>)
        requires
            self.wf(),
        ensures
            match r {
                Some(i) => {
                    &&& i < self.keys@.len()
                    &&& self.key_seq()[i as int] == k@
                    &&& self.key_seq().index_of(k@) == i
                    &&& self@.contains_key(k@)
                    &&& self@[k@] == self.values@[i as int]
                },
                None => !self.key_seq().contains(k@) && !self@.contains_key(k@),
            },
    {
        let mut i: usize = 0;
        while i < self.keys.len()
            invariant
                self.wf(),
                i <= self.keys.len(),
                forall|j: int| 0 <= j < i ==> self.key_seq()[j] != k@,
            decreases self.keys.len() - i,
        {
            if self.keys[i].same(k) {
                proof {
                    lemma_index_of_unique(self.key_seq(), i as int);
                }
                return Some(i);
            }
            i += 1;
        }
        None
    }

    /// Whether the map has a value for `k`.
    pub fn contains_key(&self, k: &K) -> (b: bool)
        requires
            self.wf(),
        ensures
            b == self@.contains_key(k@),
    {
        self.position(k).is_some()
    }

    /// The value for `k`, if there is one.
    pub fn get(&self, k: &K) -> (r: Option<&V>)
        requires
            self.wf(),
        ensures
            match r {
                Some(v) => self@.contains_key(k@) && *v == self@[k@],
                None => !self@.contains_key(k@),
            },
    {
        match self.position(k) {
            Some(i) => Some(&self.values[i]),
            None => None,
        }
    }

    /// Sets the value for `k`, replacing the one that was there.
    pub fn insert(&mut self, k: K, v: V)
        requires
            old(self).wf(),
        ensures
            final(self).wf(),
            final(self)@ == old(self)@.insert(k@, v),
    {
        match self.position(&k) {
            Some(i) => {
                self.values.set(i, v);
                assert(self@ =~= old(self)@.insert(k@, v)) by {
                    assert forall|x: K::V| self@.contains_key(x) implies #[trigger] self@[x]
                        == old(self)@.insert(k@, v)[x] by {
                        // the keys did not move: `x` is found where it was
                        let j = self.key_seq().index_of(x);
                    }
                }
            },
            None => {
                let ghost n = self.keys@.len() as int;
                self.keys.push(k);
                self.values.push(v);
                assert(self.key_seq() =~= old(self).key_seq().push(k@));
                proof {
                    lemma_seq_inserted(old(self).key_seq(), k@);
                    lemma_index_of_unique(self.key_seq(), n);
                }
                assert(self@ =~= old(self)@.insert(k@, v)) by {
                    assert forall|x: K::V| self@.contains_key(x) implies #[trigger] self@[x]
                        == old(self)@.insert(k@, v)[x] by {
                        if x != k@ {
                            let j = old(self).key_seq().index_of(x);
                            lemma_index_of_unique(self.key_seq(), j);
                        }
                    }
                }
            },
        }
    }

    /// The keys are distinct and are those of the view.
    pub proof fn lemma_key_seq(&self)
        requires
            self.wf(),
        ensures
            self.key_seq().no_duplicates(),
            forall|k: K::V| self@.contains_key(k) <==> self.key_seq().contains(k),
    {
    }

    /// The number of keys.
    pub fn len(&self) -> (n: usize)
        requires
            self.wf(),
        ensures
            n == self.key_seq().len(),
    {
        self.keys.len()
    }

    /// The key at position `i` of the storage order.
    pub fn key_at(&self, i: usize) -> (k: &K)
        requires
            self.wf(),
            i < self.key_seq().len(),
        ensures
            k@ == self.key_seq()[i as int],
    {
        &self.keys[i]
    }

    /// The value of the key at position `i` of the storage order.
    pub fn value_at(&self, i: usize) -> (v: &V)
        requires
            self.wf(),
            i < self.key_seq().len(),
        ensures
            self@.contains_key(self.key_seq()[i as int]),
            *v == self@[self.key_seq()[i as int]],
    {
        proof {
            lemma_index_of_unique(self.key_seq(), i as int);
        }
        &self.values[i]
    }

    /// Takes the value for `k` out of the map, if there is one.
    pub fn remove(&mut self, k: &K) -> (prev: Option<V>)
        requires
            old(self).wf(),
        ensures
            final(self).wf(),
            final(self)@ == old(self)@.remove(k@),
            prev == if old(self)@.contains_key(k@) {
                Some(old(self)@[k@])
            } else {
                None
            },
    {
        match self.position(k) {
            Some(i) => {
                let ghost last = self.keys@.len() - 1;
                self.keys.swap_remove(i);
                let v = self.values.swap_remove(i);
                assert(self.key_seq() =~= seq_swap_removed(old(self).key_seq(), i as int));
                proof {
                    lemma_seq_swap_removed(old(self).key_seq(), i as int);
                }
                assert(self@ =~= old(self)@.remove(k@)) by {
                    assert forall|x: K::V| self@.contains_key(x) implies #[trigger] self@[x]
                        == old(self)@.remove(k@)[x] by {
                        let j = old(self).key_seq().index_of(x);
                        if j == last {
                            lemma_index_of_unique(self.key_seq(), i as int);
                        } else {
                            lemma_index_of_unique(self.key_seq(), j);
                        }
                    }
                }
                Some(v)
            },
            None => None,
        }
    }
}

} // verus!
