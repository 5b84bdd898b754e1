//! Indices: for each group, named by a string, the members listed under it.
//!
//! The mathematical index is a map from the group's name to the sequence of
//! its members; the executable one keeps a set of members per group and drops
//! a group when its last member leaves.

use crate::collections::{
    lemma_seq_inserted, lemma_seq_removed, seq_inserted, seq_removed, Key, VecMap, VecSet,
};
use vstd::prelude::*;

verus! {

/// An index: for each group (an account, a custody service) the members listed
/// under it, in order.
pub type Index<A> = Map<Seq<char>, Seq<A>>;

/// Whether `idx` lists `a` under `group`.
pub open spec fn index_lists<A>(idx: Index<A>, group: Seq<char>, a: A) -> bool {
    idx.contains_key(group) && idx[group].contains(a)
}

/// The members listed under `group`: none where the index has no entry for it.
pub open spec fn index_group<A>(idx: Index<A>, group: Seq<char>) -> Seq<A> {
    if idx.contains_key(group) {
        idx[group]
    } else {
        Seq::empty()
    }
}

/// Every entry lists at least one member, and none twice.
pub open spec fn index_wf<A>(idx: Index<A>) -> bool {
    forall|g: Seq<char>| #[trigger]
        idx.contains_key(g) ==> idx[g].no_duplicates() && idx[g].len() > 0
}

/// `idx` with `a` listed under `group`.
pub open spec fn index_with<A>(idx: Index<A>, group: Seq<char>, a: A) -> Index<A> {
    idx.insert(group, seq_inserted(index_group(idx, group), a))
}

/// `idx` with `a` no longer listed under `group`; an entry left without
/// members is dropped.
pub open spec fn index_without<A>(idx: Index<A>, group: Seq<char>, a: A) -> Index<A> {
    let rest = seq_removed(index_group(idx, group), a);
    if rest.len() == 0 {
        idx.remove(group)
    } else {
        idx.insert(group, rest)
    }
}

/// Listing a member keeps an index well formed and adds that one pair to it.
pub proof fn lemma_index_with<A>(idx: Index<A>, group: Seq<char>, a: A)
    requires
        index_wf(idx),
    ensures
        index_wf(index_with(idx, group, a)),
        forall|g: Seq<char>, x: A| #[trigger]
            index_lists(index_with(idx, group, a), g, x) <==> index_lists(idx, g, x) || (g
                == group && x == a),
{
    let next = index_with(idx, group, a);
    lemma_seq_inserted(index_group(idx, group), a);
    // the entry of `group` holds `a`, so it is not empty
    let i = next[group].index_of(a);
}

/// Unlisting a member keeps an index well formed and removes that one pair from it.
pub proof fn lemma_index_without<A>(idx: Index<A>, group: Seq<char>, a: A)
    requires
        index_wf(idx),
    ensures
        index_wf(index_without(idx, group, a)),
        forall|g: Seq<char>, x: A| #[trigger]
            index_lists(index_without(idx, group, a), g, x) <==> index_lists(idx, g, x) && !(g
                == group && x == a),
{
    let rest = seq_removed(index_group(idx, group), a);
    lemma_seq_removed(index_group(idx, group), a);
    assert forall|x: A| rest.len() == 0 implies !rest.contains(x) by {
        let j = rest.index_of(x);
    }
}

/// An index over vectors.
pub struct GroupIndex<K> {
    groups: VecMap<String, VecSet<K>>,
}

impl<K: Key> View for GroupIndex<K> {
    type V = Index<K::V>;

    closed spec fn view(&self) -> Index<K::V> {
        self.groups@.map_values(|members: VecSet<K>| members@)
    }
}

impl<K: Key> GroupIndex<K> {
    /// The groups are distinct, and each lists at least one member and none twice.
    pub closed spec fn wf(&self) -> bool {
        &&& self.groups.wf()
        &&& index_wf(self@)
    }

    /// A well-formed index has a well-formed view.
    pub proof fn lemma_wf_view(&self)
        requires
            self.wf(),
        ensures
            index_wf(self@),
    {
    }

    /// The index without any group.
    pub fn new() -> (idx: Self)
        ensures
            idx.wf(),
            idx@ == Map::<Seq<char>, Seq<K::V>>::empty(),
    {
        let idx = GroupIndex { groups: VecMap::new() };
        idx
    }

    /// Whether anything is listed under `group`.
    pub fn contains_group(&self, group: &String) -> (b: bool)
        requires
            self.wf(),
        ensures
            b == self@.contains_key(group@),
    {
        self.groups.contains_key(group)
    }

    /// Whether `member` is listed under `group`.
    pub fn lists(&self, group: &String, member: &K) -> (b: bool)
        requires
            self.wf(),
        ensures
            b == index_lists(self@, group@, member@),
    {
        match self.groups.get(group) {
            Some(members) => members.contains(member),
            None => false,
        }
    }

    /// How many members are listed under `group`.
    pub fn count(&self, group: &String) -> (n: usize)
        requires
            self.wf(),
        ensures
            n == index_group(self@, group@).len(),
    {
        match self.groups.get(group) {
            Some(members) => members.len(),
            None => 0,
        }
    }

    /// The members listed under `group`, in order.
    pub fn members(&self, group: &String) -> (v: Vec<K>)
        requires
            self.wf(),
        ensures
            v@.map_values(|k: K| k@) == index_group(self@, group@),
    {
        match self.groups.get(group) {
            Some(members) => members.to_vec(),
            None => {
                let v: Vec<K> = Vec::new();
                v
            },
        }
    }

    /// The groups under which anything is listed, each once.
    pub fn groups(&self) -> (names: Vec<String>)
        requires
            self.wf(),
        ensures
            names@.map_values(|g: String| g@).no_duplicates(),
            forall|g: Seq<char>|
                self@.contains_key(g) <==> names@.map_values(|g: String| g@).contains(g),
    {
        let mut names: Vec<String> = Vec::new();
        let mut i: usize = 0;
        let n = self.groups.len();
        while i < n
            invariant
                self.wf(),
                n == self.groups.key_seq().len(),
                i <= n,
                names@.len() == i,
                forall|j: int| 0 <= j < i ==> (#[trigger] names@[j])@ == self.groups.key_seq()[j],
            decreases n - i,
        {
            names.push(self.groups.key_at(i).clone());
            i += 1;
        }
        proof {
            self.groups.lemma_key_seq();
            assert(names@.map_values(|g: String| g@) =~= self.groups.key_seq());
        }
        names
    }

    /// Lists `member` under `group`.
    pub fn insert(&mut self, group: &String, member: K)
        requires
            old(self).wf(),
        ensures
            final(self).wf(),
            final(self)@ == index_with(old(self)@, group@, member@),
    {
        proof {
            lemma_index_with(self@, group@, member@);
        }
        let mut members = match self.groups.remove(group) {
            Some(members) => members,
            None => VecSet::new(),
        };
        members.insert(member);
        self.groups.insert(group.clone(), members);
        assert(self@ =~= index_with(old(self)@, group@, member@));
    }

    /// Takes `member` out of `group`, and drops the group if that was its last member.
    pub fn remove(&mut self, group: &String, member: &K)
        requires
            old(self).wf(),
        ensures
            final(self).wf(),
            final(self)@ == index_without(old(self)@, group@, member@),
    {
        proof {
            lemma_index_without(self@, group@, member@);
        }
        match self.groups.remove(group) {
            Some(members) => {
                let mut members = members;
                members.remove(member);
                if !members.is_empty() {
                    self.groups.insert(group.clone(), members);
                }
            },
            None => {},
        }
        assert(self@ =~= index_without(old(self)@, group@, member@));
    }
}

} // verus!
