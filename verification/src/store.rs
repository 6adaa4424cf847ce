//! An insertion-ordered association list from string identifiers to values.
//!
//! The persisted stores of the ledger (accounts, whitelisted tokens) are
//! finite maps whose enumeration order is the insertion order. Entries are
//! kept in a vector with pairwise-distinct keys; the view is the finite
//! `Map` from key views to values.
use vstd::prelude::*;

use crate::types::AccountId;

verus! {

/// A finite map with `String` keys, enumerable in insertion order.
#[derive(Debug)]
pub struct StrMap<V> {
    pub entries: Vec<(AccountId, V)>,
}

impl<V> StrMap<V> {
    /// Keys are pairwise distinct.
    pub open spec fn wf(self) -> bool {
        forall|i: int, j: int|
            0 <= i < j < self.entries@.len() ==> (#[trigger] self.entries@[i]).0@ != (
            #[trigger] self.entries@[j]).0@
    }

    pub open spec fn spec_contains(self, k: Seq<char>) -> bool {
        exists|i: int| 0 <= i < self.entries@.len() && (#[trigger] self.entries@[i]).0@ == k
    }

    /// The index holding `k`; meaningful only when `spec_contains(k)`.
    pub open spec fn spec_index_of(self, k: Seq<char>) -> int {
        choose|i: int| 0 <= i < self.entries@.len() && (#[trigger] self.entries@[i]).0@ == k
    }
}

impl<V> View for StrMap<V> {
    type V = Map<Seq<char>, V>;

    open spec fn view(&self) -> Map<Seq<char>, V> {
        Map::new(
            |k: Seq<char>| self.spec_contains(k),
            |k: Seq<char>| self.entries@[self.spec_index_of(k)].1,
        )
    }
}

/// An entry found at an index is the entry the map associates with its key.
pub proof fn lemma_entry_at<V>(s: StrMap<V>, i: int)
    requires
        s.wf(),
        0 <= i < s.entries@.len(),
    ensures
        s.spec_contains(s.entries@[i].0@),
        s.spec_index_of(s.entries@[i].0@) == i,
        s@.contains_key(s.entries@[i].0@),
        s@[s.entries@[i].0@] == s.entries@[i].1,
{
    let k = s.entries@[i].0@;
    assert(s.spec_contains(k));
    let j = s.spec_index_of(k);
    assert(0 <= j < s.entries@.len() && s.entries@[j].0@ == k);
    if j != i {
        assert(s.entries@[i].0@ != s.entries@[j].0@);
        assert(false);
    }
}

impl<V> StrMap<V> {
    pub fn new() -> (r: StrMap<V>)
        ensures
            r.wf(),
            r@ == Map::<Seq<char>, V>::empty(),
            r.entries@.len() == 0,
    {
        let r = StrMap { entries: Vec::new() };
        proof {
            assert(r@ =~= Map::<Seq<char>, V>::empty());
        }
        r
    }

    pub fn len(&self) -> (r: usize)
        ensures
            r == self.entries@.len(),
    {
        self.entries.len()
    }

    /// Looks a key up, scanning in insertion order.
    pub fn get(&self, k: &AccountId) -> (r: Option<&V>)
        requires
            self.wf(),
        ensures
            match r {
                Some(v) => self@.contains_key(k@) && *v == self@[k@],
                None => !self@.contains_key(k@),
            },
    {
        let n = self.entries.len();
        let mut i: usize = 0;
        while i < n
            invariant
                n == self.entries@.len(),
                0 <= i <= n,
                self.wf(),
                forall|j: int| 0 <= j < i ==> (#[trigger] self.entries@[j]).0@ != k@,
            decreases n - i,
        {
            if self.entries[i].0 == *k {
                proof {
                    lemma_entry_at(*self, i as int);
                }
                return Some(&self.entries[i].1);
            }
            i += 1;
        }
        None
    }

    /// The position of a key, scanning in insertion order.
    pub fn find_index(&self, k: &AccountId) -> (r: Option<usize>)
        requires
            self.wf(),
        ensures
            match r {
                Some(i) => i < self.entries@.len() && self.entries@[i as int].0@ == k@
                    && self@.contains_key(k@) && self.spec_index_of(k@) == i,
                None => !self@.contains_key(k@),
            },
    {
        let n = self.entries.len();
        let mut i: usize = 0;
        while i < n
            invariant
                n == self.entries@.len(),
                0 <= i <= n,
                self.wf(),
                forall|j: int| 0 <= j < i ==> (#[trigger] self.entries@[j]).0@ != k@,
            decreases n - i,
        {
            if self.entries[i].0 == *k {
                proof {
                    lemma_entry_at(*self, i as int);
                }
                return Some(i);
            }
            i += 1;
        }
        None
    }

    /// Maps `k` to `v`: overwrites in place when the key is present, else
    /// appends a fresh entry.
    pub fn insert(&mut self, k: AccountId, v: V)
        requires
            old(self).wf(),
        ensures
            final(self).wf(),
            final(self)@ == old(self)@.insert(k@, v),
            old(self).spec_contains(k@) ==> final(self).entries@ == old(self).entries@.update(
                old(self).spec_index_of(k@),
                (k, v),
            ),
            !old(self).spec_contains(k@) ==> final(self).entries@ == old(self).entries@.push(
                (k, v),
            ),
    {
        let ghost pre = *self;
        match self.find_index(&k) {
            Some(i) => {
                self.entries.set(i, (k, v));
                proof {
                    lemma_view_after_update(pre, *self, i as int);
                }
            },
            None => {
                self.entries.push((k, v));
                proof {
                    lemma_view_after_push(pre, *self);
                }
            },
        }
    }

    /// Removes a key, preserving the order of the remaining entries.
    pub fn remove(&mut self, k: &AccountId) -> (r: Option<V>)
        requires
            old(self).wf(),
        ensures
            final(self).wf(),
            final(self)@ == old(self)@.remove(k@),
            match r {
                Some(v) => old(self)@.contains_key(k@) && v == old(self)@[k@]
                    && final(self).entries@ == old(self).entries@.remove(
                    old(self).spec_index_of(k@),
                ),
                None => !old(self)@.contains_key(k@) && *final(self) == *old(self),
            },
    {
        let ghost pre = *self;
        match self.find_index(k) {
            Some(i) => {
                let (_, v) = self.entries.remove(i);
                proof {
                    lemma_view_after_remove(pre, *self, i as int);
                    lemma_entry_at(pre, i as int);
                }
                Some(v)
            },
            None => {
                proof {
                    assert(self@ =~= self@.remove(k@));
                }
                None
            },
        }
    }
}

/// Two stores with the same entries denote the same map: the store's whole
/// meaning is its entry sequence.
pub proof fn lemma_same_entries_same_view<V>(s1: StrMap<V>, s2: StrMap<V>)
    requires
        s1.wf(),
        s1.entries@ == s2.entries@,
    ensures
        s2.wf(),
        s1@ == s2@,
{
    assert forall|k: Seq<char>| true implies s1.spec_contains(k) == s2.spec_contains(k) by {
        if s1.spec_contains(k) {
            let i = s1.spec_index_of(k);
            assert(0 <= i < s1.entries@.len() && s1.entries@[i].0@ == k);
            assert(s2.entries@[i].0@ == k);
            assert(s2.spec_contains(k));
        }
        if s2.spec_contains(k) {
            let i = s2.spec_index_of(k);
            assert(0 <= i < s2.entries@.len() && s2.entries@[i].0@ == k);
            assert(s1.entries@[i].0@ == k);
            assert(s1.spec_contains(k));
        }
    }
    assert forall|k: Seq<char>| s1@.contains_key(k) implies s1@[k] == s2@[k] by {
        let i1 = s1.spec_index_of(k);
        assert(0 <= i1 < s1.entries@.len() && s1.entries@[i1].0@ == k);
        let i2 = s2.spec_index_of(k);
        assert(0 <= i2 < s2.entries@.len() && s2.entries@[i2].0@ == k);
        assert(s1.entries@[i2].0@ == k);
        if i1 != i2 {
            assert(s1.entries@[i1].0@ != s1.entries@[i2].0@);
        }
    }
    assert(s1@ =~= s2@);
}

impl<V: Copy> Clone for StrMap<V> {
    /// A clone carries exactly the same entries in the same order.
    fn clone(&self) -> (r: Self)
        ensures
            r.entries@ == self.entries@,
    {
        let n = self.entries.len();
        let mut entries: Vec<(AccountId, V)> = Vec::new();
        let mut i: usize = 0;
        while i < n
            invariant
                n == self.entries@.len(),
                0 <= i <= n,
                entries@.len() == i,
                forall|j: int| 0 <= j < i ==> entries@[j] == self.entries@[j],
            decreases n - i,
        {
            let e = &self.entries[i];
            entries.push((e.0.clone(), e.1));
            i += 1;
        }
        proof {
            assert(entries@ =~= self.entries@);
        }
        StrMap { entries }
    }
}

/// Overwriting one entry with an equal-keyed entry updates the map at that
/// key and nothing else.
proof fn lemma_view_after_update<V>(pre: StrMap<V>, post: StrMap<V>, i: int)
    requires
        pre.wf(),
        0 <= i < pre.entries@.len(),
        post.entries@ == pre.entries@.update(i, post.entries@[i]),
        post.entries@[i].0@ == pre.entries@[i].0@,
    ensures
        post.wf(),
        post@ == pre@.insert(pre.entries@[i].0@, post.entries@[i].1),
{
    let k = pre.entries@[i].0@;
    assert(forall|j: int|
        0 <= j < post.entries@.len() ==> (#[trigger] post.entries@[j]).0@ == pre.entries@[j].0@);
    assert(post.wf());
    assert forall|kk: Seq<char>| true implies post.spec_contains(kk) == pre.spec_contains(
        kk,
    ) by {
        if post.spec_contains(kk) {
            let j = post.spec_index_of(kk);
            assert(0 <= j < post.entries@.len() && post.entries@[j].0@ == kk);
            assert(pre.entries@[j].0@ == kk);
            assert(pre.spec_contains(kk));
        }
        if pre.spec_contains(kk) {
            let j = pre.spec_index_of(kk);
            assert(0 <= j < pre.entries@.len() && pre.entries@[j].0@ == kk);
            assert(post.entries@[j].0@ == kk);
            assert(post.spec_contains(kk));
        }
    }
    assert forall|kk: Seq<char>| post@.contains_key(kk) implies post@[kk] == pre@.insert(
        k,
        post.entries@[i].1,
    )[kk] by {
        let j = post.spec_index_of(kk);
        assert(0 <= j < post.entries@.len() && post.entries@[j].0@ == kk);
        lemma_entry_at(post, j);
        if kk == k {
            lemma_entry_at(pre, i);
            assert(j == i) by {
                if j != i {
                    assert(pre.entries@[j].0@ == kk);
                    lemma_entry_at(pre, j);
                }
            }
        } else {
            assert(j != i);
            lemma_entry_at(pre, j);
        }
    }
    assert(post@ =~= pre@.insert(k, post.entries@[i].1));
}

/// Appending an entry with a fresh key inserts it into the map and changes
/// nothing else.
proof fn lemma_view_after_push<V>(pre: StrMap<V>, post: StrMap<V>)
    requires
        pre.wf(),
        post.entries@.len() == pre.entries@.len() + 1,
        post.entries@ == pre.entries@.push(post.entries@.last()),
        !pre.spec_contains(post.entries@.last().0@),
    ensures
        post.wf(),
        post@ == pre@.insert(post.entries@.last().0@, post.entries@.last().1),
{
    let n = pre.entries@.len() as int;
    let e = post.entries@.last();
    assert forall|i: int, j: int|
        0 <= i < j < post.entries@.len() implies (#[trigger] post.entries@[i]).0@ != (
    #[trigger] post.entries@[j]).0@ by {
        if j < n {
            assert(pre.entries@[i].0@ != pre.entries@[j].0@);
        } else {
            assert(post.entries@[j] == e);
            if post.entries@[i].0@ == e.0@ {
                assert(pre.entries@[i].0@ == e.0@);
                assert(pre.spec_contains(e.0@));
            }
        }
    }
    assert forall|kk: Seq<char>| true implies post.spec_contains(kk) == (pre.spec_contains(kk)
        || kk == e.0@) by {
        if post.spec_contains(kk) {
            let j = post.spec_index_of(kk);
            assert(0 <= j < post.entries@.len() && post.entries@[j].0@ == kk);
            if j < n {
                assert(pre.entries@[j].0@ == kk);
                assert(pre.spec_contains(kk));
            }
        }
        if pre.spec_contains(kk) {
            let j = pre.spec_index_of(kk);
            assert(0 <= j < pre.entries@.len() && pre.entries@[j].0@ == kk);
            assert(post.entries@[j].0@ == kk);
            assert(post.spec_contains(kk));
        }
        if kk == e.0@ {
            assert(post.entries@[n].0@ == kk);
            assert(post.spec_contains(kk));
        }
    }
    assert forall|kk: Seq<char>| post@.contains_key(kk) implies post@[kk] == pre@.insert(
        e.0@,
        e.1,
    )[kk] by {
        let j = post.spec_index_of(kk);
        assert(0 <= j < post.entries@.len() && post.entries@[j].0@ == kk);
        lemma_entry_at(post, j);
        if kk == e.0@ {
            assert(j == n) by {
                if j != n {
                    assert(pre.entries@[j].0@ == kk);
                    assert(pre.spec_contains(kk));
                }
            }
        } else {
            assert(j != n);
            assert(pre.entries@[j].0@ == kk);
            lemma_entry_at(pre, j);
        }
    }
    assert(post@ =~= pre@.insert(e.0@, e.1));
}

/// Removing one entry removes exactly its key from the map.
proof fn lemma_view_after_remove<V>(pre: StrMap<V>, post: StrMap<V>, i: int)
    requires
        pre.wf(),
        0 <= i < pre.entries@.len(),
        post.entries@ == pre.entries@.remove(i),
    ensures
        post.wf(),
        post@ == pre@.remove(pre.entries@[i].0@),
{
    let k = pre.entries@[i].0@;
    let n = pre.entries@.len() as int;
    assert(forall|j: int|
        0 <= j < post.entries@.len() ==> #[trigger] post.entries@[j] == pre.entries@[
            if j < i {
                j
            } else {
                j + 1
            }
        ]);
    assert forall|j1: int, j2: int|
        0 <= j1 < j2 < post.entries@.len() implies (#[trigger] post.entries@[j1]).0@ != (
    #[trigger] post.entries@[j2]).0@ by {
        let p1 = if j1 < i { j1 } else { j1 + 1 };
        let p2 = if j2 < i { j2 } else { j2 + 1 };
        assert(pre.entries@[p1].0@ != pre.entries@[p2].0@);
    }
    assert forall|kk: Seq<char>| true implies post.spec_contains(kk) == (pre.spec_contains(kk)
        && kk != k) by {
        if post.spec_contains(kk) {
            let j = post.spec_index_of(kk);
            assert(0 <= j < post.entries@.len() && post.entries@[j].0@ == kk);
            let p = if j < i { j } else { j + 1 };
            assert(pre.entries@[p].0@ == kk);
            assert(pre.spec_contains(kk));
            if kk == k {
                lemma_entry_at(pre, i);
                lemma_entry_at(pre, p);
            }
        }
        if pre.spec_contains(kk) && kk != k {
            let j = pre.spec_index_of(kk);
            assert(0 <= j < pre.entries@.len() && pre.entries@[j].0@ == kk);
            assert(j != i) by {
                lemma_entry_at(pre, i);
            }
            if j < i {
                assert(post.entries@[j].0@ == kk);
            } else {
                assert(post.entries@[j - 1].0@ == kk);
            }
            assert(post.spec_contains(kk));
        }
    }
    assert forall|kk: Seq<char>| post@.contains_key(kk) implies post@[kk] == pre@.remove(
        k,
    )[kk] by {
        let j = post.spec_index_of(kk);
        assert(0 <= j < post.entries@.len() && post.entries@[j].0@ == kk);
        lemma_entry_at(post, j);
        let p = if j < i { j } else { j + 1 };
        assert(pre.entries@[p].0@ == kk);
        lemma_entry_at(pre, p);
    }
    assert(post@ =~= pre@.remove(k));
}

} // verus!
