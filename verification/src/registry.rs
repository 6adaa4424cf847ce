//! An insertion-ordered keyed collection with small-integer ids.
//!
//! The pool registry keeps every conversion pool under its id. Ids are
//! handed out by a monotonic counter held by the aggregate root, so a
//! deleted pool's id is never reused; the registry itself only demands
//! that keys are distinct.
use vstd::prelude::*;

verus! {

/// A finite map with `u64` keys, enumerable in insertion order.
#[derive(Debug)]
pub struct IdMap<V> {
    pub entries: Vec<(u64, V)>,
}

impl<V> IdMap<V> {
    /// Keys are pairwise distinct.
    pub open spec fn wf(self) -> bool {
        forall|i: int, j: int|
            0 <= i < j < self.entries@.len() ==> (#[trigger] self.entries@[i]).0 != (
            #[trigger] self.entries@[j]).0
    }

    pub open spec fn spec_contains(self, k: u64) -> bool {
        exists|i: int| 0 <= i < self.entries@.len() && (#[trigger] self.entries@[i]).0 == k
    }

    /// The index holding `k`; meaningful only when `spec_contains(k)`.
    pub open spec fn spec_index_of(self, k: u64) -> int {
        choose|i: int| 0 <= i < self.entries@.len() && (#[trigger] self.entries@[i]).0 == k
    }
}

impl<V> View for IdMap<V> {
    type V = Map<u64, V>;

    open spec fn view(&self) -> Map<u64, V> {
        Map::new(
            |k: u64| self.spec_contains(k),
            |k: u64| self.entries@[self.spec_index_of(k)].1,
        )
    }
}

/// An entry found at an index is the entry the map associates with its key.
pub proof fn lemma_id_entry_at<V>(s: IdMap<V>, i: int)
    requires
        s.wf(),
        0 <= i < s.entries@.len(),
    ensures
        s.spec_contains(s.entries@[i].0),
        s.spec_index_of(s.entries@[i].0) == i,
        s@.contains_key(s.entries@[i].0),
        s@[s.entries@[i].0] == s.entries@[i].1,
{
    let k = s.entries@[i].0;
    assert(s.spec_contains(k));
    let j = s.spec_index_of(k);
    assert(0 <= j < s.entries@.len() && s.entries@[j].0 == k);
    if j != i {
        assert(s.entries@[i].0 != s.entries@[j].0);
        assert(false);
    }
}

impl<V> IdMap<V> {
    pub fn new() -> (r: IdMap<V>)
        ensures
            r.wf(),
            r@ == Map::<u64, V>::empty(),
            r.entries@.len() == 0,
    {
        let r = IdMap { entries: Vec::new() };
        proof {
            assert(r@ =~= Map::<u64, V>::empty());
        }
        r
    }

    pub fn len(&self) -> (r: usize)
        ensures
            r == self.entries@.len(),
    {
        self.entries.len()
    }

    /// The position of a key, scanning in insertion order.
    pub fn find_index(&self, k: u64) -> (r: Option<usize>)
        requires
            self.wf(),
        ensures
            match r {
                Some(i) => i < self.entries@.len() && self.entries@[i as int].0 == k
                    && self@.contains_key(k) && self.spec_index_of(k) == i,
                None => !self@.contains_key(k),
            },
    {
        let n = self.entries.len();
        let mut i: usize = 0;
        while i < n
            invariant
                n == self.entries@.len(),
                0 <= i <= n,
                self.wf(),
                forall|j: int| 0 <= j < i ==> (#[trigger] self.entries@[j]).0 != k,
            decreases n - i,
        {
            if self.entries[i].0 == k {
                proof {
                    lemma_id_entry_at(*self, i as int);
                }
                return Some(i);
            }
            i += 1;
        }
        None
    }

    /// Looks a key up, scanning in insertion order.
    pub fn get(&self, k: u64) -> (r: Option<&V>)
        requires
            self.wf(),
        ensures
            match r {
                Some(v) => self@.contains_key(k) && *v == self@[k],
                None => !self@.contains_key(k),
            },
    {
        match self.find_index(k) {
            Some(i) => Some(&self.entries[i].1),
            None => None,
        }
    }

    /// Maps `k` to `v`: overwrites in place when the key is present, else
    /// appends a fresh entry.
    pub fn insert(&mut self, k: u64, v: V)
        requires
            old(self).wf(),
        ensures
            final(self).wf(),
            final(self)@ == old(self)@.insert(k, v),
            old(self).spec_contains(k) ==> final(self).entries@ == old(self).entries@.update(
                old(self).spec_index_of(k),
                (k, v),
            ),
            !old(self).spec_contains(k) ==> final(self).entries@ == old(self).entries@.push(
                (k, v),
            ),
    {
        let ghost pre = *self;
        match self.find_index(k) {
            Some(i) => {
                self.entries.set(i, (k, v));
                proof {
                    lemma_id_view_after_update(pre, *self, i as int);
                }
            },
            None => {
                self.entries.push((k, v));
                proof {
                    lemma_id_view_after_push(pre, *self);
                }
            },
        }
    }

    /// Removes a key, preserving the order of the remaining entries.
    pub fn remove(&mut self, k: u64) -> (r: Option<V>)
        requires
            old(self).wf(),
        ensures
            final(self).wf(),
            final(self)@ == old(self)@.remove(k),
            match r {
                Some(v) => old(self)@.contains_key(k) && v == old(self)@[k]
                    && final(self).entries@ == old(self).entries@.remove(
                    old(self).spec_index_of(k),
                ),
                None => !old(self)@.contains_key(k) && *final(self) == *old(self),
            },
    {
        let ghost pre = *self;
        match self.find_index(k) {
            Some(i) => {
                let (_, v) = self.entries.remove(i);
                proof {
                    lemma_id_view_after_remove(pre, *self, i as int);
                    lemma_id_entry_at(pre, i as int);
                }
                Some(v)
            },
            None => {
                proof {
                    assert(self@ =~= self@.remove(k));
                }
                None
            },
        }
    }
}

/// Overwriting one entry with an equal-keyed entry updates the map at that
/// key and nothing else.
proof fn lemma_id_view_after_update<V>(pre: IdMap<V>, post: IdMap<V>, i: int)
    requires
        pre.wf(),
        0 <= i < pre.entries@.len(),
        post.entries@ == pre.entries@.update(i, post.entries@[i]),
        post.entries@[i].0 == pre.entries@[i].0,
    ensures
        post.wf(),
        post@ == pre@.insert(pre.entries@[i].0, post.entries@[i].1),
{
    let k = pre.entries@[i].0;
    assert(forall|j: int|
        0 <= j < post.entries@.len() ==> (#[trigger] post.entries@[j]).0 == pre.entries@[j].0);
    assert forall|j1: int, j2: int|
        0 <= j1 < j2 < post.entries@.len() implies (#[trigger] post.entries@[j1]).0 != (
    #[trigger] post.entries@[j2]).0 by {
        assert(pre.entries@[j1].0 != pre.entries@[j2].0);
    }
    assert forall|kk: u64| true implies post.spec_contains(kk) == pre.spec_contains(kk) by {
        if post.spec_contains(kk) {
            let j = post.spec_index_of(kk);
            assert(0 <= j < post.entries@.len() && post.entries@[j].0 == kk);
            assert(pre.entries@[j].0 == kk);
            assert(pre.spec_contains(kk));
        }
        if pre.spec_contains(kk) {
            let j = pre.spec_index_of(kk);
            assert(0 <= j < pre.entries@.len() && pre.entries@[j].0 == kk);
            assert(post.entries@[j].0 == kk);
            assert(post.spec_contains(kk));
        }
    }
    assert forall|kk: u64| post@.contains_key(kk) implies post@[kk] == pre@.insert(
        k,
        post.entries@[i].1,
    )[kk] by {
        let j = post.spec_index_of(kk);
        assert(0 <= j < post.entries@.len() && post.entries@[j].0 == kk);
        lemma_id_entry_at(post, j);
        if kk == k {
            lemma_id_entry_at(pre, i);
            assert(j == i) by {
                if j != i {
                    assert(pre.entries@[j].0 == kk);
                    lemma_id_entry_at(pre, j);
                }
            }
        } else {
            assert(j != i);
            lemma_id_entry_at(pre, j);
        }
    }
    assert(post@ =~= pre@.insert(k, post.entries@[i].1));
}

/// Appending an entry with a fresh key inserts it into the map and changes
/// nothing else.
proof fn lemma_id_view_after_push<V>(pre: IdMap<V>, post: IdMap<V>)
    requires
        pre.wf(),
        post.entries@.len() == pre.entries@.len() + 1,
        post.entries@ == pre.entries@.push(post.entries@.last()),
        !pre.spec_contains(post.entries@.last().0),
    ensures
        post.wf(),
        post@ == pre@.insert(post.entries@.last().0, post.entries@.last().1),
{
    let n = pre.entries@.len() as int;
    let e = post.entries@.last();
    assert forall|i: int, j: int|
        0 <= i < j < post.entries@.len() implies (#[trigger] post.entries@[i]).0 != (
    #[trigger] post.entries@[j]).0 by {
        if j < n {
            assert(pre.entries@[i].0 != pre.entries@[j].0);
        } else {
            assert(post.entries@[j] == e);
            if post.entries@[i].0 == e.0 {
                assert(pre.entries@[i].0 == e.0);
                assert(pre.spec_contains(e.0));
            }
        }
    }
    assert forall|kk: u64| true implies post.spec_contains(kk) == (pre.spec_contains(kk) || kk
        == e.0) by {
        if post.spec_contains(kk) {
            let j = post.spec_index_of(kk);
            assert(0 <= j < post.entries@.len() && post.entries@[j].0 == kk);
            if j < n {
                assert(pre.entries@[j].0 == kk);
                assert(pre.spec_contains(kk));
            }
        }
        if pre.spec_contains(kk) {
            let j = pre.spec_index_of(kk);
            assert(0 <= j < pre.entries@.len() && pre.entries@[j].0 == kk);
            assert(post.entries@[j].0 == kk);
            assert(post.spec_contains(kk));
        }
        if kk == e.0 {
            assert(post.entries@[n].0 == kk);
            assert(post.spec_contains(kk));
        }
    }
    assert forall|kk: u64| post@.contains_key(kk) implies post@[kk] == pre@.insert(
        e.0,
        e.1,
    )[kk] by {
        let j = post.spec_index_of(kk);
        assert(0 <= j < post.entries@.len() && post.entries@[j].0 == kk);
        lemma_id_entry_at(post, j);
        if kk == e.0 {
            assert(j == n) by {
                if j != n {
                    assert(pre.entries@[j].0 == kk);
                    assert(pre.spec_contains(kk));
                }
            }
        } else {
            assert(j != n);
            assert(pre.entries@[j].0 == kk);
            lemma_id_entry_at(pre, j);
        }
    }
    assert(post@ =~= pre@.insert(e.0, e.1));
}

/// Removing one entry removes exactly its key from the map.
proof fn lemma_id_view_after_remove<V>(pre: IdMap<V>, post: IdMap<V>, i: int)
    requires
        pre.wf(),
        0 <= i < pre.entries@.len(),
        post.entries@ == pre.entries@.remove(i),
    ensures
        post.wf(),
        post@ == pre@.remove(pre.entries@[i].0),
{
    let k = pre.entries@[i].0;
    assert(forall|j: int|
        0 <= j < post.entries@.len() ==> #[trigger] post.entries@[j] == pre.entries@[
            if j < i {
                j
            } else {
                j + 1
            }
        ]);
    assert forall|j1: int, j2: int|
        0 <= j1 < j2 < post.entries@.len() implies (#[trigger] post.entries@[j1]).0 != (
    #[trigger] post.entries@[j2]).0 by {
        let p1 = if j1 < i { j1 } else { j1 + 1 };
        let p2 = if j2 < i { j2 } else { j2 + 1 };
        assert(pre.entries@[p1].0 != pre.entries@[p2].0);
    }
    assert forall|kk: u64| true implies post.spec_contains(kk) == (pre.spec_contains(kk) && kk
        != k) by {
        if post.spec_contains(kk) {
            let j = post.spec_index_of(kk);
            assert(0 <= j < post.entries@.len() && post.entries@[j].0 == kk);
            let p = if j < i { j } else { j + 1 };
            assert(pre.entries@[p].0 == kk);
            assert(pre.spec_contains(kk));
            if kk == k {
                lemma_id_entry_at(pre, i);
                lemma_id_entry_at(pre, p);
            }
        }
        if pre.spec_contains(kk) && kk != k {
            let j = pre.spec_index_of(kk);
            assert(0 <= j < pre.entries@.len() && pre.entries@[j].0 == kk);
            assert(j != i) by {
                lemma_id_entry_at(pre, i);
            }
            if j < i {
                assert(post.entries@[j].0 == kk);
            } else {
                assert(post.entries@[j - 1].0 == kk);
            }
            assert(post.spec_contains(kk));
        }
    }
    assert forall|kk: u64| post@.contains_key(kk) implies post@[kk] == pre@.remove(k)[kk] by {
        let j = post.spec_index_of(kk);
        assert(0 <= j < post.entries@.len() && post.entries@[j].0 == kk);
        lemma_id_entry_at(post, j);
        let p = if j < i { j } else { j + 1 };
        assert(pre.entries@[p].0 == kk);
        lemma_id_entry_at(pre, p);
    }
    assert(post@ =~= pre@.remove(k));
}

} // verus!
