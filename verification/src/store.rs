//! Keyed storage for engine resources.
//!
//! A store hands out a fresh index for every added value; indices are never
//! reused, so a stored value is reachable under exactly one index.

use vstd::prelude::*;

verus! {

/// Handle to a stored resource.
#[derive(Debug, Clone, Copy, PartialEq, Eq, Structural)]
pub struct Index {
    pub id: u32,
}

impl Index {
    /// Wrap a raw index value.
    pub fn new(id: u32) -> (r: Index)
        ensures
            r.id == id,
    {
        Index { id }
    }

    /// The raw index value.
    pub fn pointer(&self) -> (r: u32)
        ensures
            r == self.id,
    {
        self.id
    }
}

/// A store of values of one resource kind, keyed by [`Index`].
#[derive(Debug, Clone)]
pub struct Store<T> {
    pub stored: Vec<(u32, T)>,
    pub next_index: u32,
}

impl<T> Store<T> {
    /// Every key is unique and below the fresh-index counter.
    pub open spec fn wf(self) -> bool {
        &&& forall|i: int, j: int|
            0 <= i < j < self.stored@.len() ==> (#[trigger] self.stored@[i]).0 != (
            #[trigger] self.stored@[j]).0
        &&& forall|i: int| 0 <= i < self.stored@.len() ==> (#[trigger] self.stored@[i]).0 < self.next_index
    }

    /// Whether a value is stored under this key.
    pub open spec fn spec_has(self, id: u32) -> bool {
        exists|i: int| 0 <= i < self.stored@.len() && (#[trigger] self.stored@[i]).0 == id
    }

    /// Position of the key's entry.
    pub open spec fn spec_pos(self, id: u32) -> int {
        choose|i: int| 0 <= i < self.stored@.len() && (#[trigger] self.stored@[i]).0 == id
    }

    /// The value stored under the key.
    pub open spec fn spec_get(self, id: u32) -> T {
        self.stored@[self.spec_pos(id)].1
    }

    /// An empty store.
    pub fn new() -> (r: Store<T>)
        ensures
            r.wf(),
            r.stored@.len() == 0,
            r.next_index == 0,
    {
        Store { stored: Vec::new(), next_index: 0 }
    }

    /// Add a value under a fresh index and hand the index out.
    pub fn add(&mut self, value: T) -> (r: Index)
        requires
            old(self).wf(),
            old(self).next_index < u32::MAX,
        ensures
            final(self).wf(),
            r.id == old(self).next_index,
            final(self).stored@ == old(self).stored@.push((r.id, value)),
            final(self).next_index == old(self).next_index + 1,
            final(self).spec_has(r.id),
    {
        let index = Index::new(self.next_index);
        self.next_index = self.next_index + 1;
        self.stored.push((index.id, value));
        proof {
            assert(final(self).stored@[final(self).stored@.len() - 1].0 == index.id);
        }
        index
    }

    /// The value stored under the index.
    pub fn get(&self, index: &Index) -> (r: &T)
        requires
            self.wf(),
            self.spec_has(index.id),
        ensures
            *r == self.spec_get(index.id),
    {
        let mut i: usize = 0;
        while i < self.stored.len()
            invariant
                self.wf(),
                self.spec_has(index.id),
                forall|j: int| 0 <= j < i ==> (#[trigger] self.stored@[j]).0 != index.id,
            decreases self.stored@.len() - i,
        {
            if self.stored[i].0 == index.id {
                proof {
                    let q = self.spec_pos(index.id);
                    assert(0 <= q < self.stored@.len() && self.stored@[q].0 == index.id);
                    if q < i {
                        assert(self.stored@[q].0 != self.stored@[i as int].0);
                    }
                    if q > i {
                        assert(self.stored@[i as int].0 != self.stored@[q].0);
                    }
                    assert(q == i);
                }
                return &self.stored[i].1;
            }
            i = i + 1;
        }
        proof {
            let w = choose|w: int|
                0 <= w < self.stored@.len() && (#[trigger] self.stored@[w]).0 == index.id;
            assert(self.stored@[w].0 != index.id);
        }
        vstd::pervasive::unreached()
    }

    /// Mutable access to the value stored under the index.
    pub fn get_mut(&mut self, index: &Index) -> (r: &mut T)
        requires
            old(self).wf(),
            old(self).spec_has(index.id),
        ensures
            *r == old(self).spec_get(index.id),
            final(self).next_index == old(self).next_index,
            final(self).stored@ == old(self).stored@.update(
                old(self).spec_pos(index.id),
                (index.id, *final(r)),
            ),
    {
        let mut i: usize = 0;
        while i < self.stored.len()
            invariant
                *self == *old(self),
                self.wf(),
                self.spec_has(index.id),
                forall|j: int| 0 <= j < i ==> (#[trigger] self.stored@[j]).0 != index.id,
            decreases self.stored@.len() - i,
        {
            if self.stored[i].0 == index.id {
                proof {
                    let q = old(self).spec_pos(index.id);
                    assert(0 <= q < self.stored@.len() && self.stored@[q].0 == index.id);
                    if q < i {
                        assert(self.stored@[q].0 != self.stored@[i as int].0);
                    }
                    if q > i {
                        assert(self.stored@[i as int].0 != self.stored@[q].0);
                    }
                    assert(q == i);
                }
                let entry = &mut self.stored[i];
                return &mut entry.1;
            }
            i = i + 1;
        }
        proof {
            let w = choose|w: int|
                0 <= w < self.stored@.len() && (#[trigger] self.stored@[w]).0 == index.id;
            assert(self.stored@[w].0 != index.id);
        }
        vstd::pervasive::unreached()
    }

    /// Remove and return the value stored under the index, for the sweep of
    /// resources whose external handles are gone. The liveness verdict comes
    /// from the platform layer; the store removes exactly the one entry.
    pub fn remove(&mut self, index: &Index) -> (r: T)
        requires
            old(self).wf(),
            old(self).spec_has(index.id),
        ensures
            r == old(self).spec_get(index.id),
            final(self).stored@ == old(self).stored@.remove(old(self).spec_pos(index.id)),
            final(self).next_index == old(self).next_index,
            final(self).wf(),
            !final(self).spec_has(index.id),
    {
        let mut i: usize = 0;
        while i < self.stored.len()
            invariant
                *self == *old(self),
                self.wf(),
                self.spec_has(index.id),
                forall|j: int| 0 <= j < i ==> (#[trigger] self.stored@[j]).0 != index.id,
            decreases self.stored@.len() - i,
        {
            if self.stored[i].0 == index.id {
                proof {
                    let q = self.spec_pos(index.id);
                    assert(0 <= q < self.stored@.len() && self.stored@[q].0 == index.id);
                    if q < i {
                        assert(self.stored@[q].0 != self.stored@[i as int].0);
                    }
                    if q > i {
                        assert(self.stored@[i as int].0 != self.stored@[q].0);
                    }
                    assert(q == i);
                }
                let entry = self.stored.remove(i);
                proof {
                    lemma_removal_keeps_keys(*old(self), *self, i as int, index.id);
                }
                return entry.1;
            }
            i = i + 1;
        }
        proof {
            let w = choose|w: int|
                0 <= w < self.stored@.len() && (#[trigger] self.stored@[w]).0 == index.id;
            assert(self.stored@[w].0 != index.id);
        }
        vstd::pervasive::unreached()
    }
}

/// Removing one entry keeps the keys unique, below the counter, and rids the
/// store of the removed key.
proof fn lemma_removal_keeps_keys<T>(pre: Store<T>, post: Store<T>, q: int, id: u32)
    requires
        pre.wf(),
        0 <= q < pre.stored@.len(),
        pre.stored@[q].0 == id,
        post.stored@ == pre.stored@.remove(q),
        post.next_index == pre.next_index,
    ensures
        post.wf(),
        !post.spec_has(id),
{
    assert(forall|k: int|
        0 <= k < post.stored@.len() ==> (#[trigger] post.stored@[k]) == if k < q {
            pre.stored@[k]
        } else {
            pre.stored@[k + 1]
        });
    assert forall|k: int| 0 <= k < post.stored@.len() implies (#[trigger] post.stored@[k]).0
        != id by {
        if k < q {
            assert(pre.stored@[k].0 != pre.stored@[q].0);
        } else {
            assert(pre.stored@[q].0 != pre.stored@[k + 1].0);
        }
    }
}

/// After writing through [`Store::get_mut`], the store is still well formed
/// and the index still present: the write replaces a value but never a key.
pub proof fn lemma_store_write_keeps_wf<T>(pre: Store<T>, post: Store<T>, id: u32, value: T)
    requires
        pre.wf(),
        pre.spec_has(id),
        post.next_index == pre.next_index,
        post.stored@ == pre.stored@.update(pre.spec_pos(id), (id, value)),
    ensures
        post.wf(),
        post.spec_has(id),
{
    let q = pre.spec_pos(id);
    assert(0 <= q < pre.stored@.len() && pre.stored@[q].0 == id);
    assert(forall|i: int|
        0 <= i < post.stored@.len() ==> (#[trigger] post.stored@[i]).0 == pre.stored@[i].0);
    assert(post.stored@[q].0 == id);
}

} // verus!
