//! The collector root table.
//!
//! The engine tracks, for each registered root, the address of a
//! pointer-sized storage slot it must treat as reachable.  Here a slot is
//! a `u64` identifier minted by the owning context; the table is the set
//! of slots currently registered.  Its invariant — no slot registered
//! twice — together with the add/remove contracts gives the rooted-handle
//! guarantee: a registration is present exactly once between the moments
//! it is added and removed, and removing one root never disturbs another.

use vstd::prelude::*;

verus! {

pub struct RootTable {
    pub slots: Vec<u64>,
}

impl RootTable {
    /// Each slot is registered at most once.
    pub open spec fn wf(self) -> bool {
        self.slots@.no_duplicates()
    }

    pub open spec fn is_rooted(self, s: u64) -> bool {
        self.slots@.contains(s)
    }

    pub fn new() -> (t: RootTable)
        ensures
            t.slots@.len() == 0,
            t.wf(),
    {
        RootTable { slots: Vec::new() }
    }

    /// Registers one root.  Every other registration is untouched.
    pub fn add_root(&mut self, s: u64)
        requires
            old(self).wf(),
            !old(self).is_rooted(s),
        ensures
            final(self).wf(),
            final(self).slots@ == old(self).slots@.push(s),
            final(self).is_rooted(s),
            forall|t: u64| t != s ==> (final(self).is_rooted(t) <==> old(self).is_rooted(t)),
    {
        self.slots.push(s);
        proof {
            let post = self.slots@;
            let pre = post.drop_last();
            assert(pre =~= old(self).slots@);
            assert(post[post.len() - 1] == s);
            assert(post.contains(s));
            assert forall|p: int, q: int| 0 <= p < q < post.len() implies post[p] != post[q] by {
                if q == post.len() - 1 {
                    assert(pre[p] == post[p]);
                    assert(pre.contains(pre[p]));
                }
            }
            assert forall|t: u64| t != s && post.contains(t) implies pre.contains(t) by {
                let i = choose|i: int| 0 <= i < post.len() && post[i] == t;
                assert(pre[i] == t);
            }
            assert forall|t: u64| pre.contains(t) implies post.contains(t) by {
                let i = choose|i: int| 0 <= i < pre.len() && pre[i] == t;
                assert(post[i] == t);
            }
        }
    }

    /// Whether a slot is currently registered.
    pub fn contains(&self, s: u64) -> (r: bool)
        ensures
            r == self.is_rooted(s),
    {
        let n = self.slots.len();
        let mut i: usize = 0;
        while i < n
            invariant
                i <= n,
                n == self.slots@.len(),
                forall|j: int| 0 <= j < i ==> self.slots@[j] != s,
            decreases n - i,
        {
            if self.slots[i] == s {
                return true;
            }
            i = i + 1;
        }
        false
    }

    /// The index of a registered slot.
    fn index_of(&self, s: u64) -> (r: usize)
        requires
            self.is_rooted(s),
        ensures
            r < self.slots@.len(),
            self.slots@[r as int] == s,
    {
        let n = self.slots.len();
        let mut i: usize = 0;
        while i < n
            invariant
                i <= n,
                n == self.slots@.len(),
                self.slots@.contains(s),
                forall|j: int| 0 <= j < i ==> self.slots@[j] != s,
            decreases n - i,
        {
            if self.slots[i] == s {
                return i;
            }
            i = i + 1;
        }
        proof {
            let k = choose|k: int| 0 <= k < self.slots@.len() && self.slots@[k] == s;
            assert(false);
        }
        0
    }

    /// Deregisters one root.  Every other registration is untouched.
    pub fn remove_root(&mut self, s: u64)
        requires
            old(self).wf(),
            old(self).is_rooted(s),
        ensures
            final(self).wf(),
            !final(self).is_rooted(s),
            final(self).slots@.len() == old(self).slots@.len() - 1,
            forall|t: u64| t != s ==> (final(self).is_rooted(t) <==> old(self).is_rooted(t)),
    {
        let i = self.index_of(s);
        self.slots.remove(i);
        proof {
            let pre = old(self).slots@;
            let post = self.slots@;
            let iv = i as int;
            // post holds pre's entries with index iv taken out
            assert forall|j: int| 0 <= j < post.len() implies post[j] == (if j < iv {
                pre[j]
            } else {
                pre[j + 1]
            }) by {
                if j < iv {
                    assert(post[j] == pre.subrange(0, iv)[j]);
                } else {
                    assert(post[j] == pre.subrange(iv + 1, pre.len() as int)[j - iv]);
                }
            }
            assert forall|p: int, q: int| 0 <= p < q < post.len() implies post[p] != post[q] by {
                let p0 = if p < iv { p } else { p + 1 };
                let q0 = if q < iv { q } else { q + 1 };
                assert(pre[p0] != pre[q0]);
            }
            assert forall|j: int| 0 <= j < post.len() implies post[j] != s by {
                let j0 = if j < iv { j } else { j + 1 };
                assert(post[j] == pre[j0]);
                assert(j0 != iv);
            }
            assert forall|t: u64| t != s && pre.contains(t) implies post.contains(t) by {
                let k = choose|k: int| 0 <= k < pre.len() && pre[k] == t;
                if k < iv {
                    assert(post[k] == pre[k]);
                } else {
                    assert(k > iv);
                    assert(post[k - 1] == pre[k]);
                }
            }
            assert forall|t: u64| t != s && post.contains(t) implies pre.contains(t) by {
                let k = choose|k: int| 0 <= k < post.len() && post[k] == t;
                let k0 = if k < iv { k } else { k + 1 };
                assert(pre[k0] == t);
            }
        }
    }

    pub fn len(&self) -> (n: usize)
        ensures
            n == self.slots@.len(),
    {
        self.slots.len()
    }
}

} // verus!
