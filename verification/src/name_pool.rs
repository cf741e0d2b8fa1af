//! The name pool: a monotonically growing arena of NUL-terminated byte
//! buffers whose addresses are handed to the engine as C strings.
//!
//! The engine keeps the pointers it is given for its whole remaining
//! lifetime, so an entry, once added, never moves and never changes.  The
//! index `add_name` returns stands for the stable pointer the real pool
//! hands out: every operation's contract keeps the entries below the old
//! length untouched, which is the "buffer outlives every engine use"
//! guarantee in model form.

use crate::bytes::no_nul;
use vstd::prelude::*;

verus! {

pub struct NamePool {
    pub entries: Vec<Vec<u8>>,
}

impl NamePool {
    /// Every entry is a NUL-terminated C string with no interior NUL.
    pub open spec fn wf(self) -> bool {
        forall|i: int|
            0 <= i < self.entries@.len() ==> {
                let e = (#[trigger] self.entries@[i])@;
                &&& e.len() > 0
                &&& e.last() == 0u8
                &&& no_nul(e.drop_last())
            }
    }

    pub fn new() -> (p: NamePool)
        ensures
            p.entries@.len() == 0,
            p.wf(),
    {
        NamePool { entries: Vec::new() }
    }

    /// Interns one name: appends it, NUL-terminated, and returns its
    /// stable index.  Entries already present are left untouched.
    pub fn add_name(&mut self, name: Vec<u8>) -> (idx: usize)
        requires
            old(self).wf(),
            no_nul(name@),
        ensures
            final(self).wf(),
            idx == old(self).entries@.len(),
            final(self).entries@.len() == old(self).entries@.len() + 1,
            final(self).entries@[idx as int]@ == name@.push(0u8),
            forall|j: int|
                0 <= j < old(self).entries@.len() ==> final(self).entries@[j] == old(
                    self,
                ).entries@[j],
    {
        let idx = self.entries.len();
        let mut buf = name;
        buf.push(0u8);
        self.entries.push(buf);
        proof {
            let e = self.entries@[idx as int]@;
            assert(e.drop_last() =~= e.subrange(0, e.len() - 1));
            assert(e.drop_last() =~= name@);
        }
        idx
    }

    /// The interned bytes at a stable index, NUL terminator included.
    pub fn get(&self, idx: usize) -> (r: &Vec<u8>)
        requires
            idx < self.entries@.len(),
        ensures
            *r == self.entries@[idx as int],
    {
        &self.entries[idx]
    }

    pub fn len(&self) -> (n: usize)
        ensures
            n == self.entries@.len(),
    {
        self.entries.len()
    }
}

} // verus!
