//! Runtimes: the root of the ownership chain.
//!
//! A runtime owns the engine's memory and collector state.  It is created
//! with a fixed heap budget and with the garbage-collection notification
//! callback installed; it hands out contexts and may be torn down only
//! once every context created from it is gone.

use crate::cx::Cx;
use crate::cx::Reporter;
use crate::cx::VERSION_DEFAULT;
use crate::roots::RootTable;
use vstd::prelude::*;

verus! {

/// The engine heap budget a runtime is initialized with.
pub const DEFAULT_HEAPSIZE: u32 = 8 * 1024 * 1024;

/// The native stack budget a context is created with.
pub const DEFAULT_STACKSIZE: usize = 8192;

pub struct Rt {
    /// The heap budget the engine was initialized with.
    pub heapsize: u32,
    /// Whether the garbage-collection notification callback is installed.
    pub gc_callback_installed: bool,
    /// How many contexts created from this runtime are still alive.
    pub n_contexts: u64,
}

/// Initializes the engine with the fixed heap budget and installs the
/// garbage-collection notification callback.  Engine initialization has
/// no recovery path: the foreign-function layer aborts rather than hand
/// back an unusable runtime.
pub fn rt() -> (r: Rt)
    ensures
        r.heapsize == DEFAULT_HEAPSIZE,
        r.gc_callback_installed,
        r.n_contexts == 0,
{
    Rt { heapsize: DEFAULT_HEAPSIZE, gc_callback_installed: true, n_contexts: 0 }
}

impl Rt {
    /// Allocates an execution context with the fixed native stack budget,
    /// bound to this runtime.  The fresh context starts unconfigured:
    /// default version, no reporter, no classes, no roots, no reports.
    pub fn cx(&mut self) -> (c: Cx)
        requires
            old(self).n_contexts < u64::MAX,
        ensures
            *final(self) == (Rt { n_contexts: (old(self).n_contexts + 1) as u64, ..*old(self) }),
            c.wf(),
            c.stacksize == DEFAULT_STACKSIZE,
            c.options == 0,
            c.version == VERSION_DEFAULT,
            c.reporter == Reporter::Unset,
            c.private == 0,
            c.classes@.len() == 0,
            c.roots.slots@.len() == 0,
            c.next_slot == 0,
            c.next_comp == 0,
            c.obj_private@.len() == 0,
            c.reports@.len() == 0,
    {
        self.n_contexts = self.n_contexts + 1;
        Cx {
            stacksize: DEFAULT_STACKSIZE,
            options: 0,
            version: VERSION_DEFAULT,
            reporter: Reporter::Unset,
            private: 0,
            classes: Vec::new(),
            roots: RootTable::new(),
            next_slot: 0,
            next_comp: 0,
            obj_private: Vec::new(),
            reports: Vec::new(),
        }
    }

    /// Destroys one context of this runtime.  Consuming the context also
    /// ends every rooted handle and compartment created from it: none can
    /// be used afterwards.
    #[allow(unused_variables)]
    pub fn destroy_cx(&mut self, cx: Cx)
        requires
            old(self).n_contexts > 0,
        ensures
            *final(self) == (Rt { n_contexts: (old(self).n_contexts - 1) as u64, ..*old(self) }),
    {
        self.n_contexts = self.n_contexts - 1;
    }

    /// Tears the runtime down.  The engine runtime may be finished only
    /// after every dependent context is gone, which the precondition
    /// enforces.
    #[allow(unused_variables)]
    pub fn finish(self)
        requires
            self.n_contexts == 0,
    {
    }
}

/// What the garbage-collection notification callback reports: given the
/// two current native stack extents, in either order, the bounded range
/// the collector must conservatively scan.  The callback itself runs
/// synchronously on the engine's thread and does nothing else.
pub fn gc_scan_range(a: u64, b: u64) -> (r: (u64, u64))
    ensures
        r.0 <= r.1,
        r.0 <= a <= r.1,
        r.0 <= b <= r.1,
        r.0 == a || r.0 == b,
        r.1 == a || r.1 == b,
{
    if a <= b {
        (a, b)
    } else {
        (b, a)
    }
}

} // verus!
