//! Execution contexts.
//!
//! A context owns one engine execution context: its option flags and
//! language version, the installed error reporter, the class-name
//! registry (names unique per context), the opaque private-data slots the
//! engine round-trips unmodified, and the collector root table through
//! which every rooted handle of this context is registered.
//!
//! Engine entry points that can fail report their status through a plain
//! parameter of the deciding operation (`std_classes_ok`, `completed`):
//! the foreign-function layer performs the call and hands the outcome
//! back, and the contract here states what the host does with every
//! possible outcome.

use crate::bytes::bytes_eq;
use crate::bytes::copy_bytes;
use crate::bytes::no_nul;
use crate::compartment::Compartment;
use crate::name_pool::NamePool;
use crate::roots::RootTable;
use crate::JsError;
use vstd::prelude::*;

verus! {

/// One engine object pointer together with the root-table slot registered
/// for it.  A handle is usable exactly while its slot is present in the
/// owning context's root table; `Cx::unroot` ends that window.
#[derive(Clone, Copy, Debug, PartialEq, Eq, Structural)]
pub struct JsObj {
    pub ptr: u64,
    pub slot: u64,
}

/// Which error reporter is installed on a context.
#[derive(Clone, Copy, Debug, PartialEq, Eq, Structural)]
pub enum Reporter {
    /// No reporter installed: script-level errors go unobserved.
    Unset,
    /// The logging reporter: each report is recorded on the context.
    Logging,
    /// A caller-supplied reporter, stored as its function address.
    Custom(u64),
}

/// One observed invocation of the logging error reporter.
pub struct Report {
    /// The originating filename, or the bytes of "none" when the engine
    /// supplied no filename.
    pub filename: Vec<u8>,
    pub lineno: u32,
    pub message: Vec<u8>,
}

/// A native class descriptor: the class name handed to the engine plus
/// its behavior flags.
pub struct ClassSpec {
    pub name: Vec<u8>,
    pub flags: u32,
}

/// Engine option flag: make the global object the variables object.
pub const OPTION_VAROBJFIX: u32 = 4;

/// Engine option flag: enable the method JIT.
pub const OPTION_METHODJIT: u32 = 16384;

/// The engine's newest language version level.
pub const VERSION_LATEST: i32 = 185;

/// The language version a fresh context starts with.
pub const VERSION_DEFAULT: i32 = 0;

/// The filename recorded when the engine reports an error without one.
pub open spec fn none_name() -> Seq<u8> {
    seq![110u8, 111u8, 110u8, 101u8]
}

pub open spec fn has_class(cs: Seq<ClassSpec>, name: Seq<u8>) -> bool {
    exists|i: int| 0 <= i < cs.len() && (#[trigger] cs[i]).name@ == name
}

pub open spec fn classes_unique(cs: Seq<ClassSpec>) -> bool {
    forall|i: int, j: int|
        0 <= i < j < cs.len() ==> (#[trigger] cs[i]).name@ != (#[trigger] cs[j]).name@
}

/// Last-wins lookup in the per-object private-data association, with the
/// engine's null (0) for a slot never set.
pub open spec fn priv_get(m: Seq<(u64, u64)>, obj: u64) -> u64
    decreases m.len(),
{
    if m.len() == 0 {
        0u64
    } else if m.last().0 == obj {
        m.last().1
    } else {
        priv_get(m.drop_last(), obj)
    }
}

pub struct Cx {
    /// The native stack budget the context was created with.
    pub stacksize: usize,
    /// Interpreter behavior flags.
    pub options: u32,
    /// Language version level.
    pub version: i32,
    /// The installed error reporter.
    pub reporter: Reporter,
    /// The context's one opaque private-data value (0 = unset).
    pub private: u64,
    /// Registered native classes; names unique.
    pub classes: Vec<ClassSpec>,
    /// The collector root table for handles of this context.
    pub roots: RootTable,
    /// The next fresh root-table slot.
    pub next_slot: u64,
    /// The next fresh compartment identity.
    pub next_comp: u64,
    /// Per-object private-data values, last entry per object winning.
    pub obj_private: Vec<(u64, u64)>,
    /// Every invocation of the logging error reporter, oldest first.
    pub reports: Vec<Report>,
}

/// Effect of rooting one object pointer: a fresh slot is registered for
/// it and nothing else about the context changes.
pub open spec fn rooted_obj_post(pre: Cx, post: Cx, obj: u64, h: JsObj) -> bool {
    &&& h.ptr == obj
    &&& h.slot == pre.next_slot
    &&& post.next_slot == pre.next_slot + 1
    &&& post.roots.slots@ == pre.roots.slots@.push(h.slot)
    &&& post == (Cx { roots: post.roots, next_slot: post.next_slot, ..pre })
}

/// Effect of unrooting one handle: exactly its registration goes away and
/// nothing else about the context changes.
pub open spec fn unroot_post(pre: Cx, post: Cx, h: JsObj) -> bool {
    &&& !post.roots.is_rooted(h.slot)
    &&& post.roots.slots@.len() == pre.roots.slots@.len() - 1
    &&& forall|t: u64| t != h.slot ==> (post.roots.is_rooted(t) <==> pre.roots.is_rooted(t))
    &&& post == (Cx { roots: post.roots, ..pre })
}

/// Effect of registering a class descriptor on a context: a duplicate
/// name is refused and replaces nothing; a fresh name is appended.
pub open spec fn register_class_post(
    pre: Cx,
    post: Cx,
    class: ClassSpec,
    r: Result<(), JsError>,
) -> bool {
    if has_class(pre.classes@, class.name@) {
        &&& r == Err::<(), JsError>(JsError::DuplicateClass)
        &&& post == pre
    } else {
        &&& r == Ok::<(), JsError>(())
        &&& post.classes@ == pre.classes@.push(class)
        &&& post == (Cx { classes: post.classes, ..pre })
    }
}

/// Effect of a successful compartment creation: the global object is
/// rooted in a fresh slot, the compartment starts with empty registries
/// and a pool holding only the global class's name, and the context's
/// private slot now names the new compartment.
pub open spec fn new_compartment_post(
    pre: Cx,
    post: Cx,
    global_class: ClassSpec,
    global_ptr: u64,
    c: Compartment,
) -> bool {
    &&& c.id == pre.next_comp
    &&& post.next_comp == pre.next_comp + 1
    &&& c.global.ptr == global_ptr
    &&& c.global.slot == pre.next_slot
    &&& post.next_slot == pre.next_slot + 1
    &&& post.roots.slots@ == pre.roots.slots@.push(c.global.slot)
    &&& post.private == c.id
    &&& c.global_class == global_class
    &&& c.global_class_name == 0
    &&& c.pool.wf()
    &&& c.pool.entries@.len() == 1
    &&& c.pool.entries@[0]@ == global_class.name@.push(0u8)
    &&& c.funcs@.len() == 0
    &&& c.props@.len() == 0
    &&& c.protos@.len() == 0
    &&& post == (Cx {
        roots: post.roots,
        next_slot: post.next_slot,
        next_comp: post.next_comp,
        private: post.private,
        ..pre
    })
}

impl Cx {
    /// Root slots are unique and drawn from below the fresh-slot counter;
    /// class names are unique.
    pub open spec fn wf(self) -> bool {
        &&& self.roots.wf()
        &&& forall|i: int|
            0 <= i < self.roots.slots@.len() ==> #[trigger] self.roots.slots@[i] < self.next_slot
        &&& classes_unique(self.classes@)
    }

    /// Wraps a raw object pointer and registers it as a collector root.
    /// Registration and handle are created together: no window exists in
    /// which the pointer is held but unrooted.
    pub fn rooted_obj(&mut self, obj: u64) -> (h: JsObj)
        requires
            old(self).wf(),
            old(self).next_slot < u64::MAX,
        ensures
            final(self).wf(),
            rooted_obj_post(*old(self), *final(self), obj, h),
            final(self).roots.is_rooted(h.slot),
    {
        let slot = self.next_slot;
        self.next_slot = self.next_slot + 1;
        proof {
            if self.roots.is_rooted(slot) {
                let i = choose|i: int|
                    0 <= i < self.roots.slots@.len() && self.roots.slots@[i] == slot;
                assert(self.roots.slots@[i] < slot);
            }
        }
        self.roots.add_root(slot);
        JsObj { ptr: obj, slot }
    }

    /// Deregisters a handle's collector root.  The handle must not be
    /// used afterwards: its slot is no longer registered.
    pub fn unroot(&mut self, h: JsObj)
        requires
            old(self).wf(),
            old(self).roots.is_rooted(h.slot),
        ensures
            final(self).wf(),
            unroot_post(*old(self), *final(self), h),
    {
        self.roots.remove_root(h.slot);
        proof {
            assert forall|i: int|
                0 <= i < self.roots.slots@.len() implies #[trigger] self.roots.slots@[i]
                < self.next_slot by {
                let t = self.roots.slots@[i];
                assert(self.roots.is_rooted(t));
                assert(old(self).roots.is_rooted(t));
                let j = choose|j: int|
                    0 <= j < old(self).roots.slots@.len() && old(self).roots.slots@[j] == t;
                assert(old(self).roots.slots@[j] < old(self).next_slot);
            }
        }
    }

    /// Sets the interpreter behavior flags.
    pub fn set_options(&mut self, v: u32)
        ensures
            *final(self) == (Cx { options: v, ..*old(self) }),
    {
        self.options = v;
    }

    /// Sets the language version level.
    pub fn set_version(&mut self, v: i32)
        ensures
            *final(self) == (Cx { version: v, ..*old(self) }),
    {
        self.version = v;
    }

    /// Applies the layer's default configuration: the variables-object
    /// fix and the method JIT, at the newest language version.
    pub fn set_default_options_and_version(&mut self)
        ensures
            *final(self) == (Cx {
                options: OPTION_VAROBJFIX | OPTION_METHODJIT,
                version: VERSION_LATEST,
                ..*old(self)
            }),
    {
        self.set_options(OPTION_VAROBJFIX | OPTION_METHODJIT);
        self.set_version(VERSION_LATEST);
    }

    /// Installs a caller-supplied error reporter, given as the address of
    /// its callback.
    pub fn set_error_reporter(&mut self, reportfn: u64)
        ensures
            *final(self) == (Cx { reporter: Reporter::Custom(reportfn), ..*old(self) }),
    {
        self.reporter = Reporter::Custom(reportfn);
    }

    /// Installs the logging error reporter: from now on each script-level
    /// error is recorded on the context (and written to the diagnostic
    /// stream by the layer around the engine).
    pub fn set_logging_error_reporter(&mut self)
        ensures
            *final(self) == (Cx { reporter: Reporter::Logging, ..*old(self) }),
    {
        self.reporter = Reporter::Logging;
    }

    /// What the logging error reporter does when the engine delivers a
    /// script-level error: record filename (or "none" when the engine had
    /// none), line number and message.  Exactly one report is appended
    /// per invocation; earlier reports are untouched.
    pub fn report_error(&mut self, filename: Option<Vec<u8>>, lineno: u32, message: Vec<u8>)
        requires
            old(self).reporter == Reporter::Logging,
        ensures
            final(self).reports@.len() == old(self).reports@.len() + 1,
            final(self).reports@.last().filename@ == (match filename {
                Some(f) => f@,
                None => none_name(),
            }),
            final(self).reports@.last().lineno == lineno,
            final(self).reports@.last().message@ == message@,
            forall|i: int|
                0 <= i < old(self).reports@.len() ==> final(self).reports@[i] == old(
                    self,
                ).reports@[i],
            *final(self) == (Cx { reports: final(self).reports, ..*old(self) }),
    {
        let fname: Vec<u8> = match filename {
            Some(f) => f,
            None => {
                let mut v: Vec<u8> = Vec::new();
                v.push(110u8);
                v.push(111u8);
                v.push(110u8);
                v.push(101u8);
                proof {
                    assert(v@ =~= none_name());
                }
                v
            },
        };
        self.reports.push(Report { filename: fname, lineno, message });
    }

    /// Decides the result of one script evaluation.  The engine compiled
    /// and ran `bytes` — source text named `filename` for diagnostics,
    /// starting at `line_num` — against the global `glob`, and `completed`
    /// is the status it returned.  The script's value is discarded by
    /// design; failure carries no detail beyond the error, any detail
    /// having already reached the error reporter.
    #[allow(unused_variables)]
    pub fn evaluate_script(
        &self,
        glob: JsObj,
        bytes: &Vec<u8>,
        filename: &Vec<u8>,
        line_num: u32,
        completed: bool,
    ) -> (r: Result<(), JsError>)
        requires
            self.roots.is_rooted(glob.slot),
        ensures
            r == (if completed {
                Ok::<(), JsError>(())
            } else {
                Err::<(), JsError>(JsError::Engine)
            }),
    {
        if completed {
            Ok(())
        } else {
            Err(JsError::Engine)
        }
    }

    /// Registers a native class descriptor under its name.  Class names
    /// are unique per context: a duplicate is refused and the first
    /// registration stands.  No engine call is involved — the registry is
    /// consulted later, at object creation.
    pub fn register_class(&mut self, class: ClassSpec) -> (r: Result<(), JsError>)
        requires
            old(self).wf(),
        ensures
            final(self).wf(),
            register_class_post(*old(self), *final(self), class, r),
    {
        let n = self.classes.len();
        let mut i: usize = 0;
        while i < n
            invariant
                i <= n,
                n == self.classes@.len(),
                *self == *old(self),
                self.wf(),
                forall|j: int| 0 <= j < i ==> (#[trigger] self.classes@[j]).name@ != class.name@,
            decreases n - i,
        {
            if bytes_eq(&self.classes[i].name, &class.name) {
                return Err(JsError::DuplicateClass);
            }
            i = i + 1;
        }
        proof {
            assert forall|p: int, q: int|
                0 <= p < q < self.classes@.len() + 1 implies (#[trigger] self.classes@.push(
                class,
            )[p]).name@ != (#[trigger] self.classes@.push(class)[q]).name@ by {
                if q < self.classes@.len() {
                } else {
                    assert(self.classes@.push(class)[p] == self.classes@[p]);
                }
            }
        }
        self.classes.push(class);
        Ok(())
    }

    /// Looks up a previously registered class by name.  Registration is
    /// expected to be complete before lookup: a miss returns nothing and
    /// marks a configuration error in the binding.
    pub fn lookup_class_name(&self, name: &Vec<u8>) -> (r: Option<&ClassSpec>)
        ensures
            (match r {
                Some(c) => {
                    &&& has_class(self.classes@, name@)
                    &&& c.name@ == name@
                    &&& exists|i: int| 0 <= i < self.classes@.len() && self.classes@[i] == *c
                },
                None => !has_class(self.classes@, name@),
            }),
    {
        let n = self.classes.len();
        let mut i: usize = 0;
        while i < n
            invariant
                i <= n,
                n == self.classes@.len(),
                forall|j: int| 0 <= j < i ==> (#[trigger] self.classes@[j]).name@ != name@,
            decreases n - i,
        {
            if bytes_eq(&self.classes[i].name, name) {
                return Some(&self.classes[i]);
            }
            i = i + 1;
        }
        None
    }

    /// Creates one isolated global scope.  The engine allocated the new
    /// global object (`global_ptr`) of the given class and then
    /// initialized the standard built-in objects on it; `std_classes_ok`
    /// is that initialization's status.  On success the global is rooted
    /// and the context's private slot names the new compartment, so
    /// native callbacks that only receive the context can recover it.  On
    /// failure nothing is rooted: the abandoned global is left to the
    /// collector, and the context is unchanged.
    pub fn new_compartment(
        &mut self,
        global_class: ClassSpec,
        global_ptr: u64,
        std_classes_ok: bool,
    ) -> (r: Result<Compartment, JsError>)
        requires
            old(self).wf(),
            no_nul(global_class.name@),
            old(self).next_slot < u64::MAX,
            old(self).next_comp < u64::MAX,
        ensures
            final(self).wf(),
            (match r {
                Ok(c) => std_classes_ok && new_compartment_post(
                    *old(self),
                    *final(self),
                    global_class,
                    global_ptr,
                    c,
                ),
                Err(e) => {
                    &&& !std_classes_ok
                    &&& e == JsError::Engine
                    &&& *final(self) == *old(self)
                },
            }),
    {
        let mut pool = NamePool::new();
        let global_class_name = pool.add_name(copy_bytes(&global_class.name));
        if !std_classes_ok {
            return Err(JsError::Engine);
        }
        let global = self.rooted_obj(global_ptr);
        let id = self.next_comp;
        self.next_comp = self.next_comp + 1;
        self.private = id;
        Ok(
            Compartment {
                id,
                global,
                global_class,
                global_class_name,
                pool,
                funcs: Vec::new(),
                props: Vec::new(),
                protos: Vec::new(),
            },
        )
    }

    /// Attaches the context's one opaque private-data value.
    pub fn set_cx_private(&mut self, data: u64)
        ensures
            *final(self) == (Cx { private: data, ..*old(self) }),
    {
        self.private = data;
    }

    /// Retrieves the context's opaque private-data value (0 = unset).
    pub fn get_cx_private(&self) -> (r: u64)
        ensures
            r == self.private,
    {
        self.private
    }

    /// Attaches an opaque private-data value to one object.  Values for
    /// other objects are untouched.
    pub fn set_obj_private(&mut self, obj: u64, data: u64)
        ensures
            priv_get(final(self).obj_private@, obj) == data,
            forall|t: u64|
                t != obj ==> priv_get(final(self).obj_private@, t) == priv_get(
                    old(self).obj_private@,
                    t,
                ),
            *final(self) == (Cx { obj_private: final(self).obj_private, ..*old(self) }),
    {
        self.obj_private.push((obj, data));
        proof {
            assert(self.obj_private@.drop_last() =~= old(self).obj_private@);
        }
    }

    /// Retrieves an object's opaque private-data value (0 = never set).
    pub fn get_obj_private(&self, obj: u64) -> (r: u64)
        ensures
            r == priv_get(self.obj_private@, obj),
    {
        proof {
            assert(self.obj_private@.subrange(0, self.obj_private@.len() as int)
                =~= self.obj_private@);
        }
        let mut i: usize = self.obj_private.len();
        while i > 0
            invariant
                i <= self.obj_private@.len(),
                priv_get(self.obj_private@, obj) == priv_get(
                    self.obj_private@.subrange(0, i as int),
                    obj,
                ),
            decreases i,
        {
            let pair = self.obj_private[i - 1];
            proof {
                let pre = self.obj_private@.subrange(0, i as int);
                assert(pre.last() == self.obj_private@[i - 1]);
                assert(pre.drop_last() =~= self.obj_private@.subrange(0, i - 1));
            }
            if pair.0 == obj {
                return pair.1;
            }
            i = i - 1;
        }
        proof {
            assert(self.obj_private@.subrange(0, 0) =~= Seq::<(u64, u64)>::empty());
        }
        0
    }
}

} // verus!
