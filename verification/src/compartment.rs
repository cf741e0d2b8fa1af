//! Compartments: one isolated global-object scope each.
//!
//! A compartment owns the rooted handle of its global object, the native
//! function/property descriptor tables registered on that global (kept
//! alive because the engine retains raw pointers into them), a name pool
//! for the C strings those tables reference, and the prototype registry
//! that lets native constructors find a prototype by name.  Prototype
//! names are unique: stashing a duplicate is refused and the first
//! handle stands.

use crate::bytes::bytes_eq;
use crate::bytes::no_nul;
use crate::cx::has_class;
use crate::cx::rooted_obj_post;
use crate::cx::ClassSpec;
use crate::cx::Cx;
use crate::cx::JsObj;
use crate::name_pool::NamePool;
use crate::JsError;
use vstd::prelude::*;

verus! {

/// One native function descriptor: the pool index of its NUL-terminated
/// name (standing for the stable name pointer), the native callback's
/// address, its arity and its flags.
#[derive(Clone, Copy, Debug, PartialEq, Eq, Structural)]
pub struct FunctionSpec {
    pub name: usize,
    pub call: u64,
    pub nargs: u16,
    pub flags: u16,
}

/// One native property descriptor: the pool index of its name, its
/// initial value, its accessor callbacks' addresses and its attribute
/// flags.
#[derive(Clone, Copy, Debug, PartialEq, Eq, Structural)]
pub struct PropertySpec {
    pub name: usize,
    pub value: u64,
    pub getter: u64,
    pub setter: u64,
    pub attrs: u32,
}

/// A stashed prototype: a name and the rooted handle it resolves to.
pub struct ProtoEntry {
    pub name: Vec<u8>,
    pub obj: JsObj,
}

pub open spec fn has_proto(ps: Seq<ProtoEntry>, name: Seq<u8>) -> bool {
    exists|i: int| 0 <= i < ps.len() && (#[trigger] ps[i]).name@ == name
}

pub open spec fn protos_unique(ps: Seq<ProtoEntry>) -> bool {
    forall|i: int, j: int|
        0 <= i < j < ps.len() ==> (#[trigger] ps[i]).name@ != (#[trigger] ps[j]).name@
}

/// Every descriptor in a table names an entry of the pool.
pub open spec fn table_names_in_pool(specs: Seq<FunctionSpec>, pool: NamePool) -> bool {
    forall|i: int| 0 <= i < specs.len() ==> (#[trigger] specs[i]).name < pool.entries@.len()
}

/// Every property descriptor in a table names an entry of the pool.
pub open spec fn prop_names_in_pool(specs: Seq<PropertySpec>, pool: NamePool) -> bool {
    forall|i: int| 0 <= i < specs.len() ==> (#[trigger] specs[i]).name < pool.entries@.len()
}

pub struct Compartment {
    /// The identity the owning context's private slot is set to.
    pub id: u64,
    /// The global object's rooted handle.
    pub global: JsObj,
    /// The class the global object was created with.
    pub global_class: ClassSpec,
    /// The pool index of the global class's interned name.
    pub global_class_name: usize,
    /// The compartment's name pool.
    pub pool: NamePool,
    /// Registered native-function descriptor tables, oldest first; kept
    /// for the engine's lifetime because the engine retains pointers
    /// into them.
    pub funcs: Vec<Vec<FunctionSpec>>,
    /// Registered native-property descriptor tables, kept alive alike.
    pub props: Vec<Vec<PropertySpec>>,
    /// The prototype registry; names unique.
    pub protos: Vec<ProtoEntry>,
}

impl Compartment {
    /// The pool is well formed, every registered descriptor's name index
    /// points into it, and prototype names are unique.
    pub open spec fn wf(self) -> bool {
        &&& self.pool.wf()
        &&& self.global_class_name < self.pool.entries@.len()
        &&& forall|t: int|
            0 <= t < self.funcs@.len() ==> table_names_in_pool(
                (#[trigger] self.funcs@[t])@,
                self.pool,
            )
        &&& forall|t: int|
            0 <= t < self.props@.len() ==> prop_names_in_pool(
                (#[trigger] self.props@[t])@,
                self.pool,
            )
        &&& protos_unique(self.protos@)
    }

    /// Interns a string in the compartment's name pool; the returned
    /// index is stable for the compartment's entire lifetime.
    pub fn add_name(&mut self, name: Vec<u8>) -> (idx: usize)
        requires
            old(self).wf(),
            no_nul(name@),
        ensures
            final(self).wf(),
            idx == old(self).pool.entries@.len(),
            final(self).pool.entries@.len() == old(self).pool.entries@.len() + 1,
            final(self).pool.entries@[idx as int]@ == name@.push(0u8),
            forall|j: int|
                0 <= j < old(self).pool.entries@.len() ==> final(self).pool.entries@[j] == old(
                    self,
                ).pool.entries@[j],
            *final(self) == (Compartment { pool: final(self).pool, ..*old(self) }),
    {
        self.pool.add_name(name)
    }

    /// Registers a table of native function descriptors on the global
    /// object and keeps it alive.  The engine's definition call reported
    /// `engine_ok`; the table is retained either way, since the engine
    /// saw its address.
    pub fn define_functions(&mut self, specs: Vec<FunctionSpec>, engine_ok: bool) -> (r: Result<
        (),
        JsError,
    >)
        requires
            old(self).wf(),
            table_names_in_pool(specs@, old(self).pool),
        ensures
            final(self).wf(),
            final(self).funcs@ == old(self).funcs@.push(specs),
            *final(self) == (Compartment { funcs: final(self).funcs, ..*old(self) }),
            r == (if engine_ok {
                Ok::<(), JsError>(())
            } else {
                Err::<(), JsError>(JsError::Engine)
            }),
    {
        self.funcs.push(specs);
        if engine_ok {
            Ok(())
        } else {
            Err(JsError::Engine)
        }
    }

    /// Registers a table of native property descriptors on the global
    /// object and keeps it alive, as `define_functions` does.
    pub fn define_properties(&mut self, specs: Vec<PropertySpec>, engine_ok: bool) -> (r: Result<
        (),
        JsError,
    >)
        requires
            old(self).wf(),
            prop_names_in_pool(specs@, old(self).pool),
        ensures
            final(self).wf(),
            final(self).props@ == old(self).props@.push(specs),
            *final(self) == (Compartment { props: final(self).props, ..*old(self) }),
            r == (if engine_ok {
                Ok::<(), JsError>(())
            } else {
                Err::<(), JsError>(JsError::Engine)
            }),
    {
        self.props.push(specs);
        if engine_ok {
            Ok(())
        } else {
            Err(JsError::Engine)
        }
    }

    /// Defines a single named property with explicit accessors and
    /// attribute flags on the global object.  The name is interned and
    /// the descriptor kept alive as a one-entry table.
    pub fn define_property(
        &mut self,
        name: Vec<u8>,
        value: u64,
        getter: u64,
        setter: u64,
        attrs: u32,
        engine_ok: bool,
    ) -> (r: Result<(), JsError>)
        requires
            old(self).wf(),
            no_nul(name@),
        ensures
            final(self).wf(),
            final(self).pool.entries@.len() == old(self).pool.entries@.len() + 1,
            final(self).pool.entries@.last()@ == name@.push(0u8),
            forall|j: int|
                0 <= j < old(self).pool.entries@.len() ==> final(self).pool.entries@[j] == old(
                    self,
                ).pool.entries@[j],
            final(self).props@.len() == old(self).props@.len() + 1,
            final(self).props@.drop_last() == old(self).props@,
            final(self).props@.last()@.len() == 1,
            final(self).props@.last()@[0].name == old(self).pool.entries@.len(),
            final(self).props@.last()@[0].value == value,
            final(self).props@.last()@[0].getter == getter,
            final(self).props@.last()@[0].setter == setter,
            final(self).props@.last()@[0].attrs == attrs,
            *final(self) == (Compartment {
                pool: final(self).pool,
                props: final(self).props,
                ..*old(self)
            }),
            r == (if engine_ok {
                Ok::<(), JsError>(())
            } else {
                Err::<(), JsError>(JsError::Engine)
            }),
    {
        let idx = self.pool.add_name(name);
        let mut table: Vec<PropertySpec> = Vec::new();
        table.push(PropertySpec { name: idx, value, getter, setter, attrs });
        self.props.push(table);
        proof {
            assert(self.props@.drop_last() =~= old(self).props@);
        }
        if engine_ok {
            Ok(())
        } else {
            Err(JsError::Engine)
        }
    }

    /// Inserts a class descriptor into the owning context's class
    /// registry.  A duplicate name is refused before anything is touched
    /// and no engine call is ever made for it.
    pub fn register_class(&self, cx: &mut Cx, class: ClassSpec) -> (r: Result<(), JsError>)
        requires
            old(cx).wf(),
        ensures
            final(cx).wf(),
            crate::cx::register_class_post(*old(cx), *final(cx), class, r),
    {
        cx.register_class(class)
    }

    /// Registers a named prototype handle.  Prototype names are unique
    /// per compartment: a duplicate is refused and the first stashed
    /// handle stands.
    pub fn stash_global_proto(&mut self, name: Vec<u8>, obj: JsObj) -> (r: Result<(), JsError>)
        requires
            old(self).wf(),
        ensures
            final(self).wf(),
            (if has_proto(old(self).protos@, name@) {
                &&& r == Err::<(), JsError>(JsError::DuplicateProto)
                &&& *final(self) == *old(self)
            } else {
                &&& r == Ok::<(), JsError>(())
                &&& final(self).protos@.len() == old(self).protos@.len() + 1
                &&& final(self).protos@.drop_last() == old(self).protos@
                &&& final(self).protos@.last().name@ == name@
                &&& final(self).protos@.last().obj == obj
                &&& *final(self) == (Compartment { protos: final(self).protos, ..*old(self) })
            }),
    {
        let n = self.protos.len();
        let mut i: usize = 0;
        while i < n
            invariant
                i <= n,
                n == self.protos@.len(),
                *self == *old(self),
                self.wf(),
                forall|j: int| 0 <= j < i ==> (#[trigger] self.protos@[j]).name@ != name@,
            decreases n - i,
        {
            if bytes_eq(&self.protos[i].name, &name) {
                return Err(JsError::DuplicateProto);
            }
            i = i + 1;
        }
        proof {
            let pre = self.protos@;
            let post = pre.push(ProtoEntry { name, obj });
            assert forall|p: int, q: int|
                0 <= p < q < post.len() implies (#[trigger] post[p]).name@ != (
            #[trigger] post[q]).name@ by {
                if q < pre.len() {
                    assert(post[p] == pre[p]);
                    assert(post[q] == pre[q]);
                } else {
                    assert(post[p] == pre[p]);
                    assert(post[q].name@ == name@);
                }
            }
        }
        self.protos.push(ProtoEntry { name, obj });
        proof {
            assert(self.protos@.drop_last() =~= old(self).protos@);
        }
        Ok(())
    }

    /// Retrieves a stashed prototype handle by name; a miss marks a
    /// configuration error in the binding.
    pub fn get_global_proto(&self, name: &Vec<u8>) -> (r: Option<JsObj>)
        requires
            self.wf(),
        ensures
            (match r {
                Some(h) => exists|i: int|
                    0 <= i < self.protos@.len() && (#[trigger] self.protos@[i]).name@ == name@
                        && self.protos@[i].obj == h,
                None => !has_proto(self.protos@, name@),
            }),
    {
        let n = self.protos.len();
        let mut i: usize = 0;
        while i < n
            invariant
                i <= n,
                n == self.protos@.len(),
                forall|j: int| 0 <= j < i ==> (#[trigger] self.protos@[j]).name@ != name@,
            decreases n - i,
        {
            if bytes_eq(&self.protos[i].name, name) {
                return Some(self.protos[i].obj);
            }
            i = i + 1;
        }
        None
    }

    /// Creates a native object of a registered class with an explicit
    /// prototype and parent, and roots it.  `alloc` is what the engine's
    /// allocation returned — the new object pointer, or nothing when
    /// allocation failed; with an unregistered class the engine is never
    /// consulted and the context is untouched.
    #[allow(unused_variables)]
    pub fn new_object(
        &self,
        cx: &mut Cx,
        class_name: &Vec<u8>,
        proto: u64,
        parent: u64,
        alloc: Option<u64>,
    ) -> (r: Result<JsObj, JsError>)
        requires
            old(cx).wf(),
            old(cx).next_slot < u64::MAX,
        ensures
            final(cx).wf(),
            (match r {
                Ok(h) => {
                    &&& has_class(old(cx).classes@, class_name@)
                    &&& alloc == Some(h.ptr)
                    &&& rooted_obj_post(*old(cx), *final(cx), h.ptr, h)
                },
                Err(e) => {
                    &&& *final(cx) == *old(cx)
                    &&& (if !has_class(old(cx).classes@, class_name@) {
                        e == JsError::UnknownClass
                    } else {
                        alloc is None && e == JsError::Engine
                    })
                },
            }),
    {
        if cx.lookup_class_name(class_name).is_none() {
            return Err(JsError::UnknownClass);
        }
        match alloc {
            None => Err(JsError::Engine),
            Some(p) => Ok(cx.rooted_obj(p)),
        }
    }

    /// As `new_object`, but resolves the prototype through the
    /// compartment's prototype registry.  An unregistered prototype name
    /// is refused the same way every time, before any engine call: no
    /// partial object is created or rooted.
    #[allow(unused_variables)]
    pub fn new_object_with_proto(
        &self,
        cx: &mut Cx,
        class_name: &Vec<u8>,
        proto_name: &Vec<u8>,
        parent: u64,
        alloc: Option<u64>,
    ) -> (r: Result<JsObj, JsError>)
        requires
            self.wf(),
            old(cx).wf(),
            old(cx).next_slot < u64::MAX,
        ensures
            final(cx).wf(),
            (match r {
                Ok(h) => {
                    &&& has_class(old(cx).classes@, class_name@)
                    &&& has_proto(self.protos@, proto_name@)
                    &&& alloc == Some(h.ptr)
                    &&& rooted_obj_post(*old(cx), *final(cx), h.ptr, h)
                },
                Err(e) => {
                    &&& *final(cx) == *old(cx)
                    &&& (if !has_class(old(cx).classes@, class_name@) {
                        e == JsError::UnknownClass
                    } else if !has_proto(self.protos@, proto_name@) {
                        e == JsError::UnknownProto
                    } else {
                        alloc is None && e == JsError::Engine
                    })
                },
            }),
    {
        if cx.lookup_class_name(class_name).is_none() {
            return Err(JsError::UnknownClass);
        }
        if self.get_global_proto(proto_name).is_none() {
            return Err(JsError::UnknownProto);
        }
        match alloc {
            None => Err(JsError::Engine),
            Some(p) => Ok(cx.rooted_obj(p)),
        }
    }
}

} // verus!
