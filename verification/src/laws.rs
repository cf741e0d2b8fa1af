//! Laws of the rooting and compartment protocol, proved from the
//! operations' contracts.

use crate::compartment::Compartment;
use crate::cx::new_compartment_post;
use crate::cx::rooted_obj_post;
use crate::cx::unroot_post;
use crate::cx::ClassSpec;
use crate::cx::Cx;
use crate::cx::JsObj;
use vstd::prelude::*;

verus! {

/// Law: a rooted handle's collector registration is present exactly once
/// between construction and destruction.  Construction (`rooted_obj`)
/// registers a slot that was not registered before and keeps the table
/// free of duplicates — no double root; destruction (`unroot`) removes
/// exactly that registration — no root survives the handle; and neither
/// step disturbs any other root.
pub proof fn lemma_root_registration_balanced(pre: Cx, mid: Cx, post: Cx, obj: u64, h: JsObj)
    requires
        pre.wf(),
        rooted_obj_post(pre, mid, obj, h),
        unroot_post(mid, post, h),
    ensures
        !pre.roots.is_rooted(h.slot),
        mid.roots.is_rooted(h.slot),
        mid.roots.slots@.no_duplicates(),
        !post.roots.is_rooted(h.slot),
        pre.roots.slots@.to_multiset().count(h.slot) == 0,
        mid.roots.slots@.to_multiset().count(h.slot) == 1,
        post.roots.slots@.to_multiset().count(h.slot) == 0,
        forall|t: u64| t != h.slot ==> (mid.roots.is_rooted(t) <==> pre.roots.is_rooted(t)),
        forall|t: u64| t != h.slot ==> (post.roots.is_rooted(t) <==> pre.roots.is_rooted(t)),
{
    let s = pre.roots.slots@;
    let m = mid.roots.slots@;
    if pre.roots.is_rooted(h.slot) {
        let i = choose|i: int| 0 <= i < s.len() && s[i] == h.slot;
        assert(s[i] < pre.next_slot);
    }
    assert(m[m.len() - 1] == h.slot);
    assert(m.contains(h.slot));
    assert forall|p: int, q: int| 0 <= p < q < m.len() implies m[p] != m[q] by {
        if q == m.len() - 1 {
            assert(m[p] == s[p]);
            assert(s.contains(s[p]));
        } else {
            assert(m[p] == s[p]);
            assert(m[q] == s[q]);
        }
    }
    assert forall|t: u64| t != h.slot implies (m.contains(t) <==> s.contains(t)) by {
        if m.contains(t) {
            let i = choose|i: int| 0 <= i < m.len() && m[i] == t;
            assert(s[i] == t);
        }
        if s.contains(t) {
            let i = choose|i: int| 0 <= i < s.len() && s[i] == t;
            assert(m[i] == t);
        }
    }
    s.to_multiset_ensures();
    m.to_multiset_ensures();
    post.roots.slots@.to_multiset_ensures();
    m.lemma_multiset_has_no_duplicates();
    assert(m.to_multiset().contains(h.slot));
}

/// Law: two compartments created in sequence from the same context are
/// isolated from each other.  They carry distinct identities and their
/// globals sit in distinct root slots — so unrooting one global cannot
/// touch the other's — both roots are present after the second creation,
/// and each compartment starts with empty function, property and
/// prototype registries of its own: a registration in one is invisible to
/// the other.
pub proof fn lemma_compartments_isolated(
    pre: Cx,
    mid: Cx,
    post: Cx,
    cls1: ClassSpec,
    cls2: ClassSpec,
    g1: u64,
    g2: u64,
    c1: Compartment,
    c2: Compartment,
)
    requires
        new_compartment_post(pre, mid, cls1, g1, c1),
        new_compartment_post(mid, post, cls2, g2, c2),
    ensures
        c1.id != c2.id,
        c1.global.slot != c2.global.slot,
        post.roots.is_rooted(c1.global.slot),
        post.roots.is_rooted(c2.global.slot),
        c1.funcs@.len() == 0 && c1.props@.len() == 0 && c1.protos@.len() == 0,
        c2.funcs@.len() == 0 && c2.props@.len() == 0 && c2.protos@.len() == 0,
{
    let m = mid.roots.slots@;
    let p = post.roots.slots@;
    assert(m[m.len() - 1] == c1.global.slot);
    assert(p[p.len() - 1] == c2.global.slot);
    assert(p[m.len() - 1] == c1.global.slot);
    assert(p.contains(c1.global.slot));
    assert(p.contains(c2.global.slot));
}

} // verus!
