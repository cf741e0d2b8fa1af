use js::cx::ClassSpec;
use js::rt::rt;
use js::JsError;

fn global_class() -> ClassSpec {
    ClassSpec { name: b"global".to_vec(), flags: 0 }
}

#[test]
fn register_class_twice_fails_and_keeps_first() {
    let mut r = rt();
    let mut cx = r.cx();
    let mut comp = cx.new_compartment(global_class(), 1, true).unwrap();

    let first = ClassSpec { name: b"Foo".to_vec(), flags: 3 };
    assert_eq!(comp.register_class(&mut cx, first), Ok(()));

    // the duplicate is refused before any engine call is made for it,
    // and the first registration is not replaced
    let second = ClassSpec { name: b"Foo".to_vec(), flags: 9 };
    assert_eq!(comp.register_class(&mut cx, second), Err(JsError::DuplicateClass));
    assert_eq!(cx.classes.len(), 1);
    assert_eq!(cx.classes[0].flags, 3);
}

#[test]
fn lookup_class_name_finds_registered_only() {
    let mut r = rt();
    let mut cx = r.cx();
    cx.register_class(ClassSpec { name: b"Foo".to_vec(), flags: 5 }).unwrap();
    let found = cx.lookup_class_name(&b"Foo".to_vec()).unwrap();
    assert_eq!(found.flags, 5);
    assert!(cx.lookup_class_name(&b"Bar".to_vec()).is_none());
}

#[test]
fn stash_proto_twice_fails_and_keeps_first() {
    let mut r = rt();
    let mut cx = r.cx();
    let mut comp = cx.new_compartment(global_class(), 1, true).unwrap();
    let p1 = cx.rooted_obj(0xA1);
    let p2 = cx.rooted_obj(0xA2);

    assert_eq!(comp.stash_global_proto(b"Foo".to_vec(), p1), Ok(()));
    assert_eq!(
        comp.stash_global_proto(b"Foo".to_vec(), p2),
        Err(JsError::DuplicateProto)
    );
    assert_eq!(comp.protos.len(), 1);
    let got = comp.get_global_proto(&b"Foo".to_vec()).unwrap();
    assert_eq!(got, p1);
}

#[test]
fn new_object_with_unregistered_proto_fails_every_time() {
    let mut r = rt();
    let mut cx = r.cx();
    let mut comp = cx.new_compartment(global_class(), 1, true).unwrap();
    comp.register_class(&mut cx, ClassSpec { name: b"Foo".to_vec(), flags: 0 }).unwrap();
    let roots_before = cx.roots.slots.clone();

    // deterministic failure, whatever the engine might have returned,
    // and no partially created object is left rooted
    for alloc in [Some(0xC0), Some(0xC1), None] {
        let r = comp.new_object_with_proto(&mut cx, &b"Foo".to_vec(), &b"Bar".to_vec(), 0, alloc);
        assert_eq!(r, Err(JsError::UnknownProto));
        assert_eq!(cx.roots.slots, roots_before);
    }
}

#[test]
fn new_object_paths() {
    let mut r = rt();
    let mut cx = r.cx();
    let mut comp = cx.new_compartment(global_class(), 1, true).unwrap();

    // unregistered class: refused before the engine is consulted
    let r1 = comp.new_object(&mut cx, &b"Foo".to_vec(), 0, 0, Some(0xC0));
    assert_eq!(r1, Err(JsError::UnknownClass));

    comp.register_class(&mut cx, ClassSpec { name: b"Foo".to_vec(), flags: 0 }).unwrap();

    // engine allocation failure
    let r2 = comp.new_object(&mut cx, &b"Foo".to_vec(), 0, 0, None);
    assert_eq!(r2, Err(JsError::Engine));

    // success: the new object comes back rooted
    let h = comp.new_object(&mut cx, &b"Foo".to_vec(), 0, 0, Some(0xC0)).unwrap();
    assert_eq!(h.ptr, 0xC0);
    assert!(cx.roots.slots.contains(&h.slot));
}

#[test]
fn new_object_with_proto_resolves_stashed_proto() {
    let mut r = rt();
    let mut cx = r.cx();
    let mut comp = cx.new_compartment(global_class(), 1, true).unwrap();
    comp.register_class(&mut cx, ClassSpec { name: b"Foo".to_vec(), flags: 0 }).unwrap();
    let proto = cx.rooted_obj(0xA1);
    comp.stash_global_proto(b"FooProto".to_vec(), proto).unwrap();

    let h = comp
        .new_object_with_proto(&mut cx, &b"Foo".to_vec(), &b"FooProto".to_vec(), 0, Some(0xC2))
        .unwrap();
    assert_eq!(h.ptr, 0xC2);
    assert!(cx.roots.slots.contains(&h.slot));
}

#[test]
fn compartments_from_one_context_are_isolated() {
    let mut r = rt();
    let mut cx = r.cx();
    let mut c1 = cx.new_compartment(global_class(), 1, true).unwrap();
    let mut c2 = cx.new_compartment(global_class(), 2, true).unwrap();
    assert_ne!(c1.id, c2.id);
    assert_ne!(c1.global.slot, c2.global.slot);

    let p = cx.rooted_obj(0xA7);
    c1.stash_global_proto(b"Foo".to_vec(), p).unwrap();
    let idx = c2.add_name(b"debug".to_vec());
    c2.define_functions(
        vec![js::compartment::FunctionSpec { name: idx, call: 7, nargs: 1, flags: 0 }],
        true,
    )
    .unwrap();

    // registrations in one compartment are invisible to the other
    assert_eq!(c1.funcs.len(), 0);
    assert_eq!(c2.protos.len(), 0);
    assert!(c2.get_global_proto(&b"Foo".to_vec()).is_none());
    assert_eq!(c1.protos.len(), 1);
    assert_eq!(c2.funcs.len(), 1);
}

#[test]
fn name_pool_entries_are_stable() {
    let mut r = rt();
    let mut cx = r.cx();
    let mut comp = cx.new_compartment(global_class(), 1, true).unwrap();
    // index 0 holds the global class's interned name
    assert_eq!(comp.pool.get(comp.global_class_name).as_slice(), b"global\0");

    let a = comp.add_name(b"alpha".to_vec());
    let b = comp.add_name(b"beta".to_vec());
    assert_ne!(a, b);
    assert_eq!(comp.pool.get(a).as_slice(), b"alpha\0");
    assert_eq!(comp.pool.get(b).as_slice(), b"beta\0");

    // later additions leave earlier entries untouched
    comp.add_name(b"gamma".to_vec());
    assert_eq!(comp.pool.get(a).as_slice(), b"alpha\0");
    assert_eq!(comp.pool.get(b).as_slice(), b"beta\0");
    assert_eq!(comp.pool.len(), 4);
}

#[test]
fn define_property_interns_and_records() {
    let mut r = rt();
    let mut cx = r.cx();
    let mut comp = cx.new_compartment(global_class(), 1, true).unwrap();
    let before = comp.pool.len();
    comp.define_property(b"answer".to_vec(), 42, 0x61, 0x62, 7, true).unwrap();
    assert_eq!(comp.pool.len(), before + 1);
    assert_eq!(comp.props.len(), 1);
    let entry = comp.props[0][0];
    assert_eq!(comp.pool.get(entry.name).as_slice(), b"answer\0");
    assert_eq!(entry.value, 42);
    assert_eq!(entry.getter, 0x61);
    assert_eq!(entry.setter, 0x62);
    assert_eq!(entry.attrs, 7);
}

#[test]
fn define_tables_reports_engine_failure_but_keeps_table_alive() {
    let mut r = rt();
    let mut cx = r.cx();
    let mut comp = cx.new_compartment(global_class(), 1, true).unwrap();
    let idx = comp.add_name(b"debug".to_vec());
    let specs = vec![js::compartment::FunctionSpec { name: idx, call: 7, nargs: 1, flags: 0 }];
    let r1 = comp.define_functions(specs, false);
    assert_eq!(r1, Err(JsError::Engine));
    // the engine saw the table's address, so it stays alive regardless
    assert_eq!(comp.funcs.len(), 1);

    let pidx = comp.add_name(b"prop".to_vec());
    let props = vec![js::compartment::PropertySpec {
        name: pidx,
        value: 0,
        getter: 1,
        setter: 2,
        attrs: 0,
    }];
    let r2 = comp.define_properties(props, true);
    assert_eq!(r2, Ok(()));
    assert_eq!(comp.props.len(), 1);
}

#[test]
fn private_data_round_trips() {
    let mut r = rt();
    let mut cx = r.cx();
    assert_eq!(cx.get_cx_private(), 0);
    cx.set_cx_private(0x1234);
    assert_eq!(cx.get_cx_private(), 0x1234);

    assert_eq!(cx.get_obj_private(0xC0), 0);
    cx.set_obj_private(0xC0, 11);
    cx.set_obj_private(0xC1, 22);
    assert_eq!(cx.get_obj_private(0xC0), 11);
    assert_eq!(cx.get_obj_private(0xC1), 22);
    cx.set_obj_private(0xC0, 33);
    assert_eq!(cx.get_obj_private(0xC0), 33);
    assert_eq!(cx.get_obj_private(0xC1), 22);
}

#[test]
fn compartment_creation_sets_private_slot() {
    let mut r = rt();
    let mut cx = r.cx();
    let comp = cx.new_compartment(global_class(), 1, true).unwrap();
    // native callbacks that only receive the context recover the
    // compartment through the private slot
    assert_eq!(cx.get_cx_private(), comp.id);
    assert_eq!(comp.global.ptr, 1);
    assert!(cx.roots.slots.contains(&comp.global.slot));
}
