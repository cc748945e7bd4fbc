use llhd::inst::{BinaryInst, BinaryOp, Inst};
use llhd::ty::Type;
use llhd::unit::{InstStore, UnitContext};
use llhd::value::{InstRef, Value, ValueIdAlloc, ValueRef};

fn add_inst(ids: &mut ValueIdAlloc, name: &str, width: u32) -> Inst {
    let a = ValueRef::Argument(ids.allocate());
    let b = ValueRef::Argument(ids.allocate());
    Inst::new(ids, Some(name.to_string()), BinaryInst(BinaryOp::Add, Type::Int(width), a, b))
}

#[test]
fn empty_store_holds_nothing() {
    let mut ids = ValueIdAlloc::new();
    let store = InstStore::new();
    let r = InstRef::new(ids.allocate());
    assert!(store.get(r).is_none());
}

#[test]
fn insert_returns_the_handle_of_the_inst() {
    let mut ids = ValueIdAlloc::new();
    let mut store = InstStore::new();
    let inst = add_inst(&mut ids, "a", 8);
    let handle = inst.as_ref();
    assert_eq!(store.insert(inst), handle);
}

#[test]
fn store_resolves_each_handle_to_its_own_inst() {
    let mut ids = ValueIdAlloc::new();
    let mut store = InstStore::new();
    let ra = store.insert(add_inst(&mut ids, "a", 8));
    let rb = store.insert(add_inst(&mut ids, "b", 16));
    let a = store.get(ra).unwrap();
    assert_eq!(a.as_ref(), ra);
    assert_eq!(a.name(), Some("a"));
    assert_eq!(a.ty(), Type::Int(8));
    let b = store.inst(rb);
    assert_eq!(b.as_ref(), rb);
    assert_eq!(b.name(), Some("b"));
    assert_eq!(b.ty(), Type::Int(16));
    assert_eq!(store.inst(ra).name(), Some("a"));
}

#[test]
fn store_does_not_resolve_a_handle_it_was_not_given() {
    let mut ids = ValueIdAlloc::new();
    let mut store = InstStore::new();
    store.insert(add_inst(&mut ids, "a", 8));
    let stranger = InstRef::new(ids.allocate());
    assert!(store.get(stranger).is_none());
    let operand = InstRef::new(ValueIdAlloc::new().allocate());
    assert!(store.get(operand).is_none());
}

#[test]
fn insert_under_a_held_handle_replaces_the_inst() {
    let mut store = InstStore::new();
    let mut ids = ValueIdAlloc::new();
    let mut other_ids = ValueIdAlloc::new();
    let old = add_inst(&mut ids, "old", 8);
    let new = add_inst(&mut other_ids, "new", 16);
    assert_eq!(old.as_ref(), new.as_ref());
    let r = store.insert(old);
    assert_eq!(store.inst(r).name(), Some("old"));
    assert_eq!(store.insert(new), r);
    assert_eq!(store.inst(r).name(), Some("new"));
    assert_eq!(store.inst(r).ty(), Type::Int(16));
}

#[test]
fn insert_leaves_other_insts_in_place() {
    let mut ids = ValueIdAlloc::new();
    let mut store = InstStore::new();
    let ra = store.insert(add_inst(&mut ids, "a", 8));
    let rb = store.insert(add_inst(&mut ids, "b", 16));
    let rc = store.insert(add_inst(&mut ids, "c", 32));
    assert_eq!(store.inst(ra).name(), Some("a"));
    assert_eq!(store.inst(rb).name(), Some("b"));
    assert_eq!(store.inst(rc).name(), Some("c"));
}
