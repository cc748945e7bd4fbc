use llhd::value::{InstRef, ValueId, ValueIdAlloc, ValueRef};
use std::collections::{BTreeSet, HashSet};

#[test]
fn allocator_starts_at_zero_and_counts_up() {
    let mut ids = ValueIdAlloc::new();
    let a = ids.allocate();
    let b = ids.allocate();
    let c = ids.allocate();
    assert_eq!(a.as_u64(), 0);
    assert_eq!(b.as_u64(), 1);
    assert_eq!(c.as_u64(), 2);
}

#[test]
fn allocated_ids_are_distinct_and_increasing() {
    let mut ids = ValueIdAlloc::new();
    let mut issued: Vec<ValueId> = Vec::new();
    for _ in 0..100 {
        issued.push(ids.allocate());
    }
    for i in 0..issued.len() {
        for j in (i + 1)..issued.len() {
            assert_ne!(issued[i], issued[j]);
            assert!(issued[i] < issued[j]);
            assert!(issued[j] > issued[i]);
            assert!(!(issued[j] < issued[i]));
        }
    }
    let distinct: HashSet<ValueId> = issued.iter().copied().collect();
    assert_eq!(distinct.len(), 100);
}

#[test]
fn fresh_allocator_is_not_exhausted() {
    let mut ids = ValueIdAlloc::new();
    assert!(!ids.is_exhausted());
    ids.allocate();
    assert!(!ids.is_exhausted());
}

#[test]
fn value_id_compares_with_itself_as_equal() {
    let mut ids = ValueIdAlloc::new();
    let a = ids.allocate();
    let copy = a;
    assert_eq!(a, copy);
    assert!(a <= copy);
    assert!(a >= copy);
    assert!(!(a < copy));
    assert_eq!(a.partial_cmp(&copy), Some(std::cmp::Ordering::Equal));
    assert_eq!(a.cmp(&copy), std::cmp::Ordering::Equal);
}

#[test]
fn value_id_total_order_agrees_with_partial_order() {
    let mut ids = ValueIdAlloc::new();
    let a = ids.allocate();
    let b = ids.allocate();
    assert_eq!(a.partial_cmp(&b), Some(std::cmp::Ordering::Less));
    assert_eq!(b.partial_cmp(&a), Some(std::cmp::Ordering::Greater));
    assert_eq!(a.cmp(&b), std::cmp::Ordering::Less);
    assert_eq!(b.cmp(&a), std::cmp::Ordering::Greater);
}

#[test]
fn inst_ref_gives_back_the_id_it_wraps() {
    let mut ids = ValueIdAlloc::new();
    ids.allocate();
    let id = ids.allocate();
    let r = InstRef::new(id);
    assert_eq!(ValueId::from(r), id);
    let back: ValueId = r.into();
    assert_eq!(back, id);
    assert_eq!(back.as_u64(), 1);
}

#[test]
fn inst_refs_are_equal_exactly_when_their_ids_are() {
    let mut ids = ValueIdAlloc::new();
    let a = ids.allocate();
    let b = ids.allocate();
    assert_eq!(InstRef::new(a), InstRef::new(a));
    assert_ne!(InstRef::new(a), InstRef::new(b));
}

#[test]
fn inst_refs_are_ordered_as_their_ids() {
    let mut ids = ValueIdAlloc::new();
    let a = ids.allocate();
    let b = ids.allocate();
    let ra = InstRef::new(a);
    let rb = InstRef::new(b);
    assert!(ra < rb);
    assert!(rb > ra);
    assert!(!(rb < ra));
    assert_eq!(ra.partial_cmp(&rb), Some(std::cmp::Ordering::Less));
    assert_eq!(rb.partial_cmp(&ra), Some(std::cmp::Ordering::Greater));
    assert_eq!(ra.partial_cmp(&ra), Some(std::cmp::Ordering::Equal));
    assert_eq!(ra.cmp(&rb), std::cmp::Ordering::Less);
}

#[test]
fn inst_refs_key_ordered_and_hashed_tables() {
    let mut ids = ValueIdAlloc::new();
    let a = InstRef::new(ids.allocate());
    let b = InstRef::new(ids.allocate());
    let c = InstRef::new(ids.allocate());
    let ordered: BTreeSet<InstRef> = vec![c, a, b, a].into_iter().collect();
    let in_order: Vec<InstRef> = ordered.into_iter().collect();
    assert_eq!(in_order, vec![a, b, c]);
    let hashed: HashSet<InstRef> = vec![c, a, b, a].into_iter().collect();
    assert_eq!(hashed.len(), 3);
    assert!(hashed.contains(&b));
}

#[test]
fn value_ref_reports_the_id_of_each_category() {
    let mut ids = ValueIdAlloc::new();
    let a = ids.allocate();
    let b = ids.allocate();
    let c = ids.allocate();
    let d = ids.allocate();
    assert_eq!(ValueRef::Inst(InstRef::new(a)).id(), a);
    assert_eq!(ValueRef::Global(b).id(), b);
    assert_eq!(ValueRef::Constant(c).id(), c);
    assert_eq!(ValueRef::Argument(d).id(), d);
}

#[test]
fn value_ref_from_inst_ref_refers_to_the_instruction() {
    let mut ids = ValueIdAlloc::new();
    let r = InstRef::new(ids.allocate());
    let v = ValueRef::from(r);
    assert_eq!(v, ValueRef::Inst(r));
    assert_eq!(v.id(), ValueId::from(r));
    let w: ValueRef = r.into();
    assert_eq!(w, v);
}

#[test]
fn value_refs_of_different_categories_differ() {
    let mut ids = ValueIdAlloc::new();
    let a = ids.allocate();
    assert_ne!(ValueRef::Global(a), ValueRef::Constant(a));
    assert_ne!(ValueRef::Argument(a), ValueRef::Inst(InstRef::new(a)));
    assert_eq!(ValueRef::Argument(a), ValueRef::Argument(a));
}
