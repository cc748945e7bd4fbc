//! Value identities and the handles built on them.

use crate::ty::Type;
use std::cmp::Ordering;
use vstd::prelude::*;
use vstd::std_specs::cmp::PartialOrdSpec;
use vstd::std_specs::convert::FromSpecImpl;

verus! {

/// The unique identity of a value. Two values are the same value exactly when
/// their identities are equal.
#[derive(Clone, Copy, Debug, PartialEq, Eq, Structural, Ord, Hash)]
pub struct ValueId(u64);

impl View for ValueId {
    type V = nat;

    /// The position of this identity in the order of allocation.
    open spec fn view(&self) -> nat {
        self.as_u64() as nat
    }
}

impl ValueId {
    /// The identity as a number.
    pub closed spec fn spec_as_u64(self) -> u64 {
        self.0
    }

    /// The identity as a number, for keying tables.
    #[verifier::when_used_as_spec(spec_as_u64)]
    pub fn as_u64(self) -> (n: u64)
        ensures
            n == self.spec_as_u64(),
    {
        self.0
    }

    /// An identity is determined by its position in the order of allocation.
    pub proof fn lemma_view_injective(a: ValueId, b: ValueId)
        ensures
            a@ == b@ <==> a == b,
    {
    }

    /// Identities are totally ordered: any two are comparable, they compare
    /// equal exactly when they are the same identity, one is less exactly when
    /// the other is greater, and less-than is transitive.
    pub proof fn lemma_total_order(a: ValueId, b: ValueId, c: ValueId)
        ensures
            a.partial_cmp_spec(&b) is Some,
            a.partial_cmp_spec(&b) == Some(Ordering::Equal) <==> a == b,
            a.partial_cmp_spec(&b) == Some(Ordering::Less) <==> b.partial_cmp_spec(&a) == Some(
                Ordering::Greater,
            ),
            a.partial_cmp_spec(&b) == Some(Ordering::Less) && b.partial_cmp_spec(&c) == Some(
                Ordering::Less,
            ) ==> a.partial_cmp_spec(&c) == Some(Ordering::Less),
    {
    }
}

impl PartialOrd for ValueId {
    fn partial_cmp(&self, other: &ValueId) -> (r: Option<Ordering>) {
        if self.0 < other.0 {
            Some(Ordering::Less)
        } else if self.0 == other.0 {
            Some(Ordering::Equal)
        } else {
            Some(Ordering::Greater)
        }
    }
}

impl vstd::std_specs::cmp::PartialOrdSpecImpl for ValueId {
    open spec fn obeys_partial_cmp_spec() -> bool {
        true
    }

    /// Identities are ordered as they were allocated.
    open spec fn partial_cmp_spec(&self, other: &ValueId) -> Option<Ordering> {
        if self@ < other@ {
            Some(Ordering::Less)
        } else if self@ == other@ {
            Some(Ordering::Equal)
        } else {
            Some(Ordering::Greater)
        }
    }
}

/// Issues value identities, each one greater than all it issued before.
pub struct ValueIdAlloc {
    next: u64,
}

impl ValueIdAlloc {
    /// The number of identities issued so far.
    pub closed spec fn issued(&self) -> nat {
        self.next as nat
    }

    /// Whether `id` is one of the identities issued so far. They are issued in
    /// order of position, from 0.
    pub open spec fn has_issued(&self, id: ValueId) -> bool {
        id@ < self.issued()
    }

    /// Whether every identity has been issued, so that none is left.
    pub open spec fn exhausted(&self) -> bool {
        self.issued() >= u64::MAX
    }

    /// An allocator that has issued nothing yet.
    pub fn new() -> (ids: ValueIdAlloc)
        ensures
            ids.issued() == 0,
    {
        ValueIdAlloc { next: 0 }
    }

    /// Whether no identity is left, so that `allocate` can no longer be called.
    pub fn is_exhausted(&self) -> (b: bool)
        ensures
            b == self.exhausted(),
    {
        self.next == u64::MAX
    }

    /// Issues a fresh identity: the one whose position is the number of
    /// identities issued before it.
    pub fn allocate(&mut self) -> (id: ValueId)
        requires
            !old(self).exhausted(),
        ensures
            id@ == old(self).issued(),
            final(self).issued() == old(self).issued() + 1,
    {
        let id = ValueId(self.next);
        self.next = self.next + 1;
        id
    }

    /// The identity that an allocator issues next is greater than every
    /// identity it has issued, so none is issued twice: `next` is what
    /// `allocate` returns in the state `ids`, `before` any identity issued by
    /// then.
    pub proof fn lemma_fresh(ids: ValueIdAlloc, next: ValueId, before: ValueId)
        requires
            next@ == ids.issued(),
            ids.has_issued(before),
        ensures
            before != next,
            before.partial_cmp_spec(&next) == Some(Ordering::Less),
            next.partial_cmp_spec(&before) == Some(Ordering::Greater),
    {
    }
}

/// A handle to an instruction: the identity of the instruction, typed as
/// such. It owns nothing; the unit that holds the instruction resolves it.
#[derive(Clone, Copy, Debug, PartialEq, Eq, Structural, Ord, Hash)]
pub struct InstRef(ValueId);

impl InstRef {
    /// The identity that the handle wraps.
    pub closed spec fn id(self) -> ValueId {
        self.0
    }

    /// The handle for the instruction with identity `id`.
    pub fn new(id: ValueId) -> (r: InstRef)
        ensures
            r.id() == id,
    {
        InstRef(id)
    }

    /// A handle is determined by the identity it wraps.
    pub proof fn lemma_id_injective(a: InstRef, b: InstRef)
        ensures
            a.id() == b.id() <==> a == b,
    {
    }

    /// Handles are totally ordered, as identities are: any two are comparable,
    /// they compare equal exactly when they are the same handle, one is less
    /// exactly when the other is greater, and less-than is transitive.
    pub proof fn lemma_total_order(a: InstRef, b: InstRef, c: InstRef)
        ensures
            a.partial_cmp_spec(&b) is Some,
            a.partial_cmp_spec(&b) == Some(Ordering::Equal) <==> a == b,
            a.partial_cmp_spec(&b) == Some(Ordering::Less) <==> b.partial_cmp_spec(&a) == Some(
                Ordering::Greater,
            ),
            a.partial_cmp_spec(&b) == Some(Ordering::Less) && b.partial_cmp_spec(&c) == Some(
                Ordering::Less,
            ) ==> a.partial_cmp_spec(&c) == Some(Ordering::Less),
    {
    }
}

impl PartialOrd for InstRef {
    fn partial_cmp(&self, other: &InstRef) -> (r: Option<Ordering>) {
        self.0.partial_cmp(&other.0)
    }
}

impl vstd::std_specs::cmp::PartialOrdSpecImpl for InstRef {
    open spec fn obeys_partial_cmp_spec() -> bool {
        true
    }

    /// Handles are ordered as the identities they wrap.
    open spec fn partial_cmp_spec(&self, other: &InstRef) -> Option<Ordering> {
        PartialOrdSpec::partial_cmp_spec(&self.id(), &other.id())
    }
}

impl From<InstRef> for ValueId {
    fn from(r: InstRef) -> (id: ValueId) {
        r.0
    }
}

impl FromSpecImpl<InstRef> for ValueId {
    open spec fn obeys_from_spec() -> bool {
        true
    }

    /// The identity that the handle wraps.
    open spec fn from_spec(r: InstRef) -> ValueId {
        r.id()
    }
}

/// A reference to a value of any category, as an instruction takes it for an
/// operand.
#[derive(Clone, Copy, Debug, PartialEq, Eq, Structural, Hash)]
pub enum ValueRef {
    /// The result of an instruction.
    Inst(InstRef),
    /// A global variable.
    Global(ValueId),
    /// A constant.
    Constant(ValueId),
    /// An argument of the enclosing unit.
    Argument(ValueId),
}

impl ValueRef {
    /// The identity of the value referred to.
    pub open spec fn spec_id(self) -> ValueId {
        match self {
            ValueRef::Inst(r) => r.id(),
            ValueRef::Global(id) => id,
            ValueRef::Constant(id) => id,
            ValueRef::Argument(id) => id,
        }
    }

    /// The identity of the value referred to.
    #[verifier::when_used_as_spec(spec_id)]
    pub fn id(self) -> (id: ValueId)
        ensures
            id == self.spec_id(),
    {
        match self {
            ValueRef::Inst(r) => r.into(),
            ValueRef::Global(id) => id,
            ValueRef::Constant(id) => id,
            ValueRef::Argument(id) => id,
        }
    }
}

impl From<InstRef> for ValueRef {
    fn from(r: InstRef) -> (v: ValueRef) {
        ValueRef::Inst(r)
    }
}

impl FromSpecImpl<InstRef> for ValueRef {
    open spec fn obeys_from_spec() -> bool {
        true
    }

    /// The reference to the instruction's result.
    open spec fn from_spec(r: InstRef) -> ValueRef {
        ValueRef::Inst(r)
    }
}

/// What every value answers, whatever its category: instructions, global
/// variables, constants and arguments are used alike through it.
pub trait Value {
    /// The identity of the value.
    fn id(&self) -> ValueId;

    /// The type of the value.
    fn ty(&self) -> Type;

    /// The name of the value, where it has one.
    fn name(&self) -> Option<&str>;

    /// Whether the value is a global one.
    fn is_global(&self) -> bool;
}

} // verus!
