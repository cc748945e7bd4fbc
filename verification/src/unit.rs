//! Units: what owns instructions and resolves the handles to them.

use crate::inst::Inst;
use crate::value::{InstRef, ValueId};
use std::collections::HashMap;
use vstd::prelude::*;

verus! {

/// What owns the instructions of a unit and resolves handles to them.
pub trait UnitContext {
    /// The instructions that the unit holds, by handle.
    spec fn insts(&self) -> Map<InstRef, Inst>;

    /// The instruction that `inst` refers to. The handle must be one that the
    /// unit holds an instruction for.
    fn inst(&self, inst: InstRef) -> (i: &Inst)
        requires
            self.insts().contains_key(inst),
        ensures
            *i == self.insts()[inst],
    ;
}

/// A store of instructions, each kept under its own handle.
pub struct InstStore {
    insts: HashMap<u64, Inst>,
}

impl View for InstStore {
    type V = Map<InstRef, Inst>;

    /// The instructions in the store, by handle.
    closed spec fn view(&self) -> Map<InstRef, Inst> {
        Map::new(
            |r: InstRef| self.insts@.contains_key(r.id().as_u64()),
            |r: InstRef| self.insts@[r.id().as_u64()],
        )
    }
}

impl InstStore {
    /// Every instruction is kept under the number of its own identity.
    #[verifier::type_invariant]
    spec fn keyed_by_identity(&self) -> bool {
        forall|k: u64| #[trigger]
            self.insts@.contains_key(k) ==> self.insts@[k]@.id.id().as_u64() == k
    }

    /// An empty store.
    pub fn new() -> (store: InstStore)
        ensures
            store@ == Map::<InstRef, Inst>::empty(),
    {
        InstStore { insts: HashMap::new() }
    }

    /// Puts `inst` into the store under its own handle, which is returned. An
    /// instruction that the store held under that handle is replaced.
    pub fn insert(&mut self, inst: Inst) -> (r: InstRef)
        ensures
            r == inst@.id,
            final(self)@ == old(self)@.insert(inst@.id, inst),
    {
        broadcast use vstd::std_specs::hash::group_hash_axioms;

        proof {
            use_type_invariant(&*self);
        }
        let r = inst.as_ref();
        let id: ValueId = r.into();
        let mut insts = HashMap::new();
        std::mem::swap(&mut insts, &mut self.insts);
        insts.insert(id.as_u64(), inst);
        self.insts = insts;
        proof {
            assert forall|q: InstRef| q.id().as_u64() == r.id().as_u64() implies q == r by {
                ValueId::lemma_view_injective(q.id(), r.id());
                InstRef::lemma_id_injective(q, r);
            }
        }
        r
    }

    /// The instruction that `inst` refers to, where the store holds one.
    pub fn get(&self, inst: InstRef) -> (found: Option<&Inst>)
        ensures
            match found {
                Some(i) => self@.contains_key(inst) && *i == self@[inst] && i@.id == inst,
                None => !self@.contains_key(inst),
            },
    {
        broadcast use vstd::std_specs::hash::group_hash_axioms;

        proof {
            use_type_invariant(self);
        }
        let id: ValueId = inst.into();
        let k = id.as_u64();
        let found = self.insts.get(&k);
        proof {
            if let Some(i) = found {
                ValueId::lemma_view_injective(i@.id.id(), inst.id());
                InstRef::lemma_id_injective(i@.id, inst);
            }
        }
        found
    }
}

impl UnitContext for InstStore {
    open spec fn insts(&self) -> Map<InstRef, Inst> {
        self@
    }

    fn inst(&self, inst: InstRef) -> (i: &Inst)
        ensures
            i@.id == inst,
    {
        self.get(inst).unwrap()
    }
}

} // verus!
