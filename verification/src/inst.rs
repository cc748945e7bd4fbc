//! Instructions: the entity, the closed set of instruction kinds, and the
//! mnemonics by which assembly text names them.

pub use self::InstKind::BinaryInst;
use crate::ty::Type;
use crate::unit::UnitContext;
use crate::value::{InstRef, Value, ValueId, ValueIdAlloc, ValueRef};
use std::cmp::Ordering;
use vstd::prelude::*;
use vstd::std_specs::cmp::PartialOrdSpec;

verus! {

/// An instruction: a value with an identity of its own, an optional name and
/// the operation it performs. None of the three changes once it is made.
pub struct Inst {
    id: InstRef,
    /// An optional name for the instruction used when emitting assembly.
    name: Option<String>,
    /// The instruction data.
    kind: InstKind,
}

/// What an instruction is, as contracts speak of it.
pub struct InstView {
    /// The handle of the instruction.
    pub id: InstRef,
    /// The characters of its name, where it has one.
    pub name: Option<Seq<char>>,
    /// The operation it performs.
    pub kind: InstKind,
}

/// The characters of an optional name.
pub open spec fn name_text(name: Option<String>) -> Option<Seq<char>> {
    match name {
        Some(s) => Some(s@),
        None => None,
    }
}

impl View for Inst {
    type V = InstView;

    /// The handle, the name and the kind that the instruction was made with.
    closed spec fn view(&self) -> InstView {
        InstView { id: self.id, name: name_text(self.name), kind: self.kind }
    }
}

impl Inst {
    /// Create a new instruction. Its identity is the next that `ids` issues;
    /// name and kind are kept as given.
    pub fn new(ids: &mut ValueIdAlloc, name: Option<String>, kind: InstKind) -> (inst: Inst)
        requires
            !old(ids).exhausted(),
        ensures
            inst@.id.id()@ == old(ids).issued(),
            inst@.name == name_text(name),
            inst@.kind == kind,
            final(ids).issued() == old(ids).issued() + 1,
    {
        Inst { id: InstRef::new(ids.allocate()), name: name, kind: kind }
    }

    /// Obtain a reference to this instruction.
    pub fn as_ref(&self) -> (r: InstRef)
        ensures
            r == self@.id,
    {
        self.id
    }

    /// Determine the mnemonic for this instruction. The mnemonic is a short
    /// sequence of characters that uniquely identifies the instruction in human
    /// readable assembly text.
    pub fn mnemonic(&self) -> (m: Mnemonic)
        ensures
            m == self@.kind.mnemonic(),
    {
        self.kind.mnemonic()
    }

    /// Obtain a reference to the data for this instruction. See `InstKind`.
    pub fn kind(&self) -> (k: &InstKind)
        ensures
            *k == self@.kind,
    {
        &self.kind
    }

    /// Instructions made one after the other with one allocator have distinct
    /// handles, and the one made first has the smaller: `second` is what `new`
    /// makes when the allocator is in the state `ids`, `first` an instruction
    /// whose identity the allocator has issued by then.
    pub proof fn lemma_creation_order(first: Inst, second: Inst, ids: ValueIdAlloc)
        requires
            ids.has_issued(first@.id.id()),
            second@.id.id()@ == ids.issued(),
        ensures
            first@.id != second@.id,
            first@.id.partial_cmp_spec(&second@.id) == Some(Ordering::Less),
            second@.id.partial_cmp_spec(&first@.id) == Some(Ordering::Greater),
    {
    }
}

impl Value for Inst {
    fn id(&self) -> (id: ValueId)
        ensures
            id == self@.id.id(),
    {
        self.id.into()
    }

    fn ty(&self) -> (t: Type)
        ensures
            t == self@.kind.ty(),
    {
        self.kind.ty()
    }

    fn name(&self) -> (n: Option<&str>)
        ensures
            match n {
                Some(s) => self@.name == Some(s@),
                None => self@.name is None,
            },
    {
        match &self.name {
            Some(s) => Some(s.as_str()),
            None => None,
        }
    }

    fn is_global(&self) -> (b: bool)
        ensures
            !b,
    {
        false
    }
}

/// Walks a sequence of instruction handles and yields, for each handle in
/// turn, the instruction that a unit holds for it. Nothing is skipped, repeated
/// or reordered. To walk the handles again, make a new iterator.
pub struct InstIter<'tf, C: UnitContext> {
    refs: &'tf [InstRef],
    pos: usize,
    ctx: &'tf C,
}

impl<'tf, C: UnitContext> InstIter<'tf, C> {
    /// The position is within the handles, or just past the last.
    #[verifier::type_invariant]
    spec fn in_bounds(&self) -> bool {
        self.pos <= self.refs@.len()
    }

    /// The handles not yet walked, in order.
    pub closed spec fn remaining(&self) -> Seq<InstRef> {
        self.refs@.skip(self.pos as int)
    }

    /// The unit that resolves the handles.
    pub closed spec fn unit(&self) -> &'tf C {
        self.ctx
    }

    /// Whether the unit holds an instruction for each handle not yet walked.
    pub open spec fn resolvable(&self) -> bool {
        forall|i: int|
            0 <= i < self.remaining().len() ==> self.unit().insts().contains_key(
                #[trigger] self.remaining()[i],
            )
    }

    /// The instructions not yet yielded, in order: what the unit holds for each
    /// of the remaining handles.
    pub open spec fn upcoming(&self) -> Seq<Inst> {
        self.remaining().map_values(|r: InstRef| self.unit().insts()[r])
    }

    /// An iterator over the instructions that `ctx` holds for `refs`.
    pub fn new(refs: &'tf [InstRef], ctx: &'tf C) -> (it: InstIter<'tf, C>)
        ensures
            it.remaining() == refs@,
            it.unit() == ctx,
    {
        InstIter { refs: refs, pos: 0, ctx: ctx }
    }

    /// Yields the instruction for the first remaining handle and steps past
    /// that handle; yields nothing once every handle has been walked. The unit
    /// must hold an instruction for the handle that is resolved.
    pub fn next(&mut self) -> (next: Option<&'tf Inst>)
        requires
            old(self).remaining().len() > 0 ==> old(self).unit().insts().contains_key(
                old(self).remaining()[0],
            ),
        ensures
            final(self).unit() == old(self).unit(),
            match next {
                Some(inst) => {
                    &&& old(self).remaining().len() > 0
                    &&& *inst == old(self).upcoming()[0]
                    &&& final(self).remaining() == old(self).remaining().drop_first()
                },
                None => {
                    &&& old(self).remaining().len() == 0
                    &&& final(self).remaining() == old(self).remaining()
                },
            },
    {
        proof {
            use_type_invariant(&*self);
        }
        if self.pos < self.refs.len() {
            let r = self.refs[self.pos];
            self.pos = self.pos + 1;
            Some(self.ctx.inst(r))
        } else {
            None
        }
    }

    /// Walks the remaining handles to the end and returns the instructions
    /// found, in the order of the handles. The unit must hold an instruction
    /// for each of them.
    pub fn collect(self) -> (insts: Vec<&'tf Inst>)
        requires
            self.resolvable(),
        ensures
            insts@.map_values(|inst: &Inst| *inst) == self.upcoming(),
    {
        let ghost start = self;
        let mut it = self;
        let mut insts: Vec<&'tf Inst> = Vec::new();
        loop
            invariant
                it.unit() == start.unit(),
                it.remaining() == start.remaining().skip(insts@.len() as int),
                insts@.len() <= start.remaining().len(),
                start.resolvable(),
                forall|i: int|
                    0 <= i < insts@.len() ==> *(#[trigger] insts@[i]) == start.upcoming()[i],
            ensures
                insts@.len() == start.remaining().len(),
            decreases it.remaining().len(),
        {
            let next = it.next();
            match next {
                Some(inst) => {
                    insts.push(inst);
                },
                None => {
                    break ;
                },
            }
        }
        insts
    }
}

/// The operation that an instruction performs, with its operands. The set of
/// kinds is closed: whoever matches on it names every kind.
#[derive(Clone, Copy, Debug, PartialEq, Eq, Structural)]
pub enum InstKind {
    /// A binary operation: the operator, the type of the result, and the left
    /// and right operands.
    BinaryInst(BinaryOp, Type, ValueRef, ValueRef),
}

impl InstKind {
    /// The result type of the instruction.
    pub open spec fn spec_ty(&self) -> Type {
        match *self {
            InstKind::BinaryInst(_, ty, _, _) => ty,
        }
    }

    /// The mnemonic of the instruction.
    pub open spec fn spec_mnemonic(&self) -> Mnemonic {
        match *self {
            InstKind::BinaryInst(op, _, _, _) => Mnemonic::Binary(op.mnemonic()),
        }
    }

    /// Get the result type of the instruction. For a binary operation this is
    /// the type it was given, whatever the types of its operands.
    #[verifier::when_used_as_spec(spec_ty)]
    pub fn ty(&self) -> (t: Type)
        ensures
            t == self.spec_ty(),
    {
        match *self {
            InstKind::BinaryInst(_, ref ty, _, _) => ty.clone(),
        }
    }

    /// Get the mnemonic of the instruction. For a binary operation this is the
    /// operator's own mnemonic, in the binary family.
    #[verifier::when_used_as_spec(spec_mnemonic)]
    pub fn mnemonic(&self) -> (m: Mnemonic)
        ensures
            m == self.spec_mnemonic(),
    {
        match *self {
            InstKind::BinaryInst(op, _, _, _) => Mnemonic::Binary(op.mnemonic()),
        }
    }
}

/// The binary operators.
#[derive(Clone, Copy, Debug, PartialEq, Eq, Structural, PartialOrd, Ord, Hash)]
pub enum BinaryOp {
    /// Addition.
    Add,
}

impl BinaryOp {
    /// The mnemonic of the operator.
    pub open spec fn spec_mnemonic(&self) -> BinaryMnemonic {
        match *self {
            BinaryOp::Add => BinaryMnemonic::Add,
        }
    }

    /// The mnemonic of the operator.
    #[verifier::when_used_as_spec(spec_mnemonic)]
    pub fn mnemonic(&self) -> (m: BinaryMnemonic)
        ensures
            m == self.spec_mnemonic(),
    {
        match *self {
            BinaryOp::Add => BinaryMnemonic::Add,
        }
    }

    /// No two binary operators are written with the same mnemonic.
    pub proof fn lemma_mnemonic_injective(a: BinaryOp, b: BinaryOp)
        ensures
            a.mnemonic().text() == b.mnemonic().text() ==> a == b,
    {
    }
}

/// The mnemonic of an instruction, by family.
#[derive(Clone, Copy, Debug, PartialEq, Eq, Structural)]
pub enum Mnemonic {
    /// The mnemonic of a binary operation.
    Binary(BinaryMnemonic),
}

/// The mnemonics of the binary operations.
#[derive(Clone, Copy, Debug, PartialEq, Eq, Structural)]
pub enum BinaryMnemonic {
    /// Addition.
    Add,
}

impl Mnemonic {
    /// The characters of the mnemonic: those of the mnemonic within its family.
    pub open spec fn text(self) -> Seq<char> {
        match self {
            Mnemonic::Binary(m) => m.text(),
        }
    }

    /// Convert the mnemonic to its textual representation.
    pub fn as_str(self) -> (s: &'static str)
        ensures
            s@ == self.text(),
    {
        match self {
            Mnemonic::Binary(m) => m.as_str(),
        }
    }

    /// The text of a mnemonic is a token: it is not empty and made of
    /// lowercase ASCII letters.
    pub proof fn lemma_text_is_token(m: Mnemonic)
        ensures
            m.text().len() > 0,
            forall|i: int| 0 <= i < m.text().len() ==> 'a' <= #[trigger] m.text()[i] <= 'z',
    {
    }
}

impl BinaryMnemonic {
    /// The characters of the mnemonic.
    pub open spec fn text(self) -> Seq<char> {
        match self {
            BinaryMnemonic::Add => seq!['a', 'd', 'd'],
        }
    }

    /// Convert the binary mnemonic to its textual representation.
    pub fn as_str(self) -> (s: &'static str)
        ensures
            s@ == self.text(),
    {
        match self {
            BinaryMnemonic::Add => {
                proof {
                    reveal_strlit("add");
                }
                "add"
            },
        }
    }

    /// No two binary mnemonics have the same text.
    pub proof fn lemma_text_injective(a: BinaryMnemonic, b: BinaryMnemonic)
        ensures
            a.text() == b.text() ==> a == b,
    {
    }
}

} // verus!
