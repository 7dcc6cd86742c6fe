//! Clauses and the sink they are pushed into.
//!
//! A trait reference applies the capability under test to a type.  A clause
//! is either a fact (the capability holds outright) or a conditional clause
//! (the capability holds provided every listed subgoal holds).  The builder
//! collects the clauses a classification call emits; `needs_impl_for_tys`
//! turns a non-empty list of component types into one conditional clause.

use vstd::prelude::*;

use crate::ty::clone_ty;
use crate::ty::tys_view;
use crate::ty::SpecTy;
use crate::ty::Ty;

verus! {

broadcast use vstd::seq::group_seq_axioms, vstd::std_specs::vec::group_vec_axioms;

/// The capability under test, applied to a type.
#[derive(Debug, PartialEq, Eq)]
pub struct TraitRef {
    /// The capability (trait) being tested, identified by an opaque id.
    pub trait_id: u64,
    /// The type the capability is applied to.
    pub self_ty: Ty,
}

/// The mathematical model of a [`TraitRef`].
#[verifier::ext_equal]
pub ghost struct SpecTraitRef {
    pub trait_id: u64,
    pub self_ty: SpecTy,
}

impl View for TraitRef {
    type V = SpecTraitRef;

    open spec fn view(&self) -> SpecTraitRef {
        SpecTraitRef { trait_id: self.trait_id, self_ty: self.self_ty@ }
    }
}

/// Builds a value equal to `tr`.
pub fn clone_trait_ref(tr: &TraitRef) -> (r: TraitRef)
    ensures
        r@ == tr@,
{
    TraitRef { trait_id: tr.trait_id, self_ty: clone_ty(&tr.self_ty) }
}

/// A program clause: the head holds outright, or provided every subgoal
/// holds.
#[derive(Debug, PartialEq, Eq)]
pub enum Clause {
    /// The capability holds unconditionally for the head.
    Fact(TraitRef),
    /// The capability holds for the head provided every listed subgoal
    /// capability holds.
    Conditional(TraitRef, Vec<TraitRef>),
}

/// The mathematical model of a [`Clause`].
#[verifier::ext_equal]
pub ghost enum SpecClause {
    Fact(SpecTraitRef),
    Conditional(SpecTraitRef, Seq<SpecTraitRef>),
}

impl View for Clause {
    type V = SpecClause;

    open spec fn view(&self) -> SpecClause {
        match self {
            Clause::Fact(tr) => SpecClause::Fact(tr@),
            Clause::Conditional(tr, conditions) => SpecClause::Conditional(
                tr@,
                Seq::new(conditions@.len(), |i: int| conditions@[i]@),
            ),
        }
    }
}

/// The subgoals requiring `trait_id` on each element of `tys`, in order.
pub open spec fn spec_requirements(trait_id: u64, tys: Seq<SpecTy>) -> Seq<SpecTraitRef> {
    Seq::new(tys.len(), |i: int| SpecTraitRef { trait_id, self_ty: tys[i] })
}

/// The sink that collects the clauses emitted by classification.
pub struct ClauseBuilder {
    /// The clauses pushed so far, oldest first.
    pub clauses: Vec<Clause>,
}

impl View for ClauseBuilder {
    type V = Seq<SpecClause>;

    open spec fn view(&self) -> Seq<SpecClause> {
        Seq::new(self.clauses@.len(), |i: int| self.clauses@[i]@)
    }
}

impl ClauseBuilder {
    /// An empty sink.
    pub fn new() -> (r: ClauseBuilder)
        ensures
            r@ == Seq::<SpecClause>::empty(),
    {
        let r = ClauseBuilder { clauses: Vec::new() };
        proof {
            assert(r@ =~= Seq::<SpecClause>::empty());
        }
        r
    }

    /// Appends the fact that `trait_ref` holds unconditionally.
    pub fn push_fact(&mut self, trait_ref: &TraitRef)
        ensures
            final(self)@ == old(self)@.push(SpecClause::Fact(trait_ref@)),
    {
        self.clauses.push(Clause::Fact(clone_trait_ref(trait_ref)));
        proof {
            assert(self@ =~= old(self)@.push(SpecClause::Fact(trait_ref@)));
        }
    }

    /// Appends the clause that `trait_ref` holds provided every subgoal in
    /// `conditions` holds.
    pub fn push_conditional(&mut self, trait_ref: &TraitRef, conditions: Vec<TraitRef>)
        ensures
            final(self)@ == old(self)@.push(
                SpecClause::Conditional(
                    trait_ref@,
                    Seq::new(conditions@.len(), |i: int| conditions@[i]@),
                ),
            ),
    {
        let head = clone_trait_ref(trait_ref);
        self.clauses.push(Clause::Conditional(head, conditions));
        proof {
            assert(self@ =~= old(self)@.push(
                SpecClause::Conditional(
                    trait_ref@,
                    Seq::new(conditions@.len(), |i: int| conditions@[i]@),
                ),
            ));
        }
    }
}

/// Pushes one conditional clause stating that `trait_ref` holds provided
/// the capability holds for every type in `tys`, in list order.
pub fn needs_impl_for_tys(builder: &mut ClauseBuilder, trait_ref: &TraitRef, tys: &Vec<Ty>)
    requires
        tys@.len() > 0,
    ensures
        final(builder)@ == old(builder)@.push(
            SpecClause::Conditional(
                trait_ref@,
                spec_requirements(trait_ref@.trait_id, tys_view(tys@)),
            ),
        ),
{
    let mut conditions: Vec<TraitRef> = Vec::new();
    let n = tys.len();
    for i in 0..n
        invariant
            n == tys@.len(),
            conditions@.len() == i,
            forall|k: int| 0 <= k < i
                ==> #[trigger] conditions@[k]@ == (SpecTraitRef {
                    trait_id: trait_ref@.trait_id,
                    self_ty: tys@[k]@,
                }),
    {
        conditions.push(TraitRef { trait_id: trait_ref.trait_id, self_ty: clone_ty(&tys[i]) });
    }
    proof {
        assert(Seq::new(conditions@.len(), |i: int| conditions@[i]@) =~= spec_requirements(
            trait_ref@.trait_id,
            tys_view(tys@),
        ));
    }
    builder.push_conditional(trait_ref, conditions);
}

} // verus!
