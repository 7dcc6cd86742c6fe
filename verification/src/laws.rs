//! The stated laws of the classifier, proved against the dispatch table.
//!
//! Each proof function states one guarantee of `emitted_clauses` /
//! `emitted_clause`: what a given structural kind makes the classifier
//! emit, which kinds are deliberately silent, and that classification is a
//! function of its inputs alone.

use vstd::prelude::*;

use crate::clauses::spec_requirements;
use crate::clauses::SpecClause;
use crate::clauses::SpecTraitRef;
use crate::copy::capture_tuple;
use crate::copy::emitted_clause;
use crate::copy::emitted_clauses;
use crate::copy::TyKind;
use crate::copy::TyVariableKind;
use crate::copy::VariableKind;
use crate::db::SpecClosure;
use crate::ty::SpecTy;

verus! {

broadcast use vstd::seq::group_seq_axioms;

/// A zero-arity tuple emits exactly one unconditional fact, and no
/// conditional clause.
pub proof fn lemma_empty_tuple_is_fact(
    db: Seq<SpecClosure>,
    trait_ref: SpecTraitRef,
    substitution: Seq<SpecTy>,
    binders: Seq<VariableKind>,
)
    ensures
        emitted_clauses(db, trait_ref, TyKind::Tuple(0), substitution, binders) == seq![
            SpecClause::Fact(trait_ref),
        ],
{
    assert(emitted_clauses(db, trait_ref, TyKind::Tuple(0), substitution, binders) =~= seq![
        SpecClause::Fact(trait_ref),
    ]);
}

/// A tuple of positive arity emits exactly one conditional clause, no
/// fact, and its subgoals require the capability on each component, in
/// order.
pub proof fn lemma_tuple_requires_components(
    db: Seq<SpecClosure>,
    trait_ref: SpecTraitRef,
    arity: usize,
    substitution: Seq<SpecTy>,
    binders: Seq<VariableKind>,
)
    requires
        arity > 0,
        substitution.len() == arity,
    ensures
        ({
            let emission = emitted_clause(db, trait_ref, TyKind::Tuple(arity), substitution, binders);
            &&& emission matches Some(clause)
            &&& clause matches SpecClause::Conditional(head, subgoals)
            &&& head == trait_ref
            &&& subgoals.len() == arity
            &&& forall|i: int| 0 <= i < arity ==> #[trigger] subgoals[i] == (SpecTraitRef {
                trait_id: trait_ref.trait_id,
                self_ty: substitution[i],
            })
        }),
{
}

/// An array emits exactly one conditional clause requiring the capability
/// on the element type alone; whatever else the substitution carries (the
/// length parameter included) does not enter the emission.
pub proof fn lemma_array_requires_element(
    db: Seq<SpecClosure>,
    trait_ref: SpecTraitRef,
    substitution: Seq<SpecTy>,
    other: Seq<SpecTy>,
    binders: Seq<VariableKind>,
)
    requires
        substitution.len() >= 1,
        other.len() >= 1,
        other[0] == substitution[0],
    ensures
        emitted_clause(db, trait_ref, TyKind::Array, substitution, binders) == Some(
            SpecClause::Conditional(
                trait_ref,
                seq![SpecTraitRef { trait_id: trait_ref.trait_id, self_ty: substitution[0] }],
            ),
        ),
        emitted_clause(db, trait_ref, TyKind::Array, other, binders) == emitted_clause(
            db,
            trait_ref,
            TyKind::Array,
            substitution,
            binders,
        ),
{
    assert(spec_requirements(trait_ref.trait_id, seq![substitution[0]]) =~= seq![
        SpecTraitRef { trait_id: trait_ref.trait_id, self_ty: substitution[0] },
    ]);
    assert(spec_requirements(trait_ref.trait_id, seq![other[0]]) =~= spec_requirements(
        trait_ref.trait_id,
        seq![substitution[0]],
    ));
}

/// A closure emits exactly one conditional clause whose single subgoal
/// requires the capability on the tuple synthesized from its captures.
pub proof fn lemma_closure_requires_capture_tuple(
    db: Seq<SpecClosure>,
    trait_ref: SpecTraitRef,
    closure_id: usize,
    substitution: Seq<SpecTy>,
    binders: Seq<VariableKind>,
)
    requires
        closure_id < db.len(),
    ensures
        emitted_clause(db, trait_ref, TyKind::Closure(closure_id), substitution, binders) == Some(
            SpecClause::Conditional(
                trait_ref,
                seq![
                    SpecTraitRef {
                        trait_id: trait_ref.trait_id,
                        self_ty: capture_tuple(db[closure_id as int], substitution),
                    },
                ],
            ),
        ),
{
    assert(spec_requirements(
        trait_ref.trait_id,
        seq![capture_tuple(db[closure_id as int], substitution)],
    ) =~= seq![
        SpecTraitRef {
            trait_id: trait_ref.trait_id,
            self_ty: capture_tuple(db[closure_id as int], substitution),
        },
    ]);
}

/// Classification reads a closure's record only through its captures and
/// its internal substitution: two databases that agree on those — whatever
/// their closures' parameter and return types — drive every classification
/// alike.
pub proof fn lemma_emission_ignores_closure_signature(
    db1: Seq<SpecClosure>,
    db2: Seq<SpecClosure>,
    trait_ref: SpecTraitRef,
    kind: TyKind,
    substitution: Seq<SpecTy>,
    binders: Seq<VariableKind>,
)
    requires
        crate::copy::inputs_wf(db1, kind, substitution, binders),
        db1.len() == db2.len(),
        forall|i: int| 0 <= i < db1.len() ==> #[trigger] db1[i].captures == db2[i].captures,
        forall|i: int| 0 <= i < db1.len() ==> #[trigger] db1[i].internal_subst
            == db2[i].internal_subst,
    ensures
        emitted_clause(db1, trait_ref, kind, substitution, binders) == emitted_clause(
            db2,
            trait_ref,
            kind,
            substitution,
            binders,
        ),
{
    if let TyKind::Closure(closure_id) = kind {
        if closure_id < db1.len() {
            let c1 = db1[closure_id as int];
            let c2 = db2[closure_id as int];
            assert(crate::db::spec_fn_substitution(c1, substitution)
                =~= crate::db::spec_fn_substitution(c2, substitution));
            assert(capture_tuple(c1, substitution)->Tuple_0 =~= capture_tuple(
                c2,
                substitution,
            )->Tuple_0);
            assert(capture_tuple(c1, substitution) == capture_tuple(c2, substitution));
        }
    }
}

/// Reference, raw-pointer, scalar, never and string-slice shapes emit
/// nothing, whatever the other inputs: their eligibility is settled by a
/// fixed external rule set.
pub proof fn lemma_library_kinds_silent(
    db: Seq<SpecClosure>,
    trait_ref: SpecTraitRef,
    kind: TyKind,
    substitution: Seq<SpecTy>,
    binders: Seq<VariableKind>,
)
    requires
        kind == TyKind::Ref || kind == TyKind::Raw || kind == TyKind::Scalar || kind
            == TyKind::Never || kind == TyKind::Str,
    ensures
        emitted_clause(db, trait_ref, kind, substitution, binders) is None,
        emitted_clauses(db, trait_ref, kind, substitution, binders) == Seq::<SpecClause>::empty(),
{
}

/// Algebraic data types, associated-type projections, slices, opaque,
/// foreign, generator, generator-witness and error-placeholder shapes emit
/// nothing, whatever the arguments: their eligibility, if any, comes from
/// explicit external declarations.
pub proof fn lemma_declared_kinds_silent(
    db: Seq<SpecClosure>,
    trait_ref: SpecTraitRef,
    kind: TyKind,
    substitution: Seq<SpecTy>,
    binders: Seq<VariableKind>,
)
    requires
        kind == TyKind::Adt || kind == TyKind::AssociatedType || kind == TyKind::Slice || kind
            == TyKind::OpaqueType || kind == TyKind::Foreign || kind == TyKind::Generator || kind
            == TyKind::GeneratorWitness || kind == TyKind::ErrorPlaceholder,
    ensures
        emitted_clause(db, trait_ref, kind, substitution, binders) is None,
        emitted_clauses(db, trait_ref, kind, substitution, binders) == Seq::<SpecClause>::empty(),
{
}

/// Alias, dynamic-trait-object and placeholder shapes emit nothing.
pub proof fn lemma_variable_kinds_silent(
    db: Seq<SpecClosure>,
    trait_ref: SpecTraitRef,
    kind: TyKind,
    substitution: Seq<SpecTy>,
    binders: Seq<VariableKind>,
)
    requires
        kind == TyKind::Alias || kind == TyKind::Dyn || kind == TyKind::Placeholder,
    ensures
        emitted_clause(db, trait_ref, kind, substitution, binders) is None,
        emitted_clauses(db, trait_ref, kind, substitution, binders) == Seq::<SpecClause>::empty(),
{
}

/// A numeric inference variable emits one unconditional fact; a general
/// inference variable emits nothing.
pub proof fn lemma_inference_variable(
    db: Seq<SpecClosure>,
    trait_ref: SpecTraitRef,
    substitution: Seq<SpecTy>,
    binders: Seq<VariableKind>,
)
    ensures
        emitted_clause(db, trait_ref, TyKind::InferenceVar(TyVariableKind::Integer), substitution, binders)
            == Some(SpecClause::Fact(trait_ref)),
        emitted_clause(db, trait_ref, TyKind::InferenceVar(TyVariableKind::Float), substitution, binders)
            == Some(SpecClause::Fact(trait_ref)),
        emitted_clause(db, trait_ref, TyKind::InferenceVar(TyVariableKind::General), substitution, binders)
            is None,
{
}

/// A bound variable goes by its declared kind in the binder context: a
/// numeric type variable yields one unconditional fact; any other type
/// variable, a const parameter or a lifetime parameter yields nothing.
pub proof fn lemma_bound_variable(
    db: Seq<SpecClosure>,
    trait_ref: SpecTraitRef,
    index: usize,
    substitution: Seq<SpecTy>,
    binders: Seq<VariableKind>,
)
    requires
        index < binders.len(),
    ensures
        (binders[index as int] == VariableKind::Ty(TyVariableKind::Integer) || binders[index as int]
            == VariableKind::Ty(TyVariableKind::Float)) ==> emitted_clause(
            db,
            trait_ref,
            TyKind::BoundVar(index),
            substitution,
            binders,
        ) == Some(SpecClause::Fact(trait_ref)),
        (binders[index as int] == VariableKind::Ty(TyVariableKind::General) || binders[index as int]
            == VariableKind::Const || binders[index as int] == VariableKind::Lifetime)
            ==> emitted_clause(db, trait_ref, TyKind::BoundVar(index), substitution, binders) is None,
{
}

/// A classification call never partially emits: it appends one whole
/// clause, or nothing.
pub proof fn lemma_at_most_one_clause(
    db: Seq<SpecClosure>,
    trait_ref: SpecTraitRef,
    kind: TyKind,
    substitution: Seq<SpecTy>,
    binders: Seq<VariableKind>,
)
    ensures
        emitted_clauses(db, trait_ref, kind, substitution, binders).len() <= 1,
{
}

/// Classification is deterministic and idempotent: whatever each builder
/// held before, two calls on identical inputs append identical emissions.
pub proof fn lemma_classification_idempotent(
    db: Seq<SpecClosure>,
    trait_ref: SpecTraitRef,
    kind: TyKind,
    substitution: Seq<SpecTy>,
    binders: Seq<VariableKind>,
    before1: Seq<SpecClause>,
    before2: Seq<SpecClause>,
    after1: Seq<SpecClause>,
    after2: Seq<SpecClause>,
)
    requires
        after1 == before1 + emitted_clauses(db, trait_ref, kind, substitution, binders),
        after2 == before2 + emitted_clauses(db, trait_ref, kind, substitution, binders),
    ensures
        after1.skip(before1.len() as int) == after2.skip(before2.len() as int),
{
    let emission = emitted_clauses(db, trait_ref, kind, substitution, binders);
    assert(after1.skip(before1.len() as int) =~= emission);
    assert(after2.skip(before2.len() as int) =~= emission);
}

} // verus!
