//! The structural eligibility classifier for the copy capability.
//!
//! `add_copy_program_clauses` dispatches on the structural kind of a type
//! and emits at most one clause into the builder: a fact where the shape
//! alone settles the capability, a conditional clause where it holds
//! provided the components have it, and nothing where the decision is left
//! to rules declared elsewhere.  The spec function `emitted_clauses` states
//! the whole dispatch table; the classifier is proved to append exactly
//! that.

use vstd::prelude::*;

use crate::clauses::needs_impl_for_tys;
use crate::clauses::spec_requirements;
use crate::clauses::ClauseBuilder;
use crate::clauses::SpecClause;
use crate::clauses::SpecTraitRef;
use crate::clauses::TraitRef;
use crate::db::closure_wf;
use crate::db::spec_fn_substitution;
use crate::db::SpecClosure;
use crate::db::TypeDatabase;
use crate::ty::clone_ty;
use crate::ty::lemma_tuple_view;
use crate::ty::ty_wf;
use crate::ty::subst_ty;
use crate::ty::substitute_ty;
use crate::ty::tys_view;
use crate::ty::SpecTy;
use crate::ty::Ty;

verus! {

broadcast use vstd::seq::group_seq_axioms, vstd::std_specs::vec::group_vec_axioms;

/// The numeric subkind of an inference variable or of a bound type
/// variable.
#[derive(Clone, Copy, Debug, PartialEq, Eq, Structural)]
pub enum TyVariableKind {
    /// Constrained to some integer type.
    Integer,
    /// Constrained to some floating-point type.
    Float,
    /// Not constrained to a numeric type.
    General,
}

/// The declared kind of a variable in a binder context.
#[derive(Clone, Copy, Debug, PartialEq, Eq, Structural)]
pub enum VariableKind {
    /// A type variable, with its numeric subkind.
    Ty(TyVariableKind),
    /// A const parameter.
    Const,
    /// A lifetime parameter.
    Lifetime,
}

/// The structural kind of a type: the closed tag naming how the type is
/// built.  Component types come separately, as the substitution.
#[derive(Clone, Copy, Debug, PartialEq, Eq, Structural)]
pub enum TyKind {
    /// A tuple of the given arity; the substitution lists the components.
    Tuple(usize),
    /// An array; entry 0 of the substitution is the element type, and the
    /// length parameter is irrelevant here.
    Array,
    /// A function pointer value.
    FnPtr,
    /// The item type of a named function.
    FnItem,
    /// A closure, identified by its id in the type database.
    Closure(usize),
    /// A reference.
    Ref,
    /// A raw pointer.
    Raw,
    /// A scalar (integer, float, bool, char).
    Scalar,
    /// The never type.
    Never,
    /// A string slice.
    Str,
    /// A user-declared algebraic data type.
    Adt,
    /// An associated type projection.
    AssociatedType,
    /// A slice.
    Slice,
    /// An opaque (impl-trait) type.
    OpaqueType,
    /// A foreign type.
    Foreign,
    /// A generator.
    Generator,
    /// A generator witness.
    GeneratorWitness,
    /// The error placeholder type.
    ErrorPlaceholder,
    /// A bare function type.
    BareFn,
    /// An inference variable, with its numeric subkind.
    InferenceVar(TyVariableKind),
    /// A variable bound by an enclosing quantifier, by index into the
    /// binder context.
    BoundVar(usize),
    /// An alias type.
    Alias,
    /// A dynamic trait object.
    Dyn,
    /// A placeholder variable.
    Placeholder,
}

/// The single synthesized tuple type formed from the closure's captured
/// variables, rewritten to the caller's view by the substitution the
/// closure is applied at.
pub open spec fn capture_tuple(c: SpecClosure, outer: Seq<SpecTy>) -> SpecTy {
    SpecTy::Tuple(
        Seq::new(c.captures.len(), |i: int| subst_ty(c.captures[i], spec_fn_substitution(c, outer))),
    )
}

/// The inputs are well formed: the substitution has the shape the
/// structural kind requires, a closure id resolves in the database, and a
/// bound variable's index lies inside the binder context.
pub open spec fn inputs_wf(
    db: Seq<SpecClosure>,
    kind: TyKind,
    substitution: Seq<SpecTy>,
    binders: Seq<VariableKind>,
) -> bool {
    match kind {
        TyKind::Tuple(arity) => substitution.len() == arity,
        TyKind::Array => substitution.len() >= 1,
        TyKind::Closure(closure_id) => closure_id < db.len() && closure_wf(
            db[closure_id as int],
            substitution.len() as int,
        ),
        TyKind::BoundVar(index) => index < binders.len(),
        _ => true,
    }
}

/// The dispatch table: the clause, if any, that classifying `kind` emits.
pub open spec fn emitted_clause(
    db: Seq<SpecClosure>,
    trait_ref: SpecTraitRef,
    kind: TyKind,
    substitution: Seq<SpecTy>,
    binders: Seq<VariableKind>,
) -> Option<SpecClause> {
    match kind {
        TyKind::Tuple(arity) => if arity == 0 {
            Some(SpecClause::Fact(trait_ref))
        } else {
            Some(
                SpecClause::Conditional(
                    trait_ref,
                    spec_requirements(trait_ref.trait_id, substitution),
                ),
            )
        },
        TyKind::Array => Some(
            SpecClause::Conditional(
                trait_ref,
                spec_requirements(trait_ref.trait_id, seq![substitution[0]]),
            ),
        ),
        TyKind::FnPtr | TyKind::FnItem | TyKind::BareFn => Some(SpecClause::Fact(trait_ref)),
        TyKind::Closure(closure_id) => Some(
            SpecClause::Conditional(
                trait_ref,
                spec_requirements(
                    trait_ref.trait_id,
                    seq![capture_tuple(db[closure_id as int], substitution)],
                ),
            ),
        ),
        TyKind::Ref | TyKind::Raw | TyKind::Scalar | TyKind::Never | TyKind::Str => None,
        TyKind::Adt | TyKind::AssociatedType | TyKind::Slice | TyKind::OpaqueType
            | TyKind::Foreign | TyKind::Generator | TyKind::GeneratorWitness
            | TyKind::ErrorPlaceholder => None,
        TyKind::InferenceVar(var_kind) => match var_kind {
            TyVariableKind::Integer | TyVariableKind::Float => Some(SpecClause::Fact(trait_ref)),
            TyVariableKind::General => None,
        },
        TyKind::BoundVar(index) => match binders[index as int] {
            VariableKind::Ty(TyVariableKind::Integer) | VariableKind::Ty(TyVariableKind::Float) =>
                Some(SpecClause::Fact(trait_ref)),
            VariableKind::Ty(_) | VariableKind::Const | VariableKind::Lifetime => None,
        },
        TyKind::Alias | TyKind::Dyn | TyKind::Placeholder => None,
    }
}

/// The emission as a sequence: one clause, or none.
pub open spec fn emitted_clauses(
    db: Seq<SpecClosure>,
    trait_ref: SpecTraitRef,
    kind: TyKind,
    substitution: Seq<SpecTy>,
    binders: Seq<VariableKind>,
) -> Seq<SpecClause> {
    match emitted_clause(db, trait_ref, kind, substitution, binders) {
        Some(clause) => seq![clause],
        None => Seq::empty(),
    }
}

/// Pushes the clause a tuple of the given arity calls for: a fact for the
/// empty tuple, else one conditional clause requiring the capability on
/// each component.
pub fn push_tuple_copy_conditions(
    builder: &mut ClauseBuilder,
    trait_ref: &TraitRef,
    arity: usize,
    substitution: &Vec<Ty>,
)
    requires
        substitution@.len() == arity,
    ensures
        arity == 0 ==> final(builder)@ == old(builder)@.push(SpecClause::Fact(trait_ref@)),
        arity > 0 ==> final(builder)@ == old(builder)@.push(
            SpecClause::Conditional(
                trait_ref@,
                spec_requirements(trait_ref@.trait_id, tys_view(substitution@)),
            ),
        ),
{
    if arity == 0 {
        builder.push_fact(trait_ref);
        return ;
    }
    needs_impl_for_tys(builder, trait_ref, substitution);
}

/// Classifies one type shape for the copy capability and appends the
/// emission — exactly `emitted_clauses` of the inputs — to the builder.
pub fn add_copy_program_clauses(
    db: &TypeDatabase,
    builder: &mut ClauseBuilder,
    trait_ref: &TraitRef,
    ty: &TyKind,
    substitution: &Vec<Ty>,
    binders: &Vec<VariableKind>,
)
    requires
        inputs_wf(db@, *ty, tys_view(substitution@), binders@),
    ensures
        final(builder)@ == old(builder)@ + emitted_clauses(
            db@,
            trait_ref@,
            *ty,
            tys_view(substitution@),
            binders@,
        ),
{
    let ghost emission = emitted_clauses(db@, trait_ref@, *ty, tys_view(substitution@), binders@);
    match ty {
        TyKind::Tuple(arity) => {
            push_tuple_copy_conditions(builder, trait_ref, *arity, substitution);
            proof {
                assert(builder@ =~= old(builder)@ + emission);
            }
        },
        TyKind::Array => {
            let mut element: Vec<Ty> = Vec::new();
            element.push(clone_ty(&substitution[0]));
            needs_impl_for_tys(builder, trait_ref, &element);
            proof {
                assert(tys_view(element@) =~= seq![tys_view(substitution@)[0]]);
                assert(builder@ =~= old(builder)@ + emission);
            }
        },
        TyKind::FnPtr | TyKind::FnItem | TyKind::BareFn => {
            builder.push_fact(trait_ref);
            proof {
                assert(builder@ =~= old(builder)@ + emission);
            }
        },
        TyKind::Closure(closure_id) => {
            let closure_fn_substitution = db.closure_fn_substitution(*closure_id, substitution);
            let upvars = db.closure_upvars(*closure_id, substitution);
            let ghost c = db@[*closure_id as int];
            let mut captured: Vec<Ty> = Vec::new();
            let n = upvars.len();
            for i in 0..n
                invariant
                    n == upvars@.len(),
                    captured@.len() == i,
                    tys_view(upvars@) == c.captures,
                    tys_view(closure_fn_substitution@) == spec_fn_substitution(
                        c,
                        tys_view(substitution@),
                    ),
                    closure_wf(c, tys_view(substitution@).len() as int),
                    forall|k: int| 0 <= k < i
                        ==> #[trigger] captured@[k]@ == subst_ty(
                            c.captures[k],
                            spec_fn_substitution(c, tys_view(substitution@)),
                        ),
            {
                proof {
                    assert(tys_view(upvars@)[i as int] == upvars@[i as int]@);
                    assert(ty_wf(c.captures[i as int], c.internal_subst.len() as int));
                    assert(spec_fn_substitution(c, tys_view(substitution@)).len()
                        == c.internal_subst.len());
                }
                captured.push(substitute_ty(&upvars[i], &closure_fn_substitution));
            }
            let capture_tuple_ty = Ty::Tuple(captured);
            proof {
                lemma_tuple_view(captured);
                assert(tys_view(captured@) =~= Seq::new(
                    c.captures.len(),
                    |i: int| subst_ty(c.captures[i], spec_fn_substitution(c, tys_view(substitution@))),
                ));
            }
            let mut tuple_only: Vec<Ty> = Vec::new();
            tuple_only.push(capture_tuple_ty);
            needs_impl_for_tys(builder, trait_ref, &tuple_only);
            proof {
                assert(tys_view(tuple_only@) =~= seq![
                    capture_tuple(c, tys_view(substitution@)),
                ]);
                assert(builder@ =~= old(builder)@ + emission);
            }
        },
        TyKind::Ref | TyKind::Raw | TyKind::Scalar | TyKind::Never | TyKind::Str => {
            proof {
                assert(builder@ =~= old(builder)@ + emission);
            }
        },
        TyKind::Adt | TyKind::AssociatedType | TyKind::Slice | TyKind::OpaqueType
            | TyKind::Foreign | TyKind::Generator | TyKind::GeneratorWitness
            | TyKind::ErrorPlaceholder => {
            proof {
                assert(builder@ =~= old(builder)@ + emission);
            }
        },
        TyKind::InferenceVar(var_kind) => match var_kind {
            TyVariableKind::Integer | TyVariableKind::Float => {
                builder.push_fact(trait_ref);
                proof {
                    assert(builder@ =~= old(builder)@ + emission);
                }
            },
            TyVariableKind::General => {
                proof {
                    assert(builder@ =~= old(builder)@ + emission);
                }
            },
        },
        TyKind::BoundVar(index) => {
            let var_kind = binders[*index];
            match var_kind {
                VariableKind::Ty(TyVariableKind::Integer) | VariableKind::Ty(
                    TyVariableKind::Float,
                ) => {
                    builder.push_fact(trait_ref);
                    proof {
                        assert(builder@ =~= old(builder)@ + emission);
                    }
                },
                VariableKind::Ty(_) | VariableKind::Const | VariableKind::Lifetime => {
                    proof {
                        assert(builder@ =~= old(builder)@ + emission);
                    }
                },
            }
        },
        TyKind::Alias | TyKind::Dyn | TyKind::Placeholder => {
            proof {
                assert(builder@ =~= old(builder)@ + emission);
            }
        },
    }
}

} // verus!
