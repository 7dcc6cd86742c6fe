use copy_classifier::clauses::Clause;
use copy_classifier::clauses::ClauseBuilder;
use copy_classifier::clauses::TraitRef;
use copy_classifier::copy::add_copy_program_clauses;
use copy_classifier::copy::push_tuple_copy_conditions;
use copy_classifier::copy::TyKind;
use copy_classifier::copy::TyVariableKind;
use copy_classifier::copy::VariableKind;
use copy_classifier::db::ClosureData;
use copy_classifier::db::TypeDatabase;
use copy_classifier::ty::Ty;

fn capability(on: Ty) -> TraitRef {
    TraitRef {
        trait_id: 7,
        self_ty: on,
    }
}

fn classify(db: &TypeDatabase, kind: TyKind, substitution: Vec<Ty>, binders: Vec<VariableKind>) -> Vec<Clause> {
    let mut builder = ClauseBuilder::new();
    let trait_ref = capability(Ty::Named(0));
    add_copy_program_clauses(db, &mut builder, &trait_ref, &kind, &substitution, &binders);
    builder.clauses
}

fn subgoal(ty: Ty) -> TraitRef {
    TraitRef {
        trait_id: 7,
        self_ty: ty,
    }
}

#[test]
fn empty_tuple_emits_one_fact() {
    let db = TypeDatabase::new();
    let emitted = classify(&db, TyKind::Tuple(0), vec![], vec![]);
    assert_eq!(emitted, vec![Clause::Fact(capability(Ty::Named(0)))]);
}

#[test]
fn tuple_components_become_subgoals() {
    let db = TypeDatabase::new();
    let emitted = classify(
        &db,
        TyKind::Tuple(3),
        vec![Ty::Named(1), Ty::Named(2), Ty::Named(3)],
        vec![],
    );
    assert_eq!(
        emitted,
        vec![Clause::Conditional(
            capability(Ty::Named(0)),
            vec![subgoal(Ty::Named(1)), subgoal(Ty::Named(2)), subgoal(Ty::Named(3))],
        )]
    );
}

#[test]
fn array_requires_element_alone() {
    let db = TypeDatabase::new();
    let short = classify(&db, TyKind::Array, vec![Ty::Named(4)], vec![]);
    let long = classify(&db, TyKind::Array, vec![Ty::Named(4), Ty::Named(1000)], vec![]);
    let expected = vec![Clause::Conditional(
        capability(Ty::Named(0)),
        vec![subgoal(Ty::Named(4))],
    )];
    assert_eq!(short, expected);
    assert_eq!(long, expected);
}

#[test]
fn function_kinds_emit_facts() {
    let db = TypeDatabase::new();
    for kind in [TyKind::FnPtr, TyKind::FnItem, TyKind::BareFn] {
        let emitted = classify(&db, kind, vec![], vec![]);
        assert_eq!(emitted, vec![Clause::Fact(capability(Ty::Named(0)))]);
    }
}

#[test]
fn closure_requires_capture_tuple() {
    let mut db = TypeDatabase::new();
    let id = db.add_closure(ClosureData {
        captures: vec![Ty::Param(0), Ty::Param(1)],
        internal_subst: vec![Ty::Named(32), Ty::Named(64)],
        fn_params: vec![Ty::Named(9)],
        fn_ret: Ty::Named(10),
    });
    let emitted = classify(&db, TyKind::Closure(id), vec![], vec![]);
    assert_eq!(
        emitted,
        vec![Clause::Conditional(
            capability(Ty::Named(0)),
            vec![subgoal(Ty::Tuple(vec![Ty::Named(32), Ty::Named(64)]))],
        )]
    );
}

#[test]
fn closure_signature_does_not_enter() {
    let mut db1 = TypeDatabase::new();
    let id1 = db1.add_closure(ClosureData {
        captures: vec![Ty::Param(0), Ty::Param(1)],
        internal_subst: vec![Ty::Named(32), Ty::Named(64)],
        fn_params: vec![Ty::Named(9)],
        fn_ret: Ty::Named(10),
    });
    let mut db2 = TypeDatabase::new();
    let id2 = db2.add_closure(ClosureData {
        captures: vec![Ty::Param(0), Ty::Param(1)],
        internal_subst: vec![Ty::Named(32), Ty::Named(64)],
        fn_params: vec![Ty::Named(77), Ty::Named(78)],
        fn_ret: Ty::Named(79),
    });
    assert_eq!(id1, id2);
    let emitted1 = classify(&db1, TyKind::Closure(id1), vec![], vec![]);
    let emitted2 = classify(&db2, TyKind::Closure(id2), vec![], vec![]);
    assert_eq!(emitted1, emitted2);
}

#[test]
fn closure_captures_follow_outer_substitution() {
    let mut db = TypeDatabase::new();
    let id = db.add_closure(ClosureData {
        captures: vec![Ty::Param(0)],
        internal_subst: vec![Ty::Param(1)],
        fn_params: vec![],
        fn_ret: Ty::Named(0),
    });
    let emitted = classify(
        &db,
        TyKind::Closure(id),
        vec![Ty::Named(21), Ty::Named(22)],
        vec![],
    );
    assert_eq!(
        emitted,
        vec![Clause::Conditional(
            capability(Ty::Named(0)),
            vec![subgoal(Ty::Tuple(vec![Ty::Named(22)]))],
        )]
    );
}

#[test]
fn zero_capture_closure_requires_empty_tuple() {
    let mut db = TypeDatabase::new();
    let id = db.add_closure(ClosureData {
        captures: vec![],
        internal_subst: vec![],
        fn_params: vec![Ty::Named(1)],
        fn_ret: Ty::Named(2),
    });
    let emitted = classify(&db, TyKind::Closure(id), vec![], vec![]);
    assert_eq!(
        emitted,
        vec![Clause::Conditional(
            capability(Ty::Named(0)),
            vec![subgoal(Ty::Tuple(vec![]))],
        )]
    );
}

#[test]
fn library_governed_kinds_emit_nothing() {
    let db = TypeDatabase::new();
    for kind in [TyKind::Ref, TyKind::Raw, TyKind::Scalar, TyKind::Never, TyKind::Str] {
        let emitted = classify(&db, kind, vec![Ty::Named(1), Ty::Named(2)], vec![]);
        assert_eq!(emitted, vec![]);
    }
}

#[test]
fn externally_declared_kinds_emit_nothing() {
    let db = TypeDatabase::new();
    let kinds = [
        TyKind::Adt,
        TyKind::AssociatedType,
        TyKind::Slice,
        TyKind::OpaqueType,
        TyKind::Foreign,
        TyKind::Generator,
        TyKind::GeneratorWitness,
        TyKind::ErrorPlaceholder,
        TyKind::Alias,
        TyKind::Dyn,
        TyKind::Placeholder,
    ];
    for kind in kinds {
        assert_eq!(classify(&db, kind, vec![], vec![]), vec![]);
        let emitted = classify(&db, kind, vec![Ty::Named(5), Ty::Tuple(vec![Ty::Named(6)])], vec![]);
        assert_eq!(emitted, vec![]);
    }
}

#[test]
fn numeric_inference_variables_emit_facts() {
    let db = TypeDatabase::new();
    for sub in [TyVariableKind::Integer, TyVariableKind::Float] {
        let emitted = classify(&db, TyKind::InferenceVar(sub), vec![], vec![]);
        assert_eq!(emitted, vec![Clause::Fact(capability(Ty::Named(0)))]);
    }
}

#[test]
fn general_inference_variable_emits_nothing() {
    let db = TypeDatabase::new();
    let emitted = classify(&db, TyKind::InferenceVar(TyVariableKind::General), vec![], vec![]);
    assert_eq!(emitted, vec![]);
}

#[test]
fn bound_variable_goes_by_declared_kind() {
    let db = TypeDatabase::new();
    let fact = vec![Clause::Fact(capability(Ty::Named(0)))];
    let binders = vec![
        VariableKind::Ty(TyVariableKind::Integer),
        VariableKind::Ty(TyVariableKind::Float),
        VariableKind::Ty(TyVariableKind::General),
        VariableKind::Const,
        VariableKind::Lifetime,
    ];
    assert_eq!(classify(&db, TyKind::BoundVar(0), vec![], binders.clone()), fact);
    assert_eq!(classify(&db, TyKind::BoundVar(1), vec![], binders.clone()), fact);
    assert_eq!(classify(&db, TyKind::BoundVar(2), vec![], binders.clone()), vec![]);
    assert_eq!(classify(&db, TyKind::BoundVar(3), vec![], binders.clone()), vec![]);
    assert_eq!(classify(&db, TyKind::BoundVar(4), vec![], binders), vec![]);
}

#[test]
fn classification_is_idempotent() {
    let mut db = TypeDatabase::new();
    let id = db.add_closure(ClosureData {
        captures: vec![Ty::Param(0)],
        internal_subst: vec![Ty::Named(3)],
        fn_params: vec![],
        fn_ret: Ty::Named(0),
    });
    let kinds = [
        TyKind::Tuple(0),
        TyKind::Array,
        TyKind::Closure(id),
        TyKind::Scalar,
        TyKind::InferenceVar(TyVariableKind::Integer),
    ];
    for kind in kinds {
        let first = classify(&db, kind, vec![Ty::Named(1)], vec![]);
        let second = classify(&db, kind, vec![Ty::Named(1)], vec![]);
        assert_eq!(first, second);
    }
}

#[test]
fn emissions_append_in_call_order() {
    let db = TypeDatabase::new();
    let mut builder = ClauseBuilder::new();
    let trait_ref = capability(Ty::Named(0));
    let binders: Vec<VariableKind> = vec![];
    let empty: Vec<Ty> = vec![];
    add_copy_program_clauses(&db, &mut builder, &trait_ref, &TyKind::Scalar, &empty, &binders);
    add_copy_program_clauses(&db, &mut builder, &trait_ref, &TyKind::Tuple(0), &empty, &binders);
    add_copy_program_clauses(&db, &mut builder, &trait_ref, &TyKind::FnPtr, &empty, &binders);
    assert_eq!(
        builder.clauses,
        vec![
            Clause::Fact(capability(Ty::Named(0))),
            Clause::Fact(capability(Ty::Named(0))),
        ]
    );
}

#[test]
fn tuple_helper_special_cases_zero_arity() {
    let mut builder = ClauseBuilder::new();
    let trait_ref = capability(Ty::Named(0));
    let empty: Vec<Ty> = vec![];
    push_tuple_copy_conditions(&mut builder, &trait_ref, 0, &empty);
    let components = vec![Ty::Named(8), Ty::Named(9)];
    push_tuple_copy_conditions(&mut builder, &trait_ref, 2, &components);
    assert_eq!(
        builder.clauses,
        vec![
            Clause::Fact(capability(Ty::Named(0))),
            Clause::Conditional(
                capability(Ty::Named(0)),
                vec![subgoal(Ty::Named(8)), subgoal(Ty::Named(9))],
            ),
        ]
    );
}
