use copy_classifier::clauses::clone_trait_ref;
use copy_classifier::clauses::Clause;
use copy_classifier::clauses::ClauseBuilder;
use copy_classifier::clauses::needs_impl_for_tys;
use copy_classifier::clauses::TraitRef;
use copy_classifier::db::ClosureData;
use copy_classifier::db::TypeDatabase;
use copy_classifier::ty::clone_ty;
use copy_classifier::ty::clone_tys;
use copy_classifier::ty::substitute_ty;
use copy_classifier::ty::Ty;

#[test]
fn substitution_replaces_parameters() {
    let ty = Ty::Tuple(vec![Ty::Param(0), Ty::Named(5), Ty::Tuple(vec![Ty::Param(1)])]);
    let substitution = vec![Ty::Named(1), Ty::Named(2)];
    let substituted = substitute_ty(&ty, &substitution);
    assert_eq!(
        substituted,
        Ty::Tuple(vec![Ty::Named(1), Ty::Named(5), Ty::Tuple(vec![Ty::Named(2)])])
    );
}

#[test]
fn substitution_leaves_named_types_alone() {
    let ty = Ty::Named(11);
    let substitution = vec![Ty::Named(1)];
    assert_eq!(substitute_ty(&ty, &substitution), Ty::Named(11));
}

#[test]
fn cloning_preserves_structure() {
    let ty = Ty::Tuple(vec![Ty::Named(1), Ty::Tuple(vec![Ty::Param(0)])]);
    assert_eq!(clone_ty(&ty), ty);
    let tys = vec![Ty::Named(2), Ty::Param(3)];
    assert_eq!(clone_tys(&tys), tys);
    let trait_ref = TraitRef {
        trait_id: 4,
        self_ty: Ty::Named(6),
    };
    assert_eq!(clone_trait_ref(&trait_ref), trait_ref);
}

#[test]
fn builder_records_pushes_in_order() {
    let mut builder = ClauseBuilder::new();
    assert_eq!(builder.clauses, vec![]);
    let head = TraitRef {
        trait_id: 1,
        self_ty: Ty::Named(2),
    };
    builder.push_fact(&head);
    builder.push_conditional(
        &head,
        vec![TraitRef {
            trait_id: 1,
            self_ty: Ty::Named(3),
        }],
    );
    assert_eq!(
        builder.clauses,
        vec![
            Clause::Fact(TraitRef {
                trait_id: 1,
                self_ty: Ty::Named(2),
            }),
            Clause::Conditional(
                TraitRef {
                    trait_id: 1,
                    self_ty: Ty::Named(2),
                },
                vec![TraitRef {
                    trait_id: 1,
                    self_ty: Ty::Named(3),
                }],
            ),
        ]
    );
}

#[test]
fn requirement_builder_keeps_list_order() {
    let mut builder = ClauseBuilder::new();
    let head = TraitRef {
        trait_id: 9,
        self_ty: Ty::Named(0),
    };
    let components = vec![Ty::Named(3), Ty::Named(1), Ty::Named(2)];
    needs_impl_for_tys(&mut builder, &head, &components);
    let subgoal_types: Vec<Ty> = match &builder.clauses[0] {
        Clause::Conditional(_, subgoals) => subgoals.iter().map(|s| clone_ty(&s.self_ty)).collect(),
        Clause::Fact(_) => panic!("expected a conditional clause"),
    };
    assert_eq!(subgoal_types, components);
}

#[test]
fn database_queries_read_the_record() {
    let mut db = TypeDatabase::new();
    let id = db.add_closure(ClosureData {
        captures: vec![Ty::Param(0), Ty::Param(1)],
        internal_subst: vec![Ty::Param(0), Ty::Named(5)],
        fn_params: vec![],
        fn_ret: Ty::Named(0),
    });
    assert_eq!(id, 0);
    let outer = vec![Ty::Named(9)];
    let upvars = db.closure_upvars(id, &outer);
    assert_eq!(upvars, vec![Ty::Param(0), Ty::Param(1)]);
    let induced = db.closure_fn_substitution(id, &outer);
    assert_eq!(induced, vec![Ty::Named(9), Ty::Named(5)]);
}
