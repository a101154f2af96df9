use dhall::context::{EnvItem, TypecheckContext, Univ};
use dhall::typecheck::function_check;
use dhall::term::{AltList, BinOp, Builtin, Const, FieldList, Label, OpKind, Term, TermList, V};
use dhall::typecheck::{Resolved, TypeMessage, Typed};

fn lbl(s: &str) -> Label {
    Label::from_str(s)
}

fn var(s: &str) -> Term {
    Term::Var(V(lbl(s), 0))
}

fn lam(x: &str, ty: Term, body: Term) -> Term {
    Term::Lam(lbl(x), Box::new(ty), Box::new(body))
}

fn pi(x: &str, a: Term, b: Term) -> Term {
    Term::Pi(lbl(x), Box::new(a), Box::new(b))
}

fn app(f: Term, a: Term) -> Term {
    Term::App(Box::new(f), Box::new(a))
}

fn bi(b: Builtin) -> Term {
    Term::Builtin(b)
}

fn ty_of(t: Term) -> Term {
    let typed = Resolved(t).typecheck().expect("expected the term to typecheck");
    typed.ty.expect("a checked term carries its type")
}

fn err_of(t: Term) -> TypeMessage {
    Resolved(t).typecheck().err().expect("expected a type error").type_message
}

#[test]
fn identity_lambda_types_as_pi() {
    // \(x : Bool) -> x  has type  forall(x : Bool) -> Bool
    let ty = ty_of(lam("x", bi(Builtin::Bool), var("x")));
    let expected = pi("x", bi(Builtin::Bool), bi(Builtin::Bool));
    assert!(dhall::alpha::alpha_eq(&ty, &expected));
}

#[test]
fn let_with_annotation_types_as_body() {
    // let x : Natural = 1 in x  has type  Natural
    let t = Term::Let(
        lbl("x"),
        Some(Box::new(bi(Builtin::Natural))),
        Box::new(Term::NaturalLit(1)),
        Box::new(var("x")),
    );
    assert_eq!(ty_of(t), bi(Builtin::Natural));
}

#[test]
fn wrong_argument_is_a_type_mismatch() {
    // (\(x : Natural) -> x) True  fails with TypeMismatch
    let t = app(lam("x", bi(Builtin::Natural), var("x")), Term::BoolLit(true));
    assert!(matches!(err_of(t), TypeMessage::TypeMismatch(_, _, _)));
}

#[test]
fn empty_list_with_annotation() {
    // [] : List Natural  has type  List Natural
    let t = Term::EmptyListLit(Box::new(bi(Builtin::Natural)));
    assert_eq!(ty_of(t), app(bi(Builtin::List), bi(Builtin::Natural)));
}

#[test]
fn record_literal_types_fieldwise() {
    // { a = 1, b = True }  has type  { a : Natural, b : Bool }
    let t = Term::RecordLit(Box::new(FieldList::Cons(
        lbl("a"),
        Term::NaturalLit(1),
        Box::new(FieldList::Cons(
            lbl("b"),
            Term::BoolLit(true),
            Box::new(FieldList::Nil),
        )),
    )));
    let expected = Term::RecordType(Box::new(FieldList::Cons(
        lbl("a"),
        bi(Builtin::Natural),
        Box::new(FieldList::Cons(
            lbl("b"),
            bi(Builtin::Bool),
            Box::new(FieldList::Nil),
        )),
    )));
    assert_eq!(ty_of(t), expected);
}

#[test]
fn if_with_boolean_scrutinee() {
    // if True then 1 else 2  has type  Natural
    let t = Term::Op(Box::new(OpKind::BoolIf(
        Term::BoolLit(true),
        Term::NaturalLit(1),
        Term::NaturalLit(2),
    )));
    assert_eq!(ty_of(t), bi(Builtin::Natural));
}

#[test]
fn if_with_numeric_scrutinee_is_rejected() {
    // if 1 then 2 else 3  fails with InvalidPredicate
    let t = Term::Op(Box::new(OpKind::BoolIf(
        Term::NaturalLit(1),
        Term::NaturalLit(2),
        Term::NaturalLit(3),
    )));
    assert!(matches!(err_of(t), TypeMessage::InvalidPredicate(_)));
}

#[test]
fn polymorphic_identity_type_lives_in_type() {
    // forall(x : Type) -> x -> x  has type  Type
    let t = pi(
        "x",
        Term::Const(Const::Type),
        pi("_", var("x"), var("x")),
    );
    assert_eq!(ty_of(t), Term::Const(Const::Type));
}

#[test]
fn kind_polymorphism_reaches_sort() {
    // forall(x : Kind) -> x  has type  Sort
    let t = pi("x", Term::Const(Const::Kind), var("x"));
    assert_eq!(ty_of(t), Term::Const(Const::Sort));
}

#[test]
fn sort_domain_is_an_invalid_input_type() {
    // forall(x : Sort) -> x  fails: there is no universe above Sort
    let t = pi("x", Term::Const(Const::Sort), var("x"));
    assert!(matches!(err_of(t), TypeMessage::InvalidInputType(_)));
}

#[test]
fn dependency_needed_by_hurkens_paradox_is_rejected() {
    // The impredicative function space the paradox construction needs,
    // a term-level domain with a kind-level codomain, fails function
    // formation with NoDependentTypes instead of looping.
    let t = pi("x", Term::Const(Const::Type), Term::Const(Const::Kind));
    assert!(matches!(err_of(t), TypeMessage::NoDependentTypes(_, _)));
}

#[test]
fn sort_itself_has_no_observable_type() {
    assert!(matches!(err_of(Term::Const(Const::Sort)), TypeMessage::Untyped));
}

#[test]
fn unbound_variable_is_reported() {
    assert!(matches!(err_of(var("x")), TypeMessage::UnboundVariable(_)));
}

#[test]
fn applying_a_non_function_is_rejected() {
    let t = app(Term::NaturalLit(1), Term::NaturalLit(2));
    assert!(matches!(err_of(t), TypeMessage::NotAFunction(_)));
}

#[test]
fn wrong_annotation_is_rejected() {
    let t = Term::Annot(Box::new(Term::NaturalLit(1)), Box::new(bi(Builtin::Bool)));
    assert!(matches!(err_of(t), TypeMessage::AnnotMismatch(_, _)));
}

#[test]
fn annotated_term_returns_inferred_type() {
    let t = Term::Annot(Box::new(Term::NaturalLit(1)), Box::new(bi(Builtin::Natural)));
    assert_eq!(ty_of(t), bi(Builtin::Natural));
}

#[test]
fn list_elements_must_share_their_type() {
    let t = Term::NEListLit(Box::new(TermList::Cons(
        Term::NaturalLit(1),
        Box::new(TermList::Cons(Term::BoolLit(true), Box::new(TermList::Nil))),
    )));
    assert!(matches!(err_of(t), TypeMessage::InvalidListElement(1, _, _)));
}

#[test]
fn homogeneous_list_types_as_list() {
    let t = Term::NEListLit(Box::new(TermList::Cons(
        Term::NaturalLit(1),
        Box::new(TermList::Cons(Term::NaturalLit(2), Box::new(TermList::Nil))),
    )));
    assert_eq!(ty_of(t), app(bi(Builtin::List), bi(Builtin::Natural)));
}

#[test]
fn empty_list_of_terms_is_an_invalid_list_type() {
    let t = Term::EmptyListLit(Box::new(Term::NaturalLit(1)));
    assert!(matches!(err_of(t), TypeMessage::InvalidListType(_)));
}

#[test]
fn some_wraps_into_optional() {
    let t = Term::SomeLit(Box::new(Term::BoolLit(false)));
    assert_eq!(ty_of(t), app(bi(Builtin::Optional), bi(Builtin::Bool)));
}

#[test]
fn some_of_a_type_is_rejected() {
    let t = Term::SomeLit(Box::new(bi(Builtin::Natural)));
    assert!(matches!(err_of(t), TypeMessage::InvalidOptionalType(_)));
}

#[test]
fn missing_record_field_is_reported() {
    let rec = Term::RecordLit(Box::new(FieldList::Cons(
        lbl("a"),
        Term::NaturalLit(1),
        Box::new(FieldList::Nil),
    )));
    let t = Term::Op(Box::new(OpKind::Field(rec, lbl("b"))));
    assert!(matches!(err_of(t), TypeMessage::MissingRecordField(_, _)));
}

#[test]
fn field_of_a_record_projects_its_type() {
    let rec = Term::RecordLit(Box::new(FieldList::Cons(
        lbl("a"),
        Term::NaturalLit(1),
        Box::new(FieldList::Nil),
    )));
    let t = Term::Op(Box::new(OpKind::Field(rec, lbl("a"))));
    assert_eq!(ty_of(t), bi(Builtin::Natural));
}

#[test]
fn field_of_a_number_is_not_a_record() {
    let t = Term::Op(Box::new(OpKind::Field(Term::NaturalLit(1), lbl("a"))));
    assert!(matches!(err_of(t), TypeMessage::NotARecord(_, _)));
}

#[test]
fn union_constructor_is_a_function_into_the_union() {
    // < A : Natural >.A  has type  forall(A : Natural) -> < A : Natural >
    let union = Term::UnionType(Box::new(AltList::Cons(
        lbl("A"),
        Some(bi(Builtin::Natural)),
        Box::new(AltList::Nil),
    )));
    let t = Term::Op(Box::new(OpKind::Field(union.dup(), lbl("A"))));
    let ty = ty_of(t);
    match ty {
        Term::Pi(_, dom, cod) => {
            assert_eq!(*dom, bi(Builtin::Natural));
            assert_eq!(*cod, union);
        }
        other => panic!("expected a constructor type, got {:?}", other),
    }
}

#[test]
fn missing_union_alternative_is_reported() {
    let union = Term::UnionType(Box::new(AltList::Cons(
        lbl("A"),
        Some(bi(Builtin::Natural)),
        Box::new(AltList::Nil),
    )));
    let t = Term::Op(Box::new(OpKind::Field(union, lbl("B"))));
    assert!(matches!(err_of(t), TypeMessage::MissingUnionField(_, _)));
}

#[test]
fn mixed_universe_record_is_rejected() {
    // { a : Natural, b : Type } mixes Type- and Kind-level fields
    let t = Term::RecordType(Box::new(FieldList::Cons(
        lbl("a"),
        bi(Builtin::Natural),
        Box::new(FieldList::Cons(
            lbl("b"),
            Term::Const(Const::Type),
            Box::new(FieldList::Nil),
        )),
    )));
    assert!(matches!(err_of(t), TypeMessage::InvalidFieldType(_, _)));
}

#[test]
fn empty_record_type_lives_in_type() {
    assert_eq!(ty_of(Term::RecordType(Box::new(FieldList::Nil))), Term::Const(Const::Type));
}

#[test]
fn empty_record_literal_has_empty_record_type() {
    assert_eq!(
        ty_of(Term::RecordLit(Box::new(FieldList::Nil))),
        Term::RecordType(Box::new(FieldList::Nil))
    );
}

#[test]
fn boolean_operands_are_demanded() {
    let t = Term::Op(Box::new(OpKind::BinOp(
        BinOp::BoolAnd,
        Term::NaturalLit(1),
        Term::BoolLit(true),
    )));
    assert!(matches!(err_of(t), TypeMessage::BinOpTypeMismatch(BinOp::BoolAnd, _)));
}

#[test]
fn natural_addition_types_as_natural() {
    let t = Term::Op(Box::new(OpKind::BinOp(
        BinOp::NaturalPlus,
        Term::NaturalLit(1),
        Term::NaturalLit(2),
    )));
    assert_eq!(ty_of(t), bi(Builtin::Natural));
}

#[test]
fn merge_is_not_yet_covered() {
    let t = Term::Op(Box::new(OpKind::Merge(
        Term::RecordLit(Box::new(FieldList::Nil)),
        Term::NaturalLit(1),
        None,
    )));
    assert!(matches!(err_of(t), TypeMessage::Unimplemented));
}

#[test]
fn if_branches_must_agree() {
    let t = Term::Op(Box::new(OpKind::BoolIf(
        Term::BoolLit(true),
        Term::NaturalLit(1),
        Term::BoolLit(false),
    )));
    assert!(matches!(err_of(t), TypeMessage::IfBranchMismatch(_, _)));
}

#[test]
fn if_branches_must_be_terms() {
    let t = Term::Op(Box::new(OpKind::BoolIf(
        Term::BoolLit(true),
        bi(Builtin::Natural),
        bi(Builtin::Natural),
    )));
    assert!(matches!(err_of(t), TypeMessage::IfBranchMustBeTerm(true, _)));
}

#[test]
fn lambda_body_must_have_a_const_typed_type() {
    // \(x : Type) -> Kind: the body's type Sort has no constant type
    let t = lam("x", Term::Const(Const::Type), Term::Const(Const::Kind));
    assert!(matches!(err_of(t), TypeMessage::InvalidOutputType(_)));
}

#[test]
fn inferred_types_come_out_normal() {
    // the inferred type equals its own normal form (an instance of the
    // normality invariant on inferred types)
    let t = app(
        lam("x", bi(Builtin::Natural), var("x")),
        Term::NaturalLit(5),
    );
    let ty = ty_of(t);
    let renorm = Resolved(ty.dup()).skip_typecheck().normalize();
    assert!(dhall::alpha::alpha_eq(&ty, &renorm.term));
}

#[test]
fn annotation_succeeds_exactly_on_the_inferred_type() {
    // typecheck (e : ann) succeeds iff typecheck e gives an
    // alpha-equivalent type (an instance of the annotation law)
    let e = Term::NaturalLit(1);
    let good = Term::Annot(Box::new(e.dup()), Box::new(bi(Builtin::Natural)));
    let bad = Term::Annot(Box::new(e), Box::new(bi(Builtin::Bool)));
    assert!(Resolved(good).typecheck().is_ok());
    assert!(Resolved(bad).typecheck().is_err());
}

#[test]
fn substitution_commutes_with_typing_on_an_instance() {
    // with b = x under x : Natural and a = 1: substituting and then
    // typing agrees with typing and then substituting
    let b = var("x");
    let a = Term::NaturalLit(1);
    let substituted = dhall::subst::subst_shift(&V(lbl("x"), 0), &a, &b);
    assert_eq!(ty_of(substituted), bi(Builtin::Natural));
}

#[test]
fn normalisation_preserves_the_type_on_an_instance() {
    let e = app(
        lam("x", bi(Builtin::Natural), var("x")),
        Term::NaturalLit(7),
    );
    let before = ty_of(e.dup());
    let normal = Resolved(e).skip_typecheck().normalize().term;
    assert_eq!(normal, Term::NaturalLit(7));
    let after = ty_of(Term::NaturalLit(7));
    assert!(dhall::alpha::alpha_eq(&before, &after));
}

#[test]
fn typecheck_with_checks_against_the_expected_type() {
    let typed: Typed = Resolved(Term::NaturalLit(3))
        .typecheck_with(&dhall::typecheck::Type(bi(Builtin::Natural)))
        .expect("annotation holds");
    assert_eq!(typed.ty, Some(bi(Builtin::Natural)));
    assert!(Resolved(Term::NaturalLit(3))
        .typecheck_with(&dhall::typecheck::Type(bi(Builtin::Bool)))
        .is_err());
}

#[test]
fn skip_typecheck_loses_the_type() {
    let typed = Resolved(Term::NaturalLit(1)).skip_typecheck();
    assert!(typed.ty.is_none());
    assert!(matches!(
        typed.get_type_move(),
        Err(e) if matches!(e.type_message, TypeMessage::Untyped)
    ));
}

#[test]
fn builtin_schema_of_natural_fold() {
    // Natural/fold : Natural -> forall(natural : Type) ->
    //   forall(succ : natural -> natural) -> forall(zero : natural) -> natural
    let natural = || Term::Var(V(Label::from_str("natural"), 0));
    let expected = pi(
        "_",
        bi(Builtin::Natural),
        pi(
            "natural",
            Term::Const(Const::Type),
            pi(
                "succ",
                pi("_", natural(), natural()),
                pi("zero", natural(), natural()),
            ),
        ),
    );
    assert_eq!(ty_of(bi(Builtin::NaturalFold)), expected);
}

#[test]
fn let_shadowing_respects_indices() {
    // let x = 1 in let x = True in x@1  has type  Natural
    let inner = Term::Let(
        lbl("x"),
        None,
        Box::new(Term::BoolLit(true)),
        Box::new(Term::Var(V(lbl("x"), 1))),
    );
    let t = Term::Let(lbl("x"), None, Box::new(Term::NaturalLit(1)), Box::new(inner));
    assert_eq!(ty_of(t), bi(Builtin::Natural));
}

#[test]
fn function_check_follows_the_axiom_table() {
    assert_eq!(function_check(Const::Type, Const::Type), Ok(Const::Type));
    assert_eq!(function_check(Const::Kind, Const::Type), Ok(Const::Type));
    assert_eq!(function_check(Const::Kind, Const::Kind), Ok(Const::Kind));
    assert_eq!(function_check(Const::Sort, Const::Kind), Ok(Const::Sort));
    assert_eq!(function_check(Const::Sort, Const::Sort), Ok(Const::Sort));
    assert_eq!(function_check(Const::Type, Const::Kind), Err(()));
}

#[test]
fn context_lookup_finds_the_nth_binding() {
    let ctx = TypecheckContext::new()
        .insert_type(&lbl("x"), &bi(Builtin::Natural), Const::Type)
        .insert_type(&lbl("x"), &bi(Builtin::Bool), Const::Type);
    match ctx.lookup(&V(lbl("x"), 0)) {
        Some(EnvItem::TyBind(t, Const::Type)) => assert_eq!(t, bi(Builtin::Bool)),
        other => panic!("unexpected binding {:?}", other),
    }
    match ctx.lookup(&V(lbl("x"), 1)) {
        Some(EnvItem::TyBind(t, Const::Type)) => assert_eq!(t, bi(Builtin::Natural)),
        other => panic!("unexpected binding {:?}", other),
    }
    assert!(ctx.lookup(&V(lbl("y"), 0)).is_none());
}

#[test]
fn value_bindings_report_the_value_type() {
    let ctx = TypecheckContext::new().insert_value(
        &lbl("x"),
        &Term::NaturalLit(1),
        &bi(Builtin::Natural),
        &Univ::Of(Const::Type),
    );
    match ctx.lookup(&V(lbl("x"), 0)) {
        Some(EnvItem::ValBind(v, t, Univ::Of(Const::Type))) => {
            assert_eq!(v, Term::NaturalLit(1));
            assert_eq!(t, bi(Builtin::Natural));
        }
        other => panic!("unexpected binding {:?}", other),
    }
}

#[test]
fn error_descriptions_follow_the_kind() {
    assert_eq!(
        TypeMessage::NotAFunction(Term::NaturalLit(1)).description(),
        "Not a function"
    );
    assert_eq!(TypeMessage::Unimplemented.description(), "Unhandled error");
}
