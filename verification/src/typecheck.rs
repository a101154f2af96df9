//! The typing judgement: bidirectional inference over the term structure.
//!
//! Given a context and a term, inference produces the term's type in
//! normal form together with that type's own type (always a universe
//! constant or the `SuperType` sentinel), or the first type error.  The
//! judgement interleaves typing with normalisation and alpha-equivalence,
//! so its recursion is bounded by the same kind of explicit fuel as the
//! normaliser; fuel is spent only where a rule typechecks a term it has
//! itself constructed (the substituted codomain of an application, a field
//! type taken out of a record type), never on walking the input.

use vstd::prelude::*;

use crate::alpha::{alpha_eq, alpha_eq_s, PairList};
use crate::context::{
    insert_type_s, insert_value_s, lookup_s, CtxList, EnvItem, TypecheckContext, Univ,
};
use crate::normalize::{norm_s, normalize};
use crate::term::{
    label_of, AltList, BinOp, Builtin, Const, FieldList, Label, OpKind, Term, TermList,
    TextPieces, V,
};

verus! {

/// The specific type error, with the terms needed to render it.
#[derive(Debug, PartialEq, Eq)]
pub enum TypeMessage {
    UnboundVariable(V),
    InvalidInputType(Term),
    InvalidOutputType(Term),
    NotAFunction(Term),
    TypeMismatch(Term, Term, Term),
    AnnotMismatch(Term, Term),
    Untyped,
    InvalidListElement(u64, Term, Term),
    InvalidListType(Term),
    InvalidOptionalType(Term),
    InvalidPredicate(Term),
    IfBranchMismatch(Term, Term),
    IfBranchMustBeTerm(bool, Term),
    InvalidFieldType(Label, Term),
    NotARecord(Label, Term),
    MissingRecordField(Label, Term),
    MissingUnionField(Label, Term),
    BinOpTypeMismatch(BinOp, Term),
    NoDependentTypes(Term, Term),
    Unimplemented,
}

impl TypeMessage {
    /// A short description of the error kind.
    pub fn description(&self) -> (r: &'static str)
        ensures
            r@ == match self {
                TypeMessage::InvalidInputType(_) => "Invalid function input"@,
                TypeMessage::InvalidOutputType(_) => "Invalid function output"@,
                TypeMessage::NotAFunction(_) => "Not a function"@,
                TypeMessage::TypeMismatch(_, _, _) => "Wrong type of function argument"@,
                _ => "Unhandled error"@,
            },
    {
        match self {
            TypeMessage::InvalidInputType(_) => "Invalid function input",
            TypeMessage::InvalidOutputType(_) => "Invalid function output",
            TypeMessage::NotAFunction(_) => "Not a function",
            TypeMessage::TypeMismatch(_, _, _) => "Wrong type of function argument",
            _ => "Unhandled error",
        }
    }
}

/// A structured type error: the failure kind, the offending subterm, and
/// the context it was reached in.
#[derive(Debug, PartialEq, Eq)]
pub struct TypeError {
    pub context: TypecheckContext,
    pub current: Term,
    pub type_message: TypeMessage,
}

impl TypeError {
    /// Package a failure kind with the subterm and context it arose in.
    pub fn new(context: &TypecheckContext, current: Term, type_message: TypeMessage) -> (r:
        TypeError)
        ensures
            r.context == *context,
            r.current == current,
            r.type_message == type_message,
    {
        TypeError { context: context.dup(), current, type_message }
    }
}

/// The outcome of inference: the sentinel alone (the term was `Sort`), or
/// a normal-form type together with that type's own type.
#[derive(Debug, PartialEq, Eq)]
pub enum Inferred {
    SuperType,
    Ty(Term, Univ),
}

/// The axiom table for function formation: the universe of
/// `forall(x : A) -> B` from the universes of `A` and `B`, or none where
/// the system admits no such function space.
pub open spec fn function_check_s(a: Const, b: Const) -> Option<Const> {
    match (a, b) {
        (_, Const::Type) => Option::Some(Const::Type),
        (Const::Kind, Const::Kind) => Option::Some(Const::Kind),
        (Const::Sort, Const::Sort) => Option::Some(Const::Sort),
        (Const::Sort, Const::Kind) => Option::Some(Const::Sort),
        _ => Option::None,
    }
}

/// `function_check(a, b)`: the universe of a function space, or an error.
pub fn function_check(a: Const, b: Const) -> (r: Result<Const, ()>)
    ensures
        r == match function_check_s(a, b) {
            Option::Some(k) => Result::<Const, ()>::Ok(k),
            Option::None => Result::<Const, ()>::Err(()),
        },
{
    match (a, b) {
        (_, Const::Type) => Result::Ok(Const::Type),
        (Const::Kind, Const::Kind) => Result::Ok(Const::Kind),
        (Const::Sort, Const::Sort) => Result::Ok(Const::Sort),
        (Const::Sort, Const::Kind) => Result::Ok(Const::Sort),
        _ => Result::Err(()),
    }
}

/// The type of a universe constant: `Type : Kind`, `Kind : Sort`, and the
/// sentinel above `Sort`.
pub open spec fn type_of_const_s(c: Const) -> Inferred {
    match c {
        Const::Type => Inferred::Ty(Term::Const(Const::Kind), Univ::Of(Const::Sort)),
        Const::Kind => Inferred::Ty(Term::Const(Const::Sort), Univ::SuperType),
        Const::Sort => Inferred::SuperType,
    }
}

/// `type_of_const(c)`: the type of a universe constant.
pub fn type_of_const(c: Const) -> (r: Inferred)
    ensures
        r == type_of_const_s(c),
{
    match c {
        Const::Type => Inferred::Ty(Term::Const(Const::Kind), Univ::Of(Const::Sort)),
        Const::Kind => Inferred::Ty(Term::Const(Const::Sort), Univ::SuperType),
        Const::Sort => Inferred::SuperType,
    }
}

/// `forall(x : a) -> b`.
pub open spec fn pi_s(x: Label, a: Term, b: Term) -> Term {
    Term::Pi(x, Box::new(a), Box::new(b))
}

/// `f a`.
pub open spec fn app_s(f: Term, a: Term) -> Term {
    Term::App(Box::new(f), Box::new(a))
}

/// The variable `x` (index 0).
pub open spec fn var0_s(x: Label) -> Term {
    Term::Var(V(x, 0))
}

/// The fixed, closed, normal-form type schema of each builtin.
pub open spec fn type_of_builtin_s(b: Builtin) -> Term {
    let us = label_of("_"@);
    let natural = label_of("natural"@);
    let succ = label_of("succ"@);
    let zero = label_of("zero"@);
    let a = label_of("a"@);
    let list = label_of("list"@);
    let cons = label_of("cons"@);
    let nil = label_of("nil"@);
    let optional = label_of("optional"@);
    let just = label_of("just"@);
    let nothing = label_of("nothing"@);
    let natty = Term::Builtin(Builtin::Natural);
    let ty = Term::Const(Const::Type);
    match b {
        Builtin::Bool => ty,
        Builtin::Natural => ty,
        Builtin::Integer => ty,
        Builtin::Double => ty,
        Builtin::Text => ty,
        Builtin::List => pi_s(us, ty, Term::Const(Const::Type)),
        Builtin::Optional => pi_s(us, ty, Term::Const(Const::Type)),
        Builtin::NaturalFold => pi_s(
            us,
            natty,
            pi_s(
                natural,
                ty,
                pi_s(
                    succ,
                    pi_s(us, var0_s(natural), var0_s(natural)),
                    pi_s(zero, var0_s(natural), var0_s(natural)),
                ),
            ),
        ),
        Builtin::NaturalBuild => pi_s(
            us,
            pi_s(
                natural,
                ty,
                pi_s(
                    succ,
                    pi_s(us, var0_s(natural), var0_s(natural)),
                    pi_s(zero, var0_s(natural), var0_s(natural)),
                ),
            ),
            natty,
        ),
        Builtin::NaturalIsZero => pi_s(us, natty, Term::Builtin(Builtin::Bool)),
        Builtin::NaturalEven => pi_s(us, natty, Term::Builtin(Builtin::Bool)),
        Builtin::NaturalOdd => pi_s(us, natty, Term::Builtin(Builtin::Bool)),
        Builtin::ListBuild => pi_s(
            a,
            ty,
            pi_s(
                us,
                pi_s(
                    list,
                    ty,
                    pi_s(
                        cons,
                        pi_s(us, var0_s(a), pi_s(us, var0_s(list), var0_s(list))),
                        pi_s(nil, var0_s(list), var0_s(list)),
                    ),
                ),
                app_s(Term::Builtin(Builtin::List), var0_s(a)),
            ),
        ),
        Builtin::ListFold => pi_s(
            a,
            ty,
            pi_s(
                us,
                app_s(Term::Builtin(Builtin::List), var0_s(a)),
                pi_s(
                    list,
                    ty,
                    pi_s(
                        cons,
                        pi_s(us, var0_s(a), pi_s(us, var0_s(list), var0_s(list))),
                        pi_s(nil, var0_s(list), var0_s(list)),
                    ),
                ),
            ),
        ),
        Builtin::ListLength => pi_s(
            a,
            ty,
            pi_s(us, app_s(Term::Builtin(Builtin::List), var0_s(a)), natty),
        ),
        Builtin::ListHead => pi_s(
            a,
            ty,
            pi_s(
                us,
                app_s(Term::Builtin(Builtin::List), var0_s(a)),
                app_s(Term::Builtin(Builtin::Optional), var0_s(a)),
            ),
        ),
        Builtin::ListLast => pi_s(
            a,
            ty,
            pi_s(
                us,
                app_s(Term::Builtin(Builtin::List), var0_s(a)),
                app_s(Term::Builtin(Builtin::Optional), var0_s(a)),
            ),
        ),
        Builtin::ListIndexed => pi_s(
            a,
            ty,
            pi_s(
                us,
                app_s(Term::Builtin(Builtin::List), var0_s(a)),
                app_s(
                    Term::Builtin(Builtin::List),
                    Term::RecordType(
                        Box::new(
                            FieldList::Cons(
                                label_of("index"@),
                                Term::Builtin(Builtin::Natural),
                                Box::new(
                                    FieldList::Cons(
                                        label_of("value"@),
                                        var0_s(a),
                                        Box::new(FieldList::Nil),
                                    ),
                                ),
                            ),
                        ),
                    ),
                ),
            ),
        ),
        Builtin::ListReverse => pi_s(
            a,
            ty,
            pi_s(
                us,
                app_s(Term::Builtin(Builtin::List), var0_s(a)),
                app_s(Term::Builtin(Builtin::List), var0_s(a)),
            ),
        ),
        Builtin::OptionalFold => pi_s(
            a,
            ty,
            pi_s(
                us,
                app_s(Term::Builtin(Builtin::Optional), var0_s(a)),
                pi_s(
                    optional,
                    ty,
                    pi_s(
                        just,
                        pi_s(us, var0_s(a), var0_s(optional)),
                        pi_s(nothing, var0_s(optional), var0_s(optional)),
                    ),
                ),
            ),
        ),
        Builtin::OptionalNone => pi_s(
            a,
            ty,
            app_s(Term::Builtin(Builtin::Optional), var0_s(a)),
        ),
    }
}

/// The universe of a builtin's schema: the type builtins live in `Kind`,
/// everything else is a term-level function type in `Type`.
pub open spec fn univ_of_builtin_s(b: Builtin) -> Const {
    match b {
        Builtin::Bool => Const::Kind,
        Builtin::Natural => Const::Kind,
        Builtin::Integer => Const::Kind,
        Builtin::Double => Const::Kind,
        Builtin::Text => Const::Kind,
        Builtin::List => Const::Kind,
        Builtin::Optional => Const::Kind,
        _ => Const::Type,
    }
}

/// `type_of_builtin(b)`: the fixed type schema of a builtin.
pub fn type_of_builtin(b: Builtin) -> (r: Term)
    ensures
        r == type_of_builtin_s(b),
{
    proof {
        reveal_strlit("_");
        reveal_strlit("natural");
        reveal_strlit("succ");
        reveal_strlit("zero");
        reveal_strlit("a");
        reveal_strlit("list");
        reveal_strlit("cons");
        reveal_strlit("nil");
        reveal_strlit("optional");
        reveal_strlit("just");
        reveal_strlit("nothing");
        reveal_strlit("index");
        reveal_strlit("value");
    }
    let us = crate::normalize::mk_label("_");
    let natural = crate::normalize::mk_label("natural");
    let succ = crate::normalize::mk_label("succ");
    let zero = crate::normalize::mk_label("zero");
    let a = crate::normalize::mk_label("a");
    let list = crate::normalize::mk_label("list");
    let cons = crate::normalize::mk_label("cons");
    let nil = crate::normalize::mk_label("nil");
    let optional = crate::normalize::mk_label("optional");
    let just = crate::normalize::mk_label("just");
    let nothing = crate::normalize::mk_label("nothing");
    match b {
        Builtin::Bool => Term::Const(Const::Type),
        Builtin::Natural => Term::Const(Const::Type),
        Builtin::Integer => Term::Const(Const::Type),
        Builtin::Double => Term::Const(Const::Type),
        Builtin::Text => Term::Const(Const::Type),
        Builtin::List => mk_pi(us, Term::Const(Const::Type), Term::Const(Const::Type)),
        Builtin::Optional => mk_pi(us, Term::Const(Const::Type), Term::Const(Const::Type)),
        Builtin::NaturalFold => {
            let inner = mk_pi(
                succ,
                mk_pi(us.dup(), mk_var0(&natural), mk_var0(&natural)),
                mk_pi(zero, mk_var0(&natural), mk_var0(&natural)),
            );
            mk_pi(
                us,
                Term::Builtin(Builtin::Natural),
                mk_pi(natural, Term::Const(Const::Type), inner),
            )
        }
        Builtin::NaturalBuild => {
            let inner = mk_pi(
                succ,
                mk_pi(us.dup(), mk_var0(&natural), mk_var0(&natural)),
                mk_pi(zero, mk_var0(&natural), mk_var0(&natural)),
            );
            mk_pi(
                us,
                mk_pi(natural, Term::Const(Const::Type), inner),
                Term::Builtin(Builtin::Natural),
            )
        }
        Builtin::NaturalIsZero => mk_pi(
            us,
            Term::Builtin(Builtin::Natural),
            Term::Builtin(Builtin::Bool),
        ),
        Builtin::NaturalEven => mk_pi(
            us,
            Term::Builtin(Builtin::Natural),
            Term::Builtin(Builtin::Bool),
        ),
        Builtin::NaturalOdd => mk_pi(
            us,
            Term::Builtin(Builtin::Natural),
            Term::Builtin(Builtin::Bool),
        ),
        Builtin::ListBuild => {
            let inner = mk_pi(
                cons,
                mk_pi(
                    us.dup(),
                    mk_var0(&a),
                    mk_pi(us.dup(), mk_var0(&list), mk_var0(&list)),
                ),
                mk_pi(nil, mk_var0(&list), mk_var0(&list)),
            );
            mk_pi(
                a.dup(),
                Term::Const(Const::Type),
                mk_pi(
                    us,
                    mk_pi(list, Term::Const(Const::Type), inner),
                    mk_app(Term::Builtin(Builtin::List), mk_var0(&a)),
                ),
            )
        }
        Builtin::ListFold => {
            let inner = mk_pi(
                cons,
                mk_pi(
                    us.dup(),
                    mk_var0(&a),
                    mk_pi(us.dup(), mk_var0(&list), mk_var0(&list)),
                ),
                mk_pi(nil, mk_var0(&list), mk_var0(&list)),
            );
            mk_pi(
                a.dup(),
                Term::Const(Const::Type),
                mk_pi(
                    us,
                    mk_app(Term::Builtin(Builtin::List), mk_var0(&a)),
                    mk_pi(list, Term::Const(Const::Type), inner),
                ),
            )
        }
        Builtin::ListLength => mk_pi(
            a.dup(),
            Term::Const(Const::Type),
            mk_pi(
                us,
                mk_app(Term::Builtin(Builtin::List), mk_var0(&a)),
                Term::Builtin(Builtin::Natural),
            ),
        ),
        Builtin::ListHead => mk_pi(
            a.dup(),
            Term::Const(Const::Type),
            mk_pi(
                us,
                mk_app(Term::Builtin(Builtin::List), mk_var0(&a)),
                mk_app(Term::Builtin(Builtin::Optional), mk_var0(&a)),
            ),
        ),
        Builtin::ListLast => mk_pi(
            a.dup(),
            Term::Const(Const::Type),
            mk_pi(
                us,
                mk_app(Term::Builtin(Builtin::List), mk_var0(&a)),
                mk_app(Term::Builtin(Builtin::Optional), mk_var0(&a)),
            ),
        ),
        Builtin::ListIndexed => mk_pi(
            a.dup(),
            Term::Const(Const::Type),
            mk_pi(
                us,
                mk_app(Term::Builtin(Builtin::List), mk_var0(&a)),
                mk_app(
                    Term::Builtin(Builtin::List),
                    Term::RecordType(
                        Box::new(
                            FieldList::Cons(
                                crate::normalize::mk_label("index"),
                                Term::Builtin(Builtin::Natural),
                                Box::new(
                                    FieldList::Cons(
                                        crate::normalize::mk_label("value"),
                                        mk_var0(&a),
                                        Box::new(FieldList::Nil),
                                    ),
                                ),
                            ),
                        ),
                    ),
                ),
            ),
        ),
        Builtin::ListReverse => mk_pi(
            a.dup(),
            Term::Const(Const::Type),
            mk_pi(
                us,
                mk_app(Term::Builtin(Builtin::List), mk_var0(&a)),
                mk_app(Term::Builtin(Builtin::List), mk_var0(&a)),
            ),
        ),
        Builtin::OptionalFold => {
            let inner = mk_pi(
                just,
                mk_pi(us.dup(), mk_var0(&a), mk_var0(&optional)),
                mk_pi(nothing, mk_var0(&optional), mk_var0(&optional)),
            );
            mk_pi(
                a.dup(),
                Term::Const(Const::Type),
                mk_pi(
                    us,
                    mk_app(Term::Builtin(Builtin::Optional), mk_var0(&a)),
                    mk_pi(optional, Term::Const(Const::Type), inner),
                ),
            )
        }
        Builtin::OptionalNone => mk_pi(
            a.dup(),
            Term::Const(Const::Type),
            mk_app(Term::Builtin(Builtin::Optional), mk_var0(&a)),
        ),
    }
}

/// The outcome of an inference step: the inferred information, the first
/// type error, or — outermost — `None` when the fuel ran out.
pub type TcOut = Option<Result<Inferred, TypeError>>;

/// A type error at the node currently being checked.
pub open spec fn mkerr_s(ctx: CtxList, cur: Term, msg: TypeMessage) -> TypeError {
    TypeError { context: TypecheckContext(ctx), current: cur, type_message: msg }
}

/// The universe of an already-inferred (normal-form) type `ty`, computed
/// by typechecking `ty` itself: a constant, the sentinel when `ty` is
/// `Sort`, or `Untyped` when `ty` has no constant type (unreachable for
/// the types this checker builds).
pub open spec fn univ_of_type_s(fuel: nat, ctx: CtxList, cur: Term, ty: Term) -> Option<
    Result<Univ, TypeError>,
>
    decreases fuel, 0int, ty,
{
    if fuel == 0 {
        Option::None
    } else {
        match tc_s((fuel - 1) as nat, ctx, ty) {
            Option::None => Option::None,
            Option::Some(Result::Err(e)) => Option::Some(Result::Err(e)),
            Option::Some(Result::Ok(Inferred::SuperType)) => Option::Some(
                Result::Ok(Univ::SuperType),
            ),
            Option::Some(Result::Ok(Inferred::Ty(tyty, _))) => match tyty {
                Term::Const(c) => Option::Some(Result::Ok(Univ::Of(c))),
                _ => Option::Some(
                    Result::Err(mkerr_s(ctx, cur, TypeMessage::Untyped)),
                ),
            },
        }
    }
}

/// The typing judgement.  Infer the type of `t` under `ctx`, spending
/// fuel only on the types the rules themselves construct.
pub open spec fn tc_s(fuel: nat, ctx: CtxList, t: Term) -> TcOut
    decreases fuel, 1int, t,
{
    match t {
        Term::Const(c) => Option::Some(Result::Ok(type_of_const_s(c))),
        Term::Builtin(b) => Option::Some(
            Result::Ok(
                Inferred::Ty(type_of_builtin_s(b), Univ::Of(univ_of_builtin_s(b))),
            ),
        ),
        Term::Var(V(x, n)) => match lookup_s(ctx, x, n) {
            Option::Some(EnvItem::TyBind(ty, k)) => Option::Some(
                Result::Ok(Inferred::Ty(ty, Univ::Of(k))),
            ),
            Option::Some(EnvItem::ValBind(_, ty, u)) => Option::Some(
                Result::Ok(Inferred::Ty(ty, u)),
            ),
            Option::None => Option::Some(
                Result::Err(mkerr_s(ctx, t, TypeMessage::UnboundVariable(V(x, n)))),
            ),
        },
        Term::Lam(x, a, body) => match tc_s(fuel, ctx, *a) {
            Option::None => Option::None,
            Option::Some(Result::Err(e)) => Option::Some(Result::Err(e)),
            Option::Some(Result::Ok(ia)) => match norm_s(fuel, *a) {
                Option::None => Option::None,
                Option::Some(a2) => match ia {
                    Inferred::Ty(Term::Const(ka), _) => {
                        let ctx2 = insert_type_s(x, a2, ka, ctx);
                        match tc_s(fuel, ctx2, *body) {
                            Option::None => Option::None,
                            Option::Some(Result::Err(e)) => Option::Some(Result::Err(e)),
                            Option::Some(Result::Ok(Inferred::SuperType)) => Option::Some(
                                Result::Err(mkerr_s(ctx, t, TypeMessage::Untyped)),
                            ),
                            Option::Some(Result::Ok(Inferred::Ty(tb, ub))) => match ub {
                                Univ::Of(kb) => match function_check_s(ka, kb) {
                                    Option::Some(k) => Option::Some(
                                        Result::Ok(
                                            Inferred::Ty(
                                                pi_s(x, a2, tb),
                                                Univ::Of(k),
                                            ),
                                        ),
                                    ),
                                    Option::None => Option::Some(
                                        Result::Err(
                                            mkerr_s(
                                                ctx,
                                                t,
                                                TypeMessage::NoDependentTypes(a2, tb),
                                            ),
                                        ),
                                    ),
                                },
                                Univ::SuperType => Option::Some(
                                    Result::Err(
                                        mkerr_s(ctx, t, TypeMessage::InvalidOutputType(tb)),
                                    ),
                                ),
                            },
                        }
                    }
                    _ => Option::Some(
                        Result::Err(mkerr_s(ctx, t, TypeMessage::InvalidInputType(a2))),
                    ),
                },
            },
        },
        Term::Pi(x, a, b) => match tc_s(fuel, ctx, *a) {
            Option::None => Option::None,
            Option::Some(Result::Err(e)) => Option::Some(Result::Err(e)),
            Option::Some(Result::Ok(ia)) => match norm_s(fuel, *a) {
                Option::None => Option::None,
                Option::Some(a2) => match ia {
                    Inferred::Ty(Term::Const(ka), _) => {
                        let ctx2 = insert_type_s(x, a2, ka, ctx);
                        match tc_s(fuel, ctx2, *b) {
                            Option::None => Option::None,
                            Option::Some(Result::Err(e)) => Option::Some(Result::Err(e)),
                            Option::Some(Result::Ok(ib)) => match ib {
                                Inferred::Ty(Term::Const(kb), _) => match function_check_s(
                                    ka,
                                    kb,
                                ) {
                                    Option::Some(k) => Option::Some(
                                        Result::Ok(
                                            Inferred::Ty(
                                                Term::Const(k),
                                                match type_of_const_s(k) {
                                                    Inferred::SuperType => Univ::SuperType,
                                                    Inferred::Ty(_, _) => match k {
                                                        Const::Type => Univ::Of(Const::Kind),
                                                        Const::Kind => Univ::Of(Const::Sort),
                                                        Const::Sort => Univ::SuperType,
                                                    },
                                                },
                                            ),
                                        ),
                                    ),
                                    Option::None => match norm_s(fuel, *b) {
                                        Option::None => Option::None,
                                        Option::Some(b2) => Option::Some(
                                            Result::Err(
                                                mkerr_s(
                                                    ctx,
                                                    t,
                                                    TypeMessage::NoDependentTypes(a2, b2),
                                                ),
                                            ),
                                        ),
                                    },
                                },
                                _ => match norm_s(fuel, *b) {
                                    Option::None => Option::None,
                                    Option::Some(b2) => Option::Some(
                                        Result::Err(
                                            mkerr_s(
                                                ctx,
                                                t,
                                                TypeMessage::InvalidOutputType(b2),
                                            ),
                                        ),
                                    ),
                                },
                            },
                        }
                    }
                    _ => Option::Some(
                        Result::Err(mkerr_s(ctx, t, TypeMessage::InvalidInputType(a2))),
                    ),
                },
            },
        },
        Term::Let(x, ann, v, body) => match tc_s(fuel, ctx, *v) {
            Option::None => Option::None,
            Option::Some(Result::Err(e)) => Option::Some(Result::Err(e)),
            Option::Some(Result::Ok(Inferred::SuperType)) => Option::Some(
                Result::Err(mkerr_s(ctx, t, TypeMessage::Untyped)),
            ),
            Option::Some(Result::Ok(Inferred::Ty(tv, uv))) => {
                let ann_ok = match ann {
                    Option::None => Option::Some(Result::Ok(true)),
                    Option::Some(an) => match tc_s(fuel, ctx, *an) {
                        Option::None => Option::None,
                        Option::Some(Result::Err(e)) => Option::Some(Result::Err(e)),
                        Option::Some(Result::Ok(_)) => match norm_s(fuel, *an) {
                            Option::None => Option::None,
                            Option::Some(an2) => {
                                if alpha_eq_s(PairList::Nil, an2, tv) {
                                    Option::Some(Result::Ok(true))
                                } else {
                                    Option::Some(
                                        Result::Err(
                                            mkerr_s(
                                                ctx,
                                                t,
                                                TypeMessage::AnnotMismatch(*v, an2),
                                            ),
                                        ),
                                    )
                                }
                            }
                        },
                    },
                };
                match ann_ok {
                    Option::None => Option::None,
                    Option::Some(Result::Err(e)) => Option::Some(Result::Err(e)),
                    Option::Some(Result::Ok(_)) => match norm_s(fuel, *v) {
                        Option::None => Option::None,
                        Option::Some(v2) => tc_s(
                            fuel,
                            insert_value_s(x, v2, tv, uv, ctx),
                            *body,
                        ),
                    },
                }
            }
        },
        Term::App(f, arg) => match tc_s(fuel, ctx, *f) {
            Option::None => Option::None,
            Option::Some(Result::Err(e)) => Option::Some(Result::Err(e)),
            Option::Some(Result::Ok(inf_f)) => match inf_f {
                Inferred::Ty(Term::Pi(x, tx, tb), _) => match tc_s(fuel, ctx, *arg) {
                    Option::None => Option::None,
                    Option::Some(Result::Err(e)) => Option::Some(Result::Err(e)),
                    Option::Some(Result::Ok(Inferred::SuperType)) => Option::Some(
                        Result::Err(
                            mkerr_s(ctx, t, TypeMessage::TypeMismatch(*f, *tx, *arg)),
                        ),
                    ),
                    Option::Some(Result::Ok(Inferred::Ty(ta, _))) => {
                        if alpha_eq_s(PairList::Nil, ta, *tx) {
                            match norm_s(fuel, *arg) {
                                Option::None => Option::None,
                                Option::Some(a2) => match norm_s(
                                    fuel,
                                    crate::subst::subst_shift_s(x, 0, a2, *tb),
                                ) {
                                    Option::None => Option::None,
                                    Option::Some(tr) => match univ_of_type_s(
                                        fuel,
                                        ctx,
                                        t,
                                        tr,
                                    ) {
                                        Option::None => Option::None,
                                        Option::Some(Result::Err(e)) => Option::Some(
                                            Result::Err(e),
                                        ),
                                        Option::Some(Result::Ok(u)) => Option::Some(
                                            Result::Ok(Inferred::Ty(tr, u)),
                                        ),
                                    },
                                },
                            }
                        } else {
                            Option::Some(
                                Result::Err(
                                    mkerr_s(
                                        ctx,
                                        t,
                                        TypeMessage::TypeMismatch(*f, *tx, *arg),
                                    ),
                                ),
                            )
                        }
                    }
                },
                _ => Option::Some(
                    Result::Err(mkerr_s(ctx, t, TypeMessage::NotAFunction(*f))),
                ),
            },
        },
        Term::Annot(e, ann) => match tc_s(fuel, ctx, *ann) {
            Option::None => Option::None,
            Option::Some(Result::Err(err)) => Option::Some(Result::Err(err)),
            Option::Some(Result::Ok(_)) => match norm_s(fuel, *ann) {
                Option::None => Option::None,
                Option::Some(an2) => match tc_s(fuel, ctx, *e) {
                    Option::None => Option::None,
                    Option::Some(Result::Err(err)) => Option::Some(Result::Err(err)),
                    Option::Some(Result::Ok(Inferred::SuperType)) => Option::Some(
                        Result::Err(mkerr_s(ctx, t, TypeMessage::AnnotMismatch(*e, an2))),
                    ),
                    Option::Some(Result::Ok(Inferred::Ty(te, ue))) => {
                        if alpha_eq_s(PairList::Nil, an2, te) {
                            Option::Some(Result::Ok(Inferred::Ty(te, ue)))
                        } else {
                            Option::Some(
                                Result::Err(
                                    mkerr_s(ctx, t, TypeMessage::AnnotMismatch(*e, an2)),
                                ),
                            )
                        }
                    }
                },
            },
        },
        Term::BoolLit(_) => Option::Some(
            Result::Ok(Inferred::Ty(Term::Builtin(Builtin::Bool), Univ::Of(Const::Type))),
        ),
        Term::NaturalLit(_) => Option::Some(
            Result::Ok(
                Inferred::Ty(Term::Builtin(Builtin::Natural), Univ::Of(Const::Type)),
            ),
        ),
        Term::IntegerLit(_) => Option::Some(
            Result::Ok(
                Inferred::Ty(Term::Builtin(Builtin::Integer), Univ::Of(Const::Type)),
            ),
        ),
        Term::DoubleLit(_) => Option::Some(
            Result::Ok(Inferred::Ty(Term::Builtin(Builtin::Double), Univ::Of(Const::Type))),
        ),
        Term::TextLit(ps) => match tc_text_s(fuel, ctx, *ps) {
            Option::None => Option::None,
            Option::Some(Result::Err(e)) => Option::Some(Result::Err(e)),
            Option::Some(Result::Ok(_)) => Option::Some(
                Result::Ok(Inferred::Ty(Term::Builtin(Builtin::Text), Univ::Of(Const::Type))),
            ),
        },
        Term::EmptyListLit(elem) => match tc_s(fuel, ctx, *elem) {
            Option::None => Option::None,
            Option::Some(Result::Err(e)) => Option::Some(Result::Err(e)),
            Option::Some(Result::Ok(ie)) => match norm_s(fuel, *elem) {
                Option::None => Option::None,
                Option::Some(e2) => match ie {
                    Inferred::Ty(Term::Const(Const::Type), _) => Option::Some(
                        Result::Ok(
                            Inferred::Ty(
                                app_s(Term::Builtin(Builtin::List), e2),
                                Univ::Of(Const::Type),
                            ),
                        ),
                    ),
                    _ => Option::Some(
                        Result::Err(mkerr_s(ctx, t, TypeMessage::InvalidListType(e2))),
                    ),
                },
            },
        },
        Term::NEListLit(ts) => match *ts {
            TermList::Nil => Option::Some(
                Result::Err(mkerr_s(ctx, t, TypeMessage::Unimplemented)),
            ),
            TermList::Cons(x0, rest) => match tc_s(fuel, ctx, x0) {
                Option::None => Option::None,
                Option::Some(Result::Err(e)) => Option::Some(Result::Err(e)),
                Option::Some(Result::Ok(Inferred::SuperType)) => Option::Some(
                    Result::Err(mkerr_s(ctx, t, TypeMessage::Untyped)),
                ),
                Option::Some(Result::Ok(Inferred::Ty(t0, u0))) => {
                    if u0 != Univ::Of(Const::Type) {
                        Option::Some(
                            Result::Err(
                                mkerr_s(ctx, t, TypeMessage::InvalidListType(t0)),
                            ),
                        )
                    } else {
                        match tc_list_elems_s(fuel, ctx, t, t0, 1, *rest) {
                            Option::None => Option::None,
                            Option::Some(Result::Err(e)) => Option::Some(Result::Err(e)),
                            Option::Some(Result::Ok(_)) => Option::Some(
                                Result::Ok(
                                    Inferred::Ty(
                                        app_s(Term::Builtin(Builtin::List), t0),
                                        Univ::Of(Const::Type),
                                    ),
                                ),
                            ),
                        }
                    }
                }
            },
        },
        Term::SomeLit(e) => match tc_s(fuel, ctx, *e) {
            Option::None => Option::None,
            Option::Some(Result::Err(err)) => Option::Some(Result::Err(err)),
            Option::Some(Result::Ok(Inferred::SuperType)) => Option::Some(
                Result::Err(mkerr_s(ctx, t, TypeMessage::Untyped)),
            ),
            Option::Some(Result::Ok(Inferred::Ty(te, ue))) => {
                if ue == Univ::Of(Const::Type) {
                    Option::Some(
                        Result::Ok(
                            Inferred::Ty(
                                app_s(Term::Builtin(Builtin::Optional), te),
                                Univ::Of(Const::Type),
                            ),
                        ),
                    )
                } else {
                    Option::Some(
                        Result::Err(mkerr_s(ctx, t, TypeMessage::InvalidOptionalType(te))),
                    )
                }
            }
        },
        Term::OldOptionalLit(v, elem) => match tc_s(fuel, ctx, *elem) {
            Option::None => Option::None,
            Option::Some(Result::Err(e)) => Option::Some(Result::Err(e)),
            Option::Some(Result::Ok(ie)) => match norm_s(fuel, *elem) {
                Option::None => Option::None,
                Option::Some(e2) => match ie {
                    Inferred::Ty(Term::Const(Const::Type), _) => match v {
                        Option::None => Option::Some(
                            Result::Ok(
                                Inferred::Ty(
                                    app_s(Term::Builtin(Builtin::Optional), e2),
                                    Univ::Of(Const::Type),
                                ),
                            ),
                        ),
                        Option::Some(x) => match tc_s(fuel, ctx, *x) {
                            Option::None => Option::None,
                            Option::Some(Result::Err(e)) => Option::Some(Result::Err(e)),
                            Option::Some(Result::Ok(Inferred::SuperType)) => Option::Some(
                                Result::Err(mkerr_s(ctx, t, TypeMessage::Untyped)),
                            ),
                            Option::Some(Result::Ok(Inferred::Ty(tx, _))) => {
                                if alpha_eq_s(PairList::Nil, tx, e2) {
                                    Option::Some(
                                        Result::Ok(
                                            Inferred::Ty(
                                                app_s(Term::Builtin(Builtin::Optional), e2),
                                                Univ::Of(Const::Type),
                                            ),
                                        ),
                                    )
                                } else {
                                    Option::Some(
                                        Result::Err(
                                            mkerr_s(
                                                ctx,
                                                t,
                                                TypeMessage::AnnotMismatch(*x, e2),
                                            ),
                                        ),
                                    )
                                }
                            }
                        },
                    },
                    _ => Option::Some(
                        Result::Err(
                            mkerr_s(ctx, t, TypeMessage::InvalidOptionalType(e2)),
                        ),
                    ),
                },
            },
        },
        Term::RecordType(kts) => match tc_record_fields_s(fuel, ctx, t, *kts) {
            Option::None => Option::None,
            Option::Some(Result::Err(e)) => Option::Some(Result::Err(e)),
            Option::Some(Result::Ok(k)) => {
                let k = match k {
                    Option::Some(k) => k,
                    Option::None => Const::Type,
                };
                Option::Some(
                    Result::Ok(
                        Inferred::Ty(
                            Term::Const(k),
                            match k {
                                Const::Type => Univ::Of(Const::Kind),
                                Const::Kind => Univ::Of(Const::Sort),
                                Const::Sort => Univ::SuperType,
                            },
                        ),
                    ),
                )
            }
        },
        Term::RecordLit(kvs) => match tc_record_values_s(fuel, ctx, t, *kvs) {
            Option::None => Option::None,
            Option::Some(Result::Err(e)) => Option::Some(Result::Err(e)),
            Option::Some(Result::Ok((kts, k))) => {
                let k = match k {
                    Option::Some(k) => k,
                    Option::None => Const::Type,
                };
                Option::Some(
                    Result::Ok(
                        Inferred::Ty(Term::RecordType(Box::new(kts)), Univ::Of(k)),
                    ),
                )
            }
        },
        Term::UnionType(alts) => match tc_union_alts_s(fuel, ctx, t, *alts) {
            Option::None => Option::None,
            Option::Some(Result::Err(e)) => Option::Some(Result::Err(e)),
            Option::Some(Result::Ok(k)) => {
                let k = match k {
                    Option::Some(k) => k,
                    Option::None => Const::Type,
                };
                Option::Some(
                    Result::Ok(
                        Inferred::Ty(
                            Term::Const(k),
                            match k {
                                Const::Type => Univ::Of(Const::Kind),
                                Const::Kind => Univ::Of(Const::Sort),
                                Const::Sort => Univ::SuperType,
                            },
                        ),
                    ),
                )
            }
        },
        Term::UnionLit(x, v, alts) => match tc_s(fuel, ctx, *v) {
            Option::None => Option::None,
            Option::Some(Result::Err(e)) => Option::Some(Result::Err(e)),
            Option::Some(Result::Ok(Inferred::SuperType)) => Option::Some(
                Result::Err(mkerr_s(ctx, t, TypeMessage::Untyped)),
            ),
            Option::Some(Result::Ok(Inferred::Ty(tv, uv))) => match uv {
                Univ::Of(kv) => match tc_union_alts_s(fuel, ctx, t, *alts) {
                    Option::None => Option::None,
                    Option::Some(Result::Err(e)) => Option::Some(Result::Err(e)),
                    Option::Some(Result::Ok(k)) => {
                        let mismatched = match k {
                            Option::Some(k) => k != kv,
                            Option::None => false,
                        };
                        if mismatched {
                            Option::Some(
                                Result::Err(
                                    mkerr_s(ctx, t, TypeMessage::InvalidFieldType(x, tv)),
                                ),
                            )
                        } else {
                            match crate::normalize::norm_alts_s(fuel, *alts) {
                                Option::None => Option::None,
                                Option::Some(alts2) => Option::Some(
                                    Result::Ok(
                                        Inferred::Ty(
                                            Term::UnionType(
                                                Box::new(
                                                    AltList::Cons(
                                                        x,
                                                        Option::Some(tv),
                                                        Box::new(alts2),
                                                    ),
                                                ),
                                            ),
                                            Univ::Of(kv),
                                        ),
                                    ),
                                ),
                            }
                        }
                    }
                },
                Univ::SuperType => Option::Some(
                    Result::Err(mkerr_s(ctx, t, TypeMessage::InvalidFieldType(x, tv))),
                ),
            },
        },
        Term::Op(op) => tc_op_s(fuel, ctx, t, *op),
        Term::Assert(e) => match tc_s(fuel, ctx, *e) {
            Option::None => Option::None,
            Option::Some(Result::Err(err)) => Option::Some(Result::Err(err)),
            Option::Some(Result::Ok(_)) => Option::Some(
                Result::Err(mkerr_s(ctx, t, TypeMessage::Unimplemented)),
            ),
        },
        Term::Import(i) => match i.resolved {
            Option::None => Option::Some(
                Result::Err(mkerr_s(ctx, t, TypeMessage::Untyped)),
            ),
            Option::Some(r) => match r.ty {
                Option::None => Option::Some(
                    Result::Err(mkerr_s(ctx, t, TypeMessage::Untyped)),
                ),
                Option::Some(ty) => match univ_of_type_s(fuel, ctx, t, ty) {
                    Option::None => Option::None,
                    Option::Some(Result::Err(e)) => Option::Some(Result::Err(e)),
                    Option::Some(Result::Ok(u)) => Option::Some(
                        Result::Ok(Inferred::Ty(ty, u)),
                    ),
                },
            },
        },
    }
}

/// The remaining elements of a list literal, each of which must typecheck
/// and match the first element's type.
pub open spec fn tc_list_elems_s(
    fuel: nat,
    ctx: CtxList,
    whole: Term,
    t0: Term,
    idx: u64,
    ts: TermList,
) -> Option<Result<bool, TypeError>>
    decreases fuel, 1int, ts,
{
    match ts {
        TermList::Nil => Option::Some(Result::Ok(true)),
        TermList::Cons(x, rest) => match tc_s(fuel, ctx, x) {
            Option::None => Option::None,
            Option::Some(Result::Err(e)) => Option::Some(Result::Err(e)),
            Option::Some(Result::Ok(Inferred::SuperType)) => Option::Some(
                Result::Err(
                    mkerr_s(ctx, whole, TypeMessage::InvalidListElement(idx, t0, x)),
                ),
            ),
            Option::Some(Result::Ok(Inferred::Ty(tx, _))) => {
                if alpha_eq_s(PairList::Nil, t0, tx) {
                    tc_list_elems_s(
                        fuel,
                        ctx,
                        whole,
                        t0,
                        crate::shift::idx_up(idx),
                        *rest,
                    )
                } else {
                    Option::Some(
                        Result::Err(
                            mkerr_s(
                                ctx,
                                whole,
                                TypeMessage::InvalidListElement(idx, t0, x),
                            ),
                        ),
                    )
                }
            }
        },
    }
}

/// The field types of a record type, which must all live in one universe;
/// the result is that universe, or `None` for an empty record.
pub open spec fn tc_record_fields_s(
    fuel: nat,
    ctx: CtxList,
    whole: Term,
    kts: FieldList,
) -> Option<Result<Option<Const>, TypeError>>
    decreases fuel, 1int, kts,
{
    match kts {
        FieldList::Nil => Option::Some(Result::Ok(Option::None)),
        FieldList::Cons(x, ty, rest) => match tc_s(fuel, ctx, ty) {
            Option::None => Option::None,
            Option::Some(Result::Err(e)) => Option::Some(Result::Err(e)),
            Option::Some(Result::Ok(it)) => match it {
                Inferred::Ty(Term::Const(k), _) => match tc_record_fields_s(
                    fuel,
                    ctx,
                    whole,
                    *rest,
                ) {
                    Option::None => Option::None,
                    Option::Some(Result::Err(e)) => Option::Some(Result::Err(e)),
                    Option::Some(Result::Ok(krest)) => match krest {
                        Option::None => Option::Some(Result::Ok(Option::Some(k))),
                        Option::Some(k2) => {
                            if k == k2 {
                                Option::Some(Result::Ok(Option::Some(k)))
                            } else {
                                Option::Some(
                                    Result::Err(
                                        mkerr_s(
                                            ctx,
                                            whole,
                                            TypeMessage::InvalidFieldType(x, ty),
                                        ),
                                    ),
                                )
                            }
                        }
                    },
                },
                _ => Option::Some(
                    Result::Err(
                        mkerr_s(ctx, whole, TypeMessage::InvalidFieldType(x, ty)),
                    ),
                ),
            },
        },
    }
}

/// The fields of a record literal: infer each value's type, requiring all
/// of those types to live in one universe; the result is the field list of
/// inferred types together with that universe.
pub open spec fn tc_record_values_s(
    fuel: nat,
    ctx: CtxList,
    whole: Term,
    kvs: FieldList,
) -> Option<Result<(FieldList, Option<Const>), TypeError>>
    decreases fuel, 1int, kvs,
{
    match kvs {
        FieldList::Nil => Option::Some(Result::Ok((FieldList::Nil, Option::None))),
        FieldList::Cons(x, v, rest) => match tc_s(fuel, ctx, v) {
            Option::None => Option::None,
            Option::Some(Result::Err(e)) => Option::Some(Result::Err(e)),
            Option::Some(Result::Ok(Inferred::SuperType)) => Option::Some(
                Result::Err(mkerr_s(ctx, whole, TypeMessage::Untyped)),
            ),
            Option::Some(Result::Ok(Inferred::Ty(tv, uv))) => match uv {
                Univ::Of(k) => match tc_record_values_s(fuel, ctx, whole, *rest) {
                    Option::None => Option::None,
                    Option::Some(Result::Err(e)) => Option::Some(Result::Err(e)),
                    Option::Some(Result::Ok((kts, krest))) => match krest {
                        Option::None => Option::Some(
                            Result::Ok(
                                (
                                    FieldList::Cons(x, tv, Box::new(kts)),
                                    Option::Some(k),
                                ),
                            ),
                        ),
                        Option::Some(k2) => {
                            if k == k2 {
                                Option::Some(
                                    Result::Ok(
                                        (
                                            FieldList::Cons(x, tv, Box::new(kts)),
                                            Option::Some(k),
                                        ),
                                    ),
                                )
                            } else {
                                Option::Some(
                                    Result::Err(
                                        mkerr_s(
                                            ctx,
                                            whole,
                                            TypeMessage::InvalidFieldType(x, tv),
                                        ),
                                    ),
                                )
                            }
                        }
                    },
                },
                Univ::SuperType => Option::Some(
                    Result::Err(
                        mkerr_s(ctx, whole, TypeMessage::InvalidFieldType(x, tv)),
                    ),
                ),
            },
        },
    }
}

/// The alternatives of a union type: every present type must live in one
/// universe; the result is that universe, or `None` when no alternative
/// carries a type.
pub open spec fn tc_union_alts_s(
    fuel: nat,
    ctx: CtxList,
    whole: Term,
    alts: AltList,
) -> Option<Result<Option<Const>, TypeError>>
    decreases fuel, 1int, alts,
{
    match alts {
        AltList::Nil => Option::Some(Result::Ok(Option::None)),
        AltList::Cons(x, ty, rest) => match ty {
            Option::None => tc_union_alts_s(fuel, ctx, whole, *rest),
            Option::Some(ty) => match tc_s(fuel, ctx, ty) {
                Option::None => Option::None,
                Option::Some(Result::Err(e)) => Option::Some(Result::Err(e)),
                Option::Some(Result::Ok(it)) => match it {
                    Inferred::Ty(Term::Const(k), _) => match tc_union_alts_s(
                        fuel,
                        ctx,
                        whole,
                        *rest,
                    ) {
                        Option::None => Option::None,
                        Option::Some(Result::Err(e)) => Option::Some(Result::Err(e)),
                        Option::Some(Result::Ok(krest)) => match krest {
                            Option::None => Option::Some(Result::Ok(Option::Some(k))),
                            Option::Some(k2) => {
                                if k == k2 {
                                    Option::Some(Result::Ok(Option::Some(k)))
                                } else {
                                    Option::Some(
                                        Result::Err(
                                            mkerr_s(
                                                ctx,
                                                whole,
                                                TypeMessage::InvalidFieldType(x, ty),
                                            ),
                                        ),
                                    )
                                }
                            }
                        },
                    },
                    _ => Option::Some(
                        Result::Err(
                            mkerr_s(ctx, whole, TypeMessage::InvalidFieldType(x, ty)),
                        ),
                    ),
                },
            },
        },
    }
}

/// The interpolated subterms of a text literal must each typecheck.
pub open spec fn tc_text_s(fuel: nat, ctx: CtxList, ps: TextPieces) -> Option<
    Result<bool, TypeError>,
>
    decreases fuel, 1int, ps,
{
    match ps {
        TextPieces::Empty => Option::Some(Result::Ok(true)),
        TextPieces::Chunk(_, rest) => tc_text_s(fuel, ctx, *rest),
        TextPieces::Interp(t, rest) => match tc_s(fuel, ctx, t) {
            Option::None => Option::None,
            Option::Some(Result::Err(e)) => Option::Some(Result::Err(e)),
            Option::Some(Result::Ok(_)) => tc_text_s(fuel, ctx, *rest),
        },
    }
}

/// The rules for the operation nodes.
pub open spec fn tc_op_s(fuel: nat, ctx: CtxList, whole: Term, op: OpKind) -> TcOut
    decreases fuel, 1int, op,
{
    match op {
        OpKind::BoolIf(c, y, z) => match tc_s(fuel, ctx, c) {
            Option::None => Option::None,
            Option::Some(Result::Err(e)) => Option::Some(Result::Err(e)),
            Option::Some(Result::Ok(Inferred::SuperType)) => Option::Some(
                Result::Err(mkerr_s(ctx, whole, TypeMessage::InvalidPredicate(c))),
            ),
            Option::Some(Result::Ok(Inferred::Ty(tcnd, _))) => {
                if !alpha_eq_s(PairList::Nil, tcnd, Term::Builtin(Builtin::Bool)) {
                    Option::Some(
                        Result::Err(
                            mkerr_s(ctx, whole, TypeMessage::InvalidPredicate(c)),
                        ),
                    )
                } else {
                    match tc_s(fuel, ctx, y) {
                        Option::None => Option::None,
                        Option::Some(Result::Err(e)) => Option::Some(Result::Err(e)),
                        Option::Some(Result::Ok(Inferred::SuperType)) => Option::Some(
                            Result::Err(
                                mkerr_s(
                                    ctx,
                                    whole,
                                    TypeMessage::IfBranchMustBeTerm(true, y),
                                ),
                            ),
                        ),
                        Option::Some(Result::Ok(Inferred::Ty(ty, uy))) => {
                            if uy != Univ::Of(Const::Type) {
                                Option::Some(
                                    Result::Err(
                                        mkerr_s(
                                            ctx,
                                            whole,
                                            TypeMessage::IfBranchMustBeTerm(true, y),
                                        ),
                                    ),
                                )
                            } else {
                                match tc_s(fuel, ctx, z) {
                                    Option::None => Option::None,
                                    Option::Some(Result::Err(e)) => Option::Some(
                                        Result::Err(e),
                                    ),
                                    Option::Some(Result::Ok(Inferred::SuperType)) => Option::Some(
                                        Result::Err(
                                            mkerr_s(
                                                ctx,
                                                whole,
                                                TypeMessage::IfBranchMustBeTerm(false, z),
                                            ),
                                        ),
                                    ),
                                    Option::Some(Result::Ok(Inferred::Ty(tz, uz))) => {
                                        if uz != Univ::Of(Const::Type) {
                                            Option::Some(
                                                Result::Err(
                                                    mkerr_s(
                                                        ctx,
                                                        whole,
                                                        TypeMessage::IfBranchMustBeTerm(
                                                            false,
                                                            z,
                                                        ),
                                                    ),
                                                ),
                                            )
                                        } else if alpha_eq_s(PairList::Nil, ty, tz) {
                                            Option::Some(
                                                Result::Ok(
                                                    Inferred::Ty(ty, Univ::Of(Const::Type)),
                                                ),
                                            )
                                        } else {
                                            Option::Some(
                                                Result::Err(
                                                    mkerr_s(
                                                        ctx,
                                                        whole,
                                                        TypeMessage::IfBranchMismatch(y, z),
                                                    ),
                                                ),
                                            )
                                        }
                                    }
                                }
                            }
                        }
                    }
                }
            }
        },
        OpKind::BinOp(o, l, r) => match tc_s(fuel, ctx, l) {
            Option::None => Option::None,
            Option::Some(Result::Err(e)) => Option::Some(Result::Err(e)),
            Option::Some(Result::Ok(Inferred::SuperType)) => Option::Some(
                Result::Err(mkerr_s(ctx, whole, TypeMessage::BinOpTypeMismatch(o, l))),
            ),
            Option::Some(Result::Ok(Inferred::Ty(tl, _))) => match tc_s(fuel, ctx, r) {
                Option::None => Option::None,
                Option::Some(Result::Err(e)) => Option::Some(Result::Err(e)),
                Option::Some(Result::Ok(Inferred::SuperType)) => Option::Some(
                    Result::Err(
                        mkerr_s(ctx, whole, TypeMessage::BinOpTypeMismatch(o, r)),
                    ),
                ),
                Option::Some(Result::Ok(Inferred::Ty(tr, _))) => match o {
                    BinOp::ListAppend => {
                        let is_list = match tl {
                            Term::App(f, _) => *f == Term::Builtin(Builtin::List),
                            _ => false,
                        };
                        if !is_list {
                            Option::Some(
                                Result::Err(
                                    mkerr_s(
                                        ctx,
                                        whole,
                                        TypeMessage::BinOpTypeMismatch(o, l),
                                    ),
                                ),
                            )
                        } else if alpha_eq_s(PairList::Nil, tl, tr) {
                            Option::Some(
                                Result::Ok(Inferred::Ty(tl, Univ::Of(Const::Type))),
                            )
                        } else {
                            Option::Some(
                                Result::Err(
                                    mkerr_s(
                                        ctx,
                                        whole,
                                        TypeMessage::BinOpTypeMismatch(o, r),
                                    ),
                                ),
                            )
                        }
                    }
                    _ => {
                        let expected = match o {
                            BinOp::BoolAnd => Option::Some(Builtin::Bool),
                            BinOp::BoolOr => Option::Some(Builtin::Bool),
                            BinOp::BoolEQ => Option::Some(Builtin::Bool),
                            BinOp::BoolNE => Option::Some(Builtin::Bool),
                            BinOp::NaturalPlus => Option::Some(Builtin::Natural),
                            BinOp::NaturalTimes => Option::Some(Builtin::Natural),
                            BinOp::TextAppend => Option::Some(Builtin::Text),
                            _ => Option::None,
                        };
                        match expected {
                            Option::None => Option::Some(
                                Result::Err(
                                    mkerr_s(ctx, whole, TypeMessage::Unimplemented),
                                ),
                            ),
                            Option::Some(b) => {
                                if !alpha_eq_s(PairList::Nil, tl, Term::Builtin(b)) {
                                    Option::Some(
                                        Result::Err(
                                            mkerr_s(
                                                ctx,
                                                whole,
                                                TypeMessage::BinOpTypeMismatch(o, l),
                                            ),
                                        ),
                                    )
                                } else if !alpha_eq_s(
                                    PairList::Nil,
                                    tr,
                                    Term::Builtin(b),
                                ) {
                                    Option::Some(
                                        Result::Err(
                                            mkerr_s(
                                                ctx,
                                                whole,
                                                TypeMessage::BinOpTypeMismatch(o, r),
                                            ),
                                        ),
                                    )
                                } else {
                                    Option::Some(
                                        Result::Ok(
                                            Inferred::Ty(
                                                Term::Builtin(b),
                                                Univ::Of(Const::Type),
                                            ),
                                        ),
                                    )
                                }
                            }
                        }
                    }
                },
            },
        },
        OpKind::Field(rec, x) => match tc_s(fuel, ctx, rec) {
            Option::None => Option::None,
            Option::Some(Result::Err(e)) => Option::Some(Result::Err(e)),
            Option::Some(Result::Ok(Inferred::SuperType)) => Option::Some(
                Result::Err(mkerr_s(ctx, whole, TypeMessage::Untyped)),
            ),
            Option::Some(Result::Ok(Inferred::Ty(trec, urec))) => match trec {
                Term::RecordType(kts) => match crate::normalize::fields_get_s(*kts, x) {
                    Option::Some(fty) => match univ_of_type_s(fuel, ctx, whole, fty) {
                        Option::None => Option::None,
                        Option::Some(Result::Err(e)) => Option::Some(Result::Err(e)),
                        Option::Some(Result::Ok(u)) => Option::Some(
                            Result::Ok(Inferred::Ty(fty, u)),
                        ),
                    },
                    Option::None => Option::Some(
                        Result::Err(
                            mkerr_s(ctx, whole, TypeMessage::MissingRecordField(x, rec)),
                        ),
                    ),
                },
                _ => match norm_s(fuel, rec) {
                    Option::None => Option::None,
                    Option::Some(rn) => match rn {
                        Term::UnionType(alts) => match crate::normalize::fields_get_alt_s(
                            *alts,
                            x,
                        ) {
                            Option::Some(Option::Some(aty)) => match trec {
                                Term::Const(ku) => match univ_of_type_s(
                                    fuel,
                                    ctx,
                                    whole,
                                    aty,
                                ) {
                                    Option::None => Option::None,
                                    Option::Some(Result::Err(e)) => Option::Some(
                                        Result::Err(e),
                                    ),
                                    Option::Some(Result::Ok(ua)) => match ua {
                                        Univ::Of(ka) => match function_check_s(ka, ku) {
                                            Option::Some(k) => Option::Some(
                                                Result::Ok(
                                                    Inferred::Ty(
                                                        pi_s(
                                                            x,
                                                            aty,
                                                            Term::UnionType(alts),
                                                        ),
                                                        Univ::Of(k),
                                                    ),
                                                ),
                                            ),
                                            Option::None => Option::Some(
                                                Result::Err(
                                                    mkerr_s(
                                                        ctx,
                                                        whole,
                                                        TypeMessage::NoDependentTypes(
                                                            aty,
                                                            Term::UnionType(alts),
                                                        ),
                                                    ),
                                                ),
                                            ),
                                        },
                                        Univ::SuperType => Option::Some(
                                            Result::Err(
                                                mkerr_s(
                                                    ctx,
                                                    whole,
                                                    TypeMessage::InvalidInputType(aty),
                                                ),
                                            ),
                                        ),
                                    },
                                },
                                _ => Option::Some(
                                    Result::Err(
                                        mkerr_s(ctx, whole, TypeMessage::Untyped),
                                    ),
                                ),
                            },
                            Option::Some(Option::None) => match trec {
                                Term::Const(ku) => Option::Some(
                                    Result::Ok(
                                        Inferred::Ty(
                                            Term::UnionType(alts),
                                            Univ::Of(ku),
                                        ),
                                    ),
                                ),
                                _ => Option::Some(
                                    Result::Err(
                                        mkerr_s(ctx, whole, TypeMessage::Untyped),
                                    ),
                                ),
                            },
                            Option::None => Option::Some(
                                Result::Err(
                                    mkerr_s(
                                        ctx,
                                        whole,
                                        TypeMessage::MissingUnionField(
                                            x,
                                            Term::UnionType(alts),
                                        ),
                                    ),
                                ),
                            ),
                        },
                        _ => Option::Some(
                            Result::Err(
                                mkerr_s(ctx, whole, TypeMessage::NotARecord(x, rn)),
                            ),
                        ),
                    },
                },
            },
        },
        OpKind::Merge(h, u, a) => match tc_s(fuel, ctx, h) {
            Option::None => Option::None,
            Option::Some(Result::Err(e)) => Option::Some(Result::Err(e)),
            Option::Some(Result::Ok(_)) => match tc_s(fuel, ctx, u) {
                Option::None => Option::None,
                Option::Some(Result::Err(e)) => Option::Some(Result::Err(e)),
                Option::Some(Result::Ok(_)) => match a {
                    Option::None => Option::Some(
                        Result::Err(mkerr_s(ctx, whole, TypeMessage::Unimplemented)),
                    ),
                    Option::Some(a) => match tc_s(fuel, ctx, a) {
                        Option::None => Option::None,
                        Option::Some(Result::Err(e)) => Option::Some(Result::Err(e)),
                        Option::Some(Result::Ok(_)) => Option::Some(
                            Result::Err(mkerr_s(ctx, whole, TypeMessage::Unimplemented)),
                        ),
                    },
                },
            },
        },
        OpKind::ToMap(r, a) => match tc_s(fuel, ctx, r) {
            Option::None => Option::None,
            Option::Some(Result::Err(e)) => Option::Some(Result::Err(e)),
            Option::Some(Result::Ok(_)) => match a {
                Option::None => Option::Some(
                    Result::Err(mkerr_s(ctx, whole, TypeMessage::Unimplemented)),
                ),
                Option::Some(a) => match tc_s(fuel, ctx, a) {
                    Option::None => Option::None,
                    Option::Some(Result::Err(e)) => Option::Some(Result::Err(e)),
                    Option::Some(Result::Ok(_)) => Option::Some(
                        Result::Err(mkerr_s(ctx, whole, TypeMessage::Unimplemented)),
                    ),
                },
            },
        },
        OpKind::Projection(r, _) => match tc_s(fuel, ctx, r) {
            Option::None => Option::None,
            Option::Some(Result::Err(e)) => Option::Some(Result::Err(e)),
            Option::Some(Result::Ok(_)) => Option::Some(
                Result::Err(mkerr_s(ctx, whole, TypeMessage::Unimplemented)),
            ),
        },
        OpKind::ProjectionByExpr(r, ty) => match tc_s(fuel, ctx, r) {
            Option::None => Option::None,
            Option::Some(Result::Err(e)) => Option::Some(Result::Err(e)),
            Option::Some(Result::Ok(_)) => match tc_s(fuel, ctx, ty) {
                Option::None => Option::None,
                Option::Some(Result::Err(e)) => Option::Some(Result::Err(e)),
                Option::Some(Result::Ok(_)) => Option::Some(
                    Result::Err(mkerr_s(ctx, whole, TypeMessage::Unimplemented)),
                ),
            },
        },
        OpKind::Completion(a, b) => match tc_s(fuel, ctx, a) {
            Option::None => Option::None,
            Option::Some(Result::Err(e)) => Option::Some(Result::Err(e)),
            Option::Some(Result::Ok(_)) => match tc_s(fuel, ctx, b) {
                Option::None => Option::None,
                Option::Some(Result::Err(e)) => Option::Some(Result::Err(e)),
                Option::Some(Result::Ok(_)) => Option::Some(
                    Result::Err(mkerr_s(ctx, whole, TypeMessage::Unimplemented)),
                ),
            },
        },
        OpKind::With(r, _, v) => match tc_s(fuel, ctx, r) {
            Option::None => Option::None,
            Option::Some(Result::Err(e)) => Option::Some(Result::Err(e)),
            Option::Some(Result::Ok(_)) => match tc_s(fuel, ctx, v) {
                Option::None => Option::None,
                Option::Some(Result::Err(e)) => Option::Some(Result::Err(e)),
                Option::Some(Result::Ok(_)) => Option::Some(
                    Result::Err(mkerr_s(ctx, whole, TypeMessage::Unimplemented)),
                ),
            },
        },
    }
}

/// Build a type error at the current node.
fn mkerr(ctx: &TypecheckContext, cur: &Term, msg: TypeMessage) -> (r: TypeError)
    ensures
        r == mkerr_s(ctx.0, *cur, msg),
{
    TypeError { context: ctx.dup(), current: cur.dup(), type_message: msg }
}

/// The universe of an already-inferred type, found by typechecking it.
fn univ_of_type(fuel: u64, ctx: &TypecheckContext, cur: &Term, ty: &Term) -> (r: Option<
    Result<Univ, TypeError>,
>)
    ensures
        r == univ_of_type_s(fuel as nat, ctx.0, *cur, *ty),
    decreases fuel, 0int, *ty,
{
    if fuel == 0 {
        Option::None
    } else {
        match type_with(fuel - 1, ctx, ty) {
            Option::None => Option::None,
            Option::Some(Result::Err(e)) => Option::Some(Result::Err(e)),
            Option::Some(Result::Ok(Inferred::SuperType)) => Option::Some(
                Result::Ok(Univ::SuperType),
            ),
            Option::Some(Result::Ok(Inferred::Ty(tyty, _))) => match tyty {
                Term::Const(c) => Option::Some(Result::Ok(Univ::Of(c))),
                _ => Option::Some(
                    Result::Err(mkerr(ctx, cur, TypeMessage::Untyped)),
                ),
            },
        }
    }
}

/// Type-check a term under a context and return its normal-form type (and
/// that type's own type), or the first type error; `None` when the fuel
/// budget ran out.
#[verifier::spinoff_prover]
pub fn type_with(fuel: u64, ctx: &TypecheckContext, t: &Term) -> (r: TcOut)
    ensures
        r == tc_s(fuel as nat, ctx.0, *t),
    decreases fuel, 1int, *t, 1int,
{
    match t {
        Term::Const(c) => Option::Some(Result::Ok(type_of_const(*c))),
        Term::Builtin(b) => {
            let univ = match b {
                Builtin::Bool | Builtin::Natural | Builtin::Integer | Builtin::Double
                    | Builtin::Text | Builtin::List | Builtin::Optional => Const::Kind,
                _ => Const::Type,
            };
            Option::Some(Result::Ok(Inferred::Ty(type_of_builtin(*b), Univ::Of(univ))))
        }
        Term::Var(v) => match ctx.lookup(v) {
            Option::Some(EnvItem::TyBind(ty, k)) => Option::Some(
                Result::Ok(Inferred::Ty(ty, Univ::Of(k))),
            ),
            Option::Some(EnvItem::ValBind(_, ty, u)) => Option::Some(
                Result::Ok(Inferred::Ty(ty, u)),
            ),
            Option::None => Option::Some(
                Result::Err(mkerr(ctx, t, TypeMessage::UnboundVariable(v.dup()))),
            ),
        },
        Term::Lam(x, a, body) => tw_lam(fuel, ctx, t, x, a, body),
        Term::Pi(x, a, b) => tw_pi(fuel, ctx, t, x, a, b),
        Term::Let(x, ann, v, body) => tw_let(fuel, ctx, t, x, ann, v, body),
        Term::App(f, arg) => tw_app(fuel, ctx, t, f, arg),
        Term::Annot(e, ann) => tw_annot(fuel, ctx, t, e, ann),
        Term::BoolLit(_) => Option::Some(
            Result::Ok(Inferred::Ty(Term::Builtin(Builtin::Bool), Univ::Of(Const::Type))),
        ),
        Term::NaturalLit(_) => Option::Some(
            Result::Ok(
                Inferred::Ty(Term::Builtin(Builtin::Natural), Univ::Of(Const::Type)),
            ),
        ),
        Term::IntegerLit(_) => Option::Some(
            Result::Ok(
                Inferred::Ty(Term::Builtin(Builtin::Integer), Univ::Of(Const::Type)),
            ),
        ),
        Term::DoubleLit(_) => Option::Some(
            Result::Ok(Inferred::Ty(Term::Builtin(Builtin::Double), Univ::Of(Const::Type))),
        ),
        Term::TextLit(ps) => match tc_text(fuel, ctx, ps) {
            Option::None => Option::None,
            Option::Some(Result::Err(e)) => Option::Some(Result::Err(e)),
            Option::Some(Result::Ok(_)) => Option::Some(
                Result::Ok(
                    Inferred::Ty(Term::Builtin(Builtin::Text), Univ::Of(Const::Type)),
                ),
            ),
        },
        Term::EmptyListLit(elem) => match type_with(fuel, ctx, elem) {
            Option::None => Option::None,
            Option::Some(Result::Err(e)) => Option::Some(Result::Err(e)),
            Option::Some(Result::Ok(ie)) => match normalize(fuel, elem) {
                Option::None => Option::None,
                Option::Some(e2) => match ie {
                    Inferred::Ty(Term::Const(Const::Type), _) => Option::Some(
                        Result::Ok(
                            Inferred::Ty(
                                Term::App(
                                    Box::new(Term::Builtin(Builtin::List)),
                                    Box::new(e2),
                                ),
                                Univ::Of(Const::Type),
                            ),
                        ),
                    ),
                    _ => Option::Some(
                        Result::Err(mkerr(ctx, t, TypeMessage::InvalidListType(e2))),
                    ),
                },
            },
        },
        Term::NEListLit(ts) => tw_nelist(fuel, ctx, t, ts),
        Term::SomeLit(e) => match type_with(fuel, ctx, e) {
            Option::None => Option::None,
            Option::Some(Result::Err(err)) => Option::Some(Result::Err(err)),
            Option::Some(Result::Ok(Inferred::SuperType)) => Option::Some(
                Result::Err(mkerr(ctx, t, TypeMessage::Untyped)),
            ),
            Option::Some(Result::Ok(Inferred::Ty(te, ue))) => {
                if matches!(ue, Univ::Of(Const::Type)) {
                    Option::Some(
                        Result::Ok(
                            Inferred::Ty(
                                Term::App(
                                    Box::new(Term::Builtin(Builtin::Optional)),
                                    Box::new(te),
                                ),
                                Univ::Of(Const::Type),
                            ),
                        ),
                    )
                } else {
                    Option::Some(
                        Result::Err(mkerr(ctx, t, TypeMessage::InvalidOptionalType(te))),
                    )
                }
            }
        },
        Term::OldOptionalLit(v, elem) => tw_oldopt(fuel, ctx, t, v, elem),
        Term::RecordType(kts) => match tc_record_fields(fuel, ctx, t, kts) {
            Option::None => Option::None,
            Option::Some(Result::Err(e)) => Option::Some(Result::Err(e)),
            Option::Some(Result::Ok(k)) => {
                let k = match k {
                    Option::Some(k) => k,
                    Option::None => Const::Type,
                };
                Option::Some(
                    Result::Ok(
                        Inferred::Ty(
                            Term::Const(k),
                            match k {
                                Const::Type => Univ::Of(Const::Kind),
                                Const::Kind => Univ::Of(Const::Sort),
                                Const::Sort => Univ::SuperType,
                            },
                        ),
                    ),
                )
            }
        },
        Term::RecordLit(kvs) => match tc_record_values(fuel, ctx, t, kvs) {
            Option::None => Option::None,
            Option::Some(Result::Err(e)) => Option::Some(Result::Err(e)),
            Option::Some(Result::Ok((kts, k))) => {
                let k = match k {
                    Option::Some(k) => k,
                    Option::None => Const::Type,
                };
                Option::Some(
                    Result::Ok(
                        Inferred::Ty(Term::RecordType(Box::new(kts)), Univ::Of(k)),
                    ),
                )
            }
        },
        Term::UnionType(alts) => match tc_union_alts(fuel, ctx, t, alts) {
            Option::None => Option::None,
            Option::Some(Result::Err(e)) => Option::Some(Result::Err(e)),
            Option::Some(Result::Ok(k)) => {
                let k = match k {
                    Option::Some(k) => k,
                    Option::None => Const::Type,
                };
                Option::Some(
                    Result::Ok(
                        Inferred::Ty(
                            Term::Const(k),
                            match k {
                                Const::Type => Univ::Of(Const::Kind),
                                Const::Kind => Univ::Of(Const::Sort),
                                Const::Sort => Univ::SuperType,
                            },
                        ),
                    ),
                )
            }
        },
        Term::UnionLit(x, v, alts) => tw_unionlit(fuel, ctx, t, x, v, alts),
        Term::Op(op) => type_op(fuel, ctx, t, op),
        Term::Assert(e) => match type_with(fuel, ctx, e) {
            Option::None => Option::None,
            Option::Some(Result::Err(err)) => Option::Some(Result::Err(err)),
            Option::Some(Result::Ok(_)) => Option::Some(
                Result::Err(mkerr(ctx, t, TypeMessage::Unimplemented)),
            ),
        },
        Term::Import(i) => match &i.resolved {
            Option::None => Option::Some(
                Result::Err(mkerr(ctx, t, TypeMessage::Untyped)),
            ),
            Option::Some(res) => match &res.ty {
                Option::None => Option::Some(
                    Result::Err(mkerr(ctx, t, TypeMessage::Untyped)),
                ),
                Option::Some(ty) => match univ_of_type(fuel, ctx, t, ty) {
                    Option::None => Option::None,
                    Option::Some(Result::Err(e)) => Option::Some(Result::Err(e)),
                    Option::Some(Result::Ok(u)) => Option::Some(
                        Result::Ok(Inferred::Ty(ty.dup(), u)),
                    ),
                },
            },
        },
    }
}

fn tc_list_elems(
    fuel: u64,
    ctx: &TypecheckContext,
    whole: &Term,
    t0: &Term,
    idx: u64,
    ts: &TermList,
) -> (r: Option<Result<bool, TypeError>>)
    ensures
        r == tc_list_elems_s(fuel as nat, ctx.0, *whole, *t0, idx, *ts),
    decreases fuel, 1int, *ts,
{
    match ts {
        TermList::Nil => Option::Some(Result::Ok(true)),
        TermList::Cons(x, rest) => match type_with(fuel, ctx, x) {
            Option::None => Option::None,
            Option::Some(Result::Err(e)) => Option::Some(Result::Err(e)),
            Option::Some(Result::Ok(Inferred::SuperType)) => Option::Some(
                Result::Err(
                    mkerr(
                        ctx,
                        whole,
                        TypeMessage::InvalidListElement(idx, t0.dup(), x.dup()),
                    ),
                ),
            ),
            Option::Some(Result::Ok(Inferred::Ty(tx, _))) => {
                if alpha_eq(t0, &tx) {
                    tc_list_elems(
                        fuel,
                        ctx,
                        whole,
                        t0,
                        crate::shift::idx_up_exec(idx),
                        rest,
                    )
                } else {
                    Option::Some(
                        Result::Err(
                            mkerr(
                                ctx,
                                whole,
                                TypeMessage::InvalidListElement(idx, t0.dup(), x.dup()),
                            ),
                        ),
                    )
                }
            }
        },
    }
}

fn tc_record_fields(fuel: u64, ctx: &TypecheckContext, whole: &Term, kts: &FieldList) -> (r:
    Option<Result<Option<Const>, TypeError>>)
    ensures
        r == tc_record_fields_s(fuel as nat, ctx.0, *whole, *kts),
    decreases fuel, 1int, *kts,
{
    match kts {
        FieldList::Nil => Option::Some(Result::Ok(Option::None)),
        FieldList::Cons(x, ty, rest) => match type_with(fuel, ctx, ty) {
            Option::None => Option::None,
            Option::Some(Result::Err(e)) => Option::Some(Result::Err(e)),
            Option::Some(Result::Ok(it)) => match it {
                Inferred::Ty(Term::Const(k), _) => match tc_record_fields(
                    fuel,
                    ctx,
                    whole,
                    rest,
                ) {
                    Option::None => Option::None,
                    Option::Some(Result::Err(e)) => Option::Some(Result::Err(e)),
                    Option::Some(Result::Ok(krest)) => match krest {
                        Option::None => Option::Some(Result::Ok(Option::Some(k))),
                        Option::Some(k2) => {
                            if k == k2 {
                                Option::Some(Result::Ok(Option::Some(k)))
                            } else {
                                Option::Some(
                                    Result::Err(
                                        mkerr(
                                            ctx,
                                            whole,
                                            TypeMessage::InvalidFieldType(
                                                x.dup(),
                                                ty.dup(),
                                            ),
                                        ),
                                    ),
                                )
                            }
                        }
                    },
                },
                _ => Option::Some(
                    Result::Err(
                        mkerr(
                            ctx,
                            whole,
                            TypeMessage::InvalidFieldType(x.dup(), ty.dup()),
                        ),
                    ),
                ),
            },
        },
    }
}

fn tc_record_values(fuel: u64, ctx: &TypecheckContext, whole: &Term, kvs: &FieldList) -> (r:
    Option<Result<(FieldList, Option<Const>), TypeError>>)
    ensures
        r == tc_record_values_s(fuel as nat, ctx.0, *whole, *kvs),
    decreases fuel, 1int, *kvs,
{
    match kvs {
        FieldList::Nil => Option::Some(Result::Ok((FieldList::Nil, Option::None))),
        FieldList::Cons(x, v, rest) => match type_with(fuel, ctx, v) {
            Option::None => Option::None,
            Option::Some(Result::Err(e)) => Option::Some(Result::Err(e)),
            Option::Some(Result::Ok(Inferred::SuperType)) => Option::Some(
                Result::Err(mkerr(ctx, whole, TypeMessage::Untyped)),
            ),
            Option::Some(Result::Ok(Inferred::Ty(tv, uv))) => match uv {
                Univ::Of(k) => match tc_record_values(fuel, ctx, whole, rest) {
                    Option::None => Option::None,
                    Option::Some(Result::Err(e)) => Option::Some(Result::Err(e)),
                    Option::Some(Result::Ok((kts, krest))) => match krest {
                        Option::None => Option::Some(
                            Result::Ok(
                                (
                                    FieldList::Cons(x.dup(), tv, Box::new(kts)),
                                    Option::Some(k),
                                ),
                            ),
                        ),
                        Option::Some(k2) => {
                            if k == k2 {
                                Option::Some(
                                    Result::Ok(
                                        (
                                            FieldList::Cons(x.dup(), tv, Box::new(kts)),
                                            Option::Some(k),
                                        ),
                                    ),
                                )
                            } else {
                                Option::Some(
                                    Result::Err(
                                        mkerr(
                                            ctx,
                                            whole,
                                            TypeMessage::InvalidFieldType(x.dup(), tv),
                                        ),
                                    ),
                                )
                            }
                        }
                    },
                },
                Univ::SuperType => Option::Some(
                    Result::Err(
                        mkerr(ctx, whole, TypeMessage::InvalidFieldType(x.dup(), tv)),
                    ),
                ),
            },
        },
    }
}

fn tc_union_alts(fuel: u64, ctx: &TypecheckContext, whole: &Term, alts: &AltList) -> (r:
    Option<Result<Option<Const>, TypeError>>)
    ensures
        r == tc_union_alts_s(fuel as nat, ctx.0, *whole, *alts),
    decreases fuel, 1int, *alts,
{
    match alts {
        AltList::Nil => Option::Some(Result::Ok(Option::None)),
        AltList::Cons(x, ty, rest) => match ty {
            Option::None => tc_union_alts(fuel, ctx, whole, rest),
            Option::Some(ty) => match type_with(fuel, ctx, ty) {
                Option::None => Option::None,
                Option::Some(Result::Err(e)) => Option::Some(Result::Err(e)),
                Option::Some(Result::Ok(it)) => match it {
                    Inferred::Ty(Term::Const(k), _) => match tc_union_alts(
                        fuel,
                        ctx,
                        whole,
                        rest,
                    ) {
                        Option::None => Option::None,
                        Option::Some(Result::Err(e)) => Option::Some(Result::Err(e)),
                        Option::Some(Result::Ok(krest)) => match krest {
                            Option::None => Option::Some(Result::Ok(Option::Some(k))),
                            Option::Some(k2) => {
                                if k == k2 {
                                    Option::Some(Result::Ok(Option::Some(k)))
                                } else {
                                    Option::Some(
                                        Result::Err(
                                            mkerr(
                                                ctx,
                                                whole,
                                                TypeMessage::InvalidFieldType(
                                                    x.dup(),
                                                    ty.dup(),
                                                ),
                                            ),
                                        ),
                                    )
                                }
                            }
                        },
                    },
                    _ => Option::Some(
                        Result::Err(
                            mkerr(
                                ctx,
                                whole,
                                TypeMessage::InvalidFieldType(x.dup(), ty.dup()),
                            ),
                        ),
                    ),
                },
            },
        },
    }
}

fn tc_text(fuel: u64, ctx: &TypecheckContext, ps: &TextPieces) -> (r: Option<
    Result<bool, TypeError>,
>)
    ensures
        r == tc_text_s(fuel as nat, ctx.0, *ps),
    decreases fuel, 1int, *ps,
{
    match ps {
        TextPieces::Empty => Option::Some(Result::Ok(true)),
        TextPieces::Chunk(_, rest) => tc_text(fuel, ctx, rest),
        TextPieces::Interp(t, rest) => match type_with(fuel, ctx, t) {
            Option::None => Option::None,
            Option::Some(Result::Err(e)) => Option::Some(Result::Err(e)),
            Option::Some(Result::Ok(_)) => tc_text(fuel, ctx, rest),
        },
    }
}

/// The typing rules for the operation nodes: `if`, the binary operators,
/// and field access; every other operation is rejected as `Unimplemented`
/// once its subterms have been checked.
fn type_op(fuel: u64, ctx: &TypecheckContext, whole: &Term, op: &OpKind) -> (r: TcOut)
    ensures
        r == tc_op_s(fuel as nat, ctx.0, *whole, *op),
    decreases fuel, 1int, *op,
{
    match op {
        OpKind::BoolIf(c, y, z) => match type_with(fuel, ctx, c) {
            Option::None => Option::None,
            Option::Some(Result::Err(e)) => Option::Some(Result::Err(e)),
            Option::Some(Result::Ok(Inferred::SuperType)) => Option::Some(
                Result::Err(mkerr(ctx, whole, TypeMessage::InvalidPredicate(c.dup()))),
            ),
            Option::Some(Result::Ok(Inferred::Ty(tcnd, _))) => {
                if !alpha_eq(&tcnd, &Term::Builtin(Builtin::Bool)) {
                    Option::Some(
                        Result::Err(
                            mkerr(ctx, whole, TypeMessage::InvalidPredicate(c.dup())),
                        ),
                    )
                } else {
                    match type_with(fuel, ctx, y) {
                        Option::None => Option::None,
                        Option::Some(Result::Err(e)) => Option::Some(Result::Err(e)),
                        Option::Some(Result::Ok(Inferred::SuperType)) => Option::Some(
                            Result::Err(
                                mkerr(
                                    ctx,
                                    whole,
                                    TypeMessage::IfBranchMustBeTerm(true, y.dup()),
                                ),
                            ),
                        ),
                        Option::Some(Result::Ok(Inferred::Ty(ty, uy))) => {
                            if !matches!(uy, Univ::Of(Const::Type)) {
                                Option::Some(
                                    Result::Err(
                                        mkerr(
                                            ctx,
                                            whole,
                                            TypeMessage::IfBranchMustBeTerm(true, y.dup()),
                                        ),
                                    ),
                                )
                            } else {
                                match type_with(fuel, ctx, z) {
                                    Option::None => Option::None,
                                    Option::Some(Result::Err(e)) => Option::Some(
                                        Result::Err(e),
                                    ),
                                    Option::Some(Result::Ok(Inferred::SuperType)) => Option::Some(
                                        Result::Err(
                                            mkerr(
                                                ctx,
                                                whole,
                                                TypeMessage::IfBranchMustBeTerm(
                                                    false,
                                                    z.dup(),
                                                ),
                                            ),
                                        ),
                                    ),
                                    Option::Some(Result::Ok(Inferred::Ty(tz, uz))) => {
                                        if !matches!(uz, Univ::Of(Const::Type)) {
                                            Option::Some(
                                                Result::Err(
                                                    mkerr(
                                                        ctx,
                                                        whole,
                                                        TypeMessage::IfBranchMustBeTerm(
                                                            false,
                                                            z.dup(),
                                                        ),
                                                    ),
                                                ),
                                            )
                                        } else if alpha_eq(&ty, &tz) {
                                            Option::Some(
                                                Result::Ok(
                                                    Inferred::Ty(ty, Univ::Of(Const::Type)),
                                                ),
                                            )
                                        } else {
                                            Option::Some(
                                                Result::Err(
                                                    mkerr(
                                                        ctx,
                                                        whole,
                                                        TypeMessage::IfBranchMismatch(
                                                            y.dup(),
                                                            z.dup(),
                                                        ),
                                                    ),
                                                ),
                                            )
                                        }
                                    }
                                }
                            }
                        }
                    }
                }
            }
        },
        OpKind::BinOp(o, l, r) => match type_with(fuel, ctx, l) {
            Option::None => Option::None,
            Option::Some(Result::Err(e)) => Option::Some(Result::Err(e)),
            Option::Some(Result::Ok(Inferred::SuperType)) => Option::Some(
                Result::Err(
                    mkerr(ctx, whole, TypeMessage::BinOpTypeMismatch(*o, l.dup())),
                ),
            ),
            Option::Some(Result::Ok(Inferred::Ty(tl, _))) => match type_with(fuel, ctx, r) {
                Option::None => Option::None,
                Option::Some(Result::Err(e)) => Option::Some(Result::Err(e)),
                Option::Some(Result::Ok(Inferred::SuperType)) => Option::Some(
                    Result::Err(
                        mkerr(ctx, whole, TypeMessage::BinOpTypeMismatch(*o, r.dup())),
                    ),
                ),
                Option::Some(Result::Ok(Inferred::Ty(tr, _))) => match o {
                    BinOp::ListAppend => {
                        let is_list = match &tl {
                            Term::App(f, _) => matches!(
                                &**f,
                                Term::Builtin(Builtin::List),
                            ),
                            _ => false,
                        };
                        if !is_list {
                            Option::Some(
                                Result::Err(
                                    mkerr(
                                        ctx,
                                        whole,
                                        TypeMessage::BinOpTypeMismatch(*o, l.dup()),
                                    ),
                                ),
                            )
                        } else if alpha_eq(&tl, &tr) {
                            Option::Some(
                                Result::Ok(Inferred::Ty(tl, Univ::Of(Const::Type))),
                            )
                        } else {
                            Option::Some(
                                Result::Err(
                                    mkerr(
                                        ctx,
                                        whole,
                                        TypeMessage::BinOpTypeMismatch(*o, r.dup()),
                                    ),
                                ),
                            )
                        }
                    }
                    _ => {
                        let expected = match o {
                            BinOp::BoolAnd => Option::Some(Builtin::Bool),
                            BinOp::BoolOr => Option::Some(Builtin::Bool),
                            BinOp::BoolEQ => Option::Some(Builtin::Bool),
                            BinOp::BoolNE => Option::Some(Builtin::Bool),
                            BinOp::NaturalPlus => Option::Some(Builtin::Natural),
                            BinOp::NaturalTimes => Option::Some(Builtin::Natural),
                            BinOp::TextAppend => Option::Some(Builtin::Text),
                            _ => Option::None,
                        };
                        match expected {
                            Option::None => Option::Some(
                                Result::Err(
                                    mkerr(ctx, whole, TypeMessage::Unimplemented),
                                ),
                            ),
                            Option::Some(b) => {
                                if !alpha_eq(&tl, &Term::Builtin(b)) {
                                    Option::Some(
                                        Result::Err(
                                            mkerr(
                                                ctx,
                                                whole,
                                                TypeMessage::BinOpTypeMismatch(*o, l.dup()),
                                            ),
                                        ),
                                    )
                                } else if !alpha_eq(&tr, &Term::Builtin(b)) {
                                    Option::Some(
                                        Result::Err(
                                            mkerr(
                                                ctx,
                                                whole,
                                                TypeMessage::BinOpTypeMismatch(*o, r.dup()),
                                            ),
                                        ),
                                    )
                                } else {
                                    Option::Some(
                                        Result::Ok(
                                            Inferred::Ty(
                                                Term::Builtin(b),
                                                Univ::Of(Const::Type),
                                            ),
                                        ),
                                    )
                                }
                            }
                        }
                    }
                },
            },
        },
        OpKind::Field(rec, x) => match type_with(fuel, ctx, rec) {
            Option::None => Option::None,
            Option::Some(Result::Err(e)) => Option::Some(Result::Err(e)),
            Option::Some(Result::Ok(Inferred::SuperType)) => Option::Some(
                Result::Err(mkerr(ctx, whole, TypeMessage::Untyped)),
            ),
            Option::Some(Result::Ok(Inferred::Ty(trec, _))) => match trec {
                Term::RecordType(kts) => match crate::normalize::fields_get_pub(&kts, x) {
                    Option::Some(fty) => match univ_of_type(fuel, ctx, whole, &fty) {
                        Option::None => Option::None,
                        Option::Some(Result::Err(e)) => Option::Some(Result::Err(e)),
                        Option::Some(Result::Ok(u)) => Option::Some(
                            Result::Ok(Inferred::Ty(fty, u)),
                        ),
                    },
                    Option::None => Option::Some(
                        Result::Err(
                            mkerr(
                                ctx,
                                whole,
                                TypeMessage::MissingRecordField(x.dup(), rec.dup()),
                            ),
                        ),
                    ),
                },
                trec => match normalize(fuel, rec) {
                    Option::None => Option::None,
                    Option::Some(rn) => match rn {
                        Term::UnionType(alts) => match crate::normalize::alts_get_pub(
                            &alts,
                            x,
                        ) {
                            Option::Some(Option::Some(aty)) => match &trec {
                                Term::Const(ku) => match univ_of_type(
                                    fuel,
                                    ctx,
                                    whole,
                                    &aty,
                                ) {
                                    Option::None => Option::None,
                                    Option::Some(Result::Err(e)) => Option::Some(
                                        Result::Err(e),
                                    ),
                                    Option::Some(Result::Ok(ua)) => match ua {
                                        Univ::Of(ka) => match function_check(ka, *ku) {
                                            Result::Ok(k) => Option::Some(
                                                Result::Ok(
                                                    Inferred::Ty(
                                                        Term::Pi(
                                                            x.dup(),
                                                            Box::new(aty),
                                                            Box::new(
                                                                Term::UnionType(alts),
                                                            ),
                                                        ),
                                                        Univ::Of(k),
                                                    ),
                                                ),
                                            ),
                                            Result::Err(()) => Option::Some(
                                                Result::Err(
                                                    mkerr(
                                                        ctx,
                                                        whole,
                                                        TypeMessage::NoDependentTypes(
                                                            aty,
                                                            Term::UnionType(alts),
                                                        ),
                                                    ),
                                                ),
                                            ),
                                        },
                                        Univ::SuperType => Option::Some(
                                            Result::Err(
                                                mkerr(
                                                    ctx,
                                                    whole,
                                                    TypeMessage::InvalidInputType(aty),
                                                ),
                                            ),
                                        ),
                                    },
                                },
                                _ => Option::Some(
                                    Result::Err(mkerr(ctx, whole, TypeMessage::Untyped)),
                                ),
                            },
                            Option::Some(Option::None) => match &trec {
                                Term::Const(ku) => Option::Some(
                                    Result::Ok(
                                        Inferred::Ty(
                                            Term::UnionType(alts),
                                            Univ::Of(*ku),
                                        ),
                                    ),
                                ),
                                _ => Option::Some(
                                    Result::Err(mkerr(ctx, whole, TypeMessage::Untyped)),
                                ),
                            },
                            Option::None => Option::Some(
                                Result::Err(
                                    mkerr(
                                        ctx,
                                        whole,
                                        TypeMessage::MissingUnionField(
                                            x.dup(),
                                            Term::UnionType(alts),
                                        ),
                                    ),
                                ),
                            ),
                        },
                        rn => Option::Some(
                            Result::Err(
                                mkerr(ctx, whole, TypeMessage::NotARecord(x.dup(), rn)),
                            ),
                        ),
                    },
                },
            },
        },
        OpKind::Merge(h, u, a) => match type_with(fuel, ctx, h) {
            Option::None => Option::None,
            Option::Some(Result::Err(e)) => Option::Some(Result::Err(e)),
            Option::Some(Result::Ok(_)) => match type_with(fuel, ctx, u) {
                Option::None => Option::None,
                Option::Some(Result::Err(e)) => Option::Some(Result::Err(e)),
                Option::Some(Result::Ok(_)) => match a {
                    Option::None => Option::Some(
                        Result::Err(mkerr(ctx, whole, TypeMessage::Unimplemented)),
                    ),
                    Option::Some(a) => match type_with(fuel, ctx, a) {
                        Option::None => Option::None,
                        Option::Some(Result::Err(e)) => Option::Some(Result::Err(e)),
                        Option::Some(Result::Ok(_)) => Option::Some(
                            Result::Err(mkerr(ctx, whole, TypeMessage::Unimplemented)),
                        ),
                    },
                },
            },
        },
        OpKind::ToMap(r, a) => match type_with(fuel, ctx, r) {
            Option::None => Option::None,
            Option::Some(Result::Err(e)) => Option::Some(Result::Err(e)),
            Option::Some(Result::Ok(_)) => match a {
                Option::None => Option::Some(
                    Result::Err(mkerr(ctx, whole, TypeMessage::Unimplemented)),
                ),
                Option::Some(a) => match type_with(fuel, ctx, a) {
                    Option::None => Option::None,
                    Option::Some(Result::Err(e)) => Option::Some(Result::Err(e)),
                    Option::Some(Result::Ok(_)) => Option::Some(
                        Result::Err(mkerr(ctx, whole, TypeMessage::Unimplemented)),
                    ),
                },
            },
        },
        OpKind::Projection(r, _) => match type_with(fuel, ctx, r) {
            Option::None => Option::None,
            Option::Some(Result::Err(e)) => Option::Some(Result::Err(e)),
            Option::Some(Result::Ok(_)) => Option::Some(
                Result::Err(mkerr(ctx, whole, TypeMessage::Unimplemented)),
            ),
        },
        OpKind::ProjectionByExpr(r, ty) => match type_with(fuel, ctx, r) {
            Option::None => Option::None,
            Option::Some(Result::Err(e)) => Option::Some(Result::Err(e)),
            Option::Some(Result::Ok(_)) => match type_with(fuel, ctx, ty) {
                Option::None => Option::None,
                Option::Some(Result::Err(e)) => Option::Some(Result::Err(e)),
                Option::Some(Result::Ok(_)) => Option::Some(
                    Result::Err(mkerr(ctx, whole, TypeMessage::Unimplemented)),
                ),
            },
        },
        OpKind::Completion(a, b) => match type_with(fuel, ctx, a) {
            Option::None => Option::None,
            Option::Some(Result::Err(e)) => Option::Some(Result::Err(e)),
            Option::Some(Result::Ok(_)) => match type_with(fuel, ctx, b) {
                Option::None => Option::None,
                Option::Some(Result::Err(e)) => Option::Some(Result::Err(e)),
                Option::Some(Result::Ok(_)) => Option::Some(
                    Result::Err(mkerr(ctx, whole, TypeMessage::Unimplemented)),
                ),
            },
        },
        OpKind::With(r, _, v) => match type_with(fuel, ctx, r) {
            Option::None => Option::None,
            Option::Some(Result::Err(e)) => Option::Some(Result::Err(e)),
            Option::Some(Result::Ok(_)) => match type_with(fuel, ctx, v) {
                Option::None => Option::None,
                Option::Some(Result::Err(e)) => Option::Some(Result::Err(e)),
                Option::Some(Result::Ok(_)) => Option::Some(
                    Result::Err(mkerr(ctx, whole, TypeMessage::Unimplemented)),
                ),
            },
        },
    }
}

fn tw_lam(fuel: u64, ctx: &TypecheckContext, t: &Term, x: &Label, a: &Term, body: &Term) -> (r: TcOut)
    requires
        *t == Term::Lam(*x, Box::new(*a), Box::new(*body)),
    ensures
        r == tc_s(fuel as nat, ctx.0, *t),
    decreases fuel, 1int, *t, 0int,
{
    match type_with(fuel, ctx, a) {
            Option::None => Option::None,
            Option::Some(Result::Err(e)) => Option::Some(Result::Err(e)),
            Option::Some(Result::Ok(ia)) => match normalize(fuel, a) {
                Option::None => Option::None,
                Option::Some(a2) => match ia {
                    Inferred::Ty(Term::Const(ka), _) => {
                        let ctx2 = ctx.insert_type(x, &a2, ka);
                        match type_with(fuel, &ctx2, body) {
                            Option::None => Option::None,
                            Option::Some(Result::Err(e)) => Option::Some(Result::Err(e)),
                            Option::Some(Result::Ok(Inferred::SuperType)) => Option::Some(
                                Result::Err(mkerr(ctx, t, TypeMessage::Untyped)),
                            ),
                            Option::Some(Result::Ok(Inferred::Ty(tb, ub))) => match ub {
                                Univ::Of(kb) => match function_check(ka, kb) {
                                    Result::Ok(k) => Option::Some(
                                        Result::Ok(
                                            Inferred::Ty(
                                                Term::Pi(
                                                    x.dup(),
                                                    Box::new(a2),
                                                    Box::new(tb),
                                                ),
                                                Univ::Of(k),
                                            ),
                                        ),
                                    ),
                                    Result::Err(()) => Option::Some(
                                        Result::Err(
                                            mkerr(
                                                ctx,
                                                t,
                                                TypeMessage::NoDependentTypes(a2, tb),
                                            ),
                                        ),
                                    ),
                                },
                                Univ::SuperType => Option::Some(
                                    Result::Err(
                                        mkerr(ctx, t, TypeMessage::InvalidOutputType(tb)),
                                    ),
                                ),
                            },
                        }
                    }
                    _ => Option::Some(
                        Result::Err(mkerr(ctx, t, TypeMessage::InvalidInputType(a2))),
                    ),
                },
            },
        }
}

fn tw_pi(fuel: u64, ctx: &TypecheckContext, t: &Term, x: &Label, a: &Term, b: &Term) -> (r: TcOut)
    requires
        *t == Term::Pi(*x, Box::new(*a), Box::new(*b)),
    ensures
        r == tc_s(fuel as nat, ctx.0, *t),
    decreases fuel, 1int, *t, 0int,
{
    match type_with(fuel, ctx, a) {
            Option::None => Option::None,
            Option::Some(Result::Err(e)) => Option::Some(Result::Err(e)),
            Option::Some(Result::Ok(ia)) => match normalize(fuel, a) {
                Option::None => Option::None,
                Option::Some(a2) => match ia {
                    Inferred::Ty(Term::Const(ka), _) => {
                        let ctx2 = ctx.insert_type(x, &a2, ka);
                        match type_with(fuel, &ctx2, b) {
                            Option::None => Option::None,
                            Option::Some(Result::Err(e)) => Option::Some(Result::Err(e)),
                            Option::Some(Result::Ok(ib)) => match ib {
                                Inferred::Ty(Term::Const(kb), _) => match function_check(
                                    ka,
                                    kb,
                                ) {
                                    Result::Ok(k) => Option::Some(
                                        Result::Ok(
                                            Inferred::Ty(
                                                Term::Const(k),
                                                match k {
                                                    Const::Type => Univ::Of(Const::Kind),
                                                    Const::Kind => Univ::Of(Const::Sort),
                                                    Const::Sort => Univ::SuperType,
                                                },
                                            ),
                                        ),
                                    ),
                                    Result::Err(()) => match normalize(fuel, b) {
                                        Option::None => Option::None,
                                        Option::Some(b2) => Option::Some(
                                            Result::Err(
                                                mkerr(
                                                    ctx,
                                                    t,
                                                    TypeMessage::NoDependentTypes(a2, b2),
                                                ),
                                            ),
                                        ),
                                    },
                                },
                                _ => match normalize(fuel, b) {
                                    Option::None => Option::None,
                                    Option::Some(b2) => Option::Some(
                                        Result::Err(
                                            mkerr(
                                                ctx,
                                                t,
                                                TypeMessage::InvalidOutputType(b2),
                                            ),
                                        ),
                                    ),
                                },
                            },
                        }
                    }
                    _ => Option::Some(
                        Result::Err(mkerr(ctx, t, TypeMessage::InvalidInputType(a2))),
                    ),
                },
            },
        }
}

fn tw_let(fuel: u64, ctx: &TypecheckContext, t: &Term, x: &Label, ann: &Option<Box<Term>>, v: &Term, body: &Term) -> (r: TcOut)
    requires
        *t == Term::Let(*x, *ann, Box::new(*v), Box::new(*body)),
    ensures
        r == tc_s(fuel as nat, ctx.0, *t),
    decreases fuel, 1int, *t, 0int,
{
    match type_with(fuel, ctx, v) {
            Option::None => Option::None,
            Option::Some(Result::Err(e)) => Option::Some(Result::Err(e)),
            Option::Some(Result::Ok(Inferred::SuperType)) => Option::Some(
                Result::Err(mkerr(ctx, t, TypeMessage::Untyped)),
            ),
            Option::Some(Result::Ok(Inferred::Ty(tv, uv))) => {
                let ann_ok: Option<Result<bool, TypeError>> = match ann {
                    Option::None => Option::Some(Result::Ok(true)),
                    Option::Some(an) => match type_with(fuel, ctx, an) {
                        Option::None => Option::None,
                        Option::Some(Result::Err(e)) => Option::Some(Result::Err(e)),
                        Option::Some(Result::Ok(_)) => match normalize(fuel, an) {
                            Option::None => Option::None,
                            Option::Some(an2) => {
                                if alpha_eq(&an2, &tv) {
                                    Option::Some(Result::Ok(true))
                                } else {
                                    Option::Some(
                                        Result::Err(
                                            mkerr(
                                                ctx,
                                                t,
                                                TypeMessage::AnnotMismatch(v.dup(), an2),
                                            ),
                                        ),
                                    )
                                }
                            }
                        },
                    },
                };
                match ann_ok {
                    Option::None => Option::None,
                    Option::Some(Result::Err(e)) => Option::Some(Result::Err(e)),
                    Option::Some(Result::Ok(_)) => match normalize(fuel, v) {
                        Option::None => Option::None,
                        Option::Some(v2) => {
                            let ctx2 = ctx.insert_value(x, &v2, &tv, &uv);
                            type_with(fuel, &ctx2, body)
                        }
                    },
                }
            }
        }
}

fn tw_app(fuel: u64, ctx: &TypecheckContext, t: &Term, f: &Term, arg: &Term) -> (r: TcOut)
    requires
        *t == Term::App(Box::new(*f), Box::new(*arg)),
    ensures
        r == tc_s(fuel as nat, ctx.0, *t),
    decreases fuel, 1int, *t, 0int,
{
    match type_with(fuel, ctx, f) {
            Option::None => Option::None,
            Option::Some(Result::Err(e)) => Option::Some(Result::Err(e)),
            Option::Some(Result::Ok(inf_f)) => match inf_f {
                Inferred::Ty(Term::Pi(x, tx, tb), _) => match type_with(fuel, ctx, arg) {
                    Option::None => Option::None,
                    Option::Some(Result::Err(e)) => Option::Some(Result::Err(e)),
                    Option::Some(Result::Ok(Inferred::SuperType)) => Option::Some(
                        Result::Err(
                            mkerr(
                                ctx,
                                t,
                                TypeMessage::TypeMismatch(f.dup(), *tx, arg.dup()),
                            ),
                        ),
                    ),
                    Option::Some(Result::Ok(Inferred::Ty(ta, _))) => {
                        if alpha_eq(&ta, &tx) {
                            match normalize(fuel, arg) {
                                Option::None => Option::None,
                                Option::Some(a2) => {
                                    let sub = crate::subst::subst_shift(
                                        &V(x, 0),
                                        &a2,
                                        &tb,
                                    );
                                    match normalize(fuel, &sub) {
                                        Option::None => Option::None,
                                        Option::Some(tr) => match univ_of_type(
                                            fuel,
                                            ctx,
                                            t,
                                            &tr,
                                        ) {
                                            Option::None => Option::None,
                                            Option::Some(Result::Err(e)) => Option::Some(
                                                Result::Err(e),
                                            ),
                                            Option::Some(Result::Ok(u)) => Option::Some(
                                                Result::Ok(Inferred::Ty(tr, u)),
                                            ),
                                        },
                                    }
                                }
                            }
                        } else {
                            Option::Some(
                                Result::Err(
                                    mkerr(
                                        ctx,
                                        t,
                                        TypeMessage::TypeMismatch(f.dup(), *tx, arg.dup()),
                                    ),
                                ),
                            )
                        }
                    }
                },
                _ => Option::Some(
                    Result::Err(mkerr(ctx, t, TypeMessage::NotAFunction(f.dup()))),
                ),
            },
        }
}

fn tw_annot(fuel: u64, ctx: &TypecheckContext, t: &Term, e: &Term, ann: &Term) -> (r: TcOut)
    requires
        *t == Term::Annot(Box::new(*e), Box::new(*ann)),
    ensures
        r == tc_s(fuel as nat, ctx.0, *t),
    decreases fuel, 1int, *t, 0int,
{
    match type_with(fuel, ctx, ann) {
            Option::None => Option::None,
            Option::Some(Result::Err(err)) => Option::Some(Result::Err(err)),
            Option::Some(Result::Ok(_)) => match normalize(fuel, ann) {
                Option::None => Option::None,
                Option::Some(an2) => match type_with(fuel, ctx, e) {
                    Option::None => Option::None,
                    Option::Some(Result::Err(err)) => Option::Some(Result::Err(err)),
                    Option::Some(Result::Ok(Inferred::SuperType)) => Option::Some(
                        Result::Err(
                            mkerr(ctx, t, TypeMessage::AnnotMismatch(e.dup(), an2)),
                        ),
                    ),
                    Option::Some(Result::Ok(Inferred::Ty(te, ue))) => {
                        if alpha_eq(&an2, &te) {
                            Option::Some(Result::Ok(Inferred::Ty(te, ue)))
                        } else {
                            Option::Some(
                                Result::Err(
                                    mkerr(
                                        ctx,
                                        t,
                                        TypeMessage::AnnotMismatch(e.dup(), an2),
                                    ),
                                ),
                            )
                        }
                    }
                },
            },
        }
}

fn tw_oldopt(fuel: u64, ctx: &TypecheckContext, t: &Term, v: &Option<Box<Term>>, elem: &Term) -> (r: TcOut)
    requires
        *t == Term::OldOptionalLit(*v, Box::new(*elem)),
    ensures
        r == tc_s(fuel as nat, ctx.0, *t),
    decreases fuel, 1int, *t, 0int,
{
    match type_with(fuel, ctx, elem) {
            Option::None => Option::None,
            Option::Some(Result::Err(e)) => Option::Some(Result::Err(e)),
            Option::Some(Result::Ok(ie)) => match normalize(fuel, elem) {
                Option::None => Option::None,
                Option::Some(e2) => match ie {
                    Inferred::Ty(Term::Const(Const::Type), _) => match v {
                        Option::None => Option::Some(
                            Result::Ok(
                                Inferred::Ty(
                                    Term::App(
                                        Box::new(Term::Builtin(Builtin::Optional)),
                                        Box::new(e2),
                                    ),
                                    Univ::Of(Const::Type),
                                ),
                            ),
                        ),
                        Option::Some(x) => match type_with(fuel, ctx, x) {
                            Option::None => Option::None,
                            Option::Some(Result::Err(e)) => Option::Some(Result::Err(e)),
                            Option::Some(Result::Ok(Inferred::SuperType)) => Option::Some(
                                Result::Err(mkerr(ctx, t, TypeMessage::Untyped)),
                            ),
                            Option::Some(Result::Ok(Inferred::Ty(tx, _))) => {
                                if alpha_eq(&tx, &e2) {
                                    Option::Some(
                                        Result::Ok(
                                            Inferred::Ty(
                                                Term::App(
                                                    Box::new(
                                                        Term::Builtin(Builtin::Optional),
                                                    ),
                                                    Box::new(e2),
                                                ),
                                                Univ::Of(Const::Type),
                                            ),
                                        ),
                                    )
                                } else {
                                    Option::Some(
                                        Result::Err(
                                            mkerr(
                                                ctx,
                                                t,
                                                TypeMessage::AnnotMismatch(x.dup(), e2),
                                            ),
                                        ),
                                    )
                                }
                            }
                        },
                    },
                    _ => Option::Some(
                        Result::Err(
                            mkerr(ctx, t, TypeMessage::InvalidOptionalType(e2)),
                        ),
                    ),
                },
            },
        }
}

fn tw_unionlit(fuel: u64, ctx: &TypecheckContext, t: &Term, x: &Label, v: &Term, alts: &AltList) -> (r: TcOut)
    requires
        *t == Term::UnionLit(*x, Box::new(*v), Box::new(*alts)),
    ensures
        r == tc_s(fuel as nat, ctx.0, *t),
    decreases fuel, 1int, *t, 0int,
{
    match type_with(fuel, ctx, v) {
            Option::None => Option::None,
            Option::Some(Result::Err(e)) => Option::Some(Result::Err(e)),
            Option::Some(Result::Ok(Inferred::SuperType)) => Option::Some(
                Result::Err(mkerr(ctx, t, TypeMessage::Untyped)),
            ),
            Option::Some(Result::Ok(Inferred::Ty(tv, uv))) => match uv {
                Univ::Of(kv) => match tc_union_alts(fuel, ctx, t, alts) {
                    Option::None => Option::None,
                    Option::Some(Result::Err(e)) => Option::Some(Result::Err(e)),
                    Option::Some(Result::Ok(k)) => {
                        let mismatched = match k {
                            Option::Some(k) => k != kv,
                            Option::None => false,
                        };
                        if mismatched {
                            Option::Some(
                                Result::Err(
                                    mkerr(ctx, t, TypeMessage::InvalidFieldType(x.dup(), tv)),
                                ),
                            )
                        } else {
                            match crate::normalize::norm_alts_pub(fuel, alts) {
                                Option::None => Option::None,
                                Option::Some(alts2) => Option::Some(
                                    Result::Ok(
                                        Inferred::Ty(
                                            Term::UnionType(
                                                Box::new(
                                                    AltList::Cons(
                                                        x.dup(),
                                                        Option::Some(tv),
                                                        Box::new(alts2),
                                                    ),
                                                ),
                                            ),
                                            Univ::Of(kv),
                                        ),
                                    ),
                                ),
                            }
                        }
                    }
                },
                Univ::SuperType => Option::Some(
                    Result::Err(
                        mkerr(ctx, t, TypeMessage::InvalidFieldType(x.dup(), tv)),
                    ),
                ),
            },
        }
}

fn tw_nelist(fuel: u64, ctx: &TypecheckContext, t: &Term, ts: &TermList) -> (r: TcOut)
    requires
        *t == Term::NEListLit(Box::new(*ts)),
    ensures
        r == tc_s(fuel as nat, ctx.0, *t),
    decreases fuel, 1int, *t, 0int,
{
    match ts {
            TermList::Nil => Option::Some(
                Result::Err(mkerr(ctx, t, TypeMessage::Unimplemented)),
            ),
            TermList::Cons(x0, rest) => match type_with(fuel, ctx, x0) {
                Option::None => Option::None,
                Option::Some(Result::Err(e)) => Option::Some(Result::Err(e)),
                Option::Some(Result::Ok(Inferred::SuperType)) => Option::Some(
                    Result::Err(mkerr(ctx, t, TypeMessage::Untyped)),
                ),
                Option::Some(Result::Ok(Inferred::Ty(t0, u0))) => {
                    if !matches!(u0, Univ::Of(Const::Type)) {
                        Option::Some(
                            Result::Err(mkerr(ctx, t, TypeMessage::InvalidListType(t0))),
                        )
                    } else {
                        match tc_list_elems(fuel, ctx, t, &t0, 1, rest) {
                            Option::None => Option::None,
                            Option::Some(Result::Err(e)) => Option::Some(Result::Err(e)),
                            Option::Some(Result::Ok(_)) => Option::Some(
                                Result::Ok(
                                    Inferred::Ty(
                                        Term::App(
                                            Box::new(Term::Builtin(Builtin::List)),
                                            Box::new(t0),
                                        ),
                                        Univ::Of(Const::Type),
                                    ),
                                ),
                            ),
                        }
                    }
                }
            },
        }
}

/// The fuel the closed-term entry points run with.  Fuel is spent only on
/// beta-, `let`- and builtin unfoldings and on the types the rules build,
/// so this covers any input whose normalisation takes fewer than a million
/// reduction steps; Dhall terms are strongly normalising once well-typed,
/// and the entry points state the budget as a precondition rather than
/// trying to detect divergence.
pub const DEFAULT_FUEL: u64 = 1000000;

/// The typing of a closed term: infer under the empty context and reject
/// an inferred type that is the unobservable sentinel.
pub open spec fn type_of_s(fuel: nat, t: Term) -> Option<Result<Term, TypeError>> {
    match tc_s(fuel, CtxList::Nil, t) {
        Option::None => Option::None,
        Option::Some(Result::Err(e)) => Option::Some(Result::Err(e)),
        Option::Some(Result::Ok(Inferred::SuperType)) => Option::Some(
            Result::Err(mkerr_s(CtxList::Nil, t, TypeMessage::Untyped)),
        ),
        Option::Some(Result::Ok(Inferred::Ty(ty, _))) => Option::Some(Result::Ok(ty)),
    }
}

/// A closed, import-resolved term, ready for the typechecker.
#[derive(Debug, PartialEq, Eq)]
pub struct Resolved(pub Term);

/// A term paired with its inferred normal-form type.  The type is absent
/// only when the typechecker was skipped.
#[derive(Debug, PartialEq, Eq)]
pub struct Typed {
    pub term: Term,
    pub ty: Option<Term>,
}

/// A term reduced to normal form, with its type when known.
#[derive(Debug, PartialEq, Eq)]
pub struct Normalized {
    pub term: Term,
    pub ty: Option<Term>,
}

/// A normal-form type.
#[derive(Debug, PartialEq, Eq)]
pub struct Type(pub Term);

impl Resolved {
    /// Typecheck a closed term: its inferred normal-form type, or the
    /// first type error.  A term that cannot be checked within the default
    /// fuel budget is outside this function's precondition; `typecheck_fuel`
    /// is the total variant.
    pub fn typecheck(self) -> (r: Result<Typed, TypeError>)
        requires
            type_of_s(DEFAULT_FUEL as nat, self.0).is_some(),
        ensures
            r == match type_of_s(DEFAULT_FUEL as nat, self.0) {
                Option::Some(Result::Ok(ty)) => Result::<Typed, TypeError>::Ok(
                    Typed { term: self.0, ty: Option::Some(ty) },
                ),
                Option::Some(Result::Err(e)) => Result::<Typed, TypeError>::Err(e),
                Option::None => r,
            },
    {
        match self.typecheck_fuel(DEFAULT_FUEL) {
            Option::Some(out) => out,
            Option::None => {
                proof {
                    assert(false);
                }
                Result::Err(
                    TypeError {
                        context: TypecheckContext::new(),
                        current: Term::Const(Const::Sort),
                        type_message: TypeMessage::Untyped,
                    },
                )
            }
        }
    }

    /// Typecheck a closed term within an explicit fuel budget; `None`
    /// exactly when the budget does not suffice.
    pub fn typecheck_fuel(self, fuel: u64) -> (r: Option<Result<Typed, TypeError>>)
        ensures
            r == match type_of_s(fuel as nat, self.0) {
                Option::None => Option::<Result<Typed, TypeError>>::None,
                Option::Some(Result::Ok(ty)) => Option::Some(
                    Result::<Typed, TypeError>::Ok(
                        Typed { term: self.0, ty: Option::Some(ty) },
                    ),
                ),
                Option::Some(Result::Err(e)) => Option::Some(
                    Result::<Typed, TypeError>::Err(e),
                ),
            },
    {
        let ctx = TypecheckContext::new();
        match type_with(fuel, &ctx, &self.0) {
            Option::None => Option::None,
            Option::Some(Result::Err(e)) => Option::Some(Result::Err(e)),
            Option::Some(Result::Ok(Inferred::SuperType)) => Option::Some(
                Result::Err(mkerr(&ctx, &self.0, TypeMessage::Untyped)),
            ),
            Option::Some(Result::Ok(Inferred::Ty(ty, _))) => Option::Some(
                Result::Ok(Typed { term: self.0, ty: Option::Some(ty) }),
            ),
        }
    }

    /// Typecheck against an expected type: equivalent to typechecking
    /// `Annot(term, expected)`.
    pub fn typecheck_with(self, ty: &Type) -> (r: Result<Typed, TypeError>)
        requires
            type_of_s(
                DEFAULT_FUEL as nat,
                Term::Annot(Box::new(self.0), Box::new(ty.0)),
            ).is_some(),
        ensures
            r == match type_of_s(
                DEFAULT_FUEL as nat,
                Term::Annot(Box::new(self.0), Box::new(ty.0)),
            ) {
                Option::Some(Result::Ok(t2)) => Result::<Typed, TypeError>::Ok(
                    Typed {
                        term: Term::Annot(Box::new(self.0), Box::new(ty.0)),
                        ty: Option::Some(t2),
                    },
                ),
                Option::Some(Result::Err(e)) => Result::<Typed, TypeError>::Err(e),
                Option::None => r,
            },
    {
        let annotated = Resolved(Term::Annot(Box::new(self.0), Box::new(ty.0.dup())));
        annotated.typecheck()
    }

    /// Pretend the term has been typechecked.  Use with care: the result
    /// carries no type, and asking for one gives `Untyped`.
    pub fn skip_typecheck(self) -> (r: Typed)
        ensures
            r.term == self.0,
            r.ty is None,
    {
        Typed { term: self.0, ty: Option::None }
    }
}

impl Typed {
    /// The inferred type, or `Untyped` when the typechecker was skipped.
    pub fn get_type_move(self) -> (r: Result<Type, TypeError>)
        ensures
            match self.ty {
                Option::Some(ty) => r == Result::<Type, TypeError>::Ok(Type(ty)),
                Option::None => r matches Result::Err(e) && e.type_message
                    == TypeMessage::Untyped,
            },
    {
        match self.ty {
            Option::Some(ty) => Result::Ok(Type(ty)),
            Option::None => Result::Err(
                TypeError {
                    context: TypecheckContext::new(),
                    current: self.term,
                    type_message: TypeMessage::Untyped,
                },
            ),
        }
    }

    /// Reduce the term itself to normal form.  The type, already normal,
    /// is kept as it is.
    pub fn normalize(self) -> (r: Normalized)
        requires
            norm_s(DEFAULT_FUEL as nat, self.term).is_some(),
        ensures
            Option::Some(r.term) == norm_s(DEFAULT_FUEL as nat, self.term),
            r.ty == self.ty,
    {
        match normalize(DEFAULT_FUEL, &self.term) {
            Option::Some(t2) => Normalized { term: t2, ty: self.ty },
            Option::None => {
                proof {
                    assert(false);
                }
                Normalized { term: self.term, ty: self.ty }
            }
        }
    }
}

impl Normalized {
    /// Shift the term and its type on `V(label, 0)`.
    pub fn shift0(&self, delta: i64, label: &Label) -> (r: Normalized)
        requires
            delta == 1 || delta == -1,
        ensures
            r.term == crate::shift::shift_s(delta as int, *label, 0, self.term),
            match (self.ty, r.ty) {
                (Option::Some(t), Option::Some(t2)) => t2 == crate::shift::shift_s(
                    delta as int,
                    *label,
                    0,
                    t,
                ),
                (Option::None, Option::None) => true,
                _ => false,
            },
    {
        Normalized {
            term: crate::shift::shift0(delta, label, &self.term),
            ty: match &self.ty {
                Option::Some(t) => Option::Some(crate::shift::shift0(delta, label, t)),
                Option::None => Option::None,
            },
        }
    }

    /// Shift the term and its type on an arbitrary variable.
    pub fn shift(&self, delta: i64, var: &V) -> (r: Normalized)
        requires
            delta == 1 || delta == -1,
        ensures
            r.term == crate::shift::shift_s(delta as int, var.0, var.1, self.term),
            match (self.ty, r.ty) {
                (Option::Some(t), Option::Some(t2)) => t2 == crate::shift::shift_s(
                    delta as int,
                    var.0,
                    var.1,
                    t,
                ),
                (Option::None, Option::None) => true,
                _ => false,
            },
    {
        Normalized {
            term: crate::shift::shift(delta, var, &self.term),
            ty: match &self.ty {
                Option::Some(t) => Option::Some(crate::shift::shift(delta, var, t)),
                Option::None => Option::None,
            },
        }
    }
}

impl Type {
    /// The type `Type`.
    pub fn const_type() -> (r: Type)
        ensures
            r.0 == Term::Const(Const::Type),
    {
        Type(Term::Const(Const::Type))
    }

    /// The type `Kind`.
    pub fn const_kind() -> (r: Type)
        ensures
            r.0 == Term::Const(Const::Kind),
    {
        Type(Term::Const(Const::Kind))
    }

    /// The type `Sort`.
    pub fn const_sort() -> (r: Type)
        ensures
            r.0 == Term::Const(Const::Sort),
    {
        Type(Term::Const(Const::Sort))
    }
}

/// Equality of types up to alpha-equivalence: the only type equality the
/// checker uses.  Contexts deliberately play no part in it.
pub fn prop_equal(a: &Type, b: &Type) -> (r: bool)
    ensures
        r == alpha_eq_s(PairList::Nil, a.0, b.0),
{
    alpha_eq(&a.0, &b.0)
}

/// The type a successful inference produced, if any.
pub open spec fn inferred_type_of(out: TcOut) -> Option<Term> {
    match out {
        Option::Some(Result::Ok(Inferred::Ty(t, _))) => Option::Some(t),
        _ => Option::None,
    }
}

/// Typechecking an annotated term `e : ann` succeeds exactly when the
/// annotation itself typechecks and normalises, `e` typechecks, and the
/// normalised annotation is alpha-equivalent to the inferred type of `e`;
/// the type returned is then the type inferred for `e`.
pub proof fn lemma_typecheck_annot(fuel: nat, ctx: CtxList, e: Term, ann: Term)
    requires
        tc_s(fuel, ctx, Term::Annot(Box::new(e), Box::new(ann))).is_some(),
    ensures
        inferred_type_of(tc_s(fuel, ctx, Term::Annot(Box::new(e), Box::new(ann)))).is_some()
            <==> {
            &&& inferred_type_of(tc_s(fuel, ctx, e)).is_some()
            &&& tc_s(fuel, ctx, ann) matches Option::Some(Result::Ok(_))
            &&& norm_s(fuel, ann) matches Option::Some(an2) && alpha_eq_s(
                PairList::Nil,
                an2,
                inferred_type_of(tc_s(fuel, ctx, e)).unwrap(),
            )
        },
        inferred_type_of(tc_s(fuel, ctx, Term::Annot(Box::new(e), Box::new(ann)))).is_some()
            ==> inferred_type_of(tc_s(fuel, ctx, Term::Annot(Box::new(e), Box::new(ann))))
            == inferred_type_of(tc_s(fuel, ctx, e)),
{
}

fn mk_pi(x: Label, a: Term, b: Term) -> (r: Term)
    ensures
        r == pi_s(x, a, b),
{
    Term::Pi(x, Box::new(a), Box::new(b))
}

fn mk_app(f: Term, a: Term) -> (r: Term)
    ensures
        r == app_s(f, a),
{
    Term::App(Box::new(f), Box::new(a))
}

fn mk_var0(x: &Label) -> (r: Term)
    ensures
        r == var0_s(*x),
{
    Term::Var(V(x.dup(), 0))
}

} // verus!
