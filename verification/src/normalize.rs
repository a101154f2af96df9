//! The normaliser: reduction to beta-normal form.
//!
//! Reduction applies, until a fixed point is reached: beta-reduction,
//! `let` unfolding, annotation stripping, `if` reduction, the builtin
//! reductions of the `Natural/*`, `List/*` and `Optional/*` eliminators,
//! record field access and projection, and literal folding of the boolean,
//! natural and list-append operators.
//!
//! Dhall is strongly normalising only on well-typed terms, and nothing
//! here assumes the input was typechecked, so the recursion is bounded by
//! an explicit fuel.  Fuel is spent only on genuine reduction steps (a
//! beta contraction, a `let` or builtin unfolding), never on walking the
//! term, so a term already in normal form needs no fuel at all, and
//! `norm_s(0, t) == Some(t)` says exactly that `t` is normal.

use vstd::prelude::*;

use crate::subst::subst_shift_s;
use crate::shift::shift_s;
use crate::term::{
    label_of, AltList, BinOp, Builtin, FieldList, Label, LabelList, OpKind, Term, TermList,
    TextPieces, V,
};

verus! {

/// Length of a term list.
pub open spec fn len_tl(ts: TermList) -> nat
    decreases ts,
{
    match ts {
        TermList::Nil => 0,
        TermList::Cons(_, rest) => 1 + len_tl(*rest),
    }
}

/// Concatenation of two term lists.
pub open spec fn append_tl(l: TermList, r: TermList) -> TermList
    decreases l,
{
    match l {
        TermList::Nil => r,
        TermList::Cons(t, rest) => TermList::Cons(t, Box::new(append_tl(*rest, r))),
    }
}

/// Reversal of a term list.
pub open spec fn rev_tl(ts: TermList, acc: TermList) -> TermList
    decreases ts,
{
    match ts {
        TermList::Nil => acc,
        TermList::Cons(t, rest) => rev_tl(*rest, TermList::Cons(t, Box::new(acc))),
    }
}

/// The last element of a non-empty term list.
pub open spec fn last_tl(t: Term, rest: TermList) -> Term
    decreases rest,
{
    match rest {
        TermList::Nil => t,
        TermList::Cons(t2, rest2) => last_tl(t2, *rest2),
    }
}

/// The record `{ index = i, value = v }` produced by `List/indexed`.
pub open spec fn indexed_entry(i: u64, v: Term) -> Term {
    Term::RecordLit(
        Box::new(
            FieldList::Cons(
                label_of("index"@),
                Term::NaturalLit(i),
                Box::new(
                    FieldList::Cons(label_of("value"@), v, Box::new(FieldList::Nil)),
                ),
            ),
        ),
    )
}

/// Value of the field `x` in a field list, if present.
pub open spec fn fields_get_s(fs: FieldList, x: Label) -> Option<Term>
    decreases fs,
{
    match fs {
        FieldList::Nil => Option::None,
        FieldList::Cons(k, t, rest) => {
            if k == x {
                Option::Some(t)
            } else {
                fields_get_s(*rest, x)
            }
        }
    }
}

/// The alternative named `x` in an alternative list: `None` when absent,
/// otherwise the alternative's optional type.
pub open spec fn fields_get_alt_s(alts: AltList, x: Label) -> Option<Option<Term>>
    decreases alts,
{
    match alts {
        AltList::Nil => Option::None,
        AltList::Cons(k, t, rest) => {
            if k == x {
                Option::Some(t)
            } else {
                fields_get_alt_s(*rest, x)
            }
        }
    }
}

/// A projection of `ks` out of the fields `fs`; `None` when a label is
/// missing, in which case the projection stays stuck.
pub open spec fn project_s(fs: FieldList, ks: LabelList) -> Option<FieldList>
    decreases ks,
{
    match ks {
        LabelList::Nil => Option::Some(FieldList::Nil),
        LabelList::Cons(k, rest) => match fields_get_s(fs, k) {
            Option::None => Option::None,
            Option::Some(t) => match project_s(fs, *rest) {
                Option::None => Option::None,
                Option::Some(tail) => Option::Some(
                    FieldList::Cons(k, t, Box::new(tail)),
                ),
            },
        },
    }
}

/// The elements of a list folded right-to-left with `c`, ending in `nil`:
/// `c x1 (c x2 (... nil))`.
pub open spec fn fold_list_s(c: Term, ts: TermList, nil: Term) -> Term
    decreases ts,
{
    match ts {
        TermList::Nil => nil,
        TermList::Cons(t, rest) => Term::App(
            Box::new(Term::App(Box::new(c), Box::new(t))),
            Box::new(fold_list_s(c, *rest, nil)),
        ),
    }
}

/// The `{ index, value }` records of `List/indexed`, starting at index `i`.
pub open spec fn indexed_tl(i: u64, ts: TermList) -> TermList
    decreases ts,
{
    match ts {
        TermList::Nil => TermList::Nil,
        TermList::Cons(t, rest) => TermList::Cons(
            indexed_entry(i, t),
            Box::new(indexed_tl(crate::shift::idx_up(i), *rest)),
        ),
    }
}

/// `λ(n : Natural) → n + 1`, the successor handed to `Natural/build`.
pub open spec fn natural_succ_lam() -> Term {
    Term::Lam(
        label_of("n"@),
        Box::new(Term::Builtin(Builtin::Natural)),
        Box::new(
            Term::Op(
                Box::new(
                    OpKind::BinOp(
                        BinOp::NaturalPlus,
                        Term::Var(V(label_of("n"@), 0)),
                        Term::NaturalLit(1),
                    ),
                ),
            ),
        ),
    )
}

/// `λ(x : t) → λ(xs : List t) → [x] # xs`, the cons handed to `List/build`.
pub open spec fn list_cons_lam(t: Term) -> Term {
    Term::Lam(
        label_of("x"@),
        Box::new(t),
        Box::new(
            Term::Lam(
                label_of("xs"@),
                Box::new(
                    Term::App(
                        Box::new(Term::Builtin(Builtin::List)),
                        Box::new(shift_s(1, label_of("x"@), 0, t)),
                    ),
                ),
                Box::new(
                    Term::Op(
                        Box::new(
                            OpKind::BinOp(
                                BinOp::ListAppend,
                                Term::NEListLit(
                                    Box::new(
                                        TermList::Cons(
                                            Term::Var(V(label_of("x"@), 0)),
                                            Box::new(TermList::Nil),
                                        ),
                                    ),
                                ),
                                Term::Var(V(label_of("xs"@), 0)),
                            ),
                        ),
                    ),
                ),
            ),
        ),
    )
}

/// Model of the normaliser.  `None` means the fuel ran out.
pub open spec fn norm_s(fuel: nat, t: Term) -> Option<Term>
    decreases fuel, 5int, t,
{
    match t {
        Term::Var(_) => Option::Some(t),
        Term::Const(_) => Option::Some(t),
        Term::Builtin(_) => Option::Some(t),
        Term::Lam(x, ty, body) => match norm_s(fuel, *ty) {
            Option::None => Option::None,
            Option::Some(ty2) => match norm_s(fuel, *body) {
                Option::None => Option::None,
                Option::Some(b2) => Option::Some(
                    Term::Lam(x, Box::new(ty2), Box::new(b2)),
                ),
            },
        },
        Term::Pi(x, ty, body) => match norm_s(fuel, *ty) {
            Option::None => Option::None,
            Option::Some(ty2) => match norm_s(fuel, *body) {
                Option::None => Option::None,
                Option::Some(b2) => Option::Some(
                    Term::Pi(x, Box::new(ty2), Box::new(b2)),
                ),
            },
        },
        Term::App(f, a) => match norm_s(fuel, *f) {
            Option::None => Option::None,
            Option::Some(f2) => match norm_s(fuel, *a) {
                Option::None => Option::None,
                Option::Some(a2) => apply_s(fuel, f2, a2),
            },
        },
        Term::Let(x, _, v, body) => {
            if fuel == 0 {
                Option::None
            } else {
                match norm_s(fuel, *v) {
                    Option::None => Option::None,
                    Option::Some(v2) => norm_s(
                        (fuel - 1) as nat,
                        subst_shift_s(x, 0, v2, *body),
                    ),
                }
            }
        }
        Term::Annot(e, _) => norm_s(fuel, *e),
        Term::BoolLit(_) => Option::Some(t),
        Term::NaturalLit(_) => Option::Some(t),
        Term::IntegerLit(_) => Option::Some(t),
        Term::DoubleLit(_) => Option::Some(t),
        Term::TextLit(ps) => match norm_text_s(fuel, *ps) {
            Option::None => Option::None,
            Option::Some(ps2) => Option::Some(Term::TextLit(Box::new(ps2))),
        },
        Term::EmptyListLit(ty) => match norm_s(fuel, *ty) {
            Option::None => Option::None,
            Option::Some(ty2) => Option::Some(Term::EmptyListLit(Box::new(ty2))),
        },
        Term::NEListLit(ts) => match norm_list_s(fuel, *ts) {
            Option::None => Option::None,
            Option::Some(ts2) => Option::Some(Term::NEListLit(Box::new(ts2))),
        },
        Term::SomeLit(e) => match norm_s(fuel, *e) {
            Option::None => Option::None,
            Option::Some(e2) => Option::Some(Term::SomeLit(Box::new(e2))),
        },
        Term::OldOptionalLit(v, ty) => match norm_s(fuel, *ty) {
            Option::None => Option::None,
            Option::Some(ty2) => match v {
                Option::None => Option::Some(
                    Term::OldOptionalLit(Option::None, Box::new(ty2)),
                ),
                Option::Some(e) => match norm_s(fuel, *e) {
                    Option::None => Option::None,
                    Option::Some(e2) => Option::Some(
                        Term::OldOptionalLit(Option::Some(Box::new(e2)), Box::new(ty2)),
                    ),
                },
            },
        },
        Term::RecordType(kts) => match norm_fields_s(fuel, *kts) {
            Option::None => Option::None,
            Option::Some(kts2) => Option::Some(Term::RecordType(Box::new(kts2))),
        },
        Term::RecordLit(kvs) => match norm_fields_s(fuel, *kvs) {
            Option::None => Option::None,
            Option::Some(kvs2) => Option::Some(Term::RecordLit(Box::new(kvs2))),
        },
        Term::UnionType(kts) => match norm_alts_s(fuel, *kts) {
            Option::None => Option::None,
            Option::Some(kts2) => Option::Some(Term::UnionType(Box::new(kts2))),
        },
        Term::UnionLit(x, v, kts) => match norm_s(fuel, *v) {
            Option::None => Option::None,
            Option::Some(v2) => match norm_alts_s(fuel, *kts) {
                Option::None => Option::None,
                Option::Some(kts2) => Option::Some(
                    Term::UnionLit(x, Box::new(v2), Box::new(kts2)),
                ),
            },
        },
        Term::Op(op) => norm_op_s(fuel, *op),
        Term::Assert(e) => match norm_s(fuel, *e) {
            Option::None => Option::None,
            Option::Some(e2) => Option::Some(Term::Assert(Box::new(e2))),
        },
        Term::Import(i) => match i.resolved {
            Option::Some(r) => Option::Some(r.value),
            Option::None => Option::Some(Term::Import(i)),
        },
    }
}

pub open spec fn norm_list_s(fuel: nat, ts: TermList) -> Option<TermList>
    decreases fuel, 5int, ts,
{
    match ts {
        TermList::Nil => Option::Some(TermList::Nil),
        TermList::Cons(t, rest) => match norm_s(fuel, t) {
            Option::None => Option::None,
            Option::Some(t2) => match norm_list_s(fuel, *rest) {
                Option::None => Option::None,
                Option::Some(rest2) => Option::Some(TermList::Cons(t2, Box::new(rest2))),
            },
        },
    }
}

pub open spec fn norm_fields_s(fuel: nat, fs: FieldList) -> Option<FieldList>
    decreases fuel, 5int, fs,
{
    match fs {
        FieldList::Nil => Option::Some(FieldList::Nil),
        FieldList::Cons(k, t, rest) => match norm_s(fuel, t) {
            Option::None => Option::None,
            Option::Some(t2) => match norm_fields_s(fuel, *rest) {
                Option::None => Option::None,
                Option::Some(rest2) => Option::Some(
                    FieldList::Cons(k, t2, Box::new(rest2)),
                ),
            },
        },
    }
}

pub open spec fn norm_alts_s(fuel: nat, alts: AltList) -> Option<AltList>
    decreases fuel, 5int, alts,
{
    match alts {
        AltList::Nil => Option::Some(AltList::Nil),
        AltList::Cons(k, t, rest) => {
            let t2 = match t {
                Option::None => Option::Some(Option::None),
                Option::Some(t) => match norm_s(fuel, t) {
                    Option::None => Option::None,
                    Option::Some(t2) => Option::Some(Option::Some(t2)),
                },
            };
            match t2 {
                Option::None => Option::None,
                Option::Some(t2) => match norm_alts_s(fuel, *rest) {
                    Option::None => Option::None,
                    Option::Some(rest2) => Option::Some(
                        AltList::Cons(k, t2, Box::new(rest2)),
                    ),
                },
            }
        }
    }
}

pub open spec fn norm_text_s(fuel: nat, ps: TextPieces) -> Option<TextPieces>
    decreases fuel, 5int, ps,
{
    match ps {
        TextPieces::Empty => Option::Some(TextPieces::Empty),
        TextPieces::Chunk(s, rest) => match norm_text_s(fuel, *rest) {
            Option::None => Option::None,
            Option::Some(rest2) => Option::Some(TextPieces::Chunk(s, Box::new(rest2))),
        },
        TextPieces::Interp(t, rest) => match norm_s(fuel, t) {
            Option::None => Option::None,
            Option::Some(t2) => match norm_text_s(fuel, *rest) {
                Option::None => Option::None,
                Option::Some(rest2) => Option::Some(
                    TextPieces::Interp(t2, Box::new(rest2)),
                ),
            },
        },
    }
}

/// Normalise an operation whose operands are not yet normal.
pub open spec fn norm_op_s(fuel: nat, op: OpKind) -> Option<Term>
    decreases fuel, 5int, op,
{
    match op {
        OpKind::BoolIf(c, th, el) => match norm_s(fuel, c) {
            Option::None => Option::None,
            Option::Some(c2) => match norm_s(fuel, th) {
                Option::None => Option::None,
                Option::Some(t2) => match norm_s(fuel, el) {
                    Option::None => Option::None,
                    Option::Some(e2) => Option::Some(
                        if c2 == Term::BoolLit(true) {
                            t2
                        } else if c2 == Term::BoolLit(false) {
                            e2
                        } else if t2 == Term::BoolLit(true) && e2 == Term::BoolLit(false) {
                            c2
                        } else {
                            Term::Op(Box::new(OpKind::BoolIf(c2, t2, e2)))
                        },
                    ),
                },
            },
        },
        OpKind::BinOp(o, l, r) => match norm_s(fuel, l) {
            Option::None => Option::None,
            Option::Some(l2) => match norm_s(fuel, r) {
                Option::None => Option::None,
                Option::Some(r2) => Option::Some(binop_step_s(o, l2, r2)),
            },
        },
        OpKind::Field(r, k) => match norm_s(fuel, r) {
            Option::None => Option::None,
            Option::Some(r2) => Option::Some(
                match r2 {
                    Term::RecordLit(kvs) => match fields_get_s(*kvs, k) {
                        Option::Some(v) => v,
                        Option::None => Term::Op(
                            Box::new(OpKind::Field(Term::RecordLit(kvs), k)),
                        ),
                    },
                    _ => Term::Op(Box::new(OpKind::Field(r2, k))),
                },
            ),
        },
        OpKind::Projection(r, ks) => match norm_s(fuel, r) {
            Option::None => Option::None,
            Option::Some(r2) => Option::Some(
                match r2 {
                    Term::RecordLit(kvs) => match project_s(*kvs, ks) {
                        Option::Some(sel) => Term::RecordLit(Box::new(sel)),
                        Option::None => Term::Op(
                            Box::new(OpKind::Projection(Term::RecordLit(kvs), ks)),
                        ),
                    },
                    _ => Term::Op(Box::new(OpKind::Projection(r2, ks))),
                },
            ),
        },
        OpKind::Merge(h, u, a) => match norm_s(fuel, h) {
            Option::None => Option::None,
            Option::Some(h2) => match norm_s(fuel, u) {
                Option::None => Option::None,
                Option::Some(u2) => match a {
                    Option::None => Option::Some(
                        Term::Op(Box::new(OpKind::Merge(h2, u2, Option::None))),
                    ),
                    Option::Some(a) => match norm_s(fuel, a) {
                        Option::None => Option::None,
                        Option::Some(a2) => Option::Some(
                            Term::Op(Box::new(OpKind::Merge(h2, u2, Option::Some(a2)))),
                        ),
                    },
                },
            },
        },
        OpKind::ToMap(r, a) => match norm_s(fuel, r) {
            Option::None => Option::None,
            Option::Some(r2) => match a {
                Option::None => Option::Some(
                    Term::Op(Box::new(OpKind::ToMap(r2, Option::None))),
                ),
                Option::Some(a) => match norm_s(fuel, a) {
                    Option::None => Option::None,
                    Option::Some(a2) => Option::Some(
                        Term::Op(Box::new(OpKind::ToMap(r2, Option::Some(a2)))),
                    ),
                },
            },
        },
        OpKind::ProjectionByExpr(r, ty) => match norm_s(fuel, r) {
            Option::None => Option::None,
            Option::Some(r2) => match norm_s(fuel, ty) {
                Option::None => Option::None,
                Option::Some(ty2) => Option::Some(
                    Term::Op(Box::new(OpKind::ProjectionByExpr(r2, ty2))),
                ),
            },
        },
        OpKind::Completion(a, b) => match norm_s(fuel, a) {
            Option::None => Option::None,
            Option::Some(a2) => match norm_s(fuel, b) {
                Option::None => Option::None,
                Option::Some(b2) => Option::Some(
                    Term::Op(Box::new(OpKind::Completion(a2, b2))),
                ),
            },
        },
        OpKind::With(r, path, v) => match norm_s(fuel, r) {
            Option::None => Option::None,
            Option::Some(r2) => match norm_s(fuel, v) {
                Option::None => Option::None,
                Option::Some(v2) => Option::Some(
                    Term::Op(Box::new(OpKind::With(r2, path, v2))),
                ),
            },
        },
    }
}

/// One folding step of a binary operator on normal operands.
pub open spec fn binop_step_s(o: BinOp, l: Term, r: Term) -> Term {
    match o {
        BinOp::BoolAnd => match (l, r) {
            (Term::BoolLit(a), Term::BoolLit(b)) => Term::BoolLit(a && b),
            (l, r) => Term::Op(Box::new(OpKind::BinOp(o, l, r))),
        },
        BinOp::BoolOr => match (l, r) {
            (Term::BoolLit(a), Term::BoolLit(b)) => Term::BoolLit(a || b),
            (l, r) => Term::Op(Box::new(OpKind::BinOp(o, l, r))),
        },
        BinOp::BoolEQ => match (l, r) {
            (Term::BoolLit(a), Term::BoolLit(b)) => Term::BoolLit(a == b),
            (l, r) => Term::Op(Box::new(OpKind::BinOp(o, l, r))),
        },
        BinOp::BoolNE => match (l, r) {
            (Term::BoolLit(a), Term::BoolLit(b)) => Term::BoolLit(a != b),
            (l, r) => Term::Op(Box::new(OpKind::BinOp(o, l, r))),
        },
        BinOp::NaturalPlus => match (l, r) {
            (Term::NaturalLit(a), Term::NaturalLit(b)) => {
                if a + b <= u64::MAX {
                    Term::NaturalLit((a + b) as u64)
                } else {
                    Term::Op(
                        Box::new(
                            OpKind::BinOp(o, Term::NaturalLit(a), Term::NaturalLit(b)),
                        ),
                    )
                }
            }
            (l, r) => Term::Op(Box::new(OpKind::BinOp(o, l, r))),
        },
        BinOp::NaturalTimes => match (l, r) {
            (Term::NaturalLit(a), Term::NaturalLit(b)) => {
                if a * b <= u64::MAX {
                    Term::NaturalLit((a * b) as u64)
                } else {
                    Term::Op(
                        Box::new(
                            OpKind::BinOp(o, Term::NaturalLit(a), Term::NaturalLit(b)),
                        ),
                    )
                }
            }
            (l, r) => Term::Op(Box::new(OpKind::BinOp(o, l, r))),
        },
        BinOp::ListAppend => match (l, r) {
            (Term::EmptyListLit(_), r) => r,
            (l, Term::EmptyListLit(_)) => l,
            (Term::NEListLit(a), Term::NEListLit(b)) => Term::NEListLit(
                Box::new(append_tl(*a, *b)),
            ),
            (l, r) => Term::Op(Box::new(OpKind::BinOp(o, l, r))),
        },
        _ => Term::Op(Box::new(OpKind::BinOp(o, l, r))),
    }
}

/// Apply a normal function term to a normal argument, contracting the
/// beta-redexes and builtin redexes this exposes.
pub open spec fn apply_s(fuel: nat, f: Term, a: Term) -> Option<Term>
    decreases fuel, 4int, a,
{
    if fuel == 0 {
        // every genuine reduction below needs fuel; a stuck application does
        // not, but treating the whole case uniformly keeps the model simple
        match f {
            Term::Lam(_, _, _) => Option::None,
            Term::Builtin(_) => Option::Some(stuck_app(f, a)),
            Term::App(_, _) => Option::Some(stuck_app(f, a)),
            _ => Option::Some(stuck_app(f, a)),
        }
    } else {
        let next = (fuel - 1) as nat;
        match f {
            Term::Lam(x, _, body) => norm_s(next, subst_shift_s(x, 0, a, *body)),
            Term::Builtin(Builtin::NaturalIsZero) => match a {
                Term::NaturalLit(n) => Option::Some(Term::BoolLit(n == 0)),
                _ => Option::Some(stuck_app(f, a)),
            },
            Term::Builtin(Builtin::NaturalEven) => match a {
                Term::NaturalLit(n) => Option::Some(Term::BoolLit(n % 2 == 0)),
                _ => Option::Some(stuck_app(f, a)),
            },
            Term::Builtin(Builtin::NaturalOdd) => match a {
                Term::NaturalLit(n) => Option::Some(Term::BoolLit(n % 2 == 1)),
                _ => Option::Some(stuck_app(f, a)),
            },
            Term::Builtin(Builtin::NaturalBuild) => norm_s(
                next,
                Term::App(
                    Box::new(
                        Term::App(
                            Box::new(
                                Term::App(
                                    Box::new(a),
                                    Box::new(Term::Builtin(Builtin::Natural)),
                                ),
                            ),
                            Box::new(natural_succ_lam()),
                        ),
                    ),
                    Box::new(Term::NaturalLit(0)),
                ),
            ),
            Term::App(g1, b1) => apply2_s(next, *g1, *b1, a),
            _ => Option::Some(stuck_app(f, a)),
        }
    }
}

/// The application left as-is, when no reduction fires.
pub open spec fn stuck_app(f: Term, a: Term) -> Term {
    Term::App(Box::new(f), Box::new(a))
}

/// Continue `apply_s` for a head of the shape `(g1 b1) a`.
pub open spec fn apply2_s(fuel: nat, g1: Term, b1: Term, a: Term) -> Option<Term>
    decreases fuel, 3int, a,
{
    let whole = stuck_app(Term::App(Box::new(g1), Box::new(b1)), a);
    match g1 {
        Term::Builtin(Builtin::ListLength) => match a {
            Term::EmptyListLit(_) => Option::Some(Term::NaturalLit(0)),
            Term::NEListLit(l) => {
                if len_tl(*l) <= u64::MAX {
                    Option::Some(Term::NaturalLit(len_tl(*l) as u64))
                } else {
                    Option::Some(whole)
                }
            }
            _ => Option::Some(whole),
        },
        Term::Builtin(Builtin::ListHead) => match a {
            Term::EmptyListLit(ty) => Option::Some(
                Term::App(Box::new(Term::Builtin(Builtin::OptionalNone)), ty),
            ),
            Term::NEListLit(l) => match *l {
                TermList::Cons(x, _) => Option::Some(Term::SomeLit(Box::new(x))),
                TermList::Nil => Option::Some(whole),
            },
            _ => Option::Some(whole),
        },
        Term::Builtin(Builtin::ListLast) => match a {
            Term::EmptyListLit(ty) => Option::Some(
                Term::App(Box::new(Term::Builtin(Builtin::OptionalNone)), ty),
            ),
            Term::NEListLit(l) => match *l {
                TermList::Cons(x, rest) => Option::Some(
                    Term::SomeLit(Box::new(last_tl(x, *rest))),
                ),
                TermList::Nil => Option::Some(whole),
            },
            _ => Option::Some(whole),
        },
        Term::Builtin(Builtin::ListReverse) => match a {
            Term::EmptyListLit(_) => Option::Some(a),
            Term::NEListLit(l) => Option::Some(
                Term::NEListLit(Box::new(rev_tl(*l, TermList::Nil))),
            ),
            _ => Option::Some(whole),
        },
        Term::Builtin(Builtin::ListIndexed) => match a {
            Term::EmptyListLit(ty) => Option::Some(
                Term::EmptyListLit(
                    Box::new(
                        Term::RecordType(
                            Box::new(
                                FieldList::Cons(
                                    label_of("index"@),
                                    Term::Builtin(Builtin::Natural),
                                    Box::new(
                                        FieldList::Cons(
                                            label_of("value"@),
                                            *ty,
                                            Box::new(FieldList::Nil),
                                        ),
                                    ),
                                ),
                            ),
                        ),
                    ),
                ),
            ),
            Term::NEListLit(l) => Option::Some(
                Term::NEListLit(Box::new(indexed_tl(0, *l))),
            ),
            _ => Option::Some(whole),
        },
        Term::Builtin(Builtin::ListBuild) => {
            if fuel == 0 {
                Option::None
            } else {
                norm_s(
                    (fuel - 1) as nat,
                    Term::App(
                        Box::new(
                            Term::App(
                                Box::new(
                                    Term::App(
                                        Box::new(a),
                                        Box::new(
                                            Term::App(
                                                Box::new(Term::Builtin(Builtin::List)),
                                                Box::new(b1),
                                            ),
                                        ),
                                    ),
                                ),
                                Box::new(list_cons_lam(b1)),
                            ),
                        ),
                        Box::new(Term::EmptyListLit(Box::new(b1))),
                    ),
                )
            }
        }
        Term::App(g2, b2) => apply3_s(fuel, *g2, *b2, b1, a),
        _ => Option::Some(whole),
    }
}

/// Continue `apply_s` for a head of the shape `((g2 b2) b1) a`.
pub open spec fn apply3_s(fuel: nat, g2: Term, b2: Term, b1: Term, a: Term) -> Option<Term>
    decreases fuel, 2int, a,
{
    let whole = stuck_app(
        Term::App(
            Box::new(Term::App(Box::new(g2), Box::new(b2))),
            Box::new(b1),
        ),
        a,
    );
    match g2 {
        Term::App(g3, b3) => apply4_s(fuel, *g3, *b3, b2, b1, a),
        _ => Option::Some(whole),
    }
}

/// Continue `apply_s` for a head of the shape `(((g3 b3) b2) b1) a`.
pub open spec fn apply4_s(fuel: nat, g3: Term, b3: Term, b2: Term, b1: Term, a: Term) -> Option<
    Term,
>
    decreases fuel, 1int, a,
{
    let whole = stuck_app(
        Term::App(
            Box::new(
                Term::App(
                    Box::new(Term::App(Box::new(g3), Box::new(b3))),
                    Box::new(b2),
                ),
            ),
            Box::new(b1),
        ),
        a,
    );
    match g3 {
        // Natural/fold n T succ zero
        Term::Builtin(Builtin::NaturalFold) => match b3 {
            Term::NaturalLit(n) => {
                if n == 0 {
                    Option::Some(a)
                } else if fuel == 0 {
                    Option::None
                } else {
                    norm_s(
                        (fuel - 1) as nat,
                        Term::App(
                            Box::new(b1),
                            Box::new(
                                Term::App(
                                    Box::new(
                                        Term::App(
                                            Box::new(
                                                Term::App(
                                                    Box::new(
                                                        Term::App(
                                                            Box::new(
                                                                Term::Builtin(
                                                                    Builtin::NaturalFold,
                                                                ),
                                                            ),
                                                            Box::new(
                                                                Term::NaturalLit(
                                                                    (n - 1) as u64,
                                                                ),
                                                            ),
                                                        ),
                                                    ),
                                                    Box::new(b2),
                                                ),
                                            ),
                                            Box::new(b1),
                                        ),
                                    ),
                                    Box::new(a),
                                ),
                            ),
                        ),
                    )
                }
            }
            _ => Option::Some(whole),
        },
        Term::App(g4, b4) => apply5_s(fuel, *g4, *b4, b3, b2, b1, a),
        _ => Option::Some(whole),
    }
}

/// Continue `apply_s` for a head of the shape `((((g4 b4) b3) b2) b1) a`.
pub open spec fn apply5_s(
    fuel: nat,
    g4: Term,
    b4: Term,
    b3: Term,
    b2: Term,
    b1: Term,
    a: Term,
) -> Option<Term>
    decreases fuel, 0int, a,
{
    let whole = stuck_app(
        Term::App(
            Box::new(
                Term::App(
                    Box::new(
                        Term::App(
                            Box::new(Term::App(Box::new(g4), Box::new(b4))),
                            Box::new(b3),
                        ),
                    ),
                    Box::new(b2),
                ),
            ),
            Box::new(b1),
        ),
        a,
    );
    match g4 {
        // List/fold T xs R cons nil
        Term::Builtin(Builtin::ListFold) => match b3 {
            Term::EmptyListLit(_) => Option::Some(a),
            Term::NEListLit(l) => {
                if fuel == 0 {
                    Option::None
                } else {
                    norm_s((fuel - 1) as nat, fold_list_s(b1, *l, a))
                }
            }
            _ => Option::Some(whole),
        },
        // Optional/fold T opt R just nothing
        Term::Builtin(Builtin::OptionalFold) => match b3 {
            Term::SomeLit(v) => {
                if fuel == 0 {
                    Option::None
                } else {
                    norm_s((fuel - 1) as nat, Term::App(Box::new(b1), v))
                }
            }
            Term::OldOptionalLit(v, _) => match v {
                Option::Some(v) => {
                    if fuel == 0 {
                        Option::None
                    } else {
                        norm_s((fuel - 1) as nat, Term::App(Box::new(b1), v))
                    }
                }
                Option::None => Option::Some(a),
            },
            Term::App(h, arg) => {
                if *h == Term::Builtin(Builtin::OptionalNone) {
                    Option::Some(a)
                } else {
                    Option::Some(whole)
                }
            }
            _ => Option::Some(whole),
        },
        _ => Option::Some(whole),
    }
}

/// Value of the field `x` in a field list, if present.
pub fn fields_get_pub(fs: &FieldList, x: &Label) -> (r: Option<Term>)
    ensures
        r == fields_get_s(*fs, *x),
{
    fields_get(fs, x)
}

/// The alternative named `x` in an alternative list.
pub fn alts_get_pub(alts: &AltList, x: &Label) -> (r: Option<Option<Term>>)
    ensures
        r == fields_get_alt_s(*alts, *x),
    decreases *alts,
{
    match alts {
        AltList::Nil => Option::None,
        AltList::Cons(k, t, rest) => {
            if k.eq_label(x) {
                Option::Some(
                    match t {
                        Option::None => Option::None,
                        Option::Some(t) => Option::Some(t.dup()),
                    },
                )
            } else {
                alts_get_pub(rest, x)
            }
        }
    }
}

/// The alternatives of a union, each normalised.
pub fn norm_alts_pub(fuel: u64, alts: &AltList) -> (r: Option<AltList>)
    ensures
        r == norm_alts_s(fuel as nat, *alts),
{
    norm_alts(fuel, alts)
}

/// Length of a list, or `None` if it exceeds `u64::MAX` (unreachable for a
/// list held in memory).
fn len_list(ts: &TermList) -> (r: Option<u64>)
    ensures
        match r {
            Option::Some(n) => len_tl(*ts) == n as nat,
            Option::None => len_tl(*ts) > u64::MAX,
        },
    decreases *ts,
{
    match ts {
        TermList::Nil => Option::Some(0),
        TermList::Cons(_, rest) => match len_list(rest) {
            Option::None => Option::None,
            Option::Some(n) => {
                if n == u64::MAX {
                    Option::None
                } else {
                    Option::Some(n + 1)
                }
            }
        },
    }
}

fn append_list(l: &TermList, r: &TermList) -> (res: TermList)
    ensures
        res == append_tl(*l, *r),
    decreases *l,
{
    match l {
        TermList::Nil => r.dup(),
        TermList::Cons(t, rest) => TermList::Cons(t.dup(), Box::new(append_list(rest, r))),
    }
}

fn rev_list(ts: &TermList, acc: TermList) -> (res: TermList)
    ensures
        res == rev_tl(*ts, acc),
    decreases *ts,
{
    match ts {
        TermList::Nil => acc,
        TermList::Cons(t, rest) => rev_list(rest, TermList::Cons(t.dup(), Box::new(acc))),
    }
}

fn last_list(t: &Term, rest: &TermList) -> (res: Term)
    ensures
        res == last_tl(*t, *rest),
    decreases *rest,
{
    match rest {
        TermList::Nil => t.dup(),
        TermList::Cons(t2, rest2) => last_list(t2, rest2),
    }
}

fn fields_get(fs: &FieldList, x: &Label) -> (r: Option<Term>)
    ensures
        r == fields_get_s(*fs, *x),
    decreases *fs,
{
    match fs {
        FieldList::Nil => Option::None,
        FieldList::Cons(k, t, rest) => {
            if k.eq_label(x) {
                Option::Some(t.dup())
            } else {
                fields_get(rest, x)
            }
        }
    }
}

fn project(fs: &FieldList, ks: &LabelList) -> (r: Option<FieldList>)
    ensures
        r == project_s(*fs, *ks),
    decreases *ks,
{
    match ks {
        LabelList::Nil => Option::Some(FieldList::Nil),
        LabelList::Cons(k, rest) => match fields_get(fs, k) {
            Option::None => Option::None,
            Option::Some(t) => match project(fs, rest) {
                Option::None => Option::None,
                Option::Some(tail) => Option::Some(FieldList::Cons(k.dup(), t, Box::new(tail))),
            },
        },
    }
}

fn fold_list(c: &Term, ts: &TermList, nil: Term) -> (res: Term)
    ensures
        res == fold_list_s(*c, *ts, nil),
    decreases *ts,
{
    match ts {
        TermList::Nil => nil,
        TermList::Cons(t, rest) => Term::App(
            Box::new(Term::App(Box::new(c.dup()), Box::new(t.dup()))),
            Box::new(fold_list(c, rest, nil)),
        ),
    }
}

fn indexed_list(i: u64, ts: &TermList) -> (res: TermList)
    ensures
        res == indexed_tl(i, *ts),
    decreases *ts,
{
    match ts {
        TermList::Nil => TermList::Nil,
        TermList::Cons(t, rest) => {
            proof {
                reveal_strlit("index");
                reveal_strlit("value");
            }
            let entry = Term::RecordLit(
                Box::new(
                    FieldList::Cons(
                        mk_label("index"),
                        Term::NaturalLit(i),
                        Box::new(
                            FieldList::Cons(mk_label("value"), t.dup(), Box::new(FieldList::Nil)),
                        ),
                    ),
                ),
            );
            TermList::Cons(entry, Box::new(indexed_list(crate::shift::idx_up_exec(i), rest)))
        }
    }
}

/// An ASCII label used by the reductions and the builtin schemas.
pub(crate) fn mk_label(s: &str) -> (r: Label)
    requires
        s@.len() < usize::MAX,
        vstd::string::is_ascii(s),
    ensures
        r == label_of(s@),
{
    Label::from_str(s)
}

fn natural_succ_lam_x() -> (r: Term)
    ensures
        r == natural_succ_lam(),
{
    proof {
        reveal_strlit("n");
        assert(vstd::utf8::is_ascii_chars("n"@)) by {
            vstd::utf8::is_ascii_chars_nat_bound("n"@);
        }
    }
    Term::Lam(
        mk_label("n"),
        Box::new(Term::Builtin(Builtin::Natural)),
        Box::new(
            Term::Op(
                Box::new(
                    OpKind::BinOp(
                        BinOp::NaturalPlus,
                        Term::Var(V(mk_label("n"), 0)),
                        Term::NaturalLit(1),
                    ),
                ),
            ),
        ),
    )
}

fn list_cons_lam_x(t: &Term) -> (r: Term)
    ensures
        r == list_cons_lam(*t),
{
    proof {
        reveal_strlit("x");
        reveal_strlit("xs");
    }
    let x = mk_label("x");
    let xs = mk_label("xs");
    let shifted = crate::shift::shift0(1, &x, t);
    Term::Lam(
        x.dup(),
        Box::new(t.dup()),
        Box::new(
            Term::Lam(
                xs.dup(),
                Box::new(
                    Term::App(Box::new(Term::Builtin(Builtin::List)), Box::new(shifted)),
                ),
                Box::new(
                    Term::Op(
                        Box::new(
                            OpKind::BinOp(
                                BinOp::ListAppend,
                                Term::NEListLit(
                                    Box::new(
                                        TermList::Cons(
                                            Term::Var(V(x, 0)),
                                            Box::new(TermList::Nil),
                                        ),
                                    ),
                                ),
                                Term::Var(V(xs, 0)),
                            ),
                        ),
                    ),
                ),
            ),
        ),
    )
}

/// Reduce a term to beta-normal form, within the given fuel budget.
/// Returns `None` exactly when the budget does not suffice.
pub fn normalize(fuel: u64, t: &Term) -> (r: Option<Term>)
    ensures
        r == norm_s(fuel as nat, *t),
    decreases fuel, 5int, *t,
{
    match t {
        Term::Var(v) => Option::Some(Term::Var(v.dup())),
        Term::Const(c) => Option::Some(Term::Const(*c)),
        Term::Builtin(b) => Option::Some(Term::Builtin(*b)),
        Term::Lam(x, ty, body) => match normalize(fuel, ty) {
            Option::None => Option::None,
            Option::Some(ty2) => match normalize(fuel, body) {
                Option::None => Option::None,
                Option::Some(b2) => Option::Some(
                    Term::Lam(x.dup(), Box::new(ty2), Box::new(b2)),
                ),
            },
        },
        Term::Pi(x, ty, body) => match normalize(fuel, ty) {
            Option::None => Option::None,
            Option::Some(ty2) => match normalize(fuel, body) {
                Option::None => Option::None,
                Option::Some(b2) => Option::Some(
                    Term::Pi(x.dup(), Box::new(ty2), Box::new(b2)),
                ),
            },
        },
        Term::App(f, a) => match normalize(fuel, f) {
            Option::None => Option::None,
            Option::Some(f2) => match normalize(fuel, a) {
                Option::None => Option::None,
                Option::Some(a2) => apply(fuel, f2, a2),
            },
        },
        Term::Let(x, _, v, body) => {
            if fuel == 0 {
                Option::None
            } else {
                match normalize(fuel, v) {
                    Option::None => Option::None,
                    Option::Some(v2) => {
                        let contracted = crate::subst::subst_shift(&V(x.dup(), 0), &v2, body);
                        normalize(fuel - 1, &contracted)
                    }
                }
            }
        }
        Term::Annot(e, _) => normalize(fuel, e),
        Term::BoolLit(b) => Option::Some(Term::BoolLit(*b)),
        Term::NaturalLit(n) => Option::Some(Term::NaturalLit(*n)),
        Term::IntegerLit(i) => Option::Some(Term::IntegerLit(*i)),
        Term::DoubleLit(d) => Option::Some(Term::DoubleLit(*d)),
        Term::TextLit(ps) => match norm_text(fuel, ps) {
            Option::None => Option::None,
            Option::Some(ps2) => Option::Some(Term::TextLit(Box::new(ps2))),
        },
        Term::EmptyListLit(ty) => match normalize(fuel, ty) {
            Option::None => Option::None,
            Option::Some(ty2) => Option::Some(Term::EmptyListLit(Box::new(ty2))),
        },
        Term::NEListLit(ts) => match norm_list(fuel, ts) {
            Option::None => Option::None,
            Option::Some(ts2) => Option::Some(Term::NEListLit(Box::new(ts2))),
        },
        Term::SomeLit(e) => match normalize(fuel, e) {
            Option::None => Option::None,
            Option::Some(e2) => Option::Some(Term::SomeLit(Box::new(e2))),
        },
        Term::OldOptionalLit(v, ty) => match normalize(fuel, ty) {
            Option::None => Option::None,
            Option::Some(ty2) => match v {
                Option::None => Option::Some(
                    Term::OldOptionalLit(Option::None, Box::new(ty2)),
                ),
                Option::Some(e) => match normalize(fuel, e) {
                    Option::None => Option::None,
                    Option::Some(e2) => Option::Some(
                        Term::OldOptionalLit(Option::Some(Box::new(e2)), Box::new(ty2)),
                    ),
                },
            },
        },
        Term::RecordType(kts) => match norm_fields(fuel, kts) {
            Option::None => Option::None,
            Option::Some(kts2) => Option::Some(Term::RecordType(Box::new(kts2))),
        },
        Term::RecordLit(kvs) => match norm_fields(fuel, kvs) {
            Option::None => Option::None,
            Option::Some(kvs2) => Option::Some(Term::RecordLit(Box::new(kvs2))),
        },
        Term::UnionType(kts) => match norm_alts(fuel, kts) {
            Option::None => Option::None,
            Option::Some(kts2) => Option::Some(Term::UnionType(Box::new(kts2))),
        },
        Term::UnionLit(x, v, kts) => match normalize(fuel, v) {
            Option::None => Option::None,
            Option::Some(v2) => match norm_alts(fuel, kts) {
                Option::None => Option::None,
                Option::Some(kts2) => Option::Some(
                    Term::UnionLit(x.dup(), Box::new(v2), Box::new(kts2)),
                ),
            },
        },
        Term::Op(op) => norm_op(fuel, op),
        Term::Assert(e) => match normalize(fuel, e) {
            Option::None => Option::None,
            Option::Some(e2) => Option::Some(Term::Assert(Box::new(e2))),
        },
        Term::Import(i) => match &i.resolved {
            Option::Some(r) => Option::Some(r.value.dup()),
            Option::None => Option::Some(Term::Import(Box::new(i.dup()))),
        },
    }
}

fn norm_list(fuel: u64, ts: &TermList) -> (r: Option<TermList>)
    ensures
        r == norm_list_s(fuel as nat, *ts),
    decreases fuel, 5int, *ts,
{
    match ts {
        TermList::Nil => Option::Some(TermList::Nil),
        TermList::Cons(t, rest) => match normalize(fuel, t) {
            Option::None => Option::None,
            Option::Some(t2) => match norm_list(fuel, rest) {
                Option::None => Option::None,
                Option::Some(rest2) => Option::Some(TermList::Cons(t2, Box::new(rest2))),
            },
        },
    }
}

fn norm_fields(fuel: u64, fs: &FieldList) -> (r: Option<FieldList>)
    ensures
        r == norm_fields_s(fuel as nat, *fs),
    decreases fuel, 5int, *fs,
{
    match fs {
        FieldList::Nil => Option::Some(FieldList::Nil),
        FieldList::Cons(k, t, rest) => match normalize(fuel, t) {
            Option::None => Option::None,
            Option::Some(t2) => match norm_fields(fuel, rest) {
                Option::None => Option::None,
                Option::Some(rest2) => Option::Some(
                    FieldList::Cons(k.dup(), t2, Box::new(rest2)),
                ),
            },
        },
    }
}

fn norm_alts(fuel: u64, alts: &AltList) -> (r: Option<AltList>)
    ensures
        r == norm_alts_s(fuel as nat, *alts),
    decreases fuel, 5int, *alts,
{
    match alts {
        AltList::Nil => Option::Some(AltList::Nil),
        AltList::Cons(k, t, rest) => {
            let t2 = match t {
                Option::None => Option::Some(Option::None),
                Option::Some(t) => match normalize(fuel, t) {
                    Option::None => Option::None,
                    Option::Some(t2) => Option::Some(Option::Some(t2)),
                },
            };
            match t2 {
                Option::None => Option::None,
                Option::Some(t2) => match norm_alts(fuel, rest) {
                    Option::None => Option::None,
                    Option::Some(rest2) => Option::Some(
                        AltList::Cons(k.dup(), t2, Box::new(rest2)),
                    ),
                },
            }
        }
    }
}

fn norm_text(fuel: u64, ps: &TextPieces) -> (r: Option<TextPieces>)
    ensures
        r == norm_text_s(fuel as nat, *ps),
    decreases fuel, 5int, *ps,
{
    match ps {
        TextPieces::Empty => Option::Some(TextPieces::Empty),
        TextPieces::Chunk(s, rest) => match norm_text(fuel, rest) {
            Option::None => Option::None,
            Option::Some(rest2) => Option::Some(TextPieces::Chunk(s.clone(), Box::new(rest2))),
        },
        TextPieces::Interp(t, rest) => match normalize(fuel, t) {
            Option::None => Option::None,
            Option::Some(t2) => match norm_text(fuel, rest) {
                Option::None => Option::None,
                Option::Some(rest2) => Option::Some(
                    TextPieces::Interp(t2, Box::new(rest2)),
                ),
            },
        },
    }
}

fn norm_op(fuel: u64, op: &OpKind) -> (r: Option<Term>)
    ensures
        r == norm_op_s(fuel as nat, *op),
    decreases fuel, 5int, *op,
{
    match op {
        OpKind::BoolIf(c, th, el) => match normalize(fuel, c) {
            Option::None => Option::None,
            Option::Some(c2) => match normalize(fuel, th) {
                Option::None => Option::None,
                Option::Some(t2) => match normalize(fuel, el) {
                    Option::None => Option::None,
                    Option::Some(e2) => Option::Some(
                        if matches!(c2, Term::BoolLit(true)) {
                            t2
                        } else if matches!(c2, Term::BoolLit(false)) {
                            e2
                        } else if matches!(t2, Term::BoolLit(true)) && matches!(
                            e2,
                            Term::BoolLit(false),
                        ) {
                            c2
                        } else {
                            Term::Op(Box::new(OpKind::BoolIf(c2, t2, e2)))
                        },
                    ),
                },
            },
        },
        OpKind::BinOp(o, l, r) => match normalize(fuel, l) {
            Option::None => Option::None,
            Option::Some(l2) => match normalize(fuel, r) {
                Option::None => Option::None,
                Option::Some(r2) => Option::Some(binop_step(*o, l2, r2)),
            },
        },
        OpKind::Field(r, k) => match normalize(fuel, r) {
            Option::None => Option::None,
            Option::Some(r2) => Option::Some(
                match r2 {
                    Term::RecordLit(kvs) => match fields_get(&kvs, k) {
                        Option::Some(v) => v,
                        Option::None => Term::Op(
                            Box::new(OpKind::Field(Term::RecordLit(kvs), k.dup())),
                        ),
                    },
                    r2 => Term::Op(Box::new(OpKind::Field(r2, k.dup()))),
                },
            ),
        },
        OpKind::Projection(r, ks) => match normalize(fuel, r) {
            Option::None => Option::None,
            Option::Some(r2) => Option::Some(
                match r2 {
                    Term::RecordLit(kvs) => match project(&kvs, ks) {
                        Option::Some(sel) => Term::RecordLit(Box::new(sel)),
                        Option::None => Term::Op(
                            Box::new(
                                OpKind::Projection(Term::RecordLit(kvs), ks.dup()),
                            ),
                        ),
                    },
                    r2 => Term::Op(Box::new(OpKind::Projection(r2, ks.dup()))),
                },
            ),
        },
        OpKind::Merge(h, u, a) => match normalize(fuel, h) {
            Option::None => Option::None,
            Option::Some(h2) => match normalize(fuel, u) {
                Option::None => Option::None,
                Option::Some(u2) => match a {
                    Option::None => Option::Some(
                        Term::Op(Box::new(OpKind::Merge(h2, u2, Option::None))),
                    ),
                    Option::Some(a) => match normalize(fuel, a) {
                        Option::None => Option::None,
                        Option::Some(a2) => Option::Some(
                            Term::Op(Box::new(OpKind::Merge(h2, u2, Option::Some(a2)))),
                        ),
                    },
                },
            },
        },
        OpKind::ToMap(r, a) => match normalize(fuel, r) {
            Option::None => Option::None,
            Option::Some(r2) => match a {
                Option::None => Option::Some(
                    Term::Op(Box::new(OpKind::ToMap(r2, Option::None))),
                ),
                Option::Some(a) => match normalize(fuel, a) {
                    Option::None => Option::None,
                    Option::Some(a2) => Option::Some(
                        Term::Op(Box::new(OpKind::ToMap(r2, Option::Some(a2)))),
                    ),
                },
            },
        },
        OpKind::ProjectionByExpr(r, ty) => match normalize(fuel, r) {
            Option::None => Option::None,
            Option::Some(r2) => match normalize(fuel, ty) {
                Option::None => Option::None,
                Option::Some(ty2) => Option::Some(
                    Term::Op(Box::new(OpKind::ProjectionByExpr(r2, ty2))),
                ),
            },
        },
        OpKind::Completion(a, b) => match normalize(fuel, a) {
            Option::None => Option::None,
            Option::Some(a2) => match normalize(fuel, b) {
                Option::None => Option::None,
                Option::Some(b2) => Option::Some(
                    Term::Op(Box::new(OpKind::Completion(a2, b2))),
                ),
            },
        },
        OpKind::With(r, path, v) => match normalize(fuel, r) {
            Option::None => Option::None,
            Option::Some(r2) => match normalize(fuel, v) {
                Option::None => Option::None,
                Option::Some(v2) => Option::Some(
                    Term::Op(Box::new(OpKind::With(r2, path.dup(), v2))),
                ),
            },
        },
    }
}

fn binop_step(o: BinOp, l: Term, r: Term) -> (res: Term)
    ensures
        res == binop_step_s(o, l, r),
{
    match o {
        BinOp::BoolAnd => match (l, r) {
            (Term::BoolLit(a), Term::BoolLit(b)) => Term::BoolLit(a && b),
            (l, r) => Term::Op(Box::new(OpKind::BinOp(o, l, r))),
        },
        BinOp::BoolOr => match (l, r) {
            (Term::BoolLit(a), Term::BoolLit(b)) => Term::BoolLit(a || b),
            (l, r) => Term::Op(Box::new(OpKind::BinOp(o, l, r))),
        },
        BinOp::BoolEQ => match (l, r) {
            (Term::BoolLit(a), Term::BoolLit(b)) => Term::BoolLit(a == b),
            (l, r) => Term::Op(Box::new(OpKind::BinOp(o, l, r))),
        },
        BinOp::BoolNE => match (l, r) {
            (Term::BoolLit(a), Term::BoolLit(b)) => Term::BoolLit(a != b),
            (l, r) => Term::Op(Box::new(OpKind::BinOp(o, l, r))),
        },
        BinOp::NaturalPlus => match (l, r) {
            (Term::NaturalLit(a), Term::NaturalLit(b)) => match a.checked_add(b) {
                Option::Some(c) => Term::NaturalLit(c),
                Option::None => Term::Op(
                    Box::new(OpKind::BinOp(o, Term::NaturalLit(a), Term::NaturalLit(b))),
                ),
            },
            (l, r) => Term::Op(Box::new(OpKind::BinOp(o, l, r))),
        },
        BinOp::NaturalTimes => match (l, r) {
            (Term::NaturalLit(a), Term::NaturalLit(b)) => match a.checked_mul(b) {
                Option::Some(c) => Term::NaturalLit(c),
                Option::None => Term::Op(
                    Box::new(OpKind::BinOp(o, Term::NaturalLit(a), Term::NaturalLit(b))),
                ),
            },
            (l, r) => Term::Op(Box::new(OpKind::BinOp(o, l, r))),
        },
        BinOp::ListAppend => match (l, r) {
            (Term::EmptyListLit(_), r) => r,
            (l, Term::EmptyListLit(_)) => l,
            (Term::NEListLit(a), Term::NEListLit(b)) => Term::NEListLit(
                Box::new(append_list(&a, &b)),
            ),
            (l, r) => Term::Op(Box::new(OpKind::BinOp(o, l, r))),
        },
        _ => Term::Op(Box::new(OpKind::BinOp(o, l, r))),
    }
}

fn apply(fuel: u64, f: Term, a: Term) -> (r: Option<Term>)
    ensures
        r == apply_s(fuel as nat, f, a),
    decreases fuel, 4int, a,
{
    if fuel == 0 {
        match f {
            Term::Lam(_, _, _) => Option::None,
            f => Option::Some(Term::App(Box::new(f), Box::new(a))),
        }
    } else {
        match f {
            Term::Lam(x, _, body) => {
                let contracted = crate::subst::subst_shift(&V(x, 0), &a, &body);
                normalize(fuel - 1, &contracted)
            }
            Term::Builtin(Builtin::NaturalIsZero) => match a {
                Term::NaturalLit(n) => Option::Some(Term::BoolLit(n == 0)),
                a => Option::Some(
                    Term::App(Box::new(Term::Builtin(Builtin::NaturalIsZero)), Box::new(a)),
                ),
            },
            Term::Builtin(Builtin::NaturalEven) => match a {
                Term::NaturalLit(n) => Option::Some(Term::BoolLit(n % 2 == 0)),
                a => Option::Some(
                    Term::App(Box::new(Term::Builtin(Builtin::NaturalEven)), Box::new(a)),
                ),
            },
            Term::Builtin(Builtin::NaturalOdd) => match a {
                Term::NaturalLit(n) => Option::Some(Term::BoolLit(n % 2 == 1)),
                a => Option::Some(
                    Term::App(Box::new(Term::Builtin(Builtin::NaturalOdd)), Box::new(a)),
                ),
            },
            Term::Builtin(Builtin::NaturalBuild) => {
                let expanded = Term::App(
                    Box::new(
                        Term::App(
                            Box::new(
                                Term::App(
                                    Box::new(a),
                                    Box::new(Term::Builtin(Builtin::Natural)),
                                ),
                            ),
                            Box::new(natural_succ_lam_x()),
                        ),
                    ),
                    Box::new(Term::NaturalLit(0)),
                );
                normalize(fuel - 1, &expanded)
            }
            Term::App(g1, b1) => apply2(fuel - 1, *g1, *b1, a),
            f => Option::Some(Term::App(Box::new(f), Box::new(a))),
        }
    }
}

#[verifier::rlimit(60)]
fn apply2(fuel: u64, g1: Term, b1: Term, a: Term) -> (r: Option<Term>)
    ensures
        r == apply2_s(fuel as nat, g1, b1, a),
    decreases fuel, 3int, a,
{
    match (&g1, &a) {
        (Term::Builtin(Builtin::ListLength), Term::EmptyListLit(_)) => Option::Some(
            Term::NaturalLit(0),
        ),
        (Term::Builtin(Builtin::ListLength), Term::NEListLit(l)) => match len_list(l) {
            Option::Some(n) => Option::Some(Term::NaturalLit(n)),
            Option::None => Option::Some(stuck_app2(g1, b1, a)),
        },
        (Term::Builtin(Builtin::ListHead), Term::EmptyListLit(ty)) => Option::Some(
            Term::App(Box::new(Term::Builtin(Builtin::OptionalNone)), Box::new(ty.dup())),
        ),
        (Term::Builtin(Builtin::ListHead), Term::NEListLit(l)) => match &**l {
            TermList::Cons(x, _) => Option::Some(Term::SomeLit(Box::new(x.dup()))),
            TermList::Nil => Option::Some(stuck_app2(g1, b1, a)),
        },
        (Term::Builtin(Builtin::ListLast), Term::EmptyListLit(ty)) => Option::Some(
            Term::App(Box::new(Term::Builtin(Builtin::OptionalNone)), Box::new(ty.dup())),
        ),
        (Term::Builtin(Builtin::ListLast), Term::NEListLit(l)) => match &**l {
            TermList::Cons(x, rest) => Option::Some(Term::SomeLit(Box::new(last_list(x, rest)))),
            TermList::Nil => Option::Some(stuck_app2(g1, b1, a)),
        },
        (Term::Builtin(Builtin::ListReverse), Term::EmptyListLit(_)) => Option::Some(a),
        (Term::Builtin(Builtin::ListReverse), Term::NEListLit(l)) => Option::Some(
            Term::NEListLit(Box::new(rev_list(l, TermList::Nil))),
        ),
        (Term::Builtin(Builtin::ListIndexed), Term::EmptyListLit(ty)) => {
            proof {
                reveal_strlit("index");
                reveal_strlit("value");
            }
            Option::Some(
                Term::EmptyListLit(
                    Box::new(
                        Term::RecordType(
                            Box::new(
                                FieldList::Cons(
                                    mk_label("index"),
                                    Term::Builtin(Builtin::Natural),
                                    Box::new(
                                        FieldList::Cons(
                                            mk_label("value"),
                                            ty.dup(),
                                            Box::new(FieldList::Nil),
                                        ),
                                    ),
                                ),
                            ),
                        ),
                    ),
                ),
            )
        }
        (Term::Builtin(Builtin::ListIndexed), Term::NEListLit(l)) => Option::Some(
            Term::NEListLit(Box::new(indexed_list(0, l))),
        ),
        (Term::Builtin(Builtin::ListBuild), _) => {
            if fuel == 0 {
                Option::None
            } else {
                let expanded = Term::App(
                    Box::new(
                        Term::App(
                            Box::new(
                                Term::App(
                                    Box::new(a),
                                    Box::new(
                                        Term::App(
                                            Box::new(Term::Builtin(Builtin::List)),
                                            Box::new(b1.dup()),
                                        ),
                                    ),
                                ),
                            ),
                            Box::new(list_cons_lam_x(&b1)),
                        ),
                    ),
                    Box::new(Term::EmptyListLit(Box::new(b1))),
                );
                normalize(fuel - 1, &expanded)
            }
        }
        (Term::App(_, _), _) => match g1 {
            Term::App(g2, b2) => apply3(fuel, *g2, *b2, b1, a),
            _ => Option::None,
        },
        _ => Option::Some(stuck_app2(g1, b1, a)),
    }
}

/// The two-argument application left as-is.
fn stuck_app2(g1: Term, b1: Term, a: Term) -> (r: Term)
    ensures
        r == stuck_app(Term::App(Box::new(g1), Box::new(b1)), a),
{
    Term::App(Box::new(Term::App(Box::new(g1), Box::new(b1))), Box::new(a))
}

fn apply3(fuel: u64, g2: Term, b2: Term, b1: Term, a: Term) -> (r: Option<Term>)
    ensures
        r == apply3_s(fuel as nat, g2, b2, b1, a),
    decreases fuel, 2int, a,
{
    match g2 {
        Term::App(g3, b3) => apply4(fuel, *g3, *b3, b2, b1, a),
        g2 => Option::Some(
            Term::App(
                Box::new(
                    Term::App(
                        Box::new(Term::App(Box::new(g2), Box::new(b2))),
                        Box::new(b1),
                    ),
                ),
                Box::new(a),
            ),
        ),
    }
}

fn apply4(fuel: u64, g3: Term, b3: Term, b2: Term, b1: Term, a: Term) -> (r: Option<Term>)
    ensures
        r == apply4_s(fuel as nat, g3, b3, b2, b1, a),
    decreases fuel, 1int, a,
{
    match (&g3, &b3) {
        (Term::Builtin(Builtin::NaturalFold), Term::NaturalLit(n)) => {
            if *n == 0 {
                Option::Some(a)
            } else if fuel == 0 {
                Option::None
            } else {
                let m = *n;
                let expanded = Term::App(
                    Box::new(b1.dup()),
                    Box::new(
                        Term::App(
                            Box::new(
                                Term::App(
                                    Box::new(
                                        Term::App(
                                            Box::new(
                                                Term::App(
                                                    Box::new(
                                                        Term::Builtin(Builtin::NaturalFold),
                                                    ),
                                                    Box::new(Term::NaturalLit(m - 1)),
                                                ),
                                            ),
                                            Box::new(b2),
                                        ),
                                    ),
                                    Box::new(b1),
                                ),
                            ),
                            Box::new(a),
                        ),
                    ),
                );
                normalize(fuel - 1, &expanded)
            }
        }
        (Term::App(_, _), _) => match g3 {
            Term::App(g4, b4) => apply5(fuel, *g4, *b4, b3, b2, b1, a),
            _ => Option::None,
        },
        _ => Option::Some(
            Term::App(
                Box::new(
                    Term::App(
                        Box::new(
                            Term::App(Box::new(Term::App(Box::new(g3), Box::new(b3))), Box::new(
                                b2,
                            )),
                        ),
                        Box::new(b1),
                    ),
                ),
                Box::new(a),
            ),
        ),
    }
}

fn apply5(fuel: u64, g4: Term, b4: Term, b3: Term, b2: Term, b1: Term, a: Term) -> (r: Option<
    Term,
>)
    ensures
        r == apply5_s(fuel as nat, g4, b4, b3, b2, b1, a),
    decreases fuel, 0int, a,
{
    match (&g4, &b3) {
        (Term::Builtin(Builtin::ListFold), Term::EmptyListLit(_)) => Option::Some(a),
        (Term::Builtin(Builtin::ListFold), Term::NEListLit(l)) => {
            if fuel == 0 {
                Option::None
            } else {
                let folded = fold_list(&b1, l, a);
                normalize(fuel - 1, &folded)
            }
        }
        (Term::Builtin(Builtin::OptionalFold), Term::SomeLit(v)) => {
            if fuel == 0 {
                Option::None
            } else {
                let applied = Term::App(Box::new(b1.dup()), Box::new(v.dup()));
                normalize(fuel - 1, &applied)
            }
        }
        (Term::Builtin(Builtin::OptionalFold), Term::OldOptionalLit(v, _)) => match v {
            Option::Some(v) => {
                if fuel == 0 {
                    Option::None
                } else {
                    let applied = Term::App(Box::new(b1.dup()), Box::new(v.dup()));
                    normalize(fuel - 1, &applied)
                }
            }
            Option::None => Option::Some(a),
        },
        (Term::Builtin(Builtin::OptionalFold), Term::App(h, _)) => {
            if matches!(&**h, Term::Builtin(Builtin::OptionalNone)) {
                Option::Some(a)
            } else {
                Option::Some(stuck_app5(g4, b4, b3, b2, b1, a))
            }
        }
        _ => Option::Some(stuck_app5(g4, b4, b3, b2, b1, a)),
    }
}

/// The five-argument application left as-is.
fn stuck_app5(g4: Term, b4: Term, b3: Term, b2: Term, b1: Term, a: Term) -> (r: Term)
    ensures
        r == stuck_app(
            Term::App(
                Box::new(
                    Term::App(
                        Box::new(
                            Term::App(Box::new(Term::App(Box::new(g4), Box::new(b4))), Box::new(
                                b3,
                            )),
                        ),
                        Box::new(b2),
                    ),
                ),
                Box::new(b1),
            ),
            a,
        ),
{
    Term::App(
        Box::new(
            Term::App(
                Box::new(
                    Term::App(
                        Box::new(
                            Term::App(Box::new(Term::App(Box::new(g4), Box::new(b4))), Box::new(
                                b3,
                            )),
                        ),
                        Box::new(b2),
                    ),
                ),
                Box::new(b1),
            ),
        ),
        Box::new(a),
    )
}

} // verus!
