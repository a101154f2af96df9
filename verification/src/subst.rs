//! Capture-avoiding substitution.
//!
//! `substitute(var, repl, t)` replaces each free occurrence of `var` with
//! `repl`; when the traversal crosses a binder, the cutoff index of `var` is
//! incremented for the bound label and `repl` is shifted by `+1` on the
//! bound label so that its free variables stay correctly bound.
//!
//! `subst_shift` is the substitute-then-shift-back operation used for beta
//! reduction and `let` unfolding: the replacement is first shifted up on the
//! substituted variable, and after substitution the remaining free
//! occurrences above it are shifted back down.

use vstd::prelude::*;

use crate::shift::{idx_up, shift, shift0, shift_s};
use crate::term::{
    AltList, FieldList, Label, OpKind, Term, TermList, TextPieces, V,
};

verus! {

/// Model of `substitute`: replace `V(x, n)` by `repl` inside `t`.
pub open spec fn substitute_s(x: Label, n: u64, repl: Term, t: Term) -> Term
    decreases t,
{
    match t {
        Term::Var(V(y, m)) => {
            if y == x && m == n {
                repl
            } else {
                Term::Var(V(y, m))
            }
        }
        Term::Const(c) => Term::Const(c),
        Term::Builtin(b) => Term::Builtin(b),
        Term::Lam(y, ty, body) => {
            let n2 = if y == x {
                idx_up(n)
            } else {
                n
            };
            let repl2 = shift_s(1, y, 0, repl);
            Term::Lam(
                y,
                Box::new(substitute_s(x, n, repl, *ty)),
                Box::new(substitute_s(x, n2, repl2, *body)),
            )
        }
        Term::Pi(y, ty, body) => {
            let n2 = if y == x {
                idx_up(n)
            } else {
                n
            };
            let repl2 = shift_s(1, y, 0, repl);
            Term::Pi(
                y,
                Box::new(substitute_s(x, n, repl, *ty)),
                Box::new(substitute_s(x, n2, repl2, *body)),
            )
        }
        Term::App(f, a) => Term::App(
            Box::new(substitute_s(x, n, repl, *f)),
            Box::new(substitute_s(x, n, repl, *a)),
        ),
        Term::Let(y, ann, v, body) => {
            let n2 = if y == x {
                idx_up(n)
            } else {
                n
            };
            let repl2 = shift_s(1, y, 0, repl);
            Term::Let(
                y,
                match ann {
                    Option::None => Option::None,
                    Option::Some(a) => Option::Some(Box::new(substitute_s(x, n, repl, *a))),
                },
                Box::new(substitute_s(x, n, repl, *v)),
                Box::new(substitute_s(x, n2, repl2, *body)),
            )
        }
        Term::Annot(e, ty) => Term::Annot(
            Box::new(substitute_s(x, n, repl, *e)),
            Box::new(substitute_s(x, n, repl, *ty)),
        ),
        Term::BoolLit(b) => Term::BoolLit(b),
        Term::NaturalLit(m) => Term::NaturalLit(m),
        Term::IntegerLit(i) => Term::IntegerLit(i),
        Term::DoubleLit(f) => Term::DoubleLit(f),
        Term::TextLit(ps) => Term::TextLit(Box::new(substitute_text_s(x, n, repl, *ps))),
        Term::EmptyListLit(ty) => Term::EmptyListLit(Box::new(substitute_s(x, n, repl, *ty))),
        Term::NEListLit(ts) => Term::NEListLit(Box::new(substitute_list_s(x, n, repl, *ts))),
        Term::SomeLit(e) => Term::SomeLit(Box::new(substitute_s(x, n, repl, *e))),
        Term::OldOptionalLit(v, ty) => Term::OldOptionalLit(
            match v {
                Option::None => Option::None,
                Option::Some(e) => Option::Some(Box::new(substitute_s(x, n, repl, *e))),
            },
            Box::new(substitute_s(x, n, repl, *ty)),
        ),
        Term::RecordType(kts) => Term::RecordType(Box::new(substitute_fields_s(x, n, repl, *kts))),
        Term::RecordLit(kvs) => Term::RecordLit(Box::new(substitute_fields_s(x, n, repl, *kvs))),
        Term::UnionType(kts) => Term::UnionType(Box::new(substitute_alts_s(x, n, repl, *kts))),
        Term::UnionLit(y, v, kts) => Term::UnionLit(
            y,
            Box::new(substitute_s(x, n, repl, *v)),
            Box::new(substitute_alts_s(x, n, repl, *kts)),
        ),
        Term::Op(op) => Term::Op(Box::new(substitute_op_s(x, n, repl, *op))),
        Term::Assert(e) => Term::Assert(Box::new(substitute_s(x, n, repl, *e))),
        Term::Import(i) => Term::Import(i),
    }
}

pub open spec fn substitute_list_s(x: Label, n: u64, repl: Term, ts: TermList) -> TermList
    decreases ts,
{
    match ts {
        TermList::Nil => TermList::Nil,
        TermList::Cons(t, rest) => TermList::Cons(
            substitute_s(x, n, repl, t),
            Box::new(substitute_list_s(x, n, repl, *rest)),
        ),
    }
}

pub open spec fn substitute_fields_s(x: Label, n: u64, repl: Term, fs: FieldList) -> FieldList
    decreases fs,
{
    match fs {
        FieldList::Nil => FieldList::Nil,
        FieldList::Cons(k, t, rest) => FieldList::Cons(
            k,
            substitute_s(x, n, repl, t),
            Box::new(substitute_fields_s(x, n, repl, *rest)),
        ),
    }
}

pub open spec fn substitute_alts_s(x: Label, n: u64, repl: Term, alts: AltList) -> AltList
    decreases alts,
{
    match alts {
        AltList::Nil => AltList::Nil,
        AltList::Cons(k, t, rest) => AltList::Cons(
            k,
            match t {
                Option::None => Option::None,
                Option::Some(t) => Option::Some(substitute_s(x, n, repl, t)),
            },
            Box::new(substitute_alts_s(x, n, repl, *rest)),
        ),
    }
}

pub open spec fn substitute_text_s(x: Label, n: u64, repl: Term, ps: TextPieces) -> TextPieces
    decreases ps,
{
    match ps {
        TextPieces::Empty => TextPieces::Empty,
        TextPieces::Chunk(s, rest) => TextPieces::Chunk(
            s,
            Box::new(substitute_text_s(x, n, repl, *rest)),
        ),
        TextPieces::Interp(t, rest) => TextPieces::Interp(
            substitute_s(x, n, repl, t),
            Box::new(substitute_text_s(x, n, repl, *rest)),
        ),
    }
}

pub open spec fn substitute_op_s(x: Label, n: u64, repl: Term, op: OpKind) -> OpKind
    decreases op,
{
    match op {
        OpKind::BinOp(o, l, r) => OpKind::BinOp(
            o,
            substitute_s(x, n, repl, l),
            substitute_s(x, n, repl, r),
        ),
        OpKind::BoolIf(c, t, e) => OpKind::BoolIf(
            substitute_s(x, n, repl, c),
            substitute_s(x, n, repl, t),
            substitute_s(x, n, repl, e),
        ),
        OpKind::Merge(h, u, a) => OpKind::Merge(
            substitute_s(x, n, repl, h),
            substitute_s(x, n, repl, u),
            match a {
                Option::None => Option::None,
                Option::Some(a) => Option::Some(substitute_s(x, n, repl, a)),
            },
        ),
        OpKind::ToMap(r, a) => OpKind::ToMap(
            substitute_s(x, n, repl, r),
            match a {
                Option::None => Option::None,
                Option::Some(a) => Option::Some(substitute_s(x, n, repl, a)),
            },
        ),
        OpKind::Field(r, k) => OpKind::Field(substitute_s(x, n, repl, r), k),
        OpKind::Projection(r, ks) => OpKind::Projection(substitute_s(x, n, repl, r), ks),
        OpKind::ProjectionByExpr(r, t) => OpKind::ProjectionByExpr(
            substitute_s(x, n, repl, r),
            substitute_s(x, n, repl, t),
        ),
        OpKind::Completion(a, b) => OpKind::Completion(
            substitute_s(x, n, repl, a),
            substitute_s(x, n, repl, b),
        ),
        OpKind::With(r, path, v) => OpKind::With(
            substitute_s(x, n, repl, r),
            path,
            substitute_s(x, n, repl, v),
        ),
    }
}

/// Model of the combined substitute-then-shift-back operation.
pub open spec fn subst_shift_s(x: Label, n: u64, repl: Term, t: Term) -> Term {
    shift_s(-1, x, n, substitute_s(x, n, shift_s(1, x, n, repl), t))
}

/// `substitute(var, repl, t)`: replace each free occurrence of `var` with
/// `repl`, pre-shifting `repl` when crossing a binder.
pub fn substitute(var: &V, repl: &Term, t: &Term) -> (r: Term)
    ensures
        r == substitute_s(var.0, var.1, *repl, *t),
{
    substitute_at(&var.0, var.1, repl, t)
}

/// The substitute-then-shift-back operation: replace `var` by `repl`
/// (shifted up on `var`), then shift the variables above `var` back down.
/// This is the single operation that beta reduction and `let` unfolding use.
pub fn subst_shift(var: &V, repl: &Term, t: &Term) -> (r: Term)
    ensures
        r == subst_shift_s(var.0, var.1, *repl, *t),
{
    let up = shift(1, var, repl);
    let mid = substitute(var, &up, t);
    shift(-1, var, &mid)
}

fn substitute_at(x: &Label, n: u64, repl: &Term, t: &Term) -> (r: Term)
    ensures
        r == substitute_s(*x, n, *repl, *t),
    decreases *t,
{
    match t {
        Term::Var(V(y, m)) => {
            if y.eq_label(x) && *m == n {
                repl.dup()
            } else {
                Term::Var(V(y.dup(), *m))
            }
        }
        Term::Const(c) => Term::Const(*c),
        Term::Builtin(b) => Term::Builtin(*b),
        Term::Lam(y, ty, body) => {
            let n2 = if y.eq_label(x) {
                crate::shift::idx_up_exec(n)
            } else {
                n
            };
            let repl2 = shift0(1, y, repl);
            Term::Lam(
                y.dup(),
                Box::new(substitute_at(x, n, repl, ty)),
                Box::new(substitute_at(x, n2, &repl2, body)),
            )
        }
        Term::Pi(y, ty, body) => {
            let n2 = if y.eq_label(x) {
                crate::shift::idx_up_exec(n)
            } else {
                n
            };
            let repl2 = shift0(1, y, repl);
            Term::Pi(
                y.dup(),
                Box::new(substitute_at(x, n, repl, ty)),
                Box::new(substitute_at(x, n2, &repl2, body)),
            )
        }
        Term::App(f, a) => Term::App(
            Box::new(substitute_at(x, n, repl, f)),
            Box::new(substitute_at(x, n, repl, a)),
        ),
        Term::Let(y, ann, v, body) => {
            let n2 = if y.eq_label(x) {
                crate::shift::idx_up_exec(n)
            } else {
                n
            };
            let repl2 = shift0(1, y, repl);
            Term::Let(
                y.dup(),
                match ann {
                    Option::None => Option::None,
                    Option::Some(a) => Option::Some(Box::new(substitute_at(x, n, repl, a))),
                },
                Box::new(substitute_at(x, n, repl, v)),
                Box::new(substitute_at(x, n2, &repl2, body)),
            )
        }
        Term::Annot(e, ty) => Term::Annot(
            Box::new(substitute_at(x, n, repl, e)),
            Box::new(substitute_at(x, n, repl, ty)),
        ),
        Term::BoolLit(b) => Term::BoolLit(*b),
        Term::NaturalLit(m) => Term::NaturalLit(*m),
        Term::IntegerLit(i) => Term::IntegerLit(*i),
        Term::DoubleLit(f) => Term::DoubleLit(*f),
        Term::TextLit(ps) => Term::TextLit(Box::new(substitute_text(x, n, repl, ps))),
        Term::EmptyListLit(ty) => Term::EmptyListLit(Box::new(substitute_at(x, n, repl, ty))),
        Term::NEListLit(ts) => Term::NEListLit(Box::new(substitute_list(x, n, repl, ts))),
        Term::SomeLit(e) => Term::SomeLit(Box::new(substitute_at(x, n, repl, e))),
        Term::OldOptionalLit(v, ty) => Term::OldOptionalLit(
            match v {
                Option::None => Option::None,
                Option::Some(e) => Option::Some(Box::new(substitute_at(x, n, repl, e))),
            },
            Box::new(substitute_at(x, n, repl, ty)),
        ),
        Term::RecordType(kts) => Term::RecordType(Box::new(substitute_fields(x, n, repl, kts))),
        Term::RecordLit(kvs) => Term::RecordLit(Box::new(substitute_fields(x, n, repl, kvs))),
        Term::UnionType(kts) => Term::UnionType(Box::new(substitute_alts(x, n, repl, kts))),
        Term::UnionLit(y, v, kts) => Term::UnionLit(
            y.dup(),
            Box::new(substitute_at(x, n, repl, v)),
            Box::new(substitute_alts(x, n, repl, kts)),
        ),
        Term::Op(op) => Term::Op(Box::new(substitute_op(x, n, repl, op))),
        Term::Assert(e) => Term::Assert(Box::new(substitute_at(x, n, repl, e))),
        Term::Import(i) => Term::Import(Box::new(i.dup())),
    }
}

fn substitute_list(x: &Label, n: u64, repl: &Term, ts: &TermList) -> (r: TermList)
    ensures
        r == substitute_list_s(*x, n, *repl, *ts),
    decreases *ts,
{
    match ts {
        TermList::Nil => TermList::Nil,
        TermList::Cons(t, rest) => TermList::Cons(
            substitute_at(x, n, repl, t),
            Box::new(substitute_list(x, n, repl, rest)),
        ),
    }
}

fn substitute_fields(x: &Label, n: u64, repl: &Term, fs: &FieldList) -> (r: FieldList)
    ensures
        r == substitute_fields_s(*x, n, *repl, *fs),
    decreases *fs,
{
    match fs {
        FieldList::Nil => FieldList::Nil,
        FieldList::Cons(k, t, rest) => FieldList::Cons(
            k.dup(),
            substitute_at(x, n, repl, t),
            Box::new(substitute_fields(x, n, repl, rest)),
        ),
    }
}

fn substitute_alts(x: &Label, n: u64, repl: &Term, alts: &AltList) -> (r: AltList)
    ensures
        r == substitute_alts_s(*x, n, *repl, *alts),
    decreases *alts,
{
    match alts {
        AltList::Nil => AltList::Nil,
        AltList::Cons(k, t, rest) => AltList::Cons(
            k.dup(),
            match t {
                Option::None => Option::None,
                Option::Some(t) => Option::Some(substitute_at(x, n, repl, t)),
            },
            Box::new(substitute_alts(x, n, repl, rest)),
        ),
    }
}

fn substitute_text(x: &Label, n: u64, repl: &Term, ps: &TextPieces) -> (r: TextPieces)
    ensures
        r == substitute_text_s(*x, n, *repl, *ps),
    decreases *ps,
{
    match ps {
        TextPieces::Empty => TextPieces::Empty,
        TextPieces::Chunk(s, rest) => TextPieces::Chunk(
            s.clone(),
            Box::new(substitute_text(x, n, repl, rest)),
        ),
        TextPieces::Interp(t, rest) => TextPieces::Interp(
            substitute_at(x, n, repl, t),
            Box::new(substitute_text(x, n, repl, rest)),
        ),
    }
}

fn substitute_op(x: &Label, n: u64, repl: &Term, op: &OpKind) -> (r: OpKind)
    ensures
        r == substitute_op_s(*x, n, *repl, *op),
    decreases *op,
{
    match op {
        OpKind::BinOp(o, l, r) => OpKind::BinOp(
            *o,
            substitute_at(x, n, repl, l),
            substitute_at(x, n, repl, r),
        ),
        OpKind::BoolIf(c, t, e) => OpKind::BoolIf(
            substitute_at(x, n, repl, c),
            substitute_at(x, n, repl, t),
            substitute_at(x, n, repl, e),
        ),
        OpKind::Merge(h, u, a) => OpKind::Merge(
            substitute_at(x, n, repl, h),
            substitute_at(x, n, repl, u),
            match a {
                Option::None => Option::None,
                Option::Some(a) => Option::Some(substitute_at(x, n, repl, a)),
            },
        ),
        OpKind::ToMap(r, a) => OpKind::ToMap(
            substitute_at(x, n, repl, r),
            match a {
                Option::None => Option::None,
                Option::Some(a) => Option::Some(substitute_at(x, n, repl, a)),
            },
        ),
        OpKind::Field(r, k) => OpKind::Field(substitute_at(x, n, repl, r), k.dup()),
        OpKind::Projection(r, ks) => OpKind::Projection(substitute_at(x, n, repl, r), ks.dup()),
        OpKind::ProjectionByExpr(r, t) => OpKind::ProjectionByExpr(
            substitute_at(x, n, repl, r),
            substitute_at(x, n, repl, t),
        ),
        OpKind::Completion(a, b) => OpKind::Completion(
            substitute_at(x, n, repl, a),
            substitute_at(x, n, repl, b),
        ),
        OpKind::With(r, path, v) => OpKind::With(
            substitute_at(x, n, repl, r),
            path.dup(),
            substitute_at(x, n, repl, v),
        ),
    }
}

} // verus!
