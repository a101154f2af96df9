//! Index shifting and capture-avoiding substitution.
//!
//! `shift` rewrites the free occurrences of a variable `V(x, n)` — every
//! `V(x, m)` with `m >= n` — moving their index by one, and increments the
//! cutoff `n` when it crosses a binder whose label is `x`.  `substitute`
//! replaces the free occurrences of exactly `V(x, n)` with a replacement
//! term, pre-shifting the replacement when crossing a binder so that its
//! free variables stay correctly bound.  `subst_shift` is the combined
//! substitute-then-shift-back operation, applied as a single pass.
//!
//! Both operations are total: an index that would leave `[0, u64::MAX]`
//! saturates at the bound instead (unreachable in practice).

use vstd::prelude::*;

use crate::term::{
    AltList, FieldList, Label, OpKind, Term, TermList, TextPieces, V,
};

verus! {

/// One step up for a de Bruijn index or cutoff, saturating at `u64::MAX`.
pub open spec fn idx_up(n: u64) -> u64 {
    if n == u64::MAX {
        n
    } else {
        (n + 1) as u64
    }
}

/// One step down for a de Bruijn index, saturating at `0`.
pub open spec fn idx_down(n: u64) -> u64 {
    if n == 0 {
        0
    } else {
        (n - 1) as u64
    }
}

/// The index of a matched variable after a shift by `d` (`1` or `-1`).
pub open spec fn idx_shift(d: int, n: u64) -> u64 {
    if d == 1 {
        idx_up(n)
    } else {
        idx_down(n)
    }
}

/// Model of `shift`: move by `d` every variable `V(x, m)` with `m >= n`.
pub open spec fn shift_s(d: int, x: Label, n: u64, t: Term) -> Term
    decreases t,
{
    match t {
        Term::Var(V(y, m)) => {
            if y == x && m >= n {
                Term::Var(V(y, idx_shift(d, m)))
            } else {
                Term::Var(V(y, m))
            }
        }
        Term::Const(c) => Term::Const(c),
        Term::Builtin(b) => Term::Builtin(b),
        Term::Lam(y, ty, body) => {
            let n2 = if y == x {
                idx_up(n)
            } else {
                n
            };
            Term::Lam(
                y,
                Box::new(shift_s(d, x, n, *ty)),
                Box::new(shift_s(d, x, n2, *body)),
            )
        }
        Term::Pi(y, ty, body) => {
            let n2 = if y == x {
                idx_up(n)
            } else {
                n
            };
            Term::Pi(
                y,
                Box::new(shift_s(d, x, n, *ty)),
                Box::new(shift_s(d, x, n2, *body)),
            )
        }
        Term::App(f, a) => Term::App(
            Box::new(shift_s(d, x, n, *f)),
            Box::new(shift_s(d, x, n, *a)),
        ),
        Term::Let(y, ann, v, body) => {
            let n2 = if y == x {
                idx_up(n)
            } else {
                n
            };
            Term::Let(
                y,
                match ann {
                    Option::None => Option::None,
                    Option::Some(a) => Option::Some(Box::new(shift_s(d, x, n, *a))),
                },
                Box::new(shift_s(d, x, n, *v)),
                Box::new(shift_s(d, x, n2, *body)),
            )
        }
        Term::Annot(e, ty) => Term::Annot(
            Box::new(shift_s(d, x, n, *e)),
            Box::new(shift_s(d, x, n, *ty)),
        ),
        Term::BoolLit(b) => Term::BoolLit(b),
        Term::NaturalLit(m) => Term::NaturalLit(m),
        Term::IntegerLit(i) => Term::IntegerLit(i),
        Term::DoubleLit(f) => Term::DoubleLit(f),
        Term::TextLit(ps) => Term::TextLit(Box::new(shift_text_s(d, x, n, *ps))),
        Term::EmptyListLit(ty) => Term::EmptyListLit(Box::new(shift_s(d, x, n, *ty))),
        Term::NEListLit(ts) => Term::NEListLit(Box::new(shift_list_s(d, x, n, *ts))),
        Term::SomeLit(e) => Term::SomeLit(Box::new(shift_s(d, x, n, *e))),
        Term::OldOptionalLit(v, ty) => Term::OldOptionalLit(
            match v {
                Option::None => Option::None,
                Option::Some(e) => Option::Some(Box::new(shift_s(d, x, n, *e))),
            },
            Box::new(shift_s(d, x, n, *ty)),
        ),
        Term::RecordType(kts) => Term::RecordType(Box::new(shift_fields_s(d, x, n, *kts))),
        Term::RecordLit(kvs) => Term::RecordLit(Box::new(shift_fields_s(d, x, n, *kvs))),
        Term::UnionType(kts) => Term::UnionType(Box::new(shift_alts_s(d, x, n, *kts))),
        Term::UnionLit(y, v, kts) => Term::UnionLit(
            y,
            Box::new(shift_s(d, x, n, *v)),
            Box::new(shift_alts_s(d, x, n, *kts)),
        ),
        Term::Op(op) => Term::Op(Box::new(shift_op_s(d, x, n, *op))),
        Term::Assert(e) => Term::Assert(Box::new(shift_s(d, x, n, *e))),
        Term::Import(i) => Term::Import(i),
    }
}

pub open spec fn shift_list_s(d: int, x: Label, n: u64, ts: TermList) -> TermList
    decreases ts,
{
    match ts {
        TermList::Nil => TermList::Nil,
        TermList::Cons(t, rest) => TermList::Cons(
            shift_s(d, x, n, t),
            Box::new(shift_list_s(d, x, n, *rest)),
        ),
    }
}

pub open spec fn shift_fields_s(d: int, x: Label, n: u64, fs: FieldList) -> FieldList
    decreases fs,
{
    match fs {
        FieldList::Nil => FieldList::Nil,
        FieldList::Cons(k, t, rest) => FieldList::Cons(
            k,
            shift_s(d, x, n, t),
            Box::new(shift_fields_s(d, x, n, *rest)),
        ),
    }
}

pub open spec fn shift_alts_s(d: int, x: Label, n: u64, alts: AltList) -> AltList
    decreases alts,
{
    match alts {
        AltList::Nil => AltList::Nil,
        AltList::Cons(k, t, rest) => AltList::Cons(
            k,
            match t {
                Option::None => Option::None,
                Option::Some(t) => Option::Some(shift_s(d, x, n, t)),
            },
            Box::new(shift_alts_s(d, x, n, *rest)),
        ),
    }
}

pub open spec fn shift_text_s(d: int, x: Label, n: u64, ps: TextPieces) -> TextPieces
    decreases ps,
{
    match ps {
        TextPieces::Empty => TextPieces::Empty,
        TextPieces::Chunk(s, rest) => TextPieces::Chunk(
            s,
            Box::new(shift_text_s(d, x, n, *rest)),
        ),
        TextPieces::Interp(t, rest) => TextPieces::Interp(
            shift_s(d, x, n, t),
            Box::new(shift_text_s(d, x, n, *rest)),
        ),
    }
}

pub open spec fn shift_op_s(d: int, x: Label, n: u64, op: OpKind) -> OpKind
    decreases op,
{
    match op {
        OpKind::BinOp(o, l, r) => OpKind::BinOp(o, shift_s(d, x, n, l), shift_s(d, x, n, r)),
        OpKind::BoolIf(c, t, e) => OpKind::BoolIf(
            shift_s(d, x, n, c),
            shift_s(d, x, n, t),
            shift_s(d, x, n, e),
        ),
        OpKind::Merge(h, u, a) => OpKind::Merge(
            shift_s(d, x, n, h),
            shift_s(d, x, n, u),
            match a {
                Option::None => Option::None,
                Option::Some(a) => Option::Some(shift_s(d, x, n, a)),
            },
        ),
        OpKind::ToMap(r, a) => OpKind::ToMap(
            shift_s(d, x, n, r),
            match a {
                Option::None => Option::None,
                Option::Some(a) => Option::Some(shift_s(d, x, n, a)),
            },
        ),
        OpKind::Field(r, k) => OpKind::Field(shift_s(d, x, n, r), k),
        OpKind::Projection(r, ks) => OpKind::Projection(shift_s(d, x, n, r), ks),
        OpKind::ProjectionByExpr(r, t) => OpKind::ProjectionByExpr(
            shift_s(d, x, n, r),
            shift_s(d, x, n, t),
        ),
        OpKind::Completion(a, b) => OpKind::Completion(shift_s(d, x, n, a), shift_s(d, x, n, b)),
        OpKind::With(r, path, v) => OpKind::With(
            shift_s(d, x, n, r),
            path,
            shift_s(d, x, n, v),
        ),
    }
}

/// Every variable index in the term is below `u64::MAX`, so no shift up
/// ever saturates.  Holds of any term a parser can produce.
pub open spec fn vars_below_max(t: Term) -> bool
    decreases t,
{
    match t {
        Term::Var(V(_, m)) => m < u64::MAX,
        Term::Const(_) => true,
        Term::Builtin(_) => true,
        Term::Lam(_, ty, body) => vars_below_max(*ty) && vars_below_max(*body),
        Term::Pi(_, ty, body) => vars_below_max(*ty) && vars_below_max(*body),
        Term::App(f, a) => vars_below_max(*f) && vars_below_max(*a),
        Term::Let(_, ann, v, body) => (match ann {
            Option::None => true,
            Option::Some(a) => vars_below_max(*a),
        }) && vars_below_max(*v) && vars_below_max(*body),
        Term::Annot(e, ty) => vars_below_max(*e) && vars_below_max(*ty),
        Term::BoolLit(_) => true,
        Term::NaturalLit(_) => true,
        Term::IntegerLit(_) => true,
        Term::DoubleLit(_) => true,
        Term::TextLit(ps) => vars_below_max_text(*ps),
        Term::EmptyListLit(ty) => vars_below_max(*ty),
        Term::NEListLit(ts) => vars_below_max_list(*ts),
        Term::SomeLit(e) => vars_below_max(*e),
        Term::OldOptionalLit(v, ty) => (match v {
            Option::None => true,
            Option::Some(e) => vars_below_max(*e),
        }) && vars_below_max(*ty),
        Term::RecordType(kts) => vars_below_max_fields(*kts),
        Term::RecordLit(kvs) => vars_below_max_fields(*kvs),
        Term::UnionType(kts) => vars_below_max_alts(*kts),
        Term::UnionLit(_, v, kts) => vars_below_max(*v) && vars_below_max_alts(*kts),
        Term::Op(op) => vars_below_max_op(*op),
        Term::Assert(e) => vars_below_max(*e),
        Term::Import(_) => true,
    }
}

pub open spec fn vars_below_max_list(ts: TermList) -> bool
    decreases ts,
{
    match ts {
        TermList::Nil => true,
        TermList::Cons(t, rest) => vars_below_max(t) && vars_below_max_list(*rest),
    }
}

pub open spec fn vars_below_max_fields(fs: FieldList) -> bool
    decreases fs,
{
    match fs {
        FieldList::Nil => true,
        FieldList::Cons(_, t, rest) => vars_below_max(t) && vars_below_max_fields(*rest),
    }
}

pub open spec fn vars_below_max_alts(alts: AltList) -> bool
    decreases alts,
{
    match alts {
        AltList::Nil => true,
        AltList::Cons(_, t, rest) => (match t {
            Option::None => true,
            Option::Some(t) => vars_below_max(t),
        }) && vars_below_max_alts(*rest),
    }
}

pub open spec fn vars_below_max_text(ps: TextPieces) -> bool
    decreases ps,
{
    match ps {
        TextPieces::Empty => true,
        TextPieces::Chunk(_, rest) => vars_below_max_text(*rest),
        TextPieces::Interp(t, rest) => vars_below_max(t) && vars_below_max_text(*rest),
    }
}

pub open spec fn vars_below_max_op(op: OpKind) -> bool
    decreases op,
{
    match op {
        OpKind::BinOp(_, l, r) => vars_below_max(l) && vars_below_max(r),
        OpKind::BoolIf(c, t, e) => vars_below_max(c) && vars_below_max(t) && vars_below_max(e),
        OpKind::Merge(h, u, a) => vars_below_max(h) && vars_below_max(u) && (match a {
            Option::None => true,
            Option::Some(a) => vars_below_max(a),
        }),
        OpKind::ToMap(r, a) => vars_below_max(r) && (match a {
            Option::None => true,
            Option::Some(a) => vars_below_max(a),
        }),
        OpKind::Field(r, _) => vars_below_max(r),
        OpKind::Projection(r, _) => vars_below_max(r),
        OpKind::ProjectionByExpr(r, t) => vars_below_max(r) && vars_below_max(t),
        OpKind::Completion(a, b) => vars_below_max(a) && vars_below_max(b),
        OpKind::With(r, _, v) => vars_below_max(r) && vars_below_max(v),
    }
}

/// Shifting up on a variable and then down on the same variable is the
/// identity, provided no index sits at the saturation bound.
pub proof fn lemma_shift_round_trip(x: Label, n: u64, t: Term)
    requires
        vars_below_max(t),
    ensures
        shift_s(-1, x, n, shift_s(1, x, n, t)) == t,
    decreases t,
{
    match t {
        Term::Lam(y, ty, body) => {
            let n2 = if y == x {
                idx_up(n)
            } else {
                n
            };
            lemma_shift_round_trip(x, n, *ty);
            lemma_shift_round_trip(x, n2, *body);
        }
        Term::Pi(y, ty, body) => {
            let n2 = if y == x {
                idx_up(n)
            } else {
                n
            };
            lemma_shift_round_trip(x, n, *ty);
            lemma_shift_round_trip(x, n2, *body);
        }
        Term::App(f, a) => {
            lemma_shift_round_trip(x, n, *f);
            lemma_shift_round_trip(x, n, *a);
        }
        Term::Let(y, ann, v, body) => {
            let n2 = if y == x {
                idx_up(n)
            } else {
                n
            };
            match ann {
                Option::None => {}
                Option::Some(a) => {
                    lemma_shift_round_trip(x, n, *a);
                }
            }
            lemma_shift_round_trip(x, n, *v);
            lemma_shift_round_trip(x, n2, *body);
        }
        Term::Annot(e, ty) => {
            lemma_shift_round_trip(x, n, *e);
            lemma_shift_round_trip(x, n, *ty);
        }
        Term::TextLit(ps) => {
            lemma_shift_round_trip_text(x, n, *ps);
        }
        Term::EmptyListLit(ty) => {
            lemma_shift_round_trip(x, n, *ty);
        }
        Term::NEListLit(ts) => {
            lemma_shift_round_trip_list(x, n, *ts);
        }
        Term::SomeLit(e) => {
            lemma_shift_round_trip(x, n, *e);
        }
        Term::OldOptionalLit(v, ty) => {
            match v {
                Option::None => {}
                Option::Some(e) => {
                    lemma_shift_round_trip(x, n, *e);
                }
            }
            lemma_shift_round_trip(x, n, *ty);
        }
        Term::RecordType(kts) => {
            lemma_shift_round_trip_fields(x, n, *kts);
        }
        Term::RecordLit(kvs) => {
            lemma_shift_round_trip_fields(x, n, *kvs);
        }
        Term::UnionType(kts) => {
            lemma_shift_round_trip_alts(x, n, *kts);
        }
        Term::UnionLit(_, v, kts) => {
            lemma_shift_round_trip(x, n, *v);
            lemma_shift_round_trip_alts(x, n, *kts);
        }
        Term::Op(op) => {
            lemma_shift_round_trip_op(x, n, *op);
        }
        Term::Assert(e) => {
            lemma_shift_round_trip(x, n, *e);
        }
        _ => {}
    }
}

pub proof fn lemma_shift_round_trip_list(x: Label, n: u64, ts: TermList)
    requires
        vars_below_max_list(ts),
    ensures
        shift_list_s(-1, x, n, shift_list_s(1, x, n, ts)) == ts,
    decreases ts,
{
    match ts {
        TermList::Nil => {}
        TermList::Cons(t, rest) => {
            lemma_shift_round_trip(x, n, t);
            lemma_shift_round_trip_list(x, n, *rest);
        }
    }
}

pub proof fn lemma_shift_round_trip_fields(x: Label, n: u64, fs: FieldList)
    requires
        vars_below_max_fields(fs),
    ensures
        shift_fields_s(-1, x, n, shift_fields_s(1, x, n, fs)) == fs,
    decreases fs,
{
    match fs {
        FieldList::Nil => {}
        FieldList::Cons(_, t, rest) => {
            lemma_shift_round_trip(x, n, t);
            lemma_shift_round_trip_fields(x, n, *rest);
        }
    }
}

pub proof fn lemma_shift_round_trip_alts(x: Label, n: u64, alts: AltList)
    requires
        vars_below_max_alts(alts),
    ensures
        shift_alts_s(-1, x, n, shift_alts_s(1, x, n, alts)) == alts,
    decreases alts,
{
    match alts {
        AltList::Nil => {}
        AltList::Cons(_, t, rest) => {
            match t {
                Option::None => {}
                Option::Some(t) => {
                    lemma_shift_round_trip(x, n, t);
                }
            }
            lemma_shift_round_trip_alts(x, n, *rest);
        }
    }
}

pub proof fn lemma_shift_round_trip_text(x: Label, n: u64, ps: TextPieces)
    requires
        vars_below_max_text(ps),
    ensures
        shift_text_s(-1, x, n, shift_text_s(1, x, n, ps)) == ps,
    decreases ps,
{
    match ps {
        TextPieces::Empty => {}
        TextPieces::Chunk(_, rest) => {
            lemma_shift_round_trip_text(x, n, *rest);
        }
        TextPieces::Interp(t, rest) => {
            lemma_shift_round_trip(x, n, t);
            lemma_shift_round_trip_text(x, n, *rest);
        }
    }
}

pub proof fn lemma_shift_round_trip_op(x: Label, n: u64, op: OpKind)
    requires
        vars_below_max_op(op),
    ensures
        shift_op_s(-1, x, n, shift_op_s(1, x, n, op)) == op,
    decreases op,
{
    match op {
        OpKind::BinOp(_, l, r) => {
            lemma_shift_round_trip(x, n, l);
            lemma_shift_round_trip(x, n, r);
        }
        OpKind::BoolIf(c, t, e) => {
            lemma_shift_round_trip(x, n, c);
            lemma_shift_round_trip(x, n, t);
            lemma_shift_round_trip(x, n, e);
        }
        OpKind::Merge(h, u, a) => {
            lemma_shift_round_trip(x, n, h);
            lemma_shift_round_trip(x, n, u);
            match a {
                Option::None => {}
                Option::Some(a) => {
                    lemma_shift_round_trip(x, n, a);
                }
            }
        }
        OpKind::ToMap(r, a) => {
            lemma_shift_round_trip(x, n, r);
            match a {
                Option::None => {}
                Option::Some(a) => {
                    lemma_shift_round_trip(x, n, a);
                }
            }
        }
        OpKind::Field(r, _) => {
            lemma_shift_round_trip(x, n, r);
        }
        OpKind::Projection(r, _) => {
            lemma_shift_round_trip(x, n, r);
        }
        OpKind::ProjectionByExpr(r, t) => {
            lemma_shift_round_trip(x, n, r);
            lemma_shift_round_trip(x, n, t);
        }
        OpKind::Completion(a, b) => {
            lemma_shift_round_trip(x, n, a);
            lemma_shift_round_trip(x, n, b);
        }
        OpKind::With(r, _, v) => {
            lemma_shift_round_trip(x, n, r);
            lemma_shift_round_trip(x, n, v);
        }
    }
}

/// One step up for an index or cutoff, saturating at `u64::MAX`.
pub(crate) fn idx_up_exec(n: u64) -> (r: u64)
    ensures
        r == idx_up(n),
{
    if n == u64::MAX {
        n
    } else {
        n + 1
    }
}

/// The index of a matched variable after a shift by `d`.
fn idx_shift_x(d: i64, n: u64) -> (r: u64)
    requires
        d == 1 || d == -1,
    ensures
        r == idx_shift(d as int, n),
{
    if d == 1 {
        idx_up_exec(n)
    } else {
        if n == 0 {
            0
        } else {
            n - 1
        }
    }
}

/// `shift(delta, var, term)`: rewrite the free occurrences of `var`,
/// moving their index by `delta`.
pub fn shift(d: i64, var: &V, t: &Term) -> (r: Term)
    requires
        d == 1 || d == -1,
    ensures
        r == shift_s(d as int, var.0, var.1, *t),
{
    shift_at(d, &var.0, var.1, t)
}

/// `shift` of the variable `V(label, 0)`.
pub fn shift0(d: i64, label: &Label, t: &Term) -> (r: Term)
    requires
        d == 1 || d == -1,
    ensures
        r == shift_s(d as int, *label, 0, *t),
{
    shift_at(d, label, 0, t)
}

fn shift_at(d: i64, x: &Label, n: u64, t: &Term) -> (r: Term)
    requires
        d == 1 || d == -1,
    ensures
        r == shift_s(d as int, *x, n, *t),
    decreases *t,
{
    match t {
        Term::Var(V(y, m)) => {
            if y.eq_label(x) && *m >= n {
                Term::Var(V(y.dup(), idx_shift_x(d, *m)))
            } else {
                Term::Var(V(y.dup(), *m))
            }
        }
        Term::Const(c) => Term::Const(*c),
        Term::Builtin(b) => Term::Builtin(*b),
        Term::Lam(y, ty, body) => {
            let n2 = if y.eq_label(x) {
                idx_up_exec(n)
            } else {
                n
            };
            Term::Lam(
                y.dup(),
                Box::new(shift_at(d, x, n, ty)),
                Box::new(shift_at(d, x, n2, body)),
            )
        }
        Term::Pi(y, ty, body) => {
            let n2 = if y.eq_label(x) {
                idx_up_exec(n)
            } else {
                n
            };
            Term::Pi(
                y.dup(),
                Box::new(shift_at(d, x, n, ty)),
                Box::new(shift_at(d, x, n2, body)),
            )
        }
        Term::App(f, a) => Term::App(
            Box::new(shift_at(d, x, n, f)),
            Box::new(shift_at(d, x, n, a)),
        ),
        Term::Let(y, ann, v, body) => {
            let n2 = if y.eq_label(x) {
                idx_up_exec(n)
            } else {
                n
            };
            Term::Let(
                y.dup(),
                match ann {
                    Option::None => Option::None,
                    Option::Some(a) => Option::Some(Box::new(shift_at(d, x, n, a))),
                },
                Box::new(shift_at(d, x, n, v)),
                Box::new(shift_at(d, x, n2, body)),
            )
        }
        Term::Annot(e, ty) => Term::Annot(
            Box::new(shift_at(d, x, n, e)),
            Box::new(shift_at(d, x, n, ty)),
        ),
        Term::BoolLit(b) => Term::BoolLit(*b),
        Term::NaturalLit(m) => Term::NaturalLit(*m),
        Term::IntegerLit(i) => Term::IntegerLit(*i),
        Term::DoubleLit(f) => Term::DoubleLit(*f),
        Term::TextLit(ps) => Term::TextLit(Box::new(shift_text(d, x, n, ps))),
        Term::EmptyListLit(ty) => Term::EmptyListLit(Box::new(shift_at(d, x, n, ty))),
        Term::NEListLit(ts) => Term::NEListLit(Box::new(shift_list(d, x, n, ts))),
        Term::SomeLit(e) => Term::SomeLit(Box::new(shift_at(d, x, n, e))),
        Term::OldOptionalLit(v, ty) => Term::OldOptionalLit(
            match v {
                Option::None => Option::None,
                Option::Some(e) => Option::Some(Box::new(shift_at(d, x, n, e))),
            },
            Box::new(shift_at(d, x, n, ty)),
        ),
        Term::RecordType(kts) => Term::RecordType(Box::new(shift_fields(d, x, n, kts))),
        Term::RecordLit(kvs) => Term::RecordLit(Box::new(shift_fields(d, x, n, kvs))),
        Term::UnionType(kts) => Term::UnionType(Box::new(shift_alts(d, x, n, kts))),
        Term::UnionLit(y, v, kts) => Term::UnionLit(
            y.dup(),
            Box::new(shift_at(d, x, n, v)),
            Box::new(shift_alts(d, x, n, kts)),
        ),
        Term::Op(op) => Term::Op(Box::new(shift_op(d, x, n, op))),
        Term::Assert(e) => Term::Assert(Box::new(shift_at(d, x, n, e))),
        Term::Import(i) => Term::Import(Box::new(i.dup())),
    }
}

fn shift_list(d: i64, x: &Label, n: u64, ts: &TermList) -> (r: TermList)
    requires
        d == 1 || d == -1,
    ensures
        r == shift_list_s(d as int, *x, n, *ts),
    decreases *ts,
{
    match ts {
        TermList::Nil => TermList::Nil,
        TermList::Cons(t, rest) => TermList::Cons(
            shift_at(d, x, n, t),
            Box::new(shift_list(d, x, n, rest)),
        ),
    }
}

fn shift_fields(d: i64, x: &Label, n: u64, fs: &FieldList) -> (r: FieldList)
    requires
        d == 1 || d == -1,
    ensures
        r == shift_fields_s(d as int, *x, n, *fs),
    decreases *fs,
{
    match fs {
        FieldList::Nil => FieldList::Nil,
        FieldList::Cons(k, t, rest) => FieldList::Cons(
            k.dup(),
            shift_at(d, x, n, t),
            Box::new(shift_fields(d, x, n, rest)),
        ),
    }
}

fn shift_alts(d: i64, x: &Label, n: u64, alts: &AltList) -> (r: AltList)
    requires
        d == 1 || d == -1,
    ensures
        r == shift_alts_s(d as int, *x, n, *alts),
    decreases *alts,
{
    match alts {
        AltList::Nil => AltList::Nil,
        AltList::Cons(k, t, rest) => AltList::Cons(
            k.dup(),
            match t {
                Option::None => Option::None,
                Option::Some(t) => Option::Some(shift_at(d, x, n, t)),
            },
            Box::new(shift_alts(d, x, n, rest)),
        ),
    }
}

fn shift_text(d: i64, x: &Label, n: u64, ps: &TextPieces) -> (r: TextPieces)
    requires
        d == 1 || d == -1,
    ensures
        r == shift_text_s(d as int, *x, n, *ps),
    decreases *ps,
{
    match ps {
        TextPieces::Empty => TextPieces::Empty,
        TextPieces::Chunk(s, rest) => TextPieces::Chunk(
            s.clone(),
            Box::new(shift_text(d, x, n, rest)),
        ),
        TextPieces::Interp(t, rest) => TextPieces::Interp(
            shift_at(d, x, n, t),
            Box::new(shift_text(d, x, n, rest)),
        ),
    }
}

fn shift_op(d: i64, x: &Label, n: u64, op: &OpKind) -> (r: OpKind)
    requires
        d == 1 || d == -1,
    ensures
        r == shift_op_s(d as int, *x, n, *op),
    decreases *op,
{
    match op {
        OpKind::BinOp(o, l, r) => OpKind::BinOp(*o, shift_at(d, x, n, l), shift_at(d, x, n, r)),
        OpKind::BoolIf(c, t, e) => OpKind::BoolIf(
            shift_at(d, x, n, c),
            shift_at(d, x, n, t),
            shift_at(d, x, n, e),
        ),
        OpKind::Merge(h, u, a) => OpKind::Merge(
            shift_at(d, x, n, h),
            shift_at(d, x, n, u),
            match a {
                Option::None => Option::None,
                Option::Some(a) => Option::Some(shift_at(d, x, n, a)),
            },
        ),
        OpKind::ToMap(r, a) => OpKind::ToMap(
            shift_at(d, x, n, r),
            match a {
                Option::None => Option::None,
                Option::Some(a) => Option::Some(shift_at(d, x, n, a)),
            },
        ),
        OpKind::Field(r, k) => OpKind::Field(shift_at(d, x, n, r), k.dup()),
        OpKind::Projection(r, ks) => OpKind::Projection(shift_at(d, x, n, r), ks.dup()),
        OpKind::ProjectionByExpr(r, t) => OpKind::ProjectionByExpr(
            shift_at(d, x, n, r),
            shift_at(d, x, n, t),
        ),
        OpKind::Completion(a, b) => OpKind::Completion(shift_at(d, x, n, a), shift_at(d, x, n, b)),
        OpKind::With(r, path, v) => OpKind::With(
            shift_at(d, x, n, r),
            path.dup(),
            shift_at(d, x, n, v),
        ),
    }
}

} // verus!
