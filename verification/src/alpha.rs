//! Alpha-equivalence on normal forms.
//!
//! `alpha_eq(a, b)` compares two terms structurally under a stack of label
//! pairs recording the binders entered simultaneously on the left and on
//! the right.  Two variables match either because both are bound at the
//! same relative depth in the stack (`match_vars`), or because both are
//! free and structurally equal.  Imports are opaque and never survive
//! normalisation, so two imports compare unequal.

use vstd::prelude::*;

use crate::term::{
    AltList, FieldList, Label, LabelList, OpKind, Term, TermList, TextPieces, V,
};

verus! {

/// The stack of binder label pairs entered on the left and right.
#[derive(Debug)]
pub enum PairList {
    Nil,
    Cons(Label, Label, Box<PairList>),
}

impl PairList {
    /// Structural copy; the result equals the original.
    pub fn dup(&self) -> (r: PairList)
        ensures
            r == *self,
        decreases *self,
    {
        match self {
            PairList::Nil => PairList::Nil,
            PairList::Cons(l, r, rest) => {
                PairList::Cons(l.dup(), r.dup(), Box::new(rest.dup()))
            }
        }
    }
}

/// Model of `match_vars`: walk the binder stack, consuming one left
/// decrement per stack entry whose left label matches, and likewise on
/// the right.  The variables match when they meet the same entry at index
/// zero, or when both run off the stack as the same free variable; a
/// variable whose index reaches zero at an entry whose partner does not
/// match is bound by the wrong binder, and the comparison fails there.
pub open spec fn match_vars_s(
    xl: Label,
    nl: u64,
    xr: Label,
    nr: u64,
    ctx: PairList,
) -> bool
    decreases ctx,
{
    match ctx {
        PairList::Nil => xl == xr && nl == nr,
        PairList::Cons(yl, yr, rest) => {
            if nl == 0 && nr == 0 && yl == xl && yr == xr {
                true
            } else if (yl == xl && nl == 0) || (yr == xr && nr == 0) {
                false
            } else {
                let nl2 = if yl == xl {
                    (nl - 1) as u64
                } else {
                    nl
                };
                let nr2 = if yr == xr {
                    (nr - 1) as u64
                } else {
                    nr
                };
                match_vars_s(xl, nl2, xr, nr2, *rest)
            }
        }
    }
}

/// Model of `alpha_eq` under a binder stack.
pub open spec fn alpha_eq_s(ctx: PairList, l: Term, r: Term) -> bool
    decreases l,
{
    match (l, r) {
        (Term::Var(V(xl, nl)), Term::Var(V(xr, nr))) => match_vars_s(xl, nl, xr, nr, ctx),
        (Term::Const(a), Term::Const(b)) => a == b,
        (Term::Builtin(a), Term::Builtin(b)) => a == b,
        (Term::Lam(xl, tl, bl), Term::Lam(xr, tr, br)) => {
            alpha_eq_s(ctx, *tl, *tr)
                && alpha_eq_s(PairList::Cons(xl, xr, Box::new(ctx)), *bl, *br)
        }
        (Term::Pi(xl, tl, bl), Term::Pi(xr, tr, br)) => {
            alpha_eq_s(ctx, *tl, *tr)
                && alpha_eq_s(PairList::Cons(xl, xr, Box::new(ctx)), *bl, *br)
        }
        (Term::App(fl, al), Term::App(fr, ar)) => {
            alpha_eq_s(ctx, *fl, *fr) && alpha_eq_s(ctx, *al, *ar)
        }
        (Term::Let(xl, al, vl, bl), Term::Let(xr, ar, vr, br)) => {
            (match (al, ar) {
                (Option::None, Option::None) => true,
                (Option::Some(tl), Option::Some(tr)) => alpha_eq_s(ctx, *tl, *tr),
                _ => false,
            }) && alpha_eq_s(ctx, *vl, *vr)
                && alpha_eq_s(PairList::Cons(xl, xr, Box::new(ctx)), *bl, *br)
        }
        (Term::Annot(el, tl), Term::Annot(er, tr)) => {
            alpha_eq_s(ctx, *el, *er) && alpha_eq_s(ctx, *tl, *tr)
        }
        (Term::BoolLit(a), Term::BoolLit(b)) => a == b,
        (Term::NaturalLit(a), Term::NaturalLit(b)) => a == b,
        (Term::IntegerLit(a), Term::IntegerLit(b)) => a == b,
        (Term::DoubleLit(a), Term::DoubleLit(b)) => a == b,
        (Term::TextLit(pl), Term::TextLit(pr)) => alpha_eq_text_s(ctx, *pl, *pr),
        (Term::EmptyListLit(tl), Term::EmptyListLit(tr)) => alpha_eq_s(ctx, *tl, *tr),
        (Term::NEListLit(ll), Term::NEListLit(lr)) => alpha_eq_list_s(ctx, *ll, *lr),
        (Term::SomeLit(el), Term::SomeLit(er)) => alpha_eq_s(ctx, *el, *er),
        (Term::OldOptionalLit(vl, tl), Term::OldOptionalLit(vr, tr)) => {
            (match (vl, vr) {
                (Option::None, Option::None) => true,
                (Option::Some(el), Option::Some(er)) => alpha_eq_s(ctx, *el, *er),
                _ => false,
            }) && alpha_eq_s(ctx, *tl, *tr)
        }
        (Term::RecordType(fl), Term::RecordType(fr)) => alpha_eq_fields_s(ctx, *fl, *fr),
        (Term::RecordLit(fl), Term::RecordLit(fr)) => alpha_eq_fields_s(ctx, *fl, *fr),
        (Term::UnionType(al), Term::UnionType(ar)) => alpha_eq_alts_s(ctx, *al, *ar),
        (Term::UnionLit(xl, vl, kl), Term::UnionLit(xr, vr, kr)) => {
            xl == xr && alpha_eq_s(ctx, *vl, *vr) && alpha_eq_alts_s(ctx, *kl, *kr)
        }
        (Term::Op(ol), Term::Op(or)) => alpha_eq_op_s(ctx, *ol, *or),
        (Term::Assert(el), Term::Assert(er)) => alpha_eq_s(ctx, *el, *er),
        _ => false,
    }
}

pub open spec fn alpha_eq_list_s(ctx: PairList, l: TermList, r: TermList) -> bool
    decreases l,
{
    match (l, r) {
        (TermList::Nil, TermList::Nil) => true,
        (TermList::Cons(tl, restl), TermList::Cons(tr, restr)) => {
            alpha_eq_s(ctx, tl, tr) && alpha_eq_list_s(ctx, *restl, *restr)
        }
        _ => false,
    }
}

pub open spec fn alpha_eq_fields_s(ctx: PairList, l: FieldList, r: FieldList) -> bool
    decreases l,
{
    match (l, r) {
        (FieldList::Nil, FieldList::Nil) => true,
        (FieldList::Cons(kl, tl, restl), FieldList::Cons(kr, tr, restr)) => {
            kl == kr && alpha_eq_s(ctx, tl, tr) && alpha_eq_fields_s(ctx, *restl, *restr)
        }
        _ => false,
    }
}

pub open spec fn alpha_eq_alts_s(ctx: PairList, l: AltList, r: AltList) -> bool
    decreases l,
{
    match (l, r) {
        (AltList::Nil, AltList::Nil) => true,
        (AltList::Cons(kl, tl, restl), AltList::Cons(kr, tr, restr)) => {
            kl == kr && (match (tl, tr) {
                (Option::None, Option::None) => true,
                (Option::Some(tl), Option::Some(tr)) => alpha_eq_s(ctx, tl, tr),
                _ => false,
            }) && alpha_eq_alts_s(ctx, *restl, *restr)
        }
        _ => false,
    }
}

pub open spec fn alpha_eq_text_s(ctx: PairList, l: TextPieces, r: TextPieces) -> bool
    decreases l,
{
    match (l, r) {
        (TextPieces::Empty, TextPieces::Empty) => true,
        (TextPieces::Chunk(sl, restl), TextPieces::Chunk(sr, restr)) => {
            sl@ == sr@ && alpha_eq_text_s(ctx, *restl, *restr)
        }
        (TextPieces::Interp(tl, restl), TextPieces::Interp(tr, restr)) => {
            alpha_eq_s(ctx, tl, tr) && alpha_eq_text_s(ctx, *restl, *restr)
        }
        _ => false,
    }
}

pub open spec fn alpha_eq_op_s(ctx: PairList, l: OpKind, r: OpKind) -> bool
    decreases l,
{
    match (l, r) {
        (OpKind::BinOp(ol, ll, rl), OpKind::BinOp(or, lr, rr)) => {
            ol == or && alpha_eq_s(ctx, ll, lr) && alpha_eq_s(ctx, rl, rr)
        }
        (OpKind::BoolIf(cl, tl, el), OpKind::BoolIf(cr, tr, er)) => {
            alpha_eq_s(ctx, cl, cr) && alpha_eq_s(ctx, tl, tr) && alpha_eq_s(ctx, el, er)
        }
        (OpKind::Merge(hl, ul, al), OpKind::Merge(hr, ur, ar)) => {
            alpha_eq_s(ctx, hl, hr) && alpha_eq_s(ctx, ul, ur) && (match (al, ar) {
                (Option::None, Option::None) => true,
                (Option::Some(al), Option::Some(ar)) => alpha_eq_s(ctx, al, ar),
                _ => false,
            })
        }
        (OpKind::ToMap(rl, al), OpKind::ToMap(rr, ar)) => {
            alpha_eq_s(ctx, rl, rr) && (match (al, ar) {
                (Option::None, Option::None) => true,
                (Option::Some(al), Option::Some(ar)) => alpha_eq_s(ctx, al, ar),
                _ => false,
            })
        }
        (OpKind::Field(rl, kl), OpKind::Field(rr, kr)) => {
            alpha_eq_s(ctx, rl, rr) && kl == kr
        }
        (OpKind::Projection(rl, kl), OpKind::Projection(rr, kr)) => {
            alpha_eq_s(ctx, rl, rr) && labels_eq_s(kl, kr)
        }
        (OpKind::ProjectionByExpr(rl, tl), OpKind::ProjectionByExpr(rr, tr)) => {
            alpha_eq_s(ctx, rl, rr) && alpha_eq_s(ctx, tl, tr)
        }
        (OpKind::Completion(al, bl), OpKind::Completion(ar, br)) => {
            alpha_eq_s(ctx, al, ar) && alpha_eq_s(ctx, bl, br)
        }
        (OpKind::With(rl, pl, vl), OpKind::With(rr, pr, vr)) => {
            alpha_eq_s(ctx, rl, rr) && labels_eq_s(pl, pr) && alpha_eq_s(ctx, vl, vr)
        }
        _ => false,
    }
}

/// Elementwise equality of two label lists.
pub open spec fn labels_eq_s(l: LabelList, r: LabelList) -> bool
    decreases l,
{
    match (l, r) {
        (LabelList::Nil, LabelList::Nil) => true,
        (LabelList::Cons(sl, restl), LabelList::Cons(sr, restr)) => {
            sl == sr && labels_eq_s(*restl, *restr)
        }
        _ => false,
    }
}

/// No import lies inside the term.  Imports are opaque, so alpha-equivalence
/// declares two of them unequal; the laws below therefore speak of terms
/// that contain none, which is every term that survived normalisation.
pub open spec fn import_free(t: Term) -> bool
    decreases t,
{
    match t {
        Term::Var(_) => true,
        Term::Const(_) => true,
        Term::Builtin(_) => true,
        Term::Lam(_, ty, body) => import_free(*ty) && import_free(*body),
        Term::Pi(_, ty, body) => import_free(*ty) && import_free(*body),
        Term::App(f, a) => import_free(*f) && import_free(*a),
        Term::Let(_, ann, v, body) => (match ann {
            Option::None => true,
            Option::Some(a) => import_free(*a),
        }) && import_free(*v) && import_free(*body),
        Term::Annot(e, ty) => import_free(*e) && import_free(*ty),
        Term::BoolLit(_) => true,
        Term::NaturalLit(_) => true,
        Term::IntegerLit(_) => true,
        Term::DoubleLit(_) => true,
        Term::TextLit(ps) => import_free_text(*ps),
        Term::EmptyListLit(ty) => import_free(*ty),
        Term::NEListLit(ts) => import_free_list(*ts),
        Term::SomeLit(e) => import_free(*e),
        Term::OldOptionalLit(v, ty) => (match v {
            Option::None => true,
            Option::Some(e) => import_free(*e),
        }) && import_free(*ty),
        Term::RecordType(kts) => import_free_fields(*kts),
        Term::RecordLit(kvs) => import_free_fields(*kvs),
        Term::UnionType(kts) => import_free_alts(*kts),
        Term::UnionLit(_, v, kts) => import_free(*v) && import_free_alts(*kts),
        Term::Op(op) => import_free_op(*op),
        Term::Assert(e) => import_free(*e),
        Term::Import(_) => false,
    }
}

pub open spec fn import_free_list(ts: TermList) -> bool
    decreases ts,
{
    match ts {
        TermList::Nil => true,
        TermList::Cons(t, rest) => import_free(t) && import_free_list(*rest),
    }
}

pub open spec fn import_free_fields(fs: FieldList) -> bool
    decreases fs,
{
    match fs {
        FieldList::Nil => true,
        FieldList::Cons(_, t, rest) => import_free(t) && import_free_fields(*rest),
    }
}

pub open spec fn import_free_alts(alts: AltList) -> bool
    decreases alts,
{
    match alts {
        AltList::Nil => true,
        AltList::Cons(_, t, rest) => (match t {
            Option::None => true,
            Option::Some(t) => import_free(t),
        }) && import_free_alts(*rest),
    }
}

pub open spec fn import_free_text(ps: TextPieces) -> bool
    decreases ps,
{
    match ps {
        TextPieces::Empty => true,
        TextPieces::Chunk(_, rest) => import_free_text(*rest),
        TextPieces::Interp(t, rest) => import_free(t) && import_free_text(*rest),
    }
}

pub open spec fn import_free_op(op: OpKind) -> bool
    decreases op,
{
    match op {
        OpKind::BinOp(_, l, r) => import_free(l) && import_free(r),
        OpKind::BoolIf(c, t, e) => import_free(c) && import_free(t) && import_free(e),
        OpKind::Merge(h, u, a) => import_free(h) && import_free(u) && (match a {
            Option::None => true,
            Option::Some(a) => import_free(a),
        }),
        OpKind::ToMap(r, a) => import_free(r) && (match a {
            Option::None => true,
            Option::Some(a) => import_free(a),
        }),
        OpKind::Field(r, _) => import_free(r),
        OpKind::Projection(r, _) => import_free(r),
        OpKind::ProjectionByExpr(r, t) => import_free(r) && import_free(t),
        OpKind::Completion(a, b) => import_free(a) && import_free(b),
        OpKind::With(r, _, v) => import_free(r) && import_free(v),
    }
}

/// A stack all of whose pairs carry the same label on both sides, as arises
/// when one term is compared with itself.
pub open spec fn diagonal(ctx: PairList) -> bool
    decreases ctx,
{
    match ctx {
        PairList::Nil => true,
        PairList::Cons(l, r, rest) => l == r && diagonal(*rest),
    }
}

/// The same stack with left and right labels exchanged.
pub open spec fn flip(ctx: PairList) -> PairList
    decreases ctx,
{
    match ctx {
        PairList::Nil => PairList::Nil,
        PairList::Cons(l, r, rest) => PairList::Cons(r, l, Box::new(flip(*rest))),
    }
}

pub proof fn lemma_match_vars_refl(x: Label, n: u64, ctx: PairList)
    requires
        diagonal(ctx),
    ensures
        match_vars_s(x, n, x, n, ctx),
    decreases ctx,
{
    match ctx {
        PairList::Nil => {}
        PairList::Cons(l, r, rest) => {
            if !(n == 0 && l == x && r == x) {
                let n2 = if l == x {
                    (n - 1) as u64
                } else {
                    n
                };
                lemma_match_vars_refl(x, n2, *rest);
            }
        }
    }
}

/// Alpha-equivalence is reflexive on import-free terms.
pub proof fn lemma_alpha_eq_refl(ctx: PairList, t: Term)
    requires
        diagonal(ctx),
        import_free(t),
    ensures
        alpha_eq_s(ctx, t, t),
    decreases t,
{
    match t {
        Term::Var(V(x, n)) => {
            lemma_match_vars_refl(x, n, ctx);
        }
        Term::Lam(x, ty, body) => {
            lemma_alpha_eq_refl(ctx, *ty);
            lemma_alpha_eq_refl(PairList::Cons(x, x, Box::new(ctx)), *body);
        }
        Term::Pi(x, ty, body) => {
            lemma_alpha_eq_refl(ctx, *ty);
            lemma_alpha_eq_refl(PairList::Cons(x, x, Box::new(ctx)), *body);
        }
        Term::App(f, a) => {
            lemma_alpha_eq_refl(ctx, *f);
            lemma_alpha_eq_refl(ctx, *a);
        }
        Term::Let(x, ann, v, body) => {
            match ann {
                Option::None => {}
                Option::Some(a) => {
                    lemma_alpha_eq_refl(ctx, *a);
                }
            }
            lemma_alpha_eq_refl(ctx, *v);
            lemma_alpha_eq_refl(PairList::Cons(x, x, Box::new(ctx)), *body);
        }
        Term::Annot(e, ty) => {
            lemma_alpha_eq_refl(ctx, *e);
            lemma_alpha_eq_refl(ctx, *ty);
        }
        Term::TextLit(ps) => {
            lemma_alpha_eq_refl_text(ctx, *ps);
        }
        Term::EmptyListLit(ty) => {
            lemma_alpha_eq_refl(ctx, *ty);
        }
        Term::NEListLit(ts) => {
            lemma_alpha_eq_refl_list(ctx, *ts);
        }
        Term::SomeLit(e) => {
            lemma_alpha_eq_refl(ctx, *e);
        }
        Term::OldOptionalLit(v, ty) => {
            match v {
                Option::None => {}
                Option::Some(e) => {
                    lemma_alpha_eq_refl(ctx, *e);
                }
            }
            lemma_alpha_eq_refl(ctx, *ty);
        }
        Term::RecordType(kts) => {
            lemma_alpha_eq_refl_fields(ctx, *kts);
        }
        Term::RecordLit(kvs) => {
            lemma_alpha_eq_refl_fields(ctx, *kvs);
        }
        Term::UnionType(kts) => {
            lemma_alpha_eq_refl_alts(ctx, *kts);
        }
        Term::UnionLit(_, v, kts) => {
            lemma_alpha_eq_refl(ctx, *v);
            lemma_alpha_eq_refl_alts(ctx, *kts);
        }
        Term::Op(op) => {
            lemma_alpha_eq_refl_op(ctx, *op);
        }
        Term::Assert(e) => {
            lemma_alpha_eq_refl(ctx, *e);
        }
        _ => {}
    }
}

pub proof fn lemma_alpha_eq_refl_list(ctx: PairList, ts: TermList)
    requires
        diagonal(ctx),
        import_free_list(ts),
    ensures
        alpha_eq_list_s(ctx, ts, ts),
    decreases ts,
{
    match ts {
        TermList::Nil => {}
        TermList::Cons(t, rest) => {
            lemma_alpha_eq_refl(ctx, t);
            lemma_alpha_eq_refl_list(ctx, *rest);
        }
    }
}

pub proof fn lemma_alpha_eq_refl_fields(ctx: PairList, fs: FieldList)
    requires
        diagonal(ctx),
        import_free_fields(fs),
    ensures
        alpha_eq_fields_s(ctx, fs, fs),
    decreases fs,
{
    match fs {
        FieldList::Nil => {}
        FieldList::Cons(_, t, rest) => {
            lemma_alpha_eq_refl(ctx, t);
            lemma_alpha_eq_refl_fields(ctx, *rest);
        }
    }
}

pub proof fn lemma_alpha_eq_refl_alts(ctx: PairList, alts: AltList)
    requires
        diagonal(ctx),
        import_free_alts(alts),
    ensures
        alpha_eq_alts_s(ctx, alts, alts),
    decreases alts,
{
    match alts {
        AltList::Nil => {}
        AltList::Cons(_, t, rest) => {
            match t {
                Option::None => {}
                Option::Some(t) => {
                    lemma_alpha_eq_refl(ctx, t);
                }
            }
            lemma_alpha_eq_refl_alts(ctx, *rest);
        }
    }
}

pub proof fn lemma_alpha_eq_refl_text(ctx: PairList, ps: TextPieces)
    requires
        diagonal(ctx),
        import_free_text(ps),
    ensures
        alpha_eq_text_s(ctx, ps, ps),
    decreases ps,
{
    match ps {
        TextPieces::Empty => {}
        TextPieces::Chunk(_, rest) => {
            lemma_alpha_eq_refl_text(ctx, *rest);
        }
        TextPieces::Interp(t, rest) => {
            lemma_alpha_eq_refl(ctx, t);
            lemma_alpha_eq_refl_text(ctx, *rest);
        }
    }
}

pub proof fn lemma_alpha_eq_refl_op(ctx: PairList, op: OpKind)
    requires
        diagonal(ctx),
        import_free_op(op),
    ensures
        alpha_eq_op_s(ctx, op, op),
    decreases op,
{
    match op {
        OpKind::BinOp(_, l, r) => {
            lemma_alpha_eq_refl(ctx, l);
            lemma_alpha_eq_refl(ctx, r);
        }
        OpKind::BoolIf(c, t, e) => {
            lemma_alpha_eq_refl(ctx, c);
            lemma_alpha_eq_refl(ctx, t);
            lemma_alpha_eq_refl(ctx, e);
        }
        OpKind::Merge(h, u, a) => {
            lemma_alpha_eq_refl(ctx, h);
            lemma_alpha_eq_refl(ctx, u);
            match a {
                Option::None => {}
                Option::Some(a) => {
                    lemma_alpha_eq_refl(ctx, a);
                }
            }
        }
        OpKind::ToMap(r, a) => {
            lemma_alpha_eq_refl(ctx, r);
            match a {
                Option::None => {}
                Option::Some(a) => {
                    lemma_alpha_eq_refl(ctx, a);
                }
            }
        }
        OpKind::Field(r, _) => {
            lemma_alpha_eq_refl(ctx, r);
        }
        OpKind::Projection(r, ks) => {
            lemma_alpha_eq_refl(ctx, r);
            lemma_labels_eq_refl(ks);
        }
        OpKind::ProjectionByExpr(r, t) => {
            lemma_alpha_eq_refl(ctx, r);
            lemma_alpha_eq_refl(ctx, t);
        }
        OpKind::Completion(a, b) => {
            lemma_alpha_eq_refl(ctx, a);
            lemma_alpha_eq_refl(ctx, b);
        }
        OpKind::With(r, ks, v) => {
            lemma_alpha_eq_refl(ctx, r);
            lemma_labels_eq_refl(ks);
            lemma_alpha_eq_refl(ctx, v);
        }
    }
}

pub proof fn lemma_labels_eq_refl(ks: LabelList)
    ensures
        labels_eq_s(ks, ks),
    decreases ks,
{
    match ks {
        LabelList::Nil => {}
        LabelList::Cons(_, rest) => {
            lemma_labels_eq_refl(*rest);
        }
    }
}

pub proof fn lemma_match_vars_sym(
    xl: Label,
    nl: u64,
    xr: Label,
    nr: u64,
    ctx: PairList,
)
    ensures
        match_vars_s(xl, nl, xr, nr, ctx) == match_vars_s(xr, nr, xl, nl, flip(ctx)),
    decreases ctx,
{
    match ctx {
        PairList::Nil => {}
        PairList::Cons(yl, yr, rest) => {
            if !(nl == 0 && nr == 0 && yl == xl && yr == xr) && !((yl == xl && nl == 0) || (
            yr == xr && nr == 0)) {
                let nl2 = if yl == xl {
                    (nl - 1) as u64
                } else {
                    nl
                };
                let nr2 = if yr == xr {
                    (nr - 1) as u64
                } else {
                    nr
                };
                lemma_match_vars_sym(xl, nl2, xr, nr2, *rest);
            }
        }
    }
}

/// Alpha-equivalence is symmetric.
pub proof fn lemma_alpha_eq_sym(ctx: PairList, l: Term, r: Term)
    ensures
        alpha_eq_s(ctx, l, r) == alpha_eq_s(flip(ctx), r, l),
    decreases l,
{
    match (l, r) {
        (Term::Var(V(xl, nl)), Term::Var(V(xr, nr))) => {
            lemma_match_vars_sym(xl, nl, xr, nr, ctx);
        }
        (Term::Lam(xl, tl, bl), Term::Lam(xr, tr, br)) => {
            lemma_alpha_eq_sym(ctx, *tl, *tr);
            lemma_alpha_eq_sym(PairList::Cons(xl, xr, Box::new(ctx)), *bl, *br);
        }
        (Term::Pi(xl, tl, bl), Term::Pi(xr, tr, br)) => {
            lemma_alpha_eq_sym(ctx, *tl, *tr);
            lemma_alpha_eq_sym(PairList::Cons(xl, xr, Box::new(ctx)), *bl, *br);
        }
        (Term::App(fl, al), Term::App(fr, ar)) => {
            lemma_alpha_eq_sym(ctx, *fl, *fr);
            lemma_alpha_eq_sym(ctx, *al, *ar);
        }
        (Term::Let(xl, al, vl, bl), Term::Let(xr, ar, vr, br)) => {
            match (al, ar) {
                (Option::Some(tl), Option::Some(tr)) => {
                    lemma_alpha_eq_sym(ctx, *tl, *tr);
                }
                _ => {}
            }
            lemma_alpha_eq_sym(ctx, *vl, *vr);
            lemma_alpha_eq_sym(PairList::Cons(xl, xr, Box::new(ctx)), *bl, *br);
        }
        (Term::Annot(el, tl), Term::Annot(er, tr)) => {
            lemma_alpha_eq_sym(ctx, *el, *er);
            lemma_alpha_eq_sym(ctx, *tl, *tr);
        }
        (Term::TextLit(pl), Term::TextLit(pr)) => {
            lemma_alpha_eq_sym_text(ctx, *pl, *pr);
        }
        (Term::EmptyListLit(tl), Term::EmptyListLit(tr)) => {
            lemma_alpha_eq_sym(ctx, *tl, *tr);
        }
        (Term::NEListLit(ll), Term::NEListLit(lr)) => {
            lemma_alpha_eq_sym_list(ctx, *ll, *lr);
        }
        (Term::SomeLit(el), Term::SomeLit(er)) => {
            lemma_alpha_eq_sym(ctx, *el, *er);
        }
        (Term::OldOptionalLit(vl, tl), Term::OldOptionalLit(vr, tr)) => {
            match (vl, vr) {
                (Option::Some(el), Option::Some(er)) => {
                    lemma_alpha_eq_sym(ctx, *el, *er);
                }
                _ => {}
            }
            lemma_alpha_eq_sym(ctx, *tl, *tr);
        }
        (Term::RecordType(fl), Term::RecordType(fr)) => {
            lemma_alpha_eq_sym_fields(ctx, *fl, *fr);
        }
        (Term::RecordLit(fl), Term::RecordLit(fr)) => {
            lemma_alpha_eq_sym_fields(ctx, *fl, *fr);
        }
        (Term::UnionType(al), Term::UnionType(ar)) => {
            lemma_alpha_eq_sym_alts(ctx, *al, *ar);
        }
        (Term::UnionLit(_, vl, kl), Term::UnionLit(_, vr, kr)) => {
            lemma_alpha_eq_sym(ctx, *vl, *vr);
            lemma_alpha_eq_sym_alts(ctx, *kl, *kr);
        }
        (Term::Op(ol), Term::Op(or)) => {
            lemma_alpha_eq_sym_op(ctx, *ol, *or);
        }
        (Term::Assert(el), Term::Assert(er)) => {
            lemma_alpha_eq_sym(ctx, *el, *er);
        }
        _ => {}
    }
}

pub proof fn lemma_alpha_eq_sym_list(ctx: PairList, l: TermList, r: TermList)
    ensures
        alpha_eq_list_s(ctx, l, r) == alpha_eq_list_s(flip(ctx), r, l),
    decreases l,
{
    match (l, r) {
        (TermList::Cons(tl, restl), TermList::Cons(tr, restr)) => {
            lemma_alpha_eq_sym(ctx, tl, tr);
            lemma_alpha_eq_sym_list(ctx, *restl, *restr);
        }
        _ => {}
    }
}

pub proof fn lemma_alpha_eq_sym_fields(ctx: PairList, l: FieldList, r: FieldList)
    ensures
        alpha_eq_fields_s(ctx, l, r) == alpha_eq_fields_s(flip(ctx), r, l),
    decreases l,
{
    match (l, r) {
        (FieldList::Cons(_, tl, restl), FieldList::Cons(_, tr, restr)) => {
            lemma_alpha_eq_sym(ctx, tl, tr);
            lemma_alpha_eq_sym_fields(ctx, *restl, *restr);
        }
        _ => {}
    }
}

pub proof fn lemma_alpha_eq_sym_alts(ctx: PairList, l: AltList, r: AltList)
    ensures
        alpha_eq_alts_s(ctx, l, r) == alpha_eq_alts_s(flip(ctx), r, l),
    decreases l,
{
    match (l, r) {
        (AltList::Cons(_, tl, restl), AltList::Cons(_, tr, restr)) => {
            match (tl, tr) {
                (Option::Some(tl), Option::Some(tr)) => {
                    lemma_alpha_eq_sym(ctx, tl, tr);
                }
                _ => {}
            }
            lemma_alpha_eq_sym_alts(ctx, *restl, *restr);
        }
        _ => {}
    }
}

pub proof fn lemma_alpha_eq_sym_text(ctx: PairList, l: TextPieces, r: TextPieces)
    ensures
        alpha_eq_text_s(ctx, l, r) == alpha_eq_text_s(flip(ctx), r, l),
    decreases l,
{
    match (l, r) {
        (TextPieces::Chunk(_, restl), TextPieces::Chunk(_, restr)) => {
            lemma_alpha_eq_sym_text(ctx, *restl, *restr);
        }
        (TextPieces::Interp(tl, restl), TextPieces::Interp(tr, restr)) => {
            lemma_alpha_eq_sym(ctx, tl, tr);
            lemma_alpha_eq_sym_text(ctx, *restl, *restr);
        }
        _ => {}
    }
}

pub proof fn lemma_alpha_eq_sym_op(ctx: PairList, l: OpKind, r: OpKind)
    ensures
        alpha_eq_op_s(ctx, l, r) == alpha_eq_op_s(flip(ctx), r, l),
    decreases l,
{
    match (l, r) {
        (OpKind::BinOp(_, ll, rl), OpKind::BinOp(_, lr, rr)) => {
            lemma_alpha_eq_sym(ctx, ll, lr);
            lemma_alpha_eq_sym(ctx, rl, rr);
        }
        (OpKind::BoolIf(cl, tl, el), OpKind::BoolIf(cr, tr, er)) => {
            lemma_alpha_eq_sym(ctx, cl, cr);
            lemma_alpha_eq_sym(ctx, tl, tr);
            lemma_alpha_eq_sym(ctx, el, er);
        }
        (OpKind::Merge(hl, ul, al), OpKind::Merge(hr, ur, ar)) => {
            lemma_alpha_eq_sym(ctx, hl, hr);
            lemma_alpha_eq_sym(ctx, ul, ur);
            match (al, ar) {
                (Option::Some(al), Option::Some(ar)) => {
                    lemma_alpha_eq_sym(ctx, al, ar);
                }
                _ => {}
            }
        }
        (OpKind::ToMap(rl, al), OpKind::ToMap(rr, ar)) => {
            lemma_alpha_eq_sym(ctx, rl, rr);
            match (al, ar) {
                (Option::Some(al), Option::Some(ar)) => {
                    lemma_alpha_eq_sym(ctx, al, ar);
                }
                _ => {}
            }
        }
        (OpKind::Field(rl, _), OpKind::Field(rr, _)) => {
            lemma_alpha_eq_sym(ctx, rl, rr);
        }
        (OpKind::Projection(rl, kl), OpKind::Projection(rr, kr)) => {
            lemma_alpha_eq_sym(ctx, rl, rr);
            lemma_labels_eq_sym(kl, kr);
        }
        (OpKind::ProjectionByExpr(rl, tl), OpKind::ProjectionByExpr(rr, tr)) => {
            lemma_alpha_eq_sym(ctx, rl, rr);
            lemma_alpha_eq_sym(ctx, tl, tr);
        }
        (OpKind::Completion(al, bl), OpKind::Completion(ar, br)) => {
            lemma_alpha_eq_sym(ctx, al, ar);
            lemma_alpha_eq_sym(ctx, bl, br);
        }
        (OpKind::With(rl, pl, vl), OpKind::With(rr, pr, vr)) => {
            lemma_alpha_eq_sym(ctx, rl, rr);
            lemma_labels_eq_sym(pl, pr);
            lemma_alpha_eq_sym(ctx, vl, vr);
        }
        _ => {}
    }
}

pub proof fn lemma_labels_eq_sym(l: LabelList, r: LabelList)
    ensures
        labels_eq_s(l, r) == labels_eq_s(r, l),
    decreases l,
{
    match (l, r) {
        (LabelList::Cons(_, restl), LabelList::Cons(_, restr)) => {
            lemma_labels_eq_sym(*restl, *restr);
        }
        _ => {}
    }
}

/// The right labels of the first stack coincide with the left labels of
/// the second: the two stacks arose from comparisons through one middle
/// term.
pub open spec fn mid_aligned(c1: PairList, c2: PairList) -> bool
    decreases c1,
{
    match (c1, c2) {
        (PairList::Nil, PairList::Nil) => true,
        (PairList::Cons(_, r1, t1), PairList::Cons(l2, _, t2)) => r1 == l2 && mid_aligned(
            *t1,
            *t2,
        ),
        _ => false,
    }
}

/// The stack pairing the left labels of the first with the right labels
/// of the second.
pub open spec fn compose_stacks(c1: PairList, c2: PairList) -> PairList
    decreases c1,
{
    match (c1, c2) {
        (PairList::Cons(l1, _, t1), PairList::Cons(_, r2, t2)) => PairList::Cons(
            l1,
            r2,
            Box::new(compose_stacks(*t1, *t2)),
        ),
        _ => PairList::Nil,
    }
}

pub proof fn lemma_match_vars_trans(
    xa: Label,
    na: u64,
    xb: Label,
    nb: u64,
    xc: Label,
    nc: u64,
    c1: PairList,
    c2: PairList,
)
    requires
        mid_aligned(c1, c2),
        match_vars_s(xa, na, xb, nb, c1),
        match_vars_s(xb, nb, xc, nc, c2),
    ensures
        match_vars_s(xa, na, xc, nc, compose_stacks(c1, c2)),
    decreases c1,
{
    match (c1, c2) {
        (PairList::Cons(l1, r1, t1), PairList::Cons(l2, r2, t2)) => {
            if na == 0 && nb == 0 && l1 == xa && r1 == xb {
            } else {
                let na2 = if l1 == xa {
                    (na - 1) as u64
                } else {
                    na
                };
                let nb2 = if r1 == xb {
                    (nb - 1) as u64
                } else {
                    nb
                };
                let nc2 = if r2 == xc {
                    (nc - 1) as u64
                } else {
                    nc
                };
                lemma_match_vars_trans(xa, na2, xb, nb2, xc, nc2, *t1, *t2);
            }
        }
        _ => {}
    }
}

/// Alpha-equivalence is transitive, along aligned binder stacks.
pub proof fn lemma_alpha_eq_trans(c1: PairList, c2: PairList, a: Term, b: Term, c: Term)
    requires
        mid_aligned(c1, c2),
        alpha_eq_s(c1, a, b),
        alpha_eq_s(c2, b, c),
    ensures
        alpha_eq_s(compose_stacks(c1, c2), a, c),
    decreases a,
{
    match (a, b, c) {
        (Term::Var(V(xa, na)), Term::Var(V(xb, nb)), Term::Var(V(xc, nc))) => {
            lemma_match_vars_trans(xa, na, xb, nb, xc, nc, c1, c2);
        }
        (Term::Lam(xa, ta, ba), Term::Lam(xb, tb, bb), Term::Lam(xc, tc2, bc)) => {
            lemma_alpha_eq_trans(c1, c2, *ta, *tb, *tc2);
            lemma_alpha_eq_trans(
                PairList::Cons(xa, xb, Box::new(c1)),
                PairList::Cons(xb, xc, Box::new(c2)),
                *ba,
                *bb,
                *bc,
            );
        }
        (Term::Pi(xa, ta, ba), Term::Pi(xb, tb, bb), Term::Pi(xc, tc2, bc)) => {
            lemma_alpha_eq_trans(c1, c2, *ta, *tb, *tc2);
            lemma_alpha_eq_trans(
                PairList::Cons(xa, xb, Box::new(c1)),
                PairList::Cons(xb, xc, Box::new(c2)),
                *ba,
                *bb,
                *bc,
            );
        }
        (Term::App(fa, aa), Term::App(fb, ab), Term::App(fc, ac)) => {
            lemma_alpha_eq_trans(c1, c2, *fa, *fb, *fc);
            lemma_alpha_eq_trans(c1, c2, *aa, *ab, *ac);
        }
        (Term::Let(xa, anna, va, ba), Term::Let(xb, annb, vb, bb), Term::Let(
            xc,
            annc,
            vc,
            bc,
        )) => {
            match (anna, annb, annc) {
                (Option::Some(ta), Option::Some(tb), Option::Some(tc2)) => {
                    lemma_alpha_eq_trans(c1, c2, *ta, *tb, *tc2);
                }
                _ => {}
            }
            lemma_alpha_eq_trans(c1, c2, *va, *vb, *vc);
            lemma_alpha_eq_trans(
                PairList::Cons(xa, xb, Box::new(c1)),
                PairList::Cons(xb, xc, Box::new(c2)),
                *ba,
                *bb,
                *bc,
            );
        }
        (Term::Annot(ea, ta), Term::Annot(eb, tb), Term::Annot(ec, tc2)) => {
            lemma_alpha_eq_trans(c1, c2, *ea, *eb, *ec);
            lemma_alpha_eq_trans(c1, c2, *ta, *tb, *tc2);
        }
        (Term::TextLit(pa), Term::TextLit(pb), Term::TextLit(pc)) => {
            lemma_alpha_eq_trans_text(c1, c2, *pa, *pb, *pc);
        }
        (Term::EmptyListLit(ta), Term::EmptyListLit(tb), Term::EmptyListLit(tc2)) => {
            lemma_alpha_eq_trans(c1, c2, *ta, *tb, *tc2);
        }
        (Term::NEListLit(la), Term::NEListLit(lb), Term::NEListLit(lc)) => {
            lemma_alpha_eq_trans_list(c1, c2, *la, *lb, *lc);
        }
        (Term::SomeLit(ea), Term::SomeLit(eb), Term::SomeLit(ec)) => {
            lemma_alpha_eq_trans(c1, c2, *ea, *eb, *ec);
        }
        (Term::OldOptionalLit(va, ta), Term::OldOptionalLit(vb, tb), Term::OldOptionalLit(
            vc,
            tc2,
        )) => {
            match (va, vb, vc) {
                (Option::Some(ea), Option::Some(eb), Option::Some(ec)) => {
                    lemma_alpha_eq_trans(c1, c2, *ea, *eb, *ec);
                }
                _ => {}
            }
            lemma_alpha_eq_trans(c1, c2, *ta, *tb, *tc2);
        }
        (Term::RecordType(fa), Term::RecordType(fb), Term::RecordType(fc)) => {
            lemma_alpha_eq_trans_fields(c1, c2, *fa, *fb, *fc);
        }
        (Term::RecordLit(fa), Term::RecordLit(fb), Term::RecordLit(fc)) => {
            lemma_alpha_eq_trans_fields(c1, c2, *fa, *fb, *fc);
        }
        (Term::UnionType(aa), Term::UnionType(ab), Term::UnionType(ac)) => {
            lemma_alpha_eq_trans_alts(c1, c2, *aa, *ab, *ac);
        }
        (Term::UnionLit(_, va, ka), Term::UnionLit(_, vb, kb), Term::UnionLit(_, vc, kc)) => {
            lemma_alpha_eq_trans(c1, c2, *va, *vb, *vc);
            lemma_alpha_eq_trans_alts(c1, c2, *ka, *kb, *kc);
        }
        (Term::Op(oa), Term::Op(ob), Term::Op(oc)) => {
            lemma_alpha_eq_trans_op(c1, c2, *oa, *ob, *oc);
        }
        (Term::Assert(ea), Term::Assert(eb), Term::Assert(ec)) => {
            lemma_alpha_eq_trans(c1, c2, *ea, *eb, *ec);
        }
        _ => {}
    }
}

pub proof fn lemma_alpha_eq_trans_list(
    c1: PairList,
    c2: PairList,
    a: TermList,
    b: TermList,
    c: TermList,
)
    requires
        mid_aligned(c1, c2),
        alpha_eq_list_s(c1, a, b),
        alpha_eq_list_s(c2, b, c),
    ensures
        alpha_eq_list_s(compose_stacks(c1, c2), a, c),
    decreases a,
{
    match (a, b, c) {
        (TermList::Cons(ta, ra), TermList::Cons(tb, rb), TermList::Cons(tc2, rc)) => {
            lemma_alpha_eq_trans(c1, c2, ta, tb, tc2);
            lemma_alpha_eq_trans_list(c1, c2, *ra, *rb, *rc);
        }
        _ => {}
    }
}

pub proof fn lemma_alpha_eq_trans_fields(
    c1: PairList,
    c2: PairList,
    a: FieldList,
    b: FieldList,
    c: FieldList,
)
    requires
        mid_aligned(c1, c2),
        alpha_eq_fields_s(c1, a, b),
        alpha_eq_fields_s(c2, b, c),
    ensures
        alpha_eq_fields_s(compose_stacks(c1, c2), a, c),
    decreases a,
{
    match (a, b, c) {
        (FieldList::Cons(_, ta, ra), FieldList::Cons(_, tb, rb), FieldList::Cons(
            _,
            tc2,
            rc,
        )) => {
            lemma_alpha_eq_trans(c1, c2, ta, tb, tc2);
            lemma_alpha_eq_trans_fields(c1, c2, *ra, *rb, *rc);
        }
        _ => {}
    }
}

pub proof fn lemma_alpha_eq_trans_alts(
    c1: PairList,
    c2: PairList,
    a: AltList,
    b: AltList,
    c: AltList,
)
    requires
        mid_aligned(c1, c2),
        alpha_eq_alts_s(c1, a, b),
        alpha_eq_alts_s(c2, b, c),
    ensures
        alpha_eq_alts_s(compose_stacks(c1, c2), a, c),
    decreases a,
{
    match (a, b, c) {
        (AltList::Cons(_, ta, ra), AltList::Cons(_, tb, rb), AltList::Cons(_, tc2, rc)) => {
            match (ta, tb, tc2) {
                (Option::Some(ta), Option::Some(tb), Option::Some(tc2)) => {
                    lemma_alpha_eq_trans(c1, c2, ta, tb, tc2);
                }
                _ => {}
            }
            lemma_alpha_eq_trans_alts(c1, c2, *ra, *rb, *rc);
        }
        _ => {}
    }
}

pub proof fn lemma_alpha_eq_trans_text(
    c1: PairList,
    c2: PairList,
    a: TextPieces,
    b: TextPieces,
    c: TextPieces,
)
    requires
        mid_aligned(c1, c2),
        alpha_eq_text_s(c1, a, b),
        alpha_eq_text_s(c2, b, c),
    ensures
        alpha_eq_text_s(compose_stacks(c1, c2), a, c),
    decreases a,
{
    match (a, b, c) {
        (TextPieces::Chunk(_, ra), TextPieces::Chunk(_, rb), TextPieces::Chunk(_, rc)) => {
            lemma_alpha_eq_trans_text(c1, c2, *ra, *rb, *rc);
        }
        (TextPieces::Interp(ta, ra), TextPieces::Interp(tb, rb), TextPieces::Interp(
            tc2,
            rc,
        )) => {
            lemma_alpha_eq_trans(c1, c2, ta, tb, tc2);
            lemma_alpha_eq_trans_text(c1, c2, *ra, *rb, *rc);
        }
        _ => {}
    }
}

pub proof fn lemma_alpha_eq_trans_op(c1: PairList, c2: PairList, a: OpKind, b: OpKind, c: OpKind)
    requires
        mid_aligned(c1, c2),
        alpha_eq_op_s(c1, a, b),
        alpha_eq_op_s(c2, b, c),
    ensures
        alpha_eq_op_s(compose_stacks(c1, c2), a, c),
    decreases a,
{
    match (a, b, c) {
        (OpKind::BinOp(_, la, ra), OpKind::BinOp(_, lb, rb), OpKind::BinOp(_, lc, rc)) => {
            lemma_alpha_eq_trans(c1, c2, la, lb, lc);
            lemma_alpha_eq_trans(c1, c2, ra, rb, rc);
        }
        (OpKind::BoolIf(ca, ta, ea), OpKind::BoolIf(cb, tb, eb), OpKind::BoolIf(
            cc,
            tc2,
            ec,
        )) => {
            lemma_alpha_eq_trans(c1, c2, ca, cb, cc);
            lemma_alpha_eq_trans(c1, c2, ta, tb, tc2);
            lemma_alpha_eq_trans(c1, c2, ea, eb, ec);
        }
        (OpKind::Merge(ha, ua, aa), OpKind::Merge(hb, ub, ab), OpKind::Merge(hc, uc, ac)) => {
            lemma_alpha_eq_trans(c1, c2, ha, hb, hc);
            lemma_alpha_eq_trans(c1, c2, ua, ub, uc);
            match (aa, ab, ac) {
                (Option::Some(aa), Option::Some(ab), Option::Some(ac)) => {
                    lemma_alpha_eq_trans(c1, c2, aa, ab, ac);
                }
                _ => {}
            }
        }
        (OpKind::ToMap(ra, aa), OpKind::ToMap(rb, ab), OpKind::ToMap(rc, ac)) => {
            lemma_alpha_eq_trans(c1, c2, ra, rb, rc);
            match (aa, ab, ac) {
                (Option::Some(aa), Option::Some(ab), Option::Some(ac)) => {
                    lemma_alpha_eq_trans(c1, c2, aa, ab, ac);
                }
                _ => {}
            }
        }
        (OpKind::Field(ra, _), OpKind::Field(rb, _), OpKind::Field(rc, _)) => {
            lemma_alpha_eq_trans(c1, c2, ra, rb, rc);
        }
        (OpKind::Projection(ra, ka), OpKind::Projection(rb, kb), OpKind::Projection(
            rc,
            kc,
        )) => {
            lemma_alpha_eq_trans(c1, c2, ra, rb, rc);
            lemma_labels_eq_trans(ka, kb, kc);
        }
        (OpKind::ProjectionByExpr(ra, ta), OpKind::ProjectionByExpr(rb, tb),
        OpKind::ProjectionByExpr(rc, tc2)) => {
            lemma_alpha_eq_trans(c1, c2, ra, rb, rc);
            lemma_alpha_eq_trans(c1, c2, ta, tb, tc2);
        }
        (OpKind::Completion(aa, ba), OpKind::Completion(ab, bb), OpKind::Completion(
            ac,
            bc,
        )) => {
            lemma_alpha_eq_trans(c1, c2, aa, ab, ac);
            lemma_alpha_eq_trans(c1, c2, ba, bb, bc);
        }
        (OpKind::With(ra, pa, va), OpKind::With(rb, pb, vb), OpKind::With(rc, pc, vc)) => {
            lemma_alpha_eq_trans(c1, c2, ra, rb, rc);
            lemma_labels_eq_trans(pa, pb, pc);
            lemma_alpha_eq_trans(c1, c2, va, vb, vc);
        }
        _ => {}
    }
}

pub proof fn lemma_labels_eq_trans(a: LabelList, b: LabelList, c: LabelList)
    requires
        labels_eq_s(a, b),
        labels_eq_s(b, c),
    ensures
        labels_eq_s(a, c),
    decreases a,
{
    match (a, b, c) {
        (LabelList::Cons(_, ra), LabelList::Cons(_, rb), LabelList::Cons(_, rc)) => {
            lemma_labels_eq_trans(*ra, *rb, *rc);
        }
        _ => {}
    }
}

/// Do the two variables denote the same binder (or the same free
/// variable) under the given stack of binder pairs?
pub fn match_vars(vl: &V, vr: &V, ctx: &PairList) -> (res: bool)
    ensures
        res == match_vars_s(vl.0, vl.1, vr.0, vr.1, *ctx),
{
    match_vars_at(&vl.0, vl.1, &vr.0, vr.1, ctx)
}

fn match_vars_at(xl: &Label, nl: u64, xr: &Label, nr: u64, ctx: &PairList) -> (res: bool)
    ensures
        res == match_vars_s(*xl, nl, *xr, nr, *ctx),
    decreases *ctx,
{
    match ctx {
        PairList::Nil => xl.eq_label(xr) && nl == nr,
        PairList::Cons(yl, yr, rest) => {
            let left_hit = yl.eq_label(xl);
            let right_hit = yr.eq_label(xr);
            if nl == 0 && nr == 0 && left_hit && right_hit {
                true
            } else if (left_hit && nl == 0) || (right_hit && nr == 0) {
                false
            } else {
                let nl2 = if left_hit {
                    nl - 1
                } else {
                    nl
                };
                let nr2 = if right_hit {
                    nr - 1
                } else {
                    nr
                };
                match_vars_at(xl, nl2, xr, nr2, rest)
            }
        }
    }
}

/// Equality up to alpha-equivalence (renaming of bound variables).
pub fn alpha_eq(l: &Term, r: &Term) -> (res: bool)
    ensures
        res == alpha_eq_s(PairList::Nil, *l, *r),
{
    alpha_eq_at(&PairList::Nil, l, r)
}

/// Alpha-equivalence under an explicit stack of binder pairs.
pub fn alpha_eq_at(ctx: &PairList, l: &Term, r: &Term) -> (res: bool)
    ensures
        res == alpha_eq_s(*ctx, *l, *r),
    decreases *l,
{
    match (l, r) {
        (Term::Var(vl), Term::Var(vr)) => match_vars(vl, vr, ctx),
        (Term::Const(a), Term::Const(b)) => a == b,
        (Term::Builtin(a), Term::Builtin(b)) => a == b,
        (Term::Lam(xl, tl, bl), Term::Lam(xr, tr, br)) => {
            alpha_eq_at(ctx, tl, tr) && {
                let ctx2 = PairList::Cons(xl.dup(), xr.dup(), Box::new(ctx.dup()));
                alpha_eq_at(&ctx2, bl, br)
            }
        }
        (Term::Pi(xl, tl, bl), Term::Pi(xr, tr, br)) => {
            alpha_eq_at(ctx, tl, tr) && {
                let ctx2 = PairList::Cons(xl.dup(), xr.dup(), Box::new(ctx.dup()));
                alpha_eq_at(&ctx2, bl, br)
            }
        }
        (Term::App(fl, al), Term::App(fr, ar)) => {
            alpha_eq_at(ctx, fl, fr) && alpha_eq_at(ctx, al, ar)
        }
        (Term::Let(xl, al, vl, bl), Term::Let(xr, ar, vr, br)) => {
            (match (al, ar) {
                (Option::None, Option::None) => true,
                (Option::Some(tl), Option::Some(tr)) => alpha_eq_at(ctx, tl, tr),
                _ => false,
            }) && alpha_eq_at(ctx, vl, vr) && {
                let ctx2 = PairList::Cons(xl.dup(), xr.dup(), Box::new(ctx.dup()));
                alpha_eq_at(&ctx2, bl, br)
            }
        }
        (Term::Annot(el, tl), Term::Annot(er, tr)) => {
            alpha_eq_at(ctx, el, er) && alpha_eq_at(ctx, tl, tr)
        }
        (Term::BoolLit(a), Term::BoolLit(b)) => a == b,
        (Term::NaturalLit(a), Term::NaturalLit(b)) => a == b,
        (Term::IntegerLit(a), Term::IntegerLit(b)) => a == b,
        (Term::DoubleLit(a), Term::DoubleLit(b)) => a == b,
        (Term::TextLit(pl), Term::TextLit(pr)) => alpha_eq_text(ctx, pl, pr),
        (Term::EmptyListLit(tl), Term::EmptyListLit(tr)) => alpha_eq_at(ctx, tl, tr),
        (Term::NEListLit(ll), Term::NEListLit(lr)) => alpha_eq_list(ctx, ll, lr),
        (Term::SomeLit(el), Term::SomeLit(er)) => alpha_eq_at(ctx, el, er),
        (Term::OldOptionalLit(vl, tl), Term::OldOptionalLit(vr, tr)) => {
            (match (vl, vr) {
                (Option::None, Option::None) => true,
                (Option::Some(el), Option::Some(er)) => alpha_eq_at(ctx, el, er),
                _ => false,
            }) && alpha_eq_at(ctx, tl, tr)
        }
        (Term::RecordType(fl), Term::RecordType(fr)) => alpha_eq_fields(ctx, fl, fr),
        (Term::RecordLit(fl), Term::RecordLit(fr)) => alpha_eq_fields(ctx, fl, fr),
        (Term::UnionType(al), Term::UnionType(ar)) => alpha_eq_alts(ctx, al, ar),
        (Term::UnionLit(xl, vl, kl), Term::UnionLit(xr, vr, kr)) => {
            xl.eq_label(xr) && alpha_eq_at(ctx, vl, vr) && alpha_eq_alts(ctx, kl, kr)
        }
        (Term::Op(ol), Term::Op(or)) => alpha_eq_op(ctx, ol, or),
        (Term::Assert(el), Term::Assert(er)) => alpha_eq_at(ctx, el, er),
        _ => false,
    }
}

fn alpha_eq_list(ctx: &PairList, l: &TermList, r: &TermList) -> (res: bool)
    ensures
        res == alpha_eq_list_s(*ctx, *l, *r),
    decreases *l,
{
    match (l, r) {
        (TermList::Nil, TermList::Nil) => true,
        (TermList::Cons(tl, restl), TermList::Cons(tr, restr)) => {
            alpha_eq_at(ctx, tl, tr) && alpha_eq_list(ctx, restl, restr)
        }
        _ => false,
    }
}

fn alpha_eq_fields(ctx: &PairList, l: &FieldList, r: &FieldList) -> (res: bool)
    ensures
        res == alpha_eq_fields_s(*ctx, *l, *r),
    decreases *l,
{
    match (l, r) {
        (FieldList::Nil, FieldList::Nil) => true,
        (FieldList::Cons(kl, tl, restl), FieldList::Cons(kr, tr, restr)) => {
            kl.eq_label(kr) && alpha_eq_at(ctx, tl, tr) && alpha_eq_fields(ctx, restl, restr)
        }
        _ => false,
    }
}

fn alpha_eq_alts(ctx: &PairList, l: &AltList, r: &AltList) -> (res: bool)
    ensures
        res == alpha_eq_alts_s(*ctx, *l, *r),
    decreases *l,
{
    match (l, r) {
        (AltList::Nil, AltList::Nil) => true,
        (AltList::Cons(kl, tl, restl), AltList::Cons(kr, tr, restr)) => {
            kl.eq_label(kr) && (match (tl, tr) {
                (Option::None, Option::None) => true,
                (Option::Some(tl), Option::Some(tr)) => alpha_eq_at(ctx, tl, tr),
                _ => false,
            }) && alpha_eq_alts(ctx, restl, restr)
        }
        _ => false,
    }
}

fn alpha_eq_text(ctx: &PairList, l: &TextPieces, r: &TextPieces) -> (res: bool)
    ensures
        res == alpha_eq_text_s(*ctx, *l, *r),
    decreases *l,
{
    match (l, r) {
        (TextPieces::Empty, TextPieces::Empty) => true,
        (TextPieces::Chunk(sl, restl), TextPieces::Chunk(sr, restr)) => {
            sl.eq(sr) && alpha_eq_text(ctx, restl, restr)
        }
        (TextPieces::Interp(tl, restl), TextPieces::Interp(tr, restr)) => {
            alpha_eq_at(ctx, tl, tr) && alpha_eq_text(ctx, restl, restr)
        }
        _ => false,
    }
}

fn alpha_eq_op(ctx: &PairList, l: &OpKind, r: &OpKind) -> (res: bool)
    ensures
        res == alpha_eq_op_s(*ctx, *l, *r),
    decreases *l,
{
    match (l, r) {
        (OpKind::BinOp(ol, ll, rl), OpKind::BinOp(or, lr, rr)) => {
            ol == or && alpha_eq_at(ctx, ll, lr) && alpha_eq_at(ctx, rl, rr)
        }
        (OpKind::BoolIf(cl, tl, el), OpKind::BoolIf(cr, tr, er)) => {
            alpha_eq_at(ctx, cl, cr) && alpha_eq_at(ctx, tl, tr) && alpha_eq_at(ctx, el, er)
        }
        (OpKind::Merge(hl, ul, al), OpKind::Merge(hr, ur, ar)) => {
            alpha_eq_at(ctx, hl, hr) && alpha_eq_at(ctx, ul, ur) && (match (al, ar) {
                (Option::None, Option::None) => true,
                (Option::Some(al), Option::Some(ar)) => alpha_eq_at(ctx, al, ar),
                _ => false,
            })
        }
        (OpKind::ToMap(rl, al), OpKind::ToMap(rr, ar)) => {
            alpha_eq_at(ctx, rl, rr) && (match (al, ar) {
                (Option::None, Option::None) => true,
                (Option::Some(al), Option::Some(ar)) => alpha_eq_at(ctx, al, ar),
                _ => false,
            })
        }
        (OpKind::Field(rl, kl), OpKind::Field(rr, kr)) => alpha_eq_at(ctx, rl, rr) && kl.eq_label(kr),
        (OpKind::Projection(rl, kl), OpKind::Projection(rr, kr)) => {
            alpha_eq_at(ctx, rl, rr) && labels_eq(kl, kr)
        }
        (OpKind::ProjectionByExpr(rl, tl), OpKind::ProjectionByExpr(rr, tr)) => {
            alpha_eq_at(ctx, rl, rr) && alpha_eq_at(ctx, tl, tr)
        }
        (OpKind::Completion(al, bl), OpKind::Completion(ar, br)) => {
            alpha_eq_at(ctx, al, ar) && alpha_eq_at(ctx, bl, br)
        }
        (OpKind::With(rl, pl, vl), OpKind::With(rr, pr, vr)) => {
            alpha_eq_at(ctx, rl, rr) && labels_eq(pl, pr) && alpha_eq_at(ctx, vl, vr)
        }
        _ => false,
    }
}

fn labels_eq(l: &LabelList, r: &LabelList) -> (res: bool)
    ensures
        res == labels_eq_s(*l, *r),
    decreases *l,
{
    match (l, r) {
        (LabelList::Nil, LabelList::Nil) => true,
        (LabelList::Cons(sl, restl), LabelList::Cons(sr, restr)) => {
            sl.eq_label(sr) && labels_eq(restl, restr)
        }
        _ => false,
    }
}

} // verus!
