//! The typing context: a persistent stack of bindings.
//!
//! A binding is either a type binding (a lambda- or pi-bound variable with
//! its normal-form type and that type's universe) or a value binding (a
//! `let`-bound name with its normalised value, the value's normal-form type
//! and that type's own type).  Inserting a binding for `x` shifts every
//! pre-existing entry by `+1` on `x`, and shifts the inserted terms too, so
//! the new binder captures nothing.  Lookup of `V(x, n)` returns the `n`-th
//! entry whose label is `x`, counted from the top.

use vstd::prelude::*;

use crate::shift::shift_s;
use crate::shift::shift0;
use crate::term::{Const, Label, Term, V};

verus! {

/// The type of a normal-form type: a universe constant, or the internal
/// `SuperType` sentinel that sits above `Sort` and is never user-visible.
#[derive(Debug, PartialEq, Eq)]
pub enum Univ {
    Of(Const),
    SuperType,
}

impl Univ {
    /// Structural copy; the result equals the original.
    pub fn dup(&self) -> (r: Univ)
        ensures
            r == *self,
    {
        match self {
            Univ::Of(c) => Univ::Of(*c),
            Univ::SuperType => Univ::SuperType,
        }
    }
}

/// One context entry.
#[derive(Debug, PartialEq, Eq)]
pub enum EnvItem {
    /// A variable bound by a lambda or pi, with its normal-form type and
    /// the universe constant that type lives in.
    TyBind(Term, Const),
    /// A `let`-bound name: the normalised value, its normal-form type, and
    /// that type's own type.
    ValBind(Term, Term, Univ),
}

impl EnvItem {
    /// Structural copy; the result equals the original.
    pub fn dup(&self) -> (r: EnvItem)
        ensures
            r == *self,
    {
        match self {
            EnvItem::TyBind(t, k) => EnvItem::TyBind(t.dup(), *k),
            EnvItem::ValBind(v, t, u) => EnvItem::ValBind(v.dup(), t.dup(), u.dup()),
        }
    }
}

/// The stack of bindings, most recent first.
#[derive(Debug, PartialEq, Eq)]
pub enum CtxList {
    Nil,
    Cons(Label, EnvItem, Box<CtxList>),
}

impl CtxList {
    /// Structural copy; the result equals the original.
    pub fn dup(&self) -> (r: CtxList)
        ensures
            r == *self,
        decreases *self,
    {
        match self {
            CtxList::Nil => CtxList::Nil,
            CtxList::Cons(x, e, rest) => CtxList::Cons(x.dup(), e.dup(), Box::new(rest.dup())),
        }
    }
}

/// An entry shifted by `+1` on the newly inserted label `x`.
pub open spec fn item_shift0_s(x: Label, e: EnvItem) -> EnvItem {
    match e {
        EnvItem::TyBind(t, k) => EnvItem::TyBind(shift_s(1, x, 0, t), k),
        EnvItem::ValBind(v, t, u) => EnvItem::ValBind(
            shift_s(1, x, 0, v),
            shift_s(1, x, 0, t),
            u,
        ),
    }
}

/// Every entry of the stack shifted by `+1` on `x`.
pub open spec fn ctx_shift0_s(x: Label, c: CtxList) -> CtxList
    decreases c,
{
    match c {
        CtxList::Nil => CtxList::Nil,
        CtxList::Cons(y, e, rest) => CtxList::Cons(
            y,
            item_shift0_s(x, e),
            Box::new(ctx_shift0_s(x, *rest)),
        ),
    }
}

/// Model of `insert_type`.
pub open spec fn insert_type_s(x: Label, t: Term, k: Const, c: CtxList) -> CtxList {
    CtxList::Cons(
        x,
        EnvItem::TyBind(shift_s(1, x, 0, t), k),
        Box::new(ctx_shift0_s(x, c)),
    )
}

/// Model of `insert_value`.
pub open spec fn insert_value_s(x: Label, v: Term, t: Term, u: Univ, c: CtxList) -> CtxList {
    CtxList::Cons(
        x,
        EnvItem::ValBind(shift_s(1, x, 0, v), shift_s(1, x, 0, t), u),
        Box::new(ctx_shift0_s(x, c)),
    )
}

/// Model of `lookup`: the `n`-th entry labelled `x`, from the top.
pub open spec fn lookup_s(c: CtxList, x: Label, n: u64) -> Option<EnvItem>
    decreases c,
{
    match c {
        CtxList::Nil => Option::None,
        CtxList::Cons(y, e, rest) => {
            if y == x {
                if n == 0 {
                    Option::Some(e)
                } else {
                    lookup_s(*rest, x, (n - 1) as u64)
                }
            } else {
                lookup_s(*rest, x, n)
            }
        }
    }
}

/// The persistent typing context.
#[derive(Debug, PartialEq, Eq)]
pub struct TypecheckContext(pub CtxList);

impl TypecheckContext {
    /// The empty context.
    pub fn new() -> (r: TypecheckContext)
        ensures
            r.0 == CtxList::Nil,
    {
        TypecheckContext(CtxList::Nil)
    }

    /// Structural copy; the result equals the original.
    pub fn dup(&self) -> (r: TypecheckContext)
        ensures
            r == *self,
    {
        TypecheckContext(self.0.dup())
    }

    /// A new context with `x` bound at type `t` (normal, of universe `k`);
    /// the pre-existing entries and the stored type are shifted on `x`.
    pub fn insert_type(&self, x: &Label, t: &Term, k: Const) -> (r: TypecheckContext)
        ensures
            r.0 == insert_type_s(*x, *t, k, self.0),
    {
        TypecheckContext(
            CtxList::Cons(
                x.dup(),
                EnvItem::TyBind(shift0(1, x, t), k),
                Box::new(ctx_shift0(x, &self.0)),
            ),
        )
    }

    /// A new context with `x` bound to the value `v` (normalised) of type
    /// `t` (normal, with `t`'s own type `u`), shifted as `insert_type`.
    pub fn insert_value(&self, x: &Label, v: &Term, t: &Term, u: &Univ) -> (r: TypecheckContext)
        ensures
            r.0 == insert_value_s(*x, *v, *t, *u, self.0),
    {
        TypecheckContext(
            CtxList::Cons(
                x.dup(),
                EnvItem::ValBind(shift0(1, x, v), shift0(1, x, t), u.dup()),
                Box::new(ctx_shift0(x, &self.0)),
            ),
        )
    }

    /// The `n`-th entry labelled `x`, counted from the top.
    pub fn lookup(&self, var: &V) -> (r: Option<EnvItem>)
        ensures
            r == lookup_s(self.0, var.0, var.1),
    {
        lookup_at(&self.0, &var.0, var.1)
    }
}

fn ctx_shift0(x: &Label, c: &CtxList) -> (r: CtxList)
    ensures
        r == ctx_shift0_s(*x, *c),
    decreases *c,
{
    match c {
        CtxList::Nil => CtxList::Nil,
        CtxList::Cons(y, e, rest) => {
            let e2 = match e {
                EnvItem::TyBind(t, k) => EnvItem::TyBind(shift0(1, x, t), *k),
                EnvItem::ValBind(v, t, u) => EnvItem::ValBind(
                    shift0(1, x, v),
                    shift0(1, x, t),
                    u.dup(),
                ),
            };
            CtxList::Cons(y.dup(), e2, Box::new(ctx_shift0(x, rest)))
        }
    }
}

fn lookup_at(c: &CtxList, x: &Label, n: u64) -> (r: Option<EnvItem>)
    ensures
        r == lookup_s(*c, *x, n),
    decreases *c,
{
    match c {
        CtxList::Nil => Option::None,
        CtxList::Cons(y, e, rest) => {
            if y.eq_label(x) {
                if n == 0 {
                    Option::Some(e.dup())
                } else {
                    lookup_at(rest, x, n - 1)
                }
            } else {
                lookup_at(rest, x, n)
            }
        }
    }
}

} // verus!
