//! The term representation: an immutable AST with named de Bruijn indices.
//!
//! Sequences (list literals, record and union fields, text pieces, projection
//! labels) are kept as cons lists so that the specification functions of the
//! other modules can build terms as easily as the executable code does.

use vstd::prelude::*;
use vstd::string::StringSliceAdditionalSpecFns;

verus! {

/// One of the three universe constants, with `Type : Kind : Sort`.
#[derive(Clone, Copy, Debug, PartialEq, Eq, Structural)]
pub enum Const {
    Type,
    Kind,
    Sort,
}

/// The primitive names whose types are hard-wired into the checker.
#[derive(Clone, Copy, Debug, PartialEq, Eq, Structural)]
pub enum Builtin {
    Bool,
    Natural,
    Integer,
    Double,
    Text,
    List,
    Optional,
    NaturalFold,
    NaturalBuild,
    NaturalIsZero,
    NaturalEven,
    NaturalOdd,
    ListBuild,
    ListFold,
    ListLength,
    ListHead,
    ListLast,
    ListIndexed,
    ListReverse,
    OptionalFold,
    OptionalNone,
}

/// The binary operators, in the precedence order of the grammar.
#[derive(Clone, Copy, Debug, PartialEq, Eq, Structural)]
pub enum BinOp {
    BoolOr,
    TextAppend,
    NaturalPlus,
    BoolAnd,
    RecursiveRecordMerge,
    NaturalTimes,
    BoolEQ,
    BoolNE,
    RecursiveRecordTypeMerge,
    ImportAlt,
    RightBiasedRecordMerge,
    ListAppend,
    Equivalence,
}

/// An identifier: a list of characters.  Labels are kept as cons lists of
/// `char` rather than as `String`s so that specification functions can
/// build terms with fresh labels (builtin type schemas, the records made
/// by `List/indexed`) just as the executable code does.
#[derive(Debug, PartialEq, Eq)]
pub enum Label {
    Nil,
    Cons(char, Box<Label>),
}

/// A list of labels (projection label sets, `with` paths).
#[derive(Debug, PartialEq, Eq)]
pub enum LabelList {
    Nil,
    Cons(Label, Box<LabelList>),
}

/// A named de Bruijn variable: the label and the count of same-labelled
/// binders to skip, counting outward from 0.
#[derive(Debug, PartialEq, Eq)]
pub struct V(pub Label, pub u64);

/// Where a local import path starts.
#[derive(Clone, Copy, Debug, PartialEq, Eq, Structural)]
pub enum FilePrefix {
    Here,
    Parent,
    Home,
    Absolute,
}

/// How an import is to be interpreted.
#[derive(Clone, Copy, Debug, PartialEq, Eq, Structural)]
pub enum ImportMode {
    Code,
    RawText,
    Location,
}

/// The scheme of a remote import.
#[derive(Clone, Copy, Debug, PartialEq, Eq, Structural)]
pub enum Scheme {
    HTTP,
    HTTPS,
}

/// A list of raw bytes (an import's integrity digest).
#[derive(Debug, PartialEq, Eq)]
pub enum ByteList {
    Nil,
    Cons(u8, Box<ByteList>),
}

/// An integrity check attached to an import.
#[derive(Debug, PartialEq, Eq)]
pub enum ImportHash {
    SHA256(ByteList),
}

/// A list of path components or projection labels.
#[derive(Debug, PartialEq, Eq)]
pub enum StringList {
    Nil,
    Cons(String, Box<StringList>),
}

/// A remote import location.
#[derive(Debug, PartialEq, Eq)]
pub struct URL {
    pub scheme: Scheme,
    pub authority: String,
    pub path: StringList,
    pub query: Option<String>,
    pub headers: Option<Box<ImportElem>>,
}

/// Where an import points.
#[derive(Debug, PartialEq, Eq)]
pub enum ImportTarget {
    Local(FilePrefix, StringList),
    Remote(Box<URL>),
    Env(String),
    Missing,
}

/// The value an import resolved to, together with its pre-computed type.
/// The resolution collaborator guarantees both are already in normal form.
#[derive(Debug, PartialEq, Eq)]
pub struct ResolvedImport {
    pub value: Term,
    pub ty: Option<Term>,
}

/// An import descriptor. The typechecker treats it as opaque: by the time it
/// runs, `resolved` carries the embedded, pre-typed value the import denotes.
#[derive(Debug, PartialEq, Eq)]
pub struct ImportElem {
    pub location: ImportTarget,
    pub mode: ImportMode,
    pub hash: Option<ImportHash>,
    pub resolved: Option<Box<ResolvedImport>>,
}

/// A non-empty-by-convention list of terms (list literals).
#[derive(Debug, PartialEq, Eq)]
pub enum TermList {
    Nil,
    Cons(Term, Box<TermList>),
}

/// An ordered association of labels to terms (record types and literals).
#[derive(Debug, PartialEq, Eq)]
pub enum FieldList {
    Nil,
    Cons(Label, Term, Box<FieldList>),
}

/// An ordered association of labels to optional terms (union alternatives).
#[derive(Debug, PartialEq, Eq)]
pub enum AltList {
    Nil,
    Cons(Label, Option<Term>, Box<AltList>),
}

/// The pieces of a text literal: literal chunks and interpolated subterms.
#[derive(Debug, PartialEq, Eq)]
pub enum TextPieces {
    Empty,
    Chunk(String, Box<TextPieces>),
    Interp(Term, Box<TextPieces>),
}

/// The operations grouped under `Term::Op`.
#[derive(Debug, PartialEq, Eq)]
pub enum OpKind {
    BinOp(BinOp, Term, Term),
    BoolIf(Term, Term, Term),
    Merge(Term, Term, Option<Term>),
    ToMap(Term, Option<Term>),
    Field(Term, Label),
    Projection(Term, LabelList),
    ProjectionByExpr(Term, Term),
    Completion(Term, Term),
    With(Term, LabelList, Term),
}

/// A Dhall term.
#[derive(Debug, PartialEq, Eq)]
pub enum Term {
    Var(V),
    Const(Const),
    Builtin(Builtin),
    Lam(Label, Box<Term>, Box<Term>),
    Pi(Label, Box<Term>, Box<Term>),
    App(Box<Term>, Box<Term>),
    Let(Label, Option<Box<Term>>, Box<Term>, Box<Term>),
    Annot(Box<Term>, Box<Term>),
    BoolLit(bool),
    NaturalLit(u64),
    IntegerLit(i64),
    /// A double literal, stored as its IEEE 754 bit pattern.
    DoubleLit(u64),
    TextLit(Box<TextPieces>),
    EmptyListLit(Box<Term>),
    NEListLit(Box<TermList>),
    SomeLit(Box<Term>),
    OldOptionalLit(Option<Box<Term>>, Box<Term>),
    RecordType(Box<FieldList>),
    RecordLit(Box<FieldList>),
    UnionType(Box<AltList>),
    UnionLit(Label, Box<Term>, Box<AltList>),
    Op(Box<OpKind>),
    Assert(Box<Term>),
    Import(Box<ImportElem>),
}

/// The label whose characters are exactly `s`.
pub open spec fn label_of(s: Seq<char>) -> Label
    decreases s.len(),
{
    if s.len() == 0 {
        Label::Nil
    } else {
        Label::Cons(s[0], Box::new(label_of(s.drop_first())))
    }
}

/// The characters of a label, as a sequence.
pub open spec fn label_chars(l: Label) -> Seq<char>
    decreases l,
{
    match l {
        Label::Nil => Seq::empty(),
        Label::Cons(c, rest) => seq![c] + label_chars(*rest),
    }
}

impl Label {
    /// Structural copy; the result equals the original.
    pub fn dup(&self) -> (r: Label)
        ensures
            r == *self,
        decreases *self,
    {
        match self {
            Label::Nil => Label::Nil,
            Label::Cons(c, rest) => Label::Cons(*c, Box::new(rest.dup())),
        }
    }

    /// Structural equality of two labels.
    pub fn eq_label(&self, other: &Label) -> (r: bool)
        ensures
            r == (*self == *other),
        decreases *self,
    {
        match (self, other) {
            (Label::Nil, Label::Nil) => true,
            (Label::Cons(a, ra), Label::Cons(b, rb)) => *a == *b && ra.eq_label(rb),
            _ => false,
        }
    }

    /// The label made of the characters of an ASCII string.
    pub fn from_str(s: &str) -> (r: Label)
        requires
            s@.len() < usize::MAX,
            vstd::string::is_ascii(s),
        ensures
            r == label_of(s@),
    {
        proof {
            vstd::string::is_ascii_spec_bytes(s);
        }
        let bytes = s.as_bytes();
        let mut r = Label::Nil;
        let mut i: usize = bytes.len();
        while i > 0
            invariant
                i <= bytes.len(),
                bytes@ == s.spec_bytes(),
                bytes@.len() == s@.len(),
                vstd::string::is_ascii(s),
                forall|j: int| 0 <= j < s@.len() ==> bytes@[j] == s@[j] as u8,
                forall|j: int| 0 <= j < s@.len() ==> (s@[j] as u32) < 128,
                r == label_of(s@.subrange(i as int, s@.len() as int)),
            decreases i,
        {
            i = i - 1;
            let c = bytes[i] as char;
            proof {
                assert((s@[i as int] as u32) < 128);
                assert(c == s@[i as int]);
                let tail = s@.subrange(i as int, s@.len() as int);
                assert(tail[0] == s@[i as int]);
                assert(tail.drop_first() =~= s@.subrange(i as int + 1, s@.len() as int));
            }
            r = Label::Cons(c, Box::new(r));
        }
        proof {
            assert(s@.subrange(0, s@.len() as int) =~= s@);
        }
        r
    }
}

impl LabelList {
    /// Structural copy; the result equals the original.
    pub fn dup(&self) -> (r: LabelList)
        ensures
            r == *self,
        decreases *self,
    {
        match self {
            LabelList::Nil => LabelList::Nil,
            LabelList::Cons(l, rest) => LabelList::Cons(l.dup(), Box::new(rest.dup())),
        }
    }
}

impl V {
    /// Structural copy; the result equals the original.
    pub fn dup(&self) -> (r: V)
        ensures
            r == *self,
    {
        V(self.0.dup(), self.1)
    }
}

impl StringList {
    /// Structural copy; the result equals the original.
    pub fn dup(&self) -> (r: StringList)
        ensures
            r == *self,
        decreases *self,
    {
        match self {
            StringList::Nil => StringList::Nil,
            StringList::Cons(s, rest) => StringList::Cons(s.clone(), Box::new(rest.dup())),
        }
    }
}

impl ByteList {
    /// Structural copy; the result equals the original.
    pub fn dup(&self) -> (r: ByteList)
        ensures
            r == *self,
        decreases *self,
    {
        match self {
            ByteList::Nil => ByteList::Nil,
            ByteList::Cons(b, rest) => ByteList::Cons(*b, Box::new(rest.dup())),
        }
    }
}

impl ImportHash {
    /// Structural copy; the result equals the original.
    pub fn dup(&self) -> (r: ImportHash)
        ensures
            r == *self,
    {
        match self {
            ImportHash::SHA256(bytes) => ImportHash::SHA256(bytes.dup()),
        }
    }
}

impl URL {
    /// Structural copy; the result equals the original.
    pub fn dup(&self) -> (r: URL)
        ensures
            r == *self,
        decreases *self,
    {
        URL {
            scheme: self.scheme,
            authority: self.authority.clone(),
            path: self.path.dup(),
            query: match &self.query {
                Option::None => Option::None,
                Option::Some(q) => Option::Some(q.clone()),
            },
            headers: match &self.headers {
                Option::None => Option::None,
                Option::Some(h) => Option::Some(Box::new(h.dup())),
            },
        }
    }
}

impl ImportTarget {
    /// Structural copy; the result equals the original.
    pub fn dup(&self) -> (r: ImportTarget)
        ensures
            r == *self,
        decreases *self,
    {
        match self {
            ImportTarget::Local(p, path) => ImportTarget::Local(*p, path.dup()),
            ImportTarget::Remote(u) => ImportTarget::Remote(Box::new(u.dup())),
            ImportTarget::Env(s) => ImportTarget::Env(s.clone()),
            ImportTarget::Missing => ImportTarget::Missing,
        }
    }
}

impl ResolvedImport {
    /// Structural copy; the result equals the original.
    pub fn dup(&self) -> (r: ResolvedImport)
        ensures
            r == *self,
        decreases *self,
    {
        ResolvedImport {
            value: self.value.dup(),
            ty: match &self.ty {
                Option::None => Option::None,
                Option::Some(t) => Option::Some(t.dup()),
            },
        }
    }
}

impl ImportElem {
    /// Structural copy; the result equals the original.
    pub fn dup(&self) -> (r: ImportElem)
        ensures
            r == *self,
        decreases *self,
    {
        ImportElem {
            location: self.location.dup(),
            mode: self.mode,
            hash: match &self.hash {
                Option::None => Option::None,
                Option::Some(h) => Option::Some(h.dup()),
            },
            resolved: match &self.resolved {
                Option::None => Option::None,
                Option::Some(r) => Option::Some(Box::new(r.dup())),
            },
        }
    }
}

impl TermList {
    /// Structural copy; the result equals the original.
    pub fn dup(&self) -> (r: TermList)
        ensures
            r == *self,
        decreases *self,
    {
        match self {
            TermList::Nil => TermList::Nil,
            TermList::Cons(t, rest) => TermList::Cons(t.dup(), Box::new(rest.dup())),
        }
    }
}

impl FieldList {
    /// Structural copy; the result equals the original.
    pub fn dup(&self) -> (r: FieldList)
        ensures
            r == *self,
        decreases *self,
    {
        match self {
            FieldList::Nil => FieldList::Nil,
            FieldList::Cons(x, t, rest) => {
                FieldList::Cons(x.dup(), t.dup(), Box::new(rest.dup()))
            }
        }
    }
}

impl AltList {
    /// Structural copy; the result equals the original.
    pub fn dup(&self) -> (r: AltList)
        ensures
            r == *self,
        decreases *self,
    {
        match self {
            AltList::Nil => AltList::Nil,
            AltList::Cons(x, t, rest) => {
                AltList::Cons(
                    x.dup(),
                    match t {
                        Option::None => Option::None,
                        Option::Some(t) => Option::Some(t.dup()),
                    },
                    Box::new(rest.dup()),
                )
            }
        }
    }
}

impl TextPieces {
    /// Structural copy; the result equals the original.
    pub fn dup(&self) -> (r: TextPieces)
        ensures
            r == *self,
        decreases *self,
    {
        match self {
            TextPieces::Empty => TextPieces::Empty,
            TextPieces::Chunk(s, rest) => TextPieces::Chunk(s.clone(), Box::new(rest.dup())),
            TextPieces::Interp(t, rest) => TextPieces::Interp(t.dup(), Box::new(rest.dup())),
        }
    }
}

impl OpKind {
    /// Structural copy; the result equals the original.
    pub fn dup(&self) -> (r: OpKind)
        ensures
            r == *self,
        decreases *self,
    {
        match self {
            OpKind::BinOp(o, l, r) => OpKind::BinOp(*o, l.dup(), r.dup()),
            OpKind::BoolIf(c, t, e) => OpKind::BoolIf(c.dup(), t.dup(), e.dup()),
            OpKind::Merge(h, s, a) => OpKind::Merge(
                h.dup(),
                s.dup(),
                match a {
                    Option::None => Option::None,
                    Option::Some(a) => Option::Some(a.dup()),
                },
            ),
            OpKind::ToMap(r, a) => OpKind::ToMap(
                r.dup(),
                match a {
                    Option::None => Option::None,
                    Option::Some(a) => Option::Some(a.dup()),
                },
            ),
            OpKind::Field(r, x) => OpKind::Field(r.dup(), x.dup()),
            OpKind::Projection(r, xs) => OpKind::Projection(r.dup(), xs.dup()),
            OpKind::ProjectionByExpr(r, t) => OpKind::ProjectionByExpr(r.dup(), t.dup()),
            OpKind::Completion(a, b) => OpKind::Completion(a.dup(), b.dup()),
            OpKind::With(r, path, v) => OpKind::With(r.dup(), path.dup(), v.dup()),
        }
    }
}

impl Term {
    /// Structural copy; the result equals the original.
    pub fn dup(&self) -> (r: Term)
        ensures
            r == *self,
        decreases *self,
    {
        match self {
            Term::Var(v) => Term::Var(v.dup()),
            Term::Const(c) => Term::Const(*c),
            Term::Builtin(b) => Term::Builtin(*b),
            Term::Lam(x, t, b) => Term::Lam(x.dup(), Box::new(t.dup()), Box::new(b.dup())),
            Term::Pi(x, t, b) => Term::Pi(x.dup(), Box::new(t.dup()), Box::new(b.dup())),
            Term::App(f, a) => Term::App(Box::new(f.dup()), Box::new(a.dup())),
            Term::Let(x, t, v, b) => Term::Let(
                x.dup(),
                match t {
                    Option::None => Option::None,
                    Option::Some(t) => Option::Some(Box::new(t.dup())),
                },
                Box::new(v.dup()),
                Box::new(b.dup()),
            ),
            Term::Annot(e, t) => Term::Annot(Box::new(e.dup()), Box::new(t.dup())),
            Term::BoolLit(b) => Term::BoolLit(*b),
            Term::NaturalLit(n) => Term::NaturalLit(*n),
            Term::IntegerLit(i) => Term::IntegerLit(*i),
            Term::DoubleLit(d) => Term::DoubleLit(*d),
            Term::TextLit(ps) => Term::TextLit(Box::new(ps.dup())),
            Term::EmptyListLit(t) => Term::EmptyListLit(Box::new(t.dup())),
            Term::NEListLit(ts) => Term::NEListLit(Box::new(ts.dup())),
            Term::SomeLit(t) => Term::SomeLit(Box::new(t.dup())),
            Term::OldOptionalLit(v, t) => Term::OldOptionalLit(
                match v {
                    Option::None => Option::None,
                    Option::Some(v) => Option::Some(Box::new(v.dup())),
                },
                Box::new(t.dup()),
            ),
            Term::RecordType(kts) => Term::RecordType(Box::new(kts.dup())),
            Term::RecordLit(kvs) => Term::RecordLit(Box::new(kvs.dup())),
            Term::UnionType(kts) => Term::UnionType(Box::new(kts.dup())),
            Term::UnionLit(x, v, kts) => {
                Term::UnionLit(x.dup(), Box::new(v.dup()), Box::new(kts.dup()))
            }
            Term::Op(op) => Term::Op(Box::new(op.dup())),
            Term::Assert(t) => Term::Assert(Box::new(t.dup())),
            Term::Import(i) => Term::Import(Box::new(i.dup())),
        }
    }
}

} // verus!
