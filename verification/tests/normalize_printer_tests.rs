use dhall::alpha::{match_vars, PairList};
use dhall::normalize::normalize;
use dhall::printer::{fmt_label, fmt_list, pretty, PhasedExpr, PrintPhase};
use dhall::shift::{shift, shift0};
use dhall::span::{char_idx_from_byte_idx, ParsedSpan, Span};
use dhall::subst::{subst_shift, substitute};
use dhall::term::{
    BinOp, Builtin, ByteList, Const, FieldList, ImportElem, ImportHash, ImportMode,
    ImportTarget, Label, LabelList, OpKind, StringList, Term, TermList, TextPieces, V,
};

fn nlbl(s: &str) -> Label {
    Label::from_str(s)
}

fn nvar(s: &str) -> Term {
    Term::Var(V(nlbl(s), 0))
}

fn nlam(x: &str, ty: Term, body: Term) -> Term {
    Term::Lam(nlbl(x), Box::new(ty), Box::new(body))
}

fn napp(f: Term, a: Term) -> Term {
    Term::App(Box::new(f), Box::new(a))
}

fn nbi(b: Builtin) -> Term {
    Term::Builtin(b)
}

fn norm(t: Term) -> Term {
    normalize(1_000_000, &t).expect("enough fuel")
}

#[test]
fn beta_reduction_contracts_the_redex() {
    let t = napp(nlam("x", nbi(Builtin::Natural), nvar("x")), Term::NaturalLit(3));
    assert_eq!(norm(t), Term::NaturalLit(3));
}

#[test]
fn let_unfolds_into_the_body() {
    let t = Term::Let(
        nlbl("x"),
        None,
        Box::new(Term::NaturalLit(2)),
        Box::new(Term::Op(Box::new(OpKind::BinOp(
            BinOp::NaturalPlus,
            nvar("x"),
            nvar("x"),
        )))),
    );
    assert_eq!(norm(t), Term::NaturalLit(4));
}

#[test]
fn annotations_are_stripped() {
    let t = Term::Annot(Box::new(Term::NaturalLit(1)), Box::new(nbi(Builtin::Natural)));
    assert_eq!(norm(t), Term::NaturalLit(1));
}

#[test]
fn if_on_literals_selects_a_branch() {
    let t = Term::Op(Box::new(OpKind::BoolIf(
        Term::BoolLit(false),
        Term::NaturalLit(1),
        Term::NaturalLit(2),
    )));
    assert_eq!(norm(t), Term::NaturalLit(2));
}

#[test]
fn natural_is_zero_and_parity_reduce() {
    assert_eq!(
        norm(napp(nbi(Builtin::NaturalIsZero), Term::NaturalLit(0))),
        Term::BoolLit(true)
    );
    assert_eq!(
        norm(napp(nbi(Builtin::NaturalEven), Term::NaturalLit(3))),
        Term::BoolLit(false)
    );
    assert_eq!(
        norm(napp(nbi(Builtin::NaturalOdd), Term::NaturalLit(3))),
        Term::BoolLit(true)
    );
}

#[test]
fn natural_fold_counts_applications() {
    // Natural/fold 3 Natural (\(n : Natural) -> n + 2) 0 = 6
    let succ = nlam(
        "n",
        nbi(Builtin::Natural),
        Term::Op(Box::new(OpKind::BinOp(
            BinOp::NaturalPlus,
            nvar("n"),
            Term::NaturalLit(2),
        ))),
    );
    let t = napp(
        napp(
            napp(
                napp(nbi(Builtin::NaturalFold), Term::NaturalLit(3)),
                nbi(Builtin::Natural),
            ),
            succ,
        ),
        Term::NaturalLit(0),
    );
    assert_eq!(norm(t), Term::NaturalLit(6));
}

#[test]
fn natural_build_rebuilds_a_literal() {
    // Natural/build (\(natural : Type) -> \(succ : ...) -> \(zero : natural) -> succ (succ zero)) = 2
    let g = Term::Lam(
        nlbl("natural"),
        Box::new(Term::Const(Const::Type)),
        Box::new(Term::Lam(
            nlbl("succ"),
            Box::new(Term::Pi(
                nlbl("_"),
                Box::new(nvar("natural")),
                Box::new(nvar("natural")),
            )),
            Box::new(Term::Lam(
                nlbl("zero"),
                Box::new(nvar("natural")),
                Box::new(napp(nvar("succ"), napp(nvar("succ"), nvar("zero")))),
            )),
        )),
    );
    assert_eq!(norm(napp(nbi(Builtin::NaturalBuild), g)), Term::NaturalLit(2));
}

#[test]
fn list_length_and_reverse_reduce() {
    let xs = Term::NEListLit(Box::new(TermList::Cons(
        Term::NaturalLit(1),
        Box::new(TermList::Cons(Term::NaturalLit(2), Box::new(TermList::Nil))),
    )));
    let len = napp(
        napp(nbi(Builtin::ListLength), nbi(Builtin::Natural)),
        xs.dup(),
    );
    assert_eq!(norm(len), Term::NaturalLit(2));
    let rev = napp(
        napp(nbi(Builtin::ListReverse), nbi(Builtin::Natural)),
        xs,
    );
    let expected = Term::NEListLit(Box::new(TermList::Cons(
        Term::NaturalLit(2),
        Box::new(TermList::Cons(Term::NaturalLit(1), Box::new(TermList::Nil))),
    )));
    assert_eq!(norm(rev), expected);
}

#[test]
fn list_head_and_last_reduce() {
    let xs = Term::NEListLit(Box::new(TermList::Cons(
        Term::NaturalLit(1),
        Box::new(TermList::Cons(Term::NaturalLit(2), Box::new(TermList::Nil))),
    )));
    let head = napp(napp(nbi(Builtin::ListHead), nbi(Builtin::Natural)), xs.dup());
    assert_eq!(norm(head), Term::SomeLit(Box::new(Term::NaturalLit(1))));
    let last = napp(napp(nbi(Builtin::ListLast), nbi(Builtin::Natural)), xs);
    assert_eq!(norm(last), Term::SomeLit(Box::new(Term::NaturalLit(2))));
}

#[test]
fn list_indexed_pairs_elements_with_positions() {
    let xs = Term::NEListLit(Box::new(TermList::Cons(
        Term::BoolLit(true),
        Box::new(TermList::Nil),
    )));
    let t = napp(napp(nbi(Builtin::ListIndexed), nbi(Builtin::Bool)), xs);
    let entry = Term::RecordLit(Box::new(FieldList::Cons(
        nlbl("index"),
        Term::NaturalLit(0),
        Box::new(FieldList::Cons(
            nlbl("value"),
            Term::BoolLit(true),
            Box::new(FieldList::Nil),
        )),
    )));
    assert_eq!(
        norm(t),
        Term::NEListLit(Box::new(TermList::Cons(entry, Box::new(TermList::Nil))))
    );
}

#[test]
fn list_fold_folds_right() {
    // List/fold Natural [1, 2] Natural (\(x : Natural) -> \(acc : Natural) -> x + acc) 0 = 3
    let xs = Term::NEListLit(Box::new(TermList::Cons(
        Term::NaturalLit(1),
        Box::new(TermList::Cons(Term::NaturalLit(2), Box::new(TermList::Nil))),
    )));
    let cons = nlam(
        "x",
        nbi(Builtin::Natural),
        nlam(
            "acc",
            nbi(Builtin::Natural),
            Term::Op(Box::new(OpKind::BinOp(
                BinOp::NaturalPlus,
                Term::Var(V(nlbl("x"), 0)),
                nvar("acc"),
            ))),
        ),
    );
    let t = napp(
        napp(
            napp(
                napp(napp(nbi(Builtin::ListFold), nbi(Builtin::Natural)), xs),
                nbi(Builtin::Natural),
            ),
            cons,
        ),
        Term::NaturalLit(0),
    );
    assert_eq!(norm(t), Term::NaturalLit(3));
}

#[test]
fn optional_fold_selects_the_branch() {
    let some = Term::SomeLit(Box::new(Term::NaturalLit(5)));
    let t = napp(
        napp(
            napp(
                napp(napp(nbi(Builtin::OptionalFold), nbi(Builtin::Natural)), some),
                nbi(Builtin::Natural),
            ),
            nlam("x", nbi(Builtin::Natural), nvar("x")),
        ),
        Term::NaturalLit(0),
    );
    assert_eq!(norm(t), Term::NaturalLit(5));
}

#[test]
fn record_field_access_reduces() {
    let rec = Term::RecordLit(Box::new(FieldList::Cons(
        nlbl("a"),
        Term::NaturalLit(7),
        Box::new(FieldList::Nil),
    )));
    let t = Term::Op(Box::new(OpKind::Field(rec, nlbl("a"))));
    assert_eq!(norm(t), Term::NaturalLit(7));
}

#[test]
fn list_append_concatenates_literals() {
    let l = Term::NEListLit(Box::new(TermList::Cons(
        Term::NaturalLit(1),
        Box::new(TermList::Nil),
    )));
    let r = Term::NEListLit(Box::new(TermList::Cons(
        Term::NaturalLit(2),
        Box::new(TermList::Nil),
    )));
    let t = Term::Op(Box::new(OpKind::BinOp(BinOp::ListAppend, l, r)));
    let expected = Term::NEListLit(Box::new(TermList::Cons(
        Term::NaturalLit(1),
        Box::new(TermList::Cons(Term::NaturalLit(2), Box::new(TermList::Nil))),
    )));
    assert_eq!(norm(t), expected);
}

#[test]
fn arithmetic_folds_within_bounds() {
    let t = Term::Op(Box::new(OpKind::BinOp(
        BinOp::NaturalTimes,
        Term::NaturalLit(6),
        Term::NaturalLit(7),
    )));
    assert_eq!(norm(t), Term::NaturalLit(42));
    // an overflowing sum stays unreduced rather than wrapping
    let big = Term::Op(Box::new(OpKind::BinOp(
        BinOp::NaturalPlus,
        Term::NaturalLit(u64::MAX),
        Term::NaturalLit(1),
    )));
    assert!(matches!(norm(big), Term::Op(_)));
}

#[test]
fn shift_round_trip_is_identity() {
    let t = nlam("x", nbi(Builtin::Natural), napp(nvar("x"), nvar("y")));
    let v = V(nlbl("y"), 0);
    let up = shift(1, &v, &t);
    let back = shift(-1, &v, &up);
    assert_eq!(back, t);
}

#[test]
fn shift_skips_bound_occurrences() {
    // in \(x : T) -> x, the bound x is not a free occurrence
    let t = nlam("x", nbi(Builtin::Natural), nvar("x"));
    let shifted = shift0(1, &nlbl("x"), &t);
    assert_eq!(shifted, t);
}

#[test]
fn substitution_replaces_the_free_variable() {
    let t = napp(nvar("f"), nvar("x"));
    let r = substitute(&V(nlbl("x"), 0), &Term::NaturalLit(1), &t);
    assert_eq!(r, napp(nvar("f"), Term::NaturalLit(1)));
}

#[test]
fn subst_shift_lowers_the_remaining_indices() {
    // substituting x@0 leaves x@1 pointing one binder closer
    let t = napp(Term::Var(V(nlbl("x"), 0)), Term::Var(V(nlbl("x"), 1)));
    let r = subst_shift(&V(nlbl("x"), 0), &Term::NaturalLit(9), &t);
    assert_eq!(r, napp(Term::NaturalLit(9), Term::Var(V(nlbl("x"), 0))));
}

#[test]
fn alpha_equivalence_ignores_binder_names() {
    let l = nlam("x", nbi(Builtin::Bool), nvar("x"));
    let r = nlam("y", nbi(Builtin::Bool), nvar("y"));
    assert!(dhall::alpha::alpha_eq(&l, &r));
    assert!(dhall::alpha::alpha_eq(&r, &l));
    assert!(dhall::alpha::alpha_eq(&l, &l));
}

#[test]
fn alpha_equivalence_respects_free_variables() {
    let l = nlam("x", nbi(Builtin::Bool), nvar("z"));
    let r = nlam("y", nbi(Builtin::Bool), nvar("w"));
    assert!(!dhall::alpha::alpha_eq(&l, &r));
}

#[test]
fn match_vars_counts_same_label_binders() {
    let ctx = PairList::Cons(
        nlbl("x"),
        nlbl("y"),
        Box::new(PairList::Nil),
    );
    assert!(match_vars(&V(nlbl("x"), 0), &V(nlbl("y"), 0), &ctx));
    assert!(!match_vars(&V(nlbl("x"), 1), &V(nlbl("y"), 0), &ctx));
}

#[test]
fn lambda_renders_in_surface_syntax() {
    let t = nlam("x", nbi(Builtin::Bool), nvar("x"));
    assert_eq!(t.render(), "\u{3bb}(x : Bool) \u{2192} x");
}

#[test]
fn pi_with_anonymous_binder_renders_as_arrow() {
    let t = Term::Pi(
        nlbl("_"),
        Box::new(nbi(Builtin::Natural)),
        Box::new(nbi(Builtin::Bool)),
    );
    assert_eq!(t.render(), "Natural \u{2192} Bool");
}

#[test]
fn application_parenthesises_by_phase() {
    // (\(x : Bool) -> x) True needs parentheses around the lambda
    let t = napp(nlam("x", nbi(Builtin::Bool), nvar("x")), Term::BoolLit(true));
    assert_eq!(t.render(), "(\u{3bb}(x : Bool) \u{2192} x) True");
}

#[test]
fn reserved_labels_are_quoted() {
    assert_eq!(fmt_label(&nlbl("let")), "`let`");
    assert_eq!(fmt_label(&nlbl("x")), "x");
    assert_eq!(fmt_label(&nlbl("")), "``");
    assert_eq!(fmt_label(&nlbl("a-b")), "`a-b`");
}

#[test]
fn variables_with_indices_render_with_at() {
    let t = Term::Var(V(nlbl("x"), 2));
    assert_eq!(t.render(), "x@2");
}

#[test]
fn literals_render_canonically() {
    assert_eq!(Term::NaturalLit(42).render(), "42");
    assert_eq!(Term::IntegerLit(5).render(), "+5");
    assert_eq!(Term::IntegerLit(-5).render(), "-5");
    assert_eq!(Term::BoolLit(true).render(), "True");
}

#[test]
fn double_specials_render_as_tokens() {
    // bit patterns of the special values
    assert_eq!(Term::DoubleLit(0x7FF0000000000000).render(), "Infinity");
    assert_eq!(Term::DoubleLit(0xFFF0000000000000).render(), "-Infinity");
    assert_eq!(Term::DoubleLit(0x7FF8000000000000).render(), "NaN");
    assert_eq!(Term::DoubleLit(0x8000000000000000).render(), "-0.0");
    assert_eq!(Term::DoubleLit(0).render(), "0.0");
}

#[test]
fn finite_doubles_contain_a_point() {
    // 1.5 and 3.0, by their bit patterns, and a value with a long expansion
    assert_eq!(Term::DoubleLit(0x3FF8000000000000).render(), "1.5");
    assert_eq!(Term::DoubleLit(0x4008000000000000).render(), "3.0");
    let tenth = Term::DoubleLit(0x3FB999999999999A).render();
    assert!(tenth.contains('.'));
    assert!(tenth.starts_with("0.1000000000000000055511151231257827"));
}

#[test]
fn text_literals_escape_specials() {
    let t = Term::TextLit(Box::new(TextPieces::Chunk(
        "a\"b\\c$d\ne".to_string(),
        Box::new(TextPieces::Empty),
    )));
    assert_eq!(t.render(), "\"a\\\"b\\\\c\\u0024d\\ne\"");
}

#[test]
fn interpolation_renders_between_braces() {
    let t = Term::TextLit(Box::new(TextPieces::Interp(
        nvar("x"),
        Box::new(TextPieces::Empty),
    )));
    assert_eq!(t.render(), "\"${ x }\"");
}

#[test]
fn records_and_unions_render_with_separators() {
    let rec = Term::RecordLit(Box::new(FieldList::Cons(
        nlbl("a"),
        Term::NaturalLit(1),
        Box::new(FieldList::Cons(
            nlbl("b"),
            Term::BoolLit(true),
            Box::new(FieldList::Nil),
        )),
    )));
    assert_eq!(rec.render(), "{ a = 1, b = True }");
    assert_eq!(Term::RecordLit(Box::new(FieldList::Nil)).render(), "{=}");
    assert_eq!(Term::RecordType(Box::new(FieldList::Nil)).render(), "{}");
}

#[test]
fn operators_render_with_their_symbols() {
    let t = Term::Op(Box::new(OpKind::BinOp(
        BinOp::NaturalPlus,
        Term::NaturalLit(1),
        Term::NaturalLit(2),
    )));
    assert_eq!(t.render(), "1 + 2");
    let l = Term::Op(Box::new(OpKind::BinOp(
        BinOp::ListAppend,
        nvar("xs"),
        nvar("ys"),
    )));
    assert_eq!(l.render(), "xs # ys");
}

#[test]
fn with_path_joins_by_dots() {
    let t = Term::Op(Box::new(OpKind::With(
        nvar("r"),
        LabelList::Cons(
            nlbl("a"),
            Box::new(LabelList::Cons(nlbl("b"), Box::new(LabelList::Nil))),
        ),
        Term::NaturalLit(1),
    )));
    assert_eq!(t.render(), "r with a.b = 1");
}

#[test]
fn import_hash_renders_in_hex() {
    let ie = ImportElem {
        location: ImportTarget::Missing,
        mode: ImportMode::Code,
        hash: Some(ImportHash::SHA256(ByteList::Cons(
            0xde,
            Box::new(ByteList::Cons(0xad, Box::new(ByteList::Nil))),
        ))),
        resolved: None,
    };
    assert_eq!(Term::Import(Box::new(ie)).render(), "missing sha256:dead");
}

#[test]
fn local_import_renders_its_path() {
    let ie = ImportElem {
        location: ImportTarget::Local(
            dhall::term::FilePrefix::Here,
            StringList::Cons(
                "pkg".to_string(),
                Box::new(StringList::Cons(
                    "a b".to_string(),
                    Box::new(StringList::Nil),
                )),
            ),
        ),
        mode: ImportMode::RawText,
        hash: None,
        resolved: None,
    };
    assert_eq!(Term::Import(Box::new(ie)).render(), "./pkg/\"a b\" as Text");
}

#[test]
fn phased_expr_selects_the_phase() {
    let t = nlam("x", nbi(Builtin::Bool), nvar("x"));
    let base = PhasedExpr(&t, PrintPhase::Base);
    assert_eq!(base.render(), "\u{3bb}(x : Bool) \u{2192} x");
    let primitive = base.phase(PrintPhase::Primitive);
    assert_eq!(primitive.render(), "(\u{3bb}(x : Bool) \u{2192} x)");
    assert_eq!(pretty(&t, PrintPhase::App), "(\u{3bb}(x : Bool) \u{2192} x)");
}

#[test]
fn fmt_list_joins_rendered_items() {
    let items = vec!["a".to_string(), "b".to_string(), "c".to_string()];
    assert_eq!(fmt_list("[", ", ", "]", &items), "[a, b, c]");
    let empty: Vec<String> = vec![];
    assert_eq!(fmt_list("{ ", ", ", " }", &empty), "{  }");
}

#[test]
fn char_index_counts_newlines_twice() {
    // a byte index is converted to a char index, plus one per newline
    assert_eq!(char_idx_from_byte_idx("ab\ncd", 4), 5);
    assert_eq!(char_idx_from_byte_idx("abc", 1), 1);
    assert_eq!(char_idx_from_byte_idx("abc", 3), 0);
}

#[test]
fn span_union_covers_both_ranges() {
    let a = Span::make("hello world".to_string(), 0, 4);
    let b = Span::make("hello world".to_string(), 6, 11);
    match a.union(&b) {
        Span::Parsed(p) => {
            assert_eq!(p.start, 0);
            assert_eq!(p.end, 11);
            assert_eq!(p.to_input(), "hello world");
            // the end offset addresses no character, so it converts to zero
            assert_eq!(p.as_char_range(), (0, 0));
        }
        _ => panic!("expected a parsed span"),
    }
}

#[test]
fn parsed_span_converts_to_char_range() {
    let sp = ParsedSpan {
        input: "a\nb".to_string(),
        start: 2,
        end: 3,
    };
    assert_eq!(sp.as_char_range(), (3, 1));
}

#[test]
fn import_value_is_inlined_by_normalisation() {
    let ie = ImportElem {
        location: ImportTarget::Missing,
        mode: ImportMode::Code,
        hash: None,
        resolved: Some(Box::new(dhall::term::ResolvedImport {
            value: Term::NaturalLit(4),
            ty: Some(nbi(Builtin::Natural)),
        })),
    };
    assert_eq!(norm(Term::Import(Box::new(ie))), Term::NaturalLit(4));
}
