//! The pretty-printer: canonical Dhall surface syntax for terms, used to
//! embed terms in error messages.
//!
//! There is a one-to-one correspondence between the printer and the
//! grammar: each phase is named after a grammar group, and a child is
//! parenthesised exactly when its phase strictly exceeds the phase its
//! parent requires, so precedences come out right by construction.

use itertools::Itertools;
use vstd::prelude::*;
use vstd::string::StringExecFns;

use crate::term::{
    label_chars, label_of, AltList, BinOp, Builtin, ByteList, Const, FieldList, ImportElem,
    ImportHash, ImportMode, ImportTarget, Label, LabelList, OpKind, Scheme, StringList, Term,
    TermList, TextPieces, URL, V,
};

verus! {

/// A grammar phase; a subterm printed at a phase above its own is wrapped
/// in parentheses.
#[derive(Clone, Copy, Debug, PartialEq, Eq, Structural)]
pub enum PrintPhase {
    Base,
    Operator,
    BinOp(BinOp),
    App,
    Import,
    Primitive,
}

/// Position of an operator in the precedence ladder of the grammar.
pub open spec fn binop_rank(o: BinOp) -> int {
    match o {
        BinOp::BoolOr => 0,
        BinOp::TextAppend => 1,
        BinOp::NaturalPlus => 2,
        BinOp::BoolAnd => 3,
        BinOp::RecursiveRecordMerge => 4,
        BinOp::NaturalTimes => 5,
        BinOp::BoolEQ => 6,
        BinOp::BoolNE => 7,
        BinOp::RecursiveRecordTypeMerge => 8,
        BinOp::ImportAlt => 9,
        BinOp::RightBiasedRecordMerge => 10,
        BinOp::ListAppend => 11,
        BinOp::Equivalence => 12,
    }
}

/// Total order on phases, matching the grammar levels.
pub open spec fn phase_rank(p: PrintPhase) -> int {
    match p {
        PrintPhase::Base => 0,
        PrintPhase::Operator => 1,
        PrintPhase::BinOp(o) => 2 + binop_rank(o),
        PrintPhase::App => 15,
        PrintPhase::Import => 16,
        PrintPhase::Primitive => 17,
    }
}

fn binop_rank_x(o: BinOp) -> (r: i32)
    ensures
        r as int == binop_rank(o),
{
    match o {
        BinOp::BoolOr => 0,
        BinOp::TextAppend => 1,
        BinOp::NaturalPlus => 2,
        BinOp::BoolAnd => 3,
        BinOp::RecursiveRecordMerge => 4,
        BinOp::NaturalTimes => 5,
        BinOp::BoolEQ => 6,
        BinOp::BoolNE => 7,
        BinOp::RecursiveRecordTypeMerge => 8,
        BinOp::ImportAlt => 9,
        BinOp::RightBiasedRecordMerge => 10,
        BinOp::ListAppend => 11,
        BinOp::Equivalence => 12,
    }
}

fn phase_rank_x(p: PrintPhase) -> (r: i32)
    ensures
        r as int == phase_rank(p),
{
    match p {
        PrintPhase::Base => 0,
        PrintPhase::Operator => 1,
        PrintPhase::BinOp(o) => 2 + binop_rank_x(o),
        PrintPhase::App => 15,
        PrintPhase::Import => 16,
        PrintPhase::Primitive => 17,
    }
}

/// The textual name of each builtin.
pub open spec fn builtin_name_s(b: Builtin) -> Seq<char> {
    match b {
        Builtin::Bool => "Bool"@,
        Builtin::Natural => "Natural"@,
        Builtin::Integer => "Integer"@,
        Builtin::Double => "Double"@,
        Builtin::Text => "Text"@,
        Builtin::List => "List"@,
        Builtin::Optional => "Optional"@,
        Builtin::NaturalFold => "Natural/fold"@,
        Builtin::NaturalBuild => "Natural/build"@,
        Builtin::NaturalIsZero => "Natural/isZero"@,
        Builtin::NaturalEven => "Natural/even"@,
        Builtin::NaturalOdd => "Natural/odd"@,
        Builtin::ListBuild => "List/build"@,
        Builtin::ListFold => "List/fold"@,
        Builtin::ListLength => "List/length"@,
        Builtin::ListHead => "List/head"@,
        Builtin::ListLast => "List/last"@,
        Builtin::ListIndexed => "List/indexed"@,
        Builtin::ListReverse => "List/reverse"@,
        Builtin::OptionalFold => "Optional/fold"@,
        Builtin::OptionalNone => "None"@,
    }
}

fn builtin_name(b: Builtin) -> (r: String)
    ensures
        r@ == builtin_name_s(b),
{
    match b {
        Builtin::Bool => String::from_str("Bool"),
        Builtin::Natural => String::from_str("Natural"),
        Builtin::Integer => String::from_str("Integer"),
        Builtin::Double => String::from_str("Double"),
        Builtin::Text => String::from_str("Text"),
        Builtin::List => String::from_str("List"),
        Builtin::Optional => String::from_str("Optional"),
        Builtin::NaturalFold => String::from_str("Natural/fold"),
        Builtin::NaturalBuild => String::from_str("Natural/build"),
        Builtin::NaturalIsZero => String::from_str("Natural/isZero"),
        Builtin::NaturalEven => String::from_str("Natural/even"),
        Builtin::NaturalOdd => String::from_str("Natural/odd"),
        Builtin::ListBuild => String::from_str("List/build"),
        Builtin::ListFold => String::from_str("List/fold"),
        Builtin::ListLength => String::from_str("List/length"),
        Builtin::ListHead => String::from_str("List/head"),
        Builtin::ListLast => String::from_str("List/last"),
        Builtin::ListIndexed => String::from_str("List/indexed"),
        Builtin::ListReverse => String::from_str("List/reverse"),
        Builtin::OptionalFold => String::from_str("Optional/fold"),
        Builtin::OptionalNone => String::from_str("None"),
    }
}

/// Does the label name a builtin?
pub open spec fn is_builtin_name_s(l: Label) -> bool {
    ||| l == label_of("Bool"@)
    ||| l == label_of("Natural"@)
    ||| l == label_of("Integer"@)
    ||| l == label_of("Double"@)
    ||| l == label_of("Text"@)
    ||| l == label_of("List"@)
    ||| l == label_of("Optional"@)
    ||| l == label_of("Natural/fold"@)
    ||| l == label_of("Natural/build"@)
    ||| l == label_of("Natural/isZero"@)
    ||| l == label_of("Natural/even"@)
    ||| l == label_of("Natural/odd"@)
    ||| l == label_of("List/build"@)
    ||| l == label_of("List/fold"@)
    ||| l == label_of("List/length"@)
    ||| l == label_of("List/head"@)
    ||| l == label_of("List/last"@)
    ||| l == label_of("List/indexed"@)
    ||| l == label_of("List/reverse"@)
    ||| l == label_of("Optional/fold"@)
    ||| l == label_of("None"@)
}

/// Is the label a reserved word of the surface syntax?
pub open spec fn is_reserved_s(l: Label) -> bool {
    ||| l == label_of("let"@)
    ||| l == label_of("in"@)
    ||| l == label_of("if"@)
    ||| l == label_of("then"@)
    ||| l == label_of("else"@)
    ||| l == label_of("Type"@)
    ||| l == label_of("Kind"@)
    ||| l == label_of("Sort"@)
    ||| l == label_of("True"@)
    ||| l == label_of("False"@)
    ||| l == label_of("Some"@)
    ||| is_builtin_name_s(l)
}

/// A character that may appear in an unquoted identifier.
pub open spec fn simple_char(c: char) -> bool {
    ('a' <= c && c <= 'z') || ('A' <= c && c <= 'Z') || ('0' <= c && c <= '9') || c == '_'
}

/// Every character of the label may appear unquoted.
pub open spec fn label_simple_s(l: Label) -> bool
    decreases l,
{
    match l {
        Label::Nil => true,
        Label::Cons(c, rest) => simple_char(c) && label_simple_s(*rest),
    }
}

/// How a label renders: quoted with backticks iff it is empty, reserved,
/// or contains a character outside ASCII alphanumerics and underscore.
pub open spec fn fmt_label_s(l: Label) -> Seq<char> {
    if l == Label::Nil {
        "``"@
    } else if !is_reserved_s(l) && label_simple_s(l) {
        label_chars(l)
    } else {
        "`"@ + label_chars(l) + "`"@
    }
}

/// Append the second string to the first.
fn s_add(a: String, b: &str) -> (r: String)
    ensures
        r@ == a@ + b@,
{
    a.concat(b)
}

/// Append a single character to the string.
/// Relies on std's `String::push`: appends exactly the given character.
#[verifier::external_body]
fn push_char(s: &mut String, c: char)
    ensures
        final(s)@ == old(s)@ + seq![c],
{
    s.push(c)
}

/// The characters of a label, as a string.
fn label_chars_x(l: &Label) -> (r: String)
    ensures
        r@ == label_chars(*l),
    decreases *l,
{
    match l {
        Label::Nil => {
            let r = String::new();
            proof {
                assert(r@ =~= label_chars(Label::Nil));
            }
            r
        }
        Label::Cons(c, rest) => {
            let mut r = String::new();
            push_char(&mut r, *c);
            let tail = label_chars_x(rest);
            let out = r.concat(tail.as_str());
            proof {
                assert(out@ =~= label_chars(*l));
            }
            out
        }
    }
}

fn label_eq_lit(l: &Label, s: &str) -> (r: bool)
    requires
        s@.len() < usize::MAX,
        vstd::string::is_ascii(s),
    ensures
        r == (*l == label_of(s@)),
{
    let other = Label::from_str(s);
    l.eq_label(&other)
}

fn is_reserved(l: &Label) -> (r: bool)
    ensures
        r == is_reserved_s(*l),
{
    proof {
        reveal_strlit("let");
        reveal_strlit("in");
        reveal_strlit("if");
        reveal_strlit("then");
        reveal_strlit("else");
        reveal_strlit("Type");
        reveal_strlit("Kind");
        reveal_strlit("Sort");
        reveal_strlit("True");
        reveal_strlit("False");
        reveal_strlit("Some");
        reveal_strlit("Bool");
        reveal_strlit("Natural");
        reveal_strlit("Integer");
        reveal_strlit("Double");
        reveal_strlit("Text");
        reveal_strlit("List");
        reveal_strlit("Optional");
        reveal_strlit("Natural/fold");
        reveal_strlit("Natural/build");
        reveal_strlit("Natural/isZero");
        reveal_strlit("Natural/even");
        reveal_strlit("Natural/odd");
        reveal_strlit("List/build");
        reveal_strlit("List/fold");
        reveal_strlit("List/length");
        reveal_strlit("List/head");
        reveal_strlit("List/last");
        reveal_strlit("List/indexed");
        reveal_strlit("List/reverse");
        reveal_strlit("Optional/fold");
        reveal_strlit("None");
    }
    label_eq_lit(l, "let") || label_eq_lit(l, "in") || label_eq_lit(l, "if") || label_eq_lit(
        l,
        "then",
    ) || label_eq_lit(l, "else") || label_eq_lit(l, "Type") || label_eq_lit(l, "Kind")
        || label_eq_lit(l, "Sort") || label_eq_lit(l, "True") || label_eq_lit(l, "False")
        || label_eq_lit(l, "Some") || label_eq_lit(l, "Bool") || label_eq_lit(l, "Natural")
        || label_eq_lit(l, "Integer") || label_eq_lit(l, "Double") || label_eq_lit(l, "Text")
        || label_eq_lit(l, "List") || label_eq_lit(l, "Optional") || label_eq_lit(
        l,
        "Natural/fold",
    ) || label_eq_lit(l, "Natural/build") || label_eq_lit(l, "Natural/isZero") || label_eq_lit(
        l,
        "Natural/even",
    ) || label_eq_lit(l, "Natural/odd") || label_eq_lit(l, "List/build") || label_eq_lit(
        l,
        "List/fold",
    ) || label_eq_lit(l, "List/length") || label_eq_lit(l, "List/head") || label_eq_lit(
        l,
        "List/last",
    ) || label_eq_lit(l, "List/indexed") || label_eq_lit(l, "List/reverse") || label_eq_lit(
        l,
        "Optional/fold",
    ) || label_eq_lit(l, "None")
}

fn label_simple(l: &Label) -> (r: bool)
    ensures
        r == label_simple_s(*l),
    decreases *l,
{
    match l {
        Label::Nil => true,
        Label::Cons(c, rest) => {
            let c = *c;
            (('a' <= c && c <= 'z') || ('A' <= c && c <= 'Z') || ('0' <= c && c <= '9') || c
                == '_') && label_simple(rest)
        }
    }
}

/// Print a label, quoting it with backticks iff it is empty, reserved, or
/// contains a character outside ASCII alphanumerics and underscore.
pub fn fmt_label(l: &Label) -> (r: String)
    ensures
        r@ == fmt_label_s(*l),
{
    if matches!(l, Label::Nil) {
        String::from_str("``")
    } else if !is_reserved(l) && label_simple(l) {
        label_chars_x(l)
    } else {
        let r = s_add(String::from_str("`"), label_chars_x(l).as_str());
        s_add(r, "`")
    }
}

/// The decimal digits of `n`, most significant first.
pub open spec fn dec_u64_s(n: u64) -> Seq<char>
    decreases n,
{
    let d = ((n % 10) + 0x30) as char;
    if n < 10 {
        seq![d]
    } else {
        dec_u64_s(n / 10) + seq![d]
    }
}

/// Render a natural number in decimal.
fn dec_u64(n: u64) -> (r: String)
    ensures
        r@ == dec_u64_s(n),
    decreases n,
{
    let d = ((n % 10) as u8 + 0x30) as char;
    if n < 10 {
        let mut s = String::new();
        push_char(&mut s, d);
        proof {
            assert(s@ =~= dec_u64_s(n));
        }
        s
    } else {
        let mut s = dec_u64(n / 10);
        push_char(&mut s, d);
        s
    }
}

/// The escape of one text character: backslash, quote and dollar escape
/// symbolically, the C0 controls by their common short forms or a
/// four-digit unicode escape, and everything else stands for itself.
pub open spec fn escape_char_s(c: char) -> Seq<char> {
    if c == '\\' {
        "\\\\"@
    } else if c == '"' {
        "\\\""@
    } else if c == '$' {
        "\\u0024"@
    } else if c == '\u{0008}' {
        "\\b"@
    } else if c == '\u{000C}' {
        "\\f"@
    } else if c == '\n' {
        "\\n"@
    } else if c == '\r' {
        "\\r"@
    } else if c == '\t' {
        "\\t"@
    } else if c <= '\u{001F}' {
        let hi = ((c as u32) / 16 + 0x30) as char;
        let lo_v = (c as u32) % 16;
        let lo = (if lo_v < 10 {
            lo_v + 0x30
        } else {
            lo_v - 10 + 0x61
        }) as char;
        "\\u00"@ + seq![hi] + seq![lo]
    } else {
        seq![c]
    }
}

/// The escaped form of a whole chunk of text.
pub open spec fn escape_text_s(s: Seq<char>) -> Seq<char>
    decreases s.len(),
{
    if s.len() == 0 {
        Seq::empty()
    } else {
        escape_char_s(s[0]) + escape_text_s(s.drop_first())
    }
}

fn escape_char(c: char, out: String) -> (r: String)
    ensures
        r@ == out@ + escape_char_s(c),
{
    let mut r = out;
    if c == '\\' {
        r.append("\\\\");
    } else if c == '"' {
        r.append("\\\"");
    } else if c == '$' {
        r.append("\\u0024");
    } else if c == '\u{0008}' {
        r.append("\\b");
    } else if c == '\u{000C}' {
        r.append("\\f");
    } else if c == '\n' {
        r.append("\\n");
    } else if c == '\r' {
        r.append("\\r");
    } else if c == '\t' {
        r.append("\\t");
    } else if c <= '\u{001F}' {
        r.append("\\u00");
        let hi = (((c as u32) / 16) as u8 + 0x30) as char;
        let lo_v = (c as u32) % 16;
        let lo = (if lo_v < 10 {
            lo_v as u8 + 0x30
        } else {
            lo_v as u8 - 10 + 0x61
        }) as char;
        push_char(&mut r, hi);
        push_char(&mut r, lo);
        proof {
            assert(r@ =~= out@ + escape_char_s(c));
        }
    } else {
        push_char(&mut r, c);
        proof {
            assert(r@ =~= out@ + escape_char_s(c));
        }
    }
    r
}

/// Escape a chunk of literal text for inclusion in a text literal.
fn escape_text(s: &str) -> (r: String)
    ensures
        r@ == escape_text_s(s@),
{
    let bytes_len = s.unicode_len();
    let mut out = String::new();
    let mut i: usize = 0;
    while i < bytes_len
        invariant
            i <= s@.len(),
            bytes_len == s@.len(),
            out@ == escape_prefix(s@, i as int),
        decreases s@.len() - i,
    {
        let c = s.get_char(i);
        out = escape_char(c, out);
        proof {
            lemma_escape_prefix_step(s@, i as int);
        }
        i = i + 1;
    }
    proof {
        lemma_escape_prefix_whole(s@);
    }
    out
}

/// The escape of the first `i` characters.
pub open spec fn escape_prefix(s: Seq<char>, i: int) -> Seq<char>
    decreases i,
{
    if i <= 0 || i > s.len() {
        Seq::empty()
    } else {
        escape_prefix(s, i - 1) + escape_char_s(s[i - 1])
    }
}

proof fn lemma_escape_prefix_step(s: Seq<char>, i: int)
    requires
        0 <= i < s.len(),
    ensures
        escape_prefix(s, i + 1) == escape_prefix(s, i) + escape_char_s(s[i]),
{
}

/// Escaping front-to-back and back-to-front agree.
proof fn lemma_escape_prefix_whole(s: Seq<char>)
    ensures
        escape_prefix(s, s.len() as int) == escape_text_s(s),
    decreases s.len(),
{
    if s.len() > 0 {
        lemma_escape_prefix_whole(s.drop_first());
        assert forall|j: int| 0 <= j <= s.len() - 1 implies escape_prefix(
            s,
            j + 1,
        ) == escape_char_s(s[0]) + escape_prefix(s.drop_first(), j) by {
            lemma_escape_prefix_shift(s, j);
        }
        assert(escape_prefix(s, s.len() as int) == escape_char_s(s[0]) + escape_prefix(
            s.drop_first(),
            s.len() - 1,
        ));
    }
}

proof fn lemma_escape_prefix_shift(s: Seq<char>, j: int)
    requires
        s.len() > 0,
        0 <= j <= s.len() - 1,
    ensures
        escape_prefix(s, j + 1) == escape_char_s(s[0]) + escape_prefix(s.drop_first(), j),
    decreases j,
{
    if j == 0 {
        assert(escape_prefix(s, 1) == escape_prefix(s, 0) + escape_char_s(s[0]));
        assert(escape_prefix(s, 1) =~= escape_char_s(s[0]) + escape_prefix(s.drop_first(), 0));
    } else {
        lemma_escape_prefix_shift(s, j - 1);
        assert(s.drop_first()[j - 1] == s[j]);
        assert(escape_prefix(s, j + 1) =~= escape_char_s(s[0]) + escape_prefix(
            s.drop_first(),
            j,
        ));
    }
}

/// Items joined by `sep`, between `open` and `close`.
pub open spec fn fmt_list_s(
    open: Seq<char>,
    sep: Seq<char>,
    close: Seq<char>,
    items: Seq<Seq<char>>,
) -> Seq<char> {
    open + join_items(sep, items) + close
}

/// Items joined by `sep`.
pub open spec fn join_items(sep: Seq<char>, items: Seq<Seq<char>>) -> Seq<char>
    decreases items.len(),
{
    if items.len() == 0 {
        Seq::empty()
    } else if items.len() == 1 {
        items[0]
    } else {
        join_items(sep, items.drop_last()) + sep + items.last()
    }
}

/// Print a list of pre-rendered items between `open` and `close`,
/// separated by `sep`.
pub fn fmt_list(open: &str, sep: &str, close: &str, items: &Vec<String>) -> (r: String)
    ensures
        r@ == fmt_list_s(open@, sep@, close@, items@.map_values(|s: String| s@)),
    decreases items@.len(),
{
    let ghost views = items@.map_values(|s: String| s@);
    let mut out = String::from_str(open);
    let mut i: usize = 0;
    while i < items.len()
        invariant
            i <= items@.len(),
            views == items@.map_values(|s: String| s@),
            views.len() == items@.len(),
            out@ == open@ + join_items(sep@, views.subrange(0, i as int)),
        decreases items@.len() - i,
    {
        if i > 0 {
            out = s_add(out, sep);
        }
        out = s_add(out, items[i].as_str());
        proof {
            let pre = views.subrange(0, i as int);
            let now = views.subrange(0, i + 1);
            assert(now.drop_last() =~= pre);
            assert(now.last() == views[i as int]);
            if i == 0 {
                assert(out@ =~= open@ + join_items(sep@, now));
            } else {
                assert(out@ =~= open@ + join_items(sep@, now));
            }
        }
        i = i + 1;
    }
    proof {
        assert(views.subrange(0, views.len() as int) =~= views);
    }
    s_add(out, close)
}

/// The sign of an integer literal and the decimal text of its magnitude.
pub open spec fn int_text_s(i: i64) -> Seq<char> {
    if i >= 0 {
        "+"@ + dec_u64_s(i as u64)
    } else {
        "-"@ + dec_u64_s((-(i as int)) as u64)
    }
}

fn int_text(i: i64) -> (r: String)
    ensures
        r@ == int_text_s(i),
{
    if i >= 0 {
        s_add(String::from_str("+"), dec_u64(i as u64).as_str())
    } else {
        let mag: u64 = if i == i64::MIN {
            9223372036854775808u64
        } else {
            (-i) as u64
        };
        proof {
            assert(mag as int == -(i as int));
        }
        s_add(String::from_str("-"), dec_u64(mag).as_str())
    }
}

/// Digits below ten, least significant first.
pub open spec fn valid_digits(d: ByteList) -> bool
    decreases d,
{
    match d {
        ByteList::Nil => true,
        ByteList::Cons(b, rest) => b < 10 && valid_digits(*rest),
    }
}

/// The decimal digits of `n`, least significant first.
pub open spec fn dec_le_s(n: u64) -> ByteList
    decreases n,
{
    if n < 10 {
        ByteList::Cons((n % 10) as u8, Box::new(ByteList::Nil))
    } else {
        ByteList::Cons((n % 10) as u8, Box::new(dec_le_s(n / 10)))
    }
}

/// The digit list multiplied by two, with carry.
pub open spec fn dbl_s(d: ByteList, carry: u8) -> ByteList
    decreases d,
{
    match d {
        ByteList::Nil => {
            if carry == 0 {
                ByteList::Nil
            } else {
                ByteList::Cons(carry, Box::new(ByteList::Nil))
            }
        }
        ByteList::Cons(b, rest) => {
            let v = 2 * (b as int) + carry as int;
            ByteList::Cons((v % 10) as u8, Box::new(dbl_s(*rest, (v / 10) as u8)))
        }
    }
}

/// The digit list multiplied by five, with carry.
pub open spec fn mul5_s(d: ByteList, carry: u8) -> ByteList
    decreases d,
{
    match d {
        ByteList::Nil => {
            if carry == 0 {
                ByteList::Nil
            } else {
                ByteList::Cons(carry, Box::new(ByteList::Nil))
            }
        }
        ByteList::Cons(b, rest) => {
            let v = 5 * (b as int) + carry as int;
            ByteList::Cons((v % 10) as u8, Box::new(mul5_s(*rest, (v / 10) as u8)))
        }
    }
}

/// `d * 2^k`.
pub open spec fn dbl_pow_s(k: nat, d: ByteList) -> ByteList
    decreases k,
{
    if k == 0 {
        d
    } else {
        dbl_pow_s((k - 1) as nat, dbl_s(d, 0))
    }
}

/// `d * 5^k`.
pub open spec fn mul5_pow_s(k: nat, d: ByteList) -> ByteList
    decreases k,
{
    if k == 0 {
        d
    } else {
        mul5_pow_s((k - 1) as nat, mul5_s(d, 0))
    }
}

/// The first `k` digits (padding with zeros), least significant first.
pub open spec fn take_digits(d: ByteList, k: nat) -> ByteList
    decreases k,
{
    if k == 0 {
        ByteList::Nil
    } else {
        match d {
            ByteList::Nil => ByteList::Cons(0, Box::new(take_digits(ByteList::Nil, (k - 1) as nat))),
            ByteList::Cons(b, rest) => ByteList::Cons(b, Box::new(take_digits(*rest, (k - 1) as nat))),
        }
    }
}

/// The digits after the first `k`, least significant first.
pub open spec fn drop_digits(d: ByteList, k: nat) -> ByteList
    decreases k,
{
    if k == 0 {
        d
    } else {
        match d {
            ByteList::Nil => ByteList::Nil,
            ByteList::Cons(_, rest) => drop_digits(*rest, (k - 1) as nat),
        }
    }
}

/// The fraction digits with their trailing decimal zeros removed (the
/// zeros at the little end of the list).
pub open spec fn trim_frac_s(d: ByteList) -> ByteList
    decreases d,
{
    match d {
        ByteList::Nil => ByteList::Nil,
        ByteList::Cons(b, rest) => {
            if b == 0 {
                trim_frac_s(*rest)
            } else {
                ByteList::Cons(b, rest)
            }
        }
    }
}

/// Digits rendered most significant first.
pub open spec fn digits_text_s(d: ByteList) -> Seq<char>
    decreases d,
{
    match d {
        ByteList::Nil => Seq::empty(),
        ByteList::Cons(b, rest) => digits_text_s(*rest) + seq![((b % 10) + 0x30) as char],
    }
}

/// The exact decimal text of a positive binary fraction `m * 2^e`: for a
/// non-negative exponent the digits of `m` doubled `e` times and a `.0`
/// tail, otherwise `m * 5^(-e)` with the decimal point placed `-e` digits
/// from the right.
pub open spec fn mantissa_text_s(m: u64, e: int) -> Seq<char> {
    if e >= 0 {
        digits_text_s(dbl_pow_s(e as nat, dec_le_s(m))) + ".0"@
    } else {
        let scaled = mul5_pow_s((-e) as nat, dec_le_s(m));
        let int_part = drop_digits(scaled, (-e) as nat);
        let int_text = if int_part == ByteList::Nil {
            "0"@
        } else {
            digits_text_s(int_part)
        };
        let frac = trim_frac_s(take_digits(scaled, (-e) as nat));
        let frac = if frac == ByteList::Nil {
            ByteList::Cons(0, Box::new(ByteList::Nil))
        } else {
            frac
        };
        int_text + "."@ + digits_text_s(frac)
    }
}

/// The text of a double literal, from its bit pattern: the special tokens
/// for the infinities, not-a-number and the negative zero, and otherwise
/// the exact decimal expansion of the binary fraction the bits denote.
pub open spec fn double_text_s(bits: u64) -> Seq<char> {
    let sign = bits >> 63;
    let expo = (bits >> 52) & 0x7FF;
    let frac = bits & 0xFFFFFFFFFFFFF;
    if expo == 0x7FF {
        if frac == 0 {
            if sign == 0 {
                "Infinity"@
            } else {
                "-Infinity"@
            }
        } else {
            "NaN"@
        }
    } else if bits == 0x8000000000000000 {
        "-0.0"@
    } else if bits == 0 {
        "0.0"@
    } else {
        let m = if expo == 0 {
            frac
        } else {
            (frac + 0x10000000000000) as u64
        };
        let e = (if expo == 0 {
            1int
        } else {
            expo as int
        }) - 1075;
        let body = mantissa_text_s(m, e);
        if sign == 0 {
            body
        } else {
            "-"@ + body
        }
    }
}

proof fn lemma_dec_le_valid(n: u64)
    ensures
        valid_digits(dec_le_s(n)),
    decreases n,
{
    assert((n % 10) < 10);
    if n >= 10 {
        lemma_dec_le_valid(n / 10);
        assert(valid_digits(dec_le_s(n)));
    } else {
        assert(valid_digits(ByteList::Nil));
        assert(valid_digits(dec_le_s(n)));
    }
}

proof fn lemma_dbl_valid(d: ByteList, carry: u8)
    requires
        valid_digits(d),
        carry < 2,
    ensures
        valid_digits(dbl_s(d, carry)),
    decreases d,
{
    match d {
        ByteList::Nil => {}
        ByteList::Cons(b, rest) => {
            lemma_dbl_valid(*rest, ((2 * (b as int) + carry as int) / 10) as u8);
        }
    }
}

proof fn lemma_mul5_valid(d: ByteList, carry: u8)
    requires
        valid_digits(d),
        carry < 5,
    ensures
        valid_digits(mul5_s(d, carry)),
    decreases d,
{
    match d {
        ByteList::Nil => {}
        ByteList::Cons(b, rest) => {
            lemma_mul5_valid(*rest, ((5 * (b as int) + carry as int) / 10) as u8);
        }
    }
}

fn dec_le(n: u64) -> (r: ByteList)
    ensures
        r == dec_le_s(n),
        valid_digits(r),
    decreases n,
{
    proof {
        lemma_dec_le_valid(n);
    }
    if n < 10 {
        ByteList::Cons((n % 10) as u8, Box::new(ByteList::Nil))
    } else {
        ByteList::Cons((n % 10) as u8, Box::new(dec_le(n / 10)))
    }
}

fn dbl(d: &ByteList, carry: u8) -> (r: ByteList)
    requires
        valid_digits(*d),
        carry < 2,
    ensures
        r == dbl_s(*d, carry),
        valid_digits(r),
    decreases *d,
{
    proof {
        lemma_dbl_valid(*d, carry);
    }
    match d {
        ByteList::Nil => {
            if carry == 0 {
                ByteList::Nil
            } else {
                ByteList::Cons(carry, Box::new(ByteList::Nil))
            }
        }
        ByteList::Cons(b, rest) => {
            let v = 2 * *b + carry;
            ByteList::Cons(v % 10, Box::new(dbl(rest, v / 10)))
        }
    }
}

fn mul5(d: &ByteList, carry: u8) -> (r: ByteList)
    requires
        valid_digits(*d),
        carry < 5,
    ensures
        r == mul5_s(*d, carry),
        valid_digits(r),
    decreases *d,
{
    proof {
        lemma_mul5_valid(*d, carry);
    }
    match d {
        ByteList::Nil => {
            if carry == 0 {
                ByteList::Nil
            } else {
                ByteList::Cons(carry, Box::new(ByteList::Nil))
            }
        }
        ByteList::Cons(b, rest) => {
            let v = 5 * *b + carry;
            ByteList::Cons(v % 10, Box::new(mul5(rest, v / 10)))
        }
    }
}

fn dbl_pow(k: u64, d: ByteList) -> (r: ByteList)
    requires
        valid_digits(d),
    ensures
        r == dbl_pow_s(k as nat, d),
        valid_digits(r),
    decreases k,
{
    if k == 0 {
        d
    } else {
        let d2 = dbl(&d, 0);
        dbl_pow(k - 1, d2)
    }
}

fn mul5_pow(k: u64, d: ByteList) -> (r: ByteList)
    requires
        valid_digits(d),
    ensures
        r == mul5_pow_s(k as nat, d),
        valid_digits(r),
    decreases k,
{
    if k == 0 {
        d
    } else {
        let d2 = mul5(&d, 0);
        mul5_pow(k - 1, d2)
    }
}

fn take_digits_x(d: &ByteList, k: u64) -> (r: ByteList)
    ensures
        r == take_digits(*d, k as nat),
    decreases k,
{
    if k == 0 {
        ByteList::Nil
    } else {
        match d {
            ByteList::Nil => ByteList::Cons(0, Box::new(take_digits_x(&ByteList::Nil, k - 1))),
            ByteList::Cons(b, rest) => ByteList::Cons(*b, Box::new(take_digits_x(rest, k - 1))),
        }
    }
}

fn drop_digits_x(d: &ByteList, k: u64) -> (r: ByteList)
    ensures
        r == drop_digits(*d, k as nat),
    decreases k,
{
    if k == 0 {
        d.dup()
    } else {
        match d {
            ByteList::Nil => ByteList::Nil,
            ByteList::Cons(_, rest) => drop_digits_x(rest, k - 1),
        }
    }
}

fn trim_frac(d: &ByteList) -> (r: ByteList)
    ensures
        r == trim_frac_s(*d),
    decreases *d,
{
    match d {
        ByteList::Nil => ByteList::Nil,
        ByteList::Cons(b, rest) => {
            if *b == 0 {
                trim_frac(rest)
            } else {
                ByteList::Cons(*b, Box::new(rest.dup()))
            }
        }
    }
}

fn digits_text(d: &ByteList) -> (r: String)
    ensures
        r@ == digits_text_s(*d),
    decreases *d,
{
    match d {
        ByteList::Nil => String::new(),
        ByteList::Cons(b, rest) => {
            let mut s = digits_text(rest);
            push_char(&mut s, ((*b % 10) + 0x30) as char);
            s
        }
    }
}

fn mantissa_text(m: u64, e: i64) -> (r: String)
    requires
        -1075 <= e <= 1000,
    ensures
        r@ == mantissa_text_s(m, e as int),
{
    if e >= 0 {
        let digits = dbl_pow(e as u64, dec_le(m));
        s_add(digits_text(&digits), ".0")
    } else {
        let k = (-e) as u64;
        let scaled = mul5_pow(k, dec_le(m));
        let int_part = drop_digits_x(&scaled, k);
        let int_text = if matches!(int_part, ByteList::Nil) {
            String::from_str("0")
        } else {
            digits_text(&int_part)
        };
        let frac = trim_frac(&take_digits_x(&scaled, k));
        let frac = if matches!(frac, ByteList::Nil) {
            ByteList::Cons(0, Box::new(ByteList::Nil))
        } else {
            frac
        };
        s_add(s_add(int_text, "."), digits_text(&frac).as_str())
    }
}

/// Render a double literal from its bit pattern.
pub fn double_text(bits: u64) -> (r: String)
    ensures
        r@ == double_text_s(bits),
{
    let sign = bits >> 63;
    let expo = (bits >> 52) & 0x7FF;
    let frac = bits & 0xFFFFFFFFFFFFF;
    proof {
        assert(frac <= 0xFFFFFFFFFFFFF && expo <= 0x7FF && sign <= 1) by (bit_vector)
            requires
                sign == bits >> 63 && expo == (bits >> 52) & 0x7FF && frac == bits
                    & 0xFFFFFFFFFFFFF,
        ;
    }
    if expo == 0x7FF {
        if frac == 0 {
            if sign == 0 {
                String::from_str("Infinity")
            } else {
                String::from_str("-Infinity")
            }
        } else {
            String::from_str("NaN")
        }
    } else if bits == 0x8000000000000000 {
        String::from_str("-0.0")
    } else if bits == 0 {
        String::from_str("0.0")
    } else {
        let m: u64 = if expo == 0 {
            frac
        } else {
            frac + 0x10000000000000u64
        };
        let e: i64 = (if expo == 0 {
            1i64
        } else {
            expo as i64
        }) - 1075;
        let body = mantissa_text(m, e);
        if sign == 0 {
            body
        } else {
            s_add(String::from_str("-"), body.as_str())
        }
    }
}

/// Hexadecimal digit, lowercase.
pub open spec fn hex_digit(v: u8) -> char {
    if v < 10 {
        (v + 0x30) as char
    } else {
        ((v - 10) + 0x61) as char
    }
}

/// Lowercase hexadecimal text of a byte sequence, two digits per byte.
pub open spec fn hex_of(bs: Seq<u8>) -> Seq<char>
    decreases bs.len(),
{
    if bs.len() == 0 {
        Seq::empty()
    } else {
        seq![hex_digit(bs[0] / 16), hex_digit(bs[0] % 16)] + hex_of(bs.drop_first())
    }
}

/// The bytes of a byte list, in order.
pub open spec fn bytes_of_bl(bl: ByteList) -> Seq<u8>
    decreases bl,
{
    match bl {
        ByteList::Nil => Seq::empty(),
        ByteList::Cons(b, rest) => seq![b] + bytes_of_bl(*rest),
    }
}

fn bl_push(bl: &ByteList, v: &mut Vec<u8>)
    ensures
        final(v)@ == old(v)@ + bytes_of_bl(*bl),
    decreases *bl,
{
    match bl {
        ByteList::Nil => {
            proof {
                assert(v@ =~= old(v)@ + bytes_of_bl(ByteList::Nil));
            }
        }
        ByteList::Cons(b, rest) => {
            v.push(*b);
            bl_push(rest, v);
            proof {
                assert(v@ =~= old(v)@ + bytes_of_bl(*bl));
            }
        }
    }
}

/// Relies on hex::encode: lowercase hexadecimal, two digits per input
/// byte, in input order.
#[verifier::external_body]
fn hex_encode(bytes: &Vec<u8>) -> (r: String)
    ensures
        r@ == hex_of(bytes@),
{
    hex::encode(bytes)
}

/// Relies on Itertools::join: the items' text in order with the
/// separator between each adjacent pair, and empty for no items.
#[verifier::external_body]
fn join_strings(items: &Vec<String>, sep: &str) -> (r: String)
    ensures
        r@ == join_items(sep@, items@.map_values(|s: String| s@)),
{
    items.iter().join(sep)
}

/// Every character is ASCII alphanumeric.
pub open spec fn all_alnum_s(s: Seq<char>) -> bool {
    forall|i: int|
        0 <= i < s.len() ==> (('a' <= #[trigger] s[i] && s[i] <= 'z') || ('A' <= s[i] && s[i]
            <= 'Z') || ('0' <= s[i] && s[i] <= '9'))
}

fn all_alnum(s: &str) -> (r: bool)
    ensures
        r == all_alnum_s(s@),
{
    let n = s.unicode_len();
    let mut i: usize = 0;
    while i < n
        invariant
            i <= s@.len(),
            n == s@.len(),
            forall|j: int|
                0 <= j < i ==> (('a' <= #[trigger] s@[j] && s@[j] <= 'z') || ('A' <= s@[j]
                    && s@[j] <= 'Z') || ('0' <= s@[j] && s@[j] <= '9')),
        decreases s@.len() - i,
    {
        let c = s.get_char(i);
        if !(('a' <= c && c <= 'z') || ('A' <= c && c <= 'Z') || ('0' <= c && c <= '9')) {
            return false;
        }
        i = i + 1;
    }
    true
}

/// A path component, wrapped in quotes unless purely alphanumeric.
pub open spec fn quoted_component_s(s: Seq<char>) -> Seq<char> {
    if all_alnum_s(s) {
        s
    } else {
        "\""@ + s + "\""@
    }
}

fn quoted_component(s: &str) -> (r: String)
    ensures
        r@ == quoted_component_s(s@),
{
    if all_alnum(s) {
        String::from_str(s)
    } else {
        s_add(s_add(String::from_str("\""), s), "\"")
    }
}

/// The views of the components of a local import path, quoted as needed.
pub open spec fn quoted_views_s(sl: StringList) -> Seq<Seq<char>>
    decreases sl,
{
    match sl {
        StringList::Nil => Seq::empty(),
        StringList::Cons(s, rest) => seq![quoted_component_s(s@)] + quoted_views_s(*rest),
    }
}

/// The raw views of the components of a remote import path.
pub open spec fn raw_views_s(sl: StringList) -> Seq<Seq<char>>
    decreases sl,
{
    match sl {
        StringList::Nil => Seq::empty(),
        StringList::Cons(s, rest) => seq![s@] + raw_views_s(*rest),
    }
}

fn quoted_vec(sl: &StringList, v: &mut Vec<String>)
    ensures
        final(v)@.map_values(|s: String| s@) == old(v)@.map_values(|s: String| s@)
            + quoted_views_s(*sl),
    decreases *sl,
{
    match sl {
        StringList::Nil => {
            proof {
                assert(v@.map_values(|s: String| s@) =~= old(v)@.map_values(|s: String| s@)
                    + quoted_views_s(StringList::Nil));
            }
        }
        StringList::Cons(s, rest) => {
            v.push(quoted_component(s.as_str()));
            proof {
                assert(v@.map_values(|s: String| s@) =~= old(v)@.map_values(|s: String| s@)
                    + seq![quoted_component_s(s@)]);
            }
            quoted_vec(rest, v);
            proof {
                assert(v@.map_values(|s: String| s@) =~= old(v)@.map_values(|s: String| s@)
                    + quoted_views_s(*sl));
            }
        }
    }
}

fn raw_vec(sl: &StringList, v: &mut Vec<String>)
    ensures
        final(v)@.map_values(|s: String| s@) == old(v)@.map_values(|s: String| s@)
            + raw_views_s(*sl),
    decreases *sl,
{
    match sl {
        StringList::Nil => {
            proof {
                assert(v@.map_values(|s: String| s@) =~= old(v)@.map_values(|s: String| s@)
                    + raw_views_s(StringList::Nil));
            }
        }
        StringList::Cons(s, rest) => {
            v.push(s.clone());
            proof {
                assert(v@.map_values(|s: String| s@) =~= old(v)@.map_values(|s: String| s@)
                    + seq![s@]);
            }
            raw_vec(rest, v);
            proof {
                assert(v@.map_values(|s: String| s@) =~= old(v)@.map_values(|s: String| s@)
                    + raw_views_s(*sl));
            }
        }
    }
}

/// The plain character views of a list of labels (a `with` path).
pub open spec fn plain_label_views_s(ll: LabelList) -> Seq<Seq<char>>
    decreases ll,
{
    match ll {
        LabelList::Nil => Seq::empty(),
        LabelList::Cons(l, rest) => seq![label_chars(l)] + plain_label_views_s(*rest),
    }
}

/// The quoted views of a list of labels (a projection set).
pub open spec fn fmt_label_views_s(ll: LabelList) -> Seq<Seq<char>>
    decreases ll,
{
    match ll {
        LabelList::Nil => Seq::empty(),
        LabelList::Cons(l, rest) => seq![fmt_label_s(l)] + fmt_label_views_s(*rest),
    }
}

fn plain_label_vec(ll: &LabelList, v: &mut Vec<String>)
    ensures
        final(v)@.map_values(|s: String| s@) == old(v)@.map_values(|s: String| s@)
            + plain_label_views_s(*ll),
    decreases *ll,
{
    match ll {
        LabelList::Nil => {
            proof {
                assert(v@.map_values(|s: String| s@) =~= old(v)@.map_values(|s: String| s@)
                    + plain_label_views_s(LabelList::Nil));
            }
        }
        LabelList::Cons(l, rest) => {
            v.push(label_chars_x(l));
            proof {
                assert(v@.map_values(|s: String| s@) =~= old(v)@.map_values(|s: String| s@)
                    + seq![label_chars(*l)]);
            }
            plain_label_vec(rest, v);
            proof {
                assert(v@.map_values(|s: String| s@) =~= old(v)@.map_values(|s: String| s@)
                    + plain_label_views_s(*ll));
            }
        }
    }
}

fn fmt_label_vec(ll: &LabelList, v: &mut Vec<String>)
    ensures
        final(v)@.map_values(|s: String| s@) == old(v)@.map_values(|s: String| s@)
            + fmt_label_views_s(*ll),
    decreases *ll,
{
    match ll {
        LabelList::Nil => {
            proof {
                assert(v@.map_values(|s: String| s@) =~= old(v)@.map_values(|s: String| s@)
                    + fmt_label_views_s(LabelList::Nil));
            }
        }
        LabelList::Cons(l, rest) => {
            v.push(fmt_label(l));
            proof {
                assert(v@.map_values(|s: String| s@) =~= old(v)@.map_values(|s: String| s@)
                    + seq![fmt_label_s(*l)]);
            }
            fmt_label_vec(rest, v);
            proof {
                assert(v@.map_values(|s: String| s@) =~= old(v)@.map_values(|s: String| s@)
                    + fmt_label_views_s(*ll));
            }
        }
    }
}

/// The escape of one character inside an `env:` import name.
pub open spec fn env_escape_char_s(c: char) -> Seq<char> {
    if c == '"' {
        "\\\""@
    } else if c == '\\' {
        "\\\\"@
    } else if c == '\u{0007}' {
        "\\a"@
    } else if c == '\u{0008}' {
        "\\b"@
    } else if c == '\u{000C}' {
        "\\f"@
    } else if c == '\n' {
        "\\n"@
    } else if c == '\r' {
        "\\r"@
    } else if c == '\t' {
        "\\t"@
    } else if c == '\u{000B}' {
        "\\v"@
    } else {
        seq![c]
    }
}

pub open spec fn env_escape_prefix(s: Seq<char>, i: int) -> Seq<char>
    decreases i,
{
    if i <= 0 || i > s.len() {
        Seq::empty()
    } else {
        env_escape_prefix(s, i - 1) + env_escape_char_s(s[i - 1])
    }
}

fn env_escape(s: &str) -> (r: String)
    ensures
        r@ == env_escape_prefix(s@, s@.len() as int),
{
    let n = s.unicode_len();
    let mut out = String::new();
    let mut i: usize = 0;
    while i < n
        invariant
            i <= s@.len(),
            n == s@.len(),
            out@ == env_escape_prefix(s@, i as int),
        decreases s@.len() - i,
    {
        let c = s.get_char(i);
        if c == '"' {
            out = s_add(out, "\\\"");
        } else if c == '\\' {
            out = s_add(out, "\\\\");
        } else if c == '\u{0007}' {
            out = s_add(out, "\\a");
        } else if c == '\u{0008}' {
            out = s_add(out, "\\b");
        } else if c == '\u{000C}' {
            out = s_add(out, "\\f");
        } else if c == '\n' {
            out = s_add(out, "\\n");
        } else if c == '\r' {
            out = s_add(out, "\\r");
        } else if c == '\t' {
            out = s_add(out, "\\t");
        } else if c == '\u{000B}' {
            out = s_add(out, "\\v");
        } else {
            push_char(&mut out, c);
        }
        proof {
            assert(out@ =~= env_escape_prefix(s@, i + 1));
        }
        i = i + 1;
    }
    out
}

/// The name of an environment variable import, quoted unless purely
/// alphanumeric.
pub open spec fn env_text_s(s: Seq<char>) -> Seq<char> {
    if all_alnum_s(s) {
        s
    } else {
        "\""@ + env_escape_prefix(s, s.len() as int) + "\""@
    }
}

/// Does the parent's phase force parentheses around this term?
pub open spec fn needs_paren_s(t: Term, phase: PrintPhase) -> bool {
    match t {
        Term::Lam(_, _, _) => phase_rank(phase) > 0,
        Term::Pi(_, _, _) => phase_rank(phase) > 0,
        Term::Let(_, _, _, _) => phase_rank(phase) > 0,
        Term::SomeLit(_) => phase_rank(phase) > 0,
        Term::EmptyListLit(_) => phase_rank(phase) > 0,
        Term::Annot(_, _) => phase_rank(phase) > 0,
        Term::App(_, _) => phase_rank(phase) > phase_rank(PrintPhase::App),
        Term::Op(op) => match *op {
            OpKind::BoolIf(_, _, _) => phase_rank(phase) > 0,
            OpKind::Merge(_, _, _) => phase_rank(phase) > 0,
            OpKind::ToMap(_, _) => phase_rank(phase) > 0,
            OpKind::BinOp(o, _, _) => phase_rank(phase) > phase_rank(PrintPhase::BinOp(o)),
            OpKind::Completion(_, _) => phase_rank(phase) > phase_rank(PrintPhase::Import),
            _ => false,
        },
        _ => false,
    }
}

/// The canonical text of a term at a phase: its body, parenthesised when
/// the phase requires it.
pub open spec fn pretty_s(t: Term, phase: PrintPhase) -> Seq<char>
    decreases t, 2int,
{
    if needs_paren_s(t, phase) {
        "("@ + pretty_raw_s(t) + ")"@
    } else {
        pretty_raw_s(t)
    }
}

/// The symbol of a binary operator.
pub open spec fn binop_symbol_s(o: BinOp) -> Seq<char> {
    match o {
        BinOp::BoolOr => "||"@,
        BinOp::TextAppend => "++"@,
        BinOp::NaturalPlus => "+"@,
        BinOp::BoolAnd => "&&"@,
        BinOp::RecursiveRecordMerge => "\u{2227}"@,
        BinOp::NaturalTimes => "*"@,
        BinOp::BoolEQ => "=="@,
        BinOp::BoolNE => "!="@,
        BinOp::RecursiveRecordTypeMerge => "\u{2A53}"@,
        BinOp::ImportAlt => "?"@,
        BinOp::RightBiasedRecordMerge => "\u{2AFD}"@,
        BinOp::ListAppend => "#"@,
        BinOp::Equivalence => "\u{2261}"@,
    }
}

/// The canonical text of a term, without outer parentheses.
pub open spec fn pretty_raw_s(t: Term) -> Seq<char>
    decreases t, 1int,
{
    match t {
        Term::Var(V(x, n)) => {
            if n == 0 {
                fmt_label_s(x)
            } else {
                fmt_label_s(x) + "@"@ + dec_u64_s(n)
            }
        }
        Term::Const(Const::Type) => "Type"@,
        Term::Const(Const::Kind) => "Kind"@,
        Term::Const(Const::Sort) => "Sort"@,
        Term::Builtin(b) => builtin_name_s(b),
        Term::Lam(x, a, b) => "\u{3bb}("@ + fmt_label_s(x) + " : "@ + pretty_s(*a, PrintPhase::Base)
            + ") \u{2192} "@ + pretty_s(*b, PrintPhase::Base),
        Term::Pi(x, a, b) => {
            if x == label_of("_"@) {
                pretty_s(*a, PrintPhase::Operator) + " \u{2192} "@ + pretty_s(*b, PrintPhase::Base)
            } else {
                "\u{2200}("@ + fmt_label_s(x) + " : "@ + pretty_s(*a, PrintPhase::Base)
                    + ") \u{2192} "@ + pretty_s(*b, PrintPhase::Base)
            }
        }
        Term::App(f, a) => pretty_s(*f, PrintPhase::App) + " "@ + pretty_s(
            *a,
            PrintPhase::Import,
        ),
        Term::Let(x, ann, v, b) => "let "@ + fmt_label_s(x) + (match ann {
            Option::None => Seq::<char>::empty(),
            Option::Some(an) => " : "@ + pretty_s(*an, PrintPhase::Base),
        }) + " = "@ + pretty_s(*v, PrintPhase::Base) + " in "@ + pretty_s(*b, PrintPhase::Base),
        Term::Annot(e, ty) => pretty_s(*e, PrintPhase::Operator) + " : "@ + pretty_s(
            *ty,
            PrintPhase::Base,
        ),
        Term::BoolLit(bv) => if bv {
            "True"@
        } else {
            "False"@
        },
        Term::NaturalLit(n) => dec_u64_s(n),
        Term::IntegerLit(i) => int_text_s(i),
        Term::DoubleLit(bits) => double_text_s(bits),
        Term::TextLit(ps) => "\""@ + text_pieces_s(*ps) + "\""@,
        Term::EmptyListLit(ty) => "[] : "@ + pretty_s(*ty, PrintPhase::Base),
        Term::NEListLit(ts) => "["@ + list_items_s(*ts) + "]"@,
        Term::SomeLit(e) => "Some "@ + pretty_s(*e, PrintPhase::Import),
        Term::OldOptionalLit(v, ty) => (match v {
            Option::None => "[] : Optional "@,
            Option::Some(e) => "["@ + pretty_s(*e, PrintPhase::Base) + "] : Optional "@,
        }) + pretty_s(*ty, PrintPhase::Import),
        Term::RecordType(kts) => {
            if *kts == FieldList::Nil {
                "{}"@
            } else {
                "{ "@ + field_ty_items_s(*kts) + " }"@
            }
        }
        Term::RecordLit(kvs) => {
            if *kvs == FieldList::Nil {
                "{=}"@
            } else {
                "{ "@ + field_val_items_s(*kvs) + " }"@
            }
        }
        Term::UnionType(alts) => "< "@ + alt_items_s(*alts) + " >"@,
        Term::UnionLit(x, v, alts) => "< "@ + fmt_label_s(x) + " = "@ + pretty_s(
            *v,
            PrintPhase::Base,
        ) + (if *alts == AltList::Nil {
            Seq::<char>::empty()
        } else {
            " | "@ + alt_items_s(*alts)
        }) + " >"@,
        Term::Op(op) => op_text_s(*op),
        Term::Assert(e) => "assert : "@ + pretty_s(*e, PrintPhase::Base),
        Term::Import(ie) => import_text_s(*ie),
    }
}

pub open spec fn list_items_s(ts: TermList) -> Seq<char>
    decreases ts, 2int,
{
    match ts {
        TermList::Nil => Seq::empty(),
        TermList::Cons(t, rest) => match *rest {
            TermList::Nil => pretty_s(t, PrintPhase::Base),
            _ => pretty_s(t, PrintPhase::Base) + ", "@ + list_items_s(*rest),
        },
    }
}

pub open spec fn field_ty_items_s(fs: FieldList) -> Seq<char>
    decreases fs, 2int,
{
    match fs {
        FieldList::Nil => Seq::empty(),
        FieldList::Cons(k, t, rest) => {
            let item = fmt_label_s(k) + " : "@ + pretty_s(t, PrintPhase::Base);
            match *rest {
                FieldList::Nil => item,
                _ => item + ", "@ + field_ty_items_s(*rest),
            }
        }
    }
}

pub open spec fn field_val_items_s(fs: FieldList) -> Seq<char>
    decreases fs, 2int,
{
    match fs {
        FieldList::Nil => Seq::empty(),
        FieldList::Cons(k, t, rest) => {
            let item = fmt_label_s(k) + " = "@ + pretty_s(t, PrintPhase::Base);
            match *rest {
                FieldList::Nil => item,
                _ => item + ", "@ + field_val_items_s(*rest),
            }
        }
    }
}

pub open spec fn alt_items_s(alts: AltList) -> Seq<char>
    decreases alts, 2int,
{
    match alts {
        AltList::Nil => Seq::empty(),
        AltList::Cons(k, t, rest) => {
            let item = fmt_label_s(k) + (match t {
                Option::None => Seq::<char>::empty(),
                Option::Some(t) => ": "@ + pretty_s(t, PrintPhase::Base),
            });
            match *rest {
                AltList::Nil => item,
                _ => item + " | "@ + alt_items_s(*rest),
            }
        }
    }
}

pub open spec fn text_pieces_s(ps: TextPieces) -> Seq<char>
    decreases ps, 2int,
{
    match ps {
        TextPieces::Empty => Seq::empty(),
        TextPieces::Chunk(s, rest) => escape_text_s(s@) + text_pieces_s(*rest),
        TextPieces::Interp(t, rest) => "${ "@ + pretty_s(t, PrintPhase::Base) + " }"@
            + text_pieces_s(*rest),
    }
}

pub open spec fn op_text_s(op: OpKind) -> Seq<char>
    decreases op, 2int,
{
    match op {
        OpKind::BinOp(o, l, r) => pretty_s(l, PrintPhase::BinOp(o)) + " "@ + binop_symbol_s(o)
            + " "@ + pretty_s(r, PrintPhase::BinOp(o)),
        OpKind::BoolIf(c, t, e) => "if "@ + pretty_s(c, PrintPhase::Base) + " then "@
            + pretty_s(t, PrintPhase::Base) + " else "@ + pretty_s(e, PrintPhase::Base),
        OpKind::Merge(h, u, a) => "merge "@ + pretty_s(h, PrintPhase::Import) + " "@
            + pretty_s(u, PrintPhase::Import) + (match a {
            Option::None => Seq::<char>::empty(),
            Option::Some(a) => " : "@ + pretty_s(a, PrintPhase::App),
        }),
        OpKind::ToMap(r, a) => "toMap "@ + pretty_s(r, PrintPhase::Import) + (match a {
            Option::None => Seq::<char>::empty(),
            Option::Some(a) => " : "@ + pretty_s(a, PrintPhase::App),
        }),
        OpKind::Field(r, x) => pretty_s(r, PrintPhase::Primitive) + "."@ + fmt_label_s(x),
        OpKind::Projection(r, ks) => pretty_s(r, PrintPhase::Primitive) + "."@ + fmt_list_s(
            "{ "@,
            ", "@,
            " }"@,
            fmt_label_views_s(ks),
        ),
        OpKind::ProjectionByExpr(r, ty) => pretty_s(r, PrintPhase::Primitive) + ".("@
            + pretty_s(ty, PrintPhase::Base) + ")"@,
        OpKind::Completion(a, b) => pretty_s(a, PrintPhase::Primitive) + "::"@ + pretty_s(
            b,
            PrintPhase::Primitive,
        ),
        OpKind::With(r, path, v) => pretty_s(r, PrintPhase::Base) + " with "@ + join_items(
            "."@,
            plain_label_views_s(path),
        ) + " = "@ + pretty_s(v, PrintPhase::Base),
    }
}

/// The text of an import location.
pub open spec fn loc_text_s(t: ImportTarget) -> Seq<char>
    decreases t, 3int,
{
    match t {
        ImportTarget::Local(prefix, path) => (match prefix {
            crate::term::FilePrefix::Here => "."@,
            crate::term::FilePrefix::Parent => ".."@,
            crate::term::FilePrefix::Home => "~"@,
            crate::term::FilePrefix::Absolute => Seq::<char>::empty(),
        }) + "/"@ + join_items("/"@, quoted_views_s(path)),
        ImportTarget::Remote(url) => (match url.scheme {
            Scheme::HTTP => "http"@,
            Scheme::HTTPS => "https"@,
        }) + "://"@ + url.authority@ + "/"@ + join_items("/"@, raw_views_s(url.path)) + (
        match url.query {
            Option::None => Seq::<char>::empty(),
            Option::Some(q) => "?"@ + q@,
        }) + (match url.headers {
            Option::None => Seq::<char>::empty(),
            Option::Some(h) => " using "@ + import_text_s(*h),
        }),
        ImportTarget::Env(s) => "env:"@ + env_text_s(s@),
        ImportTarget::Missing => "missing"@,
    }
}

/// The text of an import descriptor.
pub open spec fn import_text_s(ie: ImportElem) -> Seq<char>
    decreases ie, 4int,
{
    let loc = loc_text_s(ie.location);
    let hashed = match ie.hash {
        Option::None => Seq::<char>::empty(),
        Option::Some(ImportHash::SHA256(bl)) => " sha256:"@ + hex_of(bytes_of_bl(bl)),
    };
    let mode = match ie.mode {
        ImportMode::Code => Seq::<char>::empty(),
        ImportMode::RawText => " as Text"@,
        ImportMode::Location => " as Location"@,
    };
    loc + hashed + mode
}

fn needs_paren(t: &Term, phase: PrintPhase) -> (r: bool)
    ensures
        r == needs_paren_s(*t, phase),
{
    let rank = phase_rank_x(phase);
    match t {
        Term::Lam(_, _, _) => rank > 0,
        Term::Pi(_, _, _) => rank > 0,
        Term::Let(_, _, _, _) => rank > 0,
        Term::SomeLit(_) => rank > 0,
        Term::EmptyListLit(_) => rank > 0,
        Term::Annot(_, _) => rank > 0,
        Term::App(_, _) => rank > phase_rank_x(PrintPhase::App),
        Term::Op(op) => match &**op {
            OpKind::BoolIf(_, _, _) => rank > 0,
            OpKind::Merge(_, _, _) => rank > 0,
            OpKind::ToMap(_, _) => rank > 0,
            OpKind::BinOp(o, _, _) => rank > phase_rank_x(PrintPhase::BinOp(*o)),
            OpKind::Completion(_, _) => rank > phase_rank_x(PrintPhase::Import),
            _ => false,
        },
        _ => false,
    }
}

/// Print a term at a phase, parenthesising it when the phase requires.
pub fn pretty(t: &Term, phase: PrintPhase) -> (r: String)
    ensures
        r@ == pretty_s(*t, phase),
    decreases *t, 2int,
{
    let inner = pretty_raw(t);
    if needs_paren(t, phase) {
        s_add(s_add(String::from_str("("), inner.as_str()), ")")
    } else {
        inner
    }
}

fn binop_symbol(o: BinOp) -> (r: String)
    ensures
        r@ == binop_symbol_s(o),
{
    match o {
        BinOp::BoolOr => String::from_str("||"),
        BinOp::TextAppend => String::from_str("++"),
        BinOp::NaturalPlus => String::from_str("+"),
        BinOp::BoolAnd => String::from_str("&&"),
        BinOp::RecursiveRecordMerge => String::from_str("\u{2227}"),
        BinOp::NaturalTimes => String::from_str("*"),
        BinOp::BoolEQ => String::from_str("=="),
        BinOp::BoolNE => String::from_str("!="),
        BinOp::RecursiveRecordTypeMerge => String::from_str("\u{2A53}"),
        BinOp::ImportAlt => String::from_str("?"),
        BinOp::RightBiasedRecordMerge => String::from_str("\u{2AFD}"),
        BinOp::ListAppend => String::from_str("#"),
        BinOp::Equivalence => String::from_str("\u{2261}"),
    }
}

fn pretty_raw(t: &Term) -> (r: String)
    ensures
        r@ == pretty_raw_s(*t),
    decreases *t, 1int,
{
    match t {
        Term::Var(V(x, n)) => {
            if *n == 0 {
                fmt_label(x)
            } else {
                s_add(s_add(fmt_label(x), "@"), dec_u64(*n).as_str())
            }
        }
        Term::Const(Const::Type) => String::from_str("Type"),
        Term::Const(Const::Kind) => String::from_str("Kind"),
        Term::Const(Const::Sort) => String::from_str("Sort"),
        Term::Builtin(b) => builtin_name(*b),
        Term::Lam(x, a, b) => {
            let r = s_add(String::from_str("\u{3bb}("), fmt_label(x).as_str());
            let r = s_add(s_add(r, " : "), pretty(a, PrintPhase::Base).as_str());
            s_add(s_add(r, ") \u{2192} "), pretty(b, PrintPhase::Base).as_str())
        }
        Term::Pi(x, a, b) => {
            proof {
                reveal_strlit("_");
            }
            if label_eq_lit(x, "_") {
                let r = s_add(pretty(a, PrintPhase::Operator), " \u{2192} ");
                s_add(r, pretty(b, PrintPhase::Base).as_str())
            } else {
                let r = s_add(String::from_str("\u{2200}("), fmt_label(x).as_str());
                let r = s_add(s_add(r, " : "), pretty(a, PrintPhase::Base).as_str());
                s_add(s_add(r, ") \u{2192} "), pretty(b, PrintPhase::Base).as_str())
            }
        }
        Term::App(f, a) => {
            let r = s_add(pretty(f, PrintPhase::App), " ");
            s_add(r, pretty(a, PrintPhase::Import).as_str())
        }
        Term::Let(x, ann, v, b) => {
            let r = s_add(String::from_str("let "), fmt_label(x).as_str());
            let r = match ann {
                Option::None => r,
                Option::Some(an) => s_add(
                    s_add(r, " : "),
                    pretty(an, PrintPhase::Base).as_str(),
                ),
            };
            let r = s_add(s_add(r, " = "), pretty(v, PrintPhase::Base).as_str());
            s_add(s_add(r, " in "), pretty(b, PrintPhase::Base).as_str())
        }
        Term::Annot(e, ty) => {
            let r = s_add(pretty(e, PrintPhase::Operator), " : ");
            s_add(r, pretty(ty, PrintPhase::Base).as_str())
        }
        Term::BoolLit(bv) => {
            if *bv {
                String::from_str("True")
            } else {
                String::from_str("False")
            }
        }
        Term::NaturalLit(n) => dec_u64(*n),
        Term::IntegerLit(i) => int_text(*i),
        Term::DoubleLit(bits) => double_text(*bits),
        Term::TextLit(ps) => {
            let r = s_add(String::from_str("\""), text_pieces(ps).as_str());
            s_add(r, "\"")
        }
        Term::EmptyListLit(ty) => s_add(
            String::from_str("[] : "),
            pretty(ty, PrintPhase::Base).as_str(),
        ),
        Term::NEListLit(ts) => {
            let r = s_add(String::from_str("["), list_items(ts).as_str());
            s_add(r, "]")
        }
        Term::SomeLit(e) => s_add(
            String::from_str("Some "),
            pretty(e, PrintPhase::Import).as_str(),
        ),
        Term::OldOptionalLit(v, ty) => {
            let r = match v {
                Option::None => String::from_str("[] : Optional "),
                Option::Some(e) => s_add(
                    s_add(String::from_str("["), pretty(e, PrintPhase::Base).as_str()),
                    "] : Optional ",
                ),
            };
            s_add(r, pretty(ty, PrintPhase::Import).as_str())
        }
        Term::RecordType(kts) => {
            if matches!(&**kts, FieldList::Nil) {
                String::from_str("{}")
            } else {
                let r = s_add(String::from_str("{ "), field_ty_items(kts).as_str());
                s_add(r, " }")
            }
        }
        Term::RecordLit(kvs) => {
            if matches!(&**kvs, FieldList::Nil) {
                String::from_str("{=}")
            } else {
                let r = s_add(String::from_str("{ "), field_val_items(kvs).as_str());
                s_add(r, " }")
            }
        }
        Term::UnionType(alts) => {
            let r = s_add(String::from_str("< "), alt_items(alts).as_str());
            s_add(r, " >")
        }
        Term::UnionLit(x, v, alts) => {
            let r = s_add(String::from_str("< "), fmt_label(x).as_str());
            let r = s_add(s_add(r, " = "), pretty(v, PrintPhase::Base).as_str());
            let r = if matches!(&**alts, AltList::Nil) {
                r
            } else {
                s_add(s_add(r, " | "), alt_items(alts).as_str())
            };
            s_add(r, " >")
        }
        Term::Op(op) => op_text(op),
        Term::Assert(e) => s_add(
            String::from_str("assert : "),
            pretty(e, PrintPhase::Base).as_str(),
        ),
        Term::Import(ie) => import_text(ie),
    }
}

fn list_items(ts: &TermList) -> (r: String)
    ensures
        r@ == list_items_s(*ts),
    decreases *ts, 2int,
{
    match ts {
        TermList::Nil => String::new(),
        TermList::Cons(t, rest) => match &**rest {
            TermList::Nil => pretty(t, PrintPhase::Base),
            _ => {
                let r = s_add(pretty(t, PrintPhase::Base), ", ");
                s_add(r, list_items(rest).as_str())
            }
        },
    }
}

fn field_ty_items(fs: &FieldList) -> (r: String)
    ensures
        r@ == field_ty_items_s(*fs),
    decreases *fs, 2int,
{
    match fs {
        FieldList::Nil => String::new(),
        FieldList::Cons(k, t, rest) => {
            let item = s_add(s_add(fmt_label(k), " : "), pretty(t, PrintPhase::Base).as_str());
            match &**rest {
                FieldList::Nil => item,
                _ => s_add(s_add(item, ", "), field_ty_items(rest).as_str()),
            }
        }
    }
}

fn field_val_items(fs: &FieldList) -> (r: String)
    ensures
        r@ == field_val_items_s(*fs),
    decreases *fs, 2int,
{
    match fs {
        FieldList::Nil => String::new(),
        FieldList::Cons(k, t, rest) => {
            let item = s_add(s_add(fmt_label(k), " = "), pretty(t, PrintPhase::Base).as_str());
            match &**rest {
                FieldList::Nil => item,
                _ => s_add(s_add(item, ", "), field_val_items(rest).as_str()),
            }
        }
    }
}

fn alt_items(alts: &AltList) -> (r: String)
    ensures
        r@ == alt_items_s(*alts),
    decreases *alts, 2int,
{
    match alts {
        AltList::Nil => String::new(),
        AltList::Cons(k, t, rest) => {
            let item = match t {
                Option::None => fmt_label(k),
                Option::Some(t) => s_add(
                    s_add(fmt_label(k), ": "),
                    pretty(t, PrintPhase::Base).as_str(),
                ),
            };
            match &**rest {
                AltList::Nil => item,
                _ => s_add(s_add(item, " | "), alt_items(rest).as_str()),
            }
        }
    }
}

fn text_pieces(ps: &TextPieces) -> (r: String)
    ensures
        r@ == text_pieces_s(*ps),
    decreases *ps, 2int,
{
    match ps {
        TextPieces::Empty => String::new(),
        TextPieces::Chunk(s, rest) => s_add(
            escape_text(s.as_str()),
            text_pieces(rest).as_str(),
        ),
        TextPieces::Interp(t, rest) => {
            let r = s_add(String::from_str("${ "), pretty(t, PrintPhase::Base).as_str());
            s_add(s_add(r, " }"), text_pieces(rest).as_str())
        }
    }
}

fn op_text(op: &OpKind) -> (r: String)
    ensures
        r@ == op_text_s(*op),
    decreases *op, 2int,
{
    match op {
        OpKind::BinOp(o, l, rr) => {
            let r = s_add(pretty(l, PrintPhase::BinOp(*o)), " ");
            let r = s_add(s_add(r, binop_symbol(*o).as_str()), " ");
            s_add(r, pretty(rr, PrintPhase::BinOp(*o)).as_str())
        }
        OpKind::BoolIf(c, t, e) => {
            let r = s_add(String::from_str("if "), pretty(c, PrintPhase::Base).as_str());
            let r = s_add(s_add(r, " then "), pretty(t, PrintPhase::Base).as_str());
            s_add(s_add(r, " else "), pretty(e, PrintPhase::Base).as_str())
        }
        OpKind::Merge(h, u, a) => {
            let r = s_add(String::from_str("merge "), pretty(h, PrintPhase::Import).as_str());
            let r = s_add(s_add(r, " "), pretty(u, PrintPhase::Import).as_str());
            match a {
                Option::None => r,
                Option::Some(a) => s_add(
                    s_add(r, " : "),
                    pretty(a, PrintPhase::App).as_str(),
                ),
            }
        }
        OpKind::ToMap(rec, a) => {
            let r = s_add(
                String::from_str("toMap "),
                pretty(rec, PrintPhase::Import).as_str(),
            );
            match a {
                Option::None => r,
                Option::Some(a) => s_add(
                    s_add(r, " : "),
                    pretty(a, PrintPhase::App).as_str(),
                ),
            }
        }
        OpKind::Field(rec, x) => {
            let r = s_add(pretty(rec, PrintPhase::Primitive), ".");
            s_add(r, fmt_label(x).as_str())
        }
        OpKind::Projection(rec, ks) => {
            let r = s_add(pretty(rec, PrintPhase::Primitive), ".");
            let mut v: Vec<String> = Vec::new();
            fmt_label_vec(ks, &mut v);
            proof {
                assert(v@.map_values(|s: String| s@) =~= fmt_label_views_s(*ks));
            }
            s_add(r, fmt_list("{ ", ", ", " }", &v).as_str())
        }
        OpKind::ProjectionByExpr(rec, ty) => {
            let r = s_add(pretty(rec, PrintPhase::Primitive), ".(");
            s_add(s_add(r, pretty(ty, PrintPhase::Base).as_str()), ")")
        }
        OpKind::Completion(a, b) => {
            let r = s_add(pretty(a, PrintPhase::Primitive), "::");
            s_add(r, pretty(b, PrintPhase::Primitive).as_str())
        }
        OpKind::With(rec, path, v) => {
            let r = s_add(pretty(rec, PrintPhase::Base), " with ");
            let mut comps: Vec<String> = Vec::new();
            plain_label_vec(path, &mut comps);
            proof {
                assert(comps@.map_values(|s: String| s@) =~= plain_label_views_s(*path));
            }
            let r = s_add(r, join_strings(&comps, ".").as_str());
            s_add(s_add(r, " = "), pretty(v, PrintPhase::Base).as_str())
        }
    }
}

fn loc_text(t: &ImportTarget) -> (r: String)
    ensures
        r@ == loc_text_s(*t),
    decreases *t, 3int,
{
    match t {
        ImportTarget::Local(prefix, path) => {
            let p = match prefix {
                crate::term::FilePrefix::Here => String::from_str("."),
                crate::term::FilePrefix::Parent => String::from_str(".."),
                crate::term::FilePrefix::Home => String::from_str("~"),
                crate::term::FilePrefix::Absolute => String::new(),
            };
            let mut comps: Vec<String> = Vec::new();
            quoted_vec(path, &mut comps);
            proof {
                assert(comps@.map_values(|s: String| s@) =~= quoted_views_s(*path));
            }
            s_add(s_add(p, "/"), join_strings(&comps, "/").as_str())
        }
        ImportTarget::Remote(url) => {
            let p = match url.scheme {
                Scheme::HTTP => String::from_str("http"),
                Scheme::HTTPS => String::from_str("https"),
            };
            let p = s_add(s_add(p, "://"), url.authority.as_str());
            let mut comps: Vec<String> = Vec::new();
            raw_vec(&url.path, &mut comps);
            proof {
                assert(comps@.map_values(|s: String| s@) =~= raw_views_s(url.path));
            }
            let p = s_add(s_add(p, "/"), join_strings(&comps, "/").as_str());
            let p = match &url.query {
                Option::None => p,
                Option::Some(q) => s_add(s_add(p, "?"), q.as_str()),
            };
            match &url.headers {
                Option::None => p,
                Option::Some(h) => s_add(s_add(p, " using "), import_text(h).as_str()),
            }
        }
        ImportTarget::Env(s) => {
            let p = String::from_str("env:");
            if all_alnum(s.as_str()) {
                s_add(p, s.as_str())
            } else {
                let q = s_add(s_add(String::from_str("\""), env_escape(s.as_str()).as_str()), "\"");
                s_add(p, q.as_str())
            }
        }
        ImportTarget::Missing => String::from_str("missing"),
    }
}

fn import_text(ie: &ImportElem) -> (r: String)
    ensures
        r@ == import_text_s(*ie),
    decreases *ie, 4int,
{
    let loc = loc_text(&ie.location);
    let loc = match &ie.hash {
        Option::None => loc,
        Option::Some(ImportHash::SHA256(bl)) => {
            let mut bytes: Vec<u8> = Vec::new();
            bl_push(bl, &mut bytes);
            s_add(s_add(loc, " sha256:"), hex_encode(&bytes).as_str())
        }
    };
    match ie.mode {
        ImportMode::Code => loc,
        ImportMode::RawText => s_add(loc, " as Text"),
        ImportMode::Location => s_add(loc, " as Location"),
    }
}

/// A term tagged with the phase it is to be printed at, so that phase
/// selection can be done separately from printing.
#[derive(Clone, Copy)]
pub struct PhasedExpr<'a>(pub &'a Term, pub PrintPhase);

impl<'a> PhasedExpr<'a> {
    /// The same term at another phase.
    pub fn phase(self, phase: PrintPhase) -> (r: PhasedExpr<'a>)
        ensures
            r.0 == self.0 && r.1 == phase,
    {
        PhasedExpr(self.0, phase)
    }

    /// Render at the selected phase.
    pub fn render(self) -> (r: String)
        ensures
            r@ == pretty_s(*self.0, self.1),
    {
        pretty(self.0, self.1)
    }
}

impl Term {
    /// The canonical Dhall surface text of the term.
    pub fn render(&self) -> (r: String)
        ensures
            r@ == pretty_s(*self, PrintPhase::Base),
    {
        pretty(self, PrintPhase::Base)
    }
}

} // verus!
