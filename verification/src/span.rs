//! Source locations: a byte range inside the original input, or one of
//! the synthetic tags for desugared, decoded or checker-built terms.
//! Spans never affect semantics; they only feed error rendering.

use vstd::prelude::*;
use vstd::string::StringSliceAdditionalSpecFns;

verus! {

/// A location in the source text: the input it points into and a byte
/// range within it.
#[derive(Debug)]
pub struct ParsedSpan {
    pub input: String,
    pub start: usize,
    pub end: usize,
}

/// A provenance tag.
#[derive(Debug)]
pub enum Span {
    /// A location in the source text.
    Parsed(ParsedSpan),
    /// Desugaring of duplicate record fields.
    DuplicateRecordFieldsSugar,
    /// Desugaring of dotted field syntax.
    DottedFieldSugar,
    /// An expression obtained from decoding binary.
    Decoded,
    /// An expression constructed during normalisation or typechecking.
    Artificial,
}

/// Is this byte the first byte of a UTF-8 encoded character?
pub open spec fn is_lead_byte(b: u8) -> bool {
    b & 0xC0 != 0x80
}

/// Count of character-leading bytes strictly before `idx`.
pub open spec fn leads_before(bytes: Seq<u8>, idx: int) -> int
    decreases idx,
{
    if idx <= 0 {
        0
    } else if idx > bytes.len() {
        leads_before(bytes, idx - 1)
    } else {
        leads_before(bytes, idx - 1) + if is_lead_byte(bytes[idx - 1]) {
            1int
        } else {
            0int
        }
    }
}

/// Count of the byte `b` strictly before `idx`.
pub open spec fn byte_count_before(bytes: Seq<u8>, b: u8, idx: int) -> int
    decreases idx,
{
    if idx <= 0 {
        0
    } else if idx > bytes.len() {
        byte_count_before(bytes, b, idx - 1)
    } else {
        byte_count_before(bytes, b, idx - 1) + if bytes[idx - 1] == b {
            1int
        } else {
            0int
        }
    }
}

/// Model of `char_idx_from_byte_idx`: the character index of the byte
/// offset `idx` (zero when `idx` addresses no character boundary), plus
/// one per newline and minus one per carriage return before it, floored
/// at zero.  The newline adjustment compensates a renderer that counts a
/// line break as two characters.
pub open spec fn char_idx_s(bytes: Seq<u8>, idx: int) -> int {
    let base = if 0 <= idx < bytes.len() && is_lead_byte(bytes[idx]) {
        leads_before(bytes, idx)
    } else {
        0
    };
    let adjusted = base + byte_count_before(bytes, 0x0A, idx) - byte_count_before(
        bytes,
        0x0D,
        idx,
    );
    if adjusted < 0 {
        0
    } else {
        adjusted
    }
}

/// Convert a byte index into the input to a character index, for a
/// renderer that wants character positions and counts a line break twice.
pub fn char_idx_from_byte_idx(input: &str, idx: usize) -> (r: usize)
    requires
        input.spec_bytes().len() < usize::MAX / 2,
    ensures
        r == char_idx_s(input.spec_bytes(), idx as int),
{
    let bytes = input.as_bytes();
    let mut leads: usize = 0;
    let mut newlines: usize = 0;
    let mut carriage: usize = 0;
    let mut i: usize = 0;
    let limit = if idx < bytes.len() {
        idx
    } else {
        bytes.len()
    };
    while i < limit
        invariant
            i <= limit,
            limit <= bytes.len(),
            limit == if idx < bytes@.len() {
                idx as int
            } else {
                bytes@.len() as int
            },
            leads == leads_before(bytes@, i as int),
            newlines == byte_count_before(bytes@, 0x0A, i as int),
            carriage == byte_count_before(bytes@, 0x0D, i as int),
            leads <= i && newlines <= i && carriage <= i,
        decreases limit - i,
    {
        let b = bytes[i];
        if b & 0xC0 != 0x80 {
            leads = leads + 1;
        }
        if b == 0x0A {
            newlines = newlines + 1;
        }
        if b == 0x0D {
            carriage = carriage + 1;
        }
        i = i + 1;
    }
    proof {
        lemma_counts_beyond(bytes@, 0x0A, idx as int);
        lemma_counts_beyond(bytes@, 0x0D, idx as int);
        lemma_leads_beyond(bytes@, idx as int);
    }
    let base = if idx < bytes.len() {
        if bytes[idx] & 0xC0 != 0x80 {
            leads
        } else {
            0
        }
    } else {
        0
    };
    let with_nl = base + newlines;
    if with_nl < carriage {
        0
    } else {
        with_nl - carriage
    }
}

/// Counting stops changing past the end of the byte sequence.
proof fn lemma_counts_beyond(bytes: Seq<u8>, b: u8, idx: int)
    ensures
        byte_count_before(bytes, b, idx) == byte_count_before(
            bytes,
            b,
            if idx < bytes.len() {
                idx
            } else {
                bytes.len() as int
            },
        ),
    decreases idx,
{
    if idx > bytes.len() {
        lemma_counts_beyond(bytes, b, idx - 1);
    }
}

proof fn lemma_leads_beyond(bytes: Seq<u8>, idx: int)
    ensures
        leads_before(bytes, idx) == leads_before(
            bytes,
            if idx < bytes.len() {
                idx
            } else {
                bytes.len() as int
            },
        ),
    decreases idx,
{
    if idx > bytes.len() {
        lemma_leads_beyond(bytes, idx - 1);
    }
}

impl ParsedSpan {
    /// The input text the span points into.
    pub fn to_input(&self) -> (r: String)
        ensures
            r@ == self.input@,
    {
        self.input.clone()
    }

    /// Convert to a character range for a renderer that wants character
    /// positions rather than byte offsets.
    pub fn as_char_range(&self) -> (r: (usize, usize))
        requires
            vstd::utf8::encode_utf8(self.input@).len() < usize::MAX / 2,
        ensures
            r.0 == char_idx_s(vstd::utf8::encode_utf8(self.input@), self.start as int),
            r.1 == char_idx_s(vstd::utf8::encode_utf8(self.input@), self.end as int),
    {
        (
            char_idx_from_byte_idx(self.input.as_str(), self.start),
            char_idx_from_byte_idx(self.input.as_str(), self.end),
        )
    }
}

impl Span {
    /// A parsed span over the given input and byte range.
    pub fn make(input: String, start: usize, end: usize) -> (r: Span)
        ensures
            r matches Span::Parsed(p) && p.input@ == input@ && p.start == start && p.end
                == end,
    {
        Span::Parsed(ParsedSpan { input, start, end })
    }

    /// The union of two parsed spans over the same input: the range
    /// covered by both plus anything between them.  Spans over different
    /// inputs, or synthetic spans, have no union.
    pub fn union(&self, other: &Span) -> (r: Span)
        requires
            self matches Span::Parsed(a) && (*other) matches Span::Parsed(b) && a.input@
                == b.input@,
        ensures
            (match (self, other) {
                (Span::Parsed(a), Span::Parsed(b)) => r matches Span::Parsed(p) && p.input@
                    == a.input@ && p.start == if a.start <= b.start {
                    a.start
                } else {
                    b.start
                } && p.end == if a.end >= b.end {
                    a.end
                } else {
                    b.end
                },
                _ => true,
            }),
    {
        match (self, other) {
            (Span::Parsed(a), Span::Parsed(b)) => Span::Parsed(
                ParsedSpan {
                    input: a.input.clone(),
                    start: if a.start <= b.start {
                        a.start
                    } else {
                        b.start
                    },
                    end: if a.end >= b.end {
                        a.end
                    } else {
                        b.end
                    },
                },
            ),
            _ => Span::Artificial,
        }
    }
}

} // verus!
