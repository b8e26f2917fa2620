//! Wavefront OBJ text: lines, tokens and the records a mesh is built from.
//!
//! Numbers of the floating-point kind are not interpreted here: a record keeps the
//! byte range of each such token, and whoever builds the vertex buffer reads them.
use vstd::prelude::*;

verus! {

/// Byte `b` is ASCII whitespace: tab, line feed, form feed, carriage return or space.
pub open spec fn is_ascii_ws(b: u8) -> bool {
    b == 9u8 || b == 10u8 || b == 12u8 || b == 13u8 || b == 32u8
}

/// A byte range `[start, end)` of the OBJ text.
#[derive(Clone, Copy, Debug, PartialEq, Eq)]
pub struct Span {
    pub start: usize,
    pub end: usize,
}

/// The bytes of `text` that `sp` covers.
pub open spec fn span_bytes(text: Seq<u8>, sp: Span) -> Seq<u8> {
    text.subrange(sp.start as int, sp.end as int)
}

/// The end of the line that starts at `i`: the index of the next line feed at or
/// after `i`, or the length of the text when there is none.
pub open spec fn line_end(text: Seq<u8>, i: int) -> int
    decreases text.len() - i,
{
    if i >= text.len() {
        text.len() as int
    } else if text[i] == 10u8 {
        i
    } else {
        line_end(text, i + 1)
    }
}

/// The tokens of `text[lo..hi)`: its maximal runs of non-whitespace bytes, in order.
pub open spec fn token_spans(text: Seq<u8>, lo: int, hi: int) -> Seq<Span>
    decreases hi - lo,
{
    if hi <= lo {
        Seq::empty()
    } else {
        let prev = token_spans(text, lo, hi - 1);
        if is_ascii_ws(text[hi - 1]) {
            prev
        } else if hi - 1 > lo && !is_ascii_ws(text[hi - 2]) {
            prev.update(prev.len() - 1, Span { start: prev.last().start, end: hi as usize })
        } else {
            prev.push(Span { start: (hi - 1) as usize, end: hi as usize })
        }
    }
}

pub proof fn lemma_line_end(text: Seq<u8>, i: int)
    requires
        0 <= i,
    ensures
        i <= text.len() ==> i <= line_end(text, i) <= text.len(),
        line_end(text, i) < text.len() ==> text[line_end(text, i)] == 10u8,
        forall|k: int| i <= k < line_end(text, i) ==> text[k] != 10u8,
    decreases text.len() - i,
{
    if i < text.len() && text[i] != 10u8 {
        lemma_line_end(text, i + 1);
    }
}

/// Every token lies inside `[lo, hi)`, is not empty, and tokens come in order;
/// a token that reaches up to `hi` is the last one.
pub proof fn lemma_token_spans(text: Seq<u8>, lo: int, hi: int)
    requires
        0 <= lo <= hi <= text.len(),
        hi <= usize::MAX,
    ensures
        forall|k: int|
            0 <= k < token_spans(text, lo, hi).len() ==> lo <= #[trigger] token_spans(text, lo, hi)[k].start
                < token_spans(text, lo, hi)[k].end <= hi,
        forall|k: int|
            0 <= k < token_spans(text, lo, hi).len() - 1 ==> #[trigger] token_spans(text, lo, hi)[k].end
                < token_spans(text, lo, hi)[k + 1].start,
        forall|k: int|
            0 <= k < token_spans(text, lo, hi).len() ==> !is_ascii_ws(
                text[#[trigger] token_spans(text, lo, hi)[k].end - 1],
            ),
        hi > lo && !is_ascii_ws(text[hi - 1]) ==> token_spans(text, lo, hi).len() > 0
            && token_spans(text, lo, hi).last().end == hi,
        token_spans(text, lo, hi).len() > 0 ==> token_spans(text, lo, hi).last().end <= hi,
    decreases hi - lo,
{
    if hi > lo {
        lemma_token_spans(text, lo, hi - 1);
    }
}

/// The spans `ts` are the maximal runs of non-whitespace bytes of `text[lo..hi)`:
/// no whitespace inside one, whitespace or the range's end on each side of one,
/// and every other byte inside one.
#[verifier::opaque]
spec fn runs_ok(text: Seq<u8>, lo: int, hi: int, ts: Seq<Span>) -> bool {
    &&& forall|k: int, j: int|
        #![trigger ts[k], text[j]]
        0 <= k < ts.len() && ts[k].start <= j < ts[k].end ==> !is_ascii_ws(text[j])
    &&& forall|k: int| 0 <= k < ts.len() && lo < (#[trigger] ts[k]).start ==> is_ascii_ws(text[ts[k].start - 1])
    &&& forall|k: int| 0 <= k < ts.len() && (#[trigger] ts[k]).end < hi ==> is_ascii_ws(text[ts[k].end as int])
    &&& forall|j: int|
        lo <= j < hi && !is_ascii_ws(#[trigger] text[j]) ==> exists|k: int|
            0 <= k < ts.len() && (#[trigger] ts[k]).start <= j < ts[k].end
}

/// The spans lie in `[lo, hi)`, are not empty, come in order and end on a
/// non-whitespace byte.
#[verifier::opaque]
spec fn spans_in_order(text: Seq<u8>, lo: int, hi: int, ts: Seq<Span>) -> bool {
    &&& forall|k: int| 0 <= k < ts.len() ==> lo <= (#[trigger] ts[k]).start < ts[k].end <= hi
    &&& forall|k: int| 0 <= k < ts.len() - 1 ==> (#[trigger] ts[k]).end < ts[k + 1].start
    &&& forall|k: int| 0 <= k < ts.len() ==> !is_ascii_ws(text[(#[trigger] ts[k]).end - 1])
}

/// A whitespace byte adds no token.
proof fn lemma_runs_skip(text: Seq<u8>, lo: int, hi: int, prev: Seq<Span>)
    requires
        0 <= lo < hi <= text.len(),
        runs_ok(text, lo, hi - 1, prev),
        spans_in_order(text, lo, hi - 1, prev),
        is_ascii_ws(text[hi - 1]),
    ensures
        runs_ok(text, lo, hi, prev),
{
    reveal(runs_ok);
    reveal(spans_in_order);
    assert forall|j: int| lo <= j < hi && !is_ascii_ws(#[trigger] text[j]) implies exists|k: int|
        0 <= k < prev.len() && (#[trigger] prev[k]).start <= j < prev[k].end by {
        assert(j < hi - 1);
    }
}

/// A non-whitespace byte after another one extends the last token.
proof fn lemma_runs_extend(text: Seq<u8>, lo: int, hi: int, prev: Seq<Span>)
    requires
        0 <= lo < hi <= text.len(),
        hi <= usize::MAX,
        runs_ok(text, lo, hi - 1, prev),
        spans_in_order(text, lo, hi - 1, prev),
        prev.len() > 0,
        prev.last().end == hi - 1,
        !is_ascii_ws(text[hi - 1]),
    ensures
        runs_ok(text, lo, hi, prev.update(prev.len() - 1, Span { start: prev.last().start, end: hi as usize })),
{
    reveal(runs_ok);
    reveal(spans_in_order);
    let n = prev.len() - 1;
    let ts = prev.update(n, Span { start: prev.last().start, end: hi as usize });
    assert forall|k: int, j: int|
        #![trigger ts[k], text[j]]
        0 <= k < ts.len() && ts[k].start <= j < ts[k].end implies !is_ascii_ws(text[j]) by {
        if !(k == n && j == hi - 1) {
            assert(prev[k].start <= j < prev[k].end);
        }
    }
    assert forall|k: int| 0 <= k < ts.len() && lo < (#[trigger] ts[k]).start implies is_ascii_ws(
        text[ts[k].start - 1],
    ) by {
        assert(ts[k].start == prev[k].start);
    }
    assert forall|k: int| 0 <= k < ts.len() && (#[trigger] ts[k]).end < hi implies is_ascii_ws(
        text[ts[k].end as int],
    ) by {
        assert(ts[k] == prev[k]);
        assert(prev[k].end < prev[k + 1].start);
    }
    assert forall|j: int| lo <= j < hi && !is_ascii_ws(#[trigger] text[j]) implies exists|k: int|
        0 <= k < ts.len() && (#[trigger] ts[k]).start <= j < ts[k].end by {
        if j == hi - 1 {
            assert(ts[n].start <= j < ts[n].end);
        } else {
            let k = choose|k: int| 0 <= k < prev.len() && (#[trigger] prev[k]).start <= j < prev[k].end;
            assert(ts[k].start <= j < ts[k].end);
        }
    }
}

/// A non-whitespace byte after whitespace, or at the start, begins a new token.
proof fn lemma_runs_push(text: Seq<u8>, lo: int, hi: int, prev: Seq<Span>)
    requires
        0 <= lo < hi <= text.len(),
        hi <= usize::MAX,
        runs_ok(text, lo, hi - 1, prev),
        spans_in_order(text, lo, hi - 1, prev),
        !is_ascii_ws(text[hi - 1]),
        hi - 1 == lo || is_ascii_ws(text[hi - 2]),
    ensures
        runs_ok(text, lo, hi, prev.push(Span { start: (hi - 1) as usize, end: hi as usize })),
{
    reveal(runs_ok);
    reveal(spans_in_order);
    let n = prev.len() as int;
    let ts = prev.push(Span { start: (hi - 1) as usize, end: hi as usize });
    assert(ts[n].start == hi - 1 && ts[n].end == hi);
    assert forall|k: int, j: int|
        #![trigger ts[k], text[j]]
        0 <= k < ts.len() && ts[k].start <= j < ts[k].end implies !is_ascii_ws(text[j]) by {
        if k < n {
            assert(ts[k] == prev[k]);
            assert(prev[k].start <= j < prev[k].end);
        } else {
            assert(ts[k] == Span { start: (hi - 1) as usize, end: hi as usize });
            assert(j == hi - 1);
        }
    }
    assert forall|k: int| 0 <= k < ts.len() && lo < (#[trigger] ts[k]).start implies is_ascii_ws(
        text[ts[k].start - 1],
    ) by {
        if k < n {
            assert(ts[k] == prev[k]);
        } else {
            assert(ts[k] == Span { start: (hi - 1) as usize, end: hi as usize });
        }
    }
    assert forall|k: int| 0 <= k < ts.len() && (#[trigger] ts[k]).end < hi implies is_ascii_ws(
        text[ts[k].end as int],
    ) by {
        assert(ts[k] == prev[k]);
        if prev[k].end == hi - 1 {
            assert(!is_ascii_ws(text[prev[k].end - 1]));
        }
    }
    assert forall|j: int| lo <= j < hi && !is_ascii_ws(#[trigger] text[j]) implies exists|k: int|
        0 <= k < ts.len() && (#[trigger] ts[k]).start <= j < ts[k].end by {
        if j == hi - 1 {
            assert(ts[n].start <= j < ts[n].end);
        } else {
            let k = choose|k: int| 0 <= k < prev.len() && (#[trigger] prev[k]).start <= j < prev[k].end;
            assert(ts[k] == prev[k]);
        }
    }
}

/// The facts of `lemma_token_spans` that the steps below need.
proof fn lemma_spans_in_order(text: Seq<u8>, lo: int, hi: int)
    requires
        0 <= lo <= hi <= text.len(),
        hi <= usize::MAX,
    ensures
        spans_in_order(text, lo, hi, token_spans(text, lo, hi)),
        hi > lo && !is_ascii_ws(text[hi - 1]) ==> token_spans(text, lo, hi).len() > 0
            && token_spans(text, lo, hi).last().end == hi,
{
    lemma_token_spans(text, lo, hi);
    reveal(spans_in_order);
}

/// The tokens of `text[lo..hi)` are its maximal runs of non-whitespace bytes.
proof fn lemma_token_runs(text: Seq<u8>, lo: int, hi: int)
    requires
        0 <= lo <= hi <= text.len(),
        hi <= usize::MAX,
    ensures
        runs_ok(text, lo, hi, token_spans(text, lo, hi)),
    decreases hi - lo,
{
    if hi > lo {
        lemma_token_runs(text, lo, hi - 1);
        lemma_spans_in_order(text, lo, hi - 1);
        let prev = token_spans(text, lo, hi - 1);
        if is_ascii_ws(text[hi - 1]) {
            lemma_runs_skip(text, lo, hi, prev);
        } else if hi - 1 > lo && !is_ascii_ws(text[hi - 2]) {
            lemma_runs_extend(text, lo, hi, prev);
        } else {
            lemma_runs_push(text, lo, hi, prev);
        }
    } else {
        reveal(runs_ok);
    }
}

/// Law: the tokens of a line are exactly its maximal runs of bytes other than
/// ASCII whitespace (tab 9, line feed 10, form feed 12, carriage return 13 and
/// space 32), as `str::split_ascii_whitespace` gives them. No token holds such a
/// byte (so a line ending in carriage return and line feed ends its last token
/// before the carriage return), a token is bounded by such a byte or by the ends
/// of the line, and every other byte of the line is in a token; a carriage
/// return at the end of a line changes none of its tokens.
pub proof fn lemma_tokens_split_ascii_whitespace(text: Seq<u8>, lo: int, hi: int)
    requires
        0 <= lo <= hi <= text.len(),
        hi <= usize::MAX,
    ensures
        forall|k: int, j: int|
            #![trigger token_spans(text, lo, hi)[k], text[j]]
            0 <= k < token_spans(text, lo, hi).len() && token_spans(text, lo, hi)[k].start <= j
                < token_spans(text, lo, hi)[k].end ==> !(text[j] == 9u8 || text[j] == 10u8 || text[j]
                == 12u8 || text[j] == 13u8 || text[j] == 32u8),
        forall|k: int|
            0 <= k < token_spans(text, lo, hi).len() && lo < #[trigger] token_spans(text, lo, hi)[k].start
                ==> {
                let b = text[token_spans(text, lo, hi)[k].start - 1];
                b == 9u8 || b == 10u8 || b == 12u8 || b == 13u8 || b == 32u8
            },
        forall|k: int|
            0 <= k < token_spans(text, lo, hi).len() && #[trigger] token_spans(text, lo, hi)[k].end < hi
                ==> {
                let b = text[token_spans(text, lo, hi)[k].end as int];
                b == 9u8 || b == 10u8 || b == 12u8 || b == 13u8 || b == 32u8
            },
        forall|j: int|
            lo <= j < hi && !(#[trigger] text[j] == 9u8 || text[j] == 10u8 || text[j] == 12u8
                || text[j] == 13u8 || text[j] == 32u8) ==> exists|k: int|
                0 <= k < token_spans(text, lo, hi).len() && #[trigger] token_spans(text, lo, hi)[k].start
                    <= j < token_spans(text, lo, hi)[k].end,
        lo < hi && text[hi - 1] == 13u8 ==> token_spans(text, lo, hi) == token_spans(text, lo, hi - 1),
{
    lemma_token_runs(text, lo, hi);
    reveal(runs_ok);
}

/// Byte `b` is an ASCII decimal digit.
pub open spec fn is_digit(b: u8) -> bool {
    48u8 <= b <= 57u8
}

/// The value of a string of decimal digits.
pub open spec fn digits_value(d: Seq<u8>) -> int
    decreases d.len(),
{
    if d.len() == 0 {
        0
    } else {
        digits_value(d.drop_last()) * 10 + (d.last() - 48u8)
    }
}

/// The digits of an unsigned number: the text without one leading `+`.
pub open spec fn unsigned_digits(s: Seq<u8>) -> Seq<u8> {
    if s.len() > 0 && s[0] == 43u8 {
        s.drop_first()
    } else {
        s
    }
}

/// `s` read as a `usize` the way Rust's `str::parse::<usize>` reads it: an optional
/// `+`, then at least one decimal digit and nothing else, with a value that fits.
pub open spec fn parse_usize(s: Seq<u8>) -> Option<int> {
    let d = unsigned_digits(s);
    if d.len() > 0 && (forall|i: int| 0 <= i < d.len() ==> is_digit(#[trigger] d[i])) && digits_value(d)
        <= usize::MAX {
        Some(digits_value(d))
    } else {
        None
    }
}

/// The parts of `text[lo..hi)` between slashes, as `str::split('/')` yields them:
/// always at least one, possibly empty.
pub open spec fn slash_parts(text: Seq<u8>, lo: int, hi: int) -> Seq<Span>
    decreases hi - lo,
{
    if hi <= lo {
        seq![Span { start: lo as usize, end: lo as usize }]
    } else {
        let prev = slash_parts(text, lo, hi - 1);
        if text[hi - 1] == 47u8 {
            prev.push(Span { start: hi as usize, end: hi as usize })
        } else {
            prev.update(prev.len() - 1, Span { start: prev.last().start, end: hi as usize })
        }
    }
}

/// The zero-based index in the `k`-th slash-separated field of a face token:
/// the field must hold a positive number, which counts from one.
pub open spec fn face_field(text: Seq<u8>, sp: Span, k: int) -> Option<int> {
    let parts = slash_parts(text, sp.start as int, sp.end as int);
    if 0 <= k < parts.len() {
        match parse_usize(span_bytes(text, parts[k])) {
            Some(v) => if v >= 1 {
                Some(v - 1)
            } else {
                None
            },
            None => None,
        }
    } else {
        None
    }
}

proof fn lemma_digits_value_nonneg(d: Seq<u8>)
    requires
        forall|i: int| 0 <= i < d.len() ==> is_digit(#[trigger] d[i]),
    ensures
        digits_value(d) >= 0,
    decreases d.len(),
{
    if d.len() > 0 {
        lemma_digits_value_nonneg(d.drop_last());
    }
}

/// A prefix of a digit string never has a larger value than the whole string.
proof fn lemma_digits_value_monotone(d: Seq<u8>, n: int)
    requires
        0 <= n <= d.len(),
        forall|i: int| 0 <= i < d.len() ==> is_digit(#[trigger] d[i]),
    ensures
        digits_value(d.take(n)) <= digits_value(d),
    decreases d.len() - n,
{
    if n < d.len() {
        lemma_digits_value_monotone(d, n + 1);
        assert(d.take(n + 1).drop_last() =~= d.take(n));
        lemma_digits_value_nonneg(d.take(n));
    } else {
        assert(d.take(n) =~= d);
    }
}

proof fn lemma_slash_parts(text: Seq<u8>, lo: int, hi: int)
    requires
        0 <= lo <= hi <= text.len(),
        hi <= usize::MAX,
    ensures
        slash_parts(text, lo, hi).len() >= 1,
        forall|k: int|
            0 <= k < slash_parts(text, lo, hi).len() ==> lo <= #[trigger] slash_parts(text, lo, hi)[k].start
                <= slash_parts(text, lo, hi)[k].end <= hi,
        slash_parts(text, lo, hi).last().end == hi,
    decreases hi - lo,
{
    if hi > lo {
        lemma_slash_parts(text, lo, hi - 1);
    }
}

/// Reads `text[lo..hi)` as a `usize`.
fn parse_usize_at(text: &[u8], lo: usize, hi: usize) -> (r: Option<usize>)
    requires
        lo <= hi <= text@.len(),
    ensures
        match r {
            Some(v) => parse_usize(text@.subrange(lo as int, hi as int)) == Some(v as int),
            None => parse_usize(text@.subrange(lo as int, hi as int)) is None,
        },
{
    let ghost s = text@.subrange(lo as int, hi as int);
    let mut start = lo;
    if lo < hi && text[lo] == 43u8 {
        start = lo + 1;
    }
    let ghost d = text@.subrange(start as int, hi as int);
    assert(d =~= unsigned_digits(s));
    if start == hi {
        assert(d.len() == 0);
        assert(parse_usize(s) is None);
        return None;
    }
    let mut value: usize = 0;
    let mut i = start;
    while i < hi
        invariant
            lo <= start <= i <= hi <= text@.len(),
            d == text@.subrange(start as int, hi as int),
            s == text@.subrange(lo as int, hi as int),
            d == unsigned_digits(s),
            forall|j: int| 0 <= j < i - start ==> is_digit(#[trigger] d[j]),
            value == digits_value(d.take(i - start)),
        decreases hi - i,
    {
        let b = text[i];
        if !(48u8 <= b && b <= 57u8) {
            assert(d[i - start] == b);
            assert(!is_digit(d[i - start]));
            assert(parse_usize(s) is None);
            return None;
        }
        let ghost k = i - start;
        assert(d.take(k + 1).drop_last() =~= d.take(k));
        assert(d.take(k + 1).last() == b);
        if value > (usize::MAX - (b - 48u8) as usize) / 10 {
            proof {
                assert(digits_value(d.take(k + 1)) > usize::MAX);
                if forall|j: int| 0 <= j < d.len() ==> is_digit(#[trigger] d[j]) {
                    lemma_digits_value_monotone(d, k + 1);
                }
            }
            return None;
        }
        value = value * 10 + (b - 48u8) as usize;
        i = i + 1;
    }
    assert(d.take(d.len() as int) =~= d);
    Some(value)
}

/// The parts of `text[lo..hi)` between slashes.
fn split_slashes(text: &[u8], lo: usize, hi: usize) -> (parts: Vec<Span>)
    requires
        lo <= hi <= text@.len(),
    ensures
        parts@ == slash_parts(text@, lo as int, hi as int),
{
    let mut parts: Vec<Span> = Vec::new();
    parts.push(Span { start: lo, end: lo });
    let mut i = lo;
    while i < hi
        invariant
            lo <= i <= hi <= text@.len(),
            parts@ == slash_parts(text@, lo as int, i as int),
        decreases hi - i,
    {
        proof {
            lemma_slash_parts(text@, lo as int, i as int);
        }
        if text[i] == 47u8 {
            parts.push(Span { start: i + 1, end: i + 1 });
        } else {
            let last = parts.len() - 1;
            let first = parts[last].start;
            parts.set(last, Span { start: first, end: i + 1 });
        }
        i = i + 1;
    }
    parts
}

/// The zero-based index in the `k`-th field of the face token `sp`.
fn read_face_field(text: &[u8], sp: Span, k: usize) -> (r: Option<usize>)
    requires
        sp.start <= sp.end <= text@.len(),
    ensures
        match r {
            Some(v) => face_field(text@, sp, k as int) == Some(v as int),
            None => face_field(text@, sp, k as int) is None,
        },
{
    let parts = split_slashes(text, sp.start, sp.end);
    proof {
        lemma_slash_parts(text@, sp.start as int, sp.end as int);
    }
    if k >= parts.len() {
        return None;
    }
    let part = parts[k];
    match parse_usize_at(text, part.start, part.end) {
        Some(v) => if v >= 1 {
            Some(v - 1)
        } else {
            None
        },
        None => None,
    }
}

/// A vertex as the OBJ text gives it: the tokens of its three coordinates, and the
/// normal and texture coordinate that faces attached to it (by their index in the
/// lists of normals and texture coordinates), if any.
#[derive(Clone, Copy, Debug)]
pub struct ObjVertexRef {
    pub x: Span,
    pub y: Span,
    pub z: Span,
    pub normal: Option<usize>,
    pub texcoord: Option<usize>,
}

/// The tokens of a texture coordinate (`vt u v`).
#[derive(Clone, Copy, Debug)]
pub struct TexCoordRef {
    pub u: Span,
    pub v: Span,
}

/// The tokens of a normal (`vn x y z`).
#[derive(Clone, Copy, Debug)]
pub struct NormalRef {
    pub x: Span,
    pub y: Span,
    pub z: Span,
}

#[verifier::ext_equal]
/// What an OBJ text describes: vertices, texture coordinates, normals and the
/// triangle list (three vertex indices per face).
pub struct ObjModel {
    pub vertices: Seq<ObjVertexRef>,
    pub texcoords: Seq<TexCoordRef>,
    pub normals: Seq<NormalRef>,
    pub indices: Seq<u32>,
}

/// The records read from an OBJ text.
pub struct ObjMeshData {
    pub vertices: Vec<ObjVertexRef>,
    pub texcoords: Vec<TexCoordRef>,
    pub normals: Vec<NormalRef>,
    pub indices: Vec<u32>,
}

impl View for ObjMeshData {
    type V = ObjModel;

    open spec fn view(&self) -> ObjModel {
        ObjModel {
            vertices: self.vertices@,
            texcoords: self.texcoords@,
            normals: self.normals@,
            indices: self.indices@,
        }
    }
}

/// The model of an empty text.
pub open spec fn empty_model() -> ObjModel {
    ObjModel {
        vertices: Seq::empty(),
        texcoords: Seq::empty(),
        normals: Seq::empty(),
        indices: Seq::empty(),
    }
}

/// A span is a non-empty range inside a text of `len` bytes.
pub open spec fn span_in(sp: Span, len: int) -> bool {
    sp.start < sp.end <= len
}

/// Every token of the model lies in a text of `len` bytes, and every normal or
/// texture coordinate that a vertex refers to exists.
pub open spec fn model_wf(m: ObjModel, len: int) -> bool {
    &&& forall|i: int|
        0 <= i < m.vertices.len() ==> {
            let v = #[trigger] m.vertices[i];
            &&& span_in(v.x, len)
            &&& span_in(v.y, len)
            &&& span_in(v.z, len)
            &&& (v.normal matches Some(n) ==> n < m.normals.len())
            &&& (v.texcoord matches Some(t) ==> t < m.texcoords.len())
        }
    &&& forall|i: int|
        0 <= i < m.texcoords.len() ==> span_in((#[trigger] m.texcoords[i]).u, len) && span_in(
            m.texcoords[i].v,
            len,
        )
    &&& forall|i: int|
        0 <= i < m.normals.len() ==> {
            let n = #[trigger] m.normals[i];
            span_in(n.x, len) && span_in(n.y, len) && span_in(n.z, len)
        }
}

/// The indices that one corner of a face names: its vertex, and its texture
/// coordinate and normal where the model has any (else 0, unused). Which fields
/// are read depends only on whether texture coordinates and normals exist so far:
/// `p/t/n` with both, `p/t` with texture coordinates only, `p/n` with normals only,
/// `p` with neither.
pub open spec fn read_corner(text: Seq<u8>, sp: Span, has_tex: bool, has_nor: bool) -> Option<
    (int, int, int),
> {
    let pos = face_field(text, sp, 0);
    let tex = if has_tex {
        face_field(text, sp, 1)
    } else {
        Some(0)
    };
    let nor = if has_nor {
        face_field(
            text,
            sp,
            if has_tex {
                2
            } else {
                1
            },
        )
    } else {
        Some(0)
    };
    if pos is Some && tex is Some && nor is Some {
        Some((pos->0, tex->0, nor->0))
    } else {
        None
    }
}

/// Applies one corner of a face: the corner's vertex takes the named texture
/// coordinate and normal (when the model has any), and its index joins the triangle
/// list, cut to 32 bits. A named vertex, texture coordinate or normal that does not
/// exist makes the text invalid; with neither texture coordinates nor normals the
/// vertex is not looked up.
pub open spec fn apply_corner(m: ObjModel, c: (int, int, int), has_tex: bool, has_nor: bool) -> Option<
    ObjModel,
> {
    let (p, t, n) = c;
    if (has_tex || has_nor) && p >= m.vertices.len() {
        None
    } else if has_tex && t >= m.texcoords.len() {
        None
    } else if has_nor && n >= m.normals.len() {
        None
    } else {
        let vertices = if has_tex || has_nor {
            let old = m.vertices[p];
            m.vertices.update(
                p,
                ObjVertexRef {
                    x: old.x,
                    y: old.y,
                    z: old.z,
                    normal: if has_nor {
                        Some(n as usize)
                    } else {
                        old.normal
                    },
                    texcoord: if has_tex {
                        Some(t as usize)
                    } else {
                        old.texcoord
                    },
                },
            )
        } else {
            m.vertices
        };
        Some(
            ObjModel {
                vertices: vertices,
                texcoords: m.texcoords,
                normals: m.normals,
                indices: m.indices.push(p as u32),
            },
        )
    }
}

/// Reads and applies the corner token `sp`.
pub open spec fn face_corner(m: ObjModel, text: Seq<u8>, sp: Span, has_tex: bool, has_nor: bool) -> Option<
    ObjModel,
> {
    match read_corner(text, sp, has_tex, has_nor) {
        Some(c) => apply_corner(m, c, has_tex, has_nor),
        None => None,
    }
}

/// Applies a face line `f a b c ...`: its first three corners, in order; further
/// tokens are ignored and fewer than three make the text invalid.
pub open spec fn apply_face(m: ObjModel, text: Seq<u8>, ts: Seq<Span>) -> Option<ObjModel> {
    if ts.len() < 4 {
        None
    } else {
        let has_tex = m.texcoords.len() > 0;
        let has_nor = m.normals.len() > 0;
        match face_corner(m, text, ts[1], has_tex, has_nor) {
            None => None,
            Some(m1) => match face_corner(m1, text, ts[2], has_tex, has_nor) {
                None => None,
                Some(m2) => face_corner(m2, text, ts[3], has_tex, has_nor),
            },
        }
    }
}

/// Applies the line whose tokens are `ts`: `v x y z` adds a vertex, `vt u v` a
/// texture coordinate, `vn x y z` a normal, `f` a face; any other line, and an empty
/// one, changes nothing. A line that lacks a token it needs makes the text invalid.
pub open spec fn apply_line(m: ObjModel, text: Seq<u8>, ts: Seq<Span>) -> Option<ObjModel> {
    if ts.len() == 0 {
        Some(m)
    } else {
        let key = span_bytes(text, ts[0]);
        if key == seq![118u8] {
            if ts.len() >= 4 {
                Some(
                    ObjModel {
                        vertices: m.vertices.push(
                            ObjVertexRef { x: ts[1], y: ts[2], z: ts[3], normal: None, texcoord: None },
                        ),
                        ..m
                    },
                )
            } else {
                None
            }
        } else if key == seq![118u8, 116u8] {
            if ts.len() >= 3 {
                Some(ObjModel { texcoords: m.texcoords.push(TexCoordRef { u: ts[1], v: ts[2] }), ..m })
            } else {
                None
            }
        } else if key == seq![118u8, 110u8] {
            if ts.len() >= 4 {
                Some(ObjModel { normals: m.normals.push(NormalRef { x: ts[1], y: ts[2], z: ts[3] }), ..m })
            } else {
                None
            }
        } else if key == seq![102u8] {
            apply_face(m, text, ts)
        } else {
            Some(m)
        }
    }
}

/// Applies the lines of `text` from position `pos` on to `m`; `None` when a line
/// is invalid.
pub open spec fn parse_from(text: Seq<u8>, pos: int, m: ObjModel) -> Option<ObjModel>
    decreases text.len() + 1 - pos,
    via parse_from_decreases
{
    if pos < 0 || pos >= text.len() {
        Some(m)
    } else {
        let e = line_end(text, pos);
        match apply_line(m, text, token_spans(text, pos, e)) {
            None => None,
            Some(m2) => parse_from(text, e + 1, m2),
        }
    }
}

#[via_fn]
proof fn parse_from_decreases(text: Seq<u8>, pos: int, m: ObjModel) {
    if 0 <= pos && pos < text.len() {
        lemma_line_end(text, pos);
    }
}

/// The model that an OBJ text describes, or `None` when it is invalid.
pub open spec fn parse_obj_text(text: Seq<u8>) -> Option<ObjModel> {
    parse_from(text, 0, empty_model())
}

/// Index of the end of the line starting at `start`.
fn find_line_end(text: &[u8], start: usize) -> (e: usize)
    requires
        start <= text@.len(),
    ensures
        e == line_end(text@, start as int),
{
    let mut i = start;
    while i < text.len() && text[i] != 10u8
        invariant
            start <= i <= text@.len(),
            line_end(text@, start as int) == line_end(text@, i as int),
        decreases text@.len() - i,
    {
        assert(line_end(text@, i as int) == line_end(text@, i as int + 1));
        i = i + 1;
    }
    i
}

/// The tokens of `text[lo..hi)`.
fn tokenize(text: &[u8], lo: usize, hi: usize) -> (tokens: Vec<Span>)
    requires
        lo <= hi <= text@.len(),
    ensures
        tokens@ == token_spans(text@, lo as int, hi as int),
{
    let mut tokens: Vec<Span> = Vec::new();
    let mut i = lo;
    while i < hi
        invariant
            lo <= i <= hi <= text@.len(),
            tokens@ == token_spans(text@, lo as int, i as int),
        decreases hi - i,
    {
        proof {
            lemma_token_spans(text@, lo as int, i as int);
        }
        let b = text[i];
        if b == 9u8 || b == 10u8 || b == 12u8 || b == 13u8 || b == 32u8 {
        } else if i > lo && !(text[i - 1] == 9u8 || text[i - 1] == 10u8 || text[i - 1] == 12u8
            || text[i - 1] == 13u8 || text[i - 1] == 32u8) {
            let last = tokens.len() - 1;
            let first = tokens[last].start;
            tokens.set(last, Span { start: first, end: i + 1 });
        } else {
            tokens.push(Span { start: i, end: i + 1 });
        }
        i = i + 1;
    }
    tokens
}

proof fn lemma_face_corner_wf(m: ObjModel, text: Seq<u8>, sp: Span, has_tex: bool, has_nor: bool)
    requires
        model_wf(m, text.len() as int),
    ensures
        face_corner(m, text, sp, has_tex, has_nor) matches Some(m2) ==> model_wf(m2, text.len() as int)
            && m2.normals == m.normals && m2.texcoords == m.texcoords
            && m2.vertices.len() == m.vertices.len() && m2.indices.len() == m.indices.len() + 1,
{
    if let Some(c) = read_corner(text, sp, has_tex, has_nor) {
        if let Some(m2) = apply_corner(m, c, has_tex, has_nor) {
            let (p, t, n) = c;
            assert forall|i: int| 0 <= i < m2.vertices.len() implies {
                let v = #[trigger] m2.vertices[i];
                &&& span_in(v.x, text.len() as int)
                &&& span_in(v.y, text.len() as int)
                &&& span_in(v.z, text.len() as int)
                &&& (v.normal matches Some(k) ==> k < m2.normals.len())
                &&& (v.texcoord matches Some(k) ==> k < m2.texcoords.len())
            } by {
                let v0 = m.vertices[i];
                assert(span_in(v0.x, text.len() as int));
            }
        }
    }
}

proof fn lemma_apply_line_wf(m: ObjModel, text: Seq<u8>, ts: Seq<Span>)
    requires
        model_wf(m, text.len() as int),
        forall|k: int| 0 <= k < ts.len() ==> span_in(#[trigger] ts[k], text.len() as int),
    ensures
        apply_line(m, text, ts) matches Some(m2) ==> model_wf(m2, text.len() as int) && (
        m2.indices.len() == m.indices.len() || m2.indices.len() == m.indices.len() + 3),
{
    if ts.len() > 0 {
        assert(span_in(ts[0], text.len() as int));
        if ts.len() >= 4 {
            assert(span_in(ts[1], text.len() as int));
            assert(span_in(ts[2], text.len() as int));
            assert(span_in(ts[3], text.len() as int));
        }
        if ts.len() >= 3 {
            assert(span_in(ts[1], text.len() as int));
            assert(span_in(ts[2], text.len() as int));
        }
        let key = span_bytes(text, ts[0]);
        if key == seq![102u8] && ts.len() >= 4 {
            let has_tex = m.texcoords.len() > 0;
            let has_nor = m.normals.len() > 0;
            lemma_face_corner_wf(m, text, ts[1], has_tex, has_nor);
            if let Some(m1) = face_corner(m, text, ts[1], has_tex, has_nor) {
                lemma_face_corner_wf(m1, text, ts[2], has_tex, has_nor);
                if let Some(m2) = face_corner(m1, text, ts[2], has_tex, has_nor) {
                    lemma_face_corner_wf(m2, text, ts[3], has_tex, has_nor);
                }
            }
        }
    }
}

impl ObjMeshData {
    fn new_empty() -> (d: ObjMeshData)
        ensures
            d@ == empty_model(),
    {
        let d = ObjMeshData {
            vertices: Vec::new(),
            texcoords: Vec::new(),
            normals: Vec::new(),
            indices: Vec::new(),
        };
        assert(d@ =~= empty_model());
        d
    }

    /// Reads and applies the face corner `sp`; `false` when it is invalid.
    fn apply_corner(&mut self, text: &[u8], sp: Span, has_tex: bool, has_nor: bool) -> (ok: bool)
        requires
            sp.start <= sp.end <= text@.len(),
        ensures
            match face_corner(old(self)@, text@, sp, has_tex, has_nor) {
                Some(m) => ok && final(self)@ == m,
                None => !ok,
            },
    {
        let pos = read_face_field(text, sp, 0);
        let tex = if has_tex {
            read_face_field(text, sp, 1)
        } else {
            Some(0)
        };
        let nor = if has_nor {
            read_face_field(
                text,
                sp,
                if has_tex {
                    2
                } else {
                    1
                },
            )
        } else {
            Some(0)
        };
        let (p, t, n) = match (pos, tex, nor) {
            (Some(p), Some(t), Some(n)) => (p, t, n),
            _ => {
                return false;
            },
        };
        assert(read_corner(text@, sp, has_tex, has_nor) == Some((p as int, t as int, n as int)));
        if (has_tex || has_nor) && p >= self.vertices.len() {
            return false;
        }
        if has_tex && t >= self.texcoords.len() {
            return false;
        }
        if has_nor && n >= self.normals.len() {
            return false;
        }
        let ghost m = old(self)@;
        if has_tex || has_nor {
            let old_vertex = self.vertices[p];
            let updated = ObjVertexRef {
                x: old_vertex.x,
                y: old_vertex.y,
                z: old_vertex.z,
                normal: if has_nor {
                    Some(n)
                } else {
                    old_vertex.normal
                },
                texcoord: if has_tex {
                    Some(t)
                } else {
                    old_vertex.texcoord
                },
            };
            self.vertices.set(p, updated);
        }
        self.indices.push(p as u32);
        proof {
            let m2 = apply_corner(m, (p as int, t as int, n as int), has_tex, has_nor).unwrap();
            assert(self@.vertices =~= m2.vertices);
            assert(self@.indices =~= m2.indices);
            assert(self@ =~= m2);
        }
        true
    }

    /// Applies a face line; `false` when it is invalid.
    fn apply_face(&mut self, text: &[u8], ts: &Vec<Span>) -> (ok: bool)
        requires
            forall|k: int| 0 <= k < ts@.len() ==> (#[trigger] ts@[k]).start <= ts@[k].end <= text@.len(),
        ensures
            match apply_face(old(self)@, text@, ts@) {
                Some(m) => ok && final(self)@ == m,
                None => !ok,
            },
    {
        if ts.len() < 4 {
            return false;
        }
        let has_tex = self.texcoords.len() > 0;
        let has_nor = self.normals.len() > 0;
        if !self.apply_corner(text, ts[1], has_tex, has_nor) {
            return false;
        }
        if !self.apply_corner(text, ts[2], has_tex, has_nor) {
            return false;
        }
        if !self.apply_corner(text, ts[3], has_tex, has_nor) {
            return false;
        }
        true
    }

    /// Applies the line whose tokens are `ts`; `false` when it is invalid.
    fn apply_line(&mut self, text: &[u8], ts: &Vec<Span>) -> (ok: bool)
        requires
            forall|k: int| 0 <= k < ts@.len() ==> span_in(#[trigger] ts@[k], text@.len() as int),
        ensures
            match apply_line(old(self)@, text@, ts@) {
                Some(m) => ok && final(self)@ == m,
                None => !ok,
            },
    {
        if ts.len() == 0 {
            return true;
        }
        let key = ts[0];
        assert(span_in(ts@[0], text@.len() as int));
        let key_len = key.end - key.start;
        let ghost kb = span_bytes(text@, key);
        let first = text[key.start];
        assert(kb[0] == first);
        if key_len == 1 && first == 118u8 {
            assert(kb =~= seq![118u8]);
            if ts.len() >= 4 {
                self.vertices.push(
                    ObjVertexRef { x: ts[1], y: ts[2], z: ts[3], normal: None, texcoord: None },
                );
                return true;
            }
            return false;
        }
        assert(kb != seq![118u8]) by {
            if kb == seq![118u8] {
                assert(kb.len() == 1);
                assert(kb[0] == 118u8);
            }
        }
        if key_len == 2 && first == 118u8 && text[key.start + 1] == 116u8 {
            assert(kb =~= seq![118u8, 116u8]);
            if ts.len() >= 3 {
                self.texcoords.push(TexCoordRef { u: ts[1], v: ts[2] });
                return true;
            }
            return false;
        }
        assert(kb != seq![118u8, 116u8]) by {
            if kb == seq![118u8, 116u8] {
                assert(kb.len() == 2);
                assert(kb[0] == 118u8);
                assert(kb[1] == 116u8);
                assert(kb[1] == text@[key.start + 1]);
            }
        }
        if key_len == 2 && first == 118u8 && text[key.start + 1] == 110u8 {
            assert(kb =~= seq![118u8, 110u8]);
            if ts.len() >= 4 {
                self.normals.push(NormalRef { x: ts[1], y: ts[2], z: ts[3] });
                return true;
            }
            return false;
        }
        assert(kb != seq![118u8, 110u8]) by {
            if kb == seq![118u8, 110u8] {
                assert(kb.len() == 2);
                assert(kb[0] == 118u8);
                assert(kb[1] == 110u8);
                assert(kb[1] == text@[key.start + 1]);
            }
        }
        if key_len == 1 && first == 102u8 {
            assert(kb =~= seq![102u8]);
            assert forall|k: int| 0 <= k < ts@.len() implies (#[trigger] ts@[k]).start <= ts@[k].end
                <= text@.len() by {
                assert(span_in(ts@[k], text@.len() as int));
            }
            return self.apply_face(text, ts);
        }
        assert(kb != seq![102u8]) by {
            if kb == seq![102u8] {
                assert(kb.len() == 1);
                assert(kb[0] == 102u8);
            }
        }
        true
    }
}

/// Reads the records of an OBJ text: vertices (`v`), texture coordinates (`vt`),
/// normals (`vn`) and triangles (`f`), line by line in the order they come.
///
/// `None` when a line lacks a token it needs, a face field is not a positive
/// number, or a face names a vertex, texture coordinate or normal that has not
/// been given before it (the vertex is looked up only when the text has given
/// texture coordinates or normals before the face).
pub fn parse_obj(text: &[u8]) -> (res: Option<ObjMeshData>)
    ensures
        match parse_obj_text(text@) {
            Some(m) => res is Some && res->0@ == m,
            None => res is None,
        },
        res matches Some(d) ==> model_wf(d@, text@.len() as int),
        res matches Some(d) ==> d@.indices.len() % 3 == 0,
{
    let mut data = ObjMeshData::new_empty();
    let mut pos: usize = 0;
    while pos < text.len()
        invariant
            pos <= text@.len(),
            parse_obj_text(text@) == parse_from(text@, pos as int, data@),
            model_wf(data@, text@.len() as int),
            data@.indices.len() % 3 == 0,
        decreases text@.len() - pos,
    {
        let e = find_line_end(text, pos);
        proof {
            lemma_line_end(text@, pos as int);
        }
        let ts = tokenize(text, pos, e);
        proof {
            lemma_token_spans(text@, pos as int, e as int);
        }
        let ghost before = data@;
        if !data.apply_line(text, &ts) {
            return None;
        }
        proof {
            lemma_apply_line_wf(before, text@, ts@);
        }
        if e >= text.len() {
            assert(parse_from(text@, e + 1, data@) == Some(data@));
            return Some(data);
        }
        pos = e + 1;
    }
    Some(data)
}

/// How an OBJ mesh is loaded.
#[derive(Debug, Clone)]
pub struct ObjMeshConfiguration {
    pub is_with_adjacency: bool,
    pub is_gen_tangents: bool,
    pub is_center: bool,
    pub is_print_load_message: bool,
}

/// The steps that follow the reading of an OBJ text, in this order.
#[derive(Debug, Clone, Copy)]
pub struct PostProcessing {
    /// Normals are computed from the triangles.
    pub generate_normals: bool,
    /// Tangents are computed from the texture coordinates.
    pub generate_tangents: bool,
    /// The mesh is moved so that the centre of its bounding box is the origin.
    pub center: bool,
    /// A summary of the loaded mesh is printed.
    pub print_load_message: bool,
}

/// The steps after reading, given the configuration and whether the text gave
/// normals. Normals are computed when the text gave none; tangents only when
/// asked for and adjacency is not. `None` when adjacency is asked for: that
/// conversion does not exist.
pub fn post_processing(config: &ObjMeshConfiguration, normals_given: bool) -> (plan: Option<PostProcessing>)
    ensures
        plan is None <==> config.is_with_adjacency,
        plan matches Some(p) ==> {
            &&& p.generate_normals == !normals_given
            &&& p.generate_tangents == config.is_gen_tangents
            &&& p.center == config.is_center
            &&& p.print_load_message == config.is_print_load_message
        },
{
    if config.is_with_adjacency {
        None
    } else {
        Some(
            PostProcessing {
                generate_normals: !normals_given,
                generate_tangents: config.is_gen_tangents,
                center: config.is_center,
                print_load_message: config.is_print_load_message,
            },
        )
    }
}

} // verus!
