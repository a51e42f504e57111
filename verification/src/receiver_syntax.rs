//! The receiver argument grammar.
//!
//! A receiver is written inside a string literal as `constructor -> Type`:
//! a path naming the receiver constructor expression, an arrow, and a path
//! naming the receiver type. A path is an optional leading `::` followed by
//! identifiers separated by `::`; blanks and tabs may stand around the
//! tokens. The grammar is stated by the `spec_parse_*` functions; the parser
//! is proved to decide it exactly.

use vstd::prelude::*;
use crate::ast::{bytes_range, MetaPath, SpecPath};
use crate::error::GenError;

verus! {

broadcast use vstd::seq::group_seq_axioms;

/// Blank bytes that may stand around tokens.
pub open spec fn spec_is_ws(b: u8) -> bool {
    b == ' ' as u8 || b == '\t' as u8
}

/// Bytes that may start an identifier.
pub open spec fn spec_is_ident_start(b: u8) -> bool {
    ('a' as u8 <= b && b <= 'z' as u8) || ('A' as u8 <= b && b <= 'Z' as u8) || b == '_' as u8
}

/// Bytes that may continue an identifier.
pub open spec fn spec_is_ident_continue(b: u8) -> bool {
    spec_is_ident_start(b) || ('0' as u8 <= b && b <= '9' as u8)
}

/// The first position at or after `i` that does not hold a blank.
pub open spec fn spec_skip_ws(s: Seq<u8>, i: int) -> int
    decreases s.len() - i,
{
    if i < s.len() && spec_is_ws(s[i]) {
        spec_skip_ws(s, i + 1)
    } else {
        i
    }
}

/// The first position at or after `i` that cannot continue an identifier.
pub open spec fn spec_ident_end(s: Seq<u8>, i: int) -> int
    decreases s.len() - i,
{
    if i < s.len() && spec_is_ident_continue(s[i]) {
        spec_ident_end(s, i + 1)
    } else {
        i
    }
}

/// Positions only move forward, and never past the end.
proof fn lemma_ident_end_bounds(s: Seq<u8>, i: int)
    requires
        0 <= i <= s.len(),
    ensures
        i <= spec_ident_end(s, i) <= s.len(),
    decreases s.len() - i,
{
    if i < s.len() && spec_is_ident_continue(s[i]) {
        lemma_ident_end_bounds(s, i + 1);
    }
}

/// The identifier segments of a path starting at `i`, with the position just
/// after the last one; nothing when no identifier starts at `i`.
pub open spec fn spec_parse_segments(s: Seq<u8>, i: int) -> Option<(Seq<Seq<u8>>, int)>
    decreases s.len() - i,
        via spec_parse_segments_dec
{
    if 0 <= i < s.len() && spec_is_ident_start(s[i]) {
        let e = spec_ident_end(s, i + 1);
        let seg = s.subrange(i, e);
        if e + 1 < s.len() && s[e] == ':' as u8 && s[e + 1] == ':' as u8 {
            match spec_parse_segments(s, e + 2) {
                Option::None => Option::None,
                Option::Some((segs, j)) => Option::Some((seq![seg] + segs, j)),
            }
        } else {
            Option::Some((seq![seg], e))
        }
    } else {
        Option::None
    }
}

#[via_fn]
proof fn spec_parse_segments_dec(s: Seq<u8>, i: int) {
    if 0 <= i < s.len() && spec_is_ident_start(s[i]) {
        lemma_ident_end_bounds(s, i + 1);
    }
}

/// A whole path starting at `i`: an optional leading `::`, then segments.
pub open spec fn spec_parse_path(s: Seq<u8>, i: int) -> Option<(SpecPath, int)> {
    if 0 <= i && i + 1 < s.len() && s[i] == ':' as u8 && s[i + 1] == ':' as u8 {
        match spec_parse_segments(s, i + 2) {
            Option::None => Option::None,
            Option::Some((segs, j)) => Option::Some(
                (SpecPath { leading_colon: true, segments: segs }, j),
            ),
        }
    } else {
        match spec_parse_segments(s, i) {
            Option::None => Option::None,
            Option::Some((segs, j)) => Option::Some(
                (SpecPath { leading_colon: false, segments: segs }, j),
            ),
        }
    }
}

/// The whole receiver text: a constructor path, `->`, a type path, with
/// optional blanks around each token and nothing else before the end.
pub open spec fn spec_parse_receiver(s: Seq<u8>) -> Option<(SpecPath, SpecPath)> {
    let i0 = spec_skip_ws(s, 0);
    match spec_parse_path(s, i0) {
        Option::None => Option::None,
        Option::Some((expr, i1)) => {
            let i2 = spec_skip_ws(s, i1);
            if i2 + 1 < s.len() && s[i2] == '-' as u8 && s[i2 + 1] == '>' as u8 {
                let i3 = spec_skip_ws(s, i2 + 2);
                match spec_parse_path(s, i3) {
                    Option::None => Option::None,
                    Option::Some((ty, i4)) => {
                        let i5 = spec_skip_ws(s, i4);
                        if i5 == s.len() {
                            Option::Some((expr, ty))
                        } else {
                            Option::None
                        }
                    },
                }
            } else {
                Option::None
            }
        },
    }
}

/// True when `s` is a well-formed plain identifier.
pub open spec fn spec_is_ident_text(s: Seq<u8>) -> bool {
    &&& s.len() > 0
    &&& spec_is_ident_start(s[0])
    &&& forall|k: int| 1 <= k < s.len() ==> spec_is_ident_continue(#[trigger] s[k])
}

/// True when `s` is a well-formed plain identifier.
pub fn is_ident_text(s: &Vec<u8>) -> (r: bool)
    ensures
        r == spec_is_ident_text(s@),
{
    if s.len() == 0 {
        return false;
    }
    let b0 = s[0];
    let start_ok = ('a' as u8 <= b0 && b0 <= 'z' as u8) || ('A' as u8 <= b0 && b0 <= 'Z' as u8)
        || b0 == '_' as u8;
    if !start_ok {
        return false;
    }
    let n: usize = s.len();
    let mut i: usize = 1;
    while i < n
        invariant
            1 <= i <= n,
            n == s@.len(),
            forall|k: int| 1 <= k < i ==> spec_is_ident_continue(#[trigger] s@[k]),
        decreases n - i,
    {
        let b = s[i];
        let cont = ('a' as u8 <= b && b <= 'z' as u8) || ('A' as u8 <= b && b <= 'Z' as u8) || b
            == '_' as u8 || ('0' as u8 <= b && b <= '9' as u8);
        if !cont {
            return false;
        }
        i = i + 1;
    }
    true
}

/// Blank bytes that may stand around tokens.
fn is_ws(b: u8) -> (r: bool)
    ensures
        r == spec_is_ws(b),
{
    b == ' ' as u8 || b == '\t' as u8
}

/// Bytes that may start an identifier.
fn is_ident_start(b: u8) -> (r: bool)
    ensures
        r == spec_is_ident_start(b),
{
    ('a' as u8 <= b && b <= 'z' as u8) || ('A' as u8 <= b && b <= 'Z' as u8) || b == '_' as u8
}

/// Bytes that may continue an identifier.
fn is_ident_continue(b: u8) -> (r: bool)
    ensures
        r == spec_is_ident_continue(b),
{
    is_ident_start(b) || ('0' as u8 <= b && b <= '9' as u8)
}

/// Advances past blanks.
fn skip_ws(s: &Vec<u8>, i: usize) -> (r: usize)
    requires
        i <= s@.len(),
    ensures
        r == spec_skip_ws(s@, i as int),
        i <= r <= s@.len(),
{
    let mut j: usize = i;
    while j < s.len() && is_ws(s[j])
        invariant
            i <= j <= s@.len(),
            spec_skip_ws(s@, i as int) == spec_skip_ws(s@, j as int),
        decreases s@.len() - j,
    {
        j = j + 1;
    }
    j
}

/// Advances past identifier bytes.
fn ident_end(s: &Vec<u8>, i: usize) -> (r: usize)
    requires
        i <= s@.len(),
    ensures
        r == spec_ident_end(s@, i as int),
        i <= r <= s@.len(),
{
    let mut j: usize = i;
    while j < s.len() && is_ident_continue(s[j])
        invariant
            i <= j <= s@.len(),
            spec_ident_end(s@, i as int) == spec_ident_end(s@, j as int),
        decreases s@.len() - j,
    {
        j = j + 1;
    }
    j
}

/// The segment list of `v`, as the grammar's mathematical value.
pub open spec fn segs_view(v: Seq<Vec<u8>>) -> Seq<Seq<u8>> {
    Seq::new(v.len(), |k: int| v[k]@)
}

/// Reads the identifier segments of a path starting at `i`.
fn parse_segments(s: &Vec<u8>, i: usize) -> (r: Option<(Vec<Vec<u8>>, usize)>)
    requires
        i <= s@.len(),
    ensures
        match r {
            Option::Some((segs, j)) => {
                &&& spec_parse_segments(s@, i as int) == Option::Some(
                    (segs_view(segs@), j as int),
                )
                &&& i <= j <= s@.len()
            },
            Option::None => spec_parse_segments(s@, i as int) is None,
        },
    decreases s@.len() - i,
{
    if i < s.len() && is_ident_start(s[i]) {
        let e = ident_end(s, i + 1);
        let seg = bytes_range(s, i, e);
        let ghost segv: Seq<u8> = seg@;
        if e < s.len() && e + 1 < s.len() && s[e] == ':' as u8 && s[e + 1] == ':' as u8 {
            match parse_segments(s, e + 2) {
                Option::None => Option::None,
                Option::Some((mut segs, j)) => {
                    let ghost restv: Seq<Seq<u8>> = segs_view(segs@);
                    segs.insert(0, seg);
                    proof {
                        assert(segs_view(segs@) =~= seq![segv] + restv);
                    }
                    Option::Some((segs, j))
                },
            }
        } else {
            let mut segs: Vec<Vec<u8>> = Vec::new();
            segs.push(seg);
            proof {
                assert(segs_view(segs@) =~= seq![segv]);
            }
            Option::Some((segs, e))
        }
    } else {
        Option::None
    }
}

/// Reads a whole path starting at `i`.
fn parse_path_at(s: &Vec<u8>, i: usize) -> (r: Option<(MetaPath, usize)>)
    requires
        i <= s@.len(),
    ensures
        match r {
            Option::Some((p, j)) => {
                &&& spec_parse_path(s@, i as int) == Option::Some((p@, j as int))
                &&& i <= j <= s@.len()
            },
            Option::None => spec_parse_path(s@, i as int) is None,
        },
{
    let leading: bool = i < s.len() && i + 1 < s.len() && s[i] == ':' as u8 && s[i + 1]
        == ':' as u8;
    let start: usize = if leading {
        i + 2
    } else {
        i
    };
    match parse_segments(s, start) {
        Option::None => Option::None,
        Option::Some((segments, j)) => {
            let p = MetaPath { leading_colon: leading, segments };
            proof {
                assert(p@.segments =~= segs_view(p.segments@));
            }
            Option::Some((p, j))
        },
    }
}

/// A receiver as the annotation parser hands it on: the constructor
/// expression path and the receiver type path, read from `expr -> Type`.
#[derive(Debug)]
pub struct AnnotatedReceiverFn {
    pub receiver_fn: MetaPath,
    pub annotation: MetaPath,
}

/// The mathematical value of an `AnnotatedReceiverFn`.
pub ghost struct SpecReceiverFn {
    pub receiver_fn: SpecPath,
    pub annotation: SpecPath,
}

impl View for AnnotatedReceiverFn {
    type V = SpecReceiverFn;

    open spec fn view(&self) -> SpecReceiverFn {
        SpecReceiverFn { receiver_fn: self.receiver_fn@, annotation: self.annotation@ }
    }
}

impl AnnotatedReceiverFn {
    /// Reads a receiver from the text of its string literal, exactly when
    /// the text matches the grammar `constructor -> Type`.
    pub fn parse(s: &Vec<u8>) -> (r: Result<AnnotatedReceiverFn, GenError>)
        ensures
            match spec_parse_receiver(s@) {
                Option::Some((expr, ty)) => {
                    &&& r is Ok
                    &&& r->Ok_0@ == SpecReceiverFn { receiver_fn: expr, annotation: ty }
                },
                Option::None => r == Err::<AnnotatedReceiverFn, GenError>(
                    GenError::MalformedReceiver,
                ),
            },
    {
        let i0 = skip_ws(s, 0);
        let first = parse_path_at(s, i0);
        match first {
            Option::None => Err(GenError::MalformedReceiver),
            Option::Some((receiver_fn, i1)) => {
                let i2 = skip_ws(s, i1);
                if i2 < s.len() && i2 + 1 < s.len() && s[i2] == '-' as u8 && s[i2 + 1]
                    == '>' as u8 {
                    let i3 = skip_ws(s, i2 + 2);
                    let second = parse_path_at(s, i3);
                    match second {
                        Option::None => Err(GenError::MalformedReceiver),
                        Option::Some((annotation, i4)) => {
                            let i5 = skip_ws(s, i4);
                            if i5 == s.len() {
                                Ok(AnnotatedReceiverFn { receiver_fn, annotation })
                            } else {
                                Err(GenError::MalformedReceiver)
                            }
                        },
                    }
                } else {
                    Err(GenError::MalformedReceiver)
                }
            },
        }
    }
}

/// The text of a path's segments, separated by `::`.
pub open spec fn render_segments(segs: Seq<Seq<u8>>) -> Seq<u8>
    decreases segs.len(),
{
    if segs.len() == 0 {
        Seq::empty()
    } else if segs.len() == 1 {
        segs[0]
    } else {
        segs[0] + seq![':' as u8, ':' as u8] + render_segments(segs.drop_first())
    }
}

/// The text of a path.
pub open spec fn render_path(p: SpecPath) -> Seq<u8> {
    if p.leading_colon {
        seq![':' as u8, ':' as u8] + render_segments(p.segments)
    } else {
        render_segments(p.segments)
    }
}

/// The text of a receiver, written `expr -> Type`.
pub open spec fn render_receiver(r: SpecReceiverFn) -> Seq<u8> {
    render_path(r.receiver_fn) + seq![' ' as u8, '-' as u8, '>' as u8, ' ' as u8] + render_path(
        r.annotation,
    )
}

/// Paths the grammar can express: at least one segment, each of them a
/// plain identifier.
pub open spec fn wf_path(p: SpecPath) -> bool {
    &&& p.segments.len() >= 1
    &&& forall|k: int| 0 <= k < p.segments.len() ==> spec_is_ident_text(#[trigger] p.segments[k])
}

/// Skipping blanks stops at once where no blank stands.
proof fn lemma_skip_ws_stops(s: Seq<u8>, i: int)
    requires
        0 <= i,
        i == s.len() || (i < s.len() && !spec_is_ws(s[i])),
    ensures
        spec_skip_ws(s, i) == i,
{
}

/// The end of an identifier run is the first position after it.
proof fn lemma_ident_end_run(s: Seq<u8>, i: int, j: int)
    requires
        0 <= i <= j <= s.len(),
        forall|k: int| i <= k < j ==> spec_is_ident_continue(#[trigger] s[k]),
        j == s.len() || !spec_is_ident_continue(s[j]),
    ensures
        spec_ident_end(s, i) == j,
    decreases j - i,
{
    if i < j {
        lemma_ident_end_run(s, i + 1, j);
    }
}

/// A rendered segment list is never empty.
proof fn lemma_render_segments_len(segs: Seq<Seq<u8>>)
    requires
        segs.len() >= 1,
        forall|k: int| 0 <= k < segs.len() ==> spec_is_ident_text(#[trigger] segs[k]),
    ensures
        render_segments(segs).len() >= segs[0].len(),
        render_segments(segs).len() >= 1,
        render_segments(segs)[0] == segs[0][0],
    decreases segs.len(),
{
    if segs.len() > 1 {
        assert(render_segments(segs)[0] == segs[0][0]);
    }
}

/// Parsing a rendered segment list from its start reads it back whole,
/// provided the byte that follows cannot extend it.
proof fn lemma_parse_rendered_segments(s: Seq<u8>, i: int, segs: Seq<Seq<u8>>)
    requires
        0 <= i,
        segs.len() >= 1,
        forall|k: int| 0 <= k < segs.len() ==> spec_is_ident_text(#[trigger] segs[k]),
        i + render_segments(segs).len() <= s.len(),
        forall|k: int|
            0 <= k < render_segments(segs).len() ==> s[i + k] == #[trigger] render_segments(
                segs,
            )[k],
        ({
            let j = i + render_segments(segs).len();
            j == s.len() || (!spec_is_ident_continue(s[j]) && s[j] != ':' as u8)
        }),
    ensures
        spec_parse_segments(s, i) == Option::Some((segs, i + render_segments(segs).len())),
    decreases segs.len(),
{
    let r = render_segments(segs);
    let seg0 = segs[0];
    let l0 = seg0.len() as int;
    let j = i + r.len();
    assert(spec_is_ident_text(seg0));
    if segs.len() == 1 {
        assert(r == seg0);
        assert(s[i + 0] == r[0]);
        assert(spec_is_ident_start(s[i]));
        assert forall|k: int| i + 1 <= k < i + l0 implies spec_is_ident_continue(
            #[trigger] s[k],
        ) by {
            assert(s[i + (k - i)] == r[k - i]);
        }
        lemma_ident_end_run(s, i + 1, i + l0);
        let e = spec_ident_end(s, i + 1);
        assert(e == j);
        assert(s.subrange(i, e) =~= seg0) by {
            assert forall|k: int| 0 <= k < l0 implies s.subrange(i, e)[k] == seg0[k] by {
                assert(s[i + k] == r[k]);
            }
        }
        assert(segs =~= seq![seg0]);
    } else {
        let rest = render_segments(segs.drop_first());
        assert(r == seg0 + seq![':' as u8, ':' as u8] + rest);
        assert forall|k: int| 0 <= k < l0 implies r[k] == seg0[k] by {
            assert((seg0 + seq![':' as u8, ':' as u8])[k] == seg0[k]);
        }
        assert(r[l0] == ':' as u8) by {
            assert((seg0 + seq![':' as u8, ':' as u8])[l0] == ':' as u8);
        }
        assert(r[l0 + 1] == ':' as u8) by {
            assert((seg0 + seq![':' as u8, ':' as u8])[l0 + 1] == ':' as u8);
        }
        assert forall|k: int| 0 <= k < rest.len() implies r[l0 + 2 + k] == rest[k] by {}
        assert(s[i + 0] == r[0]);
        assert(spec_is_ident_start(s[i]));
        assert forall|k: int| i + 1 <= k < i + l0 implies spec_is_ident_continue(
            #[trigger] s[k],
        ) by {
            assert(s[i + (k - i)] == r[k - i]);
        }
        assert(s[i + l0] == r[l0]);
        assert(!spec_is_ident_continue(s[i + l0]));
        lemma_ident_end_run(s, i + 1, i + l0);
        let e = spec_ident_end(s, i + 1);
        assert(e == i + l0);
        assert(forall|k: int|
            0 <= k < segs.drop_first().len() ==> #[trigger] segs.drop_first()[k] == segs[k + 1]);
        lemma_render_segments_len(segs.drop_first());
        assert(e + 1 < s.len());
        assert(s[i + l0] == ':' as u8);
        assert(s[i + (l0 + 1)] == r[l0 + 1]);
        assert(s[e + 1] == ':' as u8);
        assert forall|k: int| 0 <= k < rest.len() implies s[(e + 2) + k] == #[trigger] rest[k] by {
            assert(s[i + (l0 + 2 + k)] == r[l0 + 2 + k]);
        }
        lemma_parse_rendered_segments(s, e + 2, segs.drop_first());
        assert(s.subrange(i, e) =~= seg0) by {
            assert forall|k: int| 0 <= k < l0 implies s.subrange(i, e)[k] == seg0[k] by {
                assert(s[i + k] == r[k]);
            }
        }
        assert(segs =~= seq![seg0] + segs.drop_first());
        assert(e + 2 + rest.len() == j);
    }
}

/// Parsing a rendered path from its start reads it back whole.
proof fn lemma_parse_rendered_path(s: Seq<u8>, i: int, p: SpecPath)
    requires
        0 <= i,
        wf_path(p),
        i + render_path(p).len() <= s.len(),
        forall|k: int|
            0 <= k < render_path(p).len() ==> s[i + k] == #[trigger] render_path(p)[k],
        ({
            let j = i + render_path(p).len();
            j == s.len() || (!spec_is_ident_continue(s[j]) && s[j] != ':' as u8)
        }),
    ensures
        spec_parse_path(s, i) == Option::Some((p, i + render_path(p).len())),
{
    let r = render_path(p);
    let rs = render_segments(p.segments);
    let j = i + r.len();
    lemma_render_segments_len(p.segments);
    if p.leading_colon {
        assert(r == seq![':' as u8, ':' as u8] + rs);
        assert(r[0] == ':' as u8);
        assert(r[1] == ':' as u8);
        assert forall|k: int| 0 <= k < rs.len() implies r[2 + k] == rs[k] by {}
        assert(s[i + 0] == r[0]);
        assert(s[i + 1] == r[1]);
        assert(i + 1 < s.len());
        assert forall|k: int| 0 <= k < rs.len() implies s[(i + 2) + k] == #[trigger] rs[k] by {
            assert(s[i + (2 + k)] == r[2 + k]);
        }
        lemma_parse_rendered_segments(s, i + 2, p.segments);
        assert(p == (SpecPath { leading_colon: true, segments: p.segments }));
    } else {
        assert(r == rs);
        assert(s[i + 0] == r[0]);
        assert(spec_is_ident_start(s[i]));
        assert(s[i] != ':' as u8);
        lemma_parse_rendered_segments(s, i, p.segments);
        assert(p == (SpecPath { leading_colon: false, segments: p.segments }));
    }
}

/// The first byte of a rendered path is never a blank.
proof fn lemma_render_path_head(p: SpecPath)
    requires
        wf_path(p),
    ensures
        render_path(p).len() >= 1,
        !spec_is_ws(render_path(p)[0]),
        render_path(p)[0] != ':' as u8 ==> spec_is_ident_start(render_path(p)[0]),
{
    lemma_render_segments_len(p.segments);
    if p.leading_colon {
        assert(render_path(p)[0] == ':' as u8);
    } else {
        assert(spec_is_ident_start(render_path(p)[0]));
    }
}

/// Round trip of the receiver grammar: every receiver whose two paths the
/// grammar can express parses back, from its rendered `expr -> Type` text,
/// to exactly itself.
pub proof fn lemma_receiver_text_round_trip(r: SpecReceiverFn)
    requires
        wf_path(r.receiver_fn),
        wf_path(r.annotation),
    ensures
        spec_parse_receiver(render_receiver(r)) == Option::Some((r.receiver_fn, r.annotation)),
{
    let s = render_receiver(r);
    let r1 = render_path(r.receiver_fn);
    let arrow = seq![' ' as u8, '-' as u8, '>' as u8, ' ' as u8];
    let r2 = render_path(r.annotation);
    let l1 = r1.len() as int;
    lemma_render_path_head(r.receiver_fn);
    lemma_render_path_head(r.annotation);
    assert(s == r1 + arrow + r2);
    assert forall|k: int| 0 <= k < l1 implies s[k] == #[trigger] r1[k] by {
        assert((r1 + arrow)[k] == r1[k]);
    }
    assert((r1 + arrow)[l1] == ' ' as u8);
    assert((r1 + arrow)[l1 + 1] == '-' as u8);
    assert((r1 + arrow)[l1 + 2] == '>' as u8);
    assert((r1 + arrow)[l1 + 3] == ' ' as u8);
    assert(s[l1] == ' ' as u8);
    assert(s[l1 + 1] == '-' as u8);
    assert(s[l1 + 2] == '>' as u8);
    assert(s[l1 + 3] == ' ' as u8);
    assert forall|k: int| 0 <= k < r2.len() implies s[(l1 + 4) + k] == #[trigger] r2[k] by {}
    assert(s[0] == r1[0]);
    lemma_skip_ws_stops(s, 0);
    assert(s.len() == l1 + 4 + r2.len());
    lemma_parse_rendered_path(s, 0, r.receiver_fn);
    lemma_skip_ws_stops(s, l1 + 1);
    assert(spec_skip_ws(s, l1) == l1 + 1);
    assert(s[(l1 + 4) + 0] == r2[0]);
    lemma_skip_ws_stops(s, l1 + 4);
    assert(spec_skip_ws(s, l1 + 3) == l1 + 4);
    lemma_parse_rendered_path(s, l1 + 4, r.annotation);
    lemma_skip_ws_stops(s, s.len() as int);
}

} // verus!
