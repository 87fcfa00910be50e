//! Marquee scrolling of lines that are wider than the space they are shown in.
use vstd::prelude::*;
use unicode_width::UnicodeWidthChar;
use crate::text::chars_of;

verus! {

/// What `UnicodeWidthChar::width` returns for a character: its display width in columns, or
/// `None` for a control character.
pub uninterp spec fn unicode_width_of(c: char) -> Option<usize>;

/// Calls `UnicodeWidthChar::width` (without the CJK treatment). The result is named
/// `unicode_width_of(c)`: it depends on the character alone. As the crate's source shows, the
/// printable ASCII characters are one column wide, the other characters below U+00A0 are
/// control characters (`None`), and every width comes from a table of bytes, so it is at most
/// 255. The Unicode tables themselves are not stated.
#[verifier::external_body]
pub(crate) fn char_width(c: char) -> (w: Option<usize>)
    ensures
        w == unicode_width_of(c),
        ('\u{20}' <= c && c < '\u{7F}') ==> w == Some(1usize),
        (c < '\u{20}' || ('\u{7F}' <= c && c < '\u{A0}')) ==> w is None,
        w matches Some(x) ==> x <= 255,
{
    c.width()
}

/// Columns a character takes; control characters take none.
pub open spec fn col(c: char) -> nat {
    match unicode_width_of(c) {
        Some(w) => w as nat,
        None => 0,
    }
}

/// Columns a run of characters takes.
pub open spec fn width(s: Seq<char>) -> nat
    decreases s.len(),
{
    if s.len() == 0 {
        0
    } else {
        width(s.drop_last()) + col(s.last())
    }
}

/// How many leading characters are dropped to skip `skip` columns: characters are dropped
/// while fewer than `skip` columns have been dropped, so a wide character that straddles the
/// boundary is dropped whole.
pub open spec fn skipped_len(s: Seq<char>, skip: int) -> nat
    decreases s.len(),
{
    if s.len() == 0 || skip <= 0 {
        0
    } else {
        1 + skipped_len(s.drop_first(), skip - col(s[0]))
    }
}

/// The longest prefix of `s` that fits in `room` columns.
pub open spec fn fitting_prefix(s: Seq<char>, room: int) -> Seq<char>
    decreases s.len(),
{
    if s.len() == 0 || col(s[0]) > room {
        Seq::empty()
    } else {
        seq![s[0]] + fitting_prefix(s.drop_first(), room - col(s[0]))
    }
}

/// What remains visible of `s` when its first `skip` columns are scrolled away and `take`
/// columns are shown.
pub open spec fn slice_text(s: Seq<char>, skip: int, take: int) -> Seq<char> {
    fitting_prefix(s.skip(skipped_len(s, skip) as int), take)
}

/// A piece of a line drawn in one style.
pub struct StyledSpan<S> {
    pub content: String,
    pub style: S,
}

/// A span as its text and style.
pub open spec fn span_view<S>(sp: StyledSpan<S>) -> (Seq<char>, S) {
    (sp.content@, sp.style)
}

/// The spans of a line as texts and styles.
pub open spec fn spans_view<S>(spans: Seq<StyledSpan<S>>) -> Seq<(Seq<char>, S)> {
    spans.map_values(|sp: StyledSpan<S>| span_view(sp))
}

/// Columns a line of spans takes.
pub open spec fn line_width<S>(spans: Seq<(Seq<char>, S)>) -> nat
    decreases spans.len(),
{
    if spans.len() == 0 {
        0
    } else {
        width(spans[0].0) + line_width(spans.drop_first())
    }
}

/// The visible window of a line, span by span: spans wholly before column `offset` are
/// dropped; each later span keeps what [`slice_text`] leaves of it in the columns still free
/// (`max - taken`), keeping its style, and is left out when nothing of it shows; nothing more
/// is taken once `max` columns are filled. `skipped` counts the columns of the spans passed
/// so far, `taken` the columns kept so far.
pub open spec fn slice_spans<S>(
    spans: Seq<(Seq<char>, S)>,
    offset: int,
    max: int,
    skipped: int,
    taken: int,
) -> Seq<(Seq<char>, S)>
    decreases spans.len(),
{
    if spans.len() == 0 || taken >= max {
        Seq::empty()
    } else {
        let sw = width(spans[0].0) as int;
        if skipped + sw <= offset {
            slice_spans(spans.drop_first(), offset, max, skipped + sw, taken)
        } else {
            let skip_in = if skipped < offset { offset - skipped } else { 0 };
            let sliced = slice_text(spans[0].0, skip_in, max - taken);
            let w = width(sliced) as int;
            if w > 0 {
                seq![(sliced, spans[0].1)] + slice_spans(spans.drop_first(), offset, max, skipped + sw, taken + w)
            } else {
                slice_spans(spans.drop_first(), offset, max, skipped + sw, taken)
            }
        }
    }
}

/// The marquee offset: a pause of 10 ticks at offset 0, then 3 ticks per column up to
/// `max_offset`, a pause of 10 ticks at `max_offset`, and around again.
pub open spec fn scroll_offset(tick: u16, max_offset: usize) -> nat {
    if max_offset == 0 {
        0
    } else {
        let cycle = 20 + 3 * max_offset;
        let t = tick as int % cycle;
        if t < 10 {
            0
        } else if t < 10 + 3 * max_offset {
            ((t - 10) / 3) as nat
        } else {
            max_offset as nat
        }
    }
}

/// Computes the scroll offset for a marquee effect (see [`scroll_offset`]): an initial pause
/// of 10 ticks at offset 0, then 3 ticks per column, then a pause of 10 ticks at
/// `max_offset`, then around again.
pub fn compute_scroll_offset(tick: u16, max_offset: usize) -> (r: usize)
    ensures
        r == scroll_offset(tick, max_offset),
        r <= max_offset,
{
    if max_offset == 0 {
        return 0;
    }
    let initial_pause: u128 = 10;
    let scroll_ticks: u128 = 3 * (max_offset as u128);
    let end_pause: u128 = 10;
    let cycle_len = initial_pause + scroll_ticks + end_pause;
    let t = (tick as u128) % cycle_len;
    if t < initial_pause {
        0
    } else if t < initial_pause + scroll_ticks {
        let k = (t - initial_pause) / 3;
        assert(k < max_offset);
        k as usize
    } else {
        max_offset
    }
}

proof fn lemma_width_take(s: Seq<char>, i: int)
    requires
        0 <= i < s.len(),
    ensures
        width(s.take(i + 1)) == width(s.take(i)) + col(s[i]),
{
    assert(s.take(i + 1).drop_last() =~= s.take(i));
}

proof fn lemma_width_prefix_le(s: Seq<char>, i: int)
    requires
        0 <= i <= s.len(),
    ensures
        width(s.take(i)) <= width(s),
    decreases s.len() - i,
{
    if i < s.len() {
        lemma_width_take(s, i);
        lemma_width_prefix_le(s, i + 1);
    } else {
        assert(s.take(i) =~= s);
    }
}

/// Columns of a character, zero for control characters.
fn col_exec(c: char) -> (w: usize)
    ensures
        w == col(c),
        w <= 255,
{
    match char_width(c) {
        Some(w) => w,
        None => 0,
    }
}

/// Columns a string takes, when that number fits in `usize`.
pub fn str_width(s: &str) -> (w: usize)
    requires
        width(s@) <= usize::MAX,
    ensures
        w == width(s@),
{
    let cs = chars_of(s);
    let mut w: usize = 0;
    let mut i: usize = 0;
    while i < cs.len()
        invariant
            cs@ == s@,
            i <= cs@.len(),
            w == width(cs@.take(i as int)),
            width(cs@) <= usize::MAX,
        decreases cs@.len() - i,
    {
        proof {
            lemma_width_take(cs@, i as int);
            lemma_width_prefix_le(cs@, i + 1);
        }
        w = w + col_exec(cs[i]);
        i = i + 1;
    }
    assert(cs@.take(cs@.len() as int) =~= cs@);
    w
}

/// Skipping a positive number of columns drops the first character and goes on with what
/// remains to skip.
proof fn lemma_slice_text_step(t: Seq<char>, k: int, take: int)
    requires
        t.len() > 0,
        k > 0,
    ensures
        slice_text(t, k, take) == slice_text(t.drop_first(), k - col(t[0]), take),
{
    let m = skipped_len(t.drop_first(), k - col(t[0]));
    lemma_skipped_len_bound(t.drop_first(), k - col(t[0]));
    assert(t.skip((1 + m) as int) =~= t.drop_first().skip(m as int));
}

proof fn lemma_skipped_len_bound(t: Seq<char>, k: int)
    ensures
        skipped_len(t, k) <= t.len(),
    decreases t.len(),
{
    if t.len() > 0 && k > 0 {
        lemma_skipped_len_bound(t.drop_first(), k - col(t[0]));
    }
}

/// With nothing left to skip, what shows is the longest prefix that fits.
proof fn lemma_slice_text_done(t: Seq<char>, k: int, take: int)
    requires
        k <= 0,
    ensures
        slice_text(t, k, take) == fitting_prefix(t, take),
{
    assert(t.skip(0) =~= t);
}

/// Slices a string by display width: skips `skip` columns, then takes up to `take` columns.
pub fn slice_span_content(content: &str, skip: usize, take: usize) -> (r: String)
    requires
        width(content@) <= usize::MAX,
    ensures
        r@ == slice_text(content@, skip as int, take as int),
{
    let cs = chars_of(content);
    let ghost s = cs@;
    let mut result = String::new();
    let mut skipped: usize = 0;
    let mut taken: usize = 0;
    let mut i: usize = 0;
    let mut done = false;
    proof {
        assert(s.skip(0) =~= s);
        if skip == 0 {
            lemma_slice_text_done(s, 0, take as int);
            assert(result@ + fitting_prefix(s, take as int) =~= fitting_prefix(s, take as int));
        }
    }
    while i < cs.len() && !done
        invariant
            cs@ == s,
            s == content@,
            width(s) <= usize::MAX,
            i <= s.len(),
            skipped + taken == width(s.take(i as int)),
            done ==> skipped >= skip && slice_text(s, skip as int, take as int) == result@,
            !done && skipped < skip ==> {
                &&& taken == 0
                &&& result@ == Seq::<char>::empty()
                &&& slice_text(s, skip as int, take as int)
                    == slice_text(s.skip(i as int), skip - skipped, take as int)
            },
            !done && skipped >= skip ==> {
                &&& taken <= take
                &&& slice_text(s, skip as int, take as int)
                    == result@ + fitting_prefix(s.skip(i as int), take - taken)
            },
        decreases s.len() - i + (if done { 0int } else { 1int }),
    {
        let ch = cs[i];
        proof {
            lemma_width_take(s, i as int);
            lemma_width_prefix_le(s, i + 1);
            assert(s.skip(i as int).drop_first() =~= s.skip(i + 1));
            assert(s.skip(i as int)[0] == ch);
        }
        let w = col_exec(ch);
        if skipped < skip {
            proof {
                lemma_slice_text_step(s.skip(i as int), skip - skipped, take as int);
            }
            skipped = skipped + w;
            i = i + 1;
            proof {
                if skipped >= skip {
                    let rest = s.skip(i as int);
                    lemma_slice_text_done(rest, skip - skipped, take as int);
                    assert(result@ + fitting_prefix(rest, take - taken) =~= fitting_prefix(rest, take as int));
                }
            }
        } else if taken + w > take {
            assert(result@ + fitting_prefix(s.skip(i as int), take - taken) =~= result@);
            done = true;
        } else {
            result.push(ch);
            taken = taken + w;
            i = i + 1;
            proof {
                assert(slice_text(s, skip as int, take as int) =~= result@ + fitting_prefix(s.skip(i as int), take - taken));
            }
        }
    }
    proof {
        if !done {
            assert(s.skip(i as int) =~= Seq::<char>::empty());
            if skipped >= skip {
                assert(result@ + fitting_prefix(s.skip(i as int), take - taken) =~= result@);
            } else {
                assert(slice_text(s.skip(i as int), skip - skipped, take as int) =~= Seq::<char>::empty());
            }
        }
    }
    result
}

proof fn lemma_width_concat(a: Seq<char>, b: Seq<char>)
    ensures
        width(a + b) == width(a) + width(b),
    decreases b.len(),
{
    if b.len() > 0 {
        assert((a + b).drop_last() =~= a + b.drop_last());
        lemma_width_concat(a, b.drop_last());
    } else {
        assert(a + b =~= a);
    }
}

/// What fits in `room` columns takes at most `room` columns.
proof fn lemma_fitting_prefix_width(s: Seq<char>, room: int)
    requires
        room >= 0,
    ensures
        width(fitting_prefix(s, room)) <= room,
    decreases s.len(),
{
    if s.len() > 0 && col(s[0]) <= room {
        lemma_fitting_prefix_width(s.drop_first(), room - col(s[0]));
        lemma_width_concat(seq![s[0]], fitting_prefix(s.drop_first(), room - col(s[0])));
        assert(width(seq![s[0]]) == col(s[0])) by {
            let one = seq![s[0]];
            assert(one.drop_last() =~= Seq::<char>::empty());
            assert(width(one.drop_last()) == 0);
            assert(one.last() == s[0]);
        }
    }
}

/// The visible window of a line takes at most the columns it is shown in.
pub proof fn lemma_slice_spans_fit<S>(spans: Seq<(Seq<char>, S)>, offset: int, max: int, skipped: int, taken: int)
    requires
        0 <= taken <= max,
    ensures
        taken + line_width(slice_spans(spans, offset, max, skipped, taken)) <= max,
    decreases spans.len(),
{
    if spans.len() > 0 && taken < max {
        let sw = width(spans[0].0) as int;
        if skipped + sw <= offset {
            lemma_slice_spans_fit(spans.drop_first(), offset, max, skipped + sw, taken);
        } else {
            let skip_in = if skipped < offset { offset - skipped } else { 0 };
            let sliced = slice_text(spans[0].0, skip_in, max - taken);
            lemma_fitting_prefix_width(spans[0].0.skip(skipped_len(spans[0].0, skip_in) as int), max - taken);
            let w = width(sliced) as int;
            if w > 0 {
                lemma_slice_spans_fit(spans.drop_first(), offset, max, skipped + sw, taken + w);
                let rest = slice_spans(spans.drop_first(), offset, max, skipped + sw, taken + w);
                assert((seq![(sliced, spans[0].1)] + rest).drop_first() =~= rest);
            } else {
                lemma_slice_spans_fit(spans.drop_first(), offset, max, skipped + sw, taken);
            }
        }
    }
}

/// Columns a span takes.
fn span_width<S>(span: &StyledSpan<S>) -> (w: usize)
    requires
        width(span.content@) <= usize::MAX,
    ensures
        w == width(span.content@),
{
    str_width(span.content.as_str())
}

proof fn lemma_line_width_first<S>(spans: Seq<(Seq<char>, S)>)
    requires
        spans.len() > 0,
    ensures
        width(spans[0].0) <= line_width(spans),
        line_width(spans.drop_first()) <= line_width(spans),
{
}

/// Measures the display width of a line by summing its spans' widths.
fn line_display_width<S>(line: &Vec<StyledSpan<S>>) -> (w: usize)
    requires
        line_width(spans_view(line@)) <= usize::MAX,
    ensures
        w == line_width(spans_view(line@)),
{
    let ghost all = spans_view(line@);
    assert(all.skip(0) =~= all);
    let mut w: usize = 0;
    let mut i: usize = 0;
    while i < line.len()
        invariant
            all == spans_view(line@),
            i <= line@.len(),
            w + line_width(all.skip(i as int)) == line_width(all),
            line_width(all) <= usize::MAX,
        decreases line@.len() - i,
    {
        proof {
            assert(all.skip(i as int).drop_first() =~= all.skip(i + 1));
            assert(all.skip(i as int)[0] == span_view(line@[i as int]));
            lemma_line_width_first(all.skip(i as int));
        }
        w = w + span_width(&line[i]);
        i = i + 1;
    }
    assert(all.skip(i as int) =~= Seq::<(Seq<char>, S)>::empty());
    w
}

/// Slices a line starting at display column `offset`, taking up to `max_width` columns, span
/// by span as [`slice_spans`] says, keeping each span's style.
fn slice_line<S>(line: Vec<StyledSpan<S>>, offset: usize, max_width: usize) -> (r: Vec<StyledSpan<S>>)
    requires
        line_width(spans_view(line@)) <= usize::MAX,
    ensures
        spans_view(r@) == slice_spans(spans_view(line@), offset as int, max_width as int, 0, 0),
{
    let ghost target = slice_spans(spans_view(line@), offset as int, max_width as int, 0, 0);
    let mut rest = line;
    let mut result: Vec<StyledSpan<S>> = Vec::new();
    let mut skipped: usize = 0;
    let mut taken: usize = 0;
    while rest.len() > 0 && taken < max_width
        invariant
            spans_view(result@) + slice_spans(spans_view(rest@), offset as int, max_width as int, skipped as int, taken as int) == target,
            skipped + line_width(spans_view(rest@)) <= usize::MAX,
            taken <= max_width,
        decreases rest@.len(),
    {
        let ghost rv = spans_view(rest@);
        let span = rest.remove(0);
        proof {
            assert(spans_view(rest@) =~= rv.drop_first());
            assert(rv[0] == span_view(span));
            lemma_line_width_first(rv);
        }
        let sw = span_width(&span);
        if skipped + sw <= offset {
            skipped = skipped + sw;
            continue;
        }
        let skip_in_span = if skipped < offset { offset - skipped } else { 0 };
        let remaining_capacity = max_width - taken;
        let sliced = slice_span_content(span.content.as_str(), skip_in_span, remaining_capacity);
        proof {
            lemma_fitting_prefix_width(
                span.content@.skip(skipped_len(span.content@, skip_in_span as int) as int),
                remaining_capacity as int,
            );
        }
        let sliced_width = str_width(sliced.as_str());
        let ghost before = spans_view(result@);
        if sliced_width > 0 {
            result.push(StyledSpan { content: sliced, style: span.style });
            taken = taken + sliced_width;
            proof {
                assert(spans_view(result@) =~= before.push((slice_text(rv[0].0, skip_in_span as int, remaining_capacity as int), rv[0].1)));
            }
        }
        skipped = skipped + sw;
    }
    proof {
        assert(slice_spans(spans_view(rest@), offset as int, max_width as int, skipped as int, taken as int) =~= Seq::<(Seq<char>, S)>::empty());
        assert(spans_view(result@) + Seq::<(Seq<char>, S)>::empty() =~= spans_view(result@));
    }
    result
}

/// Scrolls a line horizontally when it overflows `width` columns: a line that fits is
/// returned unchanged; otherwise the tick gives the offset (see [`compute_scroll_offset`])
/// and the line is cut to the window at that offset, keeping each span's style.
pub fn scroll_line<S>(line: Vec<StyledSpan<S>>, width: u16, tick: u16) -> (r: Vec<StyledSpan<S>>)
    requires
        line_width(spans_view(line@)) <= usize::MAX,
    ensures
        line_width(spans_view(line@)) <= width ==> r@ == line@,
        line_width(spans_view(line@)) > width ==> spans_view(r@) == slice_spans(
            spans_view(line@),
            scroll_offset(tick, (line_width(spans_view(line@)) - width) as usize) as int,
            width as int,
            0,
            0,
        ),
        line_width(spans_view(r@)) <= width,
{
    let lw = line_display_width(&line);
    let available = width as usize;
    if lw <= available {
        return line;
    }
    let max_offset = lw - available;
    let offset = compute_scroll_offset(tick, max_offset);
    let r = slice_line(line, offset, available);
    proof {
        lemma_slice_spans_fit(spans_view(line@), offset as int, available as int, 0, 0);
    }
    r
}

/// A line that overflows its space by `m` columns scrolls through every offset: at tick
/// `10 + 3k` of the cycle it is shown from column `k`, for each `k` from 0 to `m`; it starts
/// from column 0 and starts over after `20 + 3m` ticks (when that many ticks fit in a `u16`).
pub proof fn lemma_marquee_passes_every_offset(m: usize, k: nat)
    requires
        0 < m,
        20 + 3 * m <= u16::MAX,
        k <= m,
    ensures
        scroll_offset((10 + 3 * k) as u16, m) == k,
        scroll_offset(0, m) == 0,
        scroll_offset((20 + 3 * m) as u16, m) == 0,
{
    let c: int = 20 + 3 * m;
    let t: int = 10 + 3 * (k as int);
    assert(((10 + 3 * k) as u16) as int == t);
    assert(((20 + 3 * m) as u16) as int == c);
    assert(t % c == t) by (nonlinear_arith)
        requires
            0 <= t < c,
    ;
    assert(c % c == 0) by (nonlinear_arith)
        requires
            c > 0,
    ;
    assert(0int % c == 0) by (nonlinear_arith)
        requires
            c > 0,
    ;
}

} // verus!
