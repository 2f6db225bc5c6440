//! Text helpers of the paint path: greedy word wrapping to a character
//! budget and colour runs over highlighted source lines.

use vstd::prelude::*;

use crate::gibibytes::{is_white_space, is_white_space_exec};
use crate::text::{chars_of, split_chars, split_on, string_from_chars};
use crate::theme::{syntax_color, syntax_color_spec, HighlightKind, TEXT_PRIMARY};

verus! {

/// The words of `s` split at every space, as `str::split(' ')` yields them:
/// each space ends a word, so consecutive spaces give empty words.
pub open spec fn split_spaces(s: Seq<char>) -> Seq<Seq<char>> {
    split_on(s, ' ')
}

/// Wrapping progress: finished rows and the row being filled.
pub type WrapState = (Seq<Seq<char>>, Seq<char>);

/// Places one word: while it is longer than the budget, the open row is
/// closed and a budget-sized piece becomes a row of its own; what is left
/// joins the open row after a space when it fits, and otherwise closes the
/// open row and starts the next one.
pub open spec fn place_word(st: WrapState, w: Seq<char>, b: nat) -> WrapState
    decreases w.len(),
{
    let (rows, line) = st;
    if b > 0 && w.len() > b {
        let closed = if line.len() > 0 { rows.push(line) } else { rows };
        place_word((closed.push(w.take(b as int)), Seq::empty()), w.skip(b as int), b)
    } else if w.len() == 0 {
        st
    } else if line.len() == 0 {
        (rows, w)
    } else if line.len() + 1 + w.len() > b {
        (rows.push(line), w)
    } else {
        (rows, line + seq![' '] + w)
    }
}

/// The state after placing `words` in order.
pub open spec fn place_words(words: Seq<Seq<char>>, b: nat) -> WrapState
    decreases words.len(),
{
    if words.len() == 0 {
        (Seq::empty(), Seq::empty())
    } else {
        place_word(place_words(words.drop_last(), b), words.last(), b)
    }
}

/// Greedy wrap of `text` into rows of at most `b` characters: nothing when
/// there is no room, the text itself when it fits, and otherwise the words
/// placed in order with over-long words hard-split.
pub open spec fn wrap_spec(text: Seq<char>, b: nat) -> Seq<Seq<char>> {
    if b == 0 {
        Seq::empty()
    } else if text.len() <= b {
        seq![text]
    } else {
        let (rows, line) = place_words(split_spaces(text), b);
        if line.len() > 0 { rows.push(line) } else { rows }
    }
}

/// Every row is non-empty and within the budget, and so is the open row.
pub open spec fn rows_fit(st: WrapState, b: nat) -> bool {
    &&& forall|i: int| 0 <= i < st.0.len() ==> 0 < #[trigger] st.0[i].len() <= b
    &&& st.1.len() <= b
}

proof fn lemma_place_word_fits(st: WrapState, w: Seq<char>, b: nat)
    requires
        b > 0,
        rows_fit(st, b),
    ensures
        rows_fit(place_word(st, w, b), b),
    decreases w.len(),
{
    let (rows, line) = st;
    if w.len() > b {
        let closed = if line.len() > 0 { rows.push(line) } else { rows };
        let next: WrapState = (closed.push(w.take(b as int)), Seq::empty());
        assert(rows_fit(next, b));
        lemma_place_word_fits(next, w.skip(b as int), b);
    }
}

proof fn lemma_place_words_fit(words: Seq<Seq<char>>, b: nat)
    requires
        b > 0,
    ensures
        rows_fit(place_words(words, b), b),
    decreases words.len(),
{
    if words.len() > 0 {
        lemma_place_words_fit(words.drop_last(), b);
        lemma_place_word_fits(place_words(words.drop_last(), b), words.last(), b);
    }
}

/// Every wrapped row is at most `b` characters long, and when the text did
/// not fit on one row every row is non-empty.
pub proof fn lemma_wrap_rows_fit(text: Seq<char>, b: nat)
    ensures
        forall|i: int| 0 <= i < wrap_spec(text, b).len() ==> #[trigger] wrap_spec(text, b)[i].len() <= b,
        text.len() > b ==> forall|i: int| 0 <= i < wrap_spec(text, b).len() ==> #[trigger] wrap_spec(text, b)[i].len() > 0,
{
    if b > 0 && text.len() > b {
        lemma_place_words_fit(split_spaces(text), b);
    }
}

fn place_word_exec(rows: &mut Vec<Vec<char>>, line: &mut Vec<char>, word: &Vec<char>, b: usize)
    requires
        b > 0,
    ensures
        (final(rows)@.map_values(|r: Vec<char>| r@), final(line)@) == place_word(
            (old(rows)@.map_values(|r: Vec<char>| r@), old(line)@),
            word@,
            b as nat,
        ),
{
    let mut w: Vec<char> = word.clone();
    assert(w@ =~= word@);
    while w.len() > b
        invariant
            b > 0,
            place_word((rows@.map_values(|r: Vec<char>| r@), line@), w@, b as nat) == place_word(
                (old(rows)@.map_values(|r: Vec<char>| r@), old(line)@),
                word@,
                b as nat,
            ),
        decreases w.len(),
    {
        let ghost st: WrapState = (rows@.map_values(|r: Vec<char>| r@), line@);
        let ghost w0 = w@;
        if line.len() > 0 {
            let ghost old_rows = rows@;
            let mut done: Vec<char> = Vec::new();
            std::mem::swap(line, &mut done);
            rows.push(done);
            assert(rows@.map_values(|r: Vec<char>| r@) =~= old_rows.map_values(|r: Vec<char>| r@).push(done@));
        }
        let piece = crate::text::slice_chars(&w, 0, b);
        let rest = crate::text::slice_chars(&w, b, w.len());
        let ghost old_rows2 = rows@;
        rows.push(piece);
        assert(rows@.map_values(|r: Vec<char>| r@) =~= old_rows2.map_values(|r: Vec<char>| r@).push(piece@));
        assert(piece@ =~= w0.take(b as int));
        assert(rest@ =~= w0.skip(b as int));
        assert(line@ =~= Seq::<char>::empty());
        w = rest;
    }
    if w.len() == 0 {
        return;
    }
    let fits = w.len() < b && line.len() <= b - 1 - w.len();
    if line.len() == 0 {
        *line = w;
    } else if !fits {
        let ghost old_rows = rows@;
        let mut done: Vec<char> = w;
        std::mem::swap(line, &mut done);
        rows.push(done);
        assert(rows@.map_values(|r: Vec<char>| r@) =~= old_rows.map_values(|r: Vec<char>| r@).push(done@));
    } else {
        let ghost l0 = line@;
        line.push(' ');
        let mut j: usize = 0;
        while j < w.len()
            invariant
                j <= w.len(),
                line@ == l0 + seq![' '] + w@.take(j as int),
            decreases w.len() - j,
        {
            line.push(w[j]);
            assert(w@.take(j + 1) =~= w@.take(j as int).push(w@[j as int]));
            j += 1;
        }
        assert(w@.take(w.len() as int) =~= w@);
    }
}

fn rows_to_strings(rows: &Vec<Vec<char>>) -> (r: Vec<String>)
    ensures
        r@.map_values(|s: String| s@) == rows@.map_values(|x: Vec<char>| x@),
{
    let mut out: Vec<String> = Vec::new();
    let mut i: usize = 0;
    while i < rows.len()
        invariant
            i <= rows.len(),
            out@.map_values(|s: String| s@) == rows@.take(i as int).map_values(|x: Vec<char>| x@),
        decreases rows.len() - i,
    {
        let ghost o = out@;
        let s = string_from_chars(&rows[i]);
        assert(s@ == rows@[i as int]@);
        out.push(s);
        assert(rows@.take(i + 1) =~= rows@.take(i as int).push(rows@[i as int]));
        assert(out@.map_values(|s: String| s@) =~= o.map_values(|s: String| s@).push(s@));
        assert(out@.map_values(|s: String| s@) =~= rows@.take(i + 1).map_values(|x: Vec<char>| x@));
        i += 1;
    }
    assert(rows@.take(rows.len() as int) =~= rows@);
    out
}

/// Greedy word wrap of `text` into rows of at most `budget` characters
/// (see `wrap_spec`): empty when the budget is zero, the text itself when
/// it fits, over-long words split into budget-sized pieces.
pub fn wrap_to_budget(text: &str, budget: usize) -> (r: Vec<String>)
    ensures
        r@.map_values(|s: String| s@) == wrap_spec(text@, budget as nat),
{
    if budget == 0 {
        let r: Vec<String> = Vec::new();
        assert(r@.map_values(|s: String| s@) =~= Seq::<Seq<char>>::empty());
        return r;
    }
    let chars = chars_of(text);
    if chars.len() <= budget {
        let mut r: Vec<String> = Vec::new();
        r.push(text.to_owned());
        assert(r@.map_values(|s: String| s@) =~= seq![text@]);
        return r;
    }
    let words = split_chars(&chars, ' ');
    let mut rows: Vec<Vec<char>> = Vec::new();
    let mut line: Vec<char> = Vec::new();
    let mut i: usize = 0;
    assert(words@.map_values(|w: Vec<char>| w@).take(0) =~= Seq::<Seq<char>>::empty());
    assert(rows@.map_values(|x: Vec<char>| x@) =~= Seq::<Seq<char>>::empty());
    while i < words.len()
        invariant
            budget > 0,
            i <= words.len(),
            words@.map_values(|w: Vec<char>| w@) == split_spaces(chars@),
            (rows@.map_values(|x: Vec<char>| x@), line@) == place_words(
                words@.map_values(|w: Vec<char>| w@).take(i as int),
                budget as nat,
            ),
        decreases words.len() - i,
    {
        let ghost ws = words@.map_values(|w: Vec<char>| w@);
        assert(ws.take(i + 1).drop_last() =~= ws.take(i as int));
        assert(ws.take(i + 1).last() == words@[i as int]@);
        place_word_exec(&mut rows, &mut line, &words[i], budget);
        i += 1;
    }
    assert(words@.map_values(|w: Vec<char>| w@).take(words.len() as int) =~= split_spaces(chars@));
    if line.len() > 0 {
        let ghost old_rows = rows@;
        rows.push(line);
        assert(rows@.map_values(|x: Vec<char>| x@) =~= old_rows.map_values(|x: Vec<char>| x@).push(line@));
    }
    rows_to_strings(&rows)
}

/// The paragraphs of `s`, as `str::split("\n\n")` yields them: the text is
/// cut at each blank-line separator, scanning from the left.
pub open spec fn split_paragraphs(s: Seq<char>) -> Seq<Seq<char>>
    decreases s.len(),
{
    if s.len() == 0 {
        seq![Seq::<char>::empty()]
    } else if s.len() >= 2 && s[0] == '\n' && s[1] == '\n' {
        seq![Seq::<char>::empty()] + split_paragraphs(s.skip(2))
    } else {
        let r = split_paragraphs(s.skip(1));
        r.update(0, seq![s[0]] + r[0])
    }
}

/// The words of `s` (maximal runs without white space) joined by single
/// spaces, as `split_whitespace` followed by `join(" ")` gives them.
pub open spec fn collapse_ws(s: Seq<char>) -> Seq<char>
    decreases s.len(),
{
    if s.len() == 0 {
        Seq::empty()
    } else {
        let p = collapse_ws(s.drop_last());
        let c = s.last();
        if is_white_space(c) {
            p
        } else if s.len() >= 2 && !is_white_space(s[s.len() - 2]) {
            p.push(c)
        } else if p.len() == 0 {
            seq![c]
        } else {
            p.push(' ').push(c)
        }
    }
}

/// The rows of the paragraphs `paras`, each collapsed and wrapped on its
/// own; paragraphs with no words give no rows.
pub open spec fn paragraph_rows(paras: Seq<Seq<char>>, b: nat) -> Seq<Seq<char>>
    decreases paras.len(),
{
    if paras.len() == 0 {
        Seq::empty()
    } else {
        let joined = collapse_ws(paras.last());
        let rows = if joined.len() == 0 { Seq::empty() } else { wrap_spec(joined, b) };
        paragraph_rows(paras.drop_last(), b) + rows
    }
}

/// Doc-comment wrap: nothing when fewer than two characters fit, and
/// otherwise each blank-line-separated paragraph with its white space
/// collapsed, wrapped greedily to `b` characters.
pub open spec fn wrap_doc_spec(text: Seq<char>, b: nat) -> Seq<Seq<char>> {
    if b < 2 {
        Seq::empty()
    } else {
        paragraph_rows(split_paragraphs(text), b)
    }
}

proof fn lemma_split_paragraphs_nonempty(s: Seq<char>)
    ensures
        split_paragraphs(s).len() >= 1,
    decreases s.len(),
{
    if s.len() >= 2 && s[0] == '\n' && s[1] == '\n' {
        lemma_split_paragraphs_nonempty(s.skip(2));
    } else if s.len() > 0 {
        lemma_split_paragraphs_nonempty(s.skip(1));
    }
}

/// Splits `s` into paragraphs (see `split_paragraphs`).
fn split_paragraph_chars(s: &Vec<char>) -> (r: Vec<Vec<char>>)
    ensures
        r@.map_values(|p: Vec<char>| p@) == split_paragraphs(s@),
{
    let mut done: Vec<Vec<char>> = Vec::new();
    let mut cur: Vec<char> = Vec::new();
    let mut i: usize = 0;
    proof {
        lemma_split_paragraphs_nonempty(s@);
        let r = split_paragraphs(s@);
        assert(s@.skip(0) =~= s@);
        assert(r.update(0, cur@ + r[0]) =~= r);
        assert(seq![cur@ + r[0]] + r.skip(1) =~= r);
    }
    while i < s.len()
        invariant
            i <= s.len(),
            split_paragraphs(s@.skip(i as int)).len() >= 1,
            split_paragraphs(s@) == done@.map_values(|p: Vec<char>| p@) + seq![
                cur@ + split_paragraphs(s@.skip(i as int))[0],
            ] + split_paragraphs(s@.skip(i as int)).skip(1),
        decreases s.len() - i,
    {
        let ghost rest = s@.skip(i as int);
        let ghost d0 = done@.map_values(|p: Vec<char>| p@);
        let ghost c0 = cur@;
        if i + 1 < s.len() && s[i] == '\n' && s[i + 1] == '\n' {
            let ghost tail = split_paragraphs(rest.skip(2));
            assert(rest.skip(2) =~= s@.skip(i + 2));
            proof {
                lemma_split_paragraphs_nonempty(rest.skip(2));
            }
            assert(split_paragraphs(rest) == seq![Seq::<char>::empty()] + tail);
            let mut piece: Vec<char> = Vec::new();
            std::mem::swap(&mut cur, &mut piece);
            done.push(piece);
            assert(done@.map_values(|p: Vec<char>| p@) =~= d0.push(c0));
            assert((seq![Seq::<char>::empty()] + tail)[0] =~= Seq::<char>::empty());
            assert(c0 + Seq::<char>::empty() =~= c0);
            assert((seq![Seq::<char>::empty()] + tail).skip(1) =~= tail);
            assert(seq![cur@ + tail[0]] + tail.skip(1) =~= tail);
            assert(d0 + seq![c0 + (seq![Seq::<char>::empty()] + tail)[0]] + (seq![Seq::<char>::empty()] + tail).skip(1)
                =~= d0.push(c0) + seq![cur@ + tail[0]] + tail.skip(1));
            i += 2;
        } else {
            let ghost tail = split_paragraphs(rest.skip(1));
            assert(rest.skip(1) =~= s@.skip(i + 1));
            proof {
                lemma_split_paragraphs_nonempty(rest.skip(1));
            }
            assert(rest[0] == s@[i as int]);
            assert(split_paragraphs(rest) == tail.update(0, seq![rest[0]] + tail[0]));
            cur.push(s[i]);
            assert(cur@ =~= c0.push(s@[i as int]));
            assert(c0 + (seq![rest[0]] + tail[0]) =~= cur@ + tail[0]);
            assert(tail.update(0, seq![rest[0]] + tail[0]).skip(1) =~= tail.skip(1));
            i += 1;
        }
    }
    proof {
        assert(s@.skip(s@.len() as int) =~= Seq::<char>::empty());
        let r0 = split_paragraphs(Seq::<char>::empty());
        assert(r0 =~= seq![Seq::<char>::empty()]);
        assert(cur@ + r0[0] =~= cur@);
        assert(r0.skip(1) =~= Seq::<Seq<char>>::empty());
    }
    let ghost d1 = done@.map_values(|p: Vec<char>| p@);
    done.push(cur);
    assert(done@.map_values(|p: Vec<char>| p@) =~= d1.push(cur@));
    assert(split_paragraphs(s@) =~= d1.push(cur@));
    done
}

/// The words of `s` joined by single spaces (see `collapse_ws`).
fn collapse_white_space(s: &Vec<char>) -> (r: Vec<char>)
    ensures
        r@ == collapse_ws(s@),
{
    let mut out: Vec<char> = Vec::new();
    let mut i: usize = 0;
    while i < s.len()
        invariant
            i <= s.len(),
            out@ == collapse_ws(s@.take(i as int)),
        decreases s.len() - i,
    {
        let ghost t = s@.take(i + 1);
        assert(t.drop_last() =~= s@.take(i as int));
        assert(t.last() == s@[i as int]);
        let c = s[i];
        if is_white_space_exec(c) {
        } else if i >= 1 && !is_white_space_exec(s[i - 1]) {
            assert(t[t.len() - 2] == s@[i - 1]);
            out.push(c);
        } else {
            if out.len() > 0 {
                out.push(' ');
            }
            out.push(c);
        }
        i += 1;
    }
    assert(s@.take(s@.len() as int) =~= s@);
    out
}

/// Wraps a doc comment into rows of at most `budget` characters (see
/// `wrap_doc_spec`): paragraphs are separated by blank lines, line breaks
/// and runs of white space inside a paragraph become single spaces, and
/// fewer than two characters of room give no rows.
pub fn wrap_doc(text: &str, budget: usize) -> (r: Vec<String>)
    ensures
        r@.map_values(|s: String| s@) == wrap_doc_spec(text@, budget as nat),
{
    let mut rows: Vec<String> = Vec::new();
    if budget < 2 {
        assert(rows@.map_values(|s: String| s@) =~= Seq::<Seq<char>>::empty());
        return rows;
    }
    let chars = chars_of(text);
    let paras = split_paragraph_chars(&chars);
    let ghost ps = paras@.map_values(|p: Vec<char>| p@);
    let mut i: usize = 0;
    assert(ps.take(0) =~= Seq::<Seq<char>>::empty());
    assert(rows@.map_values(|s: String| s@) =~= Seq::<Seq<char>>::empty());
    while i < paras.len()
        invariant
            i <= paras.len(),
            budget >= 2,
            ps == paras@.map_values(|p: Vec<char>| p@),
            rows@.map_values(|s: String| s@) == paragraph_rows(ps.take(i as int), budget as nat),
        decreases paras.len() - i,
    {
        assert(ps.take(i + 1).drop_last() =~= ps.take(i as int));
        assert(ps.take(i + 1).last() == paras@[i as int]@);
        let joined = collapse_white_space(&paras[i]);
        if joined.len() > 0 {
            let s = string_from_chars(&joined);
            let wrapped = wrap_to_budget(&s, budget);
            let mut k: usize = 0;
            let ghost r0 = rows@.map_values(|s: String| s@);
            let ghost w = wrapped@.map_values(|s: String| s@);
            while k < wrapped.len()
                invariant
                    k <= wrapped.len(),
                    w == wrapped@.map_values(|s: String| s@),
                    rows@.map_values(|s: String| s@) == r0 + w.take(k as int),
                decreases wrapped.len() - k,
            {
                let ghost rk = rows@;
                rows.push(wrapped[k].clone());
                assert(rows@.map_values(|s: String| s@) =~= rk.map_values(|s: String| s@).push(w[k as int]));
                assert(w.take(k + 1) =~= w.take(k as int).push(w[k as int]));
                k += 1;
            }
            assert(w.take(w.len() as int) =~= w);
        } else {
            assert(paragraph_rows(ps.take(i + 1), budget as nat) =~= paragraph_rows(ps.take(i as int), budget as nat));
        }
        i += 1;
    }
    assert(ps.take(ps.len() as int) =~= ps);
    rows
}

/// A highlighted byte range of a source line.
#[derive(Clone, Copy, Debug, PartialEq, Eq, Structural)]
pub struct HighlightSpan {
    pub start: usize,
    pub end: usize,
    pub kind: HighlightKind,
}

/// Colour runs (byte length, colour) so far, and the byte position reached.
pub type RunState = (Seq<(usize, u32)>, int);

/// Adds one span (clamped to `len`): the gap before it in the primary text
/// colour, then the span itself in its syntax colour; overlapping parts of
/// a span that starts before the position reached are coloured again.
pub open spec fn add_span(st: RunState, span: HighlightSpan, len: int) -> RunState {
    let (runs, pos) = st;
    let start = if span.start < len { span.start as int } else { len };
    let end = if span.end < len { span.end as int } else { len };
    let with_gap = if start > pos { runs.push(((start - pos) as usize, TEXT_PRIMARY)) } else { runs };
    let with_span = if end > start {
        with_gap.push(((end - start) as usize, syntax_color_spec(span.kind)))
    } else {
        with_gap
    };
    (with_span, if pos > end { pos } else { end })
}

/// The runs after adding `spans` in order, from position 0.
pub open spec fn add_spans(spans: Seq<HighlightSpan>, len: int) -> RunState
    decreases spans.len(),
{
    if spans.len() == 0 {
        (Seq::empty(), 0)
    } else {
        add_span(add_spans(spans.drop_last(), len), spans.last(), len)
    }
}

/// Colour runs covering a line of `len` bytes: the spans in order, gaps
/// and the tail after the last span in the primary text colour.
pub open spec fn runs_spec(len: int, spans: Seq<HighlightSpan>) -> Seq<(usize, u32)> {
    let (runs, pos) = add_spans(spans, len);
    if pos < len { runs.push(((len - pos) as usize, TEXT_PRIMARY)) } else { runs }
}

/// Total byte length of a run list.
pub open spec fn run_total(runs: Seq<(usize, u32)>) -> int
    decreases runs.len(),
{
    if runs.len() == 0 {
        0
    } else {
        run_total(runs.drop_last()) + runs.last().0
    }
}

/// Spans that are well formed and in line order: none ends before it
/// starts, and none starts before an earlier one ends.
pub open spec fn spans_ordered(spans: Seq<HighlightSpan>) -> bool {
    &&& forall|i: int| 0 <= i < spans.len() ==> (#[trigger] spans[i]).start <= spans[i].end
    &&& forall|i: int, j: int| 0 <= i < j < spans.len() ==> (#[trigger] spans[i]).end <= (#[trigger] spans[j]).start
}

proof fn lemma_add_spans_total(spans: Seq<HighlightSpan>, len: int)
    requires
        len >= 0,
        spans_ordered(spans),
    ensures
        run_total(add_spans(spans, len).0) == add_spans(spans, len).1,
        0 <= add_spans(spans, len).1 <= len,
        spans.len() > 0 ==> add_spans(spans, len).1 == if spans.last().end < len {
            spans.last().end as int
        } else {
            len
        },
    decreases spans.len(),
{
    if spans.len() > 0 {
        let prev = spans.drop_last();
        assert(spans_ordered(prev)) by {
            assert forall|i: int, j: int| 0 <= i < j < prev.len() implies (#[trigger] prev[i]).end <= (#[trigger] prev[j]).start by {
                assert(spans[i] == prev[i] && spans[j] == prev[j]);
            }
            assert forall|i: int| 0 <= i < prev.len() implies (#[trigger] prev[i]).start <= prev[i].end by {
                assert(spans[i] == prev[i]);
            }
        }
        lemma_add_spans_total(prev, len);
        let (runs, pos) = add_spans(prev, len);
        let span = spans.last();
        assert(span == spans[spans.len() - 1]);
        assert(span.start <= span.end);
        if prev.len() > 0 {
            assert(prev.last() == spans[spans.len() - 2]);
            assert(spans[spans.len() - 2].end <= spans[spans.len() - 1].start);
        }
        let start = if span.start < len { span.start as int } else { len };
        let end = if span.end < len { span.end as int } else { len };
        assert(pos <= start);
        let with_gap = if start > pos { runs.push(((start - pos) as usize, TEXT_PRIMARY)) } else { runs };
        assert(run_total(with_gap) == start) by {
            if start > pos {
                assert(with_gap.drop_last() =~= runs);
            }
        }
        let with_span = if end > start {
            with_gap.push(((end - start) as usize, syntax_color_spec(span.kind)))
        } else {
            with_gap
        };
        assert(run_total(with_span) == end) by {
            if end > start {
                assert(with_span.drop_last() =~= with_gap);
            }
        }
    }
}

/// For spans in line order the runs cover the line exactly: their lengths
/// add up to the line's byte length.
pub proof fn lemma_runs_cover_line(len: usize, spans: Seq<HighlightSpan>)
    requires
        spans_ordered(spans),
    ensures
        run_total(runs_spec(len as int, spans)) == len,
{
    lemma_add_spans_total(spans, len as int);
    let (runs, pos) = add_spans(spans, len as int);
    if pos < len {
        assert(runs.push(((len - pos) as usize, TEXT_PRIMARY)).drop_last() =~= runs);
    }
}

/// Colour runs of a highlighted line of `len` bytes (see `runs_spec`).
pub fn runs_from_spans(len: usize, spans: &[HighlightSpan]) -> (r: Vec<(usize, u32)>)
    ensures
        r@ == runs_spec(len as int, spans@),
{
    let mut runs: Vec<(usize, u32)> = Vec::new();
    let mut pos: usize = 0;
    let mut i: usize = 0;
    while i < spans.len()
        invariant
            i <= spans.len(),
            pos <= len,
            (runs@, pos as int) == add_spans(spans@.take(i as int), len as int),
        decreases spans.len() - i,
    {
        assert(spans@.take(i + 1).drop_last() =~= spans@.take(i as int));
        let span = spans[i];
        let start = if span.start < len { span.start } else { len };
        let end = if span.end < len { span.end } else { len };
        if start > pos {
            runs.push((start - pos, TEXT_PRIMARY));
        }
        if end > start {
            runs.push((end - start, syntax_color(span.kind)));
        }
        if end > pos {
            pos = end;
        }
        i += 1;
    }
    assert(spans@.take(spans.len() as int) =~= spans@);
    if pos < len {
        runs.push((len - pos, TEXT_PRIMARY));
    }
    runs
}


/// A name cut to a budget of `b` characters: nothing when fewer than two
/// fit, the name itself when it fits, and otherwise its first `b - 1`
/// characters followed by an ellipsis.
pub open spec fn truncate_spec(name: Seq<char>, b: nat) -> Option<Seq<char>> {
    if b < 2 {
        None
    } else if name.len() <= b {
        Some(name)
    } else {
        Some(name.take(b - 1).push('…'))
    }
}

/// Cuts `name` to at most `budget` characters (see `truncate_spec`).
pub fn truncate_to_budget(name: &str, budget: usize) -> (r: Option<String>)
    ensures
        match r {
            Some(s) => truncate_spec(name@, budget as nat) == Some(s@),
            None => truncate_spec(name@, budget as nat) is None,
        },
{
    if budget < 2 {
        return None;
    }
    let chars = chars_of(name);
    if chars.len() <= budget {
        return Some(name.to_owned());
    }
    let mut cut = crate::text::slice_chars(&chars, 0, budget - 1);
    cut.push('…');
    assert(cut@ =~= name@.take(budget - 1).push('…'));
    Some(string_from_chars(&cut))
}

/// Number of UTF-8 bytes of `s`.
fn utf8_len(s: &[char]) -> (n: usize)
    ensures
        n == crate::text::utf8(s@).len(),
{
    let mut bytes: Vec<u8> = Vec::new();
    crate::text::push_utf8(&mut bytes, s);
    assert(bytes@ =~= crate::text::utf8(s@));
    bytes.len()
}

/// One code line cut to `b` characters with its colour runs: the runs of
/// the spans over the shown source bytes, and when the line was cut, one
/// more primary-colour run over the three bytes of the ellipsis.
pub open spec fn code_line_spec(text: Seq<char>, spans: Seq<HighlightSpan>, b: nat) -> Option<
    (Seq<char>, Seq<(usize, u32)>),
> {
    match truncate_spec(text, b) {
        None => None,
        Some(shown) => if text.len() <= b {
            Some((text, runs_spec(crate::text::utf8(text).len() as int, spans)))
        } else {
            Some(
                (
                    shown,
                    runs_spec(crate::text::utf8(text.take(b - 1)).len() as int, spans).push(
                        (3usize, TEXT_PRIMARY),
                    ),
                ),
            )
        },
    }
}

/// A code line cut to `budget` characters, with colour runs that cover its
/// bytes (see `code_line_spec`); `None` when fewer than two characters fit.
pub fn code_line(text: &str, spans: &[HighlightSpan], budget: usize) -> (r: Option<(String, Vec<(usize, u32)>)>)
    ensures
        match r {
            Some((s, runs)) => code_line_spec(text@, spans@, budget as nat) == Some((s@, runs@)),
            None => code_line_spec(text@, spans@, budget as nat) is None,
        },
{
    let shown = match truncate_to_budget(text, budget) {
        Some(s) => s,
        None => return None,
    };
    let chars = chars_of(text);
    if chars.len() <= budget {
        let n = utf8_len(&chars);
        let runs = runs_from_spans(n, spans);
        return Some((shown, runs));
    }
    let kept = crate::text::slice_chars(&chars, 0, budget - 1);
    assert(kept@ =~= text@.take(budget - 1));
    let n = utf8_len(&kept);
    let mut runs = runs_from_spans(n, spans);
    runs.push((3, TEXT_PRIMARY));
    Some((shown, runs))
}


proof fn lemma_utf8_prefix(s: Seq<char>, k: int)
    requires
        0 <= k <= s.len(),
    ensures
        crate::text::utf8(s.take(k)).len() <= crate::text::utf8(s).len(),
    decreases s.len() - k,
{
    if k < s.len() {
        lemma_utf8_prefix(s, k + 1);
        assert(s.take(k + 1).drop_last() =~= s.take(k));
    } else {
        assert(s.take(k) =~= s);
    }
}

/// The colour runs of a shown code line cover exactly its bytes, whether
/// or not the line was cut, when the spans are in line order.
pub proof fn lemma_code_line_covers_shown(text: Seq<char>, spans: Seq<HighlightSpan>, b: nat)
    requires
        spans_ordered(spans),
        crate::text::utf8(text).len() <= usize::MAX,
    ensures
        match code_line_spec(text, spans, b) {
            Some((shown, runs)) => run_total(runs) == crate::text::utf8(shown).len(),
            None => true,
        },
{
    if b >= 2 {
        if text.len() <= b {
            lemma_runs_cover_line(crate::text::utf8(text).len() as usize, spans);
        } else {
            let kept = text.take(b - 1);
            lemma_utf8_prefix(text, b - 1);
            lemma_runs_cover_line(crate::text::utf8(kept).len() as usize, spans);
            let runs = runs_spec(crate::text::utf8(kept).len() as int, spans);
            assert(runs.push((3usize, TEXT_PRIMARY)).drop_last() =~= runs);
            assert(kept.push('…').drop_last() =~= kept);
            assert(crate::text::utf8_char('…').len() == 3);
        }
    }
}


/// The colour runs of the next `left` bytes, taken from `runs` whose
/// first run is already used up to `off` bytes: whole runs while they
/// fit, then the part of one run that fills the rest. Also returns the
/// runs still to be taken and how far the first of them is used.
pub open spec fn take_runs(runs: Seq<(usize, u32)>, off: int, left: int) -> (
    Seq<(usize, u32)>,
    Seq<(usize, u32)>,
    int,
)
    decreases runs.len(),
{
    if left <= 0 || runs.len() == 0 {
        (Seq::empty(), runs, off)
    } else {
        let available = runs[0].0 - off;
        if available <= left {
            let r = take_runs(runs.skip(1), 0, left - available);
            (seq![(available as usize, runs[0].1)] + r.0, r.1, r.2)
        } else {
            (seq![(left as usize, runs[0].1)], runs, off + left)
        }
    }
}

/// A long code line cut into rows of `b` characters (the last row may be
/// shorter), each with the colour runs of its bytes taken in order from
/// `runs` (the first already used up to `off` bytes).
pub open spec fn code_segments(chars: Seq<char>, runs: Seq<(usize, u32)>, off: int, b: nat) -> Seq<
    (Seq<char>, Seq<(usize, u32)>),
>
    decreases chars.len(),
{
    if chars.len() == 0 || b == 0 {
        Seq::empty()
    } else {
        let k = if chars.len() < b { chars.len() } else { b };
        let seg = chars.take(k as int);
        let t = take_runs(runs, off, crate::text::utf8(seg).len() as int);
        seq![(seg, t.0)] + code_segments(chars.skip(k as int), t.1, t.2, b)
    }
}

/// A code line wrapped to `b` characters per row: nothing without room,
/// the line itself with its runs when it fits, and otherwise rows of `b`
/// characters sharing out the line's colour runs by bytes.
pub open spec fn wrap_code_spec(text: Seq<char>, spans: Seq<HighlightSpan>, b: nat) -> Seq<
    (Seq<char>, Seq<(usize, u32)>),
> {
    let runs = runs_spec(crate::text::utf8(text).len() as int, spans);
    if b == 0 {
        Seq::empty()
    } else if text.len() <= b {
        seq![(text, runs)]
    } else {
        code_segments(text, runs, 0, b)
    }
}

/// The view of wrapped code rows.
pub open spec fn code_rows_view(r: Seq<(String, Vec<(usize, u32)>)>) -> Seq<(Seq<char>, Seq<(usize, u32)>)> {
    r.map_values(|p: (String, Vec<(usize, u32)>)| (p.0@, p.1@))
}

/// Wraps a highlighted code line into rows of `budget` characters whose
/// colour runs share out the line's runs by bytes (see `wrap_code_spec`).
pub fn wrap_code_line(text: &str, spans: &[HighlightSpan], budget: usize) -> (r: Vec<(String, Vec<(usize, u32)>)>)
    ensures
        code_rows_view(r@) == wrap_code_spec(text@, spans@, budget as nat),
{
    let mut result: Vec<(String, Vec<(usize, u32)>)> = Vec::new();
    if budget == 0 {
        assert(code_rows_view(result@) =~= Seq::<(Seq<char>, Seq<(usize, u32)>)>::empty());
        return result;
    }
    let chars = chars_of(text);
    let full = runs_from_spans(utf8_len(&chars), spans);
    if chars.len() <= budget {
        result.push((text.to_owned(), full));
        assert(code_rows_view(result@) =~= seq![(text@, full@)]);
        return result;
    }
    let ghost goal = code_segments(chars@, full@, 0, budget as nat);
    let mut ci: usize = 0;
    let mut run_idx: usize = 0;
    let mut run_off: usize = 0;
    assert(chars@.skip(0) =~= chars@);
    assert(full@.skip(0) =~= full@);
    assert(code_rows_view(result@) =~= Seq::<(Seq<char>, Seq<(usize, u32)>)>::empty());
    while ci < chars.len()
        invariant
            budget > 0,
            ci <= chars.len(),
            run_idx <= full.len(),
            run_idx < full.len() ==> run_off <= full@[run_idx as int].0,
            code_rows_view(result@) + code_segments(chars@.skip(ci as int), full@.skip(run_idx as int), run_off as int, budget as nat) == goal,
        decreases chars.len() - ci,
    {
        let k = if chars.len() - ci < budget { chars.len() - ci } else { budget };
        let seg = crate::text::slice_chars(&chars, ci, ci + k);
        let ghost rest_chars = chars@.skip(ci as int);
        assert(seg@ =~= rest_chars.take(k as int));
        let mut left = utf8_len(&seg);
        let ghost t0 = take_runs(full@.skip(run_idx as int), run_off as int, left as int);
        let mut seg_runs: Vec<(usize, u32)> = Vec::new();
        assert(seg_runs@ + t0.0 =~= t0.0);
        while left > 0 && run_idx < full.len()
            invariant
                run_idx <= full.len(),
                run_idx < full.len() ==> run_off <= full@[run_idx as int].0,
                seg_runs@ + take_runs(full@.skip(run_idx as int), run_off as int, left as int).0 == t0.0,
                take_runs(full@.skip(run_idx as int), run_off as int, left as int).1 == t0.1,
                take_runs(full@.skip(run_idx as int), run_off as int, left as int).2 == t0.2,
            decreases full.len() - run_idx, left,
        {
            let ghost rest = full@.skip(run_idx as int);
            assert(rest[0] == full@[run_idx as int]);
            assert(rest.skip(1) =~= full@.skip(run_idx + 1));
            let (run_len, color) = full[run_idx];
            let available = run_len - run_off;
            let ghost s0 = seg_runs@;
            let ghost l0 = left;
            let ghost o0 = run_off;
            if available <= left {
                seg_runs.push((available, color));
                left = left - available;
                run_idx = run_idx + 1;
                run_off = 0;
                assert(seg_runs@ + take_runs(full@.skip(run_idx as int), run_off as int, left as int).0 =~= s0
                    + (seq![(available, color)] + take_runs(full@.skip(run_idx as int), 0, left as int).0));
            } else {
                seg_runs.push((left, color));
                run_off = run_off + left;
                left = 0;
                assert(take_runs(rest, o0 as int, l0 as int) == (seq![(l0, color)], rest, o0 + l0));
                assert(seg_runs@ + take_runs(rest, run_off as int, 0).0 =~= s0 + seq![(l0, color)]);
            }
        }
        assert(seg_runs@ == t0.0);
        let row = crate::text::string_from_chars(&seg);
        let ghost before = code_rows_view(result@);
        result.push((row, seg_runs));
        assert(code_rows_view(result@) =~= before.push((seg@, t0.0)));
        assert(rest_chars.skip(k as int) =~= chars@.skip(ci + k));
        ci = ci + k;
    }
    assert(chars@.skip(chars.len() as int) =~= Seq::<char>::empty());
    assert(code_rows_view(result@) =~= goal);
    result
}


proof fn lemma_run_total_concat(a: Seq<(usize, u32)>, b: Seq<(usize, u32)>)
    ensures
        run_total(a + b) == run_total(a) + run_total(b),
    decreases b.len(),
{
    if b.len() > 0 {
        lemma_run_total_concat(a, b.drop_last());
        assert((a + b).drop_last() =~= a + b.drop_last());
    } else {
        assert(a + b =~= a);
    }
}

proof fn lemma_run_total_single(x: (usize, u32))
    ensures
        run_total(seq![x]) == x.0,
{
    assert(seq![x].drop_last() =~= Seq::<(usize, u32)>::empty());
    assert(run_total(Seq::<(usize, u32)>::empty()) == 0);
}

proof fn lemma_run_total_front(runs: Seq<(usize, u32)>)
    requires
        runs.len() > 0,
    ensures
        run_total(runs) == runs[0].0 + run_total(runs.skip(1)),
{
    lemma_run_total_concat(seq![runs[0]], runs.skip(1));
    assert(seq![runs[0]] + runs.skip(1) =~= runs);
    lemma_run_total_single(runs[0]);
}

/// The first run is used no further than its length, and an empty list
/// has no offset.
pub open spec fn runs_offset_ok(runs: Seq<(usize, u32)>, off: int) -> bool {
    &&& 0 <= off
    &&& runs.len() > 0 ==> off <= runs[0].0
    &&& runs.len() == 0 ==> off == 0
}

proof fn lemma_take_runs(runs: Seq<(usize, u32)>, off: int, left: int)
    requires
        runs_offset_ok(runs, off),
        0 <= left <= run_total(runs) - off,
    ensures
        run_total(take_runs(runs, off, left).0) == left,
        runs_offset_ok(take_runs(runs, off, left).1, take_runs(runs, off, left).2),
        run_total(take_runs(runs, off, left).1) - take_runs(runs, off, left).2 == run_total(runs) - off - left,
    decreases runs.len(),
{
    if left > 0 && runs.len() > 0 {
        lemma_run_total_front(runs);
        let available = runs[0].0 - off;
        if available <= left {
            lemma_take_runs(runs.skip(1), 0, left - available);
            let r = take_runs(runs.skip(1), 0, left - available);
            lemma_run_total_concat(seq![(available as usize, runs[0].1)], r.0);
            lemma_run_total_single((available as usize, runs[0].1));
        } else {
            lemma_run_total_single((left as usize, runs[0].1));
        }
    } else if runs.len() == 0 {
        assert(run_total(runs) == 0);
    }
}

proof fn lemma_utf8_concat(a: Seq<char>, b: Seq<char>)
    ensures
        crate::text::utf8(a + b) == crate::text::utf8(a) + crate::text::utf8(b),
    decreases b.len(),
{
    if b.len() > 0 {
        lemma_utf8_concat(a, b.drop_last());
        assert((a + b).drop_last() =~= a + b.drop_last());
        assert((a + b).last() == b.last());
        assert(crate::text::utf8(a + b) =~= crate::text::utf8(a) + crate::text::utf8(b));
    } else {
        assert(a + b =~= a);
        assert(crate::text::utf8(b) =~= Seq::<u8>::empty());
        assert(crate::text::utf8(a) + crate::text::utf8(b) =~= crate::text::utf8(a));
    }
}

proof fn lemma_segments_cover(chars: Seq<char>, runs: Seq<(usize, u32)>, off: int, b: nat)
    requires
        b > 0,
        runs_offset_ok(runs, off),
        crate::text::utf8(chars).len() == run_total(runs) - off,
    ensures
        forall|i: int| 0 <= i < code_segments(chars, runs, off, b).len() ==> run_total(
            #[trigger] code_segments(chars, runs, off, b)[i].1,
        ) == crate::text::utf8(code_segments(chars, runs, off, b)[i].0).len(),
    decreases chars.len(),
{
    if chars.len() > 0 {
        let k = if chars.len() < b { chars.len() } else { b };
        let seg = chars.take(k as int);
        let tail = chars.skip(k as int);
        lemma_utf8_concat(seg, tail);
        assert(seg + tail =~= chars);
        let left = crate::text::utf8(seg).len() as int;
        lemma_take_runs(runs, off, left);
        let t = take_runs(runs, off, left);
        lemma_segments_cover(tail, t.1, t.2, b);
        let segs = code_segments(chars, runs, off, b);
        let rest = code_segments(tail, t.1, t.2, b);
        assert(segs == seq![(seg, t.0)] + rest);
        assert forall|i: int| 0 <= i < segs.len() implies run_total(#[trigger] segs[i].1)
            == crate::text::utf8(segs[i].0).len() by {
            if i > 0 {
                assert(segs[i] == rest[i - 1]);
            }
        }
    }
}

/// Every row of a wrapped code line has colour runs that cover exactly
/// its bytes, when the spans are in line order.
pub proof fn lemma_wrap_code_covers_rows(text: Seq<char>, spans: Seq<HighlightSpan>, b: nat)
    requires
        spans_ordered(spans),
        crate::text::utf8(text).len() <= usize::MAX,
    ensures
        forall|i: int| 0 <= i < wrap_code_spec(text, spans, b).len() ==> run_total(
            #[trigger] wrap_code_spec(text, spans, b)[i].1,
        ) == crate::text::utf8(wrap_code_spec(text, spans, b)[i].0).len(),
{
    let n = crate::text::utf8(text).len();
    lemma_runs_cover_line(n as usize, spans);
    let runs = runs_spec(n as int, spans);
    if b > 0 && text.len() > b {
        lemma_segments_cover(text, runs, 0, b);
    }
}


/// The texts of wrapped code rows, joined.
pub open spec fn joined_rows(rows: Seq<(Seq<char>, Seq<(usize, u32)>)>) -> Seq<char>
    decreases rows.len(),
{
    if rows.len() == 0 {
        Seq::empty()
    } else {
        rows[0].0 + joined_rows(rows.skip(1))
    }
}

proof fn lemma_segments_join(chars: Seq<char>, runs: Seq<(usize, u32)>, off: int, b: nat)
    requires
        b > 0,
    ensures
        joined_rows(code_segments(chars, runs, off, b)) == chars,
    decreases chars.len(),
{
    if chars.len() > 0 {
        let k = if chars.len() < b { chars.len() } else { b };
        let seg = chars.take(k as int);
        let t = take_runs(runs, off, crate::text::utf8(seg).len() as int);
        let rest = code_segments(chars.skip(k as int), t.1, t.2, b);
        lemma_segments_join(chars.skip(k as int), t.1, t.2, b);
        let segs = code_segments(chars, runs, off, b);
        assert(segs.skip(1) =~= rest);
        assert(seg + chars.skip(k as int) =~= chars);
    } else {
        assert(code_segments(chars, runs, off, b) =~= Seq::<(Seq<char>, Seq<(usize, u32)>)>::empty());
    }
}

/// Law: the rows of a wrapped code line, joined, give back the line
/// (when there is room for at least one character).
pub proof fn lemma_wrap_code_rows_join(text: Seq<char>, spans: Seq<HighlightSpan>, b: nat)
    requires
        b > 0,
    ensures
        joined_rows(wrap_code_spec(text, spans, b)) == text,
{
    let runs = runs_spec(crate::text::utf8(text).len() as int, spans);
    if text.len() <= b {
        let rows = wrap_code_spec(text, spans, b);
        assert(rows.skip(1) =~= Seq::<(Seq<char>, Seq<(usize, u32)>)>::empty());
        assert(joined_rows(rows.skip(1)) == Seq::<char>::empty());
        assert(rows[0].0 == text);
        assert(text + Seq::<char>::empty() =~= text);
    } else {
        lemma_segments_join(text, runs, 0, b);
    }
}


proof fn lemma_segment_widths(chars: Seq<char>, runs: Seq<(usize, u32)>, off: int, b: nat)
    requires
        b > 0,
    ensures
        forall|i: int|
            0 <= i < code_segments(chars, runs, off, b).len() ==> (#[trigger] code_segments(chars, runs, off, b)[i]).0.len() <= b
                && (i + 1 < code_segments(chars, runs, off, b).len() ==> code_segments(chars, runs, off, b)[i].0.len() == b),
    decreases chars.len(),
{
    if chars.len() > 0 {
        let k = if chars.len() < b { chars.len() } else { b };
        let seg = chars.take(k as int);
        let t = take_runs(runs, off, crate::text::utf8(seg).len() as int);
        let rest = code_segments(chars.skip(k as int), t.1, t.2, b);
        lemma_segment_widths(chars.skip(k as int), t.1, t.2, b);
        let segs = code_segments(chars, runs, off, b);
        assert forall|i: int| 0 <= i < segs.len() implies (#[trigger] segs[i]).0.len() <= b && (i + 1 < segs.len() ==> segs[i].0.len() == b) by {
            if i > 0 {
                assert(segs[i] == rest[i - 1]);
            } else if i + 1 < segs.len() {
                assert(rest.len() > 0);
                assert(chars.skip(k as int).len() > 0);
            }
        }
    }
}

/// Law: every row of a wrapped code line holds at most `b` characters,
/// and every row but the last exactly `b`.
pub proof fn lemma_wrap_code_row_widths(text: Seq<char>, spans: Seq<HighlightSpan>, b: nat)
    requires
        b > 0,
    ensures
        forall|i: int|
            0 <= i < wrap_code_spec(text, spans, b).len() ==> (#[trigger] wrap_code_spec(text, spans, b)[i]).0.len() <= b
                && (i + 1 < wrap_code_spec(text, spans, b).len() ==> wrap_code_spec(text, spans, b)[i].0.len() == b),
{
    let runs = runs_spec(crate::text::utf8(text).len() as int, spans);
    if text.len() > b {
        lemma_segment_widths(text, runs, 0, b);
    }
}

/// `s` without its spaces.
pub open spec fn strip_spaces(s: Seq<char>) -> Seq<char>
    decreases s.len(),
{
    if s.len() == 0 {
        Seq::empty()
    } else if s.last() == ' ' {
        strip_spaces(s.drop_last())
    } else {
        strip_spaces(s.drop_last()).push(s.last())
    }
}

/// Rows joined with nothing between them.
pub open spec fn concat_rows(rows: Seq<Seq<char>>) -> Seq<char>
    decreases rows.len(),
{
    if rows.len() == 0 {
        Seq::empty()
    } else {
        concat_rows(rows.drop_last()) + rows.last()
    }
}

/// A row that is not empty and neither starts nor ends with a space.
pub open spec fn tidy_row(r: Seq<char>) -> bool {
    r.len() > 0 && r[0] != ' ' && r.last() != ' '
}

/// `w` holds no space.
pub open spec fn no_space(w: Seq<char>) -> bool {
    forall|k: int| 0 <= k < w.len() ==> w[k] != ' '
}

proof fn lemma_strip_concat(a: Seq<char>, b: Seq<char>)
    ensures
        strip_spaces(a + b) == strip_spaces(a) + strip_spaces(b),
    decreases b.len(),
{
    if b.len() == 0 {
        assert(a + b =~= a);
        assert(strip_spaces(a) + strip_spaces(b) =~= strip_spaces(a));
    } else {
        lemma_strip_concat(a, b.drop_last());
        assert((a + b).drop_last() =~= a + b.drop_last());
        assert((a + b).last() == b.last());
        if b.last() == ' ' {
        } else {
            assert(strip_spaces(a) + strip_spaces(b) =~= (strip_spaces(a) + strip_spaces(b.drop_last())).push(b.last()));
        }
    }
}

proof fn lemma_strip_no_space(w: Seq<char>)
    requires
        no_space(w),
    ensures
        strip_spaces(w) == w,
    decreases w.len(),
{
    if w.len() > 0 {
        assert(no_space(w.drop_last()));
        lemma_strip_no_space(w.drop_last());
        assert(w.drop_last().push(w.last()) =~= w);
    }
}

proof fn lemma_split_spaces(s: Seq<char>)
    ensures
        split_spaces(s).len() >= 1,
        concat_rows(split_spaces(s)) == strip_spaces(s),
        forall|i: int| 0 <= i < split_spaces(s).len() ==> no_space(#[trigger] split_spaces(s)[i]),
    decreases s.len(),
{
    if s.len() == 0 {
        let r = seq![Seq::<char>::empty()];
        assert(split_spaces(s) == r);
        assert(r.drop_last() =~= Seq::<Seq<char>>::empty());
        assert(concat_rows(Seq::<Seq<char>>::empty()) == Seq::<char>::empty());
        assert(concat_rows(r) =~= Seq::<char>::empty());
        assert(no_space(r[0]));
    } else {
        lemma_split_spaces(s.drop_last());
        let w = split_spaces(s.drop_last());
        let c = s.last();
        if c == ' ' {
            let r = w.push(Seq::<char>::empty());
            assert(split_spaces(s) == r);
            assert(r.drop_last() =~= w);
            assert(concat_rows(w) + Seq::<char>::empty() =~= concat_rows(w));
            assert forall|i: int| 0 <= i < r.len() implies no_space(#[trigger] r[i]) by {
                if i < w.len() {
                    assert(r[i] == w[i]);
                }
            }
        } else {
            let n = w.len() - 1;
            let r = w.update(n, w.last().push(c));
            assert(split_spaces(s) == r);
            assert(r.drop_last() =~= w.drop_last());
            assert(w.drop_last().push(w.last()) =~= w);
            assert(concat_rows(w) == concat_rows(w.drop_last()) + w.last());
            assert(concat_rows(r) =~= concat_rows(w).push(c));
            assert forall|i: int| 0 <= i < r.len() implies no_space(#[trigger] r[i]) by {
                if i < n {
                    assert(r[i] == w[i]);
                } else {
                    assert(no_space(w[n]));
                }
            }
        }
    }
}

/// The words placed so far, their spaces gone, are what the rows and the
/// open row hold without spaces; every closed row is tidy, and so is the
/// open row when it is not empty.
pub open spec fn wrap_state_ok(st: WrapState, placed: Seq<char>) -> bool {
    &&& strip_spaces(concat_rows(st.0) + st.1) == placed
    &&& forall|i: int| 0 <= i < st.0.len() ==> tidy_row(#[trigger] st.0[i])
    &&& (st.1.len() == 0 || tidy_row(st.1))
}

proof fn lemma_place_word_ok(st: WrapState, placed: Seq<char>, w: Seq<char>, b: nat)
    requires
        b > 0,
        no_space(w),
        wrap_state_ok(st, placed),
    ensures
        wrap_state_ok(place_word(st, w, b), placed + w),
    decreases w.len(),
{
    let (rows, line) = st;
    lemma_strip_concat(concat_rows(rows), line);
    if w.len() > b {
        let closed = if line.len() > 0 { rows.push(line) } else { rows };
        let piece = w.take(b as int);
        let next: WrapState = (closed.push(piece), Seq::empty());
        assert(no_space(piece));
        lemma_strip_no_space(piece);
        assert(concat_rows(closed) == concat_rows(rows) + line) by {
            if line.len() > 0 {
                assert(closed.drop_last() =~= rows);
            } else {
                assert(concat_rows(rows) + line =~= concat_rows(rows));
            }
        }
        assert(closed.push(piece).drop_last() =~= closed);
        assert(concat_rows(next.0) + next.1 =~= concat_rows(closed) + piece);
        lemma_strip_concat(concat_rows(closed), piece);
        assert forall|i: int| 0 <= i < next.0.len() implies tidy_row(#[trigger] next.0[i]) by {
            if i < rows.len() {
                assert(next.0[i] == rows[i]);
            } else if i < closed.len() {
                assert(next.0[i] == line);
            } else {
                assert(next.0[i] == piece);
            }
        }
        assert(no_space(w.skip(b as int)));
        lemma_place_word_ok(next, placed + piece, w.skip(b as int), b);
        assert(placed + piece + w.skip(b as int) =~= placed + w);
    } else if w.len() == 0 {
        assert(placed + w =~= placed);
    } else {
        lemma_strip_no_space(w);
        assert(tidy_row(w));
        if line.len() == 0 {
            assert(concat_rows(rows) + w =~= concat_rows(rows) + line + w);
            lemma_strip_concat(concat_rows(rows) + line, w);
            assert(concat_rows(rows) + line =~= concat_rows(rows));
        } else if line.len() + 1 + w.len() > b {
            let r2 = rows.push(line);
            assert(r2.drop_last() =~= rows);
            lemma_strip_concat(concat_rows(r2), w);
            assert forall|i: int| 0 <= i < r2.len() implies tidy_row(#[trigger] r2[i]) by {
                if i < rows.len() {
                    assert(r2[i] == rows[i]);
                }
            }
        } else {
            let l2 = line + seq![' '] + w;
            assert(concat_rows(rows) + l2 =~= (concat_rows(rows) + line) + (seq![' '] + w));
            lemma_strip_concat(concat_rows(rows) + line, seq![' '] + w);
            lemma_strip_concat(seq![' '], w);
            assert(strip_spaces(seq![' ']) =~= Seq::<char>::empty()) by {
                let sp = seq![' '];
                assert(sp.len() == 1 && sp.last() == ' ');
                assert(sp.drop_last() =~= Seq::<char>::empty());
                assert(strip_spaces(Seq::<char>::empty()) == Seq::<char>::empty());
            }
            assert(Seq::<char>::empty() + w =~= w);
            assert(l2[0] == line[0]);
            assert(l2.last() == w.last());
        }
    }
}

proof fn lemma_place_words_ok(words: Seq<Seq<char>>, b: nat)
    requires
        b > 0,
        forall|i: int| 0 <= i < words.len() ==> no_space(#[trigger] words[i]),
    ensures
        wrap_state_ok(place_words(words, b), concat_rows(words)),
    decreases words.len(),
{
    if words.len() == 0 {
        assert(concat_rows(Seq::<Seq<char>>::empty()) + Seq::<char>::empty() =~= Seq::<char>::empty());
    } else {
        assert forall|i: int| 0 <= i < words.drop_last().len() implies no_space(#[trigger] words.drop_last()[i]) by {
            assert(words.drop_last()[i] == words[i]);
        }
        lemma_place_words_ok(words.drop_last(), b);
        assert(no_space(words[words.len() - 1]));
        lemma_place_word_ok(place_words(words.drop_last(), b), concat_rows(words.drop_last()), words.last(), b);
    }
}

/// Law: wrapping keeps the text: the rows joined, spaces aside, are the
/// text without its spaces; and when the text did not fit on one row,
/// no row is empty or starts or ends with a space.
pub proof fn lemma_wrap_keeps_text(text: Seq<char>, b: nat)
    requires
        b > 0,
    ensures
        strip_spaces(concat_rows(wrap_spec(text, b))) == strip_spaces(text),
        text.len() > b ==> forall|i: int| 0 <= i < wrap_spec(text, b).len() ==> tidy_row(#[trigger] wrap_spec(text, b)[i]),
{
    if text.len() <= b {
        assert(wrap_spec(text, b) == seq![text]);
        assert(seq![text].drop_last() =~= Seq::<Seq<char>>::empty());
        assert(concat_rows(Seq::<Seq<char>>::empty()) == Seq::<char>::empty());
        assert(Seq::<char>::empty() + text =~= text);
        assert(concat_rows(seq![text]) == text);
    } else {
        let words = split_spaces(text);
        lemma_split_spaces(text);
        lemma_place_words_ok(words, b);
        let st = place_words(words, b);
        let rows = st.0;
        let line = st.1;
        assert(wrap_spec(text, b) == if line.len() > 0 { rows.push(line) } else { rows });
        if line.len() > 0 {
            assert(rows.push(line).drop_last() =~= rows);
            let r = rows.push(line);
            assert forall|i: int| 0 <= i < r.len() implies tidy_row(#[trigger] r[i]) by {
                if i < rows.len() {
                    assert(r[i] == rows[i]);
                }
            }
        } else {
            assert(concat_rows(rows) + line =~= concat_rows(rows));
        }
    }
}

} // verus!
