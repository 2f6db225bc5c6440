//! Search palette: case-insensitive subsequence matching of file and
//! symbol names, and the palette's query/results/selection state.

use vstd::prelude::*;

use crate::symbol::{IdView, SymbolId};
use crate::text::{chars_of, index_of_from, lemma_index_of_from_range};
use crate::tree_index::{EntryView, TreeIndex};

verus! {

/// What the palette lists: files only, or every non-folder symbol.
#[derive(Debug, Clone, Copy, PartialEq, Eq, Structural)]
pub enum PaletteMode {
    File,
    Symbol,
}

/// The lowercase mapping of one character (`char::to_lowercase`): one to
/// three characters, fixed by the Unicode tables of the standard library.
pub uninterp spec fn lowercase_of(c: char) -> Seq<char>;

/// Lowercase mapping of a character (`char::to_lowercase`), collected.
#[verifier::external_body]
fn lowercase_chars(c: char) -> (r: Vec<char>)
    ensures
        r@ == lowercase_of(c),
{
    c.to_lowercase().collect()
}

/// Lowercase form of a character sequence, character by character.
pub open spec fn lower(s: Seq<char>) -> Seq<char>
    decreases s.len(),
{
    if s.len() == 0 {
        Seq::empty()
    } else {
        lower(s.drop_last()) + lowercase_of(s.last())
    }
}

/// Whether `q` occurs in `n` as a (not necessarily contiguous)
/// subsequence, matching each character of `q` at its earliest possible
/// position after the previous match.
pub open spec fn is_subsequence(q: Seq<char>, n: Seq<char>) -> bool
    decreases q.len(),
{
    if q.len() == 0 {
        true
    } else {
        let i = index_of_from(n, q[0], 0);
        if i >= n.len() {
            false
        } else {
            is_subsequence(q.drop_first(), n.skip(i + 1))
        }
    }
}

/// Lowercase form of a string.
fn lower_chars(s: &str) -> (r: Vec<char>)
    ensures
        r@ == lower(s@),
{
    let cs = chars_of(s);
    let mut out: Vec<char> = Vec::new();
    let mut i: usize = 0;
    while i < cs.len()
        invariant
            i <= cs.len(),
            cs@ == s@,
            out@ == lower(cs@.take(i as int)),
        decreases cs.len() - i,
    {
        let mut l = lowercase_chars(cs[i]);
        assert(cs@.take(i as int + 1).drop_last() =~= cs@.take(i as int));
        out.append(&mut l);
        i += 1;
    }
    assert(cs@.take(cs@.len() as int) =~= cs@);
    out
}

/// The first match of `c` in `s` from `j` on, seen from the suffix `s[j..]`.
proof fn lemma_index_of_skip(s: Seq<char>, c: char, j: int)
    requires
        0 <= j <= s.len(),
    ensures
        index_of_from(s.skip(j), c, 0) == index_of_from(s, c, j) - j,
{
    lemma_index_of_skip_from(s, c, j, 0);
}

proof fn lemma_index_of_skip_from(s: Seq<char>, c: char, j: int, k: int)
    requires
        0 <= j <= s.len(),
        0 <= k,
    ensures
        index_of_from(s.skip(j), c, k) == index_of_from(s, c, j + k) - j,
    decreases s.len() - j - k,
{
    if j + k < s.len() && s[j + k] != c {
        lemma_index_of_skip_from(s, c, j, k + 1);
    }
}

/// Case-insensitive subsequence match: every character of `query` occurs
/// in `name`, in order (both sides lowercased). The empty query matches
/// every name.
pub fn fuzzy_match(query: &str, name: &str) -> (r: bool)
    ensures
        r == is_subsequence(lower(query@), lower(name@)),
        query@.len() == 0 ==> r,
{
    let q = lower_chars(query);
    let n = lower_chars(name);
    let mut i: usize = 0;
    let mut j: usize = 0;
    assert(q@.skip(0) =~= q@);
    assert(n@.skip(0) =~= n@);
    assert(query@.len() == 0 ==> q@.len() == 0);
    while i < q.len()
        invariant
            q@ == lower(query@),
            n@ == lower(name@),
            query@.len() == 0 ==> q@.len() == 0,
            i <= q.len(),
            j <= n.len(),
            is_subsequence(q@, n@) == is_subsequence(q@.skip(i as int), n@.skip(j as int)),
        decreases q.len() - i,
    {
        let c = q[i];
        let j0 = j;
        while j < n.len() && n[j] != c
            invariant
                j0 <= j <= n.len(),
                is_subsequence(q@, n@) == is_subsequence(q@.skip(i as int), n@.skip(j0 as int)),
                index_of_from(n@, c, j0 as int) == index_of_from(n@, c, j as int),
            decreases n.len() - j,
        {
            j += 1;
        }
        proof {
            lemma_index_of_skip(n@, c, j0 as int);
            assert(q@.skip(i as int)[0] == c);
        }
        if j >= n.len() {
            assert(index_of_from(n@, c, j as int) == n@.len());
            assert(index_of_from(n@.skip(j0 as int), c, 0) >= n@.skip(j0 as int).len());
            assert(!is_subsequence(q@.skip(i as int), n@.skip(j0 as int)));
            return false;
        }
        proof {
            assert(q@.skip(i as int).drop_first() =~= q@.skip(i as int + 1));
            assert(n@.skip(j0 as int).skip(j - j0 + 1) =~= n@.skip(j as int + 1));
        }
        j += 1;
        i += 1;
    }
    assert(q@.skip(i as int) =~= Seq::<char>::empty());
    true
}

/// Any sequence is a subsequence of itself.
pub proof fn lemma_subsequence_reflexive(s: Seq<char>)
    ensures
        is_subsequence(s, s),
    decreases s.len(),
{
    if s.len() > 0 {
        assert(index_of_from(s, s[0], 0) == 0);
        assert(s.skip(1) =~= s.drop_first());
        lemma_subsequence_reflexive(s.drop_first());
    }
}

/// Law: every name matches a query equal to itself (an exact match).
pub proof fn lemma_exact_name_matches(name: Seq<char>)
    ensures
        is_subsequence(lower(name), lower(name)),
{
    lemma_subsequence_reflexive(lower(name));
}

/// Dropping the last query character keeps a match a match.
pub proof fn lemma_subsequence_prefix(q: Seq<char>, c: char, n: Seq<char>)
    requires
        is_subsequence(q.push(c), n),
    ensures
        is_subsequence(q, n),
    decreases q.len(),
{
    if q.len() > 0 {
        let i = index_of_from(n, q[0], 0);
        lemma_index_of_from_range(n, q[0], 0);
        assert(q.push(c)[0] == q[0]);
        assert(q.push(c).drop_first() =~= q.drop_first().push(c));
        lemma_subsequence_prefix(q.drop_first(), c, n.skip(i + 1));
    }
}

/// Law: deleting the last character of a query (backspace) never loses a
/// match — every name the longer query matched, the shorter one matches.
pub proof fn lemma_backspace_widens(query: Seq<char>, c: char, name: Seq<char>)
    requires
        is_subsequence(lower(query.push(c)), lower(name)),
    ensures
        is_subsequence(lower(query), lower(name)),
{
    assert(query.push(c).drop_last() =~= query);
    lemma_subsequence_append(lower(query), lowercase_of(c), lower(name));
}

/// A match of `q + t` contains a match of `q`.
proof fn lemma_subsequence_append(q: Seq<char>, t: Seq<char>, n: Seq<char>)
    requires
        is_subsequence(q + t, n),
    ensures
        is_subsequence(q, n),
    decreases t.len(),
{
    if t.len() > 0 {
        assert(q + t =~= (q + t.drop_last()).push(t.last()));
        lemma_subsequence_prefix(q + t.drop_last(), t.last(), n);
        lemma_subsequence_append(q, t.drop_last(), n);
    } else {
        assert(q + t =~= q);
    }
}


/// `f` places each character of `q` on an equal character of `n`, at
/// strictly increasing positions.
pub open spec fn embedding(q: Seq<char>, n: Seq<char>, f: spec_fn(int) -> int) -> bool {
    &&& forall|k: int| 0 <= k < q.len() ==> 0 <= #[trigger] f(k) < n.len() && n[f(k)] == q[k]
    &&& forall|k: int| 0 <= k < q.len() - 1 ==> #[trigger] f(k) < f(k + 1)
}

/// `q` occurs in `n` at some strictly increasing positions.
pub open spec fn embeds(q: Seq<char>, n: Seq<char>) -> bool {
    exists|f: spec_fn(int) -> int| embedding(q, n, f)
}

proof fn lemma_index_of_first(s: Seq<char>, c: char, i: int, p: int)
    requires
        0 <= i <= p < s.len(),
        s[p] == c,
    ensures
        i <= index_of_from(s, c, i) <= p,
        s[index_of_from(s, c, i)] == c,
    decreases p - i,
{
    if s[i] != c {
        lemma_index_of_first(s, c, i + 1, p);
    }
}

proof fn lemma_index_of_found(s: Seq<char>, c: char, i: int)
    requires
        0 <= i,
        index_of_from(s, c, i) < s.len(),
    ensures
        s[index_of_from(s, c, i)] == c,
        i <= index_of_from(s, c, i),
    decreases s.len() - i,
{
    if i < s.len() && s[i] != c {
        lemma_index_of_found(s, c, i + 1);
    }
}

proof fn lemma_embedding_increasing(q: Seq<char>, n: Seq<char>, f: spec_fn(int) -> int, a: int, b: int)
    requires
        embedding(q, n, f),
        0 <= a < b < q.len(),
    ensures
        f(a) < f(b),
    decreases b - a,
{
    if a + 1 < b {
        lemma_embedding_increasing(q, n, f, a, b - 1);
        assert(f(b - 1) < f(b - 1 + 1));
    } else {
        assert(f(a) < f(a + 1));
    }
}

/// Law: the palette's match is the subsequence relation: the greedy
/// earliest-match test succeeds exactly when the characters of `q` occur
/// in `n` at some strictly increasing positions.
pub proof fn lemma_subsequence_iff_embeds(q: Seq<char>, n: Seq<char>)
    ensures
        is_subsequence(q, n) <==> embeds(q, n),
    decreases q.len(),
{
    if q.len() == 0 {
        let f = |k: int| 0int;
        assert(embedding(q, n, f));
    } else {
        let i = index_of_from(n, q[0], 0);
        lemma_index_of_from_range(n, q[0], 0);
        let rest = q.drop_first();
        if i < n.len() {
            let m = n.skip(i + 1);
            lemma_subsequence_iff_embeds(rest, m);
            lemma_index_of_found(n, q[0], 0);
            if is_subsequence(q, n) {
                let g = choose|g: spec_fn(int) -> int| embedding(rest, m, g);
                let f = |k: int| if k == 0 { i } else { g(k - 1) + i + 1 };
                assert forall|k: int| 0 <= k < q.len() implies 0 <= #[trigger] f(k) < n.len() && n[f(k)] == q[k] by {
                    if k > 0 {
                        assert(0 <= g(k - 1) < m.len());
                        assert(m[g(k - 1)] == rest[k - 1]);
                    }
                }
                assert forall|k: int| 0 <= k < q.len() - 1 implies #[trigger] f(k) < f(k + 1) by {
                    if k > 0 {
                        assert(g(k - 1) < g(k - 1 + 1));
                    } else {
                        assert(0 <= g(0));
                    }
                }
                assert(embedding(q, n, f));
            }
            if embeds(q, n) {
                let f = choose|f: spec_fn(int) -> int| embedding(q, n, f);
                assert(0 <= f(0) < n.len() && n[f(0)] == q[0]);
                lemma_index_of_first(n, q[0], 0, f(0));
                let g = |k: int| f(k + 1) - i - 1;
                assert forall|k: int| 0 <= k < rest.len() implies 0 <= #[trigger] g(k) < m.len() && m[g(k)] == rest[k] by {
                    lemma_embedding_increasing(q, n, f, 0, k + 1);
                    assert(0 <= f(k + 1) < n.len());
                }
                assert forall|k: int| 0 <= k < rest.len() - 1 implies #[trigger] g(k) < g(k + 1) by {
                    assert(f(k + 1) < f(k + 1 + 1));
                }
                assert(embedding(rest, m, g));
            }
        } else {
            if embeds(q, n) {
                let f = choose|f: spec_fn(int) -> int| embedding(q, n, f);
                assert(0 <= f(0) < n.len() && n[f(0)] == q[0]);
                lemma_index_of_first(n, q[0], 0, f(0));
            }
        }
    }
}

/// Most results the palette lists.
pub const MAX_RESULTS: usize = 12;

/// A search candidate: identity and display name.
pub type Candidate = (IdView, Seq<char>);

/// Whether `a` sorts before `b` from position `i` on, comparing
/// characters by code point; a proper prefix sorts first.
pub open spec fn lex_lt_from(a: Seq<char>, b: Seq<char>, i: int) -> bool
    decreases a.len() - i,
{
    if i >= b.len() || i < 0 {
        false
    } else if i >= a.len() {
        true
    } else if a[i] != b[i] {
        a[i] < b[i]
    } else {
        lex_lt_from(a, b, i + 1)
    }
}

/// Candidate order: names with fewer UTF-8 bytes first, equal byte lengths
/// by code point (the order of their UTF-8 bytes).
pub open spec fn name_lt(a: Seq<char>, b: Seq<char>) -> bool {
    let la = crate::text::utf8(a).len();
    let lb = crate::text::utf8(b).len();
    la < lb || (la == lb && lex_lt_from(a, b, 0))
}

/// Where a stable insertion puts `x`: before the first candidate whose
/// name sorts after its own.
pub open spec fn insert_pos(s: Seq<Candidate>, x: Candidate, i: int) -> int
    decreases s.len() - i,
{
    if i >= s.len() || i < 0 {
        s.len() as int
    } else if name_lt(x.1, s[i].1) {
        i
    } else {
        insert_pos(s, x, i + 1)
    }
}

/// The candidates stably sorted by name order (insertion sort: equal names
/// keep their order).
pub open spec fn sort_candidates(s: Seq<Candidate>) -> Seq<Candidate>
    decreases s.len(),
{
    if s.len() == 0 {
        s
    } else {
        let sorted = sort_candidates(s.drop_last());
        let i = insert_pos(sorted, s.last(), 0);
        sorted.take(i).push(s.last()) + sorted.skip(i)
    }
}

/// Whether an index entry is listed in `mode`: files only, or any
/// non-folder.
pub open spec fn listed(e: EntryView, mode: PaletteMode) -> bool {
    match mode {
        PaletteMode::File => e.0.0 == 1,
        PaletteMode::Symbol => e.0.0 != 0,
    }
}

/// The selection after the results change to `n` entries: kept when still
/// a result, otherwise the last result (0 when there is none).
pub open spec fn kept_selection(selection: int, n: nat) -> int {
    if selection < n {
        selection
    } else if n == 0 {
        0
    } else {
        n - 1
    }
}

/// The candidates of `mode`, in tree (pre-) order.
pub open spec fn collect_spec(ix: Seq<EntryView>, mode: PaletteMode) -> Seq<Candidate>
    decreases ix.len(),
{
    if ix.len() == 0 {
        Seq::empty()
    } else {
        let rest = collect_spec(ix.drop_last(), mode);
        if listed(ix.last(), mode) { rest.push((ix.last().0, ix.last().1)) } else { rest }
    }
}

/// Identities of the candidates whose names match `query`, in order.
pub open spec fn matching(cands: Seq<Candidate>, query: Seq<char>) -> Seq<IdView>
    decreases cands.len(),
{
    if cands.len() == 0 {
        Seq::empty()
    } else {
        let rest = matching(cands.drop_last(), query);
        if is_subsequence(lower(query), lower(cands.last().1)) { rest.push(cands.last().0) } else { rest }
    }
}

/// The listed results: the first `MAX_RESULTS` matches.
pub open spec fn results_spec(cands: Seq<Candidate>, query: Seq<char>) -> Seq<IdView> {
    let m = matching(cands, query);
    if m.len() > MAX_RESULTS { m.take(MAX_RESULTS as int) } else { m }
}

/// The candidate view of stored candidates.
pub open spec fn cand_view(c: (SymbolId, String)) -> Candidate {
    (c.0@, c.1@)
}

/// Fuzzy search over file or symbol names with a filtered, selectable
/// results list.
pub struct Palette {
    open: bool,
    pub mode: PaletteMode,
    pub query: String,
    pub results: Vec<SymbolId>,
    pub selection: usize,
    candidates: Vec<(SymbolId, String)>,
}

fn name_lt_exec(a: &String, b: &String) -> (r: bool)
    ensures
        r == name_lt(a@, b@),
{
    let x = chars_of(a.as_str());
    let y = chars_of(b.as_str());
    let mut bx: Vec<u8> = Vec::new();
    crate::text::push_utf8(&mut bx, &x);
    let mut by: Vec<u8> = Vec::new();
    crate::text::push_utf8(&mut by, &y);
    assert(bx@ =~= crate::text::utf8(a@));
    assert(by@ =~= crate::text::utf8(b@));
    if bx.len() != by.len() {
        return bx.len() < by.len();
    }
    let mut i: usize = 0;
    while i < x.len() && i < y.len()
        invariant
            i <= x.len(),
            i <= y.len(),
            x@ == a@,
            y@ == b@,
            lex_lt_from(x@, y@, 0) == lex_lt_from(x@, y@, i as int),
            crate::text::utf8(a@).len() == crate::text::utf8(b@).len(),
        decreases x.len() - i,
    {
        if x[i] != y[i] {
            assert(lex_lt_from(x@, y@, i as int) == (x@[i as int] < y@[i as int]));
            assert(crate::text::utf8(a@).len() == crate::text::utf8(b@).len());
            return x[i] < y[i];
        }
        i += 1;
    }
    assert(crate::text::utf8(a@).len() == crate::text::utf8(b@).len());
    x.len() < y.len()
}

impl Palette {
    /// The palette's state: open, mode, query, results, selection and
    /// candidates.
    pub closed spec fn spec_open(&self) -> bool {
        self.open
    }

    /// The sorted candidates.
    pub closed spec fn spec_candidates(&self) -> Seq<Candidate> {
        self.candidates@.map_values(|c: (SymbolId, String)| cand_view(c))
    }

    /// The listed results.
    pub closed spec fn spec_results(&self) -> Seq<IdView> {
        self.results@.map_values(|id: SymbolId| id@)
    }

    /// The query typed so far.
    pub closed spec fn spec_query(&self) -> Seq<char> {
        self.query@
    }

    /// Position of the selected result.
    pub closed spec fn spec_selection(&self) -> int {
        self.selection as int
    }

    /// What the palette lists.
    pub closed spec fn spec_mode(&self) -> PaletteMode {
        self.mode
    }

    /// Well-formedness: results are what the query selects from the
    /// candidates, and the selection is a result (or 0 when there is none).
    pub closed spec fn wf(&self) -> bool {
        &&& self.spec_results() == results_spec(self.spec_candidates(), self.query@)
        &&& (self.selection < self.results@.len() || (self.selection == 0 && self.results@.len() == 0))
    }

    /// A well-formed palette lists exactly what its query selects from its
    /// candidates, and its selection is a result (0 when there is none).
    pub proof fn lemma_wf_results(&self)
        requires
            self.wf(),
        ensures
            self.spec_results() == results_spec(self.spec_candidates(), self.spec_query()),
            self.spec_selection() < self.spec_results().len() || (self.spec_selection() == 0
                && self.spec_results().len() == 0),
    {
    }

    /// A closed palette with nothing listed.
    pub fn new() -> (r: Self)
        ensures
            r.wf(),
            !r.spec_open(),
            r.spec_mode() == PaletteMode::File,
            r.spec_query().len() == 0,
            r.spec_results().len() == 0,
            r.spec_candidates().len() == 0,
            r.spec_selection() == 0,
    {
        let r = Palette {
            open: false,
            mode: PaletteMode::File,
            query: String::new(),
            results: Vec::new(),
            selection: 0,
            candidates: Vec::new(),
        };
        assert(r.spec_candidates() =~= Seq::<Candidate>::empty());
        assert(r.spec_results() =~= Seq::<IdView>::empty());
        r
    }

    /// Whether the palette is open.
    pub fn is_open(&self) -> (r: bool)
        ensures
            r == self.spec_open(),
    {
        self.open
    }

    fn refilter(&mut self)
        ensures
            final(self).spec_results() == results_spec(final(self).spec_candidates(), final(self).query@),
            final(self).selection == if old(self).selection < final(self).results@.len() {
                old(self).selection
            } else if final(self).results@.len() == 0 {
                0
            } else {
                (final(self).results@.len() - 1) as usize
            },
            final(self).spec_candidates() == old(self).spec_candidates(),
            final(self).spec_query() == old(self).spec_query(),
            final(self).spec_mode() == old(self).spec_mode(),
            final(self).open == old(self).open,
    {
        let ghost cands = self.spec_candidates();
        let mut out: Vec<SymbolId> = Vec::new();
        let mut i: usize = 0;
        assert(cands.take(0) =~= Seq::<Candidate>::empty());
        assert(out@.map_values(|id: SymbolId| id@) =~= Seq::<IdView>::empty());
        while i < self.candidates.len() && out.len() < MAX_RESULTS
            invariant
                i <= self.candidates@.len(),
                cands == self.spec_candidates(),
                out@.map_values(|id: SymbolId| id@) == results_spec(cands.take(i as int), self.query@),
                out@.len() < MAX_RESULTS ==> out@.len() == matching(cands.take(i as int), self.query@).len(),
                out@.len() <= MAX_RESULTS,
            decreases self.candidates.len() - i,
        {
            let ghost t = cands.take(i + 1);
            assert(t.drop_last() =~= cands.take(i as int));
            assert(t.last() == cand_view(self.candidates@[i as int]));
            let ghost before = out@;
            if fuzzy_match(self.query.as_str(), self.candidates[i].1.as_str()) {
                out.push(self.candidates[i].0.clone());
                assert(out@.map_values(|id: SymbolId| id@) =~= before.map_values(|id: SymbolId| id@).push(self.candidates@[i as int].0@));
            }
            i += 1;
        }
        proof {
            if i == self.candidates.len() {
                assert(cands.take(i as int) =~= cands);
            } else {
                // the list is full: later candidates cannot change the first results
                lemma_matching_prefix(cands, self.query@, i as int);
            }
        }
        self.results = out;
        if self.selection >= self.results.len() {
            self.selection = if self.results.len() == 0 { 0 } else { self.results.len() - 1 };
        }
    }

    /// Opens the palette in `mode` over the indexed tree: the query is
    /// cleared, the candidates (files, or all non-folders) are sorted by
    /// name (fewer UTF-8 bytes first, then by code point, ties in tree
    /// order), and the results are the first of them (every name matches
    /// the empty query).
    pub fn open(&mut self, mode: PaletteMode, index: &TreeIndex)
        ensures
            final(self).wf(),
            final(self).spec_open(),
            final(self).spec_mode() == mode,
            final(self).spec_query().len() == 0,
            final(self).spec_selection() == 0,
            final(self).spec_candidates() == sort_candidates(collect_spec(index@, mode)),
            final(self).spec_results() == results_spec(final(self).spec_candidates(), final(self).spec_query()),
    {
        self.open = true;
        self.mode = mode;
        self.query = String::new();
        self.selection = 0;
        let mut sorted: Vec<(SymbolId, String)> = Vec::new();
        let mut i: usize = 0;
        assert(index@.take(0) =~= Seq::<EntryView>::empty());
        assert(sorted@.map_values(|c: (SymbolId, String)| cand_view(c)) =~= Seq::<Candidate>::empty());
        while i < index.len()
            invariant
                i <= index@.len(),
                sorted@.map_values(|c: (SymbolId, String)| cand_view(c)) == sort_candidates(collect_spec(index@.take(i as int), mode)),
            decreases index@.len() - i,
        {
            let ghost t = index@.take(i + 1);
            assert(t.drop_last() =~= index@.take(i as int));
            assert(t.last() == index@[i as int]);
            let id = index.id(i);
            let kind_ok = match mode {
                PaletteMode::File => matches!(id.kind, crate::symbol::SymbolKind::File),
                PaletteMode::Symbol => !matches!(id.kind, crate::symbol::SymbolKind::Folder),
            };
            assert(kind_ok == listed(index@[i as int], mode));
            let ghost c0 = collect_spec(index@.take(i as int), mode);
            let ghost c1 = collect_spec(t, mode);
            if kind_ok {
                let entry = (id.clone(), index.name(i).clone());
                assert(cand_view(entry) == (index@[i as int].0, index@[i as int].1));
                let ghost sv = sorted@.map_values(|c: (SymbolId, String)| cand_view(c));
                let ghost x = cand_view(entry);
                // stable insertion point
                let mut j: usize = 0;
                loop
                    invariant
                        j <= sorted@.len(),
                        sv == sorted@.map_values(|c: (SymbolId, String)| cand_view(c)),
                        x == cand_view(entry),
                        insert_pos(sv, x, 0) == insert_pos(sv, x, j as int),
                    ensures
                        j <= sorted@.len(),
                        insert_pos(sv, x, 0) == j,
                    decreases sorted.len() - j,
                {
                    if j >= sorted.len() {
                        break;
                    }
                    assert(sv[j as int] == cand_view(sorted@[j as int]));
                    if name_lt_exec(&entry.1, &sorted[j].1) {
                        break;
                    }
                    j += 1;
                }
                sorted.insert(j, entry);
                assert(sorted@.map_values(|c: (SymbolId, String)| cand_view(c)) =~= sv.take(j as int).push(x) + sv.skip(j as int));
                assert(c1 == c0.push(x));
                assert(c1.drop_last() =~= c0);
                assert(c1.last() == x);
                assert(sort_candidates(c1) == sv.take(j as int).push(x) + sv.skip(j as int));
            } else {
                assert(c1 == c0);
            }
            i += 1;
        }
        assert(index@.take(index@.len() as int) =~= index@);
        self.candidates = sorted;
        self.refilter();
    }

    /// Closes the palette and forgets its query, results and candidates.
    pub fn close(&mut self)
        ensures
            final(self).wf(),
            !final(self).spec_open(),
            final(self).spec_query().len() == 0,
            final(self).spec_results().len() == 0,
            final(self).spec_candidates().len() == 0,
            final(self).spec_selection() == 0,
            final(self).spec_mode() == old(self).spec_mode(),
    {
        self.open = false;
        self.query = String::new();
        self.results = Vec::new();
        self.candidates = Vec::new();
        self.selection = 0;
        assert(self.spec_candidates() =~= Seq::<Candidate>::empty());
        assert(self.spec_results() =~= Seq::<IdView>::empty());
    }

    /// Appends `ch` to the query and filters again.
    pub fn type_char(&mut self, ch: char)
        requires
            old(self).wf(),
        ensures
            final(self).wf(),
            final(self).spec_query() == old(self).spec_query().push(ch),
            final(self).spec_candidates() == old(self).spec_candidates(),
            final(self).spec_open() == old(self).spec_open(),
            final(self).spec_mode() == old(self).spec_mode(),
            final(self).spec_results() == results_spec(final(self).spec_candidates(), final(self).spec_query()),
            final(self).spec_selection() == kept_selection(old(self).spec_selection(), final(self).spec_results().len()),
    {
        crate::text::push_char(&mut self.query, ch);
        self.refilter();
    }

    /// Removes the last query character (if any) and filters again.
    pub fn backspace(&mut self)
        requires
            old(self).wf(),
        ensures
            final(self).wf(),
            final(self).spec_query() == if old(self).spec_query().len() == 0 { old(self).spec_query() } else { old(self).spec_query().drop_last() },
            final(self).spec_candidates() == old(self).spec_candidates(),
            final(self).spec_open() == old(self).spec_open(),
            final(self).spec_mode() == old(self).spec_mode(),
            final(self).spec_results() == results_spec(final(self).spec_candidates(), final(self).spec_query()),
            final(self).spec_selection() == kept_selection(old(self).spec_selection(), final(self).spec_results().len()),
    {
        let q = chars_of(self.query.as_str());
        if q.len() > 0 {
            let kept = crate::text::slice_chars(&q, 0, q.len() - 1);
            assert(kept@ =~= self.query@.drop_last());
            self.query = crate::text::string_from_chars(&kept);
        }
        self.refilter();
    }

    /// Moves the selection by `delta`, wrapping around the results; nothing
    /// happens without results.
    pub fn move_selection(&mut self, delta: i32)
        requires
            old(self).wf(),
        ensures
            final(self).wf(),
            old(self).spec_results().len() == 0 ==> final(self).spec_selection() == old(self).spec_selection(),
            old(self).spec_results().len() > 0 ==> final(self).spec_selection() == (old(self).spec_selection() + delta as int) % (old(self).spec_results().len() as int),
            final(self).spec_results() == old(self).spec_results(),
            final(self).spec_query() == old(self).spec_query(),
            final(self).spec_candidates() == old(self).spec_candidates(),
            final(self).spec_open() == old(self).spec_open(),
    {
        if self.results.len() == 0 {
            return;
        }
        let len = self.results.len();
        let sel = self.selection;
        assert(self.results@.len() == self.spec_results().len());
        assert(len <= MAX_RESULTS);
        let wrapped: usize = if delta >= 0 {
            let d = delta as usize;
            proof {
                vstd::arithmetic::div_mod::lemma_mod_bound((sel + d) as int, len as int);
            }
            (sel + d) % len
        } else {
            let d = (-(delta as i64)) as u64;
            let r = (d % (len as u64)) as usize;
            proof {
                let q = d as int / len as int;
                vstd::arithmetic::div_mod::lemma_fundamental_div_mod(d as int, len as int);
                vstd::arithmetic::div_mod::lemma_mod_multiples_vanish(q + 1, sel as int - d as int, len as int);
                assert(len * (q + 1) + (sel as int - d as int) == sel + len - r) by (nonlinear_arith)
                    requires
                        d as int == len * q + r,
                ;
            }
            (sel + len - r) % len
        };
        self.selection = wrapped;
    }

    /// The selected result when the palette is open.
    pub fn confirm(&self) -> (r: Option<SymbolId>)
        requires
            self.wf(),
        ensures
            !self.spec_open() ==> r is None,
            self.spec_open() && self.spec_selection() < self.spec_results().len() ==> (r matches Some(id) && id@ == self.spec_results()[self.spec_selection()]),
            self.spec_open() && self.spec_selection() >= self.spec_results().len() ==> r is None,
    {
        if !self.open {
            return None;
        }
        if self.selection < self.results.len() {
            Some(self.results[self.selection].clone())
        } else {
            None
        }
    }

    /// Display name of a candidate, or `"?"` when `id` is not one.
    pub fn name_of(&self, id: &SymbolId) -> (r: &str)
        ensures
            (exists|i: int| 0 <= i < self.spec_candidates().len() && self.spec_candidates()[i].0 == id@) ==> exists|i: int|
                0 <= i < self.spec_candidates().len() && self.spec_candidates()[i].0 == id@ && r@ == self.spec_candidates()[i].1
                && forall|j: int| 0 <= j < i ==> self.spec_candidates()[j].0 != id@,
            (forall|i: int| 0 <= i < self.spec_candidates().len() ==> self.spec_candidates()[i].0 != id@) ==> r@ == "?"@,
    {
        let mut i: usize = 0;
        while i < self.candidates.len()
            invariant
                i <= self.candidates@.len(),
                forall|j: int| 0 <= j < i ==> self.spec_candidates()[j].0 != id@,
            decreases self.candidates.len() - i,
        {
            if crate::symbol::same_id(&self.candidates[i].0, id) {
                assert(self.spec_candidates()[i as int] == cand_view(self.candidates@[i as int]));
                return self.candidates[i].1.as_str();
            }
            i += 1;
        }
        proof {
            reveal_strlit("?");
        }
        "?"
    }
}

/// The palette never lists more than `MAX_RESULTS` results, and lists
/// fewer only when fewer candidates match.
pub proof fn lemma_results_capped(cands: Seq<Candidate>, query: Seq<char>)
    ensures
        results_spec(cands, query).len() <= MAX_RESULTS,
        results_spec(cands, query).len() < MAX_RESULTS ==> results_spec(cands, query) == matching(cands, query),
{
}

/// An empty query matches every candidate, so the palette then lists the
/// first `MAX_RESULTS` candidates in their order (all of them when there
/// are fewer).
pub proof fn lemma_empty_query_lists_all(cands: Seq<Candidate>)
    ensures
        matching(cands, Seq::empty()) == cands.map_values(|c: Candidate| c.0),
        results_spec(cands, Seq::empty()) == (if cands.len() > MAX_RESULTS {
            cands.take(MAX_RESULTS as int)
        } else {
            cands
        }).map_values(|c: Candidate| c.0),
    decreases cands.len(),
{
    assert(lower(Seq::<char>::empty()) =~= Seq::<char>::empty());
    if cands.len() > 0 {
        lemma_empty_query_lists_all(cands.drop_last());
        assert(cands.map_values(|c: Candidate| c.0) =~= cands.drop_last().map_values(|c: Candidate| c.0).push(cands.last().0));
    } else {
        assert(cands.map_values(|c: Candidate| c.0) =~= Seq::<IdView>::empty());
    }
    if cands.len() > MAX_RESULTS {
        assert(cands.take(MAX_RESULTS as int).map_values(|c: Candidate| c.0) =~= cands.map_values(|c: Candidate| c.0).take(
            MAX_RESULTS as int,
        ));
    }
}

/// Once `MAX_RESULTS` matches were found among the first `i` candidates,
/// the later candidates do not change the results.
proof fn lemma_matching_prefix(cands: Seq<Candidate>, query: Seq<char>, i: int)
    requires
        0 <= i <= cands.len(),
        matching(cands.take(i), query).len() >= MAX_RESULTS,
    ensures
        results_spec(cands, query) == results_spec(cands.take(i), query),
    decreases cands.len() - i,
{
    if i < cands.len() {
        let t = cands.take(i + 1);
        assert(t.drop_last() =~= cands.take(i));
        lemma_matching_prefix(cands, query, i + 1);
        let m0 = matching(cands.take(i), query);
        let m1 = matching(t, query);
        assert(m1.take(MAX_RESULTS as int) =~= m0.take(MAX_RESULTS as int));
    } else {
        assert(cands.take(i) =~= cands);
    }
}

} // verus!
