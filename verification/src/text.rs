//! Character-level helpers shared by the string-processing modules.

use vstd::prelude::*;

verus! {

/// The characters of `s`, in order.
pub fn chars_of(s: &str) -> (v: Vec<char>)
    ensures
        v@ == s@,
{
    let mut v: Vec<char> = Vec::new();
    for c in it: s.chars()
        invariant
            it.seq() == s@,
            v@ == it.seq().take(it.index() as int),
    {
        v.push(c);
    }
    v
}

/// Appends one character to a string (`String::push`).
#[verifier::external_body]
pub(crate) fn push_char(s: &mut String, c: char)
    ensures
        final(s)@ == old(s)@.push(c),
{
    s.push(c);
}

/// A string holding exactly the characters of `v`.
pub fn string_from_chars(v: &[char]) -> (s: String)
    ensures
        s@ == v@,
{
    let mut s = String::new();
    let mut i: usize = 0;
    while i < v.len()
        invariant
            i <= v.len(),
            s@ == v@.take(i as int),
        decreases v.len() - i,
    {
        push_char(&mut s, v[i]);
        i += 1;
        assert(s@ == v@.take(i as int));
    }
    assert(v@.take(v@.len() as int) == v@);
    s
}

/// Character-wise equality of two string slices.
pub fn str_eq(a: &str, b: &str) -> (r: bool)
    ensures
        r == (a@ == b@),
{
    let x = chars_of(a);
    let y = chars_of(b);
    chars_eq(&x, &y)
}

/// Element-wise equality of two character slices.
pub fn chars_eq(x: &[char], y: &[char]) -> (r: bool)
    ensures
        r == (x@ == y@),
{
    if x.len() != y.len() {
        return false;
    }
    let mut i: usize = 0;
    while i < x.len()
        invariant
            i <= x.len(),
            x.len() == y.len(),
            forall|j: int| 0 <= j < i ==> x@[j] == y@[j],
        decreases x.len() - i,
    {
        if x[i] != y[i] {
            return false;
        }
        i += 1;
    }
    assert(x@ =~= y@);
    true
}

/// Index of the first `::` in `s` at or after `i`, or `s.len()` when none.
pub open spec fn double_colon_from(s: Seq<char>, i: int) -> int
    decreases s.len() - i,
{
    if i < 0 || i + 1 >= s.len() {
        s.len() as int
    } else if s[i] == ':' && s[i + 1] == ':' {
        i
    } else {
        double_colon_from(s, i + 1)
    }
}

/// Index of the first `::` in `s`, or `s.len()` when none.
pub open spec fn first_double_colon(s: Seq<char>) -> int {
    double_colon_from(s, 0)
}

/// Index of the first `c` in `s` at or after `i`, or `s.len()` when none.
pub open spec fn index_of_from(s: Seq<char>, c: char, i: int) -> int
    decreases s.len() - i,
{
    if i < 0 || i >= s.len() {
        s.len() as int
    } else if s[i] == c {
        i
    } else {
        index_of_from(s, c, i + 1)
    }
}

/// Index of the first `c` in `s`, or `s.len()` when none.
pub open spec fn first_index_of(s: Seq<char>, c: char) -> int {
    index_of_from(s, c, 0)
}

/// Index of the last `c` in `s` strictly before position `i`, or -1.
pub open spec fn last_index_before(s: Seq<char>, c: char, i: int) -> int
    decreases i,
{
    if i <= 0 || i > s.len() {
        -1
    } else if s[i - 1] == c {
        i - 1
    } else {
        last_index_before(s, c, i - 1)
    }
}

/// Index of the last `c` in `s`, or -1 when none.
pub open spec fn last_index_of(s: Seq<char>, c: char) -> int {
    last_index_before(s, c, s.len() as int)
}

/// The segment of `s` before its first `::` (all of `s` when none).
pub open spec fn before_double_colon(s: Seq<char>) -> Seq<char> {
    s.take(first_double_colon(s))
}

/// The segment of `s` before its first `c` (all of `s` when none).
pub open spec fn before_char(s: Seq<char>, c: char) -> Seq<char> {
    s.take(first_index_of(s, c))
}

/// The segment of `s` after its last `c` (all of `s` when none).
pub open spec fn after_last_char(s: Seq<char>, c: char) -> Seq<char> {
    s.skip(last_index_of(s, c) + 1)
}

pub proof fn lemma_double_colon_from_range(s: Seq<char>, i: int)
    requires
        0 <= i,
    ensures
        i <= double_colon_from(s, i) <= s.len() || double_colon_from(s, i) == s.len(),
        0 <= double_colon_from(s, i) <= s.len(),
    decreases s.len() - i,
{
    if i + 1 < s.len() && !(s[i] == ':' && s[i + 1] == ':') {
        lemma_double_colon_from_range(s, i + 1);
    }
}

pub proof fn lemma_index_of_from_range(s: Seq<char>, c: char, i: int)
    requires
        0 <= i,
    ensures
        0 <= index_of_from(s, c, i) <= s.len(),
    decreases s.len() - i,
{
    if i < s.len() && s[i] != c {
        lemma_index_of_from_range(s, c, i + 1);
    }
}

pub proof fn lemma_last_index_before_range(s: Seq<char>, c: char, i: int)
    ensures
        -1 <= last_index_before(s, c, i) < s.len(),
        last_index_before(s, c, i) < i || last_index_before(s, c, i) == -1,
    decreases i,
{
    if 0 < i <= s.len() && s[i - 1] != c {
        lemma_last_index_before_range(s, c, i - 1);
    }
}

/// Position of the first `::` in `s`, or `s.len()`.
pub fn find_double_colon(s: &[char]) -> (r: usize)
    ensures
        r == first_double_colon(s@),
{
    let mut i: usize = 0;
    while i < s.len() && i + 1 < s.len()
        invariant
            i <= s.len(),
            double_colon_from(s@, 0) == double_colon_from(s@, i as int),
        decreases s.len() - i,
    {
        if s[i] == ':' && s[i + 1] == ':' {
            return i;
        }
        i += 1;
    }
    s.len()
}

/// Position of the first `c` in `s`, or `s.len()`.
pub fn find_char(s: &[char], c: char) -> (r: usize)
    ensures
        r == first_index_of(s@, c),
{
    let mut i: usize = 0;
    while i < s.len()
        invariant
            i <= s.len(),
            index_of_from(s@, c, 0) == index_of_from(s@, c, i as int),
        decreases s.len() - i,
    {
        if s[i] == c {
            return i;
        }
        i += 1;
    }
    s.len()
}

/// Position of the last `c` in `s`, or `None` when there is none.
pub fn rfind_char(s: &[char], c: char) -> (r: Option<usize>)
    ensures
        match r {
            Some(i) => i == last_index_of(s@, c) && i < s.len(),
            None => last_index_of(s@, c) == -1,
        },
{
    let mut i: usize = s.len();
    while i > 0
        invariant
            i <= s.len(),
            last_index_before(s@, c, s@.len() as int) == last_index_before(s@, c, i as int),
        decreases i,
    {
        if s[i - 1] == c {
            return Some(i - 1);
        }
        i -= 1;
    }
    None
}

/// A copy of `s[lo..hi]`.
pub fn slice_chars(s: &[char], lo: usize, hi: usize) -> (r: Vec<char>)
    requires
        lo <= hi <= s.len(),
    ensures
        r@ == s@.subrange(lo as int, hi as int),
{
    let mut r: Vec<char> = Vec::new();
    let mut i = lo;
    while i < hi
        invariant
            lo <= i <= hi <= s.len(),
            r@ == s@.subrange(lo as int, i as int),
        decreases hi - i,
    {
        r.push(s[i]);
        i += 1;
    }
    r
}


/// The decimal digit character of `d` (0 through 9).
pub open spec fn digit_char(d: int) -> char {
    if d == 0 { '0' }
    else if d == 1 { '1' }
    else if d == 2 { '2' }
    else if d == 3 { '3' }
    else if d == 4 { '4' }
    else if d == 5 { '5' }
    else if d == 6 { '6' }
    else if d == 7 { '7' }
    else if d == 8 { '8' }
    else { '9' }
}

/// Decimal representation of a natural number, without leading zeros.
pub open spec fn decimal(n: nat) -> Seq<char>
    decreases n,
{
    if n < 10 {
        seq![digit_char(n as int)]
    } else {
        decimal(n / 10).push(digit_char((n % 10) as int))
    }
}

pub fn digit(d: u128) -> (c: char)
    requires
        d < 10,
    ensures
        c == digit_char(d as int),
{
    if d == 0 { '0' }
    else if d == 1 { '1' }
    else if d == 2 { '2' }
    else if d == 3 { '3' }
    else if d == 4 { '4' }
    else if d == 5 { '5' }
    else if d == 6 { '6' }
    else if d == 7 { '7' }
    else if d == 8 { '8' }
    else { '9' }
}

/// Appends the decimal representation of `n` to `out`.
pub fn push_decimal(out: &mut Vec<char>, n: u128)
    ensures
        final(out)@ == old(out)@ + decimal(n as nat),
    decreases n,
{
    if n < 10 {
        out.push(digit(n));
        assert(decimal(n as nat) =~= seq![digit_char(n as int)]);
    } else {
        push_decimal(out, n / 10);
        out.push(digit(n % 10));
        assert(decimal(n as nat) =~= decimal((n / 10) as nat).push(digit_char((n % 10) as int)));
    }
}

/// Appends the characters of a string slice to `out`.
pub fn push_str_chars(out: &mut Vec<char>, s: &str)
    ensures
        final(out)@ == old(out)@ + s@,
{
    let cs = chars_of(s);
    let mut i: usize = 0;
    while i < cs.len()
        invariant
            i <= cs.len(),
            cs@ == s@,
            out@ == old(out)@ + cs@.take(i as int),
        decreases cs.len() - i,
    {
        out.push(cs[i]);
        i += 1;
        assert(out@ =~= old(out)@ + cs@.take(i as int));
    }
    assert(cs@.take(cs@.len() as int) =~= cs@);
}


/// UTF-8 encoding of one character.
pub open spec fn utf8_char(c: char) -> Seq<u8> {
    let v = c as int;
    if v < 0x80 {
        seq![v as u8]
    } else if v < 0x800 {
        seq![(0xc0 + v / 64) as u8, (0x80 + v % 64) as u8]
    } else if v < 0x10000 {
        seq![(0xe0 + v / 4096) as u8, (0x80 + (v / 64) % 64) as u8, (0x80 + v % 64) as u8]
    } else {
        seq![
            (0xf0 + v / 262144) as u8,
            (0x80 + (v / 4096) % 64) as u8,
            (0x80 + (v / 64) % 64) as u8,
            (0x80 + v % 64) as u8,
        ]
    }
}

/// UTF-8 encoding of a character sequence.
pub open spec fn utf8(s: Seq<char>) -> Seq<u8>
    decreases s.len(),
{
    if s.len() == 0 {
        Seq::empty()
    } else {
        utf8(s.drop_last()) + utf8_char(s.last())
    }
}

/// Appends the UTF-8 encoding of `c` to `out`.
pub fn push_utf8_char(out: &mut Vec<u8>, c: char)
    ensures
        final(out)@ == old(out)@ + utf8_char(c),
{
    let v = c as u32;
    assert(v <= 0x10ffff);
    if v < 0x80 {
        out.push(v as u8);
    } else if v < 0x800 {
        out.push((0xc0 + v / 64) as u8);
        out.push((0x80 + v % 64) as u8);
    } else if v < 0x10000 {
        out.push((0xe0 + v / 4096) as u8);
        out.push((0x80 + (v / 64) % 64) as u8);
        out.push((0x80 + v % 64) as u8);
    } else {
        out.push((0xf0 + v / 262144) as u8);
        out.push((0x80 + (v / 4096) % 64) as u8);
        out.push((0x80 + (v / 64) % 64) as u8);
        out.push((0x80 + v % 64) as u8);
    }
    assert(out@ =~= old(out)@ + utf8_char(c));
}

/// Appends the UTF-8 encoding of `s` to `out`.
pub fn push_utf8(out: &mut Vec<u8>, s: &[char])
    ensures
        final(out)@ == old(out)@ + utf8(s@),
{
    let mut i: usize = 0;
    while i < s.len()
        invariant
            i <= s.len(),
            out@ == old(out)@ + utf8(s@.take(i as int)),
        decreases s.len() - i,
    {
        push_utf8_char(out, s[i]);
        assert(s@.take(i as int + 1).drop_last() =~= s@.take(i as int));
        i += 1;
        assert(out@ =~= old(out)@ + utf8(s@.take(i as int)));
    }
    assert(s@.take(s@.len() as int) =~= s@);
}

/// The pieces of `s` between occurrences of `c`, as `str::split(c)` yields
/// them: each `c` ends a piece, so adjacent separators give empty pieces.
pub open spec fn split_on(s: Seq<char>, c: char) -> Seq<Seq<char>>
    decreases s.len(),
{
    if s.len() == 0 {
        seq![Seq::<char>::empty()]
    } else {
        let w = split_on(s.drop_last(), c);
        if s.last() == c {
            w.push(Seq::<char>::empty())
        } else {
            w.update(w.len() - 1, w.last().push(s.last()))
        }
    }
}

/// Splits `s` at every `c` (see `split_on`).
pub fn split_chars(s: &Vec<char>, c: char) -> (r: Vec<Vec<char>>)
    ensures
        r@.map_values(|w: Vec<char>| w@) == split_on(s@, c),
{
    let mut words: Vec<Vec<char>> = Vec::new();
    let mut cur: Vec<char> = Vec::new();
    let mut i: usize = 0;
    while i < s.len()
        invariant
            i <= s.len(),
            words@.map_values(|w: Vec<char>| w@).push(cur@) == split_on(s@.take(i as int), c),
        decreases s.len() - i,
    {
        let ghost before = words@.map_values(|w: Vec<char>| w@).push(cur@);
        assert(s@.take(i + 1).drop_last() =~= s@.take(i as int));
        let x = s[i];
        if x == c {
            let ghost old_words = words@;
            let mut done: Vec<char> = Vec::new();
            std::mem::swap(&mut cur, &mut done);
            words.push(done);
            assert(words@.map_values(|w: Vec<char>| w@) =~= old_words.map_values(|w: Vec<char>| w@).push(done@));
            assert(words@.map_values(|w: Vec<char>| w@).push(cur@) =~= before.push(Seq::<char>::empty()));
        } else {
            cur.push(x);
            assert(words@.map_values(|w: Vec<char>| w@).push(cur@) =~= before.update(
                before.len() - 1,
                before.last().push(x),
            ));
        }
        i += 1;
    }
    assert(s@.take(s.len() as int) =~= s@);
    let ghost old_words = words@;
    words.push(cur);
    assert(words@.map_values(|w: Vec<char>| w@) =~= old_words.map_values(|w: Vec<char>| w@).push(cur@));
    words
}

} // verus!
