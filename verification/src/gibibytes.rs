//! Disk-cache sizes as exact decimal GiB text: formatting a byte count and
//! parsing what a user typed back into bytes.

use vstd::prelude::*;

use crate::settings::DEFAULT_DISK_CACHE_BYTES;
use crate::text::{chars_of, decimal, digit, digit_char, push_decimal, string_from_chars};

verus! {

/// One GiB in bytes (2^30).
pub const GIB: u64 = 1_073_741_824;
/// 5^30: a byte remainder times this, over 10^30, is its exact GiB fraction.
pub const FIVE_POW_30: u128 = 931322574615478515625;
/// Most fractional digits a GiB amount may carry.
pub const MAX_FRACTION_DIGITS: usize = 30;

/// 10^k.
pub open spec fn pow10(k: nat) -> nat
    decreases k,
{
    if k == 0 { 1 } else { 10 * pow10((k - 1) as nat) }
}

/// Whether `c` is an ASCII decimal digit.
pub open spec fn is_digit(c: char) -> bool {
    '0' <= c && c <= '9'
}

/// Whether every character of `s` is an ASCII decimal digit.
pub open spec fn all_digits(s: Seq<char>) -> bool {
    forall|i: int| 0 <= i < s.len() ==> is_digit(#[trigger] s[i])
}

/// The value of a digit character.
pub open spec fn digit_value(c: char) -> nat {
    (c as int - '0' as int) as nat
}

/// The value of a string of decimal digits (0 for the empty string).
pub open spec fn dec_value(s: Seq<char>) -> nat
    decreases s.len(),
{
    if s.len() == 0 {
        0
    } else {
        dec_value(s.drop_last()) * 10 + digit_value(s.last())
    }
}

/// The last `k` decimal digits of `n`, with leading zeros.
pub open spec fn fixed_digits(n: nat, k: nat) -> Seq<char> {
    Seq::new(k, |i: int| digit_char(((n / pow10((k - 1 - i) as nat)) % 10) as int))
}

/// Length of `s` without its trailing `'0'`s.
pub open spec fn trim_zeros_len(s: Seq<char>) -> nat
    decreases s.len(),
{
    if s.len() > 0 && s.last() == '0' {
        trim_zeros_len(s.drop_last())
    } else {
        s.len()
    }
}

/// `s` without its trailing `'0'`s.
pub open spec fn trim_zeros(s: Seq<char>) -> Seq<char> {
    s.take(trim_zeros_len(s) as int)
}

/// Whether `c` has the Unicode `White_Space` property (what
/// `char::is_whitespace` and `str::trim` test).
pub open spec fn is_white_space(c: char) -> bool {
    ||| '\u{9}' <= c && c <= '\u{d}'
    ||| c == ' '
    ||| c == '\u{85}'
    ||| c == '\u{a0}'
    ||| c == '\u{1680}'
    ||| '\u{2000}' <= c && c <= '\u{200a}'
    ||| c == '\u{2028}'
    ||| c == '\u{2029}'
    ||| c == '\u{202f}'
    ||| c == '\u{205f}'
    ||| c == '\u{3000}'
}

/// Number of leading white-space characters of `s`.
pub open spec fn lead_ws(s: Seq<char>) -> nat
    decreases s.len(),
{
    if s.len() > 0 && is_white_space(s[0]) { 1 + lead_ws(s.skip(1)) } else { 0 }
}

/// Length of `s` without its trailing white space.
pub open spec fn keep_ws(s: Seq<char>) -> nat
    decreases s.len(),
{
    if s.len() > 0 && is_white_space(s.last()) { keep_ws(s.drop_last()) } else { s.len() }
}

/// `s` without leading and trailing white space (`str::trim`).
pub open spec fn trim_ws(s: Seq<char>) -> Seq<char> {
    let t = s.skip(lead_ws(s) as int);
    t.take(keep_ws(t) as int)
}

/// Text of a byte count in GiB: the whole GiB, then (when there is a
/// remainder) a point and the exact fraction without trailing zeros.
pub open spec fn format_gib_spec(bytes: u64) -> Seq<char> {
    let whole = bytes / GIB;
    let rem = bytes % GIB;
    if rem == 0 {
        decimal(whole as nat)
    } else {
        decimal(whole as nat) + seq!['.'] + trim_zeros(fixed_digits((rem * FIVE_POW_30) as nat, 30))
    }
}

/// Error for text that is not a decimal number.
pub open spec fn not_decimal_msg() -> Seq<char> {
    "Disk cache must be a decimal number of GiB"@
}

/// Error for an amount beyond 64-bit bytes.
pub open spec fn too_large_msg() -> Seq<char> {
    "Disk cache size is too large"@
}

/// Error for more than 30 significant fractional digits.
pub open spec fn too_precise_msg() -> Seq<char> {
    "Disk cache size is too precise"@
}

/// Error for a zero amount.
pub open spec fn zero_msg() -> Seq<char> {
    "Disk cache must be greater than zero GiB"@
}

/// Whether trimmed text `t` is a decimal number: a non-empty run of digits,
/// optionally followed by a point and a non-empty run of digits.
pub open spec fn decimal_syntax(t: Seq<char>) -> bool {
    let dot = crate::text::first_index_of(t, '.');
    &&& dot > 0
    &&& all_digits(t.take(dot))
    &&& dot < t.len() ==> t.len() > dot + 1 && all_digits(t.skip(dot + 1))
}

/// Bytes of the text a user typed as GiB: the trimmed text must be a
/// decimal number; whole GiB count 2^30 bytes each, the fraction (without
/// trailing zeros, at most 30 digits) adds its exact share of 2^30 rounded
/// down; the result must fit 64 bits and be non-zero.
pub open spec fn parse_gib_spec(input: Seq<char>) -> Result<u64, Seq<char>> {
    let t = trim_ws(input);
    let dot = crate::text::first_index_of(t, '.');
    let whole = dec_value(t.take(dot));
    let frac = if dot < t.len() { trim_zeros(t.skip(dot + 1)) } else { Seq::empty() };
    let total: int = whole * GIB + (dec_value(frac) * GIB) as int / pow10(frac.len()) as int;
    if !decimal_syntax(t) {
        Err(not_decimal_msg())
    } else if whole * GIB > u64::MAX {
        Err(too_large_msg())
    } else if frac.len() > 30 {
        Err(too_precise_msg())
    } else if total > u64::MAX {
        Err(too_large_msg())
    } else if total == 0 {
        Err(zero_msg())
    } else {
        Ok(total as u64)
    }
}

// ---------------------------------------------------------------------------
// Arithmetic facts

proof fn lemma_pow10_pos(k: nat)
    ensures
        pow10(k) >= 1,
    decreases k,
{
    if k > 0 {
        lemma_pow10_pos((k - 1) as nat);
    }
}

proof fn lemma_pow10_add(a: nat, b: nat)
    ensures
        pow10(a + b) == pow10(a) * pow10(b),
    decreases b,
{
    if b > 0 {
        lemma_pow10_add(a, (b - 1) as nat);
        assert(pow10(a + b) == 10 * pow10((a + b - 1) as nat));
        assert(pow10(a) * pow10(b) == pow10(a) * (10 * pow10((b - 1) as nat)));
        assert(pow10(a) * (10 * pow10((b - 1) as nat)) == 10 * (pow10(a) * pow10((b - 1) as nat)))
            by (nonlinear_arith);
    } else {
        assert(pow10(0) == 1);
        assert(a + b == a);
    }
}

proof fn lemma_pow10_mono(a: nat, b: nat)
    requires
        a <= b,
    ensures
        pow10(a) <= pow10(b),
{
    lemma_pow10_add(a, (b - a) as nat);
    lemma_pow10_pos((b - a) as nat);
    lemma_pow10_pos(a);
    assert(pow10(a) * pow10((b - a) as nat) >= pow10(a) * 1) by (nonlinear_arith)
        requires
            pow10((b - a) as nat) >= 1,
            pow10(a) >= 1,
    ;
}

/// `(x * c) / (y * c) == x / y`.
proof fn lemma_div_cancel(x: int, y: int, c: int)
    requires
        x >= 0,
        y > 0,
        c > 0,
    ensures
        (x * c) / (y * c) == x / y,
{
    vstd::arithmetic::div_mod::lemma_div_denominator(x * c, c, y);
    assert(x * c >= 0) by (nonlinear_arith)
        requires
            x >= 0,
            c > 0,
    ;
    vstd::arithmetic::div_mod::lemma_div_by_multiple(x, c);
    assert(c * y == y * c) by (nonlinear_arith);
}

proof fn lemma_dec_value_bound(s: Seq<char>)
    requires
        all_digits(s),
    ensures
        dec_value(s) < pow10(s.len()),
    decreases s.len(),
{
    if s.len() > 0 {
        assert(all_digits(s.drop_last()));
        lemma_dec_value_bound(s.drop_last());
        assert(is_digit(s[s.len() - 1]));
        let p = pow10((s.len() - 1) as nat);
        assert(dec_value(s.drop_last()) * 10 + digit_value(s.last()) < 10 * p) by (nonlinear_arith)
            requires
                dec_value(s.drop_last()) < p,
                digit_value(s.last()) < 10,
        ;
    }
}

proof fn lemma_digit_char_value(d: int)
    requires
        0 <= d < 10,
    ensures
        is_digit(digit_char(d)),
        digit_value(digit_char(d)) == d,
{
}

proof fn lemma_fixed_digits(n: nat, k: nat)
    ensures
        fixed_digits(n, k).len() == k,
        all_digits(fixed_digits(n, k)),
        dec_value(fixed_digits(n, k)) == n % pow10(k),
    decreases k,
{
    let s = fixed_digits(n, k);
    assert forall|i: int| 0 <= i < s.len() implies is_digit(#[trigger] s[i]) by {
        lemma_digit_char_value(((n / pow10((k - 1 - i) as nat)) % 10) as int);
    }
    if k > 0 {
        let t = fixed_digits(n / 10, (k - 1) as nat);
        assert forall|i: int| 0 <= i < k - 1 implies s.drop_last()[i] == t[i] by {
            let e = (k - 2 - i) as nat;
            lemma_pow10_pos(e);
            vstd::arithmetic::div_mod::lemma_div_denominator(n as int, 10, pow10(e) as int);
            assert(pow10((k - 1 - i) as nat) == 10 * pow10(e));
        }
        assert(s.drop_last() =~= t);
        lemma_fixed_digits(n / 10, (k - 1) as nat);
        lemma_digit_char_value((n % 10) as int);
        assert(pow10(0) == 1);
        assert(n / pow10(0) == n);
        assert(s.last() == digit_char(((n / pow10(0)) % 10) as int));
        lemma_pow10_pos((k - 1) as nat);
        vstd::arithmetic::div_mod::lemma_mod_breakdown(n as int, 10, pow10((k - 1) as nat) as int);
        assert(dec_value(s) == ((n / 10) % pow10((k - 1) as nat)) * 10 + n % 10);
        assert(10 * ((n / 10) % pow10((k - 1) as nat)) == ((n / 10) % pow10((k - 1) as nat)) * 10);
    }
}

proof fn lemma_trim_zeros(s: Seq<char>)
    ensures
        trim_zeros_len(s) <= s.len(),
        trim_zeros(s).len() == trim_zeros_len(s),
        all_digits(s) ==> all_digits(trim_zeros(s)),
        all_digits(s) ==> dec_value(s) == dec_value(trim_zeros(s)) * pow10(
            (s.len() - trim_zeros_len(s)) as nat,
        ),
        trim_zeros(s).len() > 0 ==> trim_zeros(s).last() != '0',
        trim_zeros_len(trim_zeros(s)) == trim_zeros_len(s),
    decreases s.len(),
{
    if s.len() > 0 && s.last() == '0' {
        let d = s.drop_last();
        lemma_trim_zeros(d);
        assert(trim_zeros(s) =~= trim_zeros(d));
        if all_digits(s) {
            assert(all_digits(d));
            let k = (d.len() - trim_zeros_len(d)) as nat;
            assert(digit_value(s.last()) == 0);
            assert(dec_value(s) == dec_value(d) * 10);
            assert(dec_value(d) == dec_value(trim_zeros(d)) * pow10(k));
            assert(pow10(k + 1) == 10 * pow10(k));
            assert((s.len() - trim_zeros_len(s)) as nat == k + 1);
            assert(dec_value(trim_zeros(d)) * pow10(k) * 10 == dec_value(trim_zeros(d)) * (10
                * pow10(k))) by (nonlinear_arith);
            assert(dec_value(s) == dec_value(trim_zeros(d)) * pow10(k + 1));
            assert(dec_value(s) == dec_value(trim_zeros(s)) * pow10(k + 1));
        }
    } else {
        assert(trim_zeros(s) =~= s);
        assert(pow10(0) == 1);
        assert(trim_zeros_len(s) == s.len());
        assert(dec_value(s) == dec_value(trim_zeros(s)) * pow10(0));
        if s.len() > 0 {
            assert(trim_zeros(s).last() == s.last());
        }
    }
}

// ---------------------------------------------------------------------------
// Formatting

fn push_fixed_digits(out: &mut Vec<char>, n: u128)
    requires
        n < 1_000_000_000_000_000_000_000_000_000_000,
    ensures
        final(out)@ == old(out)@ + fixed_digits(n as nat, 30),
{
    let ghost start = out@;
    let mut p: u128 = 100_000_000_000_000_000_000_000_000_000;
    let mut i: usize = 0;
    proof {
        reveal_with_fuel(pow10, 31);
    }
    while i < 30
        invariant
            i <= 30,
            p as nat == pow10((29 - i) as nat) || i == 30,
            i < 30 ==> p as nat == pow10((29 - i) as nat),
            out@ == start + fixed_digits(n as nat, 30).take(i as int),
        decreases 30 - i,
    {
        proof {
            lemma_pow10_pos((29 - i) as nat);
        }
        let d = (n / p) % 10;
        out.push(digit(d));
        assert(fixed_digits(n as nat, 30).take(i + 1) =~= fixed_digits(n as nat, 30).take(
            i as int,
        ).push(digit_char(d as int)));
        if i < 29 {
            assert(pow10((29 - i) as nat) == 10 * pow10((28 - i) as nat));
            p = p / 10;
        }
        i += 1;
    }
    assert(fixed_digits(n as nat, 30).take(30) =~= fixed_digits(n as nat, 30));
}

/// The exact GiB text of `bytes` (see `format_gib_spec`), such as `1`,
/// `1.5` or `0.000000000931322574615478515625`.
pub fn format_gibibytes(bytes: u64) -> (r: String)
    ensures
        r@ == format_gib_spec(bytes),
{
    let whole = bytes / GIB;
    let rem = bytes % GIB;
    let mut out: Vec<char> = Vec::new();
    push_decimal(&mut out, whole as u128);
    if rem == 0 {
        return string_from_chars(&out);
    }
    assert(rem as u128 * FIVE_POW_30 < 1_000_000_000_000_000_000_000_000_000_000) by (nonlinear_arith)
        requires
            rem < 1_073_741_824,
    ;
    let frac = rem as u128 * FIVE_POW_30;
    let mut digits: Vec<char> = Vec::new();
    push_fixed_digits(&mut digits, frac);
    assert(digits@ =~= fixed_digits(frac as nat, 30));
    let mut n: usize = digits.len();
    assert(digits@.take(n as int) =~= digits@);
    while n > 0 && digits[n - 1] == '0'
        invariant
            n <= digits@.len(),
            trim_zeros_len(digits@) == trim_zeros_len(digits@.take(n as int)),
        decreases n,
    {
        assert(digits@.take(n as int).drop_last() =~= digits@.take(n - 1));
        n -= 1;
    }
    assert(trim_zeros_len(digits@.take(n as int)) == n) by {
        if n > 0 {
            assert(digits@.take(n as int).last() == digits@[n - 1]);
        }
    }
    out.push('.');
    let mut j: usize = 0;
    let ghost base = out@;
    while j < n
        invariant
            j <= n <= digits@.len(),
            out@ == base + digits@.take(j as int),
        decreases n - j,
    {
        out.push(digits[j]);
        assert(digits@.take(j + 1) =~= digits@.take(j as int).push(digits@[j as int]));
        j += 1;
    }
    assert(trim_zeros(digits@) =~= digits@.take(n as int));
    assert(out@ =~= decimal(whole as nat) + seq!['.'] + trim_zeros(fixed_digits(frac as nat, 30)));
    string_from_chars(&out)
}

// ---------------------------------------------------------------------------
// Parsing

/// 2^k.
pub open spec fn pow2(k: nat) -> nat
    decreases k,
{
    if k == 0 { 1 } else { 2 * pow2((k - 1) as nat) }
}

/// 5^k.
pub open spec fn pow5(k: nat) -> nat
    decreases k,
{
    if k == 0 { 1 } else { 5 * pow5((k - 1) as nat) }
}

proof fn lemma_pow_split(k: nat)
    ensures
        pow10(k) == pow2(k) * pow5(k),
        pow2(k) >= 1,
        pow5(k) >= 1,
    decreases k,
{
    if k > 0 {
        lemma_pow_split((k - 1) as nat);
        let a = pow2((k - 1) as nat);
        let b = pow5((k - 1) as nat);
        assert((2 * a) * (5 * b) == 10 * (a * b)) by (nonlinear_arith);
        assert(2 * a >= 1 && 5 * b >= 1);
    } else {
        assert(pow10(0) == 1 && pow2(0) == 1 && pow5(0) == 1);
    }
}

proof fn lemma_pow2_add(a: nat, b: nat)
    ensures
        pow2(a + b) == pow2(a) * pow2(b),
    decreases b,
{
    if b > 0 {
        lemma_pow2_add(a, (b - 1) as nat);
        assert(pow2(a) * (2 * pow2((b - 1) as nat)) == 2 * (pow2(a) * pow2((b - 1) as nat)))
            by (nonlinear_arith);
    } else {
        assert(pow2(0) == 1);
        assert(a + b == a);
    }
}

proof fn lemma_pow5_mono(a: nat, b: nat)
    requires
        a <= b,
    ensures
        pow5(a) <= pow5(b),
    decreases b - a,
{
    if a < b {
        lemma_pow5_mono(a, (b - 1) as nat);
        lemma_pow_split((b - 1) as nat);
    }
}

proof fn lemma_pow_constants()
    ensures
        pow2(30) == GIB,
        pow5(30) == FIVE_POW_30,
        pow10(30) == 1_000_000_000_000_000_000_000_000_000_000,
{
    reveal_with_fuel(pow2, 31);
    reveal_with_fuel(pow5, 31);
    reveal_with_fuel(pow10, 31);
}

/// Whether `c` has the Unicode `White_Space` property.
pub(crate) fn is_white_space_exec(c: char) -> (r: bool)
    ensures
        r == is_white_space(c),
{
    ('\u{9}' <= c && c <= '\u{d}') || c == ' ' || c == '\u{85}' || c == '\u{a0}' || c
        == '\u{1680}' || ('\u{2000}' <= c && c <= '\u{200a}') || c == '\u{2028}' || c
        == '\u{2029}' || c == '\u{202f}' || c == '\u{205f}' || c == '\u{3000}'
}

pub(crate) fn trim_white_space(s: &Vec<char>) -> (r: Vec<char>)
    ensures
        r@ == trim_ws(s@),
{
    let mut i: usize = 0;
    assert(s@.skip(0) =~= s@);
    while i < s.len() && is_white_space_exec(s[i])
        invariant
            i <= s@.len(),
            lead_ws(s@) == i + lead_ws(s@.skip(i as int)),
        decreases s.len() - i,
    {
        assert(s@.skip(i as int).skip(1) =~= s@.skip(i + 1));
        assert(s@.skip(i as int)[0] == s@[i as int]);
        i += 1;
    }
    proof {
        if i < s.len() {
            assert(s@.skip(i as int)[0] == s@[i as int]);
        }
    }
    let t = crate::text::slice_chars(s, i, s.len());
    assert(t@ =~= s@.skip(lead_ws(s@) as int));
    let mut n: usize = t.len();
    assert(t@.take(n as int) =~= t@);
    while n > 0 && is_white_space_exec(t[n - 1])
        invariant
            n <= t@.len(),
            keep_ws(t@) == keep_ws(t@.take(n as int)),
        decreases n,
    {
        assert(t@.take(n as int).drop_last() =~= t@.take(n - 1));
        n -= 1;
    }
    proof {
        if n > 0 {
            assert(t@.take(n as int).last() == t@[n - 1]);
        }
    }
    let r = crate::text::slice_chars(&t, 0, n);
    assert(r@ =~= t@.take(n as int));
    r
}

pub(crate) fn all_digits_in(s: &Vec<char>, lo: usize, hi: usize) -> (r: bool)
    requires
        lo <= hi <= s.len(),
    ensures
        r == all_digits(s@.subrange(lo as int, hi as int)),
{
    let mut i = lo;
    while i < hi
        invariant
            lo <= i <= hi <= s.len(),
            forall|j: int| lo <= j < i ==> is_digit(#[trigger] s@[j]),
        decreases hi - i,
    {
        if !('0' <= s[i] && s[i] <= '9') {
            assert(s@.subrange(lo as int, hi as int)[i - lo] == s@[i as int]);
            return false;
        }
        i += 1;
    }
    assert forall|j: int| 0 <= j < hi - lo implies is_digit(#[trigger] s@.subrange(lo as int, hi as int)[j]) by {
        assert(s@.subrange(lo as int, hi as int)[j] == s@[lo + j]);
    }
    true
}

/// Value of the digits `s[lo..hi]`, or `None` once it exceeds `u64::MAX`.
pub(crate) fn digits_value_u64(s: &Vec<char>, lo: usize, hi: usize) -> (r: Option<u64>)
    requires
        lo <= hi <= s.len(),
        all_digits(s@.subrange(lo as int, hi as int)),
    ensures
        match r {
            Some(v) => v == dec_value(s@.subrange(lo as int, hi as int)),
            None => dec_value(s@.subrange(lo as int, hi as int)) > u64::MAX,
        },
{
    let mut v: u128 = 0;
    let mut big = false;
    let mut i = lo;
    assert(s@.subrange(lo as int, lo as int) =~= Seq::<char>::empty());
    while i < hi
        invariant
            lo <= i <= hi <= s.len(),
            all_digits(s@.subrange(lo as int, hi as int)),
            !big ==> v == dec_value(s@.subrange(lo as int, i as int)) && v <= u64::MAX,
            big ==> dec_value(s@.subrange(lo as int, i as int)) > u64::MAX,
        decreases hi - i,
    {
        let ghost pre = s@.subrange(lo as int, i as int);
        assert(s@.subrange(lo as int, i + 1).drop_last() =~= pre);
        assert(s@.subrange(lo as int, i + 1).last() == s@[i as int]);
        assert(s@.subrange(lo as int, hi as int)[i - lo] == s@[i as int]);
        assert(is_digit(s@[i as int]));
        if !big {
            let d = (s[i] as u32 - '0' as u32) as u128;
            v = v * 10 + d;
            if v > u64::MAX as u128 {
                big = true;
            }
        }
        i += 1;
    }
    if big {
        None
    } else {
        Some(v as u64)
    }
}

/// Bytes of a GiB amount typed by a user (see `parse_gib_spec`), or the
/// message explaining why it is refused.
pub fn parse_gibibytes(input: &str) -> (r: Result<u64, String>)
    ensures
        match r {
            Ok(b) => parse_gib_spec(input@) == Ok::<u64, Seq<char>>(b) && b > 0,
            Err(e) => parse_gib_spec(input@) == Err::<u64, Seq<char>>(e@),
        },
{
    let raw = chars_of(input);
    let t = trim_white_space(&raw);
    let dot = crate::text::find_char(&t, '.');
    proof {
        crate::text::lemma_index_of_from_range(t@, '.', 0);
        assert(t@.take(dot as int) =~= t@.subrange(0, dot as int));
        if dot < t.len() {
            assert(t@.skip(dot + 1) =~= t@.subrange(dot + 1, t@.len() as int));
        }
    }
    let has_fraction = dot < t.len();
    if dot == 0 || !all_digits_in(&t, 0, dot) || (has_fraction && (t.len() == dot + 1
        || !all_digits_in(&t, dot + 1, t.len()))) {
        return Err("Disk cache must be a decimal number of GiB".to_owned());
    }
    let whole = match digits_value_u64(&t, 0, dot) {
        Some(w) => w,
        None => {
            proof {
                assert(dec_value(t@.take(dot as int)) * GIB > u64::MAX) by (nonlinear_arith)
                    requires
                        dec_value(t@.take(dot as int)) > u64::MAX,
                ;
            }
            return Err("Disk cache size is too large".to_owned());
        },
    };
    let whole_bytes = match whole.checked_mul(GIB) {
        Some(b) => b,
        None => {
            return Err("Disk cache size is too large".to_owned());
        },
    };
    // Fraction digits without trailing zeros: t[dot + 1 .. end].
    let start: usize = if has_fraction { dot + 1 } else { t.len() };
    let mut end: usize = t.len();
    let ghost fr = if has_fraction { t@.skip(dot + 1) } else { Seq::<char>::empty() };
    assert(fr =~= t@.subrange(start as int, t@.len() as int));
    assert(fr.take(fr.len() as int) =~= fr);
    while end > start && t[end - 1] == '0'
        invariant
            start <= end <= t@.len(),
            fr == t@.subrange(start as int, t@.len() as int),
            trim_zeros_len(fr) == trim_zeros_len(fr.take(end - start)),
        decreases end,
    {
        assert(fr.take(end - start).drop_last() =~= fr.take(end - 1 - start));
        assert(fr.take(end - start).last() == t@[end - 1]);
        end -= 1;
    }
    proof {
        if end > start {
            assert(fr.take(end - start).last() == t@[end - 1]);
        }
        assert(trim_zeros_len(fr) == end - start);
        assert(trim_zeros(fr) =~= t@.subrange(start as int, end as int));
        lemma_pow_constants();
    }
    let n: usize = end - start;
    if n > MAX_FRACTION_DIGITS {
        return Err("Disk cache size is too precise".to_owned());
    }
    let ghost f = trim_zeros(fr);
    proof {
        if has_fraction {
            assert(all_digits(fr)) by {
                assert forall|j: int| 0 <= j < fr.len() implies is_digit(#[trigger] fr[j]) by {
                    assert(fr[j] == t@.subrange(dot + 1, t@.len() as int)[j]);
                }
            }
        }
        lemma_trim_zeros(fr);
        lemma_dec_value_bound(f);
        lemma_pow10_mono(n as nat, 30);
    }
    // Numerator: the value of the fraction digits, below 10^n <= 10^30.
    let mut numerator: u128 = 0;
    let mut i: usize = start;
    assert(t@.subrange(start as int, start as int) =~= Seq::<char>::empty());
    while i < end
        invariant
            start <= i <= end <= t@.len(),
            end - start <= 30,
            f == t@.subrange(start as int, end as int),
            all_digits(f),
            numerator == dec_value(t@.subrange(start as int, i as int)),
            numerator < pow10((i - start) as nat),
            pow10(30) == 1_000_000_000_000_000_000_000_000_000_000,
        decreases end - i,
    {
        let ghost pre = t@.subrange(start as int, i as int);
        assert(t@.subrange(start as int, i + 1).drop_last() =~= pre);
        assert(t@.subrange(start as int, i + 1).last() == t@[i as int]);
        assert(f[i - start] == t@[i as int]);
        assert(is_digit(t@[i as int]));
        proof {
            lemma_pow10_mono((i + 1 - start) as nat, 30);
        }
        let d = (t[i] as u32 - '0' as u32) as u128;
        assert(numerator * 10 + d < pow10((i + 1 - start) as nat)) by (nonlinear_arith)
            requires
                numerator < pow10((i - start) as nat),
                d < 10,
                pow10((i + 1 - start) as nat) == 10 * pow10((i - start) as nat),
        ;
        numerator = numerator * 10 + d;
        i += 1;
    }
    assert(t@.subrange(start as int, end as int) =~= f);
    // The common factor of 10^n and 2^30 is 2^n: the fraction is
    // numerator * 2^(30 - n) / 5^n.
    let mut p2: u128 = 1;
    let mut p5: u128 = 1;
    let mut k: usize = 0;
    while k < n
        invariant
            k <= n <= 30,
            p2 == pow2(k as nat),
            p5 == pow5(k as nat),
            pow2(30) == GIB,
            pow5(30) == FIVE_POW_30,
        decreases n - k,
    {
        proof {
            lemma_pow5_mono((k + 1) as nat, 30);
            lemma_pow2_add((k + 1) as nat, (29 - k) as nat);
            lemma_pow_split((29 - k) as nat);
            lemma_pow_split((k + 1) as nat);
        }
        assert(pow2((k + 1) as nat) <= pow2(30)) by (nonlinear_arith)
            requires
                pow2(30) == pow2((k + 1) as nat) * pow2((29 - k) as nat),
                pow2((29 - k) as nat) >= 1,
        ;
        p2 = p2 * 2;
        p5 = p5 * 5;
        k += 1;
    }
    proof {
        lemma_pow_split(n as nat);
        lemma_pow2_add((30 - n) as nat, n as nat);
        lemma_pow_split((30 - n) as nat);
        lemma_pow5_mono(n as nat, 30);
    }
    let scale: u128 = GIB as u128 / p2;
    assert(scale == pow2((30 - n) as nat)) by {
        vstd::arithmetic::div_mod::lemma_div_by_multiple(pow2((30 - n) as nat) as int, p2 as int);
    }
    assert(numerator * scale < pow5(n as nat) * GIB) by (nonlinear_arith)
        requires
            numerator < pow10(n as nat),
            pow10(n as nat) == pow2(n as nat) * pow5(n as nat),
            scale == pow2((30 - n) as nat),
            GIB == pow2((30 - n) as nat) * pow2(n as nat),
            scale >= 1,
    ;
    assert(pow5(n as nat) * GIB <= FIVE_POW_30 * GIB) by (nonlinear_arith)
        requires
            pow5(n as nat) <= FIVE_POW_30,
    ;
    let fraction: u128 = numerator * scale / p5;
    proof {
        lemma_div_cancel((numerator * scale) as int, p5 as int, p2 as int);
        assert(numerator * scale * p2 == numerator * GIB) by (nonlinear_arith)
            requires
                GIB == scale * p2,
        ;
        assert(p5 * p2 == pow10(n as nat)) by (nonlinear_arith)
            requires
                pow10(n as nat) == p2 * p5,
        ;
        assert(fraction == (dec_value(f) * GIB) as int / pow10(f.len()) as int);
        assert(fraction < GIB) by (nonlinear_arith)
            requires
                fraction == (numerator * GIB) / (pow10(n as nat) as int),
                numerator < pow10(n as nat),
                pow10(n as nat) >= 1,
        ;
    }
    let total = match whole_bytes.checked_add(fraction as u64) {
        Some(b) => b,
        None => {
            return Err("Disk cache size is too large".to_owned());
        },
    };
    if total == 0 {
        return Err("Disk cache must be greater than zero GiB".to_owned());
    }
    Ok(total)
}

// ---------------------------------------------------------------------------
// Round trip

proof fn lemma_decimal(n: nat)
    ensures
        decimal(n).len() > 0,
        all_digits(decimal(n)),
        dec_value(decimal(n)) == n,
    decreases n,
{
    if n < 10 {
        lemma_digit_char_value(n as int);
        assert(decimal(n).drop_last() =~= Seq::<char>::empty());
        assert(dec_value(Seq::<char>::empty()) == 0);
        assert(decimal(n).last() == digit_char(n as int));
        assert(dec_value(decimal(n)) == dec_value(decimal(n).drop_last()) * 10 + digit_value(
            decimal(n).last(),
        ));
    } else {
        lemma_decimal(n / 10);
        lemma_digit_char_value((n % 10) as int);
        vstd::arithmetic::div_mod::lemma_fundamental_div_mod(n as int, 10);
        let d = decimal(n);
        assert(d.last() == digit_char((n % 10) as int));
        assert(dec_value(d) == dec_value(d.drop_last()) * 10 + digit_value(d.last()));
        assert(d.drop_last() =~= decimal(n / 10));
        assert forall|i: int| 0 <= i < d.len() implies is_digit(#[trigger] d[i]) by {
            if i < d.len() - 1 {
                assert(d[i] == decimal(n / 10)[i]);
            }
        }
    }
}

proof fn lemma_index_of_dot(s: Seq<char>, i: int, j: int)
    requires
        0 <= i <= j <= s.len(),
        forall|m: int| i <= m < j ==> s[m] != '.',
        j == s.len() || s[j] == '.',
    ensures
        crate::text::first_index_of(s, '.') == j || i > 0,
        crate::text::index_of_from(s, '.', i) == j,
    decreases j - i,
{
    if i < j {
        lemma_index_of_dot(s, i + 1, j);
    }
}

proof fn lemma_trim_ws_digits(s: Seq<char>)
    requires
        s.len() > 0,
        is_digit(s[0]),
        is_digit(s.last()),
    ensures
        trim_ws(s) == s,
{
    assert(lead_ws(s) == 0);
    assert(s.skip(0) =~= s);
    assert(keep_ws(s) == s.len());
    assert(s.take(s.len() as int) =~= s);
}

/// Formatting a positive byte count as GiB text and parsing that text
/// gives back exactly the same byte count.
pub proof fn lemma_parse_format_round_trip(b: u64)
    requires
        b > 0,
    ensures
        parse_gib_spec(format_gib_spec(b)) == Ok::<u64, Seq<char>>(b),
{
    let w = (b / GIB) as nat;
    let r = (b % GIB) as nat;
    let dw = decimal(w);
    let s = format_gib_spec(b);
    lemma_decimal(w);
    lemma_pow_constants();
    lemma_pow10_pos(0);
    assert(pow10(0) == 1);
    assert forall|m: int| 0 <= m < dw.len() implies dw[m] != '.' by {
        assert(is_digit(dw[m]));
    }
    assert(w * GIB + r == b) by {
        vstd::arithmetic::div_mod::lemma_fundamental_div_mod(b as int, GIB as int);
    }
    if r == 0 {
        assert(s == dw);
        lemma_trim_ws_digits(dw);
        lemma_index_of_dot(dw, 0, dw.len() as int);
        assert(dw.take(dw.len() as int) =~= dw);
        assert(dec_value(Seq::<char>::empty()) == 0);
        assert(trim_zeros_len(Seq::<char>::empty()) == 0);
    } else {
        let v = r * FIVE_POW_30;
        assert(v < pow10(30)) by (nonlinear_arith)
            requires
                v == r * FIVE_POW_30,
                r < GIB,
                pow10(30) == 1_000_000_000_000_000_000_000_000_000_000,
        ;
        let full = fixed_digits(v as nat, 30);
        lemma_fixed_digits(v as nat, 30);
        vstd::arithmetic::div_mod::lemma_small_mod(v as nat, pow10(30));
        lemma_trim_zeros(full);
        let t = trim_zeros(full);
        let len = t.len();
        let z = (30 - len) as nat;
        assert(dec_value(full) == v);
        assert(v == dec_value(t) * pow10(z));
        assert(len > 0) by {
            if len == 0 {
                assert(t =~= Seq::<char>::empty());
                assert(dec_value(t) == 0);
                assert(v == 0) by (nonlinear_arith)
                    requires
                        v == dec_value(t) * pow10(z),
                        dec_value(t) == 0,
                ;
                assert(v > 0) by (nonlinear_arith)
                    requires
                        r > 0,
                        v == r * FIVE_POW_30,
                ;
            }
        }
        assert(s =~= dw + seq!['.'] + t);
        let dot = dw.len() as int;
        assert(s[dot] == '.');
        assert(is_digit(t.last()));
        assert(s.last() == t.last());
        assert(is_digit(s[0])) by {
            assert(s[0] == dw[0]);
        }
        lemma_trim_ws_digits(s);
        assert forall|m: int| 0 <= m < dot implies s[m] != '.' by {
            assert(s[m] == dw[m]);
        }
        lemma_index_of_dot(s, 0, dot);
        assert(s.take(dot) =~= dw);
        assert(s.skip(dot + 1) =~= t);
        // the fraction is already without trailing zeros
        assert(trim_zeros(t) =~= t);
        // its share of a GiB is exactly the remainder
        lemma_pow10_add(len, z);
        lemma_pow10_pos(len);
        lemma_pow10_pos(z);
        lemma_div_cancel((dec_value(t) * GIB) as int, pow10(len) as int, pow10(z) as int);
        assert(dec_value(t) * GIB * pow10(z) == v * GIB) by (nonlinear_arith)
            requires
                v == dec_value(t) * pow10(z),
        ;
        assert(v * GIB == r * pow10(30)) by (nonlinear_arith)
            requires
                v == r * FIVE_POW_30,
                pow10(30) == 1_000_000_000_000_000_000_000_000_000_000,
        ;
        assert(pow10(len) * pow10(z) == pow10(30));
        vstd::arithmetic::div_mod::lemma_div_by_multiple(r as int, pow10(30) as int);
        assert((dec_value(t) * GIB) as int / pow10(len) as int == r);
    }
}

} // verus!
