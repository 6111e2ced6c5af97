//! Character-level text helpers: decimal rendering, integer parsing,
//! whitespace trimming, substring search and splitting.
//!
//! Every helper works on the `Seq<char>` view of a string and is specified
//! by a spec function that says what the result is.
use vstd::prelude::*;

verus! {

// ------------------------------------------------------------------ //
//  Character classes                                                  //
// ------------------------------------------------------------------ //

pub open spec fn is_digit(c: char) -> bool {
    '0' <= c && c <= '9'
}

pub open spec fn digit_value(c: char) -> nat {
    (c as int - '0' as int) as nat
}

pub open spec fn digit_char(d: nat) -> char {
    (d + '0' as nat) as char
}

/// The Unicode `White_Space` property, which `char::is_whitespace` tests.
pub open spec fn is_space(c: char) -> bool {
    ||| ('\u{9}' <= c && c <= '\u{d}')
    ||| c == ' '
    ||| c == '\u{85}'
    ||| c == '\u{a0}'
    ||| c == '\u{1680}'
    ||| ('\u{2000}' <= c && c <= '\u{200a}')
    ||| c == '\u{2028}'
    ||| c == '\u{2029}'
    ||| c == '\u{202f}'
    ||| c == '\u{205f}'
    ||| c == '\u{3000}'
}

pub fn char_is_space(c: char) -> (b: bool)
    ensures
        b == is_space(c),
{
    ('\u{9}' <= c && c <= '\u{d}') || c == ' ' || c == '\u{85}' || c == '\u{a0}' || c
        == '\u{1680}' || ('\u{2000}' <= c && c <= '\u{200a}') || c == '\u{2028}' || c
        == '\u{2029}' || c == '\u{202f}' || c == '\u{205f}' || c == '\u{3000}'
}

// ------------------------------------------------------------------ //
//  Strings as character vectors                                       //
// ------------------------------------------------------------------ //

/// `String::push`: appends one character.
#[verifier::external_body]
pub(crate) fn push_char(s: &mut String, c: char)
    ensures
        final(s)@ == old(s)@.push(c),
{
    s.push(c);
}

/// The characters of a string slice, in order.
pub fn chars_of(s: &str) -> (v: Vec<char>)
    ensures
        v@ == s@,
{
    let mut v: Vec<char> = Vec::new();
    for c in it: s.chars()
        invariant
            v@ == it.seq().take(it.index() as int),
            it.seq() == s@,
    {
        v.push(c);
    }
    v
}

/// Appends the characters of `v[start..end]` to `s`.
pub fn push_chars(s: &mut String, v: &Vec<char>, start: usize, end: usize)
    requires
        start <= end <= v.len(),
    ensures
        final(s)@ == old(s)@ + v@.subrange(start as int, end as int),
{
    let mut i = start;
    while i < end
        invariant
            start <= i <= end <= v.len(),
            s@ == old(s)@ + v@.subrange(start as int, i as int),
        decreases end - i,
    {
        push_char(s, v[i]);
        assert(v@.subrange(start as int, i + 1) =~= v@.subrange(start as int, i as int).push(
            v@[i as int],
        ));
        i = i + 1;
    }
}

/// A new string holding `v[start..end]`.
pub fn string_of(v: &Vec<char>, start: usize, end: usize) -> (s: String)
    requires
        start <= end <= v.len(),
    ensures
        s@ == v@.subrange(start as int, end as int),
{
    let mut s = String::new();
    push_chars(&mut s, v, start, end);
    s
}

/// The vector `v[start..end]`.
pub fn slice_of(v: &Vec<char>, start: usize, end: usize) -> (r: Vec<char>)
    requires
        start <= end <= v.len(),
    ensures
        r@ == v@.subrange(start as int, end as int),
{
    let mut r: Vec<char> = Vec::new();
    let mut i = start;
    while i < end
        invariant
            start <= i <= end <= v.len(),
            r@ == v@.subrange(start as int, i as int),
        decreases end - i,
    {
        r.push(v[i]);
        i = i + 1;
    }
    r
}

/// Whether two character vectors are equal.
pub fn chars_eq(a: &Vec<char>, b: &Vec<char>) -> (r: bool)
    ensures
        r == (a@ == b@),
{
    if a.len() != b.len() {
        return false;
    }
    let mut i: usize = 0;
    while i < a.len()
        invariant
            a.len() == b.len(),
            i <= a.len(),
            forall|j: int| 0 <= j < i ==> a@[j] == b@[j],
        decreases a.len() - i,
    {
        if a[i] != b[i] {
            return false;
        }
        i = i + 1;
    }
    assert(a@ =~= b@);
    true
}

/// Whether `s` holds exactly the characters of `lit`.
pub fn str_is(s: &str, lit: &str) -> (r: bool)
    ensures
        r == (s@ == lit@),
{
    let a = chars_of(s);
    let b = chars_of(lit);
    chars_eq(&a, &b)
}

/// The concatenation of a sequence of strings with `sep` between neighbours.
pub open spec fn join(parts: Seq<Seq<char>>, sep: Seq<char>) -> Seq<char>
    decreases parts.len(),
{
    if parts.len() == 0 {
        Seq::empty()
    } else if parts.len() == 1 {
        parts[0]
    } else {
        join(parts.drop_last(), sep) + sep + parts.last()
    }
}

// ------------------------------------------------------------------ //
//  Decimal rendering                                                  //
// ------------------------------------------------------------------ //

/// Decimal digits of a natural number, most significant first.
pub open spec fn nat_text(n: nat) -> Seq<char>
    decreases n,
{
    if n < 10 {
        seq![digit_char(n)]
    } else {
        nat_text(n / 10).push(digit_char(n % 10))
    }
}

/// Decimal text of an integer, with a leading `-` when negative
/// (what `Display` writes for Rust's integer types).
pub open spec fn int_text(i: int) -> Seq<char> {
    if i < 0 {
        seq!['-'] + nat_text((-i) as nat)
    } else {
        nat_text(i as nat)
    }
}

pub fn digit_to_char(d: u64) -> (c: char)
    requires
        d < 10,
    ensures
        c == digit_char(d as nat),
{
    let b: u8 = 48u8 + d as u8;
    b as char
}

/// Appends the decimal digits of `n`.
pub fn push_u128(s: &mut String, n: u128)
    ensures
        final(s)@ == old(s)@ + nat_text(n as nat),
    decreases n,
{
    if n >= 10 {
        push_u128(s, n / 10);
    }
    let d: u64 = (n % 10) as u64;
    push_char(s, digit_to_char(d));
    proof {
        if n >= 10 {
            assert(nat_text(n as nat) == nat_text((n / 10) as nat).push(digit_char((n % 10) as nat)));
        }
    }
}

/// Appends the decimal text of `n`.
pub fn push_u64(s: &mut String, n: u64)
    ensures
        final(s)@ == old(s)@ + nat_text(n as nat),
{
    push_u128(s, n as u128);
}

/// Appends the decimal text of `i`, with a `-` when negative.
pub fn push_i64(s: &mut String, i: i64)
    ensures
        final(s)@ == old(s)@ + int_text(i as int),
{
    if i < 0 {
        push_char(s, '-');
        let m: u128 = (0i128 - i as i128) as u128;
        push_u128(s, m);
        assert(s@ =~= old(s)@ + int_text(i as int));
    } else {
        push_u128(s, i as u128);
    }
}

/// The decimal text of `n`.
pub fn u64_text(n: u64) -> (s: String)
    ensures
        s@ == nat_text(n as nat),
{
    let mut s = String::new();
    push_u64(&mut s, n);
    assert(s@ =~= nat_text(n as nat));
    s
}


/// `n / unit` in tenths, rounded to the nearest tenth with ties to even,
/// as `{:.1}` rounds an exactly representable quotient.
pub open spec fn tenths_half_even(n: nat, unit: nat) -> nat {
    let q = (n * 10) / unit;
    let r = (n * 10) % unit;
    if 2 * r > unit || (2 * r == unit && q % 2 == 1) {
        q + 1
    } else {
        q
    }
}

/// A number of tenths written with one decimal: `12` is `1.2`.
pub open spec fn one_decimal(t: nat) -> Seq<char> {
    nat_text(t / 10) + seq!['.', digit_char(t % 10)]
}

/// Appends `n / unit` with one decimal (`{:.1}` of the exact quotient).
pub fn push_one_decimal(s: &mut String, n: u64, unit: u64)
    requires
        unit > 0,
    ensures
        final(s)@ == old(s)@ + one_decimal(tenths_half_even(n as nat, unit as nat)),
{
    let x: u128 = n as u128 * 10;
    let u: u128 = unit as u128;
    let q: u128 = x / u;
    let r: u128 = x % u;
    assert(q <= x) by (nonlinear_arith)
        requires
            u > 0,
            q == x / u,
            x >= 0,
    ;
    let t: u128 = if 2 * r > u || (2 * r == u && q % 2 == 1) {
        q + 1
    } else {
        q
    };
    assert(t == tenths_half_even(n as nat, unit as nat));
    push_u128(s, t / 10);
    push_char(s, '.');
    push_char(s, digit_to_char((t % 10) as u64));
    assert(s@ =~= old(s)@ + one_decimal(t as nat));
}

// ------------------------------------------------------------------ //
//  Integer parsing (`str::parse` for the integer types)               //
// ------------------------------------------------------------------ //

pub open spec fn all_digits(s: Seq<char>) -> bool {
    forall|i: int| 0 <= i < s.len() ==> is_digit(#[trigger] s[i])
}

/// The value of a run of decimal digits.
pub open spec fn digits_value(s: Seq<char>) -> nat
    decreases s.len(),
{
    if s.len() == 0 {
        0
    } else {
        digits_value(s.drop_last()) * 10 + digit_value(s.last())
    }
}

/// What `from_str` reads from `s` for an integer type, before its range
/// is checked: an optional sign (`-` only for signed types), then at least
/// one decimal digit and nothing else.
pub open spec fn integer_value(s: Seq<char>, signed: bool) -> Option<int> {
    if s.len() == 0 {
        None
    } else if s[0] == '+' || (signed && s[0] == '-') {
        let d = s.drop_first();
        if d.len() == 0 || !all_digits(d) {
            None
        } else if s[0] == '-' {
            Some(-(digits_value(d) as int))
        } else {
            Some(digits_value(d) as int)
        }
    } else if all_digits(s) {
        Some(digits_value(s) as int)
    } else {
        None
    }
}

/// `s.parse::<T>()` for an integer type whose range is `lo..=hi`.
pub open spec fn parse_integer(s: Seq<char>, signed: bool, lo: int, hi: int) -> Option<int> {
    match integer_value(s, signed) {
        Some(v) => if lo <= v <= hi {
            Some(v)
        } else {
            None
        },
        None => None,
    }
}

pub open spec fn parse_i64_spec(s: Seq<char>) -> Option<i64> {
    match parse_integer(s, true, i64::MIN as int, i64::MAX as int) {
        Some(v) => Some(v as i64),
        None => None,
    }
}

pub open spec fn parse_i32_spec(s: Seq<char>) -> Option<i32> {
    match parse_integer(s, true, i32::MIN as int, i32::MAX as int) {
        Some(v) => Some(v as i32),
        None => None,
    }
}

pub open spec fn parse_u32_spec(s: Seq<char>) -> Option<u32> {
    match parse_integer(s, false, 0, u32::MAX as int) {
        Some(v) => Some(v as u32),
        None => None,
    }
}

pub open spec fn parse_u64_spec(s: Seq<char>) -> Option<u64> {
    match parse_integer(s, false, 0, u64::MAX as int) {
        Some(v) => Some(v as u64),
        None => None,
    }
}

pub proof fn lemma_digits_value_prefix(s: Seq<char>, k: int)
    requires
        0 <= k <= s.len(),
    ensures
        digits_value(s.take(k)) <= digits_value(s),
    decreases s.len() - k,
{
    if k < s.len() {
        lemma_digits_value_prefix(s, k + 1);
        assert(s.take(k + 1).drop_last() =~= s.take(k));
    } else {
        assert(s.take(k) =~= s);
    }
}

/// The value of the digits `v[start..end]`, or `None` when it exceeds `2^64`.
pub fn digits_magnitude(v: &Vec<char>, start: usize, end: usize) -> (r: Option<u128>)
    requires
        start <= end <= v.len(),
        all_digits(v@.subrange(start as int, end as int)),
    ensures
        match r {
            Some(m) => m == digits_value(v@.subrange(start as int, end as int)) && m
                <= 0x1_0000_0000_0000_0000,
            None => digits_value(v@.subrange(start as int, end as int)) > 0x1_0000_0000_0000_0000,
        },
{
    let ghost d = v@.subrange(start as int, end as int);
    let mut acc: u128 = 0;
    let mut i = start;
    while i < end
        invariant
            start <= i <= end <= v.len(),
            d == v@.subrange(start as int, end as int),
            all_digits(d),
            acc == digits_value(d.take(i - start)),
            acc <= 0x1_0000_0000_0000_0000,
        decreases end - i,
    {
        let c = v[i];
        assert(d[i - start] == c);
        assert(is_digit(d[i - start]));
        let dv: u128 = (c as u32 - '0' as u32) as u128;
        assert(d.take(i - start + 1).drop_last() =~= d.take(i - start));
        acc = acc * 10 + dv;
        i = i + 1;
        if acc > 0x1_0000_0000_0000_0000 {
            proof {
                lemma_digits_value_prefix(d, i - start);
            }
            return None;
        }
    }
    assert(d.take(end - start) =~= d);
    Some(acc)
}

pub fn all_digits_in(v: &Vec<char>, start: usize, end: usize) -> (b: bool)
    requires
        start <= end <= v.len(),
    ensures
        b == all_digits(v@.subrange(start as int, end as int)),
{
    let mut i = start;
    while i < end
        invariant
            start <= i <= end <= v.len(),
            forall|j: int| start <= j < i ==> is_digit(v@[j]),
        decreases end - i,
    {
        let c = v[i];
        if !('0' <= c && c <= '9') {
            assert(!is_digit(v@.subrange(start as int, end as int)[i - start]));
            return false;
        }
        i = i + 1;
    }
    true
}

/// Parses `v[start..end]` as an integer in `lo..=hi`, as `str::parse` does.
pub fn parse_integer_in(v: &Vec<char>, start: usize, end: usize, signed: bool, lo: i128, hi: i128) -> (r:
    Option<i128>)
    requires
        start <= end <= v.len(),
        -0x1_0000_0000_0000_0000 <= lo <= hi <= 0x1_0000_0000_0000_0000,
    ensures
        match r {
            Some(x) => parse_integer(v@.subrange(start as int, end as int), signed, lo as int, hi as int)
                == Some(x as int),
            None => parse_integer(v@.subrange(start as int, end as int), signed, lo as int, hi as int)
                is None,
        },
{
    let ghost s = v@.subrange(start as int, end as int);
    if start == end {
        return None;
    }
    let c0 = v[start];
    assert(s[0] == c0);
    if c0 == '+' || (signed && c0 == '-') {
        assert(s.drop_first() =~= v@.subrange(start + 1, end as int));
        if start + 1 == end || !all_digits_in(v, start + 1, end) {
            return None;
        }
        match digits_magnitude(v, start + 1, end) {
            None => return None,
            Some(m) => {
                let x: i128 = if c0 == '-' {
                    0 - m as i128
                } else {
                    m as i128
                };
                if lo <= x && x <= hi {
                    return Some(x);
                } else {
                    return None;
                }
            },
        }
    } else {
        if !all_digits_in(v, start, end) {
            return None;
        }
        match digits_magnitude(v, start, end) {
            None => return None,
            Some(m) => {
                let x: i128 = m as i128;
                if lo <= x && x <= hi {
                    return Some(x);
                } else {
                    return None;
                }
            },
        }
    }
}

pub fn parse_i64_in(v: &Vec<char>, start: usize, end: usize) -> (r: Option<i64>)
    requires
        start <= end <= v.len(),
    ensures
        r == parse_i64_spec(v@.subrange(start as int, end as int)),
{
    match parse_integer_in(v, start, end, true, i64::MIN as i128, i64::MAX as i128) {
        Some(x) => Some(x as i64),
        None => None,
    }
}

pub fn parse_i32_in(v: &Vec<char>, start: usize, end: usize) -> (r: Option<i32>)
    requires
        start <= end <= v.len(),
    ensures
        r == parse_i32_spec(v@.subrange(start as int, end as int)),
{
    match parse_integer_in(v, start, end, true, i32::MIN as i128, i32::MAX as i128) {
        Some(x) => Some(x as i32),
        None => None,
    }
}

pub fn parse_u32_in(v: &Vec<char>, start: usize, end: usize) -> (r: Option<u32>)
    requires
        start <= end <= v.len(),
    ensures
        r == parse_u32_spec(v@.subrange(start as int, end as int)),
{
    match parse_integer_in(v, start, end, false, 0, u32::MAX as i128) {
        Some(x) => Some(x as u32),
        None => None,
    }
}

pub fn parse_u64_in(v: &Vec<char>, start: usize, end: usize) -> (r: Option<u64>)
    requires
        start <= end <= v.len(),
    ensures
        r == parse_u64_spec(v@.subrange(start as int, end as int)),
{
    match parse_integer_in(v, start, end, false, 0, u64::MAX as i128) {
        Some(x) => Some(x as u64),
        None => None,
    }
}

// ------------------------------------------------------------------ //
//  Whitespace trimming                                                //
// ------------------------------------------------------------------ //

/// Number of leading whitespace characters.
pub open spec fn leading_space(s: Seq<char>) -> nat
    decreases s.len(),
{
    if s.len() > 0 && is_space(s[0]) {
        1 + leading_space(s.drop_first())
    } else {
        0
    }
}

/// Number of trailing whitespace characters.
pub open spec fn trailing_space(s: Seq<char>) -> nat
    decreases s.len(),
{
    if s.len() > 0 && is_space(s.last()) {
        1 + trailing_space(s.drop_last())
    } else {
        0
    }
}

/// `str::trim_start`.
pub open spec fn trim_start(s: Seq<char>) -> Seq<char> {
    s.skip(leading_space(s) as int)
}

/// `str::trim_end`.
pub open spec fn trim_end(s: Seq<char>) -> Seq<char> {
    s.take(s.len() - trailing_space(s))
}

/// `str::trim`.
pub open spec fn trim(s: Seq<char>) -> Seq<char> {
    trim_end(trim_start(s))
}

pub proof fn lemma_leading_space_bound(s: Seq<char>)
    ensures
        leading_space(s) <= s.len(),
        forall|j: int| 0 <= j < leading_space(s) ==> is_space(#[trigger] s[j]),
        leading_space(s) < s.len() ==> !is_space(s[leading_space(s) as int]),
    decreases s.len(),
{
    if s.len() > 0 && is_space(s[0]) {
        lemma_leading_space_bound(s.drop_first());
        assert forall|j: int| 0 <= j < leading_space(s) implies is_space(#[trigger] s[j]) by {
            if j > 0 {
                assert(s[j] == s.drop_first()[j - 1]);
            }
        }
        if leading_space(s) < s.len() {
            assert(s[leading_space(s) as int] == s.drop_first()[leading_space(s.drop_first()) as int]);
        }
    }
}

pub proof fn lemma_trailing_space_bound(s: Seq<char>)
    ensures
        trailing_space(s) <= s.len(),
        forall|j: int| s.len() - trailing_space(s) <= j < s.len() ==> is_space(#[trigger] s[j]),
        trailing_space(s) < s.len() ==> !is_space(s[s.len() - trailing_space(s) - 1]),
    decreases s.len(),
{
    if s.len() > 0 && is_space(s.last()) {
        lemma_trailing_space_bound(s.drop_last());
        assert forall|j: int| s.len() - trailing_space(s) <= j < s.len() implies is_space(
            #[trigger] s[j],
        ) by {
            if j < s.len() - 1 {
                assert(s[j] == s.drop_last()[j]);
            }
        }
        if trailing_space(s) < s.len() {
            assert(s[s.len() - trailing_space(s) - 1] == s.drop_last()[s.drop_last().len()
                - trailing_space(s.drop_last()) - 1]);
        }
    }
}

/// Index of the first non-whitespace character in `v[start..end]`, or `end`.
pub fn skip_space(v: &Vec<char>, start: usize, end: usize) -> (i: usize)
    requires
        start <= end <= v.len(),
    ensures
        i == start + leading_space(v@.subrange(start as int, end as int)),
        start <= i <= end,
{
    let ghost s = v@.subrange(start as int, end as int);
    let mut i = start;
    while i < end && char_is_space(v[i])
        invariant
            start <= i <= end <= v.len(),
            s == v@.subrange(start as int, end as int),
            leading_space(s) == (i - start) + leading_space(v@.subrange(i as int, end as int)),
        decreases end - i,
    {
        assert(v@.subrange(i as int, end as int).drop_first() =~= v@.subrange(i + 1, end as int));
        i = i + 1;
    }
    i
}

/// Index just past the last non-whitespace character in `v[start..end]`, or `start`.
pub fn back_space(v: &Vec<char>, start: usize, end: usize) -> (j: usize)
    requires
        start <= end <= v.len(),
    ensures
        j == end - trailing_space(v@.subrange(start as int, end as int)),
        start <= j <= end,
{
    let ghost s = v@.subrange(start as int, end as int);
    let mut j = end;
    while j > start && char_is_space(v[j - 1])
        invariant
            start <= j <= end <= v.len(),
            s == v@.subrange(start as int, end as int),
            trailing_space(s) == (end - j) + trailing_space(v@.subrange(start as int, j as int)),
        decreases j - start,
    {
        assert(v@.subrange(start as int, j as int).drop_last() =~= v@.subrange(
            start as int,
            j - 1,
        ));
        j = j - 1;
    }
    j
}

/// The bounds of `trim(v[start..end])` inside `v`.
pub fn trim_bounds(v: &Vec<char>, start: usize, end: usize) -> (r: (usize, usize))
    requires
        start <= end <= v.len(),
    ensures
        start <= r.0 <= r.1 <= end,
        v@.subrange(r.0 as int, r.1 as int) == trim(v@.subrange(start as int, end as int)),
{
    let a = skip_space(v, start, end);
    let b = back_space(v, a, end);
    let ghost s = v@.subrange(start as int, end as int);
    assert(trim_start(s) =~= v@.subrange(a as int, end as int));
    assert(trim_end(v@.subrange(a as int, end as int)) =~= v@.subrange(a as int, b as int));
    (a, b)
}

// ------------------------------------------------------------------ //
//  Prefix tests and substring search                                  //
// ------------------------------------------------------------------ //

pub open spec fn starts_with(s: Seq<char>, p: Seq<char>) -> bool {
    p.len() <= s.len() && s.take(p.len() as int) == p
}

pub open spec fn ends_with(s: Seq<char>, p: Seq<char>) -> bool {
    p.len() <= s.len() && s.skip(s.len() - p.len()) == p
}

pub open spec fn matches_at(s: Seq<char>, p: Seq<char>, i: int) -> bool {
    0 <= i && i + p.len() <= s.len() && s.subrange(i, i + p.len()) == p
}

/// The first index at or after `k` where `p` occurs in `s` (what
/// `str::find` returns when `k` is 0).
pub open spec fn find_from(s: Seq<char>, p: Seq<char>, k: int) -> Option<int>
    decreases s.len() + 1 - k,
{
    if k < 0 || k > s.len() || k + p.len() > s.len() {
        None
    } else if matches_at(s, p, k) {
        Some(k)
    } else {
        find_from(s, p, k + 1)
    }
}

pub open spec fn find(s: Seq<char>, p: Seq<char>) -> Option<int> {
    find_from(s, p, 0)
}

pub open spec fn contains(s: Seq<char>, p: Seq<char>) -> bool {
    find(s, p) is Some
}

pub proof fn lemma_find_from_facts(s: Seq<char>, p: Seq<char>, k: int)
    requires
        0 <= k,
    ensures
        match find_from(s, p, k) {
            Some(i) => k <= i && matches_at(s, p, i) && forall|j: int|
                k <= j < i ==> !matches_at(s, p, j),
            None => forall|j: int| k <= j ==> !matches_at(s, p, j),
        },
    decreases s.len() + 1 - k,
{
    if k > s.len() || k + p.len() > s.len() {
    } else if matches_at(s, p, k) {
    } else {
        lemma_find_from_facts(s, p, k + 1);
    }
}

/// `find_from` is the least matching index at or after `k`.
pub proof fn lemma_find_from_least(s: Seq<char>, p: Seq<char>, k: int, i: int)
    requires
        0 <= k <= i,
        matches_at(s, p, i),
        forall|j: int| k <= j < i ==> !matches_at(s, p, j),
    ensures
        find_from(s, p, k) == Some(i),
    decreases i - k,
{
    if k < i {
        lemma_find_from_least(s, p, k + 1, i);
    }
}

/// Whether `p` occurs in `v` at index `i`.
pub fn match_at(v: &Vec<char>, p: &Vec<char>, i: usize) -> (b: bool)
    requires
        i <= v.len(),
    ensures
        b == matches_at(v@, p@, i as int),
{
    if p.len() > v.len() - i {
        return false;
    }
    let mut j: usize = 0;
    while j < p.len()
        invariant
            i + p.len() <= v.len(),
            j <= p.len(),
            forall|t: int| 0 <= t < j ==> v@[i + t] == p@[t],
        decreases p.len() - j,
    {
        if v[i + j] != p[j] {
            assert(v@.subrange(i as int, i + p.len())[j as int] != p@[j as int]);
            return false;
        }
        j = j + 1;
    }
    assert(v@.subrange(i as int, i + p.len()) =~= p@);
    true
}

/// `str::find` from index `k`.
pub fn find_in(v: &Vec<char>, p: &Vec<char>, k: usize) -> (r: Option<usize>)
    requires
        k <= v.len(),
    ensures
        match r {
            Some(i) => find_from(v@, p@, k as int) == Some(i as int),
            None => find_from(v@, p@, k as int) is None,
        },
{
    let mut i = k;
    while i <= v.len()
        invariant
            k <= i <= v.len() + 1,
            find_from(v@, p@, k as int) == find_from(v@, p@, i as int),
        decreases v.len() + 1 - i,
    {
        if p.len() > v.len() - i {
            return None;
        }
        if match_at(v, p, i) {
            return Some(i);
        }
        if i == v.len() {
            assert(find_from(v@, p@, i + 1) is None);
            return None;
        }
        i = i + 1;
    }
    None
}

/// `s.starts_with(p)` for `s == v[start..]`.
pub fn starts_with_at(v: &Vec<char>, start: usize, p: &Vec<char>) -> (b: bool)
    requires
        start <= v.len(),
    ensures
        b == starts_with(v@.skip(start as int), p@),
{
    let b = match_at(v, p, start);
    proof {
        let s = v@.skip(start as int);
        if p@.len() <= s.len() {
            assert(s.take(p@.len() as int) =~= v@.subrange(start as int, start + p@.len()));
        }
    }
    b
}

/// Whether `v` contains `p`.
pub fn contains_in(v: &Vec<char>, p: &Vec<char>) -> (b: bool)
    ensures
        b == contains(v@, p@),
{
    find_in(v, p, 0).is_some()
}

// ------------------------------------------------------------------ //
//  Splitting                                                          //
// ------------------------------------------------------------------ //

/// `str::split` on one character: the pieces between occurrences of `c`.
pub open spec fn split_on(s: Seq<char>, c: char) -> Seq<Seq<char>>
    decreases s.len(),
{
    match find(s, seq![c]) {
        Some(i) => if 0 <= i < s.len() {
            seq![s.take(i)] + split_on(s.skip(i + 1), c)
        } else {
            seq![s]
        },
        None => seq![s],
    }
}

/// `str::lines`: lines ended by `\n` or `\r\n`; a final empty line is not a line.
pub open spec fn lines_of(s: Seq<char>) -> Seq<Seq<char>>
    decreases s.len(),
{
    if s.len() == 0 {
        Seq::empty()
    } else {
        match find(s, seq!['\n']) {
            Some(i) => if 0 <= i < s.len() {
                seq![strip_cr(s.take(i))] + lines_of(s.skip(i + 1))
            } else {
                seq![s]
            },
            None => seq![s],
        }
    }
}

pub open spec fn strip_cr(s: Seq<char>) -> Seq<char> {
    if s.len() > 0 && s.last() == '\r' {
        s.drop_last()
    } else {
        s
    }
}


/// Length of the longest prefix of `s` free of whitespace.
pub open spec fn word_len(s: Seq<char>) -> nat
    decreases s.len(),
{
    if s.len() > 0 && !is_space(s[0]) {
        1 + word_len(s.drop_first())
    } else {
        0
    }
}

pub proof fn lemma_word_len_bound(s: Seq<char>)
    ensures
        word_len(s) <= s.len(),
        s.len() > 0 && !is_space(s[0]) ==> word_len(s) >= 1,
    decreases s.len(),
{
    if s.len() > 0 && !is_space(s[0]) {
        lemma_word_len_bound(s.drop_first());
    }
}

/// `str::split_whitespace`: the maximal runs of non-whitespace characters.
pub open spec fn words(s: Seq<char>) -> Seq<Seq<char>>
    decreases s.len(),
{
    if s.len() == 0 {
        Seq::empty()
    } else if is_space(s[0]) {
        words(s.drop_first())
    } else {
        proof {
            lemma_word_len_bound(s);
        }
        seq![s.take(word_len(s) as int)] + words(s.skip(word_len(s) as int))
    }
}

/// The whitespace-separated words of `v`.
pub fn words_in(v: &Vec<char>) -> (r: Vec<Vec<char>>)
    ensures
        r@.len() == words(v@).len(),
        forall|i: int| 0 <= i < r@.len() ==> #[trigger] r@[i]@ == words(v@)[i],
{
    let mut out: Vec<Vec<char>> = Vec::new();
    let mut i: usize = 0;
    let ghost mut done: Seq<Seq<char>> = Seq::empty();
    assert(v@.skip(0) =~= v@);
    assert(done + words(v@) =~= words(v@));
    while i < v.len()
        invariant
            i <= v@.len(),
            out@.len() == done.len(),
            forall|t: int| 0 <= t < out@.len() ==> #[trigger] out@[t]@ == done[t],
            words(v@) == done + words(v@.skip(i as int)),
        decreases v@.len() - i,
    {
        if char_is_space(v[i]) {
            assert(v@.skip(i as int).drop_first() =~= v@.skip(i + 1));
            i = i + 1;
        } else {
            let mut e = i;
            while e < v.len() && !char_is_space(v[e])
                invariant
                    i <= e <= v@.len(),
                    word_len(v@.skip(i as int)) == (e - i) + word_len(v@.skip(e as int)),
                decreases v@.len() - e,
            {
                assert(v@.skip(e as int).drop_first() =~= v@.skip(e + 1));
                e = e + 1;
            }
            let w = slice_of(v, i, e);
            proof {
                let rest = v@.skip(i as int);
                assert(word_len(v@.skip(e as int)) == 0);
                assert(w@ =~= rest.take(word_len(rest) as int));
                assert(rest.skip(word_len(rest) as int) =~= v@.skip(e as int));
                done = done.push(w@);
                assert(words(v@) =~= done + words(v@.skip(e as int)));
            }
            out.push(w);
            i = e;
        }
    }
    assert(words(v@.skip(i as int)) =~= Seq::<Seq<char>>::empty());
    assert(words(v@) =~= done);
    out
}

/// `str::trim_start_matches` with a non-empty pattern: every leading copy
/// of `p` removed.
pub open spec fn strip_prefixes(s: Seq<char>, p: Seq<char>) -> Seq<char>
    decreases s.len(),
{
    if p.len() > 0 && starts_with(s, p) {
        strip_prefixes(s.skip(p.len() as int), p)
    } else {
        s
    }
}

/// Index in `v` after every leading copy of `p` at `v[start..]`.
pub fn strip_prefixes_at(v: &Vec<char>, start: usize, p: &Vec<char>) -> (r: usize)
    requires
        start <= v.len(),
        p@.len() > 0,
    ensures
        start <= r <= v@.len(),
        v@.skip(r as int) == strip_prefixes(v@.skip(start as int), p@),
{
    let mut i = start;
    while starts_with_at(v, i, p)
        invariant
            start <= i <= v@.len(),
            p@.len() > 0,
            strip_prefixes(v@.skip(start as int), p@) == strip_prefixes(v@.skip(i as int), p@),
        decreases v@.len() - i,
    {
        assert(v@.skip(i as int).skip(p@.len() as int) =~= v@.skip(i + p@.len()));
        let vl = v.len();
        assert(i + p@.len() <= vl);
        i = i + p.len();
    }
    i
}

proof fn lemma_find_bound(s: Seq<char>, p: Seq<char>)
    ensures
        match find(s, p) {
            Some(i) => 0 <= i && i + p.len() <= s.len() && matches_at(s, p, i),
            None => true,
        },
{
    lemma_find_from_facts(s, p, 0);
}

/// The pieces of `v` between occurrences of `c`.
pub fn split_char(v: &Vec<char>, c: char) -> (r: Vec<Vec<char>>)
    ensures
        r@.len() == split_on(v@, c).len(),
        forall|i: int| 0 <= i < r@.len() ==> #[trigger] r@[i]@ == split_on(v@, c)[i],
{
    let sep = vec![c];
    let mut out: Vec<Vec<char>> = Vec::new();
    let mut start: usize = 0;
    let ghost mut done: Seq<Seq<char>> = Seq::empty();
    assert(v@.skip(0) =~= v@);
    assert(done + split_on(v@, c) =~= split_on(v@, c));
    loop
        invariant
            start <= v.len(),
            sep@ == seq![c],
            out@.len() == done.len(),
            forall|i: int| 0 <= i < out@.len() ==> #[trigger] out@[i]@ == done[i],
            split_on(v@, c) == done + split_on(v@.skip(start as int), c),
        decreases v.len() - start,
    {
        let rest = slice_of(v, start, v.len());
        assert(rest@ =~= v@.skip(start as int));
        proof {
            lemma_find_bound(rest@, seq![c]);
        }
        match find_in(&rest, &sep, 0) {
            None => {
                let ghost before = done;
                out.push(rest);
                proof {
                    done = done.push(rest@);
                    assert(split_on(rest@, c) == seq![rest@]);
                    assert(split_on(v@, c) =~= done);
                }
                return out;
            },
            Some(i) => {
                let piece = slice_of(&rest, 0, i);
                proof {
                    assert(piece@ =~= rest@.take(i as int));
                    assert(rest@.skip(i + 1) =~= v@.skip(start + i + 1));
                    assert(split_on(rest@, c) == seq![rest@.take(i as int)] + split_on(
                        rest@.skip(i + 1),
                        c,
                    ));
                    done = done.push(piece@);
                    assert(split_on(v@, c) =~= done + split_on(v@.skip(start + i + 1), c));
                }
                out.push(piece);
                start = start + i + 1;
            },
        }
    }
}

/// The lines of `v`, as `str::lines` yields them.
pub fn lines_in(v: &Vec<char>) -> (r: Vec<Vec<char>>)
    ensures
        r@.len() == lines_of(v@).len(),
        forall|i: int| 0 <= i < r@.len() ==> #[trigger] r@[i]@ == lines_of(v@)[i],
{
    let sep = vec!['\n'];
    let mut out: Vec<Vec<char>> = Vec::new();
    let mut start: usize = 0;
    let ghost mut done: Seq<Seq<char>> = Seq::empty();
    assert(v@.skip(0) =~= v@);
    assert(done + lines_of(v@) =~= lines_of(v@));
    loop
        invariant
            start <= v.len(),
            sep@ == seq!['\n'],
            out@.len() == done.len(),
            forall|i: int| 0 <= i < out@.len() ==> #[trigger] out@[i]@ == done[i],
            lines_of(v@) == done + lines_of(v@.skip(start as int)),
        decreases v.len() - start,
    {
        let rest = slice_of(v, start, v.len());
        assert(rest@ =~= v@.skip(start as int));
        if rest.len() == 0 {
            assert(lines_of(rest@) =~= Seq::<Seq<char>>::empty());
            assert(lines_of(v@) =~= done);
            return out;
        }
        proof {
            lemma_find_bound(rest@, seq!['\n']);
        }
        match find_in(&rest, &sep, 0) {
            None => {
                out.push(rest);
                proof {
                    done = done.push(rest@);
                    assert(lines_of(v@) =~= done);
                }
                return out;
            },
            Some(i) => {
                let mut e = i;
                if e > 0 && rest[e - 1] == '\r' {
                    e = e - 1;
                }
                let piece = slice_of(&rest, 0, e);
                proof {
                    assert(piece@ =~= strip_cr(rest@.take(i as int)));
                    assert(rest@.skip(i + 1) =~= v@.skip(start + i + 1));
                    done = done.push(piece@);
                    assert(lines_of(v@) =~= done + lines_of(v@.skip(start + i + 1)));
                }
                out.push(piece);
                start = start + i + 1;
            },
        }
    }
}

} // verus!
