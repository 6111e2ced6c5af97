//! Reading back a stored configuration gives the configuration that was
//! stored.
//!
//! The proof follows the reader: each key is found at its own member
//! (no earlier text can look like `"<key>":` since keys are distinct and
//! string values hold no quote), and each value reads back as written.
use vstd::prelude::*;
use crate::config::{
    bool_text, config_entries, config_from_json, config_json, config_keys, config_values, entry,
    int_texts, json_array_spec, json_bool_spec, json_int_spec, json_micro_spec, json_str_spec, key_needle,
    micro_text, num_span, parse_core_list, parse_micro, pow10, quoted, six_digits, strip_zeros, value_after,
    micro_value, ConfigView,
};
use crate::service::pid_in_file;
use crate::text::{
    all_digits, digit_char, digit_value, digits_value, find, find_from, int_text, is_digit, is_space,
    join, lemma_find_from_facts, lemma_find_from_least, leading_space, matches_at, nat_text, parse_i32_spec,
    parse_i64_spec, split_on, starts_with, trailing_space, trim, trim_start,
};

verus! {

// ------------------------------------------------------------------ //
//  Finding text                                                       //
// ------------------------------------------------------------------ //

proof fn lemma_match_char(s: Seq<char>, p: Seq<char>, q: int, t: int)
    requires
        matches_at(s, p, q),
        0 <= t < p.len(),
    ensures
        s[q + t] == p[t],
{
    assert(s.subrange(q, q + p.len())[t] == s[q + t]);
}

/// A match of `p` at `j` in `y` is a match at `|x| + j` in `x + y`.
proof fn lemma_match_shift(x: Seq<char>, y: Seq<char>, p: Seq<char>, j: int)
    requires
        0 <= j,
    ensures
        matches_at(x + y, p, x.len() + j) == matches_at(y, p, j),
{
    if j + p.len() <= y.len() {
        assert((x + y).subrange(x.len() + j, x.len() + j + p.len()) =~= y.subrange(j, j + p.len()));
    }
}

/// The first match in `x` is still the first once text is appended.
proof fn lemma_find_extend(x: Seq<char>, y: Seq<char>, p: Seq<char>)
    requires
        find(x, p) is Some,
    ensures
        find(x + y, p) == find(x, p),
{
    lemma_find_from_facts(x, p, 0);
    let i = find(x, p)->0;
    assert((x + y).subrange(i, i + p.len()) =~= x.subrange(i, i + p.len()));
    assert(matches_at(x, p, i));
    assert forall|j: int| 0 <= j < i implies !matches_at(x + y, p, j) by {
        assert(!matches_at(x, p, j));
        if matches_at(x + y, p, j) {
            assert(j + p.len() <= x.len());
            assert((x + y).subrange(j, j + p.len()) =~= x.subrange(j, j + p.len()));
        }
    }
    lemma_find_from_least(x + y, p, 0, i);
}

/// A character absent from `x` is first found just after it.
proof fn lemma_find_char(x: Seq<char>, c: char, y: Seq<char>)
    requires
        forall|i: int| 0 <= i < x.len() ==> x[i] != c,
    ensures
        find(x + seq![c] + y, seq![c]) == Some(x.len() as int),
{
    let s = x + seq![c] + y;
    assert(s.subrange(x.len() as int, x.len() + 1 as int) =~= seq![c]);
    assert forall|j: int| 0 <= j < x.len() implies !matches_at(s, seq![c], j) by {
        if matches_at(s, seq![c], j) {
            lemma_match_char(s, seq![c], j, 0);
        }
    }
    lemma_find_from_least(s, seq![c], 0, x.len() as int);
}

/// A character absent from `x` is not found in it.
proof fn lemma_no_char(x: Seq<char>, c: char)
    requires
        forall|i: int| 0 <= i < x.len() ==> x[i] != c,
    ensures
        find(x, seq![c]) is None,
{
    lemma_find_from_facts(x, seq![c], 0);
    if find(x, seq![c]) is Some {
        lemma_match_char(x, seq![c], find(x, seq![c])->0, 0);
    }
}

// ------------------------------------------------------------------ //
//  Objects of members                                                 //
// ------------------------------------------------------------------ //

pub open spec fn quote_free(s: Seq<char>) -> bool {
    forall|i: int| 0 <= i < s.len() ==> s[i] != '"'
}

pub open spec fn key_char(c: char) -> bool {
    ('a' <= c && c <= 'z') || c == '_'
}

/// Keys are made of lower-case letters and `_`.
pub open spec fn good_key(k: Seq<char>) -> bool {
    k.len() > 0 && forall|i: int| 0 <= i < k.len() ==> key_char(#[trigger] k[i])
}

/// A JSON string whose text holds no quote.
pub open spec fn string_value(v: Seq<char>) -> bool {
    &&& v.len() >= 2
    &&& v[0] == '"'
    &&& v[v.len() - 1] == '"'
    &&& forall|i: int| 1 <= i < v.len() - 1 ==> v[i] != '"'
}

/// A value as written: it starts with no whitespace, and holds no quote
/// unless it is a string.
pub open spec fn good_value(v: Seq<char>) -> bool {
    &&& v.len() > 0
    &&& !is_space(v[0])
    &&& (quote_free(v) || string_value(v))
}

pub open spec fn members(ks: Seq<Seq<char>>, vs: Seq<Seq<char>>) -> Seq<Seq<char>> {
    Seq::new(ks.len(), |i: int| entry(ks[i], vs[i]))
}

pub open spec fn member_sep() -> Seq<char> {
    seq![',', '\n']
}

pub open spec fn object(ks: Seq<Seq<char>>, vs: Seq<Seq<char>>) -> Seq<char> {
    seq!['{', '\n'] + join(members(ks, vs), member_sep()) + seq!['\n', '}']
}

pub open spec fn good_members(ks: Seq<Seq<char>>, vs: Seq<Seq<char>>) -> bool {
    &&& ks.len() == vs.len()
    &&& forall|i: int| 0 <= i < ks.len() ==> good_key(#[trigger] ks[i])
    &&& forall|i: int| 0 <= i < vs.len() ==> good_value(#[trigger] vs[i])
    &&& forall|i: int, j: int| 0 <= i < j < ks.len() ==> #[trigger] ks[i] != #[trigger] ks[j]
}

/// What follows the value of member `i` in the object.
pub open spec fn tail_after(ks: Seq<Seq<char>>, vs: Seq<Seq<char>>, i: int) -> Seq<char> {
    (if i + 1 < ks.len() {
        member_sep() + join(members(ks, vs).skip(i + 1), member_sep())
    } else {
        Seq::empty()
    }) + seq!['\n', '}']
}

proof fn lemma_entry_chars(k: Seq<char>, v: Seq<char>, z: Seq<char>)
    ensures
        (entry(k, v) + z).len() == k.len() + v.len() + z.len() + 4,
        (entry(k, v) + z)[0] == '"',
        forall|t: int| 0 <= t < k.len() ==> (entry(k, v) + z)[1 + t] == #[trigger] k[t],
        (entry(k, v) + z)[1 + k.len() as int] == '"',
        (entry(k, v) + z)[2 + k.len() as int] == ':',
        (entry(k, v) + z)[3 + k.len() as int] == ' ',
        forall|t: int| 0 <= t < v.len() ==> (entry(k, v) + z)[4 + k.len() + t] == #[trigger] v[t],
        forall|t: int| 0 <= t < z.len() ==> (entry(k, v) + z)[4 + k.len() + v.len() + t] == #[trigger] z[t],
{
}

proof fn lemma_needle_chars(k: Seq<char>)
    ensures
        key_needle(k).len() == k.len() + 3,
        key_needle(k)[0] == '"',
        forall|t: int| 0 <= t < k.len() ==> key_needle(k)[1 + t] == #[trigger] k[t],
        key_needle(k)[1 + k.len() as int] == '"',
        key_needle(k)[2 + k.len() as int] == ':',
{
}

/// No `"<k>":` starts inside a member with another key, whatever follows
/// the member (a separator or the end of the object).
proof fn lemma_member_no_match(k0: Seq<char>, v0: Seq<char>, k: Seq<char>, z: Seq<char>, q: int)
    requires
        good_key(k0),
        good_key(k),
        k0 != k,
        good_value(v0),
        z.len() > 0,
        z[0] == ',' || z[0] == '\n',
        0 <= q < entry(k0, v0).len(),
    ensures
        !matches_at(entry(k0, v0) + z, key_needle(k), q),
{
    let s = entry(k0, v0) + z;
    let n = key_needle(k);
    lemma_entry_chars(k0, v0, z);
    lemma_needle_chars(k);
    if matches_at(s, n, q) {
        lemma_match_char(s, n, q, 0);
        let a = k0.len() as int;
        let b = k.len() as int;
        if q == 0 {
            if a == b {
                assert forall|t: int| 0 <= t < a implies k0[t] == k[t] by {
                    lemma_match_char(s, n, 0, 1 + t);
                }
                assert(k0 =~= k);
            } else if a < b {
                lemma_match_char(s, n, 0, 1 + a);
                assert(key_char(k[a]));
            } else {
                lemma_match_char(s, n, 0, 1 + b);
                assert(key_char(k0[b]));
            }
        } else if q < 1 + a {
            assert(s[q] == k0[q - 1]);
            assert(key_char(k0[q - 1]));
        } else if q == 1 + a {
            lemma_match_char(s, n, q, 1);
            assert(key_char(k[0]));
        } else if q < 4 + a {
        } else {
            let p = q - (4 + a);
            assert(s[q] == v0[p]);
            if !quote_free(v0) {
                let m = v0.len() as int;
                if p == 0 {
                    let sl = m - 2;
                    let inner = v0.subrange(1, m - 1);
                    assert forall|t: int| 0 <= t < sl implies s[q + 1 + t] == #[trigger] inner[t] by {
                        assert(s[4 + a + (1 + t)] == v0[1 + t]);
                    }
                    assert(s[q + 1 + sl] == v0[m - 1]);
                    if sl == b {
                        if exists|t: int| 0 <= t < sl && #[trigger] inner[t] != k[t] {
                            let t = choose|t: int| 0 <= t < sl && #[trigger] inner[t] != k[t];
                            lemma_match_char(s, n, q, 1 + t);
                        } else {
                            lemma_match_char(s, n, q, 2 + b);
                            assert(s[q + 2 + sl] == z[0]);
                        }
                    } else if sl < b {
                        lemma_match_char(s, n, q, 1 + sl);
                        assert(key_char(k[sl]));
                    } else {
                        lemma_match_char(s, n, q, 1 + b);
                        assert(inner[b] == v0[1 + b]);
                    }
                } else if p == m - 1 {
                    lemma_match_char(s, n, q, 1);
                    assert(s[q + 1] == z[0]);
                    assert(key_char(k[0]));
                }
            }
        }
    }
}

/// No `"<k>":` starts inside the first `n` members when none has key `k`.
proof fn lemma_members_no_match(
    ks: Seq<Seq<char>>,
    vs: Seq<Seq<char>>,
    n: int,
    k: Seq<char>,
    z: Seq<char>,
    q: int,
)
    requires
        good_members(ks, vs),
        0 <= n <= ks.len(),
        good_key(k),
        forall|j: int| 0 <= j < n ==> ks[j] != k,
        z.len() > 0,
        z[0] == ',' || z[0] == '\n',
        0 <= q < join(members(ks, vs).take(n), member_sep()).len(),
    ensures
        !matches_at(join(members(ks, vs).take(n), member_sep()) + z, key_needle(k), q),
    decreases n,
{
    let e = members(ks, vs).take(n);
    if n == 1 {
        assert(join(e, member_sep()) == e[0]);
        lemma_member_no_match(ks[0], vs[0], k, z, q);
    } else if n > 1 {
        let e1 = members(ks, vs).take(n - 1);
        assert(e.drop_last() =~= e1);
        let j1 = join(e1, member_sep());
        let last = entry(ks[n - 1], vs[n - 1]);
        assert(join(e, member_sep()) == j1 + member_sep() + last);
        let s = join(e, member_sep()) + z;
        let n_k = key_needle(k);
        if q < j1.len() {
            let z2 = member_sep() + last + z;
            assert(s =~= j1 + z2);
            lemma_members_no_match(ks, vs, n - 1, k, z2, q);
        } else if q < j1.len() + 2 {
            if matches_at(s, n_k, q) {
                lemma_match_char(s, n_k, q, 0);
                lemma_needle_chars(k);
                assert(s[q] == member_sep()[q - j1.len()]);
            }
        } else {
            let x = j1 + member_sep();
            assert(s =~= x + (last + z));
            lemma_member_no_match(ks[n - 1], vs[n - 1], k, z, q - x.len());
            lemma_match_shift(x, last + z, n_k, q - x.len());
        }
    }
}

/// Joining splits at any inner boundary.
proof fn lemma_join_split(e: Seq<Seq<char>>, sp: Seq<char>, m: int)
    requires
        0 < m < e.len(),
    ensures
        join(e, sp) == join(e.take(m), sp) + sp + join(e.skip(m), sp),
    decreases e.len(),
{
    let tail = e.skip(m);
    if m == e.len() - 1 {
        assert(e.take(m) =~= e.drop_last());
        assert(tail.len() == 1);
        assert(tail[0] == e.last());
    } else {
        lemma_join_split(e.drop_last(), sp, m);
        assert(e.drop_last().take(m) =~= e.take(m));
        assert(tail.drop_last() =~= e.drop_last().skip(m));
        assert(tail.last() == e.last());
        assert(join(e, sp) == join(e.drop_last(), sp) + sp + e.last());
        assert(join(tail, sp) == join(tail.drop_last(), sp) + sp + tail.last());
        assert(join(e, sp) =~= join(e.take(m), sp) + sp + join(tail, sp));
    }
}

proof fn lemma_trim_start_space(t: Seq<char>)
    requires
        t.len() > 0,
        !is_space(t[0]),
    ensures
        trim_start(seq![' '] + t) == t,
{
    let s = seq![' '] + t;
    assert(s.drop_first() =~= t);
    assert(leading_space(t) == 0);
    assert(leading_space(s) == 1);
    assert(s.skip(1) =~= t);
}

/// The text of the object before member `i`.
pub open spec fn before_member(ks: Seq<Seq<char>>, vs: Seq<Seq<char>>, i: int) -> Seq<char> {
    seq!['{', '\n'] + if i > 0 {
        join(members(ks, vs).take(i), member_sep()) + member_sep()
    } else {
        Seq::<char>::empty()
    }
}

/// The object is the text before member `i`, its key, and the rest.
proof fn lemma_object_layout(ks: Seq<Seq<char>>, vs: Seq<Seq<char>>, i: int)
    requires
        ks.len() == vs.len(),
        0 <= i < ks.len(),
    ensures
        object(ks, vs) == before_member(ks, vs, i) + key_needle(ks[i]) + (seq![' '] + vs[i] + tail_after(
            ks,
            vs,
            i,
        )),
{
    let e = members(ks, vs);
    let sp = member_sep();
    let n = ks.len() as int;
    let ei = entry(ks[i], vs[i]);
    let after = if i + 1 < n {
        sp + join(e.skip(i + 1), sp)
    } else {
        Seq::<char>::empty()
    };
    assert(join(e.skip(i), sp) == ei + after) by {
        if i + 1 < n {
            lemma_join_split(e.skip(i), sp, 1);
            assert(e.skip(i).take(1) =~= seq![ei]);
            assert(e.skip(i).skip(1) =~= e.skip(i + 1));
        } else {
            assert(e.skip(i) =~= seq![ei]);
            assert(ei + after =~= ei);
        }
    }
    let head = if i > 0 {
        join(e.take(i), sp) + sp
    } else {
        Seq::<char>::empty()
    };
    assert(join(e, sp) == head + ei + after) by {
        if i > 0 {
            lemma_join_split(e, sp, i);
            assert(join(e, sp) =~= head + join(e.skip(i), sp));
        } else {
            assert(e.skip(0) =~= e);
            assert(head + ei + after =~= ei + after);
        }
    }
    assert(ei =~= key_needle(ks[i]) + seq![' '] + vs[i]);
    assert(object(ks, vs) =~= before_member(ks, vs, i) + key_needle(ks[i]) + (seq![' '] + vs[i]
        + tail_after(ks, vs, i)));
}

/// No `"<key>":` of member `i` occurs before member `i`.
#[verifier::rlimit(60)]
proof fn lemma_no_match_before(ks: Seq<Seq<char>>, vs: Seq<Seq<char>>, i: int, q: int)
    requires
        good_members(ks, vs),
        0 <= i < ks.len(),
        0 <= q < before_member(ks, vs, i).len(),
    ensures
        !matches_at(object(ks, vs), key_needle(ks[i]), q),
{
    let k = ks[i];
    let nd = key_needle(k);
    let sp = member_sep();
    let pre = before_member(ks, vs, i);
    let rest = seq![' '] + vs[i] + tail_after(ks, vs, i);
    let s = pre + nd + rest;
    lemma_object_layout(ks, vs, i);
    lemma_needle_chars(k);
    if matches_at(s, nd, q) {
        lemma_match_char(s, nd, q, 0);
        assert(s[q] == pre[q]);
        if i > 0 && q >= 2 {
            let jn = join(members(ks, vs).take(i), sp);
            let z = sp + (nd + rest);
            assert(pre =~= seq!['{', '\n'] + jn + sp);
            if q < 2 + jn.len() {
                assert(s =~= seq!['{', '\n'] + (jn + z));
                assert forall|j: int| 0 <= j < i implies ks[j] != k by {
                    assert(ks[j] != ks[i]);
                }
                lemma_members_no_match(ks, vs, i, k, z, q - 2);
                lemma_match_shift(seq!['{', '\n'], jn + z, nd, q - 2);
            } else {
                assert(pre[q] == sp[q - 2 - jn.len()]);
            }
        }
    }
}

/// In an object of distinct keys, the value read for member `i`'s key is
/// that member's value, followed by the rest of the object.
proof fn lemma_value_at(ks: Seq<Seq<char>>, vs: Seq<Seq<char>>, i: int)
    requires
        good_members(ks, vs),
        0 <= i < ks.len(),
    ensures
        value_after(object(ks, vs), ks[i]) == Some(vs[i] + tail_after(ks, vs, i)),
{
    let nd = key_needle(ks[i]);
    let s = object(ks, vs);
    let pre = before_member(ks, vs, i);
    let t = vs[i] + tail_after(ks, vs, i);
    lemma_object_layout(ks, vs, i);
    assert(s.subrange(pre.len() as int, pre.len() + nd.len() as int) =~= nd);
    assert forall|q: int| 0 <= q < pre.len() implies !matches_at(s, nd, q) by {
        lemma_no_match_before(ks, vs, i, q);
    }
    lemma_find_from_least(s, nd, 0, pre.len() as int);
    assert(s.skip(pre.len() + nd.len() as int) =~= seq![' '] + t);
    assert(good_value(vs[i]));
    lemma_trim_start_space(t);
}

// ------------------------------------------------------------------ //
//  Numbers read back                                                  //
// ------------------------------------------------------------------ //

proof fn lemma_digit(d: nat)
    requires
        d < 10,
    ensures
        is_digit(digit_char(d)),
        digit_value(digit_char(d)) == d,
{
}

/// The decimal text of `n` is a nonempty run of digits worth `n`.
pub(crate) proof fn lemma_nat_text(n: nat)
    ensures
        nat_text(n).len() > 0,
        all_digits(nat_text(n)),
        digits_value(nat_text(n)) == n,
    decreases n,
{
    if n < 10 {
        lemma_digit(n);
        assert(nat_text(n).drop_last() =~= Seq::<char>::empty());
        assert(digits_value(Seq::<char>::empty()) == 0);
        assert(digits_value(nat_text(n)) == digits_value(nat_text(n).drop_last()) * 10 + digit_value(
            nat_text(n).last(),
        ));
    } else {
        lemma_nat_text(n / 10);
        lemma_digit(n % 10);
        let s = nat_text(n);
        assert(s.drop_last() =~= nat_text(n / 10));
        assert(s.last() == digit_char(n % 10));
        assert(digits_value(s) == digits_value(s.drop_last()) * 10 + digit_value(s.last()));
        assert((n / 10) * 10 + n % 10 == n);
        assert forall|i: int| 0 <= i < s.len() implies is_digit(#[trigger] s[i]) by {
            if i < s.len() - 1 {
                assert(s[i] == nat_text(n / 10)[i]);
            }
        }
    }
}

pub open spec fn num_char(c: char, dot: bool) -> bool {
    is_digit(c) || c == '-' || (dot && c == '.')
}

/// The run of number characters of `a + t` is `a` when `t` starts with
/// another character.
proof fn lemma_num_span(a: Seq<char>, t: Seq<char>, dot: bool)
    requires
        forall|i: int| 0 <= i < a.len() ==> num_char(#[trigger] a[i], dot),
        t.len() > 0,
        !num_char(t[0], dot),
    ensures
        num_span(a + t, dot) == a.len(),
    decreases a.len(),
{
    if a.len() > 0 {
        assert((a + t).drop_first() =~= a.drop_first() + t);
        lemma_num_span(a.drop_first(), t, dot);
    } else {
        assert(a + t =~= t);
    }
}

/// Trimming leaves text without whitespace as it is.
proof fn lemma_trim_unchanged(a: Seq<char>)
    requires
        forall|i: int| 0 <= i < a.len() ==> !is_space(#[trigger] a[i]),
    ensures
        trim(a) == a,
{
    if a.len() > 0 {
        assert(!is_space(a[0]));
        assert(leading_space(a) == 0);
        assert(a.skip(0) =~= a);
        assert(!is_space(a.last()));
        assert(trailing_space(a) == 0);
        assert(a.take(a.len() as int) =~= a);
    } else {
        assert(a.skip(0) =~= a);
        assert(a.take(0) =~= a);
    }
}

/// The characters of an integer's text: digits after an optional `-`.
proof fn lemma_int_text_chars(x: int)
    ensures
        int_text(x).len() > 0,
        forall|i: int| 0 <= i < int_text(x).len() ==> num_char(#[trigger] int_text(x)[i], false),
        forall|i: int| 0 <= i < int_text(x).len() ==> !is_space(#[trigger] int_text(x)[i]),
        forall|i: int| 0 <= i < int_text(x).len() ==> (#[trigger] int_text(x)[i]) != '"',
        forall|i: int| 0 <= i < int_text(x).len() ==> (#[trigger] int_text(x)[i]) != ',',
        forall|i: int| 0 <= i < int_text(x).len() ==> (#[trigger] int_text(x)[i]) != ']',
{
    let m: nat = if x < 0 {
        (-x) as nat
    } else {
        x as nat
    };
    lemma_nat_text(m);
    let s = int_text(x);
    assert forall|i: int| 0 <= i < s.len() implies is_digit(#[trigger] s[i]) || s[i] == '-' by {
        if x < 0 && i > 0 {
            assert(s[i] == nat_text(m)[i - 1]);
        }
    }
}

/// An integer's text parses back to the integer.
proof fn lemma_parse_int_text(x: int)
    ensures
        i64::MIN <= x <= i64::MAX ==> parse_i64_spec(int_text(x)) == Some(x as i64),
        i32::MIN <= x <= i32::MAX ==> parse_i32_spec(int_text(x)) == Some(x as i32),
{
    if x < 0 {
        let m = (-x) as nat;
        lemma_nat_text(m);
        assert(int_text(x).drop_first() =~= nat_text(m));
    } else {
        lemma_nat_text(x as nat);
        assert(is_digit(nat_text(x as nat)[0]));
    }
}

/// An integer member reads back as written.
proof fn lemma_read_int(x: int, t: Seq<char>)
    requires
        i64::MIN <= x <= i64::MAX,
        t.len() > 0,
        t[0] == ',' || t[0] == '\n',
    ensures
        parse_i64_spec(trim((int_text(x) + t).take(num_span(int_text(x) + t, false) as int))) == Some(
            x as i64,
        ),
{
    lemma_int_text_chars(x);
    lemma_num_span(int_text(x), t, false);
    assert((int_text(x) + t).take(int_text(x).len() as int) =~= int_text(x));
    lemma_trim_unchanged(int_text(x));
    lemma_parse_int_text(x);
}

/// A boolean member reads back as written.
proof fn lemma_read_bool(b: bool, t: Seq<char>)
    ensures
        starts_with(bool_text(b) + t, "true"@) == b,
        !b ==> starts_with(bool_text(b) + t, "false"@),
{
    reveal_strlit("true");
    reveal_strlit("false");
    if b {
        assert((bool_text(b) + t).take(4) =~= "true"@);
    } else {
        assert((bool_text(b) + t)[0] == 'f');
        assert((bool_text(b) + t).take(5) =~= "false"@);
    }
}

/// A string member reads back as written when it holds no quote.
proof fn lemma_read_str(v: Seq<char>, t: Seq<char>)
    requires
        quote_free(v),
    ensures
        (quoted(v) + t)[0] == '"',
        find((quoted(v) + t).drop_first(), seq!['"']) == Some(v.len() as int),
        (quoted(v) + t).drop_first().take(v.len() as int) == v,
{
    assert((quoted(v) + t).drop_first() =~= v + seq!['"'] + t);
    lemma_find_char(v, '"', t);
    assert((v + seq!['"'] + t).take(v.len() as int) =~= v);
}

proof fn lemma_pow10_values()
    ensures
        pow10(0) == 1,
        pow10(1) == 10,
        pow10(2) == 100,
        pow10(3) == 1000,
        pow10(4) == 10000,
        pow10(5) == 100000,
        pow10(6) == 1000000,
{
    reveal_with_fuel(pow10, 7);
}

/// The first `m` of the six decimals of `f` are worth `f` without its
/// last `6 - m` digits.
proof fn lemma_six_digits_prefix(f: nat, m: int)
    requires
        f < 1_000_000,
        0 <= m <= 6,
    ensures
        all_digits(six_digits(f)),
        six_digits(f).len() == 6,
        digits_value(six_digits(f).take(m)) == f / pow10((6 - m) as nat),
    decreases m,
{
    lemma_pow10_values();
    let s = six_digits(f);
    assert forall|i: int| 0 <= i < 6 implies is_digit(#[trigger] s[i]) by {
        lemma_digit((f / pow10((5 - i) as nat)) % 10);
    }
    if m == 0 {
        assert(s.take(0) =~= Seq::<char>::empty());
        assert(digits_value(s.take(0)) == 0);
        assert(f / pow10(6) == 0);
    } else {
        lemma_six_digits_prefix(f, m - 1);
        let y = f / pow10((6 - m) as nat);
        assert(s.take(m).drop_last() =~= s.take(m - 1));
        lemma_digit(y % 10);
        assert((5 - (m - 1)) as nat == (6 - m) as nat);
        assert(s[m - 1] == digit_char(y % 10));
        assert(s.take(m).last() == digit_char(y % 10));
        assert(digits_value(s.take(m)) == digits_value(s.take(m - 1)) * 10 + digit_value(s.take(m).last()));
        assert(pow10((7 - m) as nat) == pow10((6 - m) as nat) * 10);
        vstd::arithmetic::div_mod::lemma_div_denominator(f as int, pow10((6 - m) as nat) as int, 10);
        assert(f / pow10((7 - m) as nat) == y / 10);
        vstd::arithmetic::div_mod::lemma_fundamental_div_mod(y as int, 10);
    }
}

/// Dropping trailing zeros keeps a prefix, worth the whole divided by the
/// power of ten of the zeros dropped.
proof fn lemma_strip_zeros(s: Seq<char>)
    requires
        all_digits(s),
    ensures
        strip_zeros(s).len() <= s.len(),
        strip_zeros(s) == s.take(strip_zeros(s).len() as int),
        digits_value(strip_zeros(s)) * pow10((s.len() - strip_zeros(s).len()) as nat) == digits_value(s),
    decreases s.len(),
{
    lemma_pow10_values();
    if s.len() > 0 && s.last() == '0' {
        let t = s.drop_last();
        assert(all_digits(t));
        lemma_strip_zeros(t);
        assert(strip_zeros(s) == strip_zeros(t));
        assert(digit_value('0') == 0);
        assert(t.take(strip_zeros(t).len() as int) =~= s.take(strip_zeros(t).len() as int));
        let z = (t.len() - strip_zeros(t).len()) as nat;
        assert(pow10(z + 1) == 10 * pow10(z));
        assert((s.len() - strip_zeros(s).len()) as nat == z + 1);
        assert(digits_value(s) == digits_value(t) * 10 + digit_value(s.last()));
        assert(digits_value(strip_zeros(t)) * (10 * pow10(z)) == (digits_value(strip_zeros(t)) * pow10(z)) * 10)
            by (nonlinear_arith);
    } else {
        assert(strip_zeros(s) == s);
        assert(s.take(s.len() as int) =~= s);
        assert(digits_value(s) * pow10(0) == digits_value(s));
    }
}

/// The characters of a decimal's text: digits, `-` and `.`.
proof fn lemma_micro_chars(v: int)
    ensures
        micro_text(v).len() > 0,
        forall|i: int| 0 <= i < micro_text(v).len() ==> num_char(#[trigger] micro_text(v)[i], true),
        forall|i: int| 0 <= i < micro_text(v).len() ==> !is_space(#[trigger] micro_text(v)[i]),
        forall|i: int| 0 <= i < micro_text(v).len() ==> (#[trigger] micro_text(v)[i]) != '"',
{
    let m: nat = if v < 0 {
        (-v) as nat
    } else {
        v as nat
    };
    let ip = m / 1_000_000;
    let fp = m % 1_000_000;
    lemma_nat_text(ip);
    let sign = if v < 0 {
        seq!['-']
    } else {
        Seq::<char>::empty()
    };
    let frac = if fp == 0 {
        Seq::<char>::empty()
    } else {
        seq!['.'] + strip_zeros(six_digits(fp))
    };
    let s = micro_text(v);
    assert(s == sign + nat_text(ip) + frac);
    lemma_six_digits_prefix(fp, 0);
    lemma_strip_zeros(six_digits(fp));
    let st = strip_zeros(six_digits(fp));
    assert forall|i: int| 0 <= i < s.len() implies num_char(#[trigger] s[i], true) by {
        if i < sign.len() {
        } else if i < sign.len() + nat_text(ip).len() {
            assert(s[i] == nat_text(ip)[i - sign.len()]);
        } else {
            let j = i - sign.len() - nat_text(ip).len();
            assert(s[i] == frac[j]);
            if j > 0 {
                assert(frac[j] == st[j - 1]);
                assert(st[j - 1] == six_digits(fp)[j - 1]);
            }
        }
    }
}

/// A decimal's text parses back to its value.
proof fn lemma_parse_micro_text(v: int)
    requires
        i64::MIN <= v <= i64::MAX,
    ensures
        parse_micro(micro_text(v)) == Some(v as i64),
{
    lemma_pow10_values();
    let m: nat = if v < 0 {
        (-v) as nat
    } else {
        v as nat
    };
    let ip = m / 1_000_000;
    let fp = m % 1_000_000;
    lemma_nat_text(ip);
    let nt = nat_text(ip);
    let frac = if fp == 0 {
        Seq::<char>::empty()
    } else {
        seq!['.'] + strip_zeros(six_digits(fp))
    };
    let s = micro_text(v);
    let body = nt + frac;
    if v < 0 {
        assert(s == seq!['-'] + body);
        assert(s.drop_first() =~= body);
    } else {
        assert(s =~= body);
        assert(is_digit(nt[0]));
    }
    assert forall|i: int| 0 <= i < nt.len() implies nt[i] != '.' by {
        assert(is_digit(nt[i]));
    }
    lemma_six_digits_prefix(fp, 6);
    lemma_strip_zeros(six_digits(fp));
    let st = strip_zeros(six_digits(fp));
    assert(six_digits(fp).take(6) =~= six_digits(fp));
    let fpart = if fp == 0 {
        Seq::<char>::empty()
    } else {
        st
    };
    if fp == 0 {
        assert(body =~= nt);
        lemma_no_char(nt, '.');
    } else {
        assert(body =~= nt + seq!['.'] + st);
        lemma_find_char(nt, '.', st);
        assert(body.take(nt.len() as int) =~= nt);
        assert(body.skip(nt.len() + 1 as int) =~= st);
        assert forall|i: int| 0 <= i < st.len() implies is_digit(#[trigger] st[i]) by {
            assert(st[i] == six_digits(fp)[i]);
        }
    }
    assert(fpart.take(fpart.len() as int) =~= fpart);
    if fp == 0 {
        assert(digits_value(fpart) == 0);
    } else {
        assert(digits_value(six_digits(fp)) == fp / pow10(0));
        assert(digits_value(st) * pow10((6 - st.len()) as nat) == fp);
    }
    assert(digits_value(nt) * 1_000_000 + digits_value(fpart.take(fpart.len() as int)) * pow10(
        (6 - fpart.len()) as nat,
    ) == m);
    assert(micro_value(s) == Some(v));
}

/// A decimal member reads back as written.
proof fn lemma_read_micro(v: int, t: Seq<char>)
    requires
        i64::MIN <= v <= i64::MAX,
        t.len() > 0,
        t[0] == ',' || t[0] == '\n',
    ensures
        parse_micro(trim((micro_text(v) + t).take(num_span(micro_text(v) + t, true) as int))) == Some(
            v as i64,
        ),
{
    lemma_micro_chars(v);
    lemma_num_span(micro_text(v), t, true);
    assert((micro_text(v) + t).take(micro_text(v).len() as int) =~= micro_text(v));
    lemma_trim_unchanged(micro_text(v));
    lemma_parse_micro_text(v);
}

// ------------------------------------------------------------------ //
//  The list of isolated cores                                          //
// ------------------------------------------------------------------ //

/// Text without `c` is one piece.
proof fn lemma_split_plain(a: Seq<char>, c: char)
    requires
        forall|i: int| 0 <= i < a.len() ==> a[i] != c,
    ensures
        split_on(a, c) == seq![a],
{
    lemma_no_char(a, c);
}

/// Splitting at a separator joins the pieces of both sides.
proof fn lemma_split_concat(x: Seq<char>, c: char, y: Seq<char>)
    ensures
        split_on(x + seq![c] + y, c) == split_on(x, c) + split_on(y, c),
    decreases x.len(),
{
    let s = x + seq![c] + y;
    lemma_find_from_facts(x, seq![c], 0);
    match find(x, seq![c]) {
        Some(i) => {
            assert(s =~= x + (seq![c] + y));
            lemma_find_extend(x, seq![c] + y, seq![c]);
            assert(i + 1 <= x.len());
            assert(s.take(i) =~= x.take(i));
            assert(s.skip(i + 1) =~= x.skip(i + 1) + seq![c] + y);
            lemma_split_concat(x.skip(i + 1), c, y);
            assert(split_on(s, c) =~= split_on(x, c) + split_on(y, c));
        },
        None => {
            assert forall|j: int| 0 <= j < x.len() implies x[j] != c by {
                if x[j] == c {
                    assert(x.subrange(j, j + 1) =~= seq![c]);
                    assert(matches_at(x, seq![c], j));
                }
            }
            lemma_find_char(x, c, y);
            assert(s.take(x.len() as int) =~= x);
            assert(s.skip(x.len() + 1 as int) =~= y);
            assert(split_on(s, c) =~= split_on(x, c) + split_on(y, c));
        },
    }
}

/// The pieces that splitting the written core list at `,` gives.
pub open spec fn core_pieces(v: Seq<i32>) -> Seq<Seq<char>> {
    Seq::new(
        v.len(),
        |i: int|
            if i == 0 {
                int_text(v[0] as int)
            } else {
                seq![' '] + int_text(v[i] as int)
            },
    )
}

proof fn lemma_split_cores(v: Seq<i32>)
    requires
        v.len() >= 1,
    ensures
        split_on(join(int_texts(v), seq![',', ' ']), ',') == core_pieces(v),
    decreases v.len(),
{
    let sp = seq![',', ' '];
    let t = int_texts(v);
    if v.len() == 1 {
        lemma_int_text_chars(v[0] as int);
        assert(join(t, sp) == t[0]);
        lemma_split_plain(int_text(v[0] as int), ',');
        assert(split_on(join(t, sp), ',') =~= core_pieces(v));
    } else {
        let w = v.drop_last();
        lemma_split_cores(w);
        assert(t.drop_last() =~= int_texts(w));
        let last = int_text(v.last() as int);
        lemma_int_text_chars(v.last() as int);
        assert(join(t, sp) == join(t.drop_last(), sp) + sp + t.last());
        assert(join(t, sp) =~= join(int_texts(w), sp) + seq![','] + (seq![' '] + last));
        lemma_split_concat(join(int_texts(w), sp), ',', seq![' '] + last);
        assert forall|i: int| 0 <= i < (seq![' '] + last).len() implies (seq![' '] + last)[i] != ',' by {
            if i > 0 {
                assert((seq![' '] + last)[i] == last[i - 1]);
            }
        }
        lemma_split_plain(seq![' '] + last, ',');
        assert(split_on(join(t, sp), ',') =~= core_pieces(v));
    }
}

proof fn lemma_parse_core_pieces(v: Seq<i32>)
    requires
        v.len() >= 1,
    ensures
        parse_core_list(core_pieces(v)) == v,
    decreases v.len(),
{
    let p = core_pieces(v);
    let x = v.last() as int;
    lemma_int_text_chars(x);
    lemma_trim_unchanged(int_text(x));
    lemma_parse_int_text(x);
    if v.len() == 1 {
        assert(p.drop_last() =~= Seq::<Seq<char>>::empty());
        assert(trim(p.last()) == int_text(x));
    } else {
        lemma_parse_core_pieces(v.drop_last());
        assert(p.drop_last() =~= core_pieces(v.drop_last()));
        lemma_trim_start_space(int_text(x));
        assert(trim(int_text(x)) == int_text(x));
        assert(trim(p.last()) == int_text(x));
    }
    assert(parse_i32_spec(trim(p.last())) == Some(v.last()));
    if v.len() == 1 {
        assert(parse_core_list(p.drop_last()) =~= Seq::<i32>::empty());
    } else {
        assert(parse_core_list(p.drop_last()) == v.drop_last());
    }
    assert(parse_core_list(p) == parse_core_list(p.drop_last()) + seq![v.last()]);
    assert(parse_core_list(p) =~= v);
}

/// The core list reads back as written.
proof fn lemma_read_cores(v: Seq<i32>)
    ensures
        parse_core_list(split_on(join(int_texts(v), ", "@), ',')) == v,
{
    reveal_strlit(", ");
    assert(", "@ =~= seq![',', ' ']);
    if v.len() == 0 {
        assert(join(int_texts(v), ", "@) =~= Seq::<char>::empty());
        lemma_split_plain(Seq::<char>::empty(), ',');
        let p = seq![Seq::<char>::empty()];
        assert(p.drop_last() =~= Seq::<Seq<char>>::empty());
        assert(trim(Seq::<char>::empty()) =~= Seq::<char>::empty());
        assert(parse_i32_spec(trim(p.last())) is None);
        assert(parse_core_list(p.drop_last()) =~= Seq::<i32>::empty());
        assert(parse_core_list(p) =~= v);
    } else {
        lemma_split_cores(v);
        lemma_parse_core_pieces(v);
    }
}

/// The text of the core list holds digits, `-`, `,` and spaces only.
proof fn lemma_cores_text_chars(v: Seq<i32>)
    ensures
        forall|i: int|
            0 <= i < join(int_texts(v), ", "@).len() ==> {
                let c = #[trigger] join(int_texts(v), ", "@)[i];
                c != ']' && c != '"'
            },
    decreases v.len(),
{
    reveal_strlit(", ");
    let t = int_texts(v);
    let j = join(t, ", "@);
    if v.len() == 1 {
        lemma_int_text_chars(v[0] as int);
    } else if v.len() > 1 {
        lemma_cores_text_chars(v.drop_last());
        assert(t.drop_last() =~= int_texts(v.drop_last()));
        lemma_int_text_chars(v.last() as int);
        let a = join(int_texts(v.drop_last()), ", "@);
        assert(j == a + ", "@ + t.last());
        assert forall|i: int| 0 <= i < j.len() implies j[i] != ']' && j[i] != '"' by {
            if i < a.len() {
                assert(j[i] == a[i]);
            } else if i >= a.len() + 2 {
                assert(j[i] == int_text(v.last() as int)[i - a.len() - 2]);
            }
        }
    }
}

// ------------------------------------------------------------------ //
//  Members read back                                                  //
// ------------------------------------------------------------------ //

proof fn lemma_tail_first(ks: Seq<Seq<char>>, vs: Seq<Seq<char>>, i: int)
    requires
        0 <= i < ks.len(),
    ensures
        tail_after(ks, vs, i).len() > 0,
        tail_after(ks, vs, i)[0] == ',' || tail_after(ks, vs, i)[0] == '\n',
{
}

proof fn lemma_int_member(ks: Seq<Seq<char>>, vs: Seq<Seq<char>>, i: int, x: i32, d: i32)
    requires
        good_members(ks, vs),
        0 <= i < ks.len(),
        vs[i] == int_text(x as int),
    ensures
        crate::config::int_or(object(ks, vs), ks[i], d) == x,
{
    lemma_value_at(ks, vs, i);
    lemma_tail_first(ks, vs, i);
    lemma_read_int(x as int, tail_after(ks, vs, i));
}

proof fn lemma_bool_member(ks: Seq<Seq<char>>, vs: Seq<Seq<char>>, i: int, b: bool, d: bool)
    requires
        good_members(ks, vs),
        0 <= i < ks.len(),
        vs[i] == bool_text(b),
    ensures
        crate::config::bool_or(object(ks, vs), ks[i], d) == b,
{
    lemma_value_at(ks, vs, i);
    lemma_read_bool(b, tail_after(ks, vs, i));
}

proof fn lemma_str_member(ks: Seq<Seq<char>>, vs: Seq<Seq<char>>, i: int, t: Seq<char>, d: Seq<char>)
    requires
        good_members(ks, vs),
        0 <= i < ks.len(),
        vs[i] == quoted(t),
        quote_free(t),
    ensures
        crate::config::str_or(object(ks, vs), ks[i], d) == t,
{
    lemma_value_at(ks, vs, i);
    lemma_read_str(t, tail_after(ks, vs, i));
}

proof fn lemma_micro_member(ks: Seq<Seq<char>>, vs: Seq<Seq<char>>, i: int, x: i64)
    requires
        good_members(ks, vs),
        0 <= i < ks.len(),
        vs[i] == micro_text(x as int),
    ensures
        json_micro_spec(object(ks, vs), ks[i]) == Some(x),
{
    lemma_value_at(ks, vs, i);
    lemma_tail_first(ks, vs, i);
    lemma_read_micro(x as int, tail_after(ks, vs, i));
}

proof fn lemma_cores_member(ks: Seq<Seq<char>>, vs: Seq<Seq<char>>, i: int, v: Seq<i32>)
    requires
        good_members(ks, vs),
        0 <= i < ks.len(),
        vs[i] == seq!['['] + join(int_texts(v), ", "@) + seq![']'],
    ensures
        json_array_spec(object(ks, vs), ks[i]) == Some(join(int_texts(v), ", "@)),
{
    lemma_value_at(ks, vs, i);
    let j = join(int_texts(v), ", "@);
    let rest = vs[i] + tail_after(ks, vs, i);
    lemma_cores_text_chars(v);
    let x = seq!['['] + j;
    assert forall|k: int| 0 <= k < x.len() implies x[k] != ']' by {
        if k > 0 {
            assert(x[k] == j[k - 1]);
        }
    }
    assert(rest =~= x + seq![']'] + tail_after(ks, vs, i));
    lemma_find_char(x, ']', tail_after(ks, vs, i));
    assert(rest.subrange(1, x.len() as int) =~= j);
}

// ------------------------------------------------------------------ //
//  Every value is written well                                        //
// ------------------------------------------------------------------ //

proof fn lemma_good_int(x: int)
    ensures
        good_value(int_text(x)),
{
    lemma_int_text_chars(x);
}

proof fn lemma_good_bool(b: bool)
    ensures
        good_value(bool_text(b)),
{
    reveal_strlit("true");
    reveal_strlit("false");
}

proof fn lemma_good_str(t: Seq<char>)
    requires
        quote_free(t),
    ensures
        good_value(quoted(t)),
{
    let q = quoted(t);
    assert forall|i: int| 1 <= i < q.len() - 1 implies q[i] != '"' by {
        assert(q[i] == t[i - 1]);
    }
}

proof fn lemma_good_micro(v: int)
    ensures
        good_value(micro_text(v)),
{
    lemma_micro_chars(v);
}

proof fn lemma_good_cores(v: Seq<i32>)
    ensures
        good_value(seq!['['] + join(int_texts(v), ", "@) + seq![']']),
{
    lemma_cores_text_chars(v);
    let j = join(int_texts(v), ", "@);
    let s = seq!['['] + j + seq![']'];
    assert forall|i: int| 0 <= i < s.len() implies s[i] != '"' by {
        if 0 < i < s.len() - 1 {
            assert(s[i] == j[i - 1]);
        }
    }
}

spec fn key_signature(k: Seq<char>) -> (nat, char, char, char) {
    (k.len(), k[3], k[5], k[8])
}

/// The stored keys are distinct words of letters and `_`.
proof fn lemma_config_keys()
    ensures
        forall|i: int| 0 <= i < 26 ==> good_key(#[trigger] config_keys()[i]),
        forall|i: int, j: int| 0 <= i < j < 26 ==> #[trigger] config_keys()[i] != #[trigger] config_keys()[j],
{
    reveal_strlit("isolated_cores");
    reveal_strlit("housekeeping_core");
    reveal_strlit("disable_frequency_boost");
    reveal_strlit("max_cstate");
    reveal_strlit("stop_irqbalance");
    reveal_strlit("disable_swap");
    reveal_strlit("isolate_multiuser");
    reveal_strlit("ns_server");
    reveal_strlit("ns_client");
    reveal_strlit("veth_server");
    reveal_strlit("veth_client");
    reveal_strlit("server_ip");
    reveal_strlit("client_ip");
    reveal_strlit("netem_delay_ms");
    reveal_strlit("netem_jitter_ms");
    reveal_strlit("netem_loss_pct");
    reveal_strlit("disable_offloading");
    reveal_strlit("server_cores");
    reveal_strlit("client_cores");
    reveal_strlit("rt_priority");
    reveal_strlit("disable_aslr");
    reveal_strlit("tune_net_buffers");
    reveal_strlit("drop_caches");
    reveal_strlit("stop_timesyncd");
    reveal_strlit("apply_nohz_full");
    reveal_strlit("apply_rcu_nocbs");
    let ks = config_keys();
    assert(forall|i: int| 0 <= i < 26 ==> good_key(#[trigger] ks[i]));
    assert(forall|i: int, j: int| 0 <= i < j < 26 ==> #[trigger] key_signature(ks[i]) != #[trigger] key_signature(ks[j]));
    assert forall|i: int, j: int| 0 <= i < j < 26 implies #[trigger] ks[i] != #[trigger] ks[j] by {
        assert(key_signature(ks[i]) != key_signature(ks[j]));
    }
}

/// The string fields of a configuration hold no quote.
pub open spec fn strings_quote_free(c: ConfigView) -> bool {
    &&& quote_free(c.ns_server)
    &&& quote_free(c.ns_client)
    &&& quote_free(c.veth_server)
    &&& quote_free(c.veth_client)
    &&& quote_free(c.server_ip)
    &&& quote_free(c.client_ip)
    &&& quote_free(c.server_cores)
    &&& quote_free(c.client_cores)
}

proof fn lemma_config_members(c: ConfigView)
    requires
        strings_quote_free(c),
    ensures
        good_members(config_keys(), config_values(c)),
        config_json(c) == object(config_keys(), config_values(c)),
{
    let ks = config_keys();
    let vs = config_values(c);
    lemma_config_keys();
    lemma_good_cores(c.isolated_cores);
    lemma_good_int(c.housekeeping_core as int);
    lemma_good_int(c.max_cstate as int);
    lemma_good_int(c.netem_delay_ms as int);
    lemma_good_int(c.netem_jitter_ms as int);
    lemma_good_int(c.rt_priority as int);
    lemma_good_micro(c.netem_loss_micropct as int);
    lemma_good_bool(c.disable_frequency_boost);
    lemma_good_bool(c.stop_irqbalance);
    lemma_good_bool(c.disable_swap);
    lemma_good_bool(c.isolate_multiuser);
    lemma_good_bool(c.disable_offloading);
    lemma_good_bool(c.disable_aslr);
    lemma_good_bool(c.tune_net_buffers);
    lemma_good_bool(c.drop_caches);
    lemma_good_bool(c.stop_timesyncd);
    lemma_good_bool(c.apply_nohz_full);
    lemma_good_bool(c.apply_rcu_nocbs);
    lemma_good_str(c.ns_server);
    lemma_good_str(c.ns_client);
    lemma_good_str(c.veth_server);
    lemma_good_str(c.veth_client);
    lemma_good_str(c.server_ip);
    lemma_good_str(c.client_ip);
    lemma_good_str(c.server_cores);
    lemma_good_str(c.client_cores);
    assert(forall|i: int| 0 <= i < 26 ==> good_value(#[trigger] vs[i]));
    assert(config_entries(c) =~= members(ks, vs));
}

/// What is stored of a configuration reads back as that configuration,
/// provided its string fields hold no quote (a quote would end a string
/// early, since strings are written as they are).
#[verifier::spinoff_prover]
#[verifier::rlimit(40)]
pub proof fn lemma_config_json_roundtrip(c: ConfigView)
    requires
        strings_quote_free(c),
    ensures
        config_from_json(config_json(c)) == c,
{
    let ks = config_keys();
    let vs = config_values(c);
    let d = crate::config::default_config();
    lemma_config_members(c);
    lemma_read_cores(c.isolated_cores);
    lemma_cores_member(ks, vs, 0, c.isolated_cores);
    lemma_int_member(ks, vs, 1, c.housekeeping_core, d.housekeeping_core);
    lemma_bool_member(ks, vs, 2, c.disable_frequency_boost, d.disable_frequency_boost);
    lemma_int_member(ks, vs, 3, c.max_cstate, d.max_cstate);
    lemma_bool_member(ks, vs, 4, c.stop_irqbalance, d.stop_irqbalance);
    lemma_bool_member(ks, vs, 5, c.disable_swap, d.disable_swap);
    lemma_bool_member(ks, vs, 6, c.isolate_multiuser, d.isolate_multiuser);
    lemma_str_member(ks, vs, 7, c.ns_server, d.ns_server);
    lemma_str_member(ks, vs, 8, c.ns_client, d.ns_client);
    lemma_str_member(ks, vs, 9, c.veth_server, d.veth_server);
    lemma_str_member(ks, vs, 10, c.veth_client, d.veth_client);
    lemma_str_member(ks, vs, 11, c.server_ip, d.server_ip);
    lemma_str_member(ks, vs, 12, c.client_ip, d.client_ip);
    lemma_int_member(ks, vs, 13, c.netem_delay_ms, d.netem_delay_ms);
    lemma_int_member(ks, vs, 14, c.netem_jitter_ms, d.netem_jitter_ms);
    lemma_micro_member(ks, vs, 15, c.netem_loss_micropct);
    lemma_bool_member(ks, vs, 16, c.disable_offloading, d.disable_offloading);
    lemma_str_member(ks, vs, 17, c.server_cores, d.server_cores);
    lemma_str_member(ks, vs, 18, c.client_cores, d.client_cores);
    lemma_int_member(ks, vs, 19, c.rt_priority, d.rt_priority);
    lemma_bool_member(ks, vs, 20, c.disable_aslr, d.disable_aslr);
    lemma_bool_member(ks, vs, 21, c.tune_net_buffers, d.tune_net_buffers);
    lemma_bool_member(ks, vs, 22, c.drop_caches, d.drop_caches);
    lemma_bool_member(ks, vs, 23, c.stop_timesyncd, d.stop_timesyncd);
    lemma_bool_member(ks, vs, 24, c.apply_nohz_full, d.apply_nohz_full);
    lemma_bool_member(ks, vs, 25, c.apply_rcu_nocbs, d.apply_rcu_nocbs);
    assert(config_from_json(config_json(c)) =~= c);
}

/// The daemon writes its PID in decimal to the PID file; reading the file
/// back gives that PID.
pub proof fn lemma_pid_file_roundtrip(pid: u32)
    ensures
        pid_in_file(nat_text(pid as nat)) == Some(pid),
{
    let t = nat_text(pid as nat);
    lemma_nat_text(pid as nat);
    assert forall|i: int| 0 <= i < t.len() implies !is_space(#[trigger] t[i]) by {
        assert(is_digit(t[i]));
    }
    lemma_trim_unchanged(t);
    assert(is_digit(t[0]));
}

} // verus!
