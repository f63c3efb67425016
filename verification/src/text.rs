use vstd::prelude::*;

use crate::seqs::{first_index, lemma_first_index_is, lemma_first_index_none};

verus! {

/// Equality of two string slices: true exactly when both hold the same
/// characters.
pub(crate) fn str_eq(a: &str, b: &str) -> (r: bool)
    ensures
        r == (a@ == b@),
{
    let left: String = a.to_owned();
    let right: String = b.to_owned();
    left == right
}

/// Collects characters into a `String` (std's `FromIterator<char>`): the
/// string holds exactly those characters, in order.
#[verifier::external_body]
pub(crate) fn string_from_chars(chars: &Vec<char>) -> (s: String)
    ensures
        s@ == chars@,
{
    chars.iter().collect()
}

/// The characters of `s`, in order.
pub fn chars_of(s: &str) -> (v: Vec<char>)
    ensures
        v@ == s@,
{
    let mut v: Vec<char> = Vec::new();
    for c in it: s.chars()
        invariant
            v@ == it.seq().take(it.index() as int),
    {
        v.push(c);
    }
    v
}

/// `s` begins with `p`.
pub open spec fn has_prefix(s: Seq<char>, p: Seq<char>) -> bool {
    p.len() <= s.len() && s.subrange(0, p.len() as int) == p
}

/// `s` ends with `p`.
pub open spec fn has_suffix(s: Seq<char>, p: Seq<char>) -> bool {
    p.len() <= s.len() && s.subrange(s.len() - p.len(), s.len() as int) == p
}

/// An ASCII decimal digit.
pub open spec fn is_digit(c: char) -> bool {
    '0' <= c <= '9'
}

/// The value of a run of decimal digits.
pub open spec fn digits_value(s: Seq<char>) -> nat
    decreases s.len(),
{
    if s.len() == 0 {
        0
    } else {
        digits_value(s.drop_last()) * 10 + (s.last() as nat - '0' as nat) as nat
    }
}

/// The unsigned value std's `FromStr` reads from `s`: an optional leading
/// `+`, then one or more ASCII digits and nothing else (no bound applied).
pub open spec fn decimal_value(s: Seq<char>) -> Option<nat> {
    let body = decimal_body(s);
    if body.len() > 0 && all_digits(body) {
        Some(digits_value(body))
    } else {
        None
    }
}

/// `s` without one optional leading `+`.
pub open spec fn decimal_body(s: Seq<char>) -> Seq<char> {
    if s.len() > 0 && s[0] == '+' {
        s.drop_first()
    } else {
        s
    }
}

/// Every character of `s` is an ASCII digit.
pub open spec fn all_digits(s: Seq<char>) -> bool {
    forall|i: int| 0 <= i < s.len() ==> is_digit(#[trigger] s[i])
}

/// std's unsigned `FromStr` with an upper bound: the decimal value when it
/// does not exceed `limit`.
pub open spec fn parse_bounded(s: Seq<char>, limit: nat) -> Option<nat> {
    match decimal_value(s) {
        Some(v) => if v <= limit { Some(v) } else { None },
        None => None,
    }
}

/// The ASCII character of a decimal digit.
pub open spec fn digit_char(d: nat) -> char {
    ((d + 48) as u8) as char
}

/// The shortest decimal rendering of `n` (std's `Display` for integers).
pub open spec fn decimal_text(n: nat) -> Seq<char>
    decreases n,
{
    if n < 10 {
        seq![digit_char(n)]
    } else {
        decimal_text(n / 10).push(digit_char(n % 10))
    }
}

/// Whether `chars[start..start + p.len()]` equals `p`.
pub fn matches_at(chars: &Vec<char>, start: usize, p: &Vec<char>) -> (r: bool)
    requires
        start <= chars@.len(),
    ensures
        r == (start + p@.len() <= chars@.len() && chars@.subrange(
            start as int,
            start + p@.len(),
        ) == p@),
{
    if p.len() > chars.len() - start {
        return false;
    }
    let mut i: usize = 0;
    let mut j: usize = start;
    let n = chars.len();
    while i < p.len()
        invariant
            n == chars@.len(),
            start + p@.len() <= chars@.len(),
            0 <= i <= p@.len(),
            j == start + i,
            forall|k: int| 0 <= k < i ==> chars@[start + k] == p@[k],
        decreases p@.len() - i,
    {
        if chars[j] != p[i] {
            assert(chars@.subrange(start as int, start + p@.len())[i as int] != p@[i as int]);
            return false;
        }
        i = i + 1;
        j = j + 1;
    }
    assert(chars@.subrange(start as int, start + p@.len()) =~= p@);
    true
}

/// Whether `chars` begins with `p`.
pub fn starts_with(chars: &Vec<char>, p: &Vec<char>) -> (r: bool)
    ensures
        r == has_prefix(chars@, p@),
{
    matches_at(chars, 0, p)
}

/// Whether `chars` ends with `p`.
pub fn ends_with(chars: &Vec<char>, p: &Vec<char>) -> (r: bool)
    ensures
        r == has_suffix(chars@, p@),
{
    if p.len() > chars.len() {
        return false;
    }
    matches_at(chars, chars.len() - p.len(), p)
}

/// `chars[start..end]` as a new vector.
pub fn slice_chars(chars: &Vec<char>, start: usize, end: usize) -> (v: Vec<char>)
    requires
        start <= end <= chars@.len(),
    ensures
        v@ == chars@.subrange(start as int, end as int),
{
    let mut v: Vec<char> = Vec::new();
    let mut i = start;
    while i < end
        invariant
            start <= i <= end <= chars@.len(),
            v@ == chars@.subrange(start as int, i as int),
        decreases end - i,
    {
        v.push(chars[i]);
        i = i + 1;
        assert(v@ =~= chars@.subrange(start as int, i as int));
    }
    v
}

/// std's unsigned `FromStr` on `chars[start..end]`, bounded by `limit`.
pub fn parse_decimal(chars: &Vec<char>, start: usize, end: usize, limit: u64) -> (r: Option<u64>)
    requires
        start <= end <= chars@.len(),
    ensures
        r matches Some(v) ==> parse_bounded(chars@.subrange(start as int, end as int), limit as nat)
            == Some(v as nat),
        r is None ==> parse_bounded(chars@.subrange(start as int, end as int), limit as nat) is None,
{
    let ghost s = chars@.subrange(start as int, end as int);
    let mut first = start;
    if first < end && chars[first] == '+' {
        first = first + 1;
    }
    let ghost body = chars@.subrange(first as int, end as int);
    assert(body == decimal_body(s));
    if first == end {
        return None;
    }
    let mut acc: u64 = 0;
    let mut over = false;
    let mut i = first;
    while i < end
        invariant
            start <= first <= i <= end <= chars@.len(),
            first < end,
            s == chars@.subrange(start as int, end as int),
            body == chars@.subrange(first as int, end as int),
            body == decimal_body(s),
            forall|k: int| first <= k < i ==> is_digit(#[trigger] chars@[k]),
            !over ==> acc as nat == digits_value(chars@.subrange(first as int, i as int)),
            !over ==> acc <= limit,
            over ==> digits_value(chars@.subrange(first as int, i as int)) > limit,
        decreases end - i,
    {
        let c = chars[i];
        if !('0' <= c && c <= '9') {
            assert(body[i - first] == c);
            assert(!is_digit(body[i - first]));
            assert(!all_digits(body));
            return None;
        }
        let d: u64 = (c as u32 - '0' as u32) as u64;
        let ghost prefix = chars@.subrange(first as int, i as int);
        let ghost next = chars@.subrange(first as int, i + 1);
        assert(next.drop_last() =~= prefix);
        assert(digits_value(next) == digits_value(prefix) * 10 + d);
        if !over {
            if d > limit || acc > (limit - d) / 10 {
                over = true;
                assert(digits_value(next) > limit) by (nonlinear_arith)
                    requires
                        digits_value(next) == acc * 10 + d,
                        d > limit || acc > (limit - d) / 10,
                        d <= 9,
                ;
            } else {
                assert(acc * 10 + d <= limit) by (nonlinear_arith)
                    requires
                        acc <= (limit - d) / 10,
                        d <= limit,
                ;
                acc = acc * 10 + d;
            }
        } else {
            assert(digits_value(next) >= digits_value(prefix)) by (nonlinear_arith)
                requires
                    digits_value(next) == digits_value(prefix) * 10 + d,
            ;
        }
        i = i + 1;
    }
    assert forall|k: int| 0 <= k < body.len() implies is_digit(#[trigger] body[k]) by {
        assert(body[k] == chars@[first + k]);
    }
    assert(all_digits(body));
    assert(chars@.subrange(first as int, i as int) == body);
    assert(decimal_value(s) == Some(digits_value(body)));
    if over {
        None
    } else {
        Some(acc)
    }
}

/// The ASCII character of the decimal digit `d`.
pub fn digit_to_char(d: u64) -> (c: char)
    requires
        d < 10,
    ensures
        c == digit_char(d as nat),
{
    ((d as u8) + 48u8) as char
}

/// The decimal rendering of `n`.
pub fn decimal_chars(n: u64) -> (v: Vec<char>)
    ensures
        v@ == decimal_text(n as nat),
    decreases n,
{
    if n < 10 {
        let mut v: Vec<char> = Vec::new();
        v.push(digit_to_char(n));
        assert(v@ =~= seq![digit_char(n as nat)]);
        v
    } else {
        let mut v = decimal_chars(n / 10);
        v.push(digit_to_char(n % 10));
        v
    }
}

/// Appends all of `tail` to `v`.
pub fn append_chars(v: &mut Vec<char>, tail: &Vec<char>)
    ensures
        final(v)@ == old(v)@ + tail@,
{
    let mut i: usize = 0;
    while i < tail.len()
        invariant
            0 <= i <= tail@.len(),
            v@ == old(v)@ + tail@.subrange(0, i as int),
        decreases tail@.len() - i,
    {
        v.push(tail[i]);
        i = i + 1;
        assert(v@ =~= old(v)@ + tail@.subrange(0, i as int));
    }
    assert(tail@.subrange(0, tail@.len() as int) =~= tail@);
}

/// Appends the characters of `s` to `v`.
pub fn append_str(v: &mut Vec<char>, s: &str)
    ensures
        final(v)@ == old(v)@ + s@,
{
    let tail = chars_of(s);
    append_chars(v, &tail);
}

/// Appends the decimal rendering of `n` to `v`.
pub fn append_decimal(v: &mut Vec<char>, n: u64)
    ensures
        final(v)@ == old(v)@ + decimal_text(n as nat),
{
    let tail = decimal_chars(n);
    append_chars(v, &tail);
}


/// `p` occurs in `s` starting at `k`.
pub open spec fn occurs_at(s: Seq<char>, p: Seq<char>) -> spec_fn(int) -> bool {
    |k: int| 0 <= k && k + p.len() <= s.len() && s.subrange(k, k + p.len()) == p
}

/// The start of the first occurrence of `p` in `s` (std's `split_once`).
pub open spec fn first_occurrence(s: Seq<char>, p: Seq<char>) -> Option<int> {
    first_index(Seq::new((s.len() + 1) as nat, |k: int| k), occurs_at(s, p))
}

/// Finds the first occurrence of `p` in `chars`.
pub fn find_substring(chars: &Vec<char>, p: &Vec<char>) -> (at: Option<usize>)
    ensures
        at matches Some(k) ==> first_occurrence(chars@, p@) == Some(k as int) && k + p@.len() <= chars@.len(),
        at is None ==> first_occurrence(chars@, p@) is None,
{
    let ghost ks = Seq::new((chars@.len() + 1) as nat, |k: int| k);
    let mut k: usize = 0;
    while k < chars.len()
        invariant
            0 <= k <= chars@.len(),
            ks == Seq::new((chars@.len() + 1) as nat, |k: int| k),
            forall|j: int| 0 <= j < k ==> !occurs_at(chars@, p@)(#[trigger] ks[j]),
        decreases chars@.len() - k,
    {
        if matches_at(chars, k, p) {
            proof {
                lemma_first_index_is(ks, occurs_at(chars@, p@), k as int);
            }
            return Some(k);
        }
        k = k + 1;
    }
    if matches_at(chars, k, p) {
        proof {
            lemma_first_index_is(ks, occurs_at(chars@, p@), k as int);
        }
        return Some(k);
    }
    proof {
        lemma_first_index_none(ks, occurs_at(chars@, p@));
    }
    None
}

/// `a` orders before `b` as std orders strings: character by character by
/// code point (the order of their UTF-8 bytes), a proper prefix first.
pub open spec fn lex_lt(a: Seq<char>, b: Seq<char>) -> bool
    decreases a.len(),
{
    if b.len() == 0 {
        false
    } else if a.len() == 0 {
        true
    } else if a[0] != b[0] {
        (a[0] as int) < (b[0] as int)
    } else {
        lex_lt(a.drop_first(), b.drop_first())
    }
}

/// No two strings order before each other.
pub proof fn lemma_lex_asymmetric(a: Seq<char>, b: Seq<char>)
    ensures
        !(lex_lt(a, b) && lex_lt(b, a)),
    decreases a.len(),
{
    if a.len() > 0 && b.len() > 0 && a[0] == b[0] {
        lemma_lex_asymmetric(a.drop_first(), b.drop_first());
    }
}

/// Distinct strings are ordered one way or the other.
pub proof fn lemma_lex_total(a: Seq<char>, b: Seq<char>)
    ensures
        a == b || lex_lt(a, b) || lex_lt(b, a),
    decreases a.len(),
{
    if a.len() > 0 && b.len() > 0 && a[0] == b[0] {
        lemma_lex_total(a.drop_first(), b.drop_first());
        if a.drop_first() == b.drop_first() {
            assert(a =~= seq![a[0]] + a.drop_first());
            assert(b =~= seq![b[0]] + b.drop_first());
        }
    } else if a.len() == 0 && b.len() == 0 {
        assert(a =~= b);
    } else if a.len() > 0 && b.len() > 0 {
        assert((a[0] as int) != (b[0] as int));
    }
}

/// The string order is transitive.
pub proof fn lemma_lex_transitive(a: Seq<char>, b: Seq<char>, c: Seq<char>)
    requires
        lex_lt(a, b),
        lex_lt(b, c),
    ensures
        lex_lt(a, c),
    decreases a.len(),
{
    if a.len() > 0 && a[0] == b[0] && b[0] == c[0] {
        lemma_lex_transitive(a.drop_first(), b.drop_first(), c.drop_first());
    }
}

/// Whether `a` orders before `b` (see [`lex_lt`]).
pub fn str_lt(a: &str, b: &str) -> (lt: bool)
    ensures
        lt == lex_lt(a@, b@),
{
    let x = chars_of(a);
    let y = chars_of(b);
    let mut i: usize = 0;
    assert(x@.skip(0) =~= x@ && y@.skip(0) =~= y@);
    while i < x.len() && i < y.len()
        invariant
            0 <= i <= x@.len(),
            i <= y@.len(),
            x@ == a@,
            y@ == b@,
            lex_lt(x@, y@) == lex_lt(x@.skip(i as int), y@.skip(i as int)),
        decreases x@.len() - i,
    {
        assert(x@.skip(i as int).drop_first() =~= x@.skip(i + 1));
        assert(y@.skip(i as int).drop_first() =~= y@.skip(i + 1));
        assert(x@.skip(i as int)[0] == x@[i as int]);
        assert(y@.skip(i as int)[0] == y@[i as int]);
        if x[i] != y[i] {
            return x[i] < y[i];
        }
        i = i + 1;
    }
    i < y.len()
}

} // verus!
