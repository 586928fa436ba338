//! Text helpers: decimal rendering and parsing of integers, substring
//! search, suffix tests and case folding.

use vstd::prelude::*;
use vstd::string::*;

verus! {

/// The character of a decimal digit.
pub open spec fn digit_char(d: nat) -> char {
    if d == 0 { '0' }
    else if d == 1 { '1' }
    else if d == 2 { '2' }
    else if d == 3 { '3' }
    else if d == 4 { '4' }
    else if d == 5 { '5' }
    else if d == 6 { '6' }
    else if d == 7 { '7' }
    else if d == 8 { '8' }
    else { '9' }
}

/// The value of a decimal digit character (meaningful when `is_digit(c)`).
pub open spec fn digit_value(c: char) -> nat {
    if c == '0' { 0 }
    else if c == '1' { 1 }
    else if c == '2' { 2 }
    else if c == '3' { 3 }
    else if c == '4' { 4 }
    else if c == '5' { 5 }
    else if c == '6' { 6 }
    else if c == '7' { 7 }
    else if c == '8' { 8 }
    else { 9 }
}

pub open spec fn is_digit(c: char) -> bool {
    '0' <= c && c <= '9'
}

pub open spec fn all_digits(s: Seq<char>) -> bool {
    forall|i: int| 0 <= i < s.len() ==> is_digit(#[trigger] s[i])
}

/// Canonical decimal digits of a natural number, most significant first.
pub open spec fn nat_digits(n: nat) -> Seq<char>
    decreases n,
{
    if n < 10 {
        seq![digit_char(n)]
    } else {
        nat_digits(n / 10).push(digit_char(n % 10))
    }
}

/// Canonical decimal rendering of an integer, with a leading `-` when negative.
pub open spec fn int_decimal(n: int) -> Seq<char> {
    if n < 0 {
        seq!['-'] + nat_digits((-n) as nat)
    } else {
        nat_digits(n as nat)
    }
}

/// The number that a string of decimal digits denotes.
pub open spec fn digits_value(s: Seq<char>) -> nat
    decreases s.len(),
{
    if s.len() == 0 {
        0
    } else {
        digits_value(s.drop_last()) * 10 + digit_value(s.last())
    }
}

/// The integer that a decimal text denotes, if it is one: an optional `-`
/// followed by one or more digits, whose value fits in an `i64`.
pub open spec fn parse_int_spec(s: Seq<char>) -> Option<int> {
    let neg = s.len() > 0 && s[0] == '-';
    let body = if neg { s.drop_first() } else { s };
    let v: int = if neg { -(digits_value(body) as int) } else { digits_value(body) as int };
    if body.len() > 0 && all_digits(body) && i64::MIN <= v <= i64::MAX {
        Some(v)
    } else {
        None
    }
}

pub proof fn lemma_digit_char_value(d: nat)
    requires
        d < 10,
    ensures
        digit_value(digit_char(d)) == d,
        is_digit(digit_char(d)),
{
}

pub proof fn lemma_nat_digits(n: nat)
    ensures
        nat_digits(n).len() > 0,
        all_digits(nat_digits(n)),
        digits_value(nat_digits(n)) == n,
    decreases n,
{
    if n < 10 {
        lemma_digit_char_value(n);
        assert(nat_digits(n).drop_last() =~= Seq::<char>::empty());
        assert(digits_value(Seq::<char>::empty()) == 0);
        assert(nat_digits(n).last() == digit_char(n));
    } else {
        lemma_nat_digits(n / 10);
        lemma_digit_char_value(n % 10);
        let s = nat_digits(n);
        let pre = nat_digits(n / 10);
        assert(s == pre.push(digit_char(n % 10)));
        assert(s.drop_last() =~= pre);
        assert(s.last() == digit_char(n % 10));
        assert(digits_value(s) == digits_value(pre) * 10 + digit_value(s.last()));
        assert(n == (n / 10) * 10 + n % 10);
        assert forall|i: int| 0 <= i < s.len() implies is_digit(#[trigger] s[i]) by {
            if i < pre.len() {
                assert(s[i] == pre[i]);
            }
        }
    }
}

/// Rendering an integer and reading it back gives the same integer.
pub proof fn lemma_parse_int_decimal(n: int)
    requires
        i64::MIN <= n <= i64::MAX,
    ensures
        parse_int_spec(int_decimal(n)) == Some(n),
{
    if n < 0 {
        lemma_nat_digits((-n) as nat);
        let s = int_decimal(n);
        assert(s.drop_first() =~= nat_digits((-n) as nat));
    } else {
        lemma_nat_digits(n as nat);
        let s = int_decimal(n);
        if s.len() > 0 && s[0] == '-' {
            assert(is_digit(s[0]));
        }
    }
}

proof fn lemma_digits_value_prefix(s: Seq<char>, k: int)
    requires
        0 <= k <= s.len(),
    ensures
        digits_value(s.subrange(0, k)) <= digits_value(s),
    decreases s.len(),
{
    if k < s.len() {
        lemma_digits_value_prefix(s.drop_last(), k);
        assert(s.drop_last().subrange(0, k) =~= s.subrange(0, k));
    } else {
        assert(s.subrange(0, k) =~= s);
    }
}

fn digit_str(d: u64) -> (r: &'static str)
    requires
        d < 10,
    ensures
        r@ == seq![digit_char(d as nat)],
{
    proof {
        reveal_strlit("0");
        reveal_strlit("1");
        reveal_strlit("2");
        reveal_strlit("3");
        reveal_strlit("4");
        reveal_strlit("5");
        reveal_strlit("6");
        reveal_strlit("7");
        reveal_strlit("8");
        reveal_strlit("9");
    }
    if d == 0 { "0" }
    else if d == 1 { "1" }
    else if d == 2 { "2" }
    else if d == 3 { "3" }
    else if d == 4 { "4" }
    else if d == 5 { "5" }
    else if d == 6 { "6" }
    else if d == 7 { "7" }
    else if d == 8 { "8" }
    else { "9" }
}

/// Appends the decimal digits of `n` to `out`.
pub fn push_digits(out: &mut String, n: u64)
    ensures
        final(out)@ == old(out)@ + nat_digits(n as nat),
    decreases n,
{
    if n >= 10 {
        push_digits(out, n / 10);
    }
    out.append(digit_str(n % 10));
    proof {
        if n >= 10 {
            assert(nat_digits(n as nat) == nat_digits((n / 10) as nat).push(digit_char((n % 10) as nat)));
        }
    }
}

/// Appends the decimal rendering of `n` to `out`.
pub fn push_int(out: &mut String, n: i64)
    ensures
        final(out)@ == old(out)@ + int_decimal(n as int),
{
    if n < 0 {
        proof {
            reveal_strlit("-");
        }
        out.append("-");
        let mag: u64 = (0i128 - n as i128) as u64;
        push_digits(out, mag);
    } else {
        push_digits(out, n as u64);
    }
}

/// The decimal rendering of `n`.
pub fn format_int(n: i64) -> (r: String)
    ensures
        r@ == int_decimal(n as int),
{
    let mut out = String::new();
    push_int(&mut out, n);
    out
}

fn char_digit(c: char) -> (r: Option<u64>)
    ensures
        r.is_some() == is_digit(c),
        r.is_some() ==> r.unwrap() == digit_value(c) && r.unwrap() < 10,
{
    if c == '0' { Some(0) }
    else if c == '1' { Some(1) }
    else if c == '2' { Some(2) }
    else if c == '3' { Some(3) }
    else if c == '4' { Some(4) }
    else if c == '5' { Some(5) }
    else if c == '6' { Some(6) }
    else if c == '7' { Some(7) }
    else if c == '8' { Some(8) }
    else if c == '9' { Some(9) }
    else { None }
}

/// Reads a decimal integer: an optional `-` and one or more digits, in the
/// range of `i64`.
pub fn parse_int(s: &str) -> (r: Option<i64>)
    ensures
        r.is_some() == parse_int_spec(s@).is_some(),
        r.is_some() ==> r.unwrap() as int == parse_int_spec(s@).unwrap(),
{
    let len = s.unicode_len();
    let neg = len > 0 && s.get_char(0) == '-';
    let start: usize = if neg { 1 } else { 0 };
    let ghost body = if neg { s@.drop_first() } else { s@ };
    let limit: u64 = if neg { 9223372036854775808u64 } else { 9223372036854775807u64 };
    if start >= len {
        return None;
    }
    let mut acc: u64 = 0;
    let mut i: usize = start;
    while i < len
        invariant
            start <= i <= len,
            len == s@.len(),
            start == (if neg { 1int } else { 0int }),
            body == s@.subrange(start as int, len as int),
            all_digits(body.subrange(0, i - start)),
            acc == digits_value(body.subrange(0, i - start)),
            acc <= limit,
            limit == (if neg { 9223372036854775808u64 } else { 9223372036854775807u64 }),
            neg == (s@.len() > 0 && s@[0] == '-'),
        decreases len - i,
    {
        let c = s.get_char(i);
        let d = char_digit(c);
        let ghost pre = body.subrange(0, i - start);
        let ghost next = body.subrange(0, i + 1 - start);
        assert(next.drop_last() =~= pre);
        assert(next.last() == c);
        match d {
            None => {
                proof {
                    assert(!all_digits(body)) by {
                        assert(body[i - start] == c);
                    }
                }
                return None;
            },
            Some(dv) => {
                if acc > (limit - dv) / 10 {
                    proof {
                        assert(digits_value(next) == acc * 10 + dv);
                        assert(digits_value(next) > limit) by (nonlinear_arith)
                            requires acc > (limit - dv) / 10, dv < 10, digits_value(next) == acc * 10 + dv;
                        lemma_digits_value_prefix(body, i + 1 - start);
                        assert(digits_value(body) > limit);
                        let sneg = s@.len() > 0 && s@[0] == '-';
                        assert(sneg == neg);
                        let sbody = if sneg { s@.drop_first() } else { s@ };
                        assert(sbody == body);
                        let v: int = if sneg { -(digits_value(sbody) as int) } else { digits_value(sbody) as int };
                        assert(!(i64::MIN <= v <= i64::MAX));
                        assert(parse_int_spec(s@).is_none());
                    }
                    return None;
                }
                assert(acc * 10 + dv <= limit) by (nonlinear_arith)
                    requires acc <= (limit - dv) / 10, dv < 10, dv <= limit;
                acc = acc * 10 + dv;
                proof {
                    assert forall|j: int| 0 <= j < next.len() implies is_digit(#[trigger] next[j]) by {
                        if j < pre.len() {
                            assert(next[j] == pre[j]);
                        }
                    }
                }
                i = i + 1;
            },
        }
    }
    assert(body.subrange(0, len - start) =~= body);
    if neg {
        Some((0i128 - acc as i128) as i64)
    } else {
        Some(acc as i64)
    }
}

/// `p` occurs in `s` as a contiguous run.
pub open spec fn contains_seq(s: Seq<char>, p: Seq<char>) -> bool {
    exists|i: int| 0 <= i && i + p.len() <= s.len() && #[trigger] s.subrange(i, i + p.len()) == p
}

/// `s` ends with `p`.
pub open spec fn ends_with_seq(s: Seq<char>, p: Seq<char>) -> bool {
    p.len() <= s.len() && s.subrange(s.len() - p.len(), s.len() as int) == p
}

fn matches_at(s: &str, slen: usize, p: &str, plen: usize, at: usize) -> (r: bool)
    requires
        slen == s@.len(),
        plen == p@.len(),
        at + plen <= slen,
    ensures
        r == (s@.subrange(at as int, at + plen) == p@),
{
    let mut j: usize = 0;
    while j < plen
        invariant
            slen == s@.len(),
            plen == p@.len(),
            at + plen <= slen,
            j <= plen,
            s@.subrange(at as int, at + j) =~= p@.subrange(0, j as int),
        decreases plen - j,
    {
        if s.get_char(at + j) != p.get_char(j) {
            assert(s@.subrange(at as int, at + plen)[j as int] != p@[j as int]);
            return false;
        }
        j = j + 1;
        assert(s@.subrange(at as int, at + j) =~= p@.subrange(0, j as int));
    }
    assert(p@.subrange(0, plen as int) =~= p@);
    true
}

/// Whether `p` occurs in `s`.
pub fn contains_text(s: &str, p: &str) -> (r: bool)
    ensures
        r == contains_seq(s@, p@),
{
    let slen = s.unicode_len();
    let plen = p.unicode_len();
    if plen > slen {
        return false;
    }
    let mut i: usize = 0;
    loop
        invariant
            slen == s@.len(),
            plen == p@.len(),
            plen <= slen,
            i <= slen - plen,
            forall|k: int| 0 <= k < i ==> #[trigger] s@.subrange(k, k + plen) != p@,
        decreases slen - plen - i,
    {
        if matches_at(s, slen, p, plen, i) {
            return true;
        }
        if i == slen - plen {
            return false;
        }
        i = i + 1;
    }
}

/// Whether `s` ends with `p`.
pub fn ends_with_text(s: &str, p: &str) -> (r: bool)
    ensures
        r == ends_with_seq(s@, p@),
{
    let slen = s.unicode_len();
    let plen = p.unicode_len();
    if plen > slen {
        return false;
    }
    matches_at(s, slen, p, plen, slen - plen)
}

/// Whether `s` begins with `p`.
pub fn starts_with_text(s: &str, p: &str) -> (r: bool)
    ensures
        r == (p@.len() <= s@.len() && s@.subrange(0, p@.len() as int) == p@),
{
    let slen = s.unicode_len();
    let plen = p.unicode_len();
    if plen > slen {
        return false;
    }
    matches_at(s, slen, p, plen, 0)
}

/// Whether `s` and `p` hold the same text.
pub fn text_equals(s: &str, p: &str) -> (r: bool)
    ensures
        r == (s@ == p@),
{
    let slen = s.unicode_len();
    let plen = p.unicode_len();
    if plen != slen {
        return false;
    }
    let same = matches_at(s, slen, p, plen, 0);
    assert(s@.subrange(0, slen as int) =~= s@);
    same
}

/// What `str::to_lowercase` makes of a text.
pub uninterp spec fn lower_of(s: Seq<char>) -> Seq<char>;

/// Relies on `str::to_lowercase`: the lower-case form of a text depends on
/// its characters alone.
#[verifier::external_body]
pub(crate) fn lowercase(s: &str) -> (r: String)
    ensures
        r@ == lower_of(s@),
{
    s.to_lowercase()
}

} // verus!
