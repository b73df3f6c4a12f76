//! Text helpers: exact comparison, suffix tests and decimal numbers.
use vstd::prelude::*;

verus! {

/// The value of a non-empty run of decimal digits.
pub open spec fn digits_value(s: Seq<char>) -> int
    decreases s.len(),
{
    if s.len() == 0 {
        0
    } else {
        digits_value(s.drop_last()) * 10 + (s.last() as int - '0' as int)
    }
}

pub open spec fn is_digit(c: char) -> bool {
    '0' <= c && c <= '9'
}

/// A non-empty sequence of decimal digits.
pub open spec fn all_digits(s: Seq<char>) -> bool {
    s.len() > 0 && forall|i: int| 0 <= i < s.len() ==> is_digit(#[trigger] s[i])
}

/// The digits of an unsigned decimal: an optional leading `+`, then the digits.
pub open spec fn unsigned_body(s: Seq<char>) -> Seq<char> {
    if s.len() > 0 && s[0] == '+' {
        s.skip(1)
    } else {
        s
    }
}

/// The value of an unsigned decimal text, if it is one.
pub open spec fn unsigned_text(s: Seq<char>) -> Option<int> {
    if all_digits(unsigned_body(s)) {
        Some(digits_value(unsigned_body(s)))
    } else {
        None
    }
}

/// The value of a signed decimal text: an optional `+` or `-`, then digits.
pub open spec fn signed_text(s: Seq<char>) -> Option<int> {
    if s.len() > 0 && s[0] == '-' {
        if all_digits(s.skip(1)) {
            Some(-digits_value(s.skip(1)))
        } else {
            None
        }
    } else {
        unsigned_text(s)
    }
}

pub open spec fn has_suffix(s: Seq<char>, suffix: Seq<char>) -> bool {
    suffix.len() <= s.len() && s.subrange(s.len() - suffix.len(), s.len() as int) == suffix
}

/// Whether two texts hold the same characters.
pub fn same_text(a: &str, b: &str) -> (r: bool)
    ensures
        r == (a@ == b@),
{
    let n = a.unicode_len();
    let m = b.unicode_len();
    if n != m {
        return false;
    }
    let mut i: usize = 0;
    while i < n
        invariant
            n == a@.len(),
            m == b@.len(),
            n == m,
            i <= n,
            forall|j: int| 0 <= j < i ==> a@[j] == b@[j],
        decreases n - i,
    {
        if a.get_char(i) != b.get_char(i) {
            return false;
        }
        i = i + 1;
    }
    assert(a@ =~= b@);
    true
}

/// Whether `s` ends with `suffix`.
pub fn ends_with_text(s: &str, suffix: &str) -> (r: bool)
    ensures
        r == has_suffix(s@, suffix@),
{
    let n = s.unicode_len();
    let m = suffix.unicode_len();
    if m > n {
        return false;
    }
    let start = n - m;
    let mut i: usize = 0;
    while i < m
        invariant
            n == s@.len(),
            m == suffix@.len(),
            m <= n,
            start == n - m,
            i <= m,
            forall|j: int| 0 <= j < i ==> s@[start + j] == suffix@[j],
        decreases m - i,
    {
        if s.get_char(start + i) != suffix.get_char(i) {
            assert(s@.subrange(start as int, n as int)[i as int] != suffix@[i as int]);
            return false;
        }
        i = i + 1;
    }
    assert(s@.subrange(start as int, n as int) =~= suffix@);
    true
}

proof fn lemma_digits_value_nonneg(s: Seq<char>)
    requires
        forall|i: int| 0 <= i < s.len() ==> is_digit(#[trigger] s[i]),
    ensures
        digits_value(s) >= 0,
    decreases s.len(),
{
    if s.len() > 0 {
        lemma_digits_value_nonneg(s.drop_last());
    }
}

/// Reads the digits of `s` from position `start` on, as a number of at most `limit`.
fn digits_from(s: &str, start: usize, limit: u64) -> (r: Option<u64>)
    requires
        start <= s@.len(),
    ensures
        r is Some <==> (all_digits(s@.skip(start as int)) && digits_value(s@.skip(start as int))
            <= limit),
        r is Some ==> r->0 == digits_value(s@.skip(start as int)),
{
    let n = s.unicode_len();
    if start == n {
        return None;
    }
    let ghost body = s@.skip(start as int);
    let mut acc: u64 = 0;
    let mut i: usize = start;
    while i < n
        invariant
            n == s@.len(),
            start < n,
            start <= i <= n,
            body == s@.skip(start as int),
            forall|j: int| 0 <= j < i - start ==> is_digit(#[trigger] body[j]),
            acc == digits_value(body.subrange(0, i - start)),
            acc <= limit,
        decreases n - i,
    {
        let c = s.get_char(i);
        if !('0' <= c && c <= '9') {
            assert(!is_digit(body[i - start]));
            return None;
        }
        let d: u64 = (c as u32 - '0' as u32) as u64;
        assert(body.subrange(0, i + 1 - start).drop_last() =~= body.subrange(0, i - start));
        assert(body.subrange(0, i + 1 - start).last() == c);
        if d > limit || acc > (limit - d) / 10 {
            proof {
                if d <= limit {
                    let x = (limit - d) as int;
                    assert(acc as int * 10 > x) by (nonlinear_arith)
                        requires acc as int > x / 10, x >= 0;
                }
                let pre = body.subrange(0, i + 1 - start);
                assert(digits_value(pre) > limit);
                assert forall|k: int| 0 <= k < body.len() - pre.len() implies is_digit(
                    #[trigger] body.skip(pre.len() as int)[k],
                ) || !all_digits(body) by {
                    if all_digits(body) {
                        assert(is_digit(body[pre.len() + k]));
                    }
                }
                lemma_prefix_grows(body, (i + 1 - start) as int, limit as int);
            }
            return None;
        }
        proof {
            let x = (limit - d) as int;
            assert(acc as int * 10 <= x) by (nonlinear_arith)
                requires acc as int <= x / 10, x >= 0;
        }
        acc = acc * 10 + d;
        i = i + 1;
    }
    assert(body.subrange(0, n - start) =~= body);
    Some(acc)
}

/// Once a prefix of digits exceeds a bound, the whole run of digits does too.
proof fn lemma_prefix_grows(body: Seq<char>, k: int, bound: int)
    requires
        0 < k <= body.len(),
        bound >= 0,
        digits_value(body.subrange(0, k)) > bound,
        forall|j: int| 0 <= j < k ==> is_digit(#[trigger] body[j]),
    ensures
        all_digits(body) ==> digits_value(body) > bound,
    decreases body.len() - k,
{
    if k < body.len() && all_digits(body) {
        let a = body.subrange(0, k + 1);
        assert(a.drop_last() =~= body.subrange(0, k));
        assert(is_digit(body[k]));
        lemma_prefix_grows(body, k + 1, bound);
    } else if k == body.len() {
        assert(body.subrange(0, k) =~= body);
    }
}

/// Parses an unsigned decimal (optional `+`, then digits) of at most `limit`.
pub fn parse_unsigned(s: &str, limit: u64) -> (r: Option<u64>)
    ensures
        r is Some <==> (unsigned_text(s@) is Some && unsigned_text(s@)->0 <= limit),
        r is Some ==> r->0 == unsigned_text(s@)->0,
{
    let n = s.unicode_len();
    let start: usize = if n > 0 && s.get_char(0) == '+' { 1 } else { 0 };
    assert(unsigned_body(s@) =~= s@.skip(start as int));
    digits_from(s, start, limit)
}

/// Parses a signed decimal that fits in an `i64`.
pub fn parse_signed(s: &str) -> (r: Option<i64>)
    ensures
        r is Some <==> (signed_text(s@) is Some && i64::MIN <= signed_text(s@)->0 <= i64::MAX),
        r is Some ==> r->0 == signed_text(s@)->0,
{
    let n = s.unicode_len();
    if n > 0 && s.get_char(0) == '-' {
        let m = digits_from(s, 1, 0x8000_0000_0000_0000u64);
        match m {
            Some(v) => {
                if v == 0x8000_0000_0000_0000u64 {
                    Some(i64::MIN)
                } else {
                    Some(-(v as i64))
                }
            },
            None => {
                proof {
                    if all_digits(s@.skip(1)) {
                        lemma_digits_value_nonneg(s@.skip(1));
                    }
                }
                None
            },
        }
    } else {
        let m = parse_unsigned(s, 0x7fff_ffff_ffff_ffffu64);
        proof {
            if unsigned_text(s@) is Some {
                lemma_digits_value_nonneg(unsigned_body(s@));
            }
        }
        match m {
            Some(v) => Some(v as i64),
            None => None,
        }
    }
}

} // verus!
