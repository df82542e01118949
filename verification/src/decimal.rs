use vstd::prelude::*;
use vstd::string::StrSliceExecFns;
use crate::strutil::{push_char, rev_seq, lemma_rev_push};

verus! {

/// Decimal rendering and parsing of `i64` values, the number format of both
/// the persisted credential record and the request bodies.

pub open spec fn is_digit(c: char) -> bool {
    '0' <= c && c <= '9'
}

pub open spec fn digit_val(c: char) -> int {
    c as int - '0' as int
}

pub open spec fn digit_char(d: int) -> char {
    if d == 0 { '0' }
    else if d == 1 { '1' }
    else if d == 2 { '2' }
    else if d == 3 { '3' }
    else if d == 4 { '4' }
    else if d == 5 { '5' }
    else if d == 6 { '6' }
    else if d == 7 { '7' }
    else if d == 8 { '8' }
    else { '9' }
}

fn digit_char_of(d: u64) -> (c: char)
    requires
        d < 10,
    ensures
        c == digit_char(d as int),
{
    if d == 0 { '0' }
    else if d == 1 { '1' }
    else if d == 2 { '2' }
    else if d == 3 { '3' }
    else if d == 4 { '4' }
    else if d == 5 { '5' }
    else if d == 6 { '6' }
    else if d == 7 { '7' }
    else if d == 8 { '8' }
    else { '9' }
}

fn is_digit_at(s: &str, i: usize) -> (b: bool)
    requires
        i < s@.len(),
    ensures
        b == is_digit(s@[i as int]),
{
    let c = s.get_char(i);
    let code = c as u32;
    48 <= code && code <= 57
}

/// The decimal digits of `n`, most significant first, no sign, no leading
/// zero except for `n == 0` itself.
pub open spec fn dec_digits(n: nat) -> Seq<char>
    decreases n,
{
    if n < 10 {
        seq![digit_char(n as int)]
    } else {
        dec_digits(n / 10).push(digit_char((n % 10) as int))
    }
}

/// The canonical decimal text of an integer, with a leading `-` when negative.
pub open spec fn dec_int(n: int) -> Seq<char> {
    if n < 0 {
        seq!['-'] + dec_digits((-n) as nat)
    } else {
        dec_digits(n as nat)
    }
}

/// The value of a digit string, most significant first.
pub open spec fn digits_val(s: Seq<char>) -> int
    decreases s.len(),
{
    if s.len() == 0 {
        0
    } else {
        digits_val(s.drop_last()) * 10 + digit_val(s.last())
    }
}

pub open spec fn pow10(k: nat) -> nat
    decreases k,
{
    if k == 0 { 1 } else { 10 * pow10((k - 1) as nat) }
}

pub proof fn lemma_pow10_mono(a: nat, b: nat)
    requires
        a <= b,
    ensures
        pow10(a) <= pow10(b),
    decreases b,
{
    if a < b {
        lemma_pow10_mono(a, (b - 1) as nat);
    }
}

/// Every character that `dec_digits` emits is a digit, the text is never
/// empty, and for `n >= 10` it does not start with `0`.
pub proof fn lemma_dec_digits_shape(n: nat)
    ensures
        dec_digits(n).len() >= 1,
        forall|k: int| 0 <= k < dec_digits(n).len() ==> is_digit(#[trigger] dec_digits(n)[k]),
        n >= 10 ==> dec_digits(n)[0] != '0',
        n >= 1 ==> dec_digits(n)[0] != '0',
    decreases n,
{
    if n < 10 {
    } else {
        lemma_dec_digits_shape(n / 10);
    }
}

/// Reading the digits of `n` back gives `n`.
pub proof fn lemma_dec_digits_val(n: nat)
    ensures
        digits_val(dec_digits(n)) == n,
    decreases n,
{
    if n < 10 {
        let s = dec_digits(n);
        assert(s =~= seq![digit_char(n as int)]);
        assert(s.drop_last() =~= Seq::<char>::empty());
        assert(digits_val(s.drop_last()) == 0);
        assert(digits_val(s) == digits_val(s.drop_last()) * 10 + digit_val(s.last()));
        assert(digit_val(digit_char(n as int)) == n);
    } else {
        lemma_dec_digits_val(n / 10);
        let s = dec_digits(n);
        assert(s == dec_digits(n / 10).push(digit_char((n % 10) as int)));
        assert(s.drop_last() =~= dec_digits(n / 10));
        assert(digits_val(s) == digits_val(s.drop_last()) * 10 + digit_val(s.last()));
        assert(s.last() == digit_char((n % 10) as int));
        assert(digit_val(digit_char((n % 10) as int)) == n % 10);
        assert(n / 10 * 10 + n % 10 == n);
    }
}

/// `n` has at most `k` digits when `n < pow10(k)` (for `k >= 1`).
pub proof fn lemma_dec_digits_len(n: nat, k: nat)
    requires
        k >= 1,
        n < pow10(k),
    ensures
        dec_digits(n).len() <= k,
    decreases n,
{
    if n < 10 {
    } else {
        assert(pow10(k) == 10 * pow10((k - 1) as nat));
        lemma_dec_digits_len(n / 10, (k - 1) as nat);
    }
}

/// Where a maximal run of digits that starts at `i` ends.
pub open spec fn digit_run_end(s: Seq<char>, i: int) -> int
    decreases s.len() - i when 0 <= i <= s.len()
{
    if i < s.len() && is_digit(s[i]) {
        digit_run_end(s, i + 1)
    } else {
        i
    }
}

/// If `s[i..j]` are all digits and `j` sits at the end of the text or on a
/// non-digit, then the digit run that starts at `i` ends exactly at `j`.
pub proof fn lemma_digit_run_end_is(s: Seq<char>, i: int, j: int)
    requires
        0 <= i <= j <= s.len(),
        forall|k: int| i <= k < j ==> is_digit(#[trigger] s[k]),
        j == s.len() || !is_digit(s[j]),
    ensures
        digit_run_end(s, i) == j,
    decreases j - i,
{
    if i < j {
        lemma_digit_run_end_is(s, i + 1, j);
    }
}

/// What an `i64` read at position `i` yields: the value and the position just
/// past it, or nothing when the text there is not a well-formed `i64`.
///
/// The accepted shape is an optional `-`, then one to nineteen digits with no
/// leading zero, with the value within `i64` range.
pub open spec fn parse_int_at(s: Seq<char>, i: int) -> Option<(int, int)>
    recommends
        0 <= i <= s.len(),
{
    let neg = i < s.len() && s[i] == '-';
    let j0 = if neg { i + 1 } else { i };
    let j = digit_run_end(s, j0);
    if j == j0 {
        None
    } else if j - j0 > 19 {
        None
    } else if j - j0 > 1 && s[j0] == '0' {
        None
    } else {
        let m = digits_val(s.subrange(j0, j));
        let v: int = if neg { -m } else { m };
        if -0x8000_0000_0000_0000 <= v < 0x8000_0000_0000_0000 {
            Some((v, j))
        } else {
            None
        }
    }
}

/// Renders `n` as decimal text, sign included.
pub fn format_i64(n: i64) -> (s: String)
    ensures
        s@ == dec_int(n as int),
{
    let neg = n < 0;
    let mag: u64 = if n >= 0 {
        n as u64
    } else {
        proof {
            assert(0 <= -(n as int) <= u64::MAX);
        }
        (-(n as i128)) as u64
    };
    let mut rev: Vec<char> = Vec::new();
    let mut m: u64 = mag;
    while m >= 10
        invariant
            dec_digits(mag as nat) =~= dec_digits(m as nat) + rev_seq(rev@),
        decreases m,
    {
        let d = m % 10;
        let c = digit_char_of(d);
        proof {
            lemma_rev_push(rev@, c);
            assert(dec_digits(m as nat) =~= dec_digits((m / 10) as nat).push(digit_char((m % 10) as int)));
            assert(dec_digits((m / 10) as nat).push(c) + rev_seq(rev@)
                =~= dec_digits((m / 10) as nat) + rev_seq(rev@.push(c)));
        }
        rev.push(c);
        m = m / 10;
    }
    let c = digit_char_of(m);
    proof {
        lemma_rev_push(rev@, c);
        assert(seq![c] + rev_seq(rev@) =~= rev_seq(rev@.push(c)));
        assert(dec_digits(mag as nat) =~= rev_seq(rev@.push(c)));
    }
    rev.push(c);
    let ghost sign: Seq<char> = if neg { seq!['-'] } else { Seq::empty() };
    let mut out = String::new();
    if neg {
        push_char(&mut out, '-');
    }
    assert(out@ =~= sign + rev_seq(rev@).subrange(0, 0));
    let rlen = rev.len();
    let mut idx: usize = 0;
    while idx < rlen
        invariant
            rlen == rev.len(),
            0 <= idx <= rlen,
            out@ =~= sign + rev_seq(rev@).subrange(0, idx as int),
            dec_digits(mag as nat) =~= rev_seq(rev@),
        decreases rlen - idx,
    {
        let c = rev[rlen - 1 - idx];
        push_char(&mut out, c);
        proof {
            assert(rev_seq(rev@)[idx as int] == c);
            assert(rev_seq(rev@).subrange(0, idx + 1)
                =~= rev_seq(rev@).subrange(0, idx as int).push(c));
        }
        idx = idx + 1;
    }
    proof {
        assert(rev_seq(rev@).subrange(0, rlen as int) =~= rev_seq(rev@));
        if neg {
            assert(out@ =~= dec_int(n as int));
        } else {
            assert(sign + rev_seq(rev@) =~= rev_seq(rev@));
            assert(out@ =~= dec_int(n as int));
        }
    }
    out
}

/// Reads an `i64` at position `i`, exactly as `parse_int_at` describes.
pub fn parse_i64_at(s: &str, i: usize) -> (r: Option<(i64, usize)>)
    requires
        i <= s@.len(),
    ensures
        r matches Some(p) ==> parse_int_at(s@, i as int) == Some((p.0 as int, p.1 as int)),
        r is None ==> parse_int_at(s@, i as int) is None,
        r matches Some(p) ==> i < p.1 <= s@.len(),
{
    let len = s.unicode_len();
    let mut j0 = i;
    let mut neg = false;
    if i < len && s.get_char(i) == '-' {
        neg = true;
        j0 = i + 1;
    }
    let mut j = j0;
    while j < len && is_digit_at(s, j)
        invariant
            j0 <= j <= len,
            len == s@.len(),
            digit_run_end(s@, j0 as int) == digit_run_end(s@, j as int),
            forall|k: int| j0 <= k < j ==> is_digit(#[trigger] s@[k]),
        decreases len - j,
    {
        proof {
            assert(digit_run_end(s@, j as int) == digit_run_end(s@, j + 1));
        }
        j = j + 1;
    }
    proof {
        assert(digit_run_end(s@, j as int) == j);
    }
    if j == j0 {
        return None;
    }
    if j - j0 > 19 {
        return None;
    }
    if j - j0 > 1 && s.get_char(j0) == '0' {
        return None;
    }
    let ghost run: Seq<char> = s@.subrange(j0 as int, j as int);
    let mut acc: u64 = 0;
    let mut k = j0;
    proof {
        assert(run.subrange(0, 0) =~= Seq::<char>::empty());
        reveal_with_fuel(pow10, 21);
    }
    while k < j
        invariant
            j0 <= k <= j,
            j - j0 <= 19,
            j <= len,
            len == s@.len(),
            run =~= s@.subrange(j0 as int, j as int),
            forall|m: int| j0 <= m < j ==> is_digit(#[trigger] s@[m]),
            acc == digits_val(s@.subrange(j0 as int, k as int)),
            acc < pow10((k - j0) as nat),
        decreases j - k,
    {
        let c = s.get_char(k);
        let d: u64 = ((c as u32) - 48) as u64;
        proof {
            assert(is_digit(s@[k as int]));
            assert(d == digit_val(s@[k as int]));
            assert(pow10((k - j0) as nat) <= pow10(18)) by {
                lemma_pow10_mono((k - j0) as nat, 18);
            }
            reveal_with_fuel(pow10, 21);
            assert(s@.subrange(j0 as int, k + 1).drop_last() =~= s@.subrange(j0 as int, k as int));
            assert(s@.subrange(j0 as int, k + 1).last() == s@[k as int]);
        }
        acc = acc * 10 + d;
        k = k + 1;
    }
    proof {
        reveal_with_fuel(pow10, 21);
        assert(acc == digits_val(run));
    }
    if neg {
        if acc > 0x8000_0000_0000_0000u64 {
            return None;
        }
        let v: i64 = if acc == 0x8000_0000_0000_0000u64 {
            i64::MIN
        } else {
            -(acc as i64)
        };
        Some((v, j))
    } else {
        if acc > 0x7FFF_FFFF_FFFF_FFFFu64 {
            return None;
        }
        Some((acc as i64, j))
    }
}

} // verus!
