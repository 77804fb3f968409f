//! Decimal text: formatting and parsing of integers as strings of ASCII digits.

use vstd::prelude::*;

verus! {

/// The ASCII digit for `d`, where `0 <= d < 10`.
pub open spec fn digit_char(d: int) -> char {
    (d + 48) as char
}

/// The decimal representation of `n`, most significant digit first, without
/// leading zeros (zero is written "0").
pub open spec fn decimal(n: nat) -> Seq<char>
    decreases n,
{
    if n < 10 {
        seq![digit_char(n as int)]
    } else {
        decimal(n / 10).push(digit_char((n % 10) as int))
    }
}

/// `v` written with an explicit sign: "+" for zero and positive values, "-"
/// for negative ones, followed by the decimal digits of its magnitude.
pub open spec fn signed_decimal(v: int) -> Seq<char> {
    if v < 0 {
        seq!['-'] + decimal((-v) as nat)
    } else {
        seq!['+'] + decimal(v as nat)
    }
}

/// `v` in decimal, with a leading "-" when negative.
pub open spec fn int_decimal(v: int) -> Seq<char> {
    if v < 0 {
        seq!['-'] + decimal((-v) as nat)
    } else {
        decimal(v as nat)
    }
}

/// Appends `c` to `s` with `String::push`. The contract claims that the
/// characters of `s` become the old ones followed by `c`.
#[verifier::external_body]
pub(crate) fn push_char(s: &mut String, c: char)
    ensures
        final(s)@ == old(s)@.push(c),
{
    s.push(c)
}

/// The ASCII digit for `d`.
pub fn digit_to_char(d: u32) -> (c: char)
    requires
        d < 10,
    ensures
        c == digit_char(d as int),
{
    ((d as u8) + 48) as char
}

/// Appends the decimal representation of `n` to `out`.
pub fn push_decimal(out: &mut String, n: u32)
    ensures
        final(out)@ == old(out)@ + decimal(n as nat),
    decreases n,
{
    if n >= 10 {
        push_decimal(out, n / 10);
    }
    let d: u32 = n % 10;
    push_char(out, digit_to_char(d));
}

/// The characters of `s`, in order.
pub fn chars_of(s: &str) -> (v: Vec<char>)
    ensures
        v@ == s@,
{
    let mut v: Vec<char> = Vec::new();
    for c in it: s.chars()
        invariant
            v@ == it.seq().take(it.index() as int),
    {
        v.push(c);
    }
    v
}

/// The magnitude of `v`.
pub fn magnitude(v: i32) -> (m: u32)
    ensures
        m as int == if v < 0 {
            -v
        } else {
            v as int
        },
{
    if v < 0 {
        (0i64 - (v as i64)) as u32
    } else {
        v as u32
    }
}

/// Appends `v` in decimal, with a leading "-" when negative.
pub fn push_int(out: &mut String, v: i32)
    ensures
        final(out)@ == old(out)@ + int_decimal(v as int),
{
    if v < 0 {
        push_char(out, '-');
    }
    push_decimal(out, magnitude(v));
}

/// Appends `v` with an explicit sign ("+" for zero and positive values).
pub fn push_signed(out: &mut String, v: i32)
    ensures
        final(out)@ == old(out)@ + signed_decimal(v as int),
{
    if v < 0 {
        push_char(out, '-');
    } else {
        push_char(out, '+');
    }
    push_decimal(out, magnitude(v));
}

/// `n` in decimal.
pub fn u32_text(n: u32) -> (s: String)
    ensures
        s@ == decimal(n as nat),
{
    let mut s = String::new();
    push_decimal(&mut s, n);
    s
}

/// `v` in decimal, with a leading "-" when negative.
pub fn i32_text(v: i32) -> (s: String)
    ensures
        s@ == int_decimal(v as int),
{
    let mut s = String::new();
    push_int(&mut s, v);
    s
}

/// `v` with an explicit sign ("+" for zero and positive values).
pub fn signed_text(v: i32) -> (s: String)
    ensures
        s@ == signed_decimal(v as int),
{
    let mut s = String::new();
    push_signed(&mut s, v);
    s
}

/// True for the ASCII digits '0' through '9'.
pub open spec fn is_digit(c: char) -> bool {
    '0' <= c && c <= '9'
}

/// The numeric value of an ASCII digit.
pub open spec fn digit_value(c: char) -> int {
    c as int - 48
}

/// True when every character of `s` is an ASCII digit.
pub open spec fn all_digits(s: Seq<char>) -> bool {
    forall|i: int| 0 <= i < s.len() ==> is_digit(#[trigger] s[i])
}

/// The number that the digit string `s` denotes (most significant digit
/// first; the empty string denotes zero).
pub open spec fn digits_value(s: Seq<char>) -> nat
    decreases s.len(),
{
    if s.len() == 0 {
        0
    } else {
        (digits_value(s.drop_last()) * 10 + digit_value(s.last())) as nat
    }
}

/// What `str::parse::<u32>` gives for `s`: an optional leading '+' (only
/// when more follows), then one or more ASCII digits whose value fits in a
/// `u32`; anything else is rejected.
pub open spec fn parse_u32_spec(s: Seq<char>) -> Option<u32> {
    let digits = if s.len() > 1 && s[0] == '+' {
        s.drop_first()
    } else {
        s
    };
    if digits.len() > 0 && all_digits(digits) && digits_value(digits) <= u32::MAX {
        Some(digits_value(digits) as u32)
    } else {
        None
    }
}

/// A digit string is worth at least as much as each of its prefixes.
pub proof fn lemma_digits_prefix_le(s: Seq<char>, k: int)
    requires
        all_digits(s),
        0 <= k <= s.len(),
    ensures
        digits_value(s.take(k)) <= digits_value(s),
    decreases s.len(),
{
    if k < s.len() {
        assert(s.drop_last().take(k) =~= s.take(k));
        lemma_digits_prefix_le(s.drop_last(), k);
    } else {
        assert(s.take(k) =~= s);
    }
}

/// Parses the characters `v[lo..hi]` as `str::parse::<u32>` does.
pub fn parse_u32_chars(v: &Vec<char>, lo: usize, hi: usize) -> (r: Option<u32>)
    requires
        lo <= hi <= v.len(),
    ensures
        r == parse_u32_spec(v@.subrange(lo as int, hi as int)),
{
    let ghost s = v@.subrange(lo as int, hi as int);
    let mut start: usize = lo;
    if hi - lo > 1 && v[lo] == '+' {
        start = lo + 1;
    }
    let ghost digits = v@.subrange(start as int, hi as int);
    if start == hi {
        return None;
    }
    let mut acc: u32 = 0;
    let mut i: usize = start;
    while i < hi
        invariant
            lo <= start <= i <= hi <= v.len(),
            digits == v@.subrange(start as int, hi as int),
            s == v@.subrange(lo as int, hi as int),
            digits == (if s.len() > 1 && s[0] == '+' { s.drop_first() } else { s }),
            all_digits(digits.take(i - start)),
            acc == digits_value(digits.take(i - start)),
        decreases hi - i,
    {
        let c: char = v[i];
        assert(c == digits[i - start]);
        if !('0' <= c && c <= '9') {
            return None;
        }
        let d: u32 = (c as u32) - 48;
        let ghost next = digits.take(i - start + 1);
        assert(next.drop_last() =~= digits.take(i - start));
        if acc > (u32::MAX - d) / 10 {
            proof {
                if all_digits(digits) {
                    lemma_digits_prefix_le(digits, i - start + 1);
                }
            }
            return None;
        }
        acc = acc * 10 + d;
        i = i + 1;
    }
    assert(digits.take(hi - start) =~= digits);
    Some(acc)
}

/// The decimal text of `n` is a non-empty string of digits that denotes `n`.
pub proof fn lemma_decimal_digits(n: nat)
    ensures
        decimal(n).len() >= 1,
        all_digits(decimal(n)),
        digits_value(decimal(n)) == n,
    decreases n,
{
    let d0 = (n % 10) as int;
    let d = decimal(n);
    if n >= 10 {
        lemma_decimal_digits(n / 10);
        assert(d.drop_last() =~= decimal(n / 10));
        assert(n == (n / 10) * 10 + n % 10) by (nonlinear_arith);
    } else {
        assert(digits_value(d.drop_last()) == 0);
    }
}

/// Reading back the decimal text of a `u32` gives the same number.
pub proof fn lemma_parse_decimal(n: u32)
    ensures
        parse_u32_spec(decimal(n as nat)) == Some(n),
{
    lemma_decimal_digits(n as nat);
}

} // verus!
