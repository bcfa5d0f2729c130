//! Decimal reading and writing of unsigned integers.
use vstd::prelude::*;

verus! {

/// Whether `c` is one of the ASCII digits `0`..=`9`.
pub open spec fn is_digit(c: char) -> bool {
    '0' <= c && c <= '9'
}

/// The numeric value of an ASCII digit.
pub open spec fn digit_value(c: char) -> nat {
    (c as u32 - '0' as u32) as nat
}

/// The ASCII digit for a value below ten.
pub open spec fn digit_char(d: nat) -> char {
    ((d + '0' as u32) as u32) as char
}

/// The kinds of failure that can occur when reading a decimal integer.
#[derive(Debug, Clone, Copy, PartialEq, Eq, Structural)]
pub enum IntErrorKind {
    /// The input was empty.
    Empty,
    /// The input holds a character that is not a digit where a digit was
    /// expected, or a sign with no digits after it.
    InvalidDigit,
    /// The value does not fit in the target integer type.
    PosOverflow,
}

/// Reads the digits in `s` from left to right, stopping at the first
/// character that is not a digit or at the first digit that makes the value
/// exceed `max`.
pub open spec fn scan_digits(s: Seq<char>, max: nat) -> Result<nat, IntErrorKind>
    decreases s.len(),
{
    if s.len() == 0 {
        Ok(0)
    } else {
        match scan_digits(s.drop_last(), max) {
            Err(e) => Err(e),
            Ok(v) => {
                if !is_digit(s.last()) {
                    Err(IntErrorKind::InvalidDigit)
                } else if v * 10 + digit_value(s.last()) > max {
                    Err(IntErrorKind::PosOverflow)
                } else {
                    Ok(v * 10 + digit_value(s.last()))
                }
            },
        }
    }
}

/// How an unsigned integer no larger than `max` is read from text: an
/// optional leading `+` followed by at least one decimal digit.
pub open spec fn parse_unsigned(s: Seq<char>, max: nat) -> Result<nat, IntErrorKind> {
    if s.len() == 0 {
        Err(IntErrorKind::Empty)
    } else if s.len() == 1 && (s[0] == '+' || s[0] == '-') {
        Err(IntErrorKind::InvalidDigit)
    } else if s[0] == '+' {
        scan_digits(s.drop_first(), max)
    } else {
        scan_digits(s, max)
    }
}

/// The decimal representation of `n`, without leading zeros.
pub open spec fn decimal(n: nat) -> Seq<char>
    decreases n,
{
    if n < 10 {
        seq![digit_char(n)]
    } else {
        decimal(n / 10).push(digit_char(n % 10))
    }
}

proof fn lemma_scan_bounded(s: Seq<char>, max: nat)
    ensures
        scan_digits(s, max) matches Ok(v) ==> v <= max,
    decreases s.len(),
{
    if s.len() > 0 {
        lemma_scan_bounded(s.drop_last(), max);
    }
}

fn scan_digits_exec(s: &[char], start: usize, max: u64) -> (r: Result<u64, IntErrorKind>)
    requires
        start <= s@.len(),
    ensures
        match scan_digits(s@.subrange(start as int, s@.len() as int), max as nat) {
            Ok(v) => r == Ok::<u64, IntErrorKind>(v as u64),
            Err(e) => r == Err::<u64, IntErrorKind>(e),
        },
{
    let ghost t = s@.subrange(start as int, s@.len() as int);
    let mut acc: u64 = 0;
    let mut i: usize = start;
    while i < s.len()
        invariant
            start <= i <= s@.len(),
            t == s@.subrange(start as int, s@.len() as int),
            scan_digits(t.take(i - start), max as nat) == Ok::<nat, IntErrorKind>(acc as nat),
        decreases s@.len() - i,
    {
        let c = s[i];
        proof {
            assert(t.take(i - start + 1).drop_last() == t.take(i - start));
            assert(t.take(i - start + 1).last() == c);
        }
        if !('0' <= c && c <= '9') {
            proof { lemma_scan_prefix_err(t, (i - start + 1) as nat, max as nat); }
            return Err(IntErrorKind::InvalidDigit);
        }
        let d: u64 = ((c as u32) - ('0' as u32)) as u64;
        let next: u128 = (acc as u128) * 10 + (d as u128);
        if next > max as u128 {
            proof { lemma_scan_prefix_err(t, (i - start + 1) as nat, max as nat); }
            return Err(IntErrorKind::PosOverflow);
        }
        acc = next as u64;
        i += 1;
    }
    proof { assert(t.take(t.len() as int) == t); }
    Ok(acc)
}

/// Once a prefix fails to read, every longer prefix fails the same way.
proof fn lemma_scan_prefix_err(t: Seq<char>, k: nat, max: nat)
    requires
        k <= t.len(),
        scan_digits(t.take(k as int), max) is Err,
    ensures
        scan_digits(t, max) == scan_digits(t.take(k as int), max),
    decreases t.len() - k,
{
    if k < t.len() {
        assert(t.take(k as int + 1).drop_last() == t.take(k as int));
        lemma_scan_prefix_err(t, k + 1, max);
    } else {
        assert(t.take(k as int) == t);
    }
}

/// Reads an unsigned integer no larger than `max` from `s`, as `str::parse`
/// does for the unsigned integer types.
pub fn parse_unsigned_exec(s: &[char], max: u64) -> (r: Result<u64, IntErrorKind>)
    ensures
        match parse_unsigned(s@, max as nat) {
            Ok(v) => r == Ok::<u64, IntErrorKind>(v as u64),
            Err(e) => r == Err::<u64, IntErrorKind>(e),
        },
        r matches Ok(v) ==> v <= max,
{
    proof {
        lemma_scan_bounded(s@, max as nat);
        if s@.len() > 0 { lemma_scan_bounded(s@.drop_first(), max as nat); }
        assert(s@.subrange(0, s@.len() as int) == s@);
        if s@.len() > 0 { assert(s@.subrange(1, s@.len() as int) == s@.drop_first()); }
    }
    if s.len() == 0 {
        return Err(IntErrorKind::Empty);
    }
    if s.len() == 1 && (s[0] == '+' || s[0] == '-') {
        return Err(IntErrorKind::InvalidDigit);
    }
    if s[0] == '+' {
        scan_digits_exec(s, 1, max)
    } else {
        scan_digits_exec(s, 0, max)
    }
}

/// The ASCII digit for `d`.
fn digit_char_exec(d: u64) -> (c: char)
    requires
        d < 10,
    ensures
        c == digit_char(d as nat),
{
    let code: u8 = (d as u8) + 48u8;
    code as char
}

/// Appends the decimal representation of `n` to `out`.
pub fn push_decimal(out: &mut Vec<char>, n: u64)
    ensures
        final(out)@ == old(out)@ + decimal(n as nat),
    decreases n,
{
    if n >= 10 {
        push_decimal(out, n / 10);
    }
    let c = digit_char_exec(n % 10);
    out.push(c);
    proof {
        if n >= 10 {
            assert(old(out)@ + decimal(n as nat) == (old(out)@ + decimal((n / 10) as nat)).push(c));
        } else {
            assert(old(out)@ + decimal(n as nat) == old(out)@.push(c));
        }
    }
}

/// Writing a number in decimal and reading it back gives the number.
pub proof fn lemma_decimal_roundtrip(n: nat, max: nat)
    requires
        n <= max,
    ensures
        parse_unsigned(decimal(n), max) == Ok::<nat, IntErrorKind>(n),
    decreases n,
{
    lemma_scan_decimal(n, max);
    let s = decimal(n);
    assert(s.len() >= 1);
    assert(is_digit(s[0])) by { lemma_decimal_digits(n); }
}

pub proof fn lemma_decimal_digits(n: nat)
    ensures
        forall|i: int| 0 <= i < decimal(n).len() ==> is_digit(#[trigger] decimal(n)[i]),
        decimal(n).len() >= 1,
    decreases n,
{
    if n >= 10 {
        lemma_decimal_digits(n / 10);
    }
}

proof fn lemma_scan_decimal(n: nat, max: nat)
    requires
        n <= max,
    ensures
        scan_digits(decimal(n), max) == Ok::<nat, IntErrorKind>(n),
    decreases n,
{
    if n < 10 {
        let s = decimal(n);
        assert(s.drop_last() =~= Seq::<char>::empty());
        assert(scan_digits(s.drop_last(), max) == Ok::<nat, IntErrorKind>(0));
    } else {
        lemma_scan_decimal(n / 10, max);
        let s = decimal(n);
        assert(s.drop_last() == decimal(n / 10));
        assert((n / 10) * 10 + n % 10 == n);
    }
}

}
