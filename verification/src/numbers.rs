//! Decimal rendering and parsing of `u16` values.

use vstd::prelude::*;
use vstd::string::*;

verus! {

/// The character of a decimal digit `d` (`0 <= d < 10`).
pub open spec fn digit_char(d: int) -> char {
    if d == 0 { '0' } else if d == 1 { '1' } else if d == 2 { '2' } else if d == 3 { '3' }
    else if d == 4 { '4' } else if d == 5 { '5' } else if d == 6 { '6' } else if d == 7 { '7' }
    else if d == 8 { '8' } else { '9' }
}

/// The shortest decimal representation of `n`, without sign or leading zeros.
pub open spec fn decimal(n: nat) -> Seq<char>
    decreases n,
{
    if n < 10 {
        seq![digit_char(n as int)]
    } else {
        decimal(n / 10) + seq![digit_char((n % 10) as int)]
    }
}

/// Returns the one-character string of the digit `d`.
fn digit_str(d: u16) -> (r: &'static str)
    requires
        d < 10,
    ensures
        r@ == seq![digit_char(d as int)],
{
    match d {
        0 => { proof { reveal_strlit("0"); } "0" },
        1 => { proof { reveal_strlit("1"); } "1" },
        2 => { proof { reveal_strlit("2"); } "2" },
        3 => { proof { reveal_strlit("3"); } "3" },
        4 => { proof { reveal_strlit("4"); } "4" },
        5 => { proof { reveal_strlit("5"); } "5" },
        6 => { proof { reveal_strlit("6"); } "6" },
        7 => { proof { reveal_strlit("7"); } "7" },
        8 => { proof { reveal_strlit("8"); } "8" },
        _ => { proof { reveal_strlit("9"); } "9" },
    }
}

/// Appends the decimal representation of `n` to `out`.
pub fn push_decimal(out: &mut String, n: u16)
    ensures
        final(out)@ == old(out)@ + decimal(n as nat),
    decreases n,
{
    if n >= 10 {
        push_decimal(out, n / 10);
    }
    let d = digit_str(n % 10);
    out.append(d);
    proof {
        assert(old(out)@ + decimal(n as nat) =~= old(out)@ + (if n >= 10 { decimal((n / 10) as nat) } else { Seq::empty() }) + seq![digit_char((n % 10) as int)]);
    }
}

/// The decimal representation of `n`, as `n.to_string()` writes it.
pub fn u16_to_decimal(n: u16) -> (r: String)
    ensures
        r@ == decimal(n as nat),
{
    let mut s = String::new();
    push_decimal(&mut s, n);
    assert(s@ =~= decimal(n as nat));
    s
}


/// Why a text is not a `u16`, in the order `str::parse::<u16>` checks it.
#[derive(Clone, Copy, Debug, PartialEq, Eq, Structural)]
pub enum IntErrorKind {
    /// The text is empty.
    Empty,
    /// A character is not a decimal digit (or the text is a lone sign).
    InvalidDigit,
    /// The value exceeds `u16::MAX`.
    PosOverflow,
}

/// `c` is one of `0`..`9`.
pub open spec fn is_digit(c: char) -> bool {
    '0' as int <= c as int && c as int <= '9' as int
}

/// The value of the decimal digit `c`.
pub open spec fn digit_value(c: char) -> int {
    c as int - '0' as int
}

/// Reads the digits `d` left to right onto the value `acc`; the first
/// character that is no digit, or the first digit that takes the value past
/// `u16::MAX`, decides the error.
pub open spec fn scan_digits(d: Seq<char>, acc: int) -> Result<int, IntErrorKind>
    decreases d.len(),
{
    if d.len() == 0 {
        Ok(acc)
    } else if !is_digit(d[0]) {
        Err(IntErrorKind::InvalidDigit)
    } else if acc * 10 + digit_value(d[0]) > 65535 {
        Err(IntErrorKind::PosOverflow)
    } else {
        scan_digits(d.drop_first(), acc * 10 + digit_value(d[0]))
    }
}

/// What `s.parse::<u16>()` gives: an optional leading `+`, then one or more
/// decimal digits whose value fits in a `u16`.
pub open spec fn parse_u16_spec(s: Seq<char>) -> Result<int, IntErrorKind> {
    if s.len() == 0 {
        Err(IntErrorKind::Empty)
    } else if s.len() == 1 && (s[0] == '+' || s[0] == '-') {
        Err(IntErrorKind::InvalidDigit)
    } else if s[0] == '+' {
        scan_digits(s.drop_first(), 0)
    } else {
        scan_digits(s, 0)
    }
}

/// Parses `s` as a `u16` in decimal, as `s.parse::<u16>()` does.
pub fn parse_u16(s: &str) -> (r: Result<u16, IntErrorKind>)
    ensures
        match r {
            Ok(n) => parse_u16_spec(s@) == Ok::<int, IntErrorKind>(n as int),
            Err(k) => parse_u16_spec(s@) == Err::<int, IntErrorKind>(k),
        },
{
    let len: usize = s.unicode_len();
    if len == 0 {
        return Err(IntErrorKind::Empty);
    }
    let first = s.get_char(0);
    if len == 1 && (first == '+' || first == '-') {
        return Err(IntErrorKind::InvalidDigit);
    }
    let start: usize = if first == '+' { 1 } else { 0 };
    proof {
        if start == 1 {
            assert(s@.drop_first() =~= s@.subrange(1, len as int));
        } else {
            assert(s@ =~= s@.subrange(0, len as int));
        }
    }
    let mut i: usize = start;
    let mut acc: u32 = 0;
    while i < len
        invariant
            start <= i <= len,
            len == s@.len(),
            acc <= 65535,
            parse_u16_spec(s@) == scan_digits(s@.subrange(i as int, len as int), acc as int),
        decreases len - i,
    {
        let c = s.get_char(i);
        assert(s@.subrange(i as int, len as int)[0] == c);
        if !('0' <= c && c <= '9') {
            return Err(IntErrorKind::InvalidDigit);
        }
        let v: u32 = (c as u32) - ('0' as u32);
        if acc * 10 + v > 65535 {
            return Err(IntErrorKind::PosOverflow);
        }
        assert(s@.subrange(i as int, len as int).drop_first() =~= s@.subrange(i + 1, len as int));
        acc = acc * 10 + v;
        i = i + 1;
    }
    assert(s@.subrange(i as int, len as int).len() == 0);
    Ok(acc as u16)
}

/// Reading `a + b` is reading `a`, then reading `b` onto what `a` gave.
pub proof fn lemma_scan_concat(a: Seq<char>, b: Seq<char>, acc: int)
    ensures
        scan_digits(a + b, acc) == match scan_digits(a, acc) {
            Ok(x) => scan_digits(b, x),
            Err(k) => Err(k),
        },
    decreases a.len(),
{
    if a.len() == 0 {
        assert(a + b =~= b);
    } else {
        assert((a + b)[0] == a[0]);
        assert((a + b).drop_first() =~= a.drop_first() + b);
        lemma_scan_concat(a.drop_first(), b, acc * 10 + digit_value(a[0]));
    }
}

proof fn lemma_digit_char(d: int)
    requires
        0 <= d < 10,
    ensures
        is_digit(digit_char(d)),
        digit_value(digit_char(d)) == d,
{
}

proof fn lemma_scan_decimal(n: nat)
    requires
        n <= 65535,
    ensures
        scan_digits(decimal(n), 0) == Ok::<int, IntErrorKind>(n as int),
        decimal(n).len() >= 1,
        is_digit(decimal(n)[0]),
    decreases n,
{
    if n < 10 {
        lemma_digit_char(n as int);
        assert(decimal(n).drop_first() =~= Seq::<char>::empty());
        assert(0 * 10 + digit_value(decimal(n)[0]) == n);
        assert(scan_digits(decimal(n).drop_first(), n as int) == Ok::<int, IntErrorKind>(n as int));
    } else {
        lemma_scan_decimal(n / 10);
        lemma_digit_char((n % 10) as int);
        let tail = seq![digit_char((n % 10) as int)];
        assert(decimal(n) == decimal(n / 10) + tail);
        lemma_scan_concat(decimal(n / 10), tail, 0);
        assert(tail.drop_first() =~= Seq::<char>::empty());
        assert((n / 10) * 10 + n % 10 == n);
        assert(scan_digits(tail.drop_first(), n as int) == Ok::<int, IntErrorKind>(n as int));
        assert(scan_digits(tail, (n / 10) as int) == Ok::<int, IntErrorKind>(n as int));
        assert(decimal(n)[0] == decimal(n / 10)[0]);
    }
}

/// Parsing the decimal representation of a `u16` gives the number back.
pub proof fn lemma_parse_decimal_roundtrip(n: u16)
    ensures
        parse_u16_spec(decimal(n as nat)) == Ok::<int, IntErrorKind>(n as int),
{
    lemma_scan_decimal(n as nat);
}

} // verus!
