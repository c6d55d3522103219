//! Decimal text for `u64`: rendering (as `Display` does) and parsing (as
//! `str::parse::<u64>` does), with the round trip between the two.

use vstd::prelude::*;

verus! {

/// Why a decimal text was not accepted as a `u64`.
#[derive(Debug, Clone, Copy, PartialEq, Eq)]
pub enum ParseIntError {
    /// The text is empty.
    Empty,
    /// A character is not an ASCII digit (or the text is a lone sign).
    InvalidDigit,
    /// The number does not fit in a `u64`.
    PosOverflow,
}

/// The character of a decimal digit.
pub open spec fn digit_char(d: nat) -> char {
    if d == 0 { '0' }
    else if d == 1 { '1' }
    else if d == 2 { '2' }
    else if d == 3 { '3' }
    else if d == 4 { '4' }
    else if d == 5 { '5' }
    else if d == 6 { '6' }
    else if d == 7 { '7' }
    else if d == 8 { '8' }
    else { '9' }
}

/// Whether a character is an ASCII decimal digit.
pub open spec fn is_digit(c: char) -> bool {
    '0' <= c && c <= '9'
}

/// The value of an ASCII decimal digit.
pub open spec fn digit_value(c: char) -> nat {
    (c as u32 - '0' as u32) as nat
}

/// The decimal text of `n`, without sign or leading zeros.
pub open spec fn spec_decimal(n: nat) -> Seq<char>
    decreases n,
{
    if n < 10 {
        seq![digit_char(n)]
    } else {
        spec_decimal(n / 10).push(digit_char(n % 10))
    }
}

/// What `str::parse::<u64>` gives for a run of characters with no sign:
/// the characters are read from the left, and the first one that is not a
/// digit, or the first prefix whose value exceeds `u64::MAX`, decides the error.
pub open spec fn spec_parse_digits(d: Seq<char>) -> Result<u64, ParseIntError>
    decreases d.len(),
{
    if d.len() == 0 {
        Ok(0u64)
    } else {
        match spec_parse_digits(d.drop_last()) {
            Err(e) => Err(e),
            Ok(v) => {
                if !is_digit(d.last()) {
                    Err(ParseIntError::InvalidDigit)
                } else if v * 10 + digit_value(d.last()) > u64::MAX {
                    Err(ParseIntError::PosOverflow)
                } else {
                    Ok((v * 10 + digit_value(d.last())) as u64)
                }
            },
        }
    }
}

/// What `str::parse::<u64>` gives for a text: empty text is `Empty`, a lone
/// `+` is `InvalidDigit`, one leading `+` is skipped, the rest must be digits.
pub open spec fn spec_parse_u64(s: Seq<char>) -> Result<u64, ParseIntError> {
    if s.len() == 0 {
        Err(ParseIntError::Empty)
    } else if s[0] == '+' && s.len() == 1 {
        Err(ParseIntError::InvalidDigit)
    } else if s[0] == '+' {
        spec_parse_digits(s.drop_first())
    } else {
        spec_parse_digits(s)
    }
}

proof fn lemma_digit_char(d: nat)
    requires
        d < 10,
    ensures
        is_digit(digit_char(d)),
        digit_value(digit_char(d)) == d,
{
}

/// Every character of a decimal text is a digit, and there is at least one.
pub proof fn lemma_decimal_digits(n: nat)
    ensures
        spec_decimal(n).len() >= 1,
        forall|i: int| 0 <= i < spec_decimal(n).len() ==> is_digit(#[trigger] spec_decimal(n)[i]),
    decreases n,
{
    if n >= 10 {
        lemma_decimal_digits(n / 10);
        lemma_digit_char(n % 10);
    } else {
        lemma_digit_char(n);
    }
}

/// Parsing the decimal text of a `u64` gives the number back.
pub proof fn lemma_parse_decimal(n: u64)
    ensures
        spec_parse_digits(spec_decimal(n as nat)) == Ok::<u64, ParseIntError>(n),
        spec_parse_u64(spec_decimal(n as nat)) == Ok::<u64, ParseIntError>(n),
    decreases n,
{
    lemma_decimal_digits(n as nat);
    let d = spec_decimal(n as nat);
    if n < 10 {
        lemma_digit_char(n as nat);
        assert(d.drop_last() =~= Seq::<char>::empty());
        assert(spec_parse_digits(d.drop_last()) == Ok::<u64, ParseIntError>(0u64));
        assert(d.last() == digit_char(n as nat));
        assert(spec_parse_digits(d) == Ok::<u64, ParseIntError>(n));
    } else {
        lemma_parse_decimal(n / 10);
        lemma_digit_char((n % 10) as nat);
        assert(d.drop_last() =~= spec_decimal((n / 10) as nat));
        assert(d.last() == digit_char((n % 10) as nat));
        assert((n / 10) * 10 + n % 10 == n);
        assert(spec_parse_digits(d) == Ok::<u64, ParseIntError>(n));
    }
    assert(is_digit(d[0]));
}

/// Decimal texts of different numbers differ.
pub proof fn lemma_decimal_injective(a: u64, b: u64)
    ensures
        spec_decimal(a as nat) == spec_decimal(b as nat) ==> a == b,
{
    lemma_parse_decimal(a);
    lemma_parse_decimal(b);
}

/// Once a prefix fails, the whole run fails the same way.
proof fn lemma_parse_err_extends(d: Seq<char>, k: int)
    requires
        0 <= k <= d.len(),
        spec_parse_digits(d.take(k)) is Err,
    ensures
        spec_parse_digits(d) == spec_parse_digits(d.take(k)),
    decreases d.len() - k,
{
    if k < d.len() {
        assert(d.take(k + 1).drop_last() =~= d.take(k));
        lemma_parse_err_extends(d, k + 1);
    } else {
        assert(d.take(k) =~= d);
    }
}

fn digit_str(d: u64) -> (r: &'static str)
    requires
        d < 10,
    ensures
        r@ == seq![digit_char(d as nat)],
{
    proof {
        reveal_strlit("0");
        reveal_strlit("1");
        reveal_strlit("2");
        reveal_strlit("3");
        reveal_strlit("4");
        reveal_strlit("5");
        reveal_strlit("6");
        reveal_strlit("7");
        reveal_strlit("8");
        reveal_strlit("9");
    }
    if d == 0 { "0" }
    else if d == 1 { "1" }
    else if d == 2 { "2" }
    else if d == 3 { "3" }
    else if d == 4 { "4" }
    else if d == 5 { "5" }
    else if d == 6 { "6" }
    else if d == 7 { "7" }
    else if d == 8 { "8" }
    else { "9" }
}

/// Appends the decimal text of `n` to `s`.
pub fn push_decimal(s: &mut String, n: u64)
    ensures
        final(s)@ == old(s)@ + spec_decimal(n as nat),
    decreases n,
{
    if n >= 10 {
        push_decimal(s, n / 10);
    }
    s.append(digit_str(n % 10));
    proof {
        if n >= 10 {
            assert(spec_decimal(n as nat) == spec_decimal((n / 10) as nat).push(digit_char((n % 10) as nat)));
        }
    }
    assert(final(s)@ =~= old(s)@ + spec_decimal(n as nat));
}

/// The decimal text of `n`, as `n.to_string()` writes it.
pub fn u64_to_decimal(n: u64) -> (r: String)
    ensures
        r@ == spec_decimal(n as nat),
{
    let mut s = String::new();
    push_decimal(&mut s, n);
    assert(s@ =~= spec_decimal(n as nat));
    s
}

fn char_digit_value(c: char) -> (r: Option<u64>)
    ensures
        r is Some <==> is_digit(c),
        r is Some ==> r->0 == digit_value(c) && r->0 < 10,
{
    if '0' <= c && c <= '9' {
        Some((c as u32 - '0' as u32) as u64)
    } else {
        None
    }
}

/// Parses a run of characters `s[start..]` with no sign.
fn parse_digits_from(s: &str, start: usize, len: usize) -> (r: Result<u64, ParseIntError>)
    requires
        len == s@.len(),
        start <= len,
    ensures
        r == spec_parse_digits(s@.skip(start as int)),
{
    let ghost d = s@.skip(start as int);
    let mut acc: u64 = 0;
    let mut i: usize = start;
    assert(d.take(0) =~= Seq::<char>::empty());
    while i < len
        invariant
            start <= i <= len,
            len == s@.len(),
            d == s@.skip(start as int),
            spec_parse_digits(d.take(i - start)) == Ok::<u64, ParseIntError>(acc),
        decreases len - i,
    {
        let c = s.get_char(i);
        let ghost k: int = i - start;
        assert(d.take(k + 1).drop_last() =~= d.take(k));
        assert(d.take(k + 1).last() == c);
        match char_digit_value(c) {
            None => {
                proof {
                    lemma_parse_err_extends(d, k + 1);
                }
                return Err(ParseIntError::InvalidDigit);
            },
            Some(v) => {
                if acc > 1844674407370955161 || (acc == 1844674407370955161 && v > 5) {
                    proof {
                        lemma_parse_err_extends(d, k + 1);
                    }
                    return Err(ParseIntError::PosOverflow);
                }
                acc = acc * 10 + v;
            },
        }
        i = i + 1;
    }
    assert(d.take(len - start) =~= d);
    Ok(acc)
}

/// Parses a decimal `u64` exactly as `str::parse::<u64>` does.
pub fn parse_u64(s: &str) -> (r: Result<u64, ParseIntError>)
    ensures
        r == spec_parse_u64(s@),
{
    let len = s.unicode_len();
    if len == 0 {
        return Err(ParseIntError::Empty);
    }
    let first = s.get_char(0);
    if first == '+' {
        if len == 1 {
            return Err(ParseIntError::InvalidDigit);
        }
        assert(s@.skip(1) =~= s@.drop_first());
        parse_digits_from(s, 1, len)
    } else {
        assert(s@.skip(0) =~= s@);
        parse_digits_from(s, 0, len)
    }
}

} // verus!
