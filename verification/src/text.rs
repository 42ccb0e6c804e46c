//! Character-level text handling: Unicode whitespace, decimal digits,
//! parsing a `u32` the way `str::parse::<u32>` does, and writing one.
use vstd::prelude::*;

verus! {

/// `char::is_whitespace`: the characters with the Unicode `White_Space` property.
pub open spec fn is_whitespace_char(c: char) -> bool {
    let u = c as u32;
    ||| 0x09 <= u <= 0x0D
    ||| u == 0x20
    ||| u == 0x85
    ||| u == 0xA0
    ||| u == 0x1680
    ||| 0x2000 <= u <= 0x200A
    ||| u == 0x2028
    ||| u == 0x2029
    ||| u == 0x202F
    ||| u == 0x205F
    ||| u == 0x3000
}

/// An ASCII decimal digit `'0'..='9'`.
pub open spec fn is_digit_char(c: char) -> bool {
    0x30 <= (c as u32) <= 0x39
}

/// The value of an ASCII decimal digit.
pub open spec fn digit_value(c: char) -> int {
    (c as u32) - 0x30
}

/// Why a text is not a `u32` (the kinds of `std::num::IntErrorKind` that can occur).
#[derive(Clone, Copy, Debug, PartialEq, Eq, Structural)]
pub enum IntError {
    /// The text is empty.
    Empty,
    /// A character is not a digit (or the text is a lone sign).
    InvalidDigit,
    /// The value does not fit in a `u32`.
    PosOverflow,
}

/// Reading digits left to right from position `i`, with `acc` the value read so far:
/// the first character that is not a digit is an error, and so is the first digit
/// that takes the value past `u32::MAX`.
pub open spec fn scan_decimal(s: Seq<char>, i: int, acc: nat) -> Result<u32, IntError>
    decreases s.len() - i,
{
    if i >= s.len() || i < 0 {
        Ok(acc as u32)
    } else if !is_digit_char(s[i]) {
        Err(IntError::InvalidDigit)
    } else if acc * 10 + digit_value(s[i]) > u32::MAX {
        Err(IntError::PosOverflow)
    } else {
        scan_decimal(s, i + 1, (acc * 10 + digit_value(s[i])) as nat)
    }
}

/// `str::parse::<u32>`: an optional `+` followed by decimal digits whose value fits.
pub open spec fn parse_u32_spec(s: Seq<char>) -> Result<u32, IntError> {
    if s.len() == 0 {
        Err(IntError::Empty)
    } else if s.len() == 1 && (s[0] == '+' || s[0] == '-') {
        Err(IntError::InvalidDigit)
    } else if s[0] == '+' {
        scan_decimal(s, 1, 0)
    } else {
        scan_decimal(s, 0, 0)
    }
}

/// Whether `c` is Unicode whitespace, as `char::is_whitespace` says.
pub fn is_whitespace(c: char) -> (b: bool)
    ensures
        b == is_whitespace_char(c),
{
    let u = c as u32;
    (0x09 <= u && u <= 0x0D) || u == 0x20 || u == 0x85 || u == 0xA0 || u == 0x1680 || (0x2000
        <= u && u <= 0x200A) || u == 0x2028 || u == 0x2029 || u == 0x202F || u == 0x205F || u
        == 0x3000
}

/// The characters of `s`, in order.
pub fn chars_of(s: &str) -> (v: Vec<char>)
    ensures
        v@ == s@,
{
    let mut v: Vec<char> = Vec::new();
    for c in it: s.chars()
        invariant
            v@ == it.seq().take(it.index() as int),
    {
        v.push(c);
    }
    v
}

/// Parses `s[start..end]` as `str::parse::<u32>` would parse that text.
pub fn parse_u32(s: &Vec<char>, start: usize, end: usize) -> (r: Result<u32, IntError>)
    requires
        start <= end <= s.len(),
    ensures
        r == parse_u32_spec(s@.subrange(start as int, end as int)),
{
    let ghost t = s@.subrange(start as int, end as int);
    if start == end {
        return Err(IntError::Empty);
    }
    let first = s[start];
    if end - start == 1 && (first == '+' || first == '-') {
        return Err(IntError::InvalidDigit);
    }
    let mut i: usize = if first == '+' { start + 1 } else { start };
    let mut acc: u32 = 0;
    assert(parse_u32_spec(t) == scan_decimal(t, i - start, 0));
    while i < end
        invariant
            start <= i <= end <= s.len(),
            t == s@.subrange(start as int, end as int),
            parse_u32_spec(t) == scan_decimal(t, i - start, acc as nat),
        decreases end - i,
    {
        let c = s[i];
        assert(t[i - start] == c);
        let u = c as u32;
        if u < 0x30 || u > 0x39 {
            return Err(IntError::InvalidDigit);
        }
        let d = u - 0x30;
        if acc > 429496729 || (acc == 429496729 && d > 5) {
            return Err(IntError::PosOverflow);
        }
        acc = acc * 10 + d;
        i = i + 1;
    }
    Ok(acc)
}

/// The decimal digits of `n`, most significant first, with no leading zero.
pub open spec fn decimal_digits(n: nat) -> Seq<u8>
    decreases n,
{
    if n < 10 {
        seq![(n + 0x30) as u8]
    } else {
        decimal_digits(n / 10).push(((n % 10) + 0x30) as u8)
    }
}

/// Appends the decimal digits of `n` to `out`, as `n.to_string()` writes them.
pub fn push_decimal(out: &mut Vec<u8>, n: u32)
    ensures
        final(out)@ == old(out)@ + decimal_digits(n as nat),
    decreases n,
{
    if n >= 10 {
        push_decimal(out, n / 10);
        out.push(((n % 10) + 0x30) as u8);
        assert(decimal_digits(n as nat) == decimal_digits((n / 10) as nat).push(
            ((n % 10) + 0x30) as u8,
        ));
    } else {
        out.push((n + 0x30) as u8);
    }
}

/// The characters of an ASCII byte sequence.
pub open spec fn ascii_chars(b: Seq<u8>) -> Seq<char> {
    b.map_values(|x: u8| x as char)
}

proof fn lemma_scan_push(s: Seq<char>, c: char, i: int, acc: nat)
    requires
        0 <= i <= s.len(),
        acc <= u32::MAX,
        is_digit_char(c),
        scan_decimal(s, i, acc) is Ok,
    ensures
        ({
            let v = scan_decimal(s, i, acc)->Ok_0;
            scan_decimal(s.push(c), i, acc) == if v * 10 + digit_value(c) > u32::MAX {
                Err(IntError::PosOverflow)
            } else {
                Ok((v * 10 + digit_value(c)) as u32)
            }
        }),
    decreases s.len() - i,
{
    if i < s.len() {
        assert(s.push(c)[i] == s[i]);
        lemma_scan_push(s, c, i + 1, (acc * 10 + digit_value(s[i])) as nat);
    } else {
        assert(s.push(c)[i] == c);
        assert(scan_decimal(s.push(c), i + 1, (acc * 10 + digit_value(c)) as nat) == Ok::<u32, IntError>(
            (acc * 10 + digit_value(c)) as u32,
        )) by {
            if acc * 10 + digit_value(c) <= u32::MAX {
                assert(i + 1 >= s.push(c).len());
            }
        }
    }
}

proof fn lemma_decimal_scans(n: nat)
    requires
        n <= u32::MAX,
    ensures
        scan_decimal(ascii_chars(decimal_digits(n)), 0, 0) == Ok::<u32, IntError>(n as u32),
        decimal_digits(n).len() >= 1,
        is_digit_char(ascii_chars(decimal_digits(n))[0]),
    decreases n,
{
    let d = decimal_digits(n);
    if n < 10 {
        let t = ascii_chars(d);
        assert(t[0] == ((n + 0x30) as u8) as char);
        assert(scan_decimal(t, 1, n) == Ok::<u32, IntError>(n as u32));
    } else {
        let pre = decimal_digits(n / 10);
        let b = ((n % 10) + 0x30) as u8;
        lemma_decimal_scans(n / 10);
        assert(ascii_chars(d) =~= ascii_chars(pre).push(b as char));
        lemma_scan_push(ascii_chars(pre), b as char, 0, 0);
        assert(ascii_chars(d)[0] == ascii_chars(pre)[0]);
    }
}

/// Law: the digits that `push_decimal` writes for a number read back, with
/// `parse_u32`, as that number.
pub proof fn law_decimal_round_trip(n: u32)
    ensures
        parse_u32_spec(ascii_chars(decimal_digits(n as nat))) == Ok::<u32, IntError>(n),
{
    lemma_decimal_scans(n as nat);
}

/// Every byte that `push_decimal` writes is an ASCII digit.
pub proof fn lemma_decimal_digits_are_digits(n: nat)
    ensures
        forall|i: int|
            0 <= i < decimal_digits(n).len() ==> 0x30 <= #[trigger] decimal_digits(n)[i] <= 0x39,
        decimal_digits(n).len() >= 1,
    decreases n,
{
    if n >= 10 {
        lemma_decimal_digits_are_digits(n / 10);
    }
}

} // verus!
