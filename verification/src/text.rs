use std::num::ParseIntError;
use vstd::prelude::*;
use vstd::string::StringExecFns;

verus! {

/// Whether `c` is white space: one of the characters that Unicode marks as
/// `White_Space`.
pub open spec fn is_whitespace(c: char) -> bool {
    let u = c as int;
    ||| 0x09 <= u <= 0x0D
    ||| u == 0x20
    ||| u == 0x85
    ||| u == 0xA0
    ||| u == 0x1680
    ||| 0x2000 <= u <= 0x200A
    ||| u == 0x2028
    ||| u == 0x2029
    ||| u == 0x202F
    ||| u == 0x205F
    ||| u == 0x3000
}

/// `s` without the white space at its start.
pub open spec fn trim_start(s: Seq<char>) -> Seq<char>
    decreases s.len(),
{
    if s.len() > 0 && is_whitespace(s.first()) {
        trim_start(s.drop_first())
    } else {
        s
    }
}

/// `s` without the white space at its end.
pub open spec fn trim_end(s: Seq<char>) -> Seq<char>
    decreases s.len(),
{
    if s.len() > 0 && is_whitespace(s.last()) {
        trim_end(s.drop_last())
    } else {
        s
    }
}

/// `s` without the white space at its start and at its end.
pub open spec fn trim(s: Seq<char>) -> Seq<char> {
    trim_end(trim_start(s))
}

/// `s` after `prefix` has been taken off its start as many times as it
/// stands there.
pub open spec fn strip_leading(s: Seq<char>, prefix: Seq<char>) -> Seq<char>
    decreases s.len(),
{
    if prefix.len() > 0 && prefix.is_prefix_of(s) {
        strip_leading(s.skip(prefix.len() as int), prefix)
    } else {
        s
    }
}

/// The value of `c` as a digit in the given radix: `0` to `9` count as
/// themselves, and the letters `a` to `z`, in either case, as 10 to 35. A
/// character whose value does not lie below the radix is no digit.
pub open spec fn digit_value(c: char, radix: nat) -> Option<nat> {
    let u = c as int;
    let v = if '0' as int <= u <= '9' as int {
        u - '0' as int
    } else if 'a' as int <= u <= 'z' as int {
        u - 'a' as int + 10
    } else if 'A' as int <= u <= 'Z' as int {
        u - 'A' as int + 10
    } else {
        radix as int
    };
    if v < radix {
        Some(v as nat)
    } else {
        None
    }
}

/// Whether every character of `s` is a digit in the given radix.
pub open spec fn all_digits(s: Seq<char>, radix: nat) -> bool {
    forall|i: int| 0 <= i < s.len() ==> (#[trigger] digit_value(s[i], radix)) is Some
}

/// The number that the digits `s` write in the given radix, the most
/// significant digit first.
pub open spec fn digits_value(s: Seq<char>, radix: nat) -> nat
    decreases s.len(),
{
    if s.len() == 0 {
        0
    } else {
        digits_value(s.drop_last(), radix) * radix + digit_value(s.last(), radix).unwrap()
    }
}

/// The number that `s` writes without a sign or after one `+`: at least one
/// digit and nothing but digits. `None` where `s` is not of that form.
pub open spec fn unsigned_value(s: Seq<char>, radix: nat) -> Option<nat> {
    let digits = if s.len() > 0 && s.first() == '+' {
        s.drop_first()
    } else {
        s
    };
    if digits.len() > 0 && all_digits(digits, radix) {
        Some(digits_value(digits, radix))
    } else {
        None
    }
}

/// The number that `s` writes, if it writes one and that is at most `max`.
pub open spec fn parse_unsigned(s: Seq<char>, radix: nat, max: nat) -> Option<nat> {
    match unsigned_value(s, radix) {
        Some(v) => if v <= max {
            Some(v)
        } else {
            None
        },
        None => None,
    }
}

/// The number that `s` writes in decimal digits between white space, if it
/// writes one and that is at most `max`.
pub open spec fn trimmed_number(s: Seq<char>, max: nat) -> Option<nat> {
    parse_unsigned(trim(s), 10, max)
}

/// The character that writes the digit `d`: `0` to `9`, then `A` to `Z`.
pub open spec fn digit_char(d: nat) -> char
    recommends
        d < 36,
{
    if d < 10 {
        ('0' as int + d) as char
    } else {
        ('A' as int + d - 10) as char
    }
}

/// The digits that write `n` in the given radix, the most significant
/// first, with no leading zero: `0` is written as one digit.
pub open spec fn number_text(n: nat, radix: nat) -> Seq<char>
    recommends
        2 <= radix <= 36,
    decreases n,
{
    if 2 <= radix <= n {
        proof {
            assert(n / radix < n) by (nonlinear_arith)
                requires
                    2 <= radix <= n,
            ;
        }
        number_text(n / radix, radix).push(digit_char(n % radix))
    } else {
        seq![digit_char(n)]
    }
}

/// `n` written in decimal.
pub open spec fn decimal_text(n: nat) -> Seq<char> {
    number_text(n, 10)
}

/// `n` written in hexadecimal with capital letters.
pub open spec fn upper_hex_text(n: nat) -> Seq<char> {
    number_text(n, 16)
}

/// The character that writes a digit has that digit as its value, and is
/// neither white space nor a sign.
pub proof fn lemma_digit_char(d: nat, radix: nat)
    requires
        d < radix <= 36,
    ensures
        digit_value(digit_char(d), radix) == Some(d),
        !is_whitespace(digit_char(d)),
        digit_char(d) != '+',
        digit_char(d) != 'x',
{
}

/// A digit is neither white space nor a sign.
pub proof fn lemma_digit_is_no_space(c: char, radix: nat)
    requires
        digit_value(c, radix) is Some,
    ensures
        !is_whitespace(c),
        c != '+',
{
}

/// The text of a number holds at least one digit and only digits, none of
/// them the letter `x`, and writes that number.
pub proof fn lemma_number_text_value(n: nat, radix: nat)
    requires
        2 <= radix <= 36,
    ensures
        number_text(n, radix).len() > 0,
        all_digits(number_text(n, radix), radix),
        digits_value(number_text(n, radix), radix) == n,
        forall|i: int| 0 <= i < number_text(n, radix).len() ==> number_text(n, radix)[i] != 'x',
    decreases n,
{
    let s = number_text(n, radix);
    if radix <= n {
        let q = n / radix;
        let r = n % radix;
        let t = number_text(q, radix);
        assert(q < n && r < radix && n == radix * q + r) by (nonlinear_arith)
            requires
                2 <= radix <= n,
                q == n / radix,
                r == n % radix,
        ;
        lemma_number_text_value(q, radix);
        lemma_digit_char(r, radix);
        assert(s.drop_last() =~= t);
    } else {
        lemma_digit_char(n, radix);
        assert(digits_value(s.drop_last(), radix) == 0);
    }
}

/// A text that neither starts nor ends with white space is its own trimmed
/// form.
pub proof fn lemma_trim_is_identity(s: Seq<char>)
    requires
        s.len() > 0 ==> !is_whitespace(s.first()) && !is_whitespace(s.last()),
    ensures
        trim(s) == s,
{
}

/// Reading back the text of a number gives the number: the text has no
/// white space to trim and, as long as the number is at most `max`, parses
/// as that number.
pub proof fn lemma_number_text_round_trip(n: nat, radix: nat, max: nat)
    requires
        2 <= radix <= 36,
        n <= max,
    ensures
        trim(number_text(n, radix)) == number_text(n, radix),
        parse_unsigned(number_text(n, radix), radix, max) == Some(n),
{
    let s = number_text(n, radix);
    lemma_number_text_value(n, radix);
    lemma_digit_is_no_space(s.first(), radix);
    lemma_digit_is_no_space(s.last(), radix);
    lemma_trim_is_identity(s);
}

/// The decimal text of a number reads back as that number, as long as the
/// number is at most `max`.
pub proof fn lemma_decimal_text_reads_back(n: nat, max: nat)
    requires
        n <= max,
    ensures
        trimmed_number(decimal_text(n), max) == Some(n),
{
    lemma_number_text_round_trip(n, 10, max);
}

/// The text of the digit `d`.
fn digit_str(d: u32) -> (r: &'static str)
    requires
        d < 16,
    ensures
        r@ == seq![digit_char(d as nat)],
{
    proof {
        reveal_strlit("0");
        reveal_strlit("1");
        reveal_strlit("2");
        reveal_strlit("3");
        reveal_strlit("4");
        reveal_strlit("5");
        reveal_strlit("6");
        reveal_strlit("7");
        reveal_strlit("8");
        reveal_strlit("9");
        reveal_strlit("A");
        reveal_strlit("B");
        reveal_strlit("C");
        reveal_strlit("D");
        reveal_strlit("E");
        reveal_strlit("F");
    }
    if d == 0 {
        "0"
    } else if d == 1 {
        "1"
    } else if d == 2 {
        "2"
    } else if d == 3 {
        "3"
    } else if d == 4 {
        "4"
    } else if d == 5 {
        "5"
    } else if d == 6 {
        "6"
    } else if d == 7 {
        "7"
    } else if d == 8 {
        "8"
    } else if d == 9 {
        "9"
    } else if d == 10 {
        "A"
    } else if d == 11 {
        "B"
    } else if d == 12 {
        "C"
    } else if d == 13 {
        "D"
    } else if d == 14 {
        "E"
    } else {
        "F"
    }
}

/// Appends to `out` the digits that write `n` in the given radix.
pub fn push_number(out: &mut String, n: u32, radix: u32)
    requires
        2 <= radix <= 16,
    ensures
        final(out)@ == old(out)@ + number_text(n as nat, radix as nat),
    decreases n,
{
    assert(n % radix < radix && (n >= radix ==> n / radix < n) && (n < radix ==> n % radix == n))
        by (nonlinear_arith)
        requires
            2 <= radix,
    ;
    if n >= radix {
        push_number(out, n / radix, radix);
    }
    out.append(digit_str(n % radix));
}

/// The decimal digits that write `n`.
pub fn decimal_string(n: u32) -> (r: String)
    ensures
        r@ == decimal_text(n as nat),
{
    let mut out = String::new();
    push_number(&mut out, n, 10);
    out
}

/// The hexadecimal digits that write `n`, with capital letters.
pub fn upper_hex_string(n: u32) -> (r: String)
    ensures
        r@ == upper_hex_text(n as nat),
{
    let mut out = String::new();
    push_number(&mut out, n, 16);
    out
}

/// `std::num::ParseIntError`: why a text is not a number of the type asked
/// for. It is carried through unread.
#[verifier::external_type_specification]
#[verifier::external_body]
pub struct ExParseIntError(ParseIntError);

/// The error that `u8::from_str` returns for the text `s`, where `s` writes
/// no byte.
pub uninterp spec fn u8_parse_error(s: Seq<char>) -> ParseIntError;

/// The error that `u16::from_str` returns for the text `s`, where `s`
/// writes no number of 16 bits.
pub uninterp spec fn u16_parse_error(s: Seq<char>) -> ParseIntError;

/// The error that `u32::from_str` returns for the text `s`, where `s`
/// writes no number of 32 bits.
pub uninterp spec fn u32_parse_error(s: Seq<char>) -> ParseIntError;

/// The error that `u16::from_str_radix` returns for the text `s` and the
/// radix, where `s` writes no number of 16 bits in that radix.
pub uninterp spec fn u16_radix_parse_error(s: Seq<char>, radix: u32) -> ParseIntError;

/// `ParseIntError::clone`, which duplicates the error.
pub assume_specification[ <std::num::ParseIntError as Clone>::clone ](
    e: &std::num::ParseIntError,
) -> (r: std::num::ParseIntError)
    ensures
        r == *e,
;

/// Calls `str::trim`, which is documented to return the slice without its
/// leading and trailing white space, where white space is what Unicode
/// marks as `White_Space`.
#[verifier::external_body]
pub(crate) fn str_trim(s: &str) -> (r: &str)
    ensures
        r@ == trim(s@),
{
    s.trim()
}

/// Calls `str::starts_with` with a string as the pattern, which is
/// documented to tell whether the pattern matches a prefix of the slice.
#[verifier::external_body]
pub(crate) fn str_starts_with(s: &str, prefix: &str) -> (r: bool)
    ensures
        r == prefix@.is_prefix_of(s@),
{
    s.starts_with(prefix)
}

/// Calls `str::trim_start_matches` with a string as the pattern, which is
/// documented to return the slice with all prefixes that match the pattern
/// repeatedly removed.
#[verifier::external_body]
pub(crate) fn str_trim_start_matches<'a>(s: &'a str, prefix: &str) -> (r: &'a str)
    requires
        prefix@.len() > 0,
    ensures
        r@ == strip_leading(s@, prefix@),
{
    s.trim_start_matches(prefix)
}

/// Calls `u8::from_str` through `str::parse`. The text is documented to be
/// an optional `+` sign followed by only decimal digits; anything else, also
/// an empty text or a number that does not fit the type, is an error, which
/// depends on the text alone.
#[verifier::external_body]
pub(crate) fn parse_u8(s: &str) -> (r: Result<u8, ParseIntError>)
    ensures
        match r {
            Ok(v) => parse_unsigned(s@, 10, u8::MAX as nat) == Some(v as nat),
            Err(e) => parse_unsigned(s@, 10, u8::MAX as nat) is None && e == u8_parse_error(s@),
        },
{
    s.parse::<u8>()
}

/// Calls `u16::from_str` through `str::parse`. The text is documented to be
/// an optional `+` sign followed by only decimal digits; anything else, also
/// an empty text or a number that does not fit the type, is an error, which
/// depends on the text alone.
#[verifier::external_body]
pub(crate) fn parse_u16(s: &str) -> (r: Result<u16, ParseIntError>)
    ensures
        match r {
            Ok(v) => parse_unsigned(s@, 10, u16::MAX as nat) == Some(v as nat),
            Err(e) => parse_unsigned(s@, 10, u16::MAX as nat) is None && e == u16_parse_error(s@),
        },
{
    s.parse::<u16>()
}

/// Calls `u32::from_str` through `str::parse`. The text is documented to be
/// an optional `+` sign followed by only decimal digits; anything else, also
/// an empty text or a number that does not fit the type, is an error, which
/// depends on the text alone.
#[verifier::external_body]
pub(crate) fn parse_u32(s: &str) -> (r: Result<u32, ParseIntError>)
    ensures
        match r {
            Ok(v) => parse_unsigned(s@, 10, u32::MAX as nat) == Some(v as nat),
            Err(e) => parse_unsigned(s@, 10, u32::MAX as nat) is None && e == u32_parse_error(s@),
        },
{
    s.parse::<u32>()
}

/// Calls `u16::from_str_radix`. The text is documented to be an optional `+`
/// sign followed by only digits of the radix, where the letters count from
/// 10 on in either case; anything else, also an empty text or a number that
/// does not fit the type, is an error, which depends on the text and the
/// radix alone. It panics for a radix outside `2..=36`.
#[verifier::external_body]
pub(crate) fn u16_from_str_radix(s: &str, radix: u32) -> (r: Result<u16, ParseIntError>)
    requires
        2 <= radix <= 36,
    ensures
        match r {
            Ok(v) => parse_unsigned(s@, radix as nat, u16::MAX as nat) == Some(v as nat),
            Err(e) => parse_unsigned(s@, radix as nat, u16::MAX as nat) is None
                && e == u16_radix_parse_error(s@, radix),
        },
{
    u16::from_str_radix(s, radix)
}

} // verus!
