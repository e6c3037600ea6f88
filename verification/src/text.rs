//! Text helpers: decimal numbers, case mapping and optional strings.

use vstd::prelude::*;
use vstd::string::StringExecFns;

verus! {

/// Whether every character of `s` is an ASCII digit.
pub open spec fn all_digits(s: Seq<char>) -> bool {
    forall|i: int| 0 <= i < s.len() ==> '0' <= #[trigger] s[i] <= '9'
}

/// The number that a string of ASCII digits denotes in base ten.
pub open spec fn digits_value(s: Seq<char>) -> nat
    decreases s.len(),
{
    if s.len() == 0 {
        0
    } else {
        10 * digits_value(s.drop_last()) + (s.last() as nat - '0' as nat) as nat
    }
}

/// What reading `s` as an unsigned 32-bit decimal number gives: an optional `+`,
/// then at least one digit and nothing else, within the range of `u32`.
pub open spec fn parsed_u32(s: Seq<char>) -> Option<u32> {
    let digits = if s.len() > 0 && s[0] == '+' {
        s.skip(1)
    } else {
        s
    };
    if digits.len() > 0 && all_digits(digits) && digits_value(digits) <= u32::MAX {
        Some(digits_value(digits) as u32)
    } else {
        None
    }
}

/// Calls [`str::parse`] for `u32`. Trusted: it accepts exactly an optional `+` sign
/// followed by digits whose value fits a `u32`, and returns that value.
#[verifier::external_body]
pub(crate) fn parse_u32(text: &str) -> (number: Option<u32>)
    ensures
        number == parsed_u32(text@),
{
    text.parse::<u32>().ok()
}

/// The upper-case form of a string, by Unicode's locale-independent mapping.
pub uninterp spec fn uppercase(s: Seq<char>) -> Seq<char>;

/// Calls [`str::to_uppercase`]. Trusted: the result depends on the characters of the
/// argument alone, and is named [`uppercase`].
#[verifier::external_body]
pub(crate) fn to_uppercase(text: &str) -> (upper: String)
    ensures
        upper@ == uppercase(text@),
{
    text.to_uppercase()
}

/// The character of a decimal digit.
pub open spec fn digit_char(d: nat) -> char
    recommends
        d < 10,
{
    ('0' as nat + d) as char
}

/// The decimal notation of `n`, without leading zeros.
pub open spec fn decimal(n: nat) -> Seq<char>
    decreases n,
{
    if n < 10 {
        seq![digit_char(n)]
    } else {
        decimal(n / 10).push(digit_char(n % 10))
    }
}

/// A single digit as text.
fn digit_text(d: usize) -> (text: &'static str)
    requires
        d < 10,
    ensures
        text@ == seq![digit_char(d as nat)],
{
    proof {
        reveal_strlit("0");
        reveal_strlit("1");
        reveal_strlit("2");
        reveal_strlit("3");
        reveal_strlit("4");
        reveal_strlit("5");
        reveal_strlit("6");
        reveal_strlit("7");
        reveal_strlit("8");
        reveal_strlit("9");
    }
    match d {
        0 => "0",
        1 => "1",
        2 => "2",
        3 => "3",
        4 => "4",
        5 => "5",
        6 => "6",
        7 => "7",
        8 => "8",
        _ => "9",
    }
}

/// Writes `n` in decimal.
pub fn decimal_text(n: usize) -> (text: String)
    ensures
        text@ == decimal(n as nat),
    decreases n,
{
    if n < 10 {
        digit_text(n).to_owned()
    } else {
        let head = decimal_text(n / 10);
        head.concat(digit_text(n % 10))
    }
}

/// The characters of an optional string.
pub open spec fn chars_of(text: Option<String>) -> Option<Seq<char>> {
    match text {
        Some(s) => Some(s@),
        None => None,
    }
}

/// The characters of an optional string slice.
pub open spec fn chars_of_str(text: Option<&str>) -> Option<Seq<char>> {
    match text {
        Some(s) => Some(s@),
        None => None,
    }
}

/// An owned copy of an optional string slice.
pub(crate) fn owned(text: Option<&str>) -> (copy: Option<String>)
    ensures
        chars_of(copy) == chars_of_str(text),
{
    match text {
        Some(s) => Some(s.to_owned()),
        None => None,
    }
}

/// A borrowed view of an optional string.
pub(crate) fn borrowed(text: &Option<String>) -> (slice: Option<&str>)
    ensures
        chars_of_str(slice) == chars_of(*text),
{
    match text {
        Some(s) => Some(s.as_str()),
        None => None,
    }
}

// ---------------------------------------------------------------------------
// Laws
// ---------------------------------------------------------------------------

/// Decimal notation reads back as the number it was written for. It is made of digits, at
/// least one, and only zero begins with a zero.
pub proof fn law_decimal_reads_back(n: nat)
    ensures
        decimal(n).len() > 0,
        forall|i: int| 0 <= i < decimal(n).len() ==> '0' <= #[trigger] decimal(n)[i] <= '9',
        digits_value(decimal(n)) == n,
        n > 0 ==> decimal(n)[0] != '0',
        n == 0 ==> decimal(n) == seq!['0'],
    decreases n,
{
    reveal_with_fuel(digits_value, 2);
    if n < 10 {
        assert(decimal(n).drop_last() =~= Seq::<char>::empty());
    } else {
        law_decimal_reads_back(n / 10);
        assert(decimal(n).drop_last() =~= decimal(n / 10));
        assert(decimal(n).last() == digit_char(n % 10));
        assert forall|i: int| 0 <= i < decimal(n).len() implies '0' <= #[trigger] decimal(n)[i]
            <= '9' by {
            if i < decimal(n).len() - 1 {
                assert(decimal(n)[i] == decimal(n / 10)[i]);
            }
        }
        assert(decimal(n)[0] == decimal(n / 10)[0]);
    }
}

/// A digit added at the end counts once, and what stands before it ten times as much.
pub proof fn law_digits_count_by_their_place(digits: Seq<char>, digit: char)
    requires
        '0' <= digit <= '9',
    ensures
        digits_value(Seq::<char>::empty()) == 0,
        digits_value(digits.push(digit)) == 10 * digits_value(digits) + (digit as int
            - '0' as int),
{
    assert(digits.push(digit).drop_last() =~= digits);
}

/// Reading a number: digits with or without a plus sign give their value where it fits, and
/// nothing else is a number.
pub proof fn law_only_digits_are_numbers(text: Seq<char>)
    ensures
        parsed_u32(text) is Some ==> text.len() > 0 && (all_digits(text) && parsed_u32(text)->0
            == digits_value(text) || text.len() > 1 && text[0] == '+' && all_digits(text.skip(1))
            && parsed_u32(text)->0 == digits_value(text.skip(1))),
        all_digits(text) <==> (forall|i: int|
            0 <= i < text.len() ==> '0' <= #[trigger] text[i] <= '9'),
        text.len() > 0 && (forall|i: int|
            0 <= i < text.len() ==> '0' <= #[trigger] text[i] <= '9') && digits_value(text)
            <= 0xffff_ffff ==> {
            &&& parsed_u32(text) == Some(digits_value(text) as u32)
            &&& parsed_u32(seq!['+'] + text) == Some(digits_value(text) as u32)
        },
{
    assert((seq!['+'] + text).skip(1) =~= text);
}

/// An optional text is there exactly where its owner is, with the same characters.
pub proof fn law_optional_texts_keep_their_characters(text: Option<String>, slice: Option<&str>)
    ensures
        chars_of(text) is Some <==> text is Some,
        text matches Some(s) ==> chars_of(text) == Some(s@),
        chars_of_str(slice) is Some <==> slice is Some,
        slice matches Some(s) ==> chars_of_str(slice) == Some(s@),
{
}

} // verus!
