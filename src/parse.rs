use vstd::prelude::*;

use std::num::ParseIntError;

verus! {

#[verifier::external_type_specification]
#[verifier::external_body]
pub struct ExParseIntError(ParseIntError);

/// An ASCII decimal digit.
pub open spec fn is_ascii_digit(c: char) -> bool {
    '0' <= c && c <= '9'
}

/// One or more ASCII decimal digits.
pub open spec fn is_digits(d: Seq<char>) -> bool {
    d.len() > 0 && forall|i: int| 0 <= i < d.len() ==> is_ascii_digit(#[trigger] d[i])
}

/// The value of a run of decimal digits, most significant first.
pub open spec fn digits_value(d: Seq<char>) -> int
    decreases d.len(),
{
    if d.len() == 0 {
        0
    } else {
        10 * digits_value(d.drop_last()) + (d.last() as int - '0' as int)
    }
}

/// The integer that a text writes as an optional `+` or `-` sign followed by
/// one or more ASCII digits; nothing for any other text.
pub open spec fn integer_text_value(s: Seq<char>) -> Option<int> {
    if s.len() > 0 && s[0] == '-' && is_digits(s.drop_first()) {
        Some(-digits_value(s.drop_first()))
    } else if s.len() > 0 && s[0] == '+' && is_digits(s.drop_first()) {
        Some(digits_value(s.drop_first()))
    } else if is_digits(s) {
        Some(digits_value(s))
    } else {
        None
    }
}

/// The `i32` that a text writes, when it writes an integer in the `i32` range.
pub open spec fn i32_of_text(s: Seq<char>) -> Option<i32> {
    match integer_text_value(s) {
        Some(v) => if i32::MIN <= v <= i32::MAX {
            Some(v as i32)
        } else {
            None
        },
        None => None,
    }
}

/// Relies on `str::parse::<i32>` (`i32`'s `FromStr`): an optional `+` or `-`
/// followed by ASCII digits parses to the value they write when it fits in
/// `i32`; any other text, an out-of-range value included, is an error.
#[verifier::external_body]
fn std_parse_i32(s: &str) -> (r: Result<i32, ParseIntError>)
    ensures
        match r {
            Ok(v) => i32_of_text(s@) == Some(v),
            Err(_) => i32_of_text(s@) is None,
        },
{
    s.parse::<i32>()
}

/// Parses a decimal `i32`, with an optional sign; fails on any other text.
pub fn parse_i32(s: &str) -> (r: Result<i32, ParseIntError>)
    ensures
        match r {
            Ok(v) => i32_of_text(s@) == Some(v),
            Err(_) => i32_of_text(s@) is None,
        },
{
    std_parse_i32(s)
}

/// Parses the text `77` and adds one, passing a parse failure on with `?`.
pub fn wrapper_using_q() -> (r: Result<i32, ParseIntError>)
    ensures
        r == Ok::<i32, ParseIntError>(78),
{
    let t = "77";
    proof {
        reveal_strlit("77");
        assert(t@.drop_first() =~= seq!['7']);
        assert(t@.drop_last() =~= seq!['7']);
        assert(seq!['7'].drop_last() =~= Seq::<char>::empty());
        assert(digits_value(Seq::<char>::empty()) == 0);
        assert(digits_value(seq!['7']) == 7);
        assert(digits_value(t@) == 77);
    }
    let n: i32 = parse_i32(t)?;
    Ok(n + 1)
}

} // verus!
