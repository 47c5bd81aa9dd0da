//! Numbers as text.

use vstd::prelude::*;

verus! {

/// The character of a decimal digit.
pub open spec fn digit(d: int) -> char {
    if d == 0 {
        '0'
    } else if d == 1 {
        '1'
    } else if d == 2 {
        '2'
    } else if d == 3 {
        '3'
    } else if d == 4 {
        '4'
    } else if d == 5 {
        '5'
    } else if d == 6 {
        '6'
    } else if d == 7 {
        '7'
    } else if d == 8 {
        '8'
    } else {
        '9'
    }
}

/// A number in decimal digits, without leading zeros.
pub open spec fn decimal_digits(n: nat) -> Seq<char>
    decreases n,
{
    if n < 10 {
        seq![digit(n as int)]
    } else {
        decimal_digits(n / 10).push(digit((n % 10) as int))
    }
}

/// `format!` with the two placeholders `{}{}`, for a text and a number:
/// `Display` for `str` and for `u32`.
///
/// Claimed: the result is the text as it stands, followed by the number in
/// decimal digits without leading zeros.
#[verifier::external_body]
pub(crate) fn with_number(prefix: &str, n: u32) -> (text: String)
    ensures
        text@ == prefix@ + decimal_digits(n as nat),
{
    format!("{}{}", prefix, n)
}

} // verus!
