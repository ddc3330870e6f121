//! Text conversions that the library takes from std, and the decimal
//! rendering of numbers used in generated names.
use vstd::prelude::*;

verus! {

/// The text that lossy UTF-8 decoding makes of some bytes.
pub uninterp spec fn lossy_text(b: Seq<u8>) -> Seq<char>;

/// A text with leading and trailing whitespace removed.
pub uninterp spec fn trimmed_text(s: Seq<char>) -> Seq<char>;

/// The decimal digit character for `d < 10`.
pub open spec fn digit_char(d: nat) -> char {
    seq!['0', '1', '2', '3', '4', '5', '6', '7', '8', '9'][d as int]
}

/// The decimal digits of `n`, without leading zeros.
pub open spec fn decimal(n: nat) -> Seq<char>
    decreases n,
{
    if n < 10 {
        seq![digit_char(n)]
    } else {
        decimal(n / 10).push(digit_char(n % 10))
    }
}

/// Relies on `String::from_utf8_lossy`: the text is a function of the bytes
/// alone.
#[verifier::external_body]
pub(crate) fn text_from_bytes(b: &[u8]) -> (r: String)
    ensures
        r@ == lossy_text(b@),
{
    String::from_utf8_lossy(b).into_owned()
}

/// Relies on `str::trim`: the trimmed text is a function of the text alone.
#[verifier::external_body]
pub(crate) fn trimmed(s: &str) -> (r: &str)
    ensures
        r@ == trimmed_text(s@),
{
    s.trim()
}

/// Relies on `format!` with `{}` on a `u32`: the prefix followed by the
/// decimal digits of the number.
#[verifier::external_body]
pub(crate) fn labelled(prefix: &str, n: u32) -> (r: String)
    ensures
        r@ == prefix@ + decimal(n as nat),
{
    format!("{}{}", prefix, n)
}

} // verus!
