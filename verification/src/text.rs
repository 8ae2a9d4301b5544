//! Text helpers shared by the decoder and the widgets.

use vstd::prelude::*;
use vstd::string::StringSliceAdditionalSpecFns;
use vstd::utf8::valid_utf8;

verus! {

/// Appends one character to a string.
///
/// Trusted: stands for `String::push`, which the standard library documents as
/// appending the given character to the end of the string.
#[verifier::external_body]
pub(crate) fn push_char(s: &mut String, c: char)
    ensures
        final(s)@ == old(s)@.push(c),
{
    s.push(c)
}

/// Reads a byte slice as UTF-8 text.
///
/// Trusted: stands for `core::str::from_utf8`, which succeeds exactly on
/// well-formed UTF-8 and then yields a string over the very same bytes.
#[verifier::external_body]
pub(crate) fn utf8_text(bytes: &[u8]) -> (text: Option<&str>)
    ensures
        text is Some <==> valid_utf8(bytes@),
        text matches Some(s) ==> s.spec_bytes() == bytes@,
{
    match core::str::from_utf8(bytes) {
        Ok(s) => Some(s),
        Err(_) => None,
    }
}

/// The characters that a sequence of ASCII bytes stands for.
pub open spec fn ascii(bytes: Seq<u8>) -> Seq<char> {
    Seq::new(bytes.len(), |i: int| bytes[i] as char)
}

/// The ASCII digit for a value below ten.
pub open spec fn digit(d: int) -> u8 {
    (48 + d) as u8
}

/// The decimal digits of a natural number, most significant first, without
/// leading zeros.
pub open spec fn natural_digits(n: nat) -> Seq<u8>
    decreases n,
{
    if n < 10 {
        seq![digit(n as int)]
    } else {
        natural_digits(n / 10).push(digit((n % 10) as int))
    }
}

/// The decimal writing of an integer: a minus sign where it is negative, then
/// the digits of its magnitude.
pub open spec fn decimal(v: int) -> Seq<u8> {
    if v < 0 {
        seq![45u8] + natural_digits((-v) as nat)
    } else {
        natural_digits(v as nat)
    }
}

/// Appends the decimal digits of `n` to `s`.
pub fn push_natural(s: &mut String, n: u64)
    ensures
        final(s)@ == old(s)@ + ascii(natural_digits(n as nat)),
    decreases n,
{
    if n >= 10 {
        push_natural(s, n / 10);
    }
    let low: u8 = (n % 10) as u8;
    push_char(s, (48 + low) as char);
    assert(s@ =~= old(s)@ + ascii(natural_digits(n as nat)));
}

/// The decimal writing of `v` as a string.
pub fn decimal_text(v: i64) -> (text: String)
    ensures
        text@ == ascii(decimal(v as int)),
{
    let mut text = String::new();
    if v < 0 {
        push_char(&mut text, '-');
        let magnitude: u64 = ((-(v + 1)) as u64) + 1;
        push_natural(&mut text, magnitude);
    } else {
        push_natural(&mut text, v as u64);
    }
    assert(text@ =~= ascii(decimal(v as int)));
    text
}

} // verus!
