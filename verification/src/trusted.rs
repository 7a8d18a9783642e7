//! The crate's small trusted boundary: conversions between strings and
//! character vectors, and scalar-value construction, where vstd gives std no
//! specification.

use vstd::prelude::*;

verus! {

/// Relies on str::chars (std): the iterator yields the `char`s of the string
/// in order, so collecting them gives exactly the string's characters.
#[verifier::external_body]
pub(crate) fn string_to_chars(s: &str) -> (v: Vec<char>)
    ensures
        v@ == s@,
{
    s.chars().collect()
}

/// Relies on String's FromIterator over char (std): collecting characters
/// builds the string holding exactly those characters in order.
#[verifier::external_body]
pub(crate) fn chars_to_string(v: &Vec<char>) -> (s: String)
    ensures
        s@ == v@,
{
    v.iter().collect()
}

/// Relies on char::from_u32 (std): `Some` of the char with scalar value `n`
/// when `n` is not a surrogate and at most 0x10FFFF, `None` otherwise.
#[verifier::external_body]
pub(crate) fn char_from_u32(n: u32) -> (r: Option<char>)
    ensures
        (n < 0xD800 || (0xDFFF < n && n <= 0x10FFFF)) ==> r == Some(n as char),
        !(n < 0xD800 || (0xDFFF < n && n <= 0x10FFFF)) ==> r is None,
{
    char::from_u32(n)
}

} // verus!
