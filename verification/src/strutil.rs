//! Conversions between strings and character vectors.
//!
//! The encoding and decoding logic of this crate works on `Vec<char>`;
//! these helpers move between that form and `String` at the edges.

use vstd::prelude::*;

verus! {

/// Relies on `str::chars` and `Iterator::collect`: the characters of
/// the string, in order.
#[verifier::external_body]
pub fn str_to_chars(s: &str) -> (r: Vec<char>)
    ensures
        r@ == s@,
{
    s.chars().collect()
}

/// Relies on `Iterator::collect` for `String`: the string made of the
/// given characters, in order.
#[verifier::external_body]
pub fn chars_to_string(v: &Vec<char>) -> (r: String)
    ensures
        r@ == v@,
{
    v.iter().collect()
}

/// Relies on `char::from_u32`: the scalar value with the given code.
/// Codes in the surrogate range or above the last scalar value are
/// excluded, so the call always succeeds.
#[verifier::external_body]
pub fn char_from_code(code: u32) -> (c: char)
    requires
        code < 0xD800 || (0xE000 <= code < 0x110000),
    ensures
        c as u32 == code,
{
    char::from_u32(code).unwrap()
}

} // verus!
