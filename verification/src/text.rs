//! Conversions between `str`/`String` and `Vec<char>`.
//!
//! The parsers in this crate walk lines character by character, so they
//! work on `Vec<char>`; these two wrappers cross the boundary to the
//! `str` types that callers hold.

use vstd::prelude::*;

verus! {

/// Relies on `str::chars`: yields the characters of the string in order.
#[verifier::external_body]
pub fn str_chars(s: &str) -> (r: Vec<char>)
    ensures
        r@ == s@,
{
    s.chars().collect()
}

/// Relies on `String::from_iter` over `char`: builds the string whose
/// characters are exactly the given ones, in order.
#[verifier::external_body]
pub fn chars_to_string(v: &Vec<char>) -> (r: String)
    ensures
        r@ == v@,
{
    v.iter().collect()
}

} // verus!
