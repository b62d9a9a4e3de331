//! The boundary between `String` and the character sequences the codec
//! works on. Verus gives `str` and `String` a view as a sequence of
//! characters but no way to walk or build one character by character in
//! linear time, so three small wrappers lean on std; string equality is
//! then decided in verified code over the characters.

use vstd::prelude::*;

verus! {

/// Relies on `str::chars` and `Iterator::collect`: the characters of a
/// string slice, in order.
#[verifier::external_body]
pub fn str_to_chars(s: &str) -> (r: Vec<char>)
    ensures
        r@ == s@,
{
    s.chars().collect()
}

/// Relies on `FromIterator for String` (via `Iterator::collect`): a string
/// made of exactly the given characters, in order.
#[verifier::external_body]
pub fn chars_to_string(v: &Vec<char>) -> (r: String)
    ensures
        r@ == v@,
{
    v.iter().collect()
}

/// Relies on `char::from_u32`: a character for every Unicode scalar value,
/// and nothing for surrogates and out-of-range values.
#[verifier::external_body]
pub fn char_from_u32(v: u32) -> (r: Option<char>)
    ensures
        vstd::utf8::is_scalar(v) ==> r == Some(v as char),
        !vstd::utf8::is_scalar(v) ==> r is None,
{
    char::from_u32(v)
}

/// Whether two string slices hold the same characters.
pub fn str_eq(a: &str, b: &str) -> (r: bool)
    ensures
        r == (a@ == b@),
{
    let ca = str_to_chars(a);
    let cb = str_to_chars(b);
    if ca.len() != cb.len() {
        return false;
    }
    let n = ca.len();
    let mut k: usize = 0;
    while k < n
        invariant
            k <= n,
            n == ca@.len() == cb@.len(),
            ca@ == a@,
            cb@ == b@,
            forall|m: int| 0 <= m < k ==> a@[m] == b@[m],
        decreases n - k,
    {
        if ca[k] != cb[k] {
            return false;
        }
        k = k + 1;
    }
    proof {
        assert(a@ =~= b@);
    }
    true
}

} // verus!
