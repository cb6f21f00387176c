//! Case-insensitive detection of the forbidden substring "smurf".
//!
//! Lowercasing is Unicode case folding, done by the standard library; its
//! result is only named here, not restated. The substring search itself is
//! verified code over the lowercased characters.

use vstd::prelude::*;

verus! {

/// The sequence of characters that `str::to_lowercase` produces for `s`.
/// It depends on the characters of `s` alone.
pub uninterp spec fn lower_of(s: Seq<char>) -> Seq<char>;

/// Relies on `str::to_lowercase`: Unicode lowercase of the string, a function
/// of its characters alone. The characters of the result are handed back as a
/// vector.
#[verifier::external_body]
pub(crate) fn lowercase_chars(s: &String) -> (r: Vec<char>)
    ensures
        r@ == lower_of(s@),
{
    s.to_lowercase().chars().collect()
}

/// The five characters of "smurf" stand at position `i` of `s`.
pub open spec fn smurf_at(s: Seq<char>, i: int) -> bool {
    &&& 0 <= i
    &&& i + 5 <= s.len()
    &&& s[i] == 's'
    &&& s[i + 1] == 'm'
    &&& s[i + 2] == 'u'
    &&& s[i + 3] == 'r'
    &&& s[i + 4] == 'f'
}

/// Some position of `s` carries the substring "smurf".
pub open spec fn contains_smurf(s: Seq<char>) -> bool {
    exists|i: int| smurf_at(s, i)
}

/// Linear search for "smurf" in a sequence of characters.
pub fn chars_contain_smurf(chars: &Vec<char>) -> (found: bool)
    ensures
        found == contains_smurf(chars@),
{
    let n: usize = chars.len();
    if n < 5 {
        return false;
    }
    let mut i: usize = 0;
    while i <= n - 5
        invariant
            n == chars@.len(),
            5 <= n,
            i <= n - 4,
            forall|j: int| 0 <= j < i ==> !smurf_at(chars@, j),
        decreases n - i,
    {
        if chars[i] == 's' && chars[i + 1] == 'm' && chars[i + 2] == 'u' && chars[i + 3] == 'r'
            && chars[i + 4] == 'f' {
            assert(smurf_at(chars@, i as int));
            return true;
        }
        i = i + 1;
    }
    false
}

} // verus!
