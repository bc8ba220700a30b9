//! Character-level helpers for comparing strings by their character
//! sequences.

use vstd::prelude::*;

verus! {

/// The visible width of a display text: its count of characters
/// (Unicode scalar values, not bytes). Styling is applied outside the
/// already-measured text, so escape sequences never reach this
/// calculator.
pub fn visible_width(text: &str) -> (w: usize)
    ensures
        w as nat == text@.len(),
{
    text.unicode_len()
}

/// Compares two string slices character by character.
pub fn str_eq(a: &str, b: &str) -> (r: bool)
    ensures
        r == (a@ == b@),
{
    let alen = a.unicode_len();
    let blen = b.unicode_len();
    if alen != blen {
        proof {
            assert(a@ != b@) by {
                assert(a@.len() != b@.len());
            }
        }
        return false;
    }
    let mut i: usize = 0;
    while i < alen
        invariant
            i <= alen,
            alen == a@.len(),
            alen == b@.len(),
            forall|j: int| 0 <= j < i ==> a@[j] == b@[j],
        decreases alen - i,
    {
        if a.get_char(i) != b.get_char(i) {
            proof {
                assert(a@[i as int] != b@[i as int]);
            }
            return false;
        }
        i += 1;
    }
    proof {
        assert(a@ =~= b@);
    }
    true
}

} // verus!
