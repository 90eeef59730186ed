//! Character-for-character string comparison.
//!
//! Route lookup needs to compare a request path against the served paths.
//! `str_eq` decides equality of two string slices and is proved to return
//! exactly whether their character sequences coincide.

use vstd::prelude::*;

verus! {

/// Decide whether two string slices hold the same characters.
///
/// Returns `true` exactly when the views of `a` and `b` are equal as
/// character sequences.
pub fn str_eq(a: &str, b: &str) -> (r: bool)
    ensures
        r == (a@ == b@),
{
    let a_len = a.unicode_len();
    let b_len = b.unicode_len();
    if a_len != b_len {
        return false;
    }
    let mut i: usize = 0;
    while i < a_len
        invariant
            a_len == a@.len(),
            b_len == b@.len(),
            a_len == b_len,
            i <= a_len,
            forall|j: int| 0 <= j < i ==> a@[j] == b@[j],
        decreases a_len - i,
    {
        if a.get_char(i) != b.get_char(i) {
            return false;
        }
        i = i + 1;
    }
    proof {
        assert(a@ =~= b@);
    }
    true
}

} // verus!
