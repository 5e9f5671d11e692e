//! Small operations on text that the other modules share.

use vstd::prelude::*;

verus! {

/// Whether two pieces of seven-bit text are the same, in one pass.
pub fn ascii_equals(left: &str, right: &str) -> (same: bool)
    requires
        left.is_ascii(),
        right.is_ascii(),
    ensures
        same == (left@ == right@),
{
    let n = left.unicode_len();
    if n != right.unicode_len() {
        return false;
    }
    let mut i: usize = 0;
    while i < n
        invariant
            left.is_ascii(),
            right.is_ascii(),
            n == left@.len(),
            n == right@.len(),
            i <= n,
            forall|j: int| 0 <= j < i ==> left@[j] == right@[j],
        decreases n - i,
    {
        if left.get_ascii(i) != right.get_ascii(i) {
            return false;
        }
        i += 1;
    }
    assert(left@ =~= right@);
    true
}

/// `first`, `second` and `third` one after the other.
pub fn join3(first: &str, second: &str, third: &str) -> (joined: String)
    ensures
        joined@ == first@ + second@ + third@,
{
    let mut joined = String::from_str(first);
    joined.append(second);
    joined.append(third);
    joined
}

} // verus!
