//! Webhook intake filtering: a push event whose "after" commit identifier
//! consists entirely of zero characters marks a branch deletion and must not
//! start a build.
use vstd::prelude::*;

verus! {

/// A commit identifier of this shape (one or more characters, all `'0'`)
/// marks a deleted branch: there is nothing to build.
pub open spec fn is_all_zeros(s: Seq<char>) -> bool {
    s.len() > 0 && forall|i: int| 0 <= i < s.len() ==> s[i] == '0'
}

/// Decides whether a push event with the given "after" commit identifier
/// starts a build: every event does, except the all-zero deletion marker.
pub fn should_build(after: &str) -> (b: bool)
    ensures
        b == !is_all_zeros(after@),
{
    let len = after.unicode_len();
    if len == 0 {
        return true;
    }
    let mut i: usize = 0;
    while i < len
        invariant
            0 < len == after@.len(),
            0 <= i <= len,
            forall|k: int| 0 <= k < i ==> after@[k] == '0',
        decreases len - i,
    {
        if after.get_char(i) != '0' {
            return true;
        }
        i += 1;
    }
    false
}

} // verus!
