//! Focus guards: how many parts share the pair of guard elements at the edges
//! of the document body, and when the pair goes.

use vstd::prelude::*;

verus! {

/// The number of users after one more part installs the guards: one more than
/// before, or one for the first.
pub fn count_after_install(previous: Option<u32>) -> (r: u32)
    requires
        previous matches Some(c) ==> c < u32::MAX,
    ensures
        r == (match previous {
            Some(c) => c + 1,
            None => 1,
        }),
{
    match previous {
        Some(c) => c + 1,
        None => 1,
    }
}

/// On a part's cleanup the guards are removed when the shared count reads
/// one (an absent count reads zero).
pub fn cleanup_removes_guards(count: Option<u32>) -> (r: bool)
    ensures
        r == (count == Some(1u32)),
{
    match count {
        Some(c) => c == 1,
        None => false,
    }
}

/// The shared count after a part's cleanup: one less, when there is a count.
pub fn count_after_cleanup(count: Option<u32>) -> (r: Option<u32>)
    requires
        count matches Some(c) ==> c > 0,
    ensures
        r == (match count {
            Some(c) => Some((c - 1) as u32),
            None => None,
        }),
{
    match count {
        Some(c) => Some(c - 1),
        None => None,
    }
}

} // verus!
