//! Order in which the levels are played.
use vstd::prelude::*;

verus! {

/// The level that follows `level`: the last level, 2, leads back to the
/// first.
pub fn next_level(level: u32) -> (r: u32)
    requires
        level < u32::MAX,
    ensures
        r == if level == 2 {
            1
        } else {
            level + 1
        },
{
    if level == 2 {
        1
    } else {
        level + 1
    }
}

} // verus!
