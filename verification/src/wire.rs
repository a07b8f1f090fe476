//! Counts as they travel on the wire.

use vstd::prelude::*;

verus! {

/// The wire form of a count: the count itself, saturated at `u32::MAX`.
pub open spec fn wire_count_of(n: int) -> u32 {
    if n <= u32::MAX { n as u32 } else { u32::MAX }
}

pub fn wire_count(n: usize) -> (r: u32)
    ensures
        r == wire_count_of(n as int),
{
    if n <= u32::MAX as usize {
        n as u32
    } else {
        u32::MAX
    }
}

} // verus!
