//! The social baseline refresh: what a rebuilt friend roster means for the
//! refresh's outcome.

use vstd::prelude::*;

verus! {

/// The outcome of a roster rebuild: `(stale, emit_friend_log_changed)`.
/// Without a roster the refresh is stale and nothing is announced; with
/// one it is current, and a friend-log change is announced.
pub fn baseline_outcome(roster_present: bool, friend_log_changed: bool) -> (r: (bool, bool))
    ensures
        r.0 == !roster_present,
        r.1 == (roster_present && friend_log_changed),
{
    if !roster_present {
        (true, false)
    } else {
        (false, friend_log_changed)
    }
}

} // verus!
