//! Lets one profile operation (backup, restore, data-folder move) run at a
//! time.

use std::sync::atomic::AtomicBool;
use std::sync::Arc;

use vstd::prelude::*;

verus! {

/// A flag shared by everyone who may start a profile operation; it is set
/// while one runs.
#[derive(Clone, Default)]
pub struct ProfileOperationGate {
    flag: Arc<AtomicBool>,
}

/// Held while a profile operation runs; dropping it frees the flag again.
pub struct OperationGuard {
    flag: Arc<AtomicBool>,
}

impl ProfileOperationGate {
    pub fn new() -> (r: Self) {
        ProfileOperationGate { flag: Arc::new(AtomicBool::new(false)) }
    }

    /// The flag this gate shares.
    pub closed spec fn flag(&self) -> Arc<AtomicBool> {
        self.flag
    }

    /// Whether an operation runs now. Other threads may change that at any
    /// time, so nothing more is stated of the answer.
    pub fn is_acquired(&self) -> (r: bool) {
        self.flag.load(std::sync::atomic::Ordering::Acquire)
    }
}

impl OperationGuard {
    /// The flag this guard holds.
    pub closed spec fn flag(&self) -> Arc<AtomicBool> {
        self.flag
    }

    /// Takes the flag when it is free: the guard then holds that same flag.
    /// `None` when another operation holds it.
    pub fn try_acquire(gate: &ProfileOperationGate) -> (r: Option<OperationGuard>)
        ensures
            r matches Some(g) ==> g.flag() == gate.flag(),
    {
        match gate.flag.compare_exchange(
            false,
            true,
            std::sync::atomic::Ordering::AcqRel,
            std::sync::atomic::Ordering::Acquire,
        ) {
            Ok(_) => Some(OperationGuard { flag: Arc::clone(&gate.flag) }),
            Err(_) => None,
        }
    }
}

/// Wrapper of `AtomicBool::store` with `false`, which neither unwinds nor
/// touches any invariant.
#[verifier::external_body]
fn release_flag(flag: &AtomicBool)
    opens_invariants none
    no_unwind
{
    flag.store(false, std::sync::atomic::Ordering::Release);
}

impl Drop for OperationGuard {
    fn drop(&mut self)
        opens_invariants none
        no_unwind
    {
        release_flag(&self.flag);
    }
}

} // verus!
