//! The flag that keeps two update runs from overlapping (the startup
//! check and a check from the menu): two question dialogs, two writers of
//! the same temporary file, or the executable replaced twice.
//!
//! The flag is plain state; the program keeps the one guard of the process
//! behind a lock, so that each call below runs alone.

use vstd::prelude::*;

verus! {

/// Whether an update run holds the right to run.
#[derive(Debug)]
pub struct UpdateGuard {
    pub running: bool,
}

/// What an acquire gives on a guard in state `running`: whether it
/// succeeded, and the state after it.
pub open spec fn acquire_step(running: bool) -> (bool, bool) {
    (!running, true)
}

/// The state after a release: free, whatever it was.
pub open spec fn release_step(running: bool) -> bool {
    false
}

impl UpdateGuard {
    /// A free guard: no update is running.
    pub fn new() -> (g: UpdateGuard)
        ensures
            !g.running,
    {
        UpdateGuard { running: false }
    }
}

/// Tries to switch the flag from `false` to `true`; `true` when this call
/// did, `false` when an update was already running.
pub fn try_acquire(guard: &mut UpdateGuard) -> (r: bool)
    ensures
        (r, final(guard).running) == acquire_step(old(guard).running),
        r == !old(guard).running,
        final(guard).running,
{
    if guard.running {
        false
    } else {
        guard.running = true;
        true
    }
}

/// Sets the flag back to `false`.
pub fn release(guard: &mut UpdateGuard)
    ensures
        final(guard).running == release_step(old(guard).running),
        !final(guard).running,
{
    guard.running = false;
}

/// Whether an update is running now (the quit handler waits for it, so
/// that a replacement in progress is not cut off).
pub fn is_running(guard: &UpdateGuard) -> (r: bool)
    ensures
        r == guard.running,
{
    guard.running
}

/// Mutual exclusion of update runs: from any state, the first acquire
/// leaves the guard held, a second acquire while it is held fails and
/// keeps it held, and after a release an acquire succeeds again. The flag
/// reads `true` exactly between a successful acquire and the release.
pub proof fn law_guard_excludes_concurrent_runs(running: bool)
    ensures
        acquire_step(running).1,
        !acquire_step(acquire_step(running).1).0,
        acquire_step(acquire_step(running).1).1,
        acquire_step(release_step(acquire_step(running).1)).0,
        acquire_step(false).0,
        !release_step(running),
{
}

} // verus!
