//! The shared-state cache: exactly one latest snapshot behind a
//! reader/writer lock, readable by many tasks at once, replaced wholesale by
//! the one polling task.
//!
//! Atomicity comes from `vstd::rwlock::RwLock`: a reader borrows the stored
//! snapshot only while holding a read handle, and a writer swaps the whole
//! value while holding the exclusive write handle, so no reader can ever see
//! a value mixing fields of two snapshots. Network work never happens under
//! the lock — callers pass in fully built snapshots.

use vstd::prelude::*;
use vstd::rwlock::RwLock;

use crate::info::ServerInfo;

verus! {

/// Holds the single latest [`ServerInfo`]. Created once before the first
/// poll, then replaced in place each successful cycle for the process's
/// lifetime.
pub struct SharedStateCache {
    slot: RwLock<ServerInfo, spec_fn(ServerInfo) -> bool>,
}

impl SharedStateCache {
    /// The cache deliberately imposes no invariant on the snapshots it
    /// stores: in particular an overfull server (`players > max_players`)
    /// is cached as observed rather than rejected.
    pub closed spec fn wf(&self) -> bool {
        forall|s: ServerInfo| #[trigger] self.slot.inv(s)
    }

    /// A cache holding the given initial snapshot (typically the first
    /// successful poll's result, or a default before it).
    pub fn new(initial: ServerInfo) -> (c: SharedStateCache)
        ensures
            c.wf(),
    {
        let c = SharedStateCache { slot: RwLock::new(initial, Ghost(|s: ServerInfo| true)) };
        proof {
            assert forall|s: ServerInfo| #[trigger] c.slot.inv(s) by {}
        }
        c
    }

    /// Replaces the stored snapshot wholesale and hands back the previous
    /// one. Blocks readers only for the duration of the swap.
    pub fn replace(&self, next: ServerInfo) -> (prev: ServerInfo)
        requires
            self.wf(),
    {
        let (prev, write_handle) = self.slot.acquire_write();
        write_handle.release_write(next);
        prev
    }

    /// A faithful copy of the currently stored snapshot: every field comes
    /// from the same single stored value, never from two different writes.
    pub fn read(&self) -> (snapshot: ServerInfo)
        requires
            self.wf(),
    {
        let handle = self.slot.acquire_read();
        let snapshot = handle.borrow().duplicate();
        handle.release_read();
        snapshot
    }
}

} // verus!
