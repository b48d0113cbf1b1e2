//! A lock-guarded cell holding the process-wide tray mode.
//!
//! The host framework may deliver menu callbacks concurrently on its own
//! threads, so the read-modify-write of the mode and the icon-asset request
//! it decides must be atomic as a unit. The cell exposes the mode only
//! through such atomic operations; no raw mutable reference escapes. Each
//! toggle is one serialized step, so a run of concurrent toggles ends in the
//! mode that `spec_mode_after_toggles` gives for their count (see
//! `lemma_toggles_serialize`).

use vstd::prelude::*;
use vstd::rwlock::RwLock;
use vstd::rwlock::RwLockPredicate;
use crate::tray_state::IconAsset;
use crate::tray_state::TrayState;
use crate::tray_state::spec_icon_request;
use crate::tray_state::spec_toggled;
use crate::tray_state::toggle_step;

verus! {

/// Every tray mode is a legal content of the cell.
pub struct AnyMode {}

impl RwLockPredicate<TrayState> for AnyMode {
    open spec fn inv(self, v: TrayState) -> bool {
        true
    }
}

/// The single authoritative tray mode, shared across concurrent event
/// callbacks and guarded by a mutual-exclusion lock.
pub struct TrayStateCell {
    lock: RwLock<TrayState, AnyMode>,
}

impl TrayStateCell {
    /// A cell starting in mode `init`.
    pub fn new(init: TrayState) -> TrayStateCell {
        TrayStateCell { lock: RwLock::new(init, Ghost(AnyMode {})) }
    }

    /// The mode at some instant between the call and the return; other
    /// threads may change it again once the internal lock is released.
    pub fn read(&self) -> TrayState {
        let handle = self.lock.acquire_read();
        let mode = *handle.borrow();
        handle.release_read();
        mode
    }

    /// Atomically toggles the mode: one read-modify-write under the lock.
    /// Returns the mode found, the mode stored, and the icon-asset swap the
    /// host tray must be asked for (none on the `Paused` no-op); the stored
    /// mode and the request are exactly one toggle step from the found mode.
    pub fn toggle_icon_state(&self) -> (r: (TrayState, TrayState, Option<IconAsset>))
        ensures
            r.1 == spec_toggled(r.0),
            r.2 == spec_icon_request(r.0),
    {
        let (prev, write_handle) = self.lock.acquire_write();
        let (next, request) = toggle_step(prev);
        write_handle.release_write(next);
        (prev, next, request)
    }
}

} // verus!
