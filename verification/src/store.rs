//! The state store: owner of the one session-state record.
//!
//! Exactly one instance exists per process, created at startup with the
//! default record. The caller wraps it in a mutual-exclusion primitive; every
//! operation here touches the whole record at once, so a reader that holds
//! the lock never observes a partially updated record.

use vstd::prelude::*;

use crate::session::{aborted_view, default_view, SessionState, SessionStateView};

verus! {

/// Holds the single [`SessionState`] record.
pub struct StateStore {
    record: SessionState,
}

impl View for StateStore {
    type V = SessionStateView;

    closed spec fn view(&self) -> SessionStateView {
        self.record@
    }
}

impl StateStore {
    /// Creates the store with the default record, so the record is readable
    /// before any session starts.
    pub fn new() -> (r: StateStore)
        ensures
            r@ == default_view(),
    {
        StateStore { record: SessionState::default() }
    }

    /// Returns a copy of the current record.
    pub fn get(&self) -> (r: SessionState)
        ensures
            r@ == self@,
    {
        self.record.duplicate()
    }

    /// Swaps the stored record for `new_state`, whole-record and unvalidated:
    /// any field contents are accepted and stored as-is.
    pub fn replace(&mut self, new_state: SessionState)
        ensures
            final(self)@ == new_state@,
    {
        self.record = new_state;
    }

    /// Read-modify-write for the abort path: sets the lifecycle label to the
    /// abort sentinel and the remaining time to zero, leaving every other
    /// field as it was.
    pub fn abort(&mut self)
        ensures
            final(self)@ == aborted_view(old(self)@),
    {
        self.record.state = String::from_str("aborted");
        self.record.remaining_seconds = 0;
    }
}

} // verus!
