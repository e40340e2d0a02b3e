//! The session-state record: the sole entity the backend stores.

use vstd::prelude::*;

verus! {

/// Snapshot of one timed focus session, pushed by the UI and echoed back.
///
/// The UI computes the durations as double-precision values; the backend
/// never does arithmetic on them, it only stores and echoes them. They are
/// therefore held here as the raw IEEE 754 bit pattern of the duration
/// (`f64::to_bits` / `f64::from_bits` at the boundary); the bit pattern of
/// zero is `0`.
pub struct SessionState {
    /// Opaque identifier; `"idle"` is the sentinel for "no active session".
    pub session_id: String,
    /// Lifecycle label. Any string is accepted; the backend validates nothing.
    pub state: String,
    /// Elapsed time in seconds, as an IEEE 754 bit pattern.
    pub elapsed_seconds: u64,
    /// Remaining time in seconds, as an IEEE 754 bit pattern.
    pub remaining_seconds: u64,
    /// Planned session length in whole seconds.
    pub total_duration: i32,
    /// Optional free-text label for the task being worked on.
    pub task: Option<String>,
}

/// Mathematical model of a [`SessionState`]: each string as a character
/// sequence, the other fields as plain values.
pub ghost struct SessionStateView {
    pub session_id: Seq<char>,
    pub state: Seq<char>,
    pub elapsed_seconds: u64,
    pub remaining_seconds: u64,
    pub total_duration: i32,
    pub task: Option<Seq<char>>,
}

impl View for SessionState {
    type V = SessionStateView;

    open spec fn view(&self) -> SessionStateView {
        SessionStateView {
            session_id: self.session_id@,
            state: self.state@,
            elapsed_seconds: self.elapsed_seconds,
            remaining_seconds: self.remaining_seconds,
            total_duration: self.total_duration,
            task: match self.task {
                Some(t) => Some(t@),
                None => None,
            },
        }
    }
}

/// The record present before any session starts: both identifiers hold the
/// idle sentinel, all durations are zero, and there is no task.
pub open spec fn default_view() -> SessionStateView {
    SessionStateView {
        session_id: "idle"@,
        state: "idle"@,
        elapsed_seconds: 0,
        remaining_seconds: 0,
        total_duration: 0,
        task: None,
    }
}

/// The record after an abort: the lifecycle label becomes the abort sentinel
/// and the remaining time becomes zero; every other field is untouched.
pub open spec fn aborted_view(s: SessionStateView) -> SessionStateView {
    SessionStateView { state: "aborted"@, remaining_seconds: 0, ..s }
}

impl Default for SessionState {
    /// The default record: idle, all durations zero, no task.
    fn default() -> (r: SessionState)
        ensures
            r@ == default_view(),
    {
        SessionState {
            session_id: String::from_str("idle"),
            state: String::from_str("idle"),
            elapsed_seconds: 0,
            remaining_seconds: 0,
            total_duration: 0,
            task: None,
        }
    }
}

impl SessionState {
    /// Returns a copy of the record with the same model.
    pub fn duplicate(&self) -> (r: SessionState)
        ensures
            r@ == self@,
    {
        SessionState {
            session_id: self.session_id.clone(),
            state: self.state.clone(),
            elapsed_seconds: self.elapsed_seconds,
            remaining_seconds: self.remaining_seconds,
            total_duration: self.total_duration,
            task: match &self.task {
                Some(t) => Some(t.clone()),
                None => None,
            },
        }
    }
}

} // verus!
