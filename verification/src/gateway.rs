//! The remote-invocable operations and the notifications they emit.
//!
//! Each operation mutates or reads the store and returns the notification to
//! deliver, if any. Delivery itself is fire-and-forget and belongs to the
//! surrounding runtime: the caller performs the emit after the operation has
//! returned, so a slow or failing delivery never blocks the store.

use vstd::prelude::*;

use crate::session::{aborted_view, SessionState, SessionStateView};
use crate::store::StateStore;

verus! {

/// One outbound notification to the UI layer.
pub enum Notification {
    /// The record was replaced; carries the record just stored.
    SessionUpdated(SessionState),
    /// The session was aborted; empty payload.
    SessionAborted,
    /// The global Escape hotkey was pressed; empty payload. The UI, not the
    /// backend, decides whether this should trigger an abort call.
    EscapePressed,
}

/// The record stored after a whole-record replacement: the payload itself,
/// regardless of what was stored before (last writer wins, no merging).
pub open spec fn apply_update(s: SessionStateView, payload: SessionStateView) -> SessionStateView {
    payload
}

/// Returns a copy of the current record.
pub fn get_session_state(store: &StateStore) -> (r: SessionState)
    ensures
        r@ == store@,
{
    store.get()
}

/// Replaces the stored record with `new_state` and hands back exactly one
/// `SessionUpdated` notification whose payload equals the record just stored.
pub fn update_session_state(store: &mut StateStore, new_state: SessionState) -> (n: Notification)
    ensures
        final(store)@ == apply_update(old(store)@, new_state@),
        (n matches Notification::SessionUpdated(p) && p@ == final(store)@),
{
    let payload = new_state.duplicate();
    store.replace(new_state);
    Notification::SessionUpdated(payload)
}

/// Sets the lifecycle label to the abort sentinel and the remaining time to
/// zero, leaving every other field as it was, and hands back `true` together
/// with exactly one empty-payload `SessionAborted` notification.
pub fn abort_session(store: &mut StateStore) -> (r: (bool, Notification))
    ensures
        final(store)@ == aborted_view(old(store)@),
        r.0 == true,
        r.1 is SessionAborted,
{
    store.abort();
    (true, Notification::SessionAborted)
}

/// The global-hotkey handler's decision: emit an empty-payload
/// `EscapePressed` notification, with no store interaction.
pub fn escape_pressed() -> (n: Notification)
    ensures
        n is EscapePressed,
{
    Notification::EscapePressed
}

/// Last writer wins: after any two replacements in sequence, the stored
/// record is exactly the payload of the later one, whatever was stored
/// before and whatever the earlier payload was. By induction the same holds
/// of any sequence of replacements: a read after the last one returns its
/// payload.
pub proof fn lemma_last_writer_wins(
    s0: SessionStateView,
    first: SessionStateView,
    second: SessionStateView,
)
    ensures
        apply_update(apply_update(s0, first), second) == second,
{
}

/// An abort changes only the lifecycle label (to the abort sentinel) and the
/// remaining time (to zero); every other field keeps its pre-abort value.
pub proof fn lemma_abort_changes_two_fields(s: SessionStateView)
    ensures
        aborted_view(s).state == "aborted"@,
        aborted_view(s).remaining_seconds == 0,
        aborted_view(s).session_id == s.session_id,
        aborted_view(s).elapsed_seconds == s.elapsed_seconds,
        aborted_view(s).total_duration == s.total_duration,
        aborted_view(s).task == s.task,
{
}

} // verus!
