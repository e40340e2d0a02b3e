//! Backend core of a desktop focus-timer overlay: one shared session-state
//! record with read/replace/abort operations and outbound UI notifications.
//!
//! The windowing runtime (window visibility, hotkey registration, the mutex
//! around the store, and event delivery) lives outside this library; the
//! library holds the record itself and the state-synchronization logic.

pub mod gateway;
pub mod session;
pub mod store;
