//! Per-OS translation of native notifications into canonical power events.
//!
//! Each submodule holds the decision logic of one platform listener: which
//! [`crate::monitor::PowerState`] a native notification stands for, and
//! whether installing the native subscriptions counts as a successful start.
//! The native mechanisms themselves — D-Bus connections and streams, the
//! notification-center observer object, the hidden window and its message
//! pump — live outside this library and feed these functions plain values.

pub mod linux;
pub mod macos;
pub mod windows;
