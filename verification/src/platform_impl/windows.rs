//! The window-message listener's logic: power-broadcast and session-change
//! messages delivered to a hidden window are mapped to canonical events,
//! and a start succeeds exactly when both notification registrations do.

use vstd::prelude::*;

use crate::monitor::ListenerSetup;
use crate::monitor::PowerState;
use crate::monitor::StartError;

verus! {

/// `WM_POWERBROADCAST`: a power-management event reached the window.
pub const WM_POWERBROADCAST: u32 = 0x218;

/// `WM_WTSSESSION_CHANGE`: a session-state change reached the window.
pub const WM_WTSSESSION_CHANGE: u32 = 0x2B1;

/// `PBT_APMSUSPEND`: the machine is about to suspend.
pub const PBT_APMSUSPEND: u32 = 0x4;

/// `PBT_APMRESUMESUSPEND`: the machine resumed from suspend.
pub const PBT_APMRESUMESUSPEND: u32 = 0x7;

/// `WTS_SESSION_LOCK`: the session was locked.
pub const WTS_SESSION_LOCK: u32 = 0x7;

/// `WTS_SESSION_UNLOCK`: the session was unlocked.
pub const WTS_SESSION_UNLOCK: u32 = 0x8;

/// Which canonical event one window message stands for: the event code is
/// the message's `wParam`. Every other message falls through to default
/// processing and emits nothing.
pub open spec fn spec_message_event(message: u32, code: u32) -> Option<PowerState> {
    if message == WM_POWERBROADCAST {
        if code == PBT_APMSUSPEND {
            Some(PowerState::Suspend)
        } else if code == PBT_APMRESUMESUSPEND {
            Some(PowerState::Resume)
        } else {
            None
        }
    } else if message == WM_WTSSESSION_CHANGE {
        if code == WTS_SESSION_LOCK {
            Some(PowerState::ScreenLocked)
        } else if code == WTS_SESSION_UNLOCK {
            Some(PowerState::ScreenUnlocked)
        } else {
            None
        }
    } else {
        None
    }
}

/// Maps one delivered window message to the canonical event it stands for,
/// or to `None` for a message this listener does not translate.
pub fn message_event(message: u32, code: u32) -> (r: Option<PowerState>)
    ensures
        r == spec_message_event(message, code),
{
    if message == WM_POWERBROADCAST {
        if code == PBT_APMSUSPEND {
            Some(PowerState::Suspend)
        } else if code == PBT_APMRESUMESUSPEND {
            Some(PowerState::Resume)
        } else {
            None
        }
    } else if message == WM_WTSSESSION_CHANGE {
        if code == WTS_SESSION_LOCK {
            Some(PowerState::ScreenLocked)
        } else if code == WTS_SESSION_UNLOCK {
            Some(PowerState::ScreenUnlocked)
        } else {
            None
        }
    } else {
        None
    }
}

/// The start decision of this listener: listening begins exactly when both
/// the power-setting and the session-change registration succeeded, and a
/// failure names the first registration that was refused.
pub fn registration_outcome(power_notification: bool, session_notification: bool) -> (r:
    ListenerSetup)
    ensures
        (r == ListenerSetup::Subscribed) <==> (power_notification && session_notification),
        !power_notification ==> r == ListenerSetup::Unavailable(
            StartError::PowerNotificationRegistrationFailed,
        ),
        power_notification && !session_notification ==> r == ListenerSetup::Unavailable(
            StartError::SessionNotificationRegistrationFailed,
        ),
{
    if !power_notification {
        ListenerSetup::Unavailable(StartError::PowerNotificationRegistrationFailed)
    } else if !session_notification {
        ListenerSetup::Unavailable(StartError::SessionNotificationRegistrationFailed)
    } else {
        ListenerSetup::Subscribed
    }
}

} // verus!
