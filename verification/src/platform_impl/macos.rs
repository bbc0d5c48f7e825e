//! The notification-center listener's logic: the four observed notification
//! names and the canonical event each one stands for. Registering the
//! observer object itself cannot fail in-protocol, so this listener has no
//! start decision of its own.

use vstd::prelude::*;

use crate::monitor::PowerState;

verus! {

/// One of the four notifications the observer registers for: two on the
/// distributed notification center, two on the workspace notification
/// center.
#[derive(Clone, Copy, Debug, PartialEq, Eq, Structural)]
pub enum Notification {
    /// `com.apple.screenIsLocked`, on the distributed center.
    ScreenIsLocked,
    /// `com.apple.screenIsUnlocked`, on the distributed center.
    ScreenIsUnlocked,
    /// `NSWorkspaceWillSleepNotification`, on the workspace center.
    WorkspaceWillSleep,
    /// `NSWorkspaceDidWakeNotification`, on the workspace center.
    WorkspaceDidWake,
}

/// Which canonical event each observed notification stands for.
pub open spec fn spec_notification_event(n: Notification) -> PowerState {
    match n {
        Notification::ScreenIsLocked => PowerState::ScreenLocked,
        Notification::ScreenIsUnlocked => PowerState::ScreenUnlocked,
        Notification::WorkspaceWillSleep => PowerState::Suspend,
        Notification::WorkspaceDidWake => PowerState::Resume,
    }
}

/// Maps one delivered notification to the canonical event it stands for;
/// the observer's callbacks forward exactly this value into the channel.
pub fn notification_event(n: &Notification) -> (r: PowerState)
    ensures
        r == spec_notification_event(*n),
{
    match n {
        Notification::ScreenIsLocked => PowerState::ScreenLocked,
        Notification::ScreenIsUnlocked => PowerState::ScreenUnlocked,
        Notification::WorkspaceWillSleep => PowerState::Suspend,
        Notification::WorkspaceDidWake => PowerState::Resume,
    }
}

/// The name under which each notification is registered with its center.
pub fn notification_name(n: &Notification) -> (r: &'static str)
    ensures
        *n == Notification::ScreenIsLocked ==> r@ == "com.apple.screenIsLocked"@,
        *n == Notification::ScreenIsUnlocked ==> r@ == "com.apple.screenIsUnlocked"@,
        *n == Notification::WorkspaceWillSleep ==> r@ == "NSWorkspaceWillSleepNotification"@,
        *n == Notification::WorkspaceDidWake ==> r@ == "NSWorkspaceDidWakeNotification"@,
{
    match n {
        Notification::ScreenIsLocked => "com.apple.screenIsLocked",
        Notification::ScreenIsUnlocked => "com.apple.screenIsUnlocked",
        Notification::WorkspaceWillSleep => "NSWorkspaceWillSleepNotification",
        Notification::WorkspaceDidWake => "NSWorkspaceDidWakeNotification",
    }
}

} // verus!
