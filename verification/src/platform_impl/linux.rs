//! The D-Bus listener's logic: login-session notifications are mapped to
//! canonical events, the desktop-environment name decides whether lock
//! monitoring is supported at all, and a start succeeds exactly when every
//! subscription along the way could be installed.

use vstd::prelude::*;

use crate::monitor::ListenerSetup;
use crate::monitor::PowerState;
use crate::monitor::StartError;

verus! {

/// One notification delivered by the login manager's D-Bus interfaces.
#[derive(Clone, Copy, Debug, PartialEq, Eq, Structural)]
pub enum SessionSignal {
    /// The Manager's `PrepareForShutdown(bool)` signal. Observed, but
    /// deliberately not mapped to an emitted event.
    PrepareForShutdown(bool),
    /// The Manager's `PrepareForSleep(bool)` signal. Observed, but
    /// deliberately not mapped to an emitted event.
    PrepareForSleep(bool),
    /// The Session's `LockedHint` property now has the given value.
    LockedHintChanged(bool),
    /// The Session's `Unlock` signal.
    Unlock,
}

/// Which canonical event a session notification stands for, given the last
/// observed value of `LockedHint`: only a false-to-true transition of the
/// property emits `ScreenLocked`, only the `Unlock` signal emits
/// `ScreenUnlocked`, and the two prepare signals emit nothing.
pub open spec fn spec_session_event(locked_hint: bool, signal: SessionSignal) -> Option<
    PowerState,
> {
    match signal {
        SessionSignal::LockedHintChanged(b) => if b && !locked_hint {
            Some(PowerState::ScreenLocked)
        } else {
            None
        },
        SessionSignal::Unlock => Some(PowerState::ScreenUnlocked),
        SessionSignal::PrepareForShutdown(_) => None,
        SessionSignal::PrepareForSleep(_) => None,
    }
}

/// Translates session notifications into canonical events, remembering the
/// last `LockedHint` value so that a rising edge of the property emits
/// exactly one `ScreenLocked` and its falling edge emits nothing.
pub struct SessionEventMapper {
    locked_hint: bool,
}

impl SessionEventMapper {
    /// The last `LockedHint` value this mapper has seen.
    pub closed spec fn hint(&self) -> bool {
        self.locked_hint
    }

    /// A mapper that has not yet seen the session locked.
    pub fn new() -> (m: SessionEventMapper)
        ensures
            !m.hint(),
    {
        SessionEventMapper { locked_hint: false }
    }

    /// Maps one delivered notification to the event to emit, if any, and
    /// tracks the `LockedHint` property; every other part of the state of
    /// the world is left alone.
    pub fn map_signal(&mut self, signal: &SessionSignal) -> (r: Option<PowerState>)
        ensures
            r == spec_session_event(old(self).hint(), *signal),
            final(self).hint() == (match *signal {
                SessionSignal::LockedHintChanged(b) => b,
                _ => old(self).hint(),
            }),
    {
        match signal {
            SessionSignal::LockedHintChanged(b) => {
                let was = self.locked_hint;
                self.locked_hint = *b;
                if *b && !was {
                    Some(PowerState::ScreenLocked)
                } else {
                    None
                }
            },
            SessionSignal::Unlock => Some(PowerState::ScreenUnlocked),
            SessionSignal::PrepareForShutdown(_) => None,
            SessionSignal::PrepareForSleep(_) => None,
        }
    }
}

/// Whether `c` is `l` once upper-case ASCII letters are folded to lower
/// case; `l` is expected lower-case.
pub open spec fn folds_to(c: char, l: char) -> bool {
    c == l || ('A' as u32 <= c as u32 && c as u32 <= 'Z' as u32 && c as u32 + 32 == l as u32)
}

/// Whether `pat` occurs in `s` at position `i`, ignoring ASCII case in `s`.
pub open spec fn matches_folded_at(s: Seq<char>, pat: Seq<char>, i: int) -> bool {
    forall|k: int| 0 <= k < pat.len() ==> #[trigger] folds_to(s[i + k], pat[k])
}

/// Whether `pat` occurs anywhere in `s`, ignoring ASCII case in `s`.
pub open spec fn contains_folded(s: Seq<char>, pat: Seq<char>) -> bool {
    exists|i: int| 0 <= i && i + pat.len() <= s.len() && #[trigger] matches_folded_at(s, pat, i)
}

/// Whether `c` is `l` under ASCII case folding.
fn char_folds_to(c: char, l: char) -> (r: bool)
    ensures
        r == folds_to(c, l),
{
    c == l || ('A' as u32 <= c as u32 && c as u32 <= 'Z' as u32 && (c as u32) + 32 == (l as u32))
}

/// Whether `pat` occurs in `s` at position `i`, ignoring ASCII case in `s`.
fn matches_at(s: &str, pat: &str, i: usize) -> (r: bool)
    requires
        i + pat@.len() <= s@.len(),
        s@.len() <= usize::MAX,
    ensures
        r == matches_folded_at(s@, pat@, i as int),
{
    let m = pat.unicode_len();
    let mut k: usize = 0;
    while k < m
        invariant
            k <= m,
            m == pat@.len(),
            i + m <= s@.len(),
            s@.len() <= usize::MAX,
            forall|j: int| 0 <= j < k ==> #[trigger] folds_to(s@[i + j], pat@[j]),
        decreases m - k,
    {
        let sc = s.get_char(i + k);
        let pc = pat.get_char(k);
        if !char_folds_to(sc, pc) {
            assert(!folds_to(s@[i as int + k as int], pat@[k as int]));
            return false;
        }
        k += 1;
    }
    true
}

/// Whether `pat` occurs anywhere in `s`, ignoring ASCII case in `s`.
pub fn contains_ascii_folded(s: &str, pat: &str) -> (r: bool)
    ensures
        r == contains_folded(s@, pat@),
{
    let n = s.unicode_len();
    let m = pat.unicode_len();
    if m > n {
        return false;
    }
    let bound = n - m;
    let mut i: usize = 0;
    while i <= bound
        invariant
            m <= n,
            n == s@.len(),
            m == pat@.len(),
            bound == n - m,
            i <= bound + 1,
            forall|j: int| 0 <= j < i ==> !#[trigger] matches_folded_at(s@, pat@, j),
        decreases bound + 1 - i,
    {
        if matches_at(s, pat, i) {
            return true;
        }
        i += 1;
    }
    false
}

/// Whether the desktop environment named by the session (the value of
/// `XDG_CURRENT_DESKTOP`, absent when unset) exposes the login session's
/// lock state: a Unity or GNOME session does, and the name is matched
/// ignoring ASCII case.
pub fn desktop_supports_lock_monitoring(desktop: Option<&str>) -> (r: bool)
    ensures
        r == match desktop {
            Some(d) => contains_folded(d@, "unity"@) || contains_folded(d@, "gnome"@),
            None => false,
        },
{
    match desktop {
        Some(d) => contains_ascii_folded(d, "unity") || contains_ascii_folded(d, "gnome"),
        None => false,
    }
}

/// The start decision of this listener. The subscriptions are attempted in
/// a fixed order — desktop support, the system bus, the suspend signals,
/// the lock monitoring — and the outcome is success exactly when all four
/// are in place, or else names the first stage that failed.
pub fn subscription_outcome(
    desktop_supported: bool,
    system_bus: bool,
    suspend_monitor: bool,
    lock_monitor: bool,
) -> (r: ListenerSetup)
    ensures
        (r == ListenerSetup::Subscribed) <==> (desktop_supported && system_bus && suspend_monitor
            && lock_monitor),
        !desktop_supported ==> r == ListenerSetup::Unavailable(StartError::UnsupportedDesktop),
        desktop_supported && !system_bus ==> r == ListenerSetup::Unavailable(
            StartError::SystemBusUnavailable,
        ),
        desktop_supported && system_bus && !suspend_monitor ==> r == ListenerSetup::Unavailable(
            StartError::SuspendMonitorUnavailable,
        ),
        desktop_supported && system_bus && suspend_monitor && !lock_monitor ==> r
            == ListenerSetup::Unavailable(StartError::LockMonitorUnavailable),
{
    if !desktop_supported {
        ListenerSetup::Unavailable(StartError::UnsupportedDesktop)
    } else if !system_bus {
        ListenerSetup::Unavailable(StartError::SystemBusUnavailable)
    } else if !suspend_monitor {
        ListenerSetup::Unavailable(StartError::SuspendMonitorUnavailable)
    } else if !lock_monitor {
        ListenerSetup::Unavailable(StartError::LockMonitorUnavailable)
    } else {
        ListenerSetup::Subscribed
    }
}

} // verus!
