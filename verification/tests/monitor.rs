use power_monitor::monitor::ListenerSetup;
use power_monitor::monitor::PowerMonitor;
use power_monitor::monitor::PowerState;
use power_monitor::monitor::StartError;
use power_monitor::platform_impl::linux;
use power_monitor::platform_impl::windows;

#[test]
fn start_succeeds_when_subscribed() {
    let mut monitor = PowerMonitor::new();
    assert_eq!(monitor.start_listening(ListenerSetup::Subscribed), Ok(()));
}

#[test]
fn start_reports_each_failure() {
    let mut monitor = PowerMonitor::new();
    for err in [
        StartError::UnsupportedDesktop,
        StartError::SystemBusUnavailable,
        StartError::SuspendMonitorUnavailable,
        StartError::LockMonitorUnavailable,
        StartError::PowerNotificationRegistrationFailed,
        StartError::SessionNotificationRegistrationFailed,
    ] {
        assert_eq!(monitor.start_listening(ListenerSetup::Unavailable(err)), Err(err));
    }
}

#[test]
fn lock_facility_unavailable_degrades_gracefully() {
    // The platform listener reports that lock monitoring cannot be set up:
    // the start fails with that reason, nothing is emitted on the channel,
    // and the monitor keeps running.
    let mut monitor = PowerMonitor::new();
    let rx = monitor.event_receiver();
    let setup = linux::subscription_outcome(true, true, true, false);
    let outcome = monitor.start_listening(setup);
    assert_eq!(outcome, Err(StartError::LockMonitorUnavailable));
    assert_eq!(rx.try_recv(), None);
    assert_eq!(monitor.event_receiver().try_recv(), None);
}

#[test]
fn receiver_before_or_after_start() {
    let mut monitor = PowerMonitor::new();
    let early = monitor.event_receiver();
    assert_eq!(monitor.start_listening(ListenerSetup::Subscribed), Ok(()));
    let late = monitor.event_receiver();
    let tx = monitor.event_sender();
    tx.send(PowerState::ScreenLocked);
    assert_eq!(early.try_recv(), Some(PowerState::ScreenLocked));
    assert_eq!(late.try_recv(), Some(PowerState::ScreenLocked));
}

#[test]
fn default_monitor_is_fresh() {
    let monitor = PowerMonitor::default();
    assert_eq!(monitor.event_receiver().try_recv(), None);
}

#[test]
fn linux_subscription_outcome_first_failure_wins() {
    assert_eq!(linux::subscription_outcome(true, true, true, true), ListenerSetup::Subscribed);
    assert_eq!(
        linux::subscription_outcome(false, true, true, true),
        ListenerSetup::Unavailable(StartError::UnsupportedDesktop)
    );
    assert_eq!(
        linux::subscription_outcome(false, false, false, false),
        ListenerSetup::Unavailable(StartError::UnsupportedDesktop)
    );
    assert_eq!(
        linux::subscription_outcome(true, false, true, true),
        ListenerSetup::Unavailable(StartError::SystemBusUnavailable)
    );
    assert_eq!(
        linux::subscription_outcome(true, true, false, true),
        ListenerSetup::Unavailable(StartError::SuspendMonitorUnavailable)
    );
    assert_eq!(
        linux::subscription_outcome(true, true, true, false),
        ListenerSetup::Unavailable(StartError::LockMonitorUnavailable)
    );
}

#[test]
fn windows_registration_outcome_names_first_refusal() {
    assert_eq!(windows::registration_outcome(true, true), ListenerSetup::Subscribed);
    assert_eq!(
        windows::registration_outcome(false, true),
        ListenerSetup::Unavailable(StartError::PowerNotificationRegistrationFailed)
    );
    assert_eq!(
        windows::registration_outcome(false, false),
        ListenerSetup::Unavailable(StartError::PowerNotificationRegistrationFailed)
    );
    assert_eq!(
        windows::registration_outcome(true, false),
        ListenerSetup::Unavailable(StartError::SessionNotificationRegistrationFailed)
    );
}

#[test]
fn error_messages_name_the_facility() {
    assert_eq!(
        StartError::UnsupportedDesktop.message(),
        "desktop environment does not support lock monitoring"
    );
    assert_eq!(StartError::SystemBusUnavailable.message(), "D-Bus not available");
    assert_eq!(StartError::SuspendMonitorUnavailable.message(), "suspend state not available");
    assert_eq!(StartError::LockMonitorUnavailable.message(), "screen lock state not available");
    assert_eq!(
        StartError::PowerNotificationRegistrationFailed.message(),
        "failed to register power setting notification"
    );
    assert_eq!(
        StartError::SessionNotificationRegistrationFailed.message(),
        "failed to register session notification"
    );
}
