use power_monitor::channel::ChannelCore;
use power_monitor::monitor::PowerEventChannel;
use power_monitor::monitor::PowerState;

#[test]
fn empty_poll_returns_nothing() {
    let channel = PowerEventChannel::new();
    let rx = channel.receiver();
    assert_eq!(rx.try_recv(), None);
    assert_eq!(rx.try_recv(), None);
}

#[test]
fn suspend_then_resume_polls_in_order() {
    let channel = PowerEventChannel::new();
    let rx = channel.receiver();
    let tx = channel.sender();
    tx.send(PowerState::Suspend);
    tx.send(PowerState::Resume);
    assert_eq!(rx.try_recv(), Some(PowerState::Suspend));
    assert_eq!(rx.try_recv(), Some(PowerState::Resume));
    assert_eq!(rx.try_recv(), None);
}

#[test]
fn fifo_order_per_handle() {
    let channel = PowerEventChannel::new();
    let rx = channel.receiver();
    let tx = channel.sender();
    let sent = vec![
        PowerState::ScreenLocked,
        PowerState::Suspend,
        PowerState::Resume,
        PowerState::ScreenUnlocked,
        PowerState::Unknown,
    ];
    for ev in &sent {
        tx.send(*ev);
    }
    let mut seen = Vec::new();
    while let Some(ev) = rx.try_recv() {
        seen.push(ev);
    }
    assert_eq!(seen, sent);
}

#[test]
fn two_receivers_observe_identical_events() {
    let channel = PowerEventChannel::new();
    let a = channel.receiver();
    let b = channel.receiver();
    let tx = channel.sender();
    tx.send(PowerState::ScreenLocked);
    tx.send(PowerState::ScreenUnlocked);
    // a polls eagerly, b polls late: both observe the same sequence.
    assert_eq!(a.try_recv(), Some(PowerState::ScreenLocked));
    tx.send(PowerState::Suspend);
    assert_eq!(a.try_recv(), Some(PowerState::ScreenUnlocked));
    assert_eq!(a.try_recv(), Some(PowerState::Suspend));
    assert_eq!(a.try_recv(), None);
    assert_eq!(b.try_recv(), Some(PowerState::ScreenLocked));
    assert_eq!(b.try_recv(), Some(PowerState::ScreenUnlocked));
    assert_eq!(b.try_recv(), Some(PowerState::Suspend));
    assert_eq!(b.try_recv(), None);
}

#[test]
fn late_receiver_misses_past_events() {
    let channel = PowerEventChannel::new();
    let tx = channel.sender();
    tx.send(PowerState::Suspend);
    let rx = channel.receiver();
    assert_eq!(rx.try_recv(), None);
    tx.send(PowerState::Resume);
    assert_eq!(rx.try_recv(), Some(PowerState::Resume));
    assert_eq!(rx.try_recv(), None);
}

#[test]
fn handles_share_one_channel() {
    let channel = PowerEventChannel::new();
    let tx_one = channel.sender();
    let tx_two = channel.sender();
    let rx = channel.receiver();
    tx_one.send(PowerState::ScreenLocked);
    tx_two.send(PowerState::ScreenUnlocked);
    assert_eq!(rx.try_recv(), Some(PowerState::ScreenLocked));
    assert_eq!(rx.try_recv(), Some(PowerState::ScreenUnlocked));
    assert_eq!(rx.try_recv(), None);
}

#[test]
fn send_without_receivers_is_ignored() {
    let channel = PowerEventChannel::new();
    let tx = channel.sender();
    tx.send(PowerState::Unknown);
    let rx = channel.receiver();
    assert_eq!(rx.try_recv(), None);
}

#[test]
fn core_broadcasts_to_each_cursor() {
    let mut core = ChannelCore::new();
    let a = core.register();
    core.send(PowerState::Suspend);
    let b = core.register();
    core.send(PowerState::Resume);
    assert_eq!(core.try_recv(a), Some(PowerState::Suspend));
    assert_eq!(core.try_recv(a), Some(PowerState::Resume));
    assert_eq!(core.try_recv(a), None);
    assert_eq!(core.try_recv(b), Some(PowerState::Resume));
    assert_eq!(core.try_recv(b), None);
    assert_eq!(core.receiver_count(), 2);
}
