//! The consumer-facing surface: canonical power events, the shared event
//! channel with its send and receive handles, and the monitor facade.

use std::sync::Arc;
use vstd::prelude::*;
use vstd::rwlock::RwLock;

use crate::channel::ChannelCore;
use crate::channel::ChannelInv;
use crate::channel::ChannelModel;
use crate::channel::send_transition;

verus! {

/// A canonical power event. Every platform notification a listener observes
/// is normalized into one of these five values before it reaches a consumer;
/// no platform-specific event type ever crosses the event channel.
#[derive(Clone, Copy, Debug, PartialEq, Eq, Structural)]
pub enum PowerState {
    Unknown,
    Suspend,
    Resume,
    ScreenLocked,
    ScreenUnlocked,
}

/// Relies on std's `Arc::clone`: the returned `Arc` points to the same
/// allocation as the argument, so the two are equal.
#[verifier::external_body]
fn arc_share<T>(a: &Arc<T>) -> (r: Arc<T>)
    ensures
        r == *a,
{
    Arc::clone(a)
}

/// The event channel: a broadcast queue of [`PowerState`] values shared by
/// every producer and consumer that holds a handle on it.
///
/// All handles obtained from one channel point at one underlying
/// [`ChannelCore`], guarded by a verified reader-writer lock whose invariant
/// is the channel invariant [`ChannelModel::wf`]. The exact meaning of each
/// operation — what one atomic step does to the queue — is stated on the
/// methods of [`ChannelCore`].
pub struct PowerEventChannel {
    lock: Arc<RwLock<ChannelCore, ChannelInv>>,
}

/// A handle for enqueueing events, usable from any thread. Sending never
/// blocks the producer and never fails observably.
pub struct Sender {
    lock: Arc<RwLock<ChannelCore, ChannelInv>>,
}

/// A handle for polling events. Each receiver has its own cursor into the
/// channel: it observes, in emission order, exactly the events sent after
/// it was created, independently of every other receiver.
pub struct Receiver {
    lock: Arc<RwLock<ChannelCore, ChannelInv>>,
    cursor: usize,
}

impl PowerEventChannel {
    /// The shared queue this value is a handle on.
    pub closed spec fn hub(&self) -> Arc<RwLock<ChannelCore, ChannelInv>> {
        self.lock
    }

    /// Creates a fresh channel with no history and no receivers.
    pub fn new() -> (c: PowerEventChannel) {
        let core = ChannelCore::new();
        let lock = RwLock::new(core, Ghost(ChannelInv {}));
        PowerEventChannel { lock: Arc::new(lock) }
    }

    /// Returns another first-class handle on this same channel, for wiring
    /// one channel into several owners.
    pub fn handle(&self) -> (c: PowerEventChannel)
        ensures
            c.hub() == self.hub(),
    {
        PowerEventChannel { lock: arc_share(&self.lock) }
    }

    /// Returns a handle usable from any thread to enqueue a [`PowerState`]
    /// on this same channel.
    pub fn sender(&self) -> (s: Sender)
        ensures
            s.hub() == self.hub(),
    {
        Sender { lock: arc_share(&self.lock) }
    }

    /// Registers a new receiver on this same channel and returns its
    /// handle. The receiver observes only events sent after this call.
    pub fn receiver(&self) -> (r: Receiver)
        ensures
            r.hub() == self.hub(),
    {
        let (mut core, handle) = self.lock.acquire_write();
        let id = core.register();
        handle.release_write(core);
        Receiver { lock: arc_share(&self.lock), cursor: id }
    }
}

impl Sender {
    /// The shared queue this value is a handle on.
    pub closed spec fn hub(&self) -> Arc<RwLock<ChannelCore, ChannelInv>> {
        self.lock
    }

    /// Returns another send handle on this same channel; producers on
    /// different threads each hold their own.
    pub fn duplicate(&self) -> (s: Sender)
        ensures
            s.hub() == self.hub(),
    {
        Sender { lock: arc_share(&self.lock) }
    }

    /// Enqueues an event for every receiver registered at this moment:
    /// one atomic [`send_transition`] between well-formed channel states.
    /// The call never blocks on a consumer and reports no failure.
    pub fn send(&self, state: PowerState)
        ensures
            exists|pre: ChannelModel, post: ChannelModel|
                pre.wf() && post.wf() && send_transition(pre, post, state),
    {
        let (mut core, handle) = self.lock.acquire_write();
        let ghost pre = core@;
        core.send(state);
        proof {
            assert(send_transition(pre, core@, state));
        }
        handle.release_write(core);
    }
}

impl Receiver {
    /// The shared queue this value is a handle on.
    pub closed spec fn hub(&self) -> Arc<RwLock<ChannelCore, ChannelInv>> {
        self.lock
    }

    /// This receiver's cursor on the shared queue.
    pub closed spec fn cursor_id(&self) -> int {
        self.cursor as int
    }

    /// Polls for the next event: returns the oldest event sent after this
    /// receiver was created and not yet observed by it, or `None`,
    /// immediately and without error, when nothing is pending. Whatever
    /// comes back was, at the moment of the poll, the head of this
    /// receiver's pending queue; see [`ChannelCore::try_recv`] for the
    /// statement of one atomic step.
    pub fn try_recv(&self) -> (r: Option<PowerState>)
        ensures
            r is Some ==> exists|pre: ChannelModel|
                pre.wf() && pre.valid_receiver(self.cursor_id())
                    && pre.pending[self.cursor_id()].len() > 0
                    && r == Some(pre.pending[self.cursor_id()][0]),
    {
        let (mut core, handle) = self.lock.acquire_write();
        let r = if self.cursor < core.receiver_count() {
            core.try_recv(self.cursor)
        } else {
            None
        };
        handle.release_write(core);
        r
    }
}

/// Why starting a platform listener failed. Every variant stands for an
/// environment in which a required native facility cannot be reached; none
/// of them aborts the process.
#[derive(Clone, Copy, Debug, PartialEq, Eq, Structural)]
pub enum StartError {
    /// The desktop environment does not support session-lock observation.
    UnsupportedDesktop,
    /// The system message bus cannot be reached.
    SystemBusUnavailable,
    /// Suspend and shutdown signals cannot be subscribed to.
    SuspendMonitorUnavailable,
    /// Screen-lock state cannot be subscribed to.
    LockMonitorUnavailable,
    /// The OS refused the power-setting notification registration.
    PowerNotificationRegistrationFailed,
    /// The OS refused the session-change notification registration.
    SessionNotificationRegistrationFailed,
}

impl StartError {
    /// A fixed human-readable reason, for consumers that report the failure
    /// and go on running without power events.
    pub fn message(&self) -> (r: &'static str)
        ensures
            self is UnsupportedDesktop ==> r@ == "desktop environment does not support lock monitoring"@,
            self is SystemBusUnavailable ==> r@ == "D-Bus not available"@,
            self is SuspendMonitorUnavailable ==> r@ == "suspend state not available"@,
            self is LockMonitorUnavailable ==> r@ == "screen lock state not available"@,
            self is PowerNotificationRegistrationFailed ==> r@ == "failed to register power setting notification"@,
            self is SessionNotificationRegistrationFailed ==> r@ == "failed to register session notification"@,
    {
        match self {
            StartError::UnsupportedDesktop => "desktop environment does not support lock monitoring",
            StartError::SystemBusUnavailable => "D-Bus not available",
            StartError::SuspendMonitorUnavailable => "suspend state not available",
            StartError::LockMonitorUnavailable => "screen lock state not available",
            StartError::PowerNotificationRegistrationFailed => "failed to register power setting notification",
            StartError::SessionNotificationRegistrationFailed => "failed to register session notification",
        }
    }
}

/// What the platform plumbing reports after attempting its native
/// subscriptions.
#[derive(Clone, Copy, Debug, PartialEq, Eq, Structural)]
pub enum ListenerSetup {
    /// Every native subscription is installed; events will flow.
    Subscribed,
    /// A required facility is missing; no subscription is active and no
    /// event will flow from the platform.
    Unavailable(StartError),
}

/// The single entry point a consumer constructs. It owns the event channel;
/// the platform listener, whose native resources live outside this library,
/// pushes into that channel through a [`Sender`] and reports its
/// subscription outcome to [`PowerMonitor::start_listening`].
pub struct PowerMonitor {
    channel: PowerEventChannel,
    listening: bool,
}

impl PowerMonitor {
    /// The shared queue this monitor distributes handles on.
    pub closed spec fn hub(&self) -> Arc<RwLock<ChannelCore, ChannelInv>> {
        self.channel.hub()
    }

    /// Whether a successful start has been recorded.
    pub closed spec fn is_listening(&self) -> bool {
        self.listening
    }

    /// Constructs a monitor that is not yet listening. Acquiring the
    /// platform's native resources is the platform plumbing's affair and
    /// may be deferred until [`PowerMonitor::start_listening`].
    pub fn new() -> (m: PowerMonitor)
        ensures
            !m.is_listening(),
    {
        PowerMonitor { channel: PowerEventChannel::new(), listening: false }
    }

    /// Constructs a monitor, not yet listening, that distributes handles on
    /// the given channel — for sharing one channel among every monitor of
    /// the process.
    pub fn with_channel(channel: PowerEventChannel) -> (m: PowerMonitor)
        ensures
            !m.is_listening(),
            m.hub() == channel.hub(),
    {
        PowerMonitor { channel, listening: false }
    }

    /// Records the outcome of installing the native subscriptions: success
    /// exactly when every subscription is in place, and otherwise the
    /// distinct reason, handed back to the caller rather than raised.
    /// Starting is idempotent in intent: a second success leaves the
    /// monitor listening, and a failure never unlists an already-listening
    /// monitor or touches the channel.
    pub fn start_listening(&mut self, setup: ListenerSetup) -> (r: Result<(), StartError>)
        ensures
            r is Ok <==> setup is Subscribed,
            forall|e: StartError| setup == ListenerSetup::Unavailable(e) ==> r == Result::<(), StartError>::Err(e),
            final(self).is_listening() == (old(self).is_listening() || setup is Subscribed),
            final(self).hub() == old(self).hub(),
    {
        match setup {
            ListenerSetup::Subscribed => {
                self.listening = true;
                Ok(())
            },
            ListenerSetup::Unavailable(e) => Err(e),
        }
    }

    /// Returns a fresh receive handle on the shared channel; callable
    /// before or after [`PowerMonitor::start_listening`], from any thread.
    pub fn event_receiver(&self) -> (r: Receiver)
        ensures
            r.hub() == self.hub(),
    {
        self.channel.receiver()
    }

    /// Returns a send handle on the shared channel, for the platform
    /// plumbing that forwards native notifications.
    pub fn event_sender(&self) -> (s: Sender)
        ensures
            s.hub() == self.hub(),
    {
        self.channel.sender()
    }
}

impl Default for PowerMonitor {
    /// Same as [`PowerMonitor::new`].
    fn default() -> (m: PowerMonitor)
        ensures
            !m.is_listening(),
    {
        PowerMonitor::new()
    }
}

} // verus!
