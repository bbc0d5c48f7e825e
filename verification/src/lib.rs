//! A cross-platform power-state observer.
//!
//! The library watches the host operating system for suspend, resume,
//! screen-lock and screen-unlock transitions and republishes them as a
//! single uniform stream of [`monitor::PowerState`] values that a consumer
//! can poll without blocking and without knowing which OS it runs on.
//!
//! The pieces are:
//! - [`channel`]: a broadcast event channel; every receiver handle
//!   observes, in emission order, exactly the events sent after the handle
//!   was created.
//! - [`monitor`]: the consumer-facing facade around the channel, together
//!   with the outcome types of starting a platform listener.
//! - [`platform_impl`]: the per-OS logic that decides which canonical
//!   event a native notification stands for. The native plumbing itself
//!   (D-Bus connections, notification-center observers, window messages)
//!   lives outside this library and feeds plain values into these
//!   functions.

pub mod channel;
pub mod monitor;
pub mod platform_impl;

pub use monitor::PowerEventChannel;
pub use monitor::PowerMonitor;
pub use monitor::PowerState;
