//! A liveness watchdog for a cooperative task scheduler.
//!
//! A watchdog task re-arms a one-shot interval timer of the operating system on
//! every scheduling turn it is granted. While the scheduler keeps taking turns
//! the timer never expires. When a task blocks the carrier thread, the timer
//! runs out, the operating system delivers the expiry signal, and a monitor on
//! a thread of its own reports the stall.
//!
//! The library holds the decisions: which request the watchdog makes of the
//! timer on each turn, how the monitor sorts the signals it is handed, and a
//! model of the timer slot over which the guarantees of the mechanism are
//! proved. Setting the timer and scheduling the task are left to the caller.
pub mod duration;
pub mod domain;
pub mod alarm;
pub mod monitor;
pub mod signals;
pub mod slot;
pub mod laws;

pub use crate::alarm::{Alarm, Phase, PlatformError, TimerRequest, Turn};
pub use crate::domain::{ClockDomain, SignalClass};
pub use crate::duration::Timeval;
pub use crate::monitor::{Diagnostic, Monitor, MonitorState};
pub use crate::signals::SignalSource;
pub use crate::slot::{SlotState, TimerSlot};
