//! Coordination core of a battery-powered watch: a value-retaining signal,
//! the wall clock built on it, a request broker, the radio lifecycle, input
//! debouncing with haptic feedback, and the display refresh cadence.
//!
//! Every item here is a plain state machine: the tasks that await timers,
//! pins and sockets feed it events and carry out what it decides.

pub mod battery;
pub mod sticky_signal;
pub mod network;
pub mod input;
pub mod wakeup;
pub mod time;
pub mod display;
pub mod broker;

pub use battery::BatteryStatus;
pub use wakeup::{get_wakeup_cause, Button, WakeupCause};
