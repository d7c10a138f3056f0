//! Decisions of a high-resolution timer library: what to arm an operating-system
//! timer with, what its expirations mean, and when a sleep, a timeout or an
//! interval completes.
//!
//! Nothing here reads a clock or touches a timer. The surrounding program reads
//! the monotonic clock, performs what these functions ask for and hands back what
//! happened; each step is then a function of plain values with a proved contract.
//!
//! [`sleep`], [`timeout`] and [`interval`] are about waiting; [`timerfd`], [`kqueue`]
//! and [`waitable`] are about the timers of the systems that they run on.
pub mod ends;
pub mod error;
pub mod interval;
pub mod kqueue;
pub mod poll;
pub mod semaphore;
pub mod sleep;
pub mod time;
pub mod timeout;
pub mod timer;
pub mod timerfd;
pub mod utils;
pub mod waitable;

pub use interval::{interval, interval_at, Interval, MissedTickBehavior};
pub use poll::Poll;
pub use sleep::{sleep, sleep_until, Sleep};
pub use time::{Duration, Instant};
pub use timeout::{timeout, timeout_at, Timeout};
