//! Wake scheduling and phase observation for a native run loop.
//!
//! The crate models the logic that a windowing runtime places between
//! application code and a host run loop: a waker that reprograms one native
//! timer idempotently, a plan for two phase observers that bracket every other
//! observer on the loop, and a panic slot that turns a panic trapped inside a
//! native callback into an orderly loop shutdown.  The native calls themselves
//! (timer creation, observer registration, the loop's wait primitive) are left
//! to the embedding: every function here goes from plain values to plain
//! values and states exactly what it decides.

pub mod observer;
pub mod panic_guard;
pub mod time;
pub mod waker;

pub use time::Instant;
