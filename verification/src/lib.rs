//! A cooperative, single-threaded task scheduler driving a terminal
//! calculator.
//!
//! The scheduler executes named units of work drawn from two FIFO queues
//! (a priority task queue and a background system queue); executing a unit
//! may enqueue further units, which is how the interactive flow loops and
//! branches.  A keyed transient store passes operands and results between
//! scheduled units, and a tagged value type supplies checked arithmetic.
//!
//! All terminal I/O stays outside this crate: units receive input lines as
//! arguments and emit output as [`unit::OutLine`] values, so every decision
//! the calculator makes is verified here.

pub mod app;
pub mod calc;
pub mod data;
pub mod feed;
pub mod queue;
pub mod store;
pub mod text;
pub mod unit;
