//! Verified core of a live-caption capture tool.
//!
//! The tool watches the captioning application of the operating system,
//! periodically reads the caption text exposed through the accessibility
//! layer, and overwrites a destination file with the most recent snapshot.
//!
//! This crate holds the logic that can be reasoned about: startup
//! validation of the capture interval, the model of the destination file
//! maintained by the capture engine, the classification of probe failures,
//! and the scheduler state machine that turns timer ticks and the
//! cancellation signal into engine actions with a single guaranteed
//! teardown. The operating-system calls themselves (window lookup, the
//! accessibility tree query, the actual file write, the timers) are left
//! to the surrounding binary, which feeds their results into this crate
//! as plain values.

pub mod config;
pub mod engine;
pub mod probe;
pub mod scheduler;
