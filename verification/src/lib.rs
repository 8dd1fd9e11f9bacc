//! Span handles for runtime tracing.
//!
//! A span is known to the tracing subscriber by a numeric id; the id `0`
//! stands for "no span" (tracing was disabled, or the subscriber declined to
//! open one). Entering a span and exiting the guard that entering hands back
//! each produce a notice for the subscriber: the id to report, or nothing at
//! all for the empty id. Delivering that notice is left to the caller, who
//! owns the subscriber.

pub mod span;

pub use span::{Entered, Span};
