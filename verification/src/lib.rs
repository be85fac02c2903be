//! A verified source adapter that bridges a pull-based message consumer into
//! a cooperative dataflow scheduler.
//!
//! The adapter's decision core lives here: the progress-capability slot, the
//! per-invocation drain policy over poll results, and the decode step. The
//! surrounding runtime — the dataflow engine that schedules invocations and
//! the consumer that is polled — performs the outside work and feeds the
//! results back in as plain values.

pub mod adapter;
pub mod decode;
pub mod event;
pub mod laws;
