//! Test-support helpers for capturing the messages that an application emits
//! while it runs, so that a test can inspect them afterwards.
//!
//! The verified core lives here: the per-type accumulator, the collector
//! configurations and the drain steps that move one tick's messages into the
//! accumulator, together with the laws that relate them, and the interface
//! through which a test controls an application's virtual clock.
pub mod collector;
pub mod events;
pub mod filter;
pub mod laws;
pub mod messages;
pub mod time_controls;
