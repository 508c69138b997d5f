//! Fetch–refresh orchestration for a remote-driven display client.
//!
//! A poller periodically asks a remote service what to show next and hands the
//! fetched image bytes to a renderer through a small bounded channel; the
//! renderer runs on a fixed tick, draws the newest image, and can wake the
//! poller early through a single-slot interrupt signal. This crate holds the
//! decision logic of that orchestration — the refresh-cycle state machine, the
//! swallow-vs-propagate error policy, and the two coordination primitives —
//! with contracts verified by Verus. The surrounding I/O (HTTP, JSON decoding,
//! timers, the window and its events) lives outside and feeds these functions
//! plain values.

pub mod channel;
pub mod interrupt;
pub mod models;
pub mod poller;
pub mod renderer;
