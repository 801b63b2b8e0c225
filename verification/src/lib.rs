//! A pomodoro session library: a verified work/break state machine, the
//! decision logic of the timer-driven phase scheduler that advances it, the
//! service-level operations a request/response boundary exposes, and the
//! human-facing rendering of its answers.
//!
//! The library itself performs no I/O and never reads a clock: every
//! operation that depends on the current time takes it as an argument, so a
//! caller may supply the wall clock or a deterministic one.

pub mod render;
pub mod scheduler;
pub mod service;
pub mod state;
