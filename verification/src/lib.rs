//! Input-injection gesture planner.
//!
//! Simulated mouse and keyboard gestures (cursor positioning, clicks, a
//! drag-and-drop, key presses) are described here as explicit sequences of
//! steps: platform events interleaved with fixed pauses. Each planner
//! function carries a contract pinning down exactly which steps it emits and
//! in which order, and the stated timing and sequencing laws are proved.
//! Handing the planned steps to the operating system's input-injection API
//! is left to an unverified shell around this crate.

pub mod event;
pub mod gesture;
