//! Submission-timing and lifecycle engine for racing a hotkey registration
//! onto a permissioned network slot.
//!
//! The library holds the decisions of the engine: which blocks a block source
//! hands on, whether a block falls into this instance's partition, what the
//! scheduler does with each block, how a failure text is classified, how an
//! attempt's record changes when its outcome is known, and when the driver
//! loop ends. Everything that waits on the network stays with the caller,
//! which performs the actions the library decides on and hands back what
//! happened as plain values.

pub mod attempt;
pub mod classify;
pub mod config;
pub mod engine;
pub mod identity;
pub mod ledger;
pub mod scheduler;
pub mod slot;
pub mod source;
pub mod submitter;
pub mod text;
