//! Supervision of a child process: how it is launched, how a poll decides
//! between timeout, interrupt and exit, how a termination request is judged,
//! and what the finished run is reported as.
//!
//! The library holds the decisions only. Whoever drives it owns the operating
//! system handle, performs each action the controller asks for, and reports
//! what happened as plain values.

pub mod output;
pub mod process;
pub mod quote;
pub mod simple_fns;
pub mod status;
pub mod terminate;
