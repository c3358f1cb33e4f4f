//! A bridge between a desktop shell and its external worker process.
//!
//! The library holds everything about one worker invocation that can be
//! decided without touching the operating system: which binary to launch,
//! which arguments to hand it, how the bytes arriving on its two output
//! streams are gathered, and how its termination is judged. Launching the
//! process and awaiting its events is left to the caller, which feeds each
//! event to an [`bridge::Aggregator`] and receives the single outcome.

pub mod text;
pub mod request;
pub mod command;
pub mod bridge;
pub mod session;
