//! A single-purpose notification relay: it watches one chat channel for one
//! author posting one exact text, calls a webhook when that happens, and
//! reports the outcome back into the channel.
//!
//! The crate holds the rules of the relay and proves them; the connection to
//! the chat platform and the HTTP call are left to the caller, who feeds the
//! outcome of each outside step back in as an event.

pub mod config;
pub mod number;
pub mod relay;
pub mod text;
