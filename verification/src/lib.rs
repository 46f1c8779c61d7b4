//! Watches the public IP address of a host and works out whom to tell when it
//! changes.
//!
//! The crate holds the decisions only. A driver performs the network calls and
//! reports what came back; [`check::CheckIP`] answers with the next thing to do.

pub mod check;
pub mod config;
pub mod laws;
pub mod monitor;
pub mod notify;
pub mod provider;
