//! A certificate-pinned, single-request clipboard command channel.
//!
//! The crate holds the verified core of a small remote-clipboard client:
//! the wire codec for commands and responses, the certificate-pinning
//! decision, the configuration model with its defaulting and override
//! rules, and the state machine that drives one request to completion.
//! All networking, TLS plumbing and operating-system access live outside
//! this crate and feed it plain values.

pub mod codec;
pub mod pinning;
pub mod config;
pub mod client;
