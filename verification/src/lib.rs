//! Startup checks for a terminal monitor of an AdGuard Home instance.
//!
//! Before the monitor starts it signs in to the instance, makes sure that the
//! instance is not older than the oldest supported version, and looks for a
//! newer release of itself. This library holds the decisions: which requests
//! to send, what each reply means, and how the run ends. It sends nothing
//! itself; the caller performs the requests and hands back the replies.

pub mod config;
pub mod connection;
pub mod error;
pub mod gate;
pub mod http;
pub mod json;
pub mod session;
pub mod text;
pub mod update;
pub mod version;
