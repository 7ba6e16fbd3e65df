//! Verified core of the otrack screen-time tracker: configuration, the
//! request/response protocol between the CLI and the daemon, the daemon's
//! tracking state machine, and the text the CLI shows.

pub mod config;
pub mod daemon;
pub mod protocol;
pub mod text;
