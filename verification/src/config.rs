//! The configuration of the client and of the daemon: its values, its defaults and
//! the rules that a valid configuration keeps.

pub mod client;
pub mod daemon;
pub mod error;
pub mod shared;
