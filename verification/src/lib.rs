//! Single packet authorization: the packet format, the configuration rules, the
//! firewall backends and the decisions of the client and of the daemon.

pub mod capture;
pub mod client;
pub mod config;
pub mod daemon;
pub mod firewall;
pub mod net;
pub mod outcome;
pub mod privsep;
pub mod proto;
pub mod text;
pub mod time;
