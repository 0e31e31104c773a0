//! The firewall: rules, the interface of a backend, a backend in memory and one for
//! nftables.

pub mod backend;
pub mod error;
pub mod mock;
pub mod nft;
pub mod rule;
