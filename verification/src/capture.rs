//! Capturing packets: what a receive call gives, and what becomes of it.

pub mod backend;
pub mod error;
pub mod packet;
pub mod udp;
