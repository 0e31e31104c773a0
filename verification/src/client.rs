//! The client: from the command line and the configuration to a packet.

pub mod cli;
pub mod error;
pub mod keygen;
pub mod packet;
