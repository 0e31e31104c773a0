//! A captured packet.

use crate::net::IpAddr;
use vstd::prelude::*;

verus! {

/// A packet that was received.
#[derive(Clone, Debug)]
pub struct CapturedPacket {
    /// The address of the sender.
    pub source_ip: IpAddr,
    /// The bytes of the packet.
    pub data: Vec<u8>,
}

} // verus!
