//! The interface of a source of packets.

use crate::capture::error::CaptureError;
use crate::capture::packet::CapturedPacket;
use crate::time::Duration;
use vstd::prelude::*;

verus! {

/// A source of packets. The daemon always waits for a bounded time, so that it can
/// look at its shutdown signal.
pub trait CaptureBackend {
    /// Waits at most `timeout` for a packet, and gives none where none arrived.
    fn recv_timeout(&self, timeout: Duration) -> (r: Result<Option<CapturedPacket>, CaptureError>);
}

} // verus!
