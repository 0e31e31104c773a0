//! What a receive call on a UDP socket gives, and what becomes of it.

use crate::capture::error::{CaptureError, CaptureErrorView};
use crate::capture::packet::CapturedPacket;
use crate::net::IpAddr;
use crate::proto::packet;
use crate::text;
use crate::time::Duration;
use vstd::prelude::*;
use vstd::slice::slice_subrange;

verus! {

/// The longest datagram that is received, in bytes. A longer one is dropped, so that
/// no part of it is taken for the whole.
pub const MAX_DATAGRAM_LEN: usize = 1500;

/// The address family of IPv4.
pub const AF_INET: i32 = 2;

/// The address family of IPv6.
pub const AF_INET6: i32 = 10;

/// The length of an IPv4 socket address, in bytes.
pub const SOCKADDR_IN_LEN: usize = 16;

/// The length of an IPv6 socket address, in bytes.
pub const SOCKADDR_IN6_LEN: usize = 28;

/// What a receive call gave.
#[derive(Clone, Copy, Debug, PartialEq, Eq, Structural)]
pub enum RecvOutcome {
    /// A whole datagram; its bytes stand at the start of the buffer.
    Packet {
        /// The number of bytes.
        len: usize,
        /// The address of the sender.
        source_ip: IpAddr,
    },
    /// A datagram that is longer than the buffer.
    Truncated {
        /// The true length of the datagram.
        reported: usize,
        /// The address of the sender.
        source_ip: IpAddr,
    },
}

/// How a receive call failed.
pub struct RecvFailure {
    /// Whether nothing arrived in time.
    pub timed_out: bool,
    /// What the system says.
    pub error: String,
}

/// The address in a socket address, or the text of the error. `family` and `namelen`
/// are what the system reports; `v4` and `v6` are the octets at the places where an
/// IPv4 and an IPv6 address would stand.
pub open spec fn sockaddr_ip(family: i32, namelen: nat, v4: u32, v6: u128) -> Result<
    IpAddr,
    Seq<char>,
> {
    if family == AF_INET {
        if namelen < SOCKADDR_IN_LEN {
            Err("short sockaddr_in from recvmsg"@)
        } else {
            Ok(IpAddr::V4(v4))
        }
    } else if family == AF_INET6 {
        if namelen < SOCKADDR_IN6_LEN {
            Err("short sockaddr_in6 from recvmsg"@)
        } else {
            Ok(IpAddr::V6(v6))
        }
    } else {
        Err(
            "recvmsg returned unsupported address family "@ + text::signed_decimal(family as int),
        )
    }
}

/// The address in a socket address that a receive call filled in. Only IPv4 and IPv6
/// are known, and an address that is too short is none.
pub fn sockaddr_storage_to_ip(family: i32, namelen: usize, v4: u32, v6: u128) -> (r: Result<
    IpAddr,
    String,
>)
    ensures
        match sockaddr_ip(family, namelen as nat, v4, v6) {
            Ok(ip) => r == Ok::<IpAddr, String>(ip),
            Err(e) => r is Err && r->Err_0@ == e,
        },
{
    if family == AF_INET {
        if namelen < SOCKADDR_IN_LEN {
            return Err("short sockaddr_in from recvmsg".to_owned());
        }
        return Ok(IpAddr::V4(v4));
    }
    if family == AF_INET6 {
        if namelen < SOCKADDR_IN6_LEN {
            return Err("short sockaddr_in6 from recvmsg".to_owned());
        }
        return Ok(IpAddr::V6(v6));
    }
    let mut msg = "recvmsg returned unsupported address family ".to_owned();
    text::push_signed(&mut msg, family as i64);
    Err(msg)
}

/// What a receive call gave that reported a length and whether the datagram was cut.
pub open spec fn recv_outcome(
    reported: usize,
    truncated: bool,
    buf_len: usize,
    source_ip: IpAddr,
) -> RecvOutcome {
    if truncated {
        RecvOutcome::Truncated { reported, source_ip }
    } else {
        RecvOutcome::Packet {
            len: if reported > buf_len {
                buf_len
            } else {
                reported
            },
            source_ip,
        }
    }
}

/// Takes the reported length of a datagram for what was received, unless the datagram
/// was cut.
pub fn classify_datagram(reported: usize, truncated: bool, buf_len: usize, source_ip: IpAddr) -> (r:
    RecvOutcome)
    ensures
        r == recv_outcome(reported, truncated, buf_len, source_ip),
{
    if truncated {
        return RecvOutcome::Truncated { reported, source_ip };
    }
    let len: usize = if reported > buf_len {
        buf_len
    } else {
        reported
    };
    RecvOutcome::Packet { len, source_ip }
}

/// The packet that a receive call gives, if any: a whole datagram is one; a datagram
/// that was cut and a call that timed out give none; any other failure is an error.
pub fn captured_packet(outcome: Result<RecvOutcome, RecvFailure>, buf: &[u8]) -> (r: Result<
    Option<CapturedPacket>,
    CaptureError,
>)
    requires
        outcome matches Ok(RecvOutcome::Packet { len, .. }) ==> len <= buf@.len(),
    ensures
        match outcome {
            Ok(RecvOutcome::Packet { len, source_ip }) => r matches Ok(Some(p)) && p.source_ip
                == source_ip && p.data@ == buf@.take(len as int),
            Ok(RecvOutcome::Truncated { .. }) => r matches Ok(None),
            Err(e) => if e.timed_out {
                r matches Ok(None)
            } else {
                r is Err && r->Err_0@ == CaptureErrorView::Recv(e.error@)
            },
        },
{
    match outcome {
        Ok(RecvOutcome::Packet { len, source_ip }) => {
            let mut data: Vec<u8> = Vec::new();
            data.extend_from_slice(slice_subrange(buf, 0, len));
            assert(data@ =~= buf@.take(len as int));
            Ok(Some(CapturedPacket { source_ip, data }))
        },
        Ok(RecvOutcome::Truncated { .. }) => Ok(None),
        Err(e) => if e.timed_out {
            Ok(None)
        } else {
            Err(CaptureError::Recv(e.error))
        },
    }
}

/// The read timeout that a socket has, so that it is set only when it changes.
#[derive(Clone, Copy, Debug, PartialEq, Eq, Structural)]
pub struct TimeoutCache {
    /// The timeout that was set last.
    pub last: Option<Duration>,
}

impl TimeoutCache {
    /// No timeout was set yet.
    pub fn new() -> (r: TimeoutCache)
        ensures
            r.last is None,
    {
        TimeoutCache { last: None }
    }

    /// Whether a timeout has to be set before a call that needs it.
    pub fn must_set(&self, timeout: Duration) -> (r: bool)
        ensures
            r == (self.last != Some(timeout)),
    {
        match self.last {
            Some(last) => last != timeout,
            None => true,
        }
    }

    /// Takes note of a timeout that was set.
    pub fn note(&mut self, timeout: Duration)
        ensures
            final(self).last == Some(timeout),
    {
        self.last = Some(timeout);
    }
}

/// A datagram within the limit is delivered whole: what is classified with its own
/// length comes out with that length, and one that was cut never comes out.
pub proof fn law_datagrams_are_whole(
    reported: usize,
    truncated: bool,
    buf_len: usize,
    source_ip: IpAddr,
)
    ensures
        recv_outcome(reported, truncated, buf_len, source_ip) matches RecvOutcome::Packet {
            len,
            source_ip: ip,
        } ==> !truncated && len <= buf_len && ip == source_ip && (reported <= buf_len ==> len
            == reported),
        truncated ==> recv_outcome(reported, truncated, buf_len, source_ip) is Truncated,
{
}

/// An address is taken from a socket address of its own family that is long enough: 16 bytes
/// for IPv4, family 2, and 28 for IPv6, family 10. The octets are those of that family, and
/// nothing else gives an address.
pub proof fn law_address_of_its_own_family(family: i32, namelen: nat, v4: u32, v6: u128, ip: IpAddr)
    ensures
        sockaddr_ip(family, namelen, v4, v6) == Ok::<IpAddr, Seq<char>>(ip) <==> {
            ||| family == 2 && namelen >= 16 && ip == IpAddr::V4(v4)
            ||| family == 10 && namelen >= 28 && ip == IpAddr::V6(v6)
        },
{
}

/// A datagram that was not cut comes out, with the bytes that the buffer holds of it; one that
/// was cut is told with its true length. Both name the sender.
pub proof fn law_datagrams_by_their_length(
    reported: usize,
    truncated: bool,
    buf_len: usize,
    source_ip: IpAddr,
)
    ensures
        truncated ==> recv_outcome(reported, truncated, buf_len, source_ip) == (
        RecvOutcome::Truncated { reported, source_ip }),
        !truncated && reported <= buf_len ==> recv_outcome(reported, truncated, buf_len, source_ip)
            == (RecvOutcome::Packet { len: reported, source_ip }),
        !truncated && reported > buf_len ==> recv_outcome(reported, truncated, buf_len, source_ip)
            == (RecvOutcome::Packet { len: buf_len, source_ip }),
{
}

/// What is captured of a datagram that fits is its sender and its bytes, from the first to the
/// last.
pub proof fn law_captured_as_it_came(
    reported: usize,
    source_ip: IpAddr,
    buf: &[u8],
    buf_len: usize,
    r: Result<Option<CapturedPacket>, CaptureError>,
)
    requires
        buf_len == buf@.len(),
        reported <= buf_len,
        call_ensures(
            captured_packet,
            (Ok(recv_outcome(reported, false, buf_len, source_ip)), buf),
            r,
        ),
    ensures
        r is Ok && r->Ok_0 is Some,
        r->Ok_0->0.source_ip == source_ip,
        r->Ok_0->0.data@.len() == reported,
        forall|i: int| 0 <= i < reported ==> #[trigger] r->Ok_0->0.data@[i] == buf@[i],
{
}

/// Every packet of valid length can be received whole, and nothing longer.
pub proof fn law_packets_can_be_received(wire: Seq<u8>)
    ensures
        packet::length_fits(wire) ==> wire.len() <= MAX_DATAGRAM_LEN,
        MAX_DATAGRAM_LEN == 1500,
{
}

} // verus!
