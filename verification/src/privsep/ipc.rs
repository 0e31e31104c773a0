//! The limits of a message between the processes.
//!
//! A message travels in one datagram, so that nothing marks its length.

use crate::privsep::error::{PrivsepError, PrivsepErrorView};
use crate::text;
use vstd::prelude::*;

verus! {

/// The longest message in bytes, which holds every packet with what is added to it.
pub const MAX_IPC_MSG: usize = 8192;

/// The text of the error for a message that is too long.
pub open spec fn too_large_text(len: nat) -> Seq<char> {
    "message too large: "@ + text::decimal(len) + " bytes > "@ + text::decimal(MAX_IPC_MSG as nat)
        + " limit"@
}

/// Checks an encoded message before it is sent. One that is too long is not sent.
pub fn check_outgoing(len: usize) -> (r: Result<(), PrivsepError>)
    ensures
        r is Ok <==> len <= MAX_IPC_MSG,
        r is Err ==> r->Err_0@ == PrivsepErrorView::IpcEncode(too_large_text(len as nat)),
{
    if len > MAX_IPC_MSG {
        let mut msg = "message too large: ".to_owned();
        text::push_decimal(&mut msg, len as u64);
        msg.append(" bytes > ");
        text::push_decimal(&mut msg, MAX_IPC_MSG as u64);
        msg.append(" limit");
        return Err(PrivsepError::IpcEncode(msg));
    }
    Ok(())
}

/// Checks a received message by its true length. None at all means that the other end
/// closed its socket; one that is too long was cut.
pub fn check_incoming(reported: usize) -> (r: Result<usize, PrivsepError>)
    ensures
        match r {
            Ok(len) => 0 < reported <= MAX_IPC_MSG && len == reported,
            Err(e) => if reported == 0 {
                e@ == PrivsepErrorView::PeerClosed
            } else {
                reported > MAX_IPC_MSG && e@ == PrivsepErrorView::IpcTruncated(
                    reported as nat,
                    MAX_IPC_MSG as nat,
                )
            },
        },
{
    if reported == 0 {
        return Err(PrivsepError::PeerClosed);
    }
    if reported > MAX_IPC_MSG {
        return Err(PrivsepError::IpcTruncated { reported, limit: MAX_IPC_MSG });
    }
    Ok(reported)
}

/// A message is sent exactly where it has at most 8192 bytes, and one that is too long is told
/// its length.
pub proof fn law_sent_within_the_limit(len: usize, r: Result<(), PrivsepError>)
    requires
        call_ensures(check_outgoing, (len,), r),
    ensures
        r is Ok <==> len <= 8192,
        r is Err ==> (r->Err_0 matches PrivsepError::IpcEncode(s) && s@ == "message too large: "@
            + text::decimal(len as nat) + " bytes > "@ + text::decimal(8192) + " limit"@),
{
}

/// A message is taken as it came exactly where it has 1 to 8192 bytes; none at all means that the
/// other end is gone, and a longer one was cut.
pub proof fn law_received_within_the_limit(reported: usize, r: Result<usize, PrivsepError>)
    requires
        call_ensures(check_incoming, (reported,), r),
    ensures
        r is Ok <==> 1 <= reported <= 8192,
        r is Ok ==> r->Ok_0 == reported,
        reported == 0 ==> r matches Err(PrivsepError::PeerClosed),
        reported > 8192 ==> (r matches Err(PrivsepError::IpcTruncated { reported: n, limit }) && n
            == reported && limit == 8192),
{
}

/// What may be sent may be received, unless it is empty.
pub proof fn law_sent_is_received(
    len: usize,
    sent: Result<(), PrivsepError>,
    got: Result<usize, PrivsepError>,
)
    requires
        len > 0,
        call_ensures(check_outgoing, (len,), sent),
        call_ensures(check_incoming, (len,), got),
    ensures
        sent is Ok <==> got is Ok,
{
}

} // verus!
