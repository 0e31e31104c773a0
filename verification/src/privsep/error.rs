//! What can go wrong between the processes.

use crate::proto::error::{ProtoError, ProtoErrorView};
use crate::text;
use vstd::prelude::*;

verus! {

/// What can go wrong between the processes.
#[derive(Debug)]
#[non_exhaustive]
pub enum PrivsepError {
    /// A protocol operation failed in a worker.
    Proto(ProtoError),
    /// A message cannot be encoded.
    IpcEncode(String),
    /// A message cannot be decoded.
    IpcDecode(String),
    /// A socket operation failed. The text is what the system says.
    Io(String),
    /// A system call failed.
    Syscall {
        /// The name of the call.
        syscall: &'static str,
        /// What the system says.
        source: String,
    },
    /// The other end closed its socket.
    PeerClosed,
    /// A message was longer than the receiver's buffer.
    IpcTruncated {
        /// The length of the message.
        reported: usize,
        /// The length of the buffer.
        limit: usize,
    },
}

/// The model of a [`PrivsepError`].
#[verifier::ext_equal]
pub enum PrivsepErrorView {
    /// See [`PrivsepError::Proto`].
    Proto(ProtoErrorView),
    /// See [`PrivsepError::IpcEncode`].
    IpcEncode(Seq<char>),
    /// See [`PrivsepError::IpcDecode`].
    IpcDecode(Seq<char>),
    /// See [`PrivsepError::Io`].
    Io(Seq<char>),
    /// See [`PrivsepError::Syscall`].
    Syscall(Seq<char>, Seq<char>),
    /// See [`PrivsepError::PeerClosed`].
    PeerClosed,
    /// See [`PrivsepError::IpcTruncated`].
    IpcTruncated(nat, nat),
}

impl View for PrivsepError {
    type V = PrivsepErrorView;

    open spec fn view(&self) -> PrivsepErrorView {
        match *self {
            PrivsepError::Proto(e) => PrivsepErrorView::Proto(e@),
            PrivsepError::IpcEncode(s) => PrivsepErrorView::IpcEncode(s@),
            PrivsepError::IpcDecode(s) => PrivsepErrorView::IpcDecode(s@),
            PrivsepError::Io(s) => PrivsepErrorView::Io(s@),
            PrivsepError::Syscall { syscall, source } => PrivsepErrorView::Syscall(
                syscall@,
                source@,
            ),
            PrivsepError::PeerClosed => PrivsepErrorView::PeerClosed,
            PrivsepError::IpcTruncated { reported, limit } => PrivsepErrorView::IpcTruncated(
                reported as nat,
                limit as nat,
            ),
        }
    }
}

impl PrivsepErrorView {
    /// The text that describes the error.
    pub open spec fn text(self) -> Seq<char> {
        match self {
            PrivsepErrorView::Proto(e) => "protocol error: "@ + e.text(),
            PrivsepErrorView::IpcEncode(s) => "ipc encode error: "@ + s,
            PrivsepErrorView::IpcDecode(s) => "ipc decode error: "@ + s,
            PrivsepErrorView::Io(s) => "io error: "@ + s,
            PrivsepErrorView::Syscall(syscall, source) => "system call "@ + syscall + " failed: "@
                + source,
            PrivsepErrorView::PeerClosed => "ipc peer closed"@,
            PrivsepErrorView::IpcTruncated(reported, limit) => "IPC datagram truncated: received "@
                + text::decimal(reported) + " bytes, limit is "@ + text::decimal(limit),
        }
    }
}

impl PrivsepError {
    /// The text that describes the error.
    pub fn to_string(&self) -> (r: String)
        ensures
            r@ == self@.text(),
    {
        let mut s = String::new();
        match self {
            PrivsepError::Proto(e) => {
                s.append("protocol error: ");
                s.append(e.to_string().as_str());
            },
            PrivsepError::IpcEncode(e) => {
                s.append("ipc encode error: ");
                s.append(e.as_str());
            },
            PrivsepError::IpcDecode(e) => {
                s.append("ipc decode error: ");
                s.append(e.as_str());
            },
            PrivsepError::Io(e) => {
                s.append("io error: ");
                s.append(e.as_str());
            },
            PrivsepError::Syscall { syscall, source } => {
                s.append("system call ");
                s.append(syscall);
                s.append(" failed: ");
                s.append(source.as_str());
            },
            PrivsepError::PeerClosed => s.append("ipc peer closed"),
            PrivsepError::IpcTruncated { reported, limit } => {
                s.append("IPC datagram truncated: received ");
                text::push_decimal(&mut s, *reported as u64);
                s.append(" bytes, limit is ");
                text::push_decimal(&mut s, *limit as u64);
            },
        }
        assert(s@ =~= self@.text());
        s
    }
}

impl From<ProtoError> for PrivsepError {
    fn from(e: ProtoError) -> (r: PrivsepError) {
        PrivsepError::Proto(e)
    }
}

impl vstd::std_specs::convert::FromSpecImpl<ProtoError> for PrivsepError {
    open spec fn obeys_from_spec() -> bool {
        true
    }

    open spec fn from_spec(e: ProtoError) -> PrivsepError {
        PrivsepError::Proto(e)
    }
}

/// What an error says: what happened, and behind it the cause that it carries.
pub proof fn law_texts_tell_the_cause(e: PrivsepError, r: String)
    requires
        call_ensures(PrivsepError::to_string, (&e,), r),
    ensures
        match e {
            PrivsepError::Proto(cause) => r@ == "protocol error: "@ + cause@.text(),
            PrivsepError::IpcEncode(s) => r@ == "ipc encode error: "@ + s@,
            PrivsepError::IpcDecode(s) => r@ == "ipc decode error: "@ + s@,
            PrivsepError::Io(s) => r@ == "io error: "@ + s@,
            PrivsepError::Syscall { syscall, source } => {
                r@ == "system call "@ + syscall@ + " failed: "@ + source@
            },
            PrivsepError::PeerClosed => r@ == "ipc peer closed"@,
            PrivsepError::IpcTruncated { reported, limit } => {
                r@ == "IPC datagram truncated: received "@ + text::decimal(reported as nat)
                    + " bytes, limit is "@ + text::decimal(limit as nat)
            },
        },
{
}

} // verus!
