//! The decisions of the workers: what each does about what happened to it.

use crate::net::IpAddr;
use crate::privsep::error::PrivsepError;
use crate::privsep::messages::{CaptureMsg, CryptoMsg};
use vstd::prelude::*;

verus! {

/// How long a worker waits before it looks at the shutdown signal, in milliseconds.
pub const POLL_INTERVAL_MILLIS: u64 = 500;

/// What the rate limiter says of a packet.
#[derive(Clone, Copy, Debug, PartialEq, Eq, Structural)]
pub enum Decision {
    /// The packet may pass.
    Pass,
    /// The packet is dropped.
    Drop,
}

/// What happened to the capture worker.
pub enum CaptureEvent {
    /// The shutdown signal is set.
    Shutdown,
    /// A datagram arrived, and the rate limiter was asked about its sender.
    Received {
        /// The address of the sender.
        source_ip: IpAddr,
        /// The bytes.
        data: Vec<u8>,
        /// What the rate limiter says.
        decision: Decision,
    },
    /// Nothing arrived in time.
    TimedOut,
    /// Receiving failed. The text is what the system says.
    ReceiveFailed(String),
    /// The message was sent.
    Sent,
    /// Sending failed.
    SendFailed(PrivsepError),
}

/// What the capture worker does next.
pub enum CaptureAction {
    /// Look at the shutdown signal, and wait for the next datagram.
    Continue,
    /// Send a message to the crypto worker.
    Send(CaptureMsg),
    /// Stop.
    Exit(Result<(), PrivsepError>),
}

/// Decides what the capture worker does next. A packet that the limiter lets pass is
/// forwarded as it came; a failure to receive or to send ends the worker.
pub fn capture_step(event: CaptureEvent) -> (r: CaptureAction)
    ensures
        match event {
            CaptureEvent::Shutdown => r matches CaptureAction::Exit(Ok(_)),
            CaptureEvent::Received { source_ip, data, decision: Decision::Pass } => r
                == CaptureAction::Send(CaptureMsg::Packet { source_ip, data }),
            CaptureEvent::Received { decision: Decision::Drop, .. } => r == CaptureAction::Continue,
            CaptureEvent::TimedOut | CaptureEvent::Sent => r == CaptureAction::Continue,
            CaptureEvent::ReceiveFailed(e) => r == CaptureAction::Exit(Err(PrivsepError::Io(e))),
            CaptureEvent::SendFailed(e) => r == CaptureAction::Exit(Err(e)),
        },
{
    match event {
        CaptureEvent::Shutdown => CaptureAction::Exit(Ok(())),
        CaptureEvent::Received { source_ip, data, decision } => match decision {
            Decision::Pass => CaptureAction::Send(CaptureMsg::Packet { source_ip, data }),
            Decision::Drop => CaptureAction::Continue,
        },
        CaptureEvent::TimedOut => CaptureAction::Continue,
        CaptureEvent::ReceiveFailed(e) => CaptureAction::Exit(Err(PrivsepError::Io(e))),
        CaptureEvent::Sent => CaptureAction::Continue,
        CaptureEvent::SendFailed(e) => CaptureAction::Exit(Err(e)),
    }
}

/// What happened to the crypto worker.
pub enum CryptoEvent {
    /// The shutdown signal is set.
    Shutdown,
    /// A message of the capture worker arrived.
    Received(CaptureMsg),
    /// Nothing arrived in time.
    TimedOut,
    /// Receiving failed.
    ReceiveFailed(PrivsepError),
    /// The packet was checked.
    Validated(CryptoMsg),
    /// The check did not come to an end.
    Panicked,
    /// The answer was sent.
    Sent,
    /// Sending failed.
    SendFailed(PrivsepError),
}

/// What the crypto worker does next.
pub enum CryptoAction {
    /// Look at the shutdown signal, and wait for the next message.
    Continue,
    /// Check a packet.
    Validate(CaptureMsg),
    /// Send an answer to the parent.
    Send(CryptoMsg),
    /// Stop.
    Exit(Result<(), PrivsepError>),
}

/// Decides what the crypto worker does next. Every packet is checked and its answer
/// sent; a check that does not come to an end costs that packet and nothing else; a
/// failure to receive or to send ends the worker.
pub fn crypto_step(event: CryptoEvent) -> (r: CryptoAction)
    ensures
        match event {
            CryptoEvent::Shutdown => r matches CryptoAction::Exit(Ok(_)),
            CryptoEvent::Received(msg) => r == CryptoAction::Validate(msg),
            CryptoEvent::TimedOut | CryptoEvent::Panicked | CryptoEvent::Sent => r
                == CryptoAction::Continue,
            CryptoEvent::ReceiveFailed(e) | CryptoEvent::SendFailed(e) => r
                == CryptoAction::Exit(Err(e)),
            CryptoEvent::Validated(reply) => r == CryptoAction::Send(reply),
        },
{
    match event {
        CryptoEvent::Shutdown => CryptoAction::Exit(Ok(())),
        CryptoEvent::Received(msg) => CryptoAction::Validate(msg),
        CryptoEvent::TimedOut => CryptoAction::Continue,
        CryptoEvent::ReceiveFailed(e) => CryptoAction::Exit(Err(e)),
        CryptoEvent::Validated(reply) => CryptoAction::Send(reply),
        CryptoEvent::Panicked => CryptoAction::Continue,
        CryptoEvent::Sent => CryptoAction::Continue,
        CryptoEvent::SendFailed(e) => CryptoAction::Exit(Err(e)),
    }
}

/// The capture worker sends a packet exactly where one arrived that the rate limiter lets pass,
/// and sends it as it came, with its sender; it stops only when it is asked to or cannot go on.
pub proof fn law_capture_forwards_what_passes(event: CaptureEvent, r: CaptureAction)
    requires
        call_ensures(capture_step, (event,), r),
    ensures
        r is Send <==> event is Received && event->decision == Decision::Pass,
        r matches CaptureAction::Send(CaptureMsg::Packet { source_ip, data }) ==> source_ip
            == event->Received_source_ip && data@ == event->Received_data@,
        r is Exit <==> event is Shutdown || event is ReceiveFailed || event is SendFailed,
        r matches CaptureAction::Exit(done) ==> (done is Ok <==> event is Shutdown),
{
}

/// The crypto worker checks every packet that arrives and sends every answer, as they are; a check
/// that does not end costs no more than its packet; and it stops only when it is asked to or
/// cannot go on.
pub proof fn law_crypto_answers_what_it_checks(event: CryptoEvent, r: CryptoAction)
    requires
        call_ensures(crypto_step, (event,), r),
    ensures
        r is Validate <==> event is Received,
        r is Validate ==> r->Validate_0 == event->Received_0,
        r is Send <==> event is Validated,
        r is Send ==> r->Send_0 == event->Validated_0,
        r is Exit <==> event is Shutdown || event is ReceiveFailed || event is SendFailed,
        r matches CryptoAction::Exit(done) ==> (done is Ok <==> event is Shutdown),
        event is Panicked ==> r is Continue,
{
}

} // verus!
