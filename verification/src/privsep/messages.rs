//! The messages between the processes.

use crate::net::IpAddr;
use crate::proto::payload::{SpaPayload, SpaPayloadView};
use vstd::prelude::*;

verus! {

/// What the capture worker sends to the crypto worker.
#[derive(Clone, Debug)]
pub enum CaptureMsg {
    /// A packet arrived.
    Packet {
        /// The address of the sender.
        source_ip: IpAddr,
        /// The bytes of the packet.
        data: Vec<u8>,
    },
}

/// What the crypto worker sends to the parent.
#[derive(Clone, Debug)]
pub enum CryptoMsg {
    /// A packet is authentic and passed all checks but the one for replays.
    ValidRequest {
        /// The name of the stanza.
        stanza_name: String,
        /// The address of the sender.
        source_ip: IpAddr,
        /// The payload.
        payload: SpaPayload,
    },
    /// A packet is authentic, but was rejected.
    Rejected {
        /// The address of the sender.
        source_ip: IpAddr,
        /// Why.
        reason: String,
    },
    /// A packet belongs to no stanza.
    NoMatch {
        /// The address of the sender.
        source_ip: IpAddr,
    },
}

/// The model of a [`CryptoMsg`].
#[allow(inconsistent_fields)]
#[verifier::ext_equal]
pub enum CryptoView {
    /// See [`CryptoMsg::ValidRequest`].
    ValidRequest {
        /// The name of the stanza.
        stanza_name: Seq<char>,
        /// The address of the sender.
        source_ip: IpAddr,
        /// The payload.
        payload: SpaPayloadView,
    },
    /// See [`CryptoMsg::Rejected`].
    Rejected {
        /// The address of the sender.
        source_ip: IpAddr,
        /// Why.
        reason: Seq<char>,
    },
    /// See [`CryptoMsg::NoMatch`].
    NoMatch {
        /// The address of the sender.
        source_ip: IpAddr,
    },
}

impl View for CryptoMsg {
    type V = CryptoView;

    open spec fn view(&self) -> CryptoView {
        match *self {
            CryptoMsg::ValidRequest { stanza_name, source_ip, payload } => {
                CryptoView::ValidRequest {
                    stanza_name: stanza_name@,
                    source_ip,
                    payload: payload@,
                }
            },
            CryptoMsg::Rejected { source_ip, reason } => CryptoView::Rejected {
                source_ip,
                reason: reason@,
            },
            CryptoMsg::NoMatch { source_ip } => CryptoView::NoMatch { source_ip },
        }
    }
}

} // verus!
