//! What the crypto worker makes of a packet: everything but the check for replays and
//! the installation of the rule, which are the parent's.

use crate::config::daemon::DaemonConfig;
use crate::daemon::matcher;
use crate::daemon::pipeline;
use crate::daemon::pipeline::{now_unix, screen_packet, ProcessResult, ProcessView, Screened, Screening};
use crate::daemon::policy;
use crate::daemon::policy::check_policy;
use crate::net::IpAddr;
use crate::privsep::messages::{CaptureMsg, CryptoMsg, CryptoView};
use crate::proto::packet;
use crate::time;
use vstd::prelude::*;

verus! {

/// The reason for a request that is no access request.
pub open spec fn unsupported_text() -> Seq<char> {
    "unsupported message variant"@
}

/// What the crypto worker answers for a packet at a given time.
pub open spec fn validated(
    source_ip: IpAddr,
    data: Seq<u8>,
    config: DaemonConfig,
    now: i64,
) -> CryptoView {
    match pipeline::screened(data, config, now) {
        Screened::Settled(ProcessView::Rejected { reason, .. }) => CryptoView::Rejected {
            source_ip,
            reason,
        },
        Screened::Settled(_) => CryptoView::NoMatch { source_ip },
        Screened::Pending { stanza_name, stanza, payload } => match policy::policy_error(
            stanza,
            payload,
            source_ip,
            unsupported_text(),
        ) {
            Some(reason) => CryptoView::Rejected { source_ip, reason },
            None => CryptoView::ValidRequest { stanza_name, source_ip, payload },
        },
    }
}

/// The source and the bytes of a captured packet.
pub open spec fn captured_source(msg: CaptureMsg) -> IpAddr {
    match msg {
        CaptureMsg::Packet { source_ip, .. } => source_ip,
    }
}

/// The bytes of a captured packet.
pub open spec fn captured_data(msg: CaptureMsg) -> Seq<u8> {
    match msg {
        CaptureMsg::Packet { data, .. } => data@,
    }
}

/// Checks a captured packet at the time `now`.
#[must_use]
pub fn validate_capture_msg_at(msg: CaptureMsg, config: &DaemonConfig, now: i64) -> (r: CryptoMsg)
    ensures
        r@ == validated(captured_source(msg), captured_data(msg), *config, now),
{
    let (source_ip, data) = match msg {
        CaptureMsg::Packet { source_ip, data } => (source_ip, data),
    };
    let (stanza_name, stanza, payload) = match screen_packet(data.as_slice(), config, now) {
        Screening::Settled(ProcessResult::Rejected { stanza_name, reason }) => {
            return CryptoMsg::Rejected { source_ip, reason };
        },
        Screening::Settled(_) => return CryptoMsg::NoMatch { source_ip },
        Screening::Pending { stanza_name, stanza, payload } => (stanza_name, stanza, payload),
    };
    match check_policy(stanza, &payload, source_ip, "unsupported message variant") {
        Some(reason) => CryptoMsg::Rejected { source_ip, reason },
        None => CryptoMsg::ValidRequest { stanza_name, source_ip, payload },
    }
}

/// Checks a captured packet now.
#[must_use]
pub fn validate_capture_msg(msg: CaptureMsg, config: &DaemonConfig) -> (r: CryptoMsg)
    ensures
        exists|now: i64|
            r@ == #[trigger] validated(captured_source(msg), captured_data(msg), *config, now)
                && time::clock_time(now),
{
    let now: i64 = now_unix();
    validate_capture_msg_at(msg, config, now)
}

/// Every answer of the crypto worker is about the sender of the packet. It is that the packet
/// belongs to no stanza exactly where it is authentic under no stanza's key; and where the
/// packet is passed on, it is authentic under the key of a stanza.
pub proof fn law_answers_are_about_the_packet(
    source_ip: IpAddr,
    data: Seq<u8>,
    config: DaemonConfig,
    now: i64,
)
    ensures
        match validated(source_ip, data, config, now) {
            CryptoView::ValidRequest { source_ip: ip, .. } => ip == source_ip,
            CryptoView::Rejected { source_ip: ip, .. } => ip == source_ip,
            CryptoView::NoMatch { source_ip: ip } => ip == source_ip,
        },
        validated(source_ip, data, config, now) is NoMatch <==> forall|i: int|
            0 <= i < config.access@.len() ==> !packet::authentic(
                data,
                (#[trigger] config.access@[i]).master_key_base64.0@,
            ),
{
    matcher::law_no_match_means_no_key(data, config.access@);
    if validated(source_ip, data, config, now) is NoMatch {
        assert forall|i: int| 0 <= i < config.access@.len() implies !packet::authentic(
            data,
            (#[trigger] config.access@[i]).master_key_base64.0@,
        ) by {
            assert(!packet::authentic(data, matcher::stanza_key(config.access@[i])));
        }
    } else {
        if forall|i: int|
            0 <= i < config.access@.len() ==> !packet::authentic(
                data,
                (#[trigger] config.access@[i]).master_key_base64.0@,
            ) {
            assert forall|i: int| 0 <= i < config.access@.len() implies !packet::authentic(
                data,
                matcher::stanza_key(#[trigger] config.access@[i]),
            ) by {
                assert(!packet::authentic(data, config.access@[i].master_key_base64.0@));
            }
        }
    }
}

/// A packet that is in time is passed on exactly where the policy of its stanza has nothing
/// against it, and what is passed on is the payload that was read; otherwise the policy's
/// reason is the answer.
pub proof fn law_policy_decides_what_is_passed_on(
    source_ip: IpAddr,
    data: Seq<u8>,
    config: DaemonConfig,
    now: i64,
)
    requires
        pipeline::screened(data, config, now) is Pending,
    ensures
        ({
            let s = pipeline::screened(data, config, now);
            let refusal = policy::policy_error(
                s->Pending_stanza,
                s->Pending_payload,
                source_ip,
                "unsupported message variant"@,
            );
            &&& refusal is None ==> validated(source_ip, data, config, now) == (
            CryptoView::ValidRequest {
                stanza_name: s->Pending_stanza_name,
                source_ip,
                payload: s->Pending_payload,
            })
            &&& refusal is Some ==> validated(source_ip, data, config, now) == (
            CryptoView::Rejected { source_ip, reason: refusal->0 })
        }),
{
}

/// The packet that is checked is the one that was captured: its sender and its bytes.
pub proof fn law_captured_packet_is_checked(
    source_ip: IpAddr,
    data: Vec<u8>,
    config: DaemonConfig,
    now: i64,
    r: CryptoMsg,
)
    requires
        call_ensures(
            validate_capture_msg_at,
            (CaptureMsg::Packet { source_ip, data }, &config, now),
            r,
        ),
    ensures
        r@ == validated(source_ip, data@, config, now),
        match r {
            CryptoMsg::ValidRequest { source_ip: ip, .. } => ip == source_ip,
            CryptoMsg::Rejected { source_ip: ip, .. } => ip == source_ip,
            CryptoMsg::NoMatch { source_ip: ip } => ip == source_ip,
        },
{
    law_answers_are_about_the_packet(source_ip, data@, config, now);
}

/// A packet that is settled before the policy is asked is answered with what settled it.
pub proof fn law_settled_packets_are_answered(
    source_ip: IpAddr,
    data: Seq<u8>,
    config: DaemonConfig,
    now: i64,
)
    ensures
        pipeline::screened(data, config, now) matches Screened::Settled(
            ProcessView::Rejected { reason, .. },
        ) ==> validated(source_ip, data, config, now) == (CryptoView::Rejected {
            source_ip,
            reason,
        }),
        pipeline::screened(data, config, now) == Screened::Settled(ProcessView::NoMatch)
            ==> validated(source_ip, data, config, now) == (CryptoView::NoMatch { source_ip }),
{
}

} // verus!
