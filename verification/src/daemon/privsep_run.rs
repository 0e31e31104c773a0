//! What the parent makes of the messages of the crypto worker.

use crate::capture::packet::CapturedPacket;
use crate::config::daemon;
use crate::config::daemon::{AccessStanza, DaemonConfig};
use crate::daemon::matcher;
use crate::daemon::pipeline;
use crate::daemon::pipeline::Screened;
use crate::daemon::policy;
use crate::daemon::policy::{find_stanza, grant_rule};
use crate::daemon::replay::ReplayCache;
use crate::daemon::validate;
use crate::firewall::backend::FirewallBackend;
use crate::firewall::error::FirewallError;
use crate::firewall::rule::{AccessRule, RuleHandle};
use crate::net::IpAddr;
use crate::privsep::messages::{CryptoMsg, CryptoView};
use crate::proto::packet;
use crate::proto::payload::SpaPayloadView;
use vstd::prelude::*;

verus! {

/// What the parent made of a message.
#[derive(Debug)]
pub enum ParentOutcome {
    /// The packet belongs to no stanza.
    NoMatch {
        /// The address of the sender.
        source_ip: IpAddr,
    },
    /// The crypto worker rejected the packet.
    Rejected {
        /// The address of the sender.
        source_ip: IpAddr,
        /// Why.
        reason: String,
    },
    /// The packet was seen before.
    Replay {
        /// The name of the stanza.
        stanza_name: String,
        /// The address of the sender.
        source_ip: IpAddr,
    },
    /// The request is no access request.
    Unsupported {
        /// The name of the stanza.
        stanza_name: String,
    },
    /// No stanza has the name in the message.
    UnknownStanza {
        /// The name.
        stanza_name: String,
    },
    /// A rule was installed.
    Installed {
        /// The name of the stanza.
        stanza_name: String,
        /// The address of the sender.
        source_ip: IpAddr,
        /// The handle of the rule.
        handle: RuleHandle,
    },
    /// The firewall failed.
    Failed {
        /// How.
        error: FirewallError,
    },
}

/// The model of a [`ParentOutcome`]; of a failure, that there was one.
#[allow(inconsistent_fields)]
#[verifier::ext_equal]
pub enum ParentView {
    /// See [`ParentOutcome::NoMatch`].
    NoMatch {
        /// The address of the sender.
        source_ip: IpAddr,
    },
    /// See [`ParentOutcome::Rejected`].
    Rejected {
        /// The address of the sender.
        source_ip: IpAddr,
        /// Why.
        reason: Seq<char>,
    },
    /// See [`ParentOutcome::Replay`].
    Replay {
        /// The name of the stanza.
        stanza_name: Seq<char>,
        /// The address of the sender.
        source_ip: IpAddr,
    },
    /// See [`ParentOutcome::Unsupported`].
    Unsupported {
        /// The name of the stanza.
        stanza_name: Seq<char>,
    },
    /// See [`ParentOutcome::UnknownStanza`].
    UnknownStanza {
        /// The name.
        stanza_name: Seq<char>,
    },
    /// See [`ParentOutcome::Installed`].
    Installed {
        /// The name of the stanza.
        stanza_name: Seq<char>,
        /// The address of the sender.
        source_ip: IpAddr,
        /// The text of the handle of the rule.
        handle: Seq<char>,
    },
    /// See [`ParentOutcome::Failed`].
    Failed {
        /// How.
        error: FirewallError,
    },
}

impl View for ParentOutcome {
    type V = ParentView;

    open spec fn view(&self) -> ParentView {
        match *self {
            ParentOutcome::NoMatch { source_ip } => ParentView::NoMatch { source_ip },
            ParentOutcome::Rejected { source_ip, reason } => ParentView::Rejected {
                source_ip,
                reason: reason@,
            },
            ParentOutcome::Replay { stanza_name, source_ip } => ParentView::Replay {
                stanza_name: stanza_name@,
                source_ip,
            },
            ParentOutcome::Unsupported { stanza_name } => ParentView::Unsupported {
                stanza_name: stanza_name@,
            },
            ParentOutcome::UnknownStanza { stanza_name } => ParentView::UnknownStanza {
                stanza_name: stanza_name@,
            },
            ParentOutcome::Installed { stanza_name, source_ip, handle } => ParentView::Installed {
                stanza_name: stanza_name@,
                source_ip,
                handle: handle.0@,
            },
            ParentOutcome::Failed { error } => ParentView::Failed { error },
        }
    }
}

/// What handling a message does. The replay cache, `cache` before and `cache_after` after
/// it, is asked once, and only of a valid request. The firewall, `before` and `after` it,
/// is touched only where the request is fresh, is an access request and names a stanza;
/// then the rule that the stanza grants is installed.
pub open spec fn handled<F: FirewallBackend, C: ReplayCache>(
    msg: CryptoView,
    config: DaemonConfig,
    cache: C,
    cache_after: C,
    before: F,
    after: F,
    r: ParentOutcome,
) -> bool {
    match msg {
        CryptoView::NoMatch { source_ip } => cache_after == cache && after == before && r@ == (
        ParentView::NoMatch { source_ip }),
        CryptoView::Rejected { source_ip, reason } => cache_after == cache && after == before && r@
            == (ParentView::Rejected { source_ip, reason }),
        CryptoView::ValidRequest { stanza_name, source_ip, payload } => exists|fresh: bool|
            #[trigger]
            C::checks(cache, payload.nonce, cache_after, fresh) && if !fresh {
                after == before && r@ == (ParentView::Replay { stanza_name, source_ip })
            } else if payload.message !is Access {
                after == before && r@ == (ParentView::Unsupported { stanza_name })
            } else {
                match policy::stanza_index(config.access@, stanza_name, 0) {
                    None => after == before && r@ == (ParentView::UnknownStanza { stanza_name }),
                    Some(i) => opened_by_parent(
                        config,
                        stanza_name,
                        config.access@[i],
                        source_ip,
                        payload,
                        before,
                        after,
                        r,
                    ),
                }
            },
    }
}

/// What installing the rule that a stanza grants does.
pub open spec fn opened_by_parent<F: FirewallBackend>(
    config: DaemonConfig,
    stanza_name: Seq<char>,
    stanza: AccessStanza,
    source_ip: IpAddr,
    payload: SpaPayloadView,
    before: F,
    after: F,
    r: ParentOutcome,
) -> bool {
    exists|rule: AccessRule, opened: Result<RuleHandle, FirewallError>|
        rule@ == policy::granted_rule(config.daemon, stanza, payload) && #[trigger] F::opens(
            before,
            rule,
            after,
            opened,
        ) && match opened {
            Ok(handle) => r@ == (ParentView::Installed {
                stanza_name,
                source_ip,
                handle: handle.0@,
            }),
            Err(error) => r@ == (ParentView::Failed { error }),
        }
}

/// Handles a message of the crypto worker.
pub fn handle_crypto_msg<F: FirewallBackend, C: ReplayCache>(
    msg: CryptoMsg,
    config: &DaemonConfig,
    replay: &mut C,
    firewall: &mut F,
) -> (r: ParentOutcome)
    ensures
        handled(
            msg@,
            *config,
            *old(replay),
            *final(replay),
            *old(firewall),
            *final(firewall),
            r,
        ),
{
    let (stanza_name, source_ip, payload) = match msg {
        CryptoMsg::NoMatch { source_ip } => return ParentOutcome::NoMatch { source_ip },
        CryptoMsg::Rejected { source_ip, reason } => {
            return ParentOutcome::Rejected { source_ip, reason };
        },
        CryptoMsg::ValidRequest { stanza_name, source_ip, payload } => (
            stanza_name,
            source_ip,
            payload,
        ),
    };
    let fresh = replay.check_and_insert(payload.nonce);
    assert(C::checks(*old(replay), payload@.nonce, *replay, fresh));
    if !fresh {
        return ParentOutcome::Replay { stanza_name, source_ip };
    }
    if !payload.message.is_access() {
        return ParentOutcome::Unsupported { stanza_name };
    }
    let stanza = match find_stanza(config, stanza_name.as_str()) {
        Ok(stanza) => stanza,
        Err(_) => return ParentOutcome::UnknownStanza { stanza_name },
    };
    match grant_rule(&config.daemon, stanza, &payload) {
        Some(rule) => match firewall.open_access(&rule) {
            Ok(handle) => ParentOutcome::Installed { stanza_name, source_ip, handle },
            Err(error) => ParentOutcome::Failed { error },
        },
        None => ParentOutcome::Unsupported { stanza_name },
    }
}

/// The crypto worker passes a packet on as a valid request exactly where the single
/// process would go on to the replay check and then grant the request; and the stanza,
/// the payload and the granted rule are the same.
pub proof fn law_workers_decide_as_one_process(
    source_ip: IpAddr,
    data: Seq<u8>,
    config: DaemonConfig,
    now: i64,
)
    ensures
        (validate::validated(source_ip, data, config, now) is ValidRequest) <==> (
        pipeline::screened(data, config, now) matches Screened::Pending { stanza, payload, .. }
            && policy::policy_error(stanza, payload, source_ip, pipeline::unsupported_text()) is None),
        validate::validated(source_ip, data, config, now) matches CryptoView::ValidRequest {
            stanza_name,
            source_ip: ip,
            payload,
        } ==> ip == source_ip && pipeline::screened(data, config, now) == (Screened::Pending {
            stanza_name,
            stanza: config.access@[policy::stanza_index(config.access@, stanza_name, 0)->0],
            payload,
        }) && policy::stanza_index(config.access@, stanza_name, 0) is Some && payload.message is Access,
{
    pipeline::law_matched_stanza_exists(data, config.access@);
}

/// In a valid configuration the parent installs a rule for what the crypto worker makes
/// of a packet only where a stanza authorizes the packet and the replay check called
/// its nonce new; and the rule is the one that this stanza grants to the payload.
pub proof fn law_parent_installs_only_if_authorized<
    F: FirewallBackend,
    C: ReplayCache,
>(
    packet: CapturedPacket,
    config: DaemonConfig,
    now: i64,
    cache: C,
    cache_after: C,
    before: F,
    after: F,
    r: ParentOutcome,
)
    requires
        daemon::config_problem(config) is None,
        handled(
            validate::validated(packet.source_ip, packet.data@, config, now),
            config,
            cache,
            cache_after,
            before,
            after,
            r,
        ),
        r@ is Installed,
    ensures
        exists|i: int| #[trigger]
            pipeline::authorizes(packet, config, now, i) && ({
                let p = packet::parsed(
                    packet.data@,
                    matcher::stanza_key(config.access@[i]),
                )->Ok_0;
                &&& C::checks(cache, p.nonce, cache_after, true)
                &&& opened_by_parent(
                    config,
                    config.access@[i].name@,
                    config.access@[i],
                    packet.source_ip,
                    p,
                    before,
                    after,
                    r,
                )
            }),
{
    let access = config.access@;
    matcher::lemma_first_authentic(packet.data@, access, 0);
    let i = matcher::first_authentic(packet.data@, access, 0)->0;
    pipeline::law_stanza_found_by_its_name(config, i);
    assert(pipeline::authorizes(packet, config, now, i));
}

/// In a valid configuration a packet that a stanza authorizes, that is authentic under
/// no key before it and whose nonce is new has its rule installed by the parent. The
/// one failure is that of the firewall.
pub proof fn law_parent_installs_what_is_authorized<
    F: FirewallBackend,
    C: ReplayCache,
>(
    packet: CapturedPacket,
    config: DaemonConfig,
    now: i64,
    i: int,
    cache: C,
    cache_after: C,
    before: F,
    after: F,
    r: ParentOutcome,
)
    requires
        daemon::config_problem(config) is None,
        pipeline::authorizes(packet, config, now, i),
        forall|j: int|
            0 <= j < i ==> !packet::authentic(
                packet.data@,
                matcher::stanza_key(#[trigger] config.access@[j]),
            ),
        forall|nonce: Seq<u8>| !#[trigger] C::checks(cache, nonce, cache_after, false),
        handled(
            validate::validated(packet.source_ip, packet.data@, config, now),
            config,
            cache,
            cache_after,
            before,
            after,
            r,
        ),
    ensures
        opened_by_parent(
            config,
            config.access@[i].name@,
            config.access@[i],
            packet.source_ip,
            packet::parsed(packet.data@, matcher::stanza_key(config.access@[i]))->Ok_0,
            before,
            after,
            r,
        ),
{
    pipeline::law_authorized_is_pending(packet, config, now, i);
    pipeline::law_stanza_found_by_its_name(config, i);
}

/// A request that the crypto worker passed on and whose nonce is not new does not change
/// the firewall.
pub proof fn law_replayed_request_changes_nothing<F: FirewallBackend, C: ReplayCache>(
    msg: CryptoView,
    config: DaemonConfig,
    cache: C,
    cache_after: C,
    before: F,
    after: F,
    r: ParentOutcome,
)
    requires
        forall|nonce: Seq<u8>| !#[trigger] C::checks(cache, nonce, cache_after, true),
        handled(msg, config, cache, cache_after, before, after, r),
    ensures
        after == before,
        r@ !is Installed,
{
}

/// What the crypto worker did not pass on as a valid request changes neither the replay
/// cache nor the firewall.
pub proof fn law_refused_message_changes_nothing<F: FirewallBackend, C: ReplayCache>(
    msg: CryptoView,
    config: DaemonConfig,
    cache: C,
    cache_after: C,
    before: F,
    after: F,
    r: ParentOutcome,
)
    requires
        msg !is ValidRequest,
        handled(msg, config, cache, cache_after, before, after, r),
    ensures
        cache_after == cache,
        after == before,
{
}

/// What the parent installs is what the request asks for: the rule is for the payload's
/// source and its ports, the firewall opened it, and the answer names the stanza, the sender
/// and the rule.
pub proof fn law_parent_installs_the_request<F: FirewallBackend, C: ReplayCache>(
    stanza_name: Seq<char>,
    source_ip: IpAddr,
    payload: SpaPayloadView,
    config: DaemonConfig,
    cache: C,
    cache_after: C,
    before: F,
    after: F,
    r: ParentOutcome,
)
    requires
        handled(
            CryptoView::ValidRequest { stanza_name, source_ip, payload },
            config,
            cache,
            cache_after,
            before,
            after,
            r,
        ),
        r@ is Installed,
    ensures
        payload.message is Access,
        C::checks(cache, payload.nonce, cache_after, true),
        r@->Installed_stanza_name == stanza_name,
        r@->Installed_source_ip == source_ip,
        exists|rule: AccessRule, handle: RuleHandle|
            {
                &&& #[trigger] F::opens(before, rule, after, Ok(handle))
                &&& r@->Installed_handle == handle.0@
                &&& rule.source_ip == payload.message->Access_source_ip
                &&& rule.ports@ == payload.message->Access_ports
            },
{
    let fresh = choose|fresh: bool| #[trigger]
        C::checks(cache, payload.nonce, cache_after, fresh) && if !fresh {
            after == before && r@ == (ParentView::Replay { stanza_name, source_ip })
        } else if payload.message !is Access {
            after == before && r@ == (ParentView::Unsupported { stanza_name })
        } else {
            match policy::stanza_index(config.access@, stanza_name, 0) {
                None => after == before && r@ == (ParentView::UnknownStanza { stanza_name }),
                Some(i) => opened_by_parent(
                    config,
                    stanza_name,
                    config.access@[i],
                    source_ip,
                    payload,
                    before,
                    after,
                    r,
                ),
            }
        };
    assert(fresh);
    let stanza = config.access@[policy::stanza_index(config.access@, stanza_name, 0)->0];
    let (rule, opened) = choose|rule: AccessRule, opened: Result<RuleHandle, FirewallError>|
        rule@ == policy::granted_rule(config.daemon, stanza, payload) && #[trigger] F::opens(
            before,
            rule,
            after,
            opened,
        ) && match opened {
            Ok(handle) => r@ == (ParentView::Installed {
                stanza_name,
                source_ip,
                handle: handle.0@,
            }),
            Err(error) => r@ == (ParentView::Failed { error }),
        };
    let handle = opened->Ok_0;
    assert(opened == Ok::<RuleHandle, FirewallError>(handle));
    assert(F::opens(before, rule, after, Ok(handle)));
    assert(rule.source_ip == rule@.source_ip && rule.ports@ == rule@.ports);
}

/// What the parent answers: a refusal of the crypto worker is handed on with its sender and
/// its reason; a request whose nonce is not new is a replay; a new request of another kind is
/// not supported; and a new access request for a name that no stanza has is unknown.
pub proof fn law_parent_answers<F: FirewallBackend, C: ReplayCache>(
    msg: CryptoView,
    config: DaemonConfig,
    cache: C,
    cache_after: C,
    before: F,
    after: F,
    r: ParentOutcome,
)
    requires
        handled(msg, config, cache, cache_after, before, after, r),
    ensures
        ({
            let seen = forall|nonce: Seq<u8>| !#[trigger] C::checks(cache, nonce, cache_after, true);
            let new = forall|nonce: Seq<u8>| !#[trigger] C::checks(cache, nonce, cache_after, false);
            match msg {
                CryptoView::NoMatch { source_ip } => r@ == (ParentView::NoMatch { source_ip }),
                CryptoView::Rejected { source_ip, reason } => r@ == (ParentView::Rejected {
                    source_ip,
                    reason,
                }),
                CryptoView::ValidRequest { stanza_name, source_ip, payload } => {
                    &&& C::checks(cache, payload.nonce, cache_after, true) || C::checks(
                        cache,
                        payload.nonce,
                        cache_after,
                        false,
                    )
                    &&& seen ==> r@ == (ParentView::Replay { stanza_name, source_ip })
                    &&& new && payload.message !is Access ==> after == before && r@ == (
                    ParentView::Unsupported { stanza_name })
                    &&& new && payload.message is Access && (forall|i: int|
                        0 <= i < config.access@.len() ==> (#[trigger] config.access@[i]).name@
                            != stanza_name) ==> after == before && r@ == (
                    ParentView::UnknownStanza { stanza_name })
                    &&& new && payload.message is Access && (exists|i: int|
                        0 <= i < config.access@.len() && (#[trigger] config.access@[i]).name@
                            == stanza_name) ==> r@ is Installed || r@ is Failed
                },
            }
        }),
{
    if let CryptoView::ValidRequest { stanza_name, source_ip, payload } = msg {
        policy::law_first_stanza_of_a_name(config.access@, stanza_name);
    }
}

} // verus!
