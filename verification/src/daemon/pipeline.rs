//! What becomes of a packet.
//!
//! A packet is matched against the stanzas, its timestamp is held against the clock,
//! its nonce against the replay cache, and its request against the policy of the
//! stanza. Then the rule that is granted is installed.

use crate::capture::packet::CapturedPacket;
use crate::client::packet as client_packet;
use crate::client::packet::RequestView;
use crate::config::daemon;
use crate::config::daemon::{AccessStanza, DaemonConfig};
use crate::config::shared::SourceSpec;
use crate::daemon::matcher;
use crate::daemon::matcher::{match_packet, MatchResult, MatchView};
use crate::daemon::policy;
use crate::daemon::policy::{check_policy, find_stanza, grant_rule};
use crate::daemon::replay::ReplayCache;
use crate::firewall::backend::FirewallBackend;
use crate::firewall::error::FirewallError;
use crate::firewall::rule::{AccessRule, RuleHandle};
use crate::net;
use crate::outcome;
use crate::proto::packet;
use crate::proto::payload::{SpaPayload, SpaPayloadView};
use crate::proto::validate;
use crate::proto::validate::{validate_against_clock, DEFAULT_MAX_SKEW_SECS};
use crate::text;
use crate::time;
use crate::time::{read_clock, saturated_i64, unix_time_of};
use vstd::prelude::*;

verus! {

/// What became of a packet.
#[derive(Debug)]
pub enum ProcessResult {
    /// A stanza matched, and a rule was installed.
    Installed {
        /// The name of the stanza.
        stanza_name: String,
        /// The handle of the rule.
        handle: RuleHandle,
    },
    /// A stanza matched, but the packet was seen before.
    Replay {
        /// The name of the stanza.
        stanza_name: String,
    },
    /// No stanza matched.
    NoMatch,
    /// A stanza matched, but the packet was rejected.
    Rejected {
        /// The name of the stanza.
        stanza_name: String,
        /// Why.
        reason: String,
    },
}

/// The model of a [`ProcessResult`].
#[verifier::ext_equal]
pub enum ProcessView {
    /// See [`ProcessResult::Installed`].
    Installed {
        /// The name of the stanza.
        stanza_name: Seq<char>,
        /// The text of the handle of the rule.
        handle: Seq<char>,
    },
    /// See [`ProcessResult::Replay`].
    Replay {
        /// The name of the stanza.
        stanza_name: Seq<char>,
    },
    /// See [`ProcessResult::NoMatch`].
    NoMatch,
    /// See [`ProcessResult::Rejected`].
    Rejected {
        /// The name of the stanza.
        stanza_name: Seq<char>,
        /// Why.
        reason: Seq<char>,
    },
}

impl View for ProcessResult {
    type V = ProcessView;

    open spec fn view(&self) -> ProcessView {
        match *self {
            ProcessResult::Installed { stanza_name, handle } => ProcessView::Installed {
                stanza_name: stanza_name@,
                handle: handle.0@,
            },
            ProcessResult::Replay { stanza_name } => ProcessView::Replay {
                stanza_name: stanza_name@,
            },
            ProcessResult::NoMatch => ProcessView::NoMatch,
            ProcessResult::Rejected { stanza_name, reason } => ProcessView::Rejected {
                stanza_name: stanza_name@,
                reason: reason@,
            },
        }
    }
}

/// What is known of a packet before it is held against the replay cache.
pub enum Screened {
    /// What became of it is settled.
    Settled(ProcessView),
    /// It matched a stanza, and its timestamp is in the window.
    Pending {
        /// The name of the stanza.
        stanza_name: Seq<char>,
        /// The stanza.
        stanza: AccessStanza,
        /// The payload.
        payload: SpaPayloadView,
    },
}

/// The age in seconds from which a packet is too old.
pub open spec fn max_age(config: DaemonConfig) -> i64 {
    time::saturate_i64(config.daemon.max_spa_packet_age.secs)
}

/// What matching and the clock say of a packet.
pub open spec fn screened(wire: Seq<u8>, config: DaemonConfig, now: i64) -> Screened {
    match matcher::matched(wire, config.access@) {
        MatchView::NoMatch => Screened::Settled(ProcessView::NoMatch),
        MatchView::Rejected { stanza_name, reason } => Screened::Settled(
            ProcessView::Rejected { stanza_name, reason: reason.text() },
        ),
        MatchView::Matched { stanza_name, payload } => match validate::clock_error(
            payload.timestamp,
            now,
            max_age(config),
            DEFAULT_MAX_SKEW_SECS,
        ) {
            Some(e) => Screened::Settled(
                ProcessView::Rejected { stanza_name, reason: e.text() },
            ),
            None => Screened::Pending {
                stanza_name,
                stanza: config.access@[policy::stanza_index(config.access@, stanza_name, 0)->0],
                payload,
            },
        },
    }
}

/// The reason for a request that is no access request.
pub open spec fn unsupported_text() -> Seq<char> {
    "unsupported message variant in Phase 3"@
}

/// What processing a packet at a given time does. The replay cache, `cache` before and
/// `cache_after` after it, is asked once, and only of a packet that is authentic and in
/// the window. The firewall, `before` and `after` it, is touched only where a rule is
/// granted, and then that rule is installed.
pub open spec fn processed<F: FirewallBackend, C: ReplayCache>(
    packet: CapturedPacket,
    config: DaemonConfig,
    now: i64,
    cache: C,
    cache_after: C,
    before: F,
    after: F,
    r: Result<ProcessResult, FirewallError>,
) -> bool {
    match screened(packet.data@, config, now) {
        Screened::Settled(v) => cache_after == cache && after == before && r is Ok && r->Ok_0@ == v,
        Screened::Pending { stanza_name, stanza, payload } => exists|fresh: bool| #[trigger]
            C::checks(cache, payload.nonce, cache_after, fresh) && if !fresh {
                after == before && r is Ok && r->Ok_0@ == (ProcessView::Replay { stanza_name })
            } else {
                match policy::policy_error(stanza, payload, packet.source_ip, unsupported_text()) {
                    Some(reason) => after == before && r is Ok && r->Ok_0@ == (
                    ProcessView::Rejected { stanza_name, reason }),
                    None => installed(config, stanza_name, stanza, payload, before, after, r),
                }
            },
    }
}

/// What installing the rule that is granted to a request does.
pub open spec fn installed<F: FirewallBackend>(
    config: DaemonConfig,
    stanza_name: Seq<char>,
    stanza: AccessStanza,
    payload: SpaPayloadView,
    before: F,
    after: F,
    r: Result<ProcessResult, FirewallError>,
) -> bool {
    exists|rule: AccessRule, opened: Result<RuleHandle, FirewallError>|
        rule@ == policy::granted_rule(config.daemon, stanza, payload) && #[trigger] F::opens(
            before,
            rule,
            after,
            opened,
        ) && match opened {
            Ok(handle) => r is Ok && r->Ok_0@ == (ProcessView::Installed {
                stanza_name,
                handle: handle.0@,
            }),
            Err(e) => r == Err::<ProcessResult, FirewallError>(e),
        }
}

/// What [`screen_packet`] gives.
pub enum Screening<'a> {
    /// What became of the packet is settled.
    Settled(ProcessResult),
    /// The packet matched a stanza, and its timestamp is in the window.
    Pending {
        /// The name of the stanza.
        stanza_name: String,
        /// The stanza.
        stanza: &'a AccessStanza,
        /// The payload.
        payload: SpaPayload,
    },
}

/// Every name that matching gives is found among the stanzas.
pub proof fn law_matched_stanza_exists(wire: Seq<u8>, access: Seq<AccessStanza>)
    ensures
        matcher::matched(wire, access) matches MatchView::Matched { stanza_name, .. }
            ==> policy::stanza_index(access, stanza_name, 0) is Some,
{
    matcher::lemma_first_authentic(wire, access, 0);
    if let Some(i) = matcher::first_authentic(wire, access, 0) {
        policy::lemma_stanza_found(access, i, 0);
    }
}

/// Matches a packet and holds its timestamp against the clock.
pub fn screen_packet<'a>(data: &[u8], config: &'a DaemonConfig, now: i64) -> (r: Screening<'a>)
    ensures
        match r {
            Screening::Settled(v) => screened(data@, *config, now) == Screened::Settled(v@),
            Screening::Pending { stanza_name, stanza, payload } => screened(data@, *config, now)
                == (Screened::Pending {
                stanza_name: stanza_name@,
                stanza: *stanza,
                payload: payload@,
            }),
        },
{
    proof {
        law_matched_stanza_exists(data@, config.access@);
    }
    let (stanza_name, payload) = match match_packet(data, config.access.as_slice()) {
        MatchResult::Matched { stanza_name, payload } => (stanza_name, payload),
        MatchResult::NoMatch => return Screening::Settled(ProcessResult::NoMatch),
        MatchResult::Rejected { stanza_name, reason } => {
            return Screening::Settled(
                ProcessResult::Rejected { stanza_name, reason: reason.to_string() },
            );
        },
    };
    let stanza = match find_stanza(config, stanza_name.as_str()) {
        Ok(stanza) => stanza,
        Err(e) => {
            return Screening::Settled(
                ProcessResult::Rejected { stanza_name, reason: e.to_string() },
            );
        },
    };
    let max_age: i64 = saturated_i64(config.daemon.max_spa_packet_age.as_secs());
    match validate_against_clock(&payload, now, max_age, DEFAULT_MAX_SKEW_SECS) {
        Ok(_) => Screening::Pending { stanza_name, stanza, payload },
        Err(e) => Screening::Settled(
            ProcessResult::Rejected { stanza_name, reason: e.to_string() },
        ),
    }
}

/// Processes a packet at the time `now`. An error is one of the firewall.
pub fn process_packet_at<F: FirewallBackend, C: ReplayCache>(
    captured: &CapturedPacket,
    config: &DaemonConfig,
    now: i64,
    replay: &mut C,
    firewall: &mut F,
) -> (r: Result<ProcessResult, FirewallError>)
    ensures
        processed(
            *captured,
            *config,
            now,
            *old(replay),
            *final(replay),
            *old(firewall),
            *final(firewall),
            r,
        ),
{
    let (stanza_name, stanza, payload) = match screen_packet(captured.data.as_slice(), config, now) {
        Screening::Settled(result) => return Ok(result),
        Screening::Pending { stanza_name, stanza, payload } => (stanza_name, stanza, payload),
    };
    let fresh = replay.check_and_insert(payload.nonce);
    assert(C::checks(*old(replay), payload@.nonce, *replay, fresh));
    if !fresh {
        return Ok(ProcessResult::Replay { stanza_name });
    }
    if let Some(reason) = check_policy(
        stanza,
        &payload,
        captured.source_ip,
        "unsupported message variant in Phase 3",
    ) {
        return Ok(ProcessResult::Rejected { stanza_name, reason });
    }
    proof {
        policy::law_granted_within_policy(
            *stanza,
            payload@,
            captured.source_ip,
            unsupported_text(),
        );
    }
    match grant_rule(&config.daemon, stanza, &payload) {
        Some(rule) => match firewall.open_access(&rule) {
            Ok(handle) => Ok(ProcessResult::Installed { stanza_name, handle }),
            Err(e) => Err(e),
        },
        None => Ok(
            ProcessResult::Rejected {
                stanza_name,
                reason: "unsupported message variant in Phase 3".to_owned(),
            },
        ),
    }
}

/// The time in seconds since the Unix epoch, 0 where the clock stands before it.
pub fn now_unix() -> (r: i64)
    ensures
        r >= 0,
        time::clock_time(r),
{
    unix_time_of(read_clock())
}

/// Processes a packet now.
pub fn process_packet<F: FirewallBackend, C: ReplayCache>(
    captured: &CapturedPacket,
    config: &DaemonConfig,
    replay: &mut C,
    firewall: &mut F,
) -> (r: Result<ProcessResult, FirewallError>)
    ensures
        exists|now: i64| #[trigger]
            processed(
                *captured,
                *config,
                now,
                *old(replay),
                *final(replay),
                *old(firewall),
                *final(firewall),
                r,
            ) && time::clock_time(now),
{
    let now: i64 = now_unix();
    process_packet_at(captured, config, now, replay, firewall)
}

/// In a valid configuration a stanza is found by its own name, so the stanza whose
/// key verified a packet is the one whose policy decides.
pub proof fn law_stanza_found_by_its_name(config: DaemonConfig, i: int)
    requires
        daemon::config_problem(config) is None,
        0 <= i < config.access@.len(),
    ensures
        policy::stanza_index(config.access@, config.access@[i].name@, 0) == Some(i),
{
    policy::lemma_stanza_found(config.access@, i, 0);
    let j = policy::stanza_index(config.access@, config.access@[i].name@, 0)->0;
    if j < i {
        daemon::law_valid_names_differ(config, j, i);
    }
}

/// Whether stanza `i` authorizes a packet: it is authentic under the key of that
/// stanza and carries a payload whose timestamp is in the window and whose request
/// the stanza grants.
pub open spec fn authorizes(packet: CapturedPacket, config: DaemonConfig, now: i64, i: int) -> bool {
    &&& 0 <= i < config.access@.len()
    &&& packet::authentic(packet.data@, matcher::stanza_key(config.access@[i]))
    &&& packet::parsed(packet.data@, matcher::stanza_key(config.access@[i])) matches Ok(p)
    &&& validate::clock_error(p.timestamp, now, max_age(config), DEFAULT_MAX_SKEW_SECS) is None
    &&& policy::policy_error(config.access@[i], p, packet.source_ip, unsupported_text()) is None
}

/// In a valid configuration a rule is installed only for a packet that a stanza
/// authorizes and whose nonce the replay check called new; and the rule is the one
/// that this stanza grants to the payload.
pub proof fn law_installed_only_if_authorized<F: FirewallBackend, C: ReplayCache>(
    packet: CapturedPacket,
    config: DaemonConfig,
    now: i64,
    cache: C,
    cache_after: C,
    before: F,
    after: F,
    r: Result<ProcessResult, FirewallError>,
)
    requires
        daemon::config_problem(config) is None,
        processed(packet, config, now, cache, cache_after, before, after, r),
        r is Ok && r->Ok_0@ is Installed,
    ensures
        exists|i: int| #[trigger]
            authorizes(packet, config, now, i) && ({
                let p = packet::parsed(
                    packet.data@,
                    matcher::stanza_key(config.access@[i]),
                )->Ok_0;
                &&& C::checks(cache, p.nonce, cache_after, true)
                &&& installed(
                    config,
                    config.access@[i].name@,
                    config.access@[i],
                    p,
                    before,
                    after,
                    r,
                )
            }),
{
    let access = config.access@;
    matcher::lemma_first_authentic(packet.data@, access, 0);
    let i = matcher::first_authentic(packet.data@, access, 0)->0;
    law_stanza_found_by_its_name(config, i);
    assert(authorizes(packet, config, now, i));
}

/// In a valid configuration a packet that a stanza authorizes, that is authentic under
/// no key before it and whose nonce is new has its rule installed: the one that the
/// stanza grants to the payload. The one failure is that of the firewall.
pub proof fn law_authorized_is_installed<F: FirewallBackend, C: ReplayCache>(
    packet: CapturedPacket,
    config: DaemonConfig,
    now: i64,
    i: int,
    cache: C,
    cache_after: C,
    before: F,
    after: F,
    r: Result<ProcessResult, FirewallError>,
)
    requires
        daemon::config_problem(config) is None,
        authorizes(packet, config, now, i),
        forall|j: int|
            0 <= j < i ==> !packet::authentic(
                packet.data@,
                matcher::stanza_key(#[trigger] config.access@[j]),
            ),
        forall|nonce: Seq<u8>| !#[trigger] C::checks(cache, nonce, cache_after, false),
        processed(packet, config, now, cache, cache_after, before, after, r),
    ensures
        installed(
            config,
            config.access@[i].name@,
            config.access@[i],
            packet::parsed(packet.data@, matcher::stanza_key(config.access@[i]))->Ok_0,
            before,
            after,
            r,
        ),
{
    law_authorized_is_pending(packet, config, now, i);
}

/// In a valid configuration a packet that a stanza authorizes and that is authentic
/// under no key before it passes all checks but the one for replays, with that stanza
/// and the payload that it carries.
pub proof fn law_authorized_is_pending(packet: CapturedPacket, config: DaemonConfig, now: i64, i: int)
    requires
        daemon::config_problem(config) is None,
        authorizes(packet, config, now, i),
        forall|j: int|
            0 <= j < i ==> !packet::authentic(
                packet.data@,
                matcher::stanza_key(#[trigger] config.access@[j]),
            ),
    ensures
        screened(packet.data@, config, now) == (Screened::Pending {
            stanza_name: config.access@[i].name@,
            stanza: config.access@[i],
            payload: packet::parsed(
                packet.data@,
                matcher::stanza_key(config.access@[i]),
            )->Ok_0,
        }),
{
    let access = config.access@;
    matcher::lemma_first_authentic(packet.data@, access, 0);
    let found = matcher::first_authentic(packet.data@, access, 0);
    if found is None {
        assert(!packet::authentic(packet.data@, matcher::stanza_key(access[i])));
    } else if found->0 > i {
        assert(!packet::authentic(packet.data@, matcher::stanza_key(access[i])));
    } else if found->0 < i {
        assert(packet::authentic(packet.data@, matcher::stanza_key(access[found->0])));
    }
    law_stanza_found_by_its_name(config, i);
}

/// A packet that is authentic under no stanza's key changes nothing.
pub proof fn law_noise_changes_nothing<F: FirewallBackend, C: ReplayCache>(
    packet: CapturedPacket,
    config: DaemonConfig,
    now: i64,
    cache: C,
    cache_after: C,
    before: F,
    after: F,
    r: Result<ProcessResult, FirewallError>,
)
    requires
        forall|i: int|
            0 <= i < config.access@.len() ==> !packet::authentic(
                packet.data@,
                matcher::stanza_key(#[trigger] config.access@[i]),
            ),
        processed(packet, config, now, cache, cache_after, before, after, r),
    ensures
        after == before,
        cache_after == cache,
        r is Ok && r->Ok_0@ == ProcessView::NoMatch,
{
    matcher::law_no_match_means_no_key(packet.data@, config.access@);
}

/// A packet whose nonce is not new does not change the firewall: what was sent once opens
/// a port at most once.
pub proof fn law_replay_changes_nothing<F: FirewallBackend, C: ReplayCache>(
    packet: CapturedPacket,
    config: DaemonConfig,
    now: i64,
    cache: C,
    cache_after: C,
    before: F,
    after: F,
    r: Result<ProcessResult, FirewallError>,
)
    requires
        forall|nonce: Seq<u8>| !#[trigger] C::checks(cache, nonce, cache_after, true),
        processed(packet, config, now, cache, cache_after, before, after, r),
    ensures
        after == before,
        r is Ok && r->Ok_0@ !is Installed,
{
}

/// A packet that is not installed leaves the firewall as it was, unless the firewall
/// itself failed.
pub proof fn law_only_installing_touches_the_firewall<
    F: FirewallBackend,
    C: ReplayCache,
>(
    packet: CapturedPacket,
    config: DaemonConfig,
    now: i64,
    cache: C,
    cache_after: C,
    before: F,
    after: F,
    r: Result<ProcessResult, FirewallError>,
)
    requires
        processed(packet, config, now, cache, cache_after, before, after, r),
        r is Ok && r->Ok_0@ !is Installed,
    ensures
        after == before,
{
}

/// The replay cache is left as it is, unless the packet is authentic under the key of a
/// stanza and carries a payload whose timestamp is in the window; then its nonce is
/// checked, whatever the policy says of its request.
pub proof fn law_cache_sees_only_timely_packets<F: FirewallBackend, C: ReplayCache>(
    packet: CapturedPacket,
    config: DaemonConfig,
    now: i64,
    cache: C,
    cache_after: C,
    before: F,
    after: F,
    r: Result<ProcessResult, FirewallError>,
)
    requires
        processed(packet, config, now, cache, cache_after, before, after, r),
    ensures
        cache_after == cache || exists|i: int| #[trigger]
            timely(packet, config, now, i) && ({
                let p = packet::parsed(
                    packet.data@,
                    matcher::stanza_key(config.access@[i]),
                )->Ok_0;
                C::checks(cache, p.nonce, cache_after, true) || C::checks(
                    cache,
                    p.nonce,
                    cache_after,
                    false,
                )
            }),
        (forall|i: int| !#[trigger] timely(packet, config, now, i)) ==> cache_after == cache,
{
    let access = config.access@;
    matcher::lemma_first_authentic(packet.data@, access, 0);
    let i = matcher::first_authentic(packet.data@, access, 0)->0;
    if screened(packet.data@, config, now) is Pending {
        assert(timely(packet, config, now, i));
    }
}

/// Whether a packet is authentic under the key of stanza `i` and carries a payload whose
/// timestamp is in the window.
pub open spec fn timely(packet: CapturedPacket, config: DaemonConfig, now: i64, i: int) -> bool {
    &&& 0 <= i < config.access@.len()
    &&& packet::authentic(packet.data@, matcher::stanza_key(config.access@[i]))
    &&& packet::parsed(packet.data@, matcher::stanza_key(config.access@[i])) matches Ok(p)
    &&& validate::clock_error(p.timestamp, now, max_age(config), DEFAULT_MAX_SKEW_SECS) is None
}

/// What it takes to be authorized by a stanza, in the packet's and the stanza's own values:
/// the packet is read, under the stanza's key, to an access request; the clock is at most 30
/// seconds before its timestamp and at most the configured age after it; the sender, the
/// source, the username and every port are as the stanza wants them.
pub proof fn law_authorized_by_its_parts(
    packet: CapturedPacket,
    config: DaemonConfig,
    now: i64,
    i: int,
    p: SpaPayloadView,
)
    requires
        0 <= i < config.access@.len(),
        outcome::gives(packet::parsed(packet.data@, config.access@[i].master_key_base64.0@), p),
        config.daemon.max_spa_packet_age.secs <= 0x7fff_ffff_ffff_ffff,
    ensures
        authorizes(packet, config, now, i) <==> {
            let stanza = config.access@[i];
            &&& p.timestamp - 30 <= now <= p.timestamp + config.daemon.max_spa_packet_age.secs
            &&& p.message is Access
            &&& stanza.require_source_match ==> p.message->Access_source_ip == packet.source_ip
            &&& exists|k: int|
                0 <= k < stanza.source@.len() && match #[trigger] stanza.source@[k] {
                    SourceSpec::Any => true,
                    SourceSpec::Cidr(range) => net::net_contains(range, packet.source_ip),
                    SourceSpec::Single(ip) => ip == packet.source_ip,
                }
            &&& stanza.require_username is Some ==> stanza.require_username->0@ == p.username
            &&& forall|k: int|
                0 <= k < p.message->Access_ports.len() ==> stanza.open_ports.0@.contains(
                    #[trigger] p.message->Access_ports[k],
                )
        },
{
    packet::law_accepted_payload(packet.data@, config.access@[i].master_key_base64.0@);
    validate::law_accepted_in_window(p.timestamp, now, max_age(config), 30);
    policy::law_policy_decides_by_all_its_parts(
        config.access@[i],
        p,
        packet.source_ip,
        unsupported_text(),
    );
}

/// Where the first stanza under whose key a packet is authentic reads it to a payload, the
/// packet goes on to the check for replays exactly where the clock is at most 30 seconds
/// before its timestamp and at most the configured age after it. It is rejected otherwise,
/// under the name of that stanza, and so is one that the stanza cannot read.
pub proof fn law_screened_by_the_clock(wire: Seq<u8>, config: DaemonConfig, now: i64, i: int)
    requires
        0 <= i < config.access@.len(),
        packet::authentic(wire, config.access@[i].master_key_base64.0@),
        forall|j: int|
            0 <= j < i ==> !packet::authentic(
                wire,
                (#[trigger] config.access@[j]).master_key_base64.0@,
            ),
        config.daemon.max_spa_packet_age.secs <= 0x7fff_ffff_ffff_ffff,
    ensures
        match packet::parsed(wire, config.access@[i].master_key_base64.0@) {
            Ok(p) => {
                &&& screened(wire, config, now) is Pending <==> p.timestamp - 30 <= now
                    <= p.timestamp + config.daemon.max_spa_packet_age.secs
                &&& screened(wire, config, now) is Pending ==> screened(
                    wire,
                    config,
                    now,
                )->Pending_payload == p && screened(wire, config, now)->Pending_stanza_name
                    == config.access@[i].name@
                &&& screened(wire, config, now) is Settled ==> screened(
                    wire,
                    config,
                    now,
                )->Settled_0 is Rejected && screened(
                    wire,
                    config,
                    now,
                )->Settled_0->Rejected_stanza_name == config.access@[i].name@
                &&& 30 < p.timestamp - now <= i64::MAX ==> screened(
                    wire,
                    config,
                    now,
                )->Settled_0->Rejected_reason == "packet timestamp is "@ + text::signed_decimal(
                    p.timestamp - now,
                ) + "s in the future"@
                &&& config.daemon.max_spa_packet_age.secs < now - p.timestamp <= i64::MAX
                    ==> screened(wire, config, now)->Settled_0->Rejected_reason == "packet age "@
                    + text::signed_decimal(now - p.timestamp) + "s exceeds maximum "@
                    + text::signed_decimal(config.daemon.max_spa_packet_age.secs as int) + "s"@
            },
            Err(e) => screened(wire, config, now) == Screened::Settled(
                ProcessView::Rejected {
                    stanza_name: config.access@[i].name@,
                    reason: e.text(),
                },
            ),
        },
{
    let access = config.access@;
    matcher::lemma_first_authentic(wire, access, 0);
    let found = matcher::first_authentic(wire, access, 0);
    assert(packet::authentic(wire, matcher::stanza_key(access[i])));
    assert(found == Some(i)) by {
        assert(found is Some);
        if found->0 < i {
            assert(packet::authentic(wire, matcher::stanza_key(access[found->0])));
            assert(!packet::authentic(wire, access[found->0].master_key_base64.0@));
        }
    }
    if let Ok(p) = packet::parsed(wire, access[i].master_key_base64.0@) {
        validate::law_accepted_in_window(p.timestamp, now, max_age(config), 30);
    }
}

/// What is installed opens what the packet asked for: in a valid configuration, behind every
/// rule that is installed stands a stanza under whose key the packet was read, a payload in
/// time with a new nonce, and a rule for the payload's source and its ports, which the
/// firewall opened. Where the stanza requires it, that source is the sender of the packet.
pub proof fn law_installed_rule_is_the_request<F: FirewallBackend, C: ReplayCache>(
    packet: CapturedPacket,
    config: DaemonConfig,
    now: i64,
    cache: C,
    cache_after: C,
    before: F,
    after: F,
    r: Result<ProcessResult, FirewallError>,
)
    requires
        daemon::config_problem(config) is None,
        processed(packet, config, now, cache, cache_after, before, after, r),
        r is Ok && r->Ok_0@ is Installed,
        config.daemon.max_spa_packet_age.secs <= 0x7fff_ffff_ffff_ffff,
    ensures
        exists|i: int, rule: AccessRule, handle: RuleHandle|
            {
                let stanza = #[trigger] config.access@[i];
                let parsed = packet::parsed(packet.data@, stanza.master_key_base64.0@);
                &&& 0 <= i < config.access@.len()
                &&& #[trigger] F::opens(before, rule, after, Ok(handle))
                &&& r->Ok_0@->Installed_stanza_name == stanza.name@
                &&& r->Ok_0@->Installed_handle == handle.0@
                &&& parsed is Ok
                &&& parsed->Ok_0.message is Access
                &&& parsed->Ok_0.timestamp - 30 <= now <= parsed->Ok_0.timestamp
                    + config.daemon.max_spa_packet_age.secs
                &&& C::checks(cache, parsed->Ok_0.nonce, cache_after, true)
                &&& rule.source_ip == parsed->Ok_0.message->Access_source_ip
                &&& rule.ports@ == parsed->Ok_0.message->Access_ports
                &&& stanza.require_source_match ==> rule.source_ip == packet.source_ip
                &&& forall|k: int|
                    0 <= k < rule.ports@.len() ==> stanza.open_ports.0@.contains(
                        #[trigger] rule.ports@[k],
                    )
            },
{
    law_installed_only_if_authorized(packet, config, now, cache, cache_after, before, after, r);
    let i = choose|i: int| #[trigger]
        authorizes(packet, config, now, i) && ({
            let p = packet::parsed(
                packet.data@,
                matcher::stanza_key(config.access@[i]),
            )->Ok_0;
            &&& C::checks(cache, p.nonce, cache_after, true)
            &&& installed(config, config.access@[i].name@, config.access@[i], p, before, after, r)
        });
    let stanza = config.access@[i];
    let p = packet::parsed(packet.data@, stanza.master_key_base64.0@)->Ok_0;
    law_authorized_by_its_parts(packet, config, now, i, p);
    let (rule, opened) = choose|rule: AccessRule, opened: Result<RuleHandle, FirewallError>|
        rule@ == policy::granted_rule(config.daemon, stanza, p) && #[trigger] F::opens(
            before,
            rule,
            after,
            opened,
        ) && match opened {
            Ok(handle) => r is Ok && r->Ok_0@ == (ProcessView::Installed {
                stanza_name: stanza.name@,
                handle: handle.0@,
            }),
            Err(e) => r == Err::<ProcessResult, FirewallError>(e),
        };
    policy::law_granted_rule_is_what_was_asked(
        config.daemon,
        stanza,
        p,
        packet.source_ip,
        unsupported_text(),
    );
    let handle = opened->Ok_0;
    assert(opened == Ok::<RuleHandle, FirewallError>(handle));
    assert(F::opens(before, rule, after, Ok(handle)));
    assert(rule.source_ip == rule@.source_ip && rule.ports@ == rule@.ports);
    assert(config.access@[i] == stanza);
}

/// A packet in time always has its nonce checked. One whose nonce is not new is answered as a
/// replay of its stanza, and one that is new but that the policy refuses is rejected for the
/// policy's reason; neither touches the firewall.
pub proof fn law_answers_behind_the_replay_check<F: FirewallBackend, C: ReplayCache>(
    packet: CapturedPacket,
    config: DaemonConfig,
    now: i64,
    cache: C,
    cache_after: C,
    before: F,
    after: F,
    r: Result<ProcessResult, FirewallError>,
)
    requires
        processed(packet, config, now, cache, cache_after, before, after, r),
        screened(packet.data@, config, now) is Pending,
    ensures
        ({
            let s = screened(packet.data@, config, now);
            let seen = forall|nonce: Seq<u8>| !#[trigger] C::checks(cache, nonce, cache_after, true);
            let new = forall|nonce: Seq<u8>| !#[trigger] C::checks(cache, nonce, cache_after, false);
            let refusal = policy::policy_error(
                s->Pending_stanza,
                s->Pending_payload,
                packet.source_ip,
                unsupported_text(),
            );
            &&& C::checks(cache, s->Pending_payload.nonce, cache_after, true) || C::checks(
                cache,
                s->Pending_payload.nonce,
                cache_after,
                false,
            )
            &&& seen ==> after == before && r is Ok && r->Ok_0@ == (ProcessView::Replay {
                stanza_name: s->Pending_stanza_name,
            })
            &&& new && refusal is Some ==> after == before && r is Ok && r->Ok_0@ == (
            ProcessView::Rejected { stanza_name: s->Pending_stanza_name, reason: refusal->0 })
        }),
{
}

/// What a client asks for is what the daemon opens. In a valid configuration, a fresh packet
/// that carries a request under the key of a stanza has a rule opened for the source and the
/// ports of the request, where it arrives in time and unseen, is authentic under no key before,
/// and asks for nothing that the stanza does not allow. The one failure is that of the firewall.
pub proof fn law_client_request_is_opened<F: FirewallBackend, C: ReplayCache>(
    packet: CapturedPacket,
    req: RequestView,
    config: DaemonConfig,
    now: i64,
    i: int,
    k: int,
    cache: C,
    cache_after: C,
    before: F,
    after: F,
    r: Result<ProcessResult, FirewallError>,
)
    requires
        daemon::config_problem(config) is None,
        0 <= i < config.access@.len(),
        client_packet::carries_request(packet.data@, req),
        req.master_key == config.access@[i].master_key_base64.0@,
        req.username.len() <= 64,
        forall|j: int|
            0 <= j < req.username.len() ==> 0x20 <= (#[trigger] req.username[j]) as int <= 0x7e,
        forall|j: int|
            0 <= j < i ==> !packet::authentic(
                packet.data@,
                (#[trigger] config.access@[j]).master_key_base64.0@,
            ),
        config.daemon.max_spa_packet_age.secs <= 0x7fff_ffff_ffff_ffff,
        packet::parsed(packet.data@, req.master_key)->Ok_0.timestamp - 30 <= now
            <= packet::parsed(packet.data@, req.master_key)->Ok_0.timestamp
            + config.daemon.max_spa_packet_age.secs,
        config.access@[i].require_source_match ==> req.source_ip == packet.source_ip,
        0 <= k < config.access@[i].source@.len(),
        match config.access@[i].source@[k] {
            SourceSpec::Any => true,
            SourceSpec::Cidr(range) => net::net_contains(range, packet.source_ip),
            SourceSpec::Single(ip) => ip == packet.source_ip,
        },
        config.access@[i].require_username is Some ==> config.access@[i].require_username->0@
            == req.username,
        forall|j: int|
            0 <= j < req.ports.len() ==> config.access@[i].open_ports.0@.contains(
                #[trigger] req.ports[j],
            ),
        forall|nonce: Seq<u8>| !#[trigger] C::checks(cache, nonce, cache_after, false),
        processed(packet, config, now, cache, cache_after, before, after, r),
    ensures
        exists|rule: AccessRule, opened: Result<RuleHandle, FirewallError>|
            {
                &&& #[trigger] F::opens(before, rule, after, opened)
                &&& rule.source_ip == req.source_ip
                &&& rule.ports@ == req.ports
                &&& r is Ok <==> opened is Ok
                &&& r is Err ==> r->Err_0 == opened->Err_0
                &&& r is Ok ==> r->Ok_0@ == (ProcessView::Installed {
                    stanza_name: config.access@[i].name@,
                    handle: opened->Ok_0.0@,
                })
            },
{
    let stanza = config.access@[i];
    client_packet::law_fresh_packet_carries_the_request(packet.data@, req);
    let p = packet::parsed(packet.data@, req.master_key)->Ok_0;
    law_authorized_by_its_parts(packet, config, now, i, p);
    assert(authorizes(packet, config, now, i));
    assert forall|j: int| 0 <= j < i implies !packet::authentic(
        packet.data@,
        matcher::stanza_key(#[trigger] config.access@[j]),
    ) by {
        assert(!packet::authentic(packet.data@, config.access@[j].master_key_base64.0@));
    }
    law_authorized_is_installed(packet, config, now, i, cache, cache_after, before, after, r);
    let (rule, opened) = choose|rule: AccessRule, opened: Result<RuleHandle, FirewallError>|
        rule@ == policy::granted_rule(config.daemon, stanza, p) && #[trigger] F::opens(
            before,
            rule,
            after,
            opened,
        ) && match opened {
            Ok(handle) => r is Ok && r->Ok_0@ == (ProcessView::Installed {
                stanza_name: stanza.name@,
                handle: handle.0@,
            }),
            Err(e) => r == Err::<ProcessResult, FirewallError>(e),
        };
    assert(F::opens(before, rule, after, opened));
    assert(rule.source_ip == rule@.source_ip && rule.ports@ == rule@.ports);
}

} // verus!
