//! What a stanza authorizes: the checks on a request, and the rule that is granted.

use crate::config::daemon::{AccessStanza, DaemonConfig, DaemonSection};
use crate::config::shared;
use crate::config::shared::SourceSpec;
use crate::daemon::error::{DaemonError, DaemonErrorView};
use crate::firewall::rule::{copy_ports, AccessRule, AccessRuleView};
use crate::net;
use crate::net::IpAddr;
use crate::proto::payload::{SpaPayload, SpaPayloadView};
use crate::proto::types;
use crate::proto::types::{PortProto, SpaMessage, SpaMessageView};
use crate::text;
use crate::time;
use crate::time::Duration;
use vstd::prelude::*;

verus! {

/// The first stanza from `i` on with the given name.
pub open spec fn stanza_index(access: Seq<AccessStanza>, name: Seq<char>, i: int) -> Option<int>
    decreases access.len() - i,
{
    if i < 0 || i >= access.len() {
        None
    } else if access[i].name@ == name {
        Some(i)
    } else {
        stanza_index(access, name, i + 1)
    }
}

/// The text of the error for a name that no stanza has.
pub open spec fn unknown_stanza_text(name: Seq<char>) -> Seq<char> {
    "stanza name "@ + text::debug_quoted(name) + " not found in config"@
}

/// The first stanza with the given name. A name that no stanza has breaks an
/// invariant.
pub fn find_stanza<'a>(config: &'a DaemonConfig, name: &str) -> (r: Result<
    &'a AccessStanza,
    DaemonError,
>)
    ensures
        match stanza_index(config.access@, name@, 0) {
            Some(i) => 0 <= i < config.access@.len() && r == Ok::<&AccessStanza, DaemonError>(
                &config.access@[i],
            ),
            None => r is Err && r->Err_0@ == DaemonErrorView::InvariantViolation(
                unknown_stanza_text(name@),
            ),
        },
{
    for i in 0..config.access.len()
        invariant
            stanza_index(config.access@, name@, 0) == stanza_index(config.access@, name@, i as int),
    {
        if text::same_text(config.access[i].name.as_str(), name) {
            return Ok(&config.access[i]);
        }
    }
    let mut msg = "stanza name ".to_owned();
    msg.append(text::quoted(name).as_str());
    msg.append(" not found in config");
    Err(DaemonError::InvariantViolation(msg))
}

/// Whether one of the sources admits an address.
pub open spec fn source_allowed(source: Seq<SourceSpec>, ip: IpAddr) -> bool {
    exists|i: int| 0 <= i < source.len() && shared::source_matches(#[trigger] source[i], ip)
}

/// The first port from `i` on that is not among the open ports.
pub open spec fn refused_port(ports: Seq<PortProto>, open_ports: Seq<PortProto>, i: int) -> Option<
    PortProto,
>
    decreases ports.len() - i,
{
    if i < 0 || i >= ports.len() {
        None
    } else if !open_ports.contains(ports[i]) {
        Some(ports[i])
    } else {
        refused_port(ports, open_ports, i + 1)
    }
}

/// Why a stanza does not grant a request from a sender, if it does not: the source
/// in the payload is not the sender, the sender is not admitted, the username is not
/// the required one, or a port is not open. Only access requests are granted;
/// `unsupported` is the reason for the others.
pub open spec fn policy_error(
    stanza: AccessStanza,
    p: SpaPayloadView,
    sender: IpAddr,
    unsupported: Seq<char>,
) -> Option<Seq<char>> {
    match p.message {
        SpaMessageView::Access { source_ip, ports } => if stanza.require_source_match && source_ip
            != sender {
            Some(
                "source mismatch: payload says "@ + net::ip_text(source_ip) + ", packet from "@
                    + net::ip_text(sender),
            )
        } else if !source_allowed(stanza.source@, sender) {
            Some("source "@ + net::ip_text(sender) + " not in stanza allowlist"@)
        } else if stanza.require_username is Some && stanza.require_username->0@ != p.username {
            Some("username "@ + text::debug_quoted(p.username) + " not allowed by stanza"@)
        } else if let Some(port) = refused_port(ports, stanza.open_ports.0@, 0) {
            Some("requested port "@ + types::port_text(port) + " not in stanza open_ports"@)
        } else {
            None
        },
        _ => Some(unsupported),
    }
}

/// How long a rule shall stay: what the client asks for, else what the stanza says,
/// else the default of the daemon.
pub open spec fn requested_timeout(
    daemon: DaemonSection,
    stanza: AccessStanza,
    client: Option<u32>,
) -> Duration {
    match (client, stanza.fw_timeout) {
        (Some(secs), _) => Duration { secs: secs as u64, nanos: 0 },
        (None, Some(timeout)) => timeout,
        (None, None) => daemon.default_fw_timeout,
    }
}

/// The longest time that a rule may stay: what the stanza says, else what the daemon
/// says.
pub open spec fn largest_timeout(daemon: DaemonSection, stanza: AccessStanza) -> Duration {
    match stanza.max_fw_timeout {
        Some(timeout) => timeout,
        None => daemon.max_fw_timeout,
    }
}

/// The rule that is granted to an access request.
pub open spec fn granted_rule(
    daemon: DaemonSection,
    stanza: AccessStanza,
    p: SpaPayloadView,
) -> AccessRuleView
    recommends
        p.message is Access,
{
    AccessRuleView {
        source_ip: p.message->Access_source_ip,
        ports: p.message->Access_ports,
        timeout: time::shorter(
            requested_timeout(daemon, stanza, p.client_timeout),
            largest_timeout(daemon, stanza),
        ),
        comment: "fwknox:"@ + p.username + ":"@ + text::signed_decimal(p.timestamp as int),
    }
}

/// Whether one of the sources admits an address.
fn is_source_allowed(source: &Vec<SourceSpec>, ip: IpAddr) -> (r: bool)
    ensures
        r == source_allowed(source@, ip),
{
    for i in 0..source.len()
        invariant
            forall|j: int| 0 <= j < i ==> !shared::source_matches(#[trigger] source@[j], ip),
    {
        if source[i].matches(ip) {
            assert(shared::source_matches(source@[i as int], ip));
            return true;
        }
    }
    false
}

/// Whether a port is among the open ports.
fn is_port_open(p: PortProto, open_ports: &Vec<PortProto>) -> (r: bool)
    ensures
        r == open_ports@.contains(p),
{
    for i in 0..open_ports.len()
        invariant
            forall|j: int| 0 <= j < i ==> open_ports@[j] != p,
    {
        if open_ports[i] == p {
            assert(open_ports@[i as int] == p);
            return true;
        }
    }
    false
}

/// The first port that is not among the open ports.
fn find_refused_port(ports: &Vec<PortProto>, open_ports: &Vec<PortProto>) -> (r: Option<PortProto>)
    ensures
        r == refused_port(ports@, open_ports@, 0),
{
    for i in 0..ports.len()
        invariant
            refused_port(ports@, open_ports@, 0) == refused_port(ports@, open_ports@, i as int),
    {
        if !is_port_open(ports[i], open_ports) {
            return Some(ports[i]);
        }
    }
    None
}

/// Checks a request from a sender against a stanza. The result is why the request is
/// not granted, if it is not.
pub fn check_policy(
    stanza: &AccessStanza,
    payload: &SpaPayload,
    sender: IpAddr,
    unsupported: &str,
) -> (r: Option<String>)
    ensures
        match r {
            Some(reason) => policy_error(*stanza, payload@, sender, unsupported@) == Some(reason@),
            None => policy_error(*stanza, payload@, sender, unsupported@) is None,
        },
{
    let (source_ip, ports) = match &payload.message {
        SpaMessage::Access { source_ip, ports } => (source_ip, ports),
        _ => return Some(unsupported.to_owned()),
    };
    if stanza.require_source_match && *source_ip != sender {
        let mut reason = "source mismatch: payload says ".to_owned();
        reason.append(source_ip.to_string().as_str());
        reason.append(", packet from ");
        reason.append(sender.to_string().as_str());
        return Some(reason);
    }
    if !is_source_allowed(&stanza.source, sender) {
        let mut reason = "source ".to_owned();
        reason.append(sender.to_string().as_str());
        reason.append(" not in stanza allowlist");
        return Some(reason);
    }
    if let Some(required) = &stanza.require_username {
        if !text::same_text(required.as_str(), payload.username.as_str()) {
            let mut reason = "username ".to_owned();
            reason.append(text::quoted(payload.username.as_str()).as_str());
            reason.append(" not allowed by stanza");
            return Some(reason);
        }
    }
    if let Some(port) = find_refused_port(ports, &stanza.open_ports.0) {
        let mut reason = "requested port ".to_owned();
        reason.append(port.to_string().as_str());
        reason.append(" not in stanza open_ports");
        return Some(reason);
    }
    None
}

/// How long the rule for a request stays.
fn rule_timeout(daemon: &DaemonSection, stanza: &AccessStanza, client: Option<u32>) -> (r: Duration)
    ensures
        r == time::shorter(
            requested_timeout(*daemon, *stanza, client),
            largest_timeout(*daemon, *stanza),
        ),
{
    let requested = match client {
        Some(secs) => Duration::from_secs(secs as u64),
        None => match stanza.fw_timeout {
            Some(timeout) => timeout,
            None => daemon.default_fw_timeout,
        },
    };
    let largest = match stanza.max_fw_timeout {
        Some(timeout) => timeout,
        None => daemon.max_fw_timeout,
    };
    clamp_timeout(requested, largest)
}

/// A timeout, or the largest one where it is longer.
pub fn clamp_timeout(requested: Duration, max: Duration) -> (r: Duration)
    ensures
        r == time::shorter(requested, max),
{
    requested.at_most(&max)
}

/// The rule that is granted to a request, where it is an access request.
pub fn grant_rule(daemon: &DaemonSection, stanza: &AccessStanza, payload: &SpaPayload) -> (r:
    Option<AccessRule>)
    ensures
        r is Some <==> payload@.message is Access,
        r is Some ==> r->0@ == granted_rule(*daemon, *stanza, payload@),
{
    match &payload.message {
        SpaMessage::Access { source_ip, ports } => {
            let mut comment = "fwknox:".to_owned();
            comment.append(payload.username.as_str());
            comment.append(":");
            text::push_signed(&mut comment, payload.timestamp);
            Some(
                AccessRule {
                    source_ip: *source_ip,
                    ports: copy_ports(ports),
                    timeout: rule_timeout(daemon, stanza, payload.client_timeout),
                    comment,
                },
            )
        },
        _ => None,
    }
}

/// Where no port is refused, every port is among the open ports.
proof fn lemma_no_port_refused(ports: Seq<PortProto>, open_ports: Seq<PortProto>, from: int, i: int)
    requires
        0 <= from <= i < ports.len(),
        refused_port(ports, open_ports, from) is None,
    ensures
        open_ports.contains(ports[i]),
    decreases i - from,
{
    if from < i {
        lemma_no_port_refused(ports, open_ports, from + 1, i);
    }
}

/// A request that is granted is an access request; the sender is admitted by the
/// stanza and, where the stanza requires it, is the source that the rule opens for;
/// the username is the required one, if any; and every port is open in the stanza.
pub proof fn law_granted_within_policy(
    stanza: AccessStanza,
    p: SpaPayloadView,
    sender: IpAddr,
    unsupported: Seq<char>,
)
    requires
        policy_error(stanza, p, sender, unsupported) is None,
    ensures
        p.message is Access,
        source_allowed(stanza.source@, sender),
        stanza.require_source_match ==> p.message->Access_source_ip == sender,
        stanza.require_username is Some ==> stanza.require_username->0@ == p.username,
        forall|i: int|
            0 <= i < p.message->Access_ports.len() ==> stanza.open_ports.0@.contains(
                #[trigger] p.message->Access_ports[i],
            ),
{
    let ports = p.message->Access_ports;
    assert forall|i: int| 0 <= i < ports.len() implies stanza.open_ports.0@.contains(
        #[trigger] ports[i],
    ) by {
        lemma_no_port_refused(ports, stanza.open_ports.0@, 0, i);
    }
}

/// A rule never stays longer than the stanza allows, or the daemon where the stanza
/// does not say; and it stays as long as the client asks, where that is allowed.
pub proof fn law_timeout_within_limits(
    daemon: DaemonSection,
    stanza: AccessStanza,
    p: SpaPayloadView,
)
    ensures
        granted_rule(daemon, stanza, p).timeout.total_nanos() <= largest_timeout(
            daemon,
            stanza,
        ).total_nanos(),
        p.client_timeout is Some && p.client_timeout->0 * 1_000_000_000 <= largest_timeout(
            daemon,
            stanza,
        ).total_nanos() ==> granted_rule(daemon, stanza, p).timeout == (Duration {
            secs: p.client_timeout->0 as u64,
            nanos: 0,
        }),
{
}

/// A name that a stanza has is found.
pub proof fn lemma_stanza_found(access: Seq<AccessStanza>, i: int, from: int)
    requires
        0 <= from <= i < access.len(),
    ensures
        stanza_index(access, access[i].name@, from) matches Some(j) && from <= j <= i
            && access[j].name@ == access[i].name@,
    decreases i - from,
{
    if access[from].name@ != access[i].name@ {
        lemma_stanza_found(access, i, from + 1);
    }
}

/// The rule that is granted opens what was asked for and nothing else: its source is
/// the source that the payload names, and its ports are the payload's ports. Where the
/// stanza requires that the source is the sender, the rule opens for the sender.
pub proof fn law_granted_rule_is_what_was_asked(
    daemon: DaemonSection,
    stanza: AccessStanza,
    p: SpaPayloadView,
    sender: IpAddr,
    unsupported: Seq<char>,
)
    requires
        p.message is Access,
    ensures
        granted_rule(daemon, stanza, p).source_ip == p.message->Access_source_ip,
        granted_rule(daemon, stanza, p).ports == p.message->Access_ports,
        stanza.require_source_match && policy_error(stanza, p, sender, unsupported) is None
            ==> granted_rule(daemon, stanza, p).source_ip == sender,
{
}

/// What [`grant_rule`] gives for an access request, in the request's own values: its
/// source, its ports in their order, and a comment with its username and timestamp. It
/// gives nothing for any other request.
pub proof fn law_grant_rule_copies_the_request(
    daemon: DaemonSection,
    stanza: AccessStanza,
    payload: SpaPayload,
    r: Option<AccessRule>,
)
    requires
        call_ensures(grant_rule, (&daemon, &stanza, &payload), r),
    ensures
        match payload.message {
            SpaMessage::Access { source_ip, ports } => {
                &&& r is Some
                &&& r->0.source_ip == source_ip
                &&& r->0.ports@ == ports@
                &&& r->0.comment@ == "fwknox:"@ + payload.username@ + ":"@ + text::signed_decimal(
                    payload.timestamp as int,
                )
            },
            _ => r is None,
        },
{
}

/// The policy grants whatever it does not forbid: an access request is granted where one
/// of the sources admits the sender, the source is the sender if it has to be, the
/// username is the required one if there is one, and every port, however many there are,
/// is open in the stanza.
pub proof fn law_policy_grants_what_is_allowed(
    stanza: AccessStanza,
    p: SpaPayloadView,
    sender: IpAddr,
    unsupported: Seq<char>,
    i: int,
)
    requires
        p.message is Access,
        0 <= i < stanza.source@.len(),
        match stanza.source@[i] {
            SourceSpec::Any => true,
            SourceSpec::Cidr(range) => net::net_contains(range, sender),
            SourceSpec::Single(ip) => ip == sender,
        },
        stanza.require_source_match ==> p.message->Access_source_ip == sender,
        stanza.require_username is Some ==> stanza.require_username->0@ == p.username,
        forall|k: int|
            0 <= k < p.message->Access_ports.len() ==> stanza.open_ports.0@.contains(
                #[trigger] p.message->Access_ports[k],
            ),
    ensures
        policy_error(stanza, p, sender, unsupported) is None,
{
    assert(shared::source_matches(stanza.source@[i], sender));
    lemma_open_ports_are_not_refused(p.message->Access_ports, stanza.open_ports.0@, 0);
}

proof fn lemma_open_ports_are_not_refused(
    ports: Seq<PortProto>,
    open_ports: Seq<PortProto>,
    from: int,
)
    requires
        0 <= from,
        forall|k: int| from <= k < ports.len() ==> open_ports.contains(#[trigger] ports[k]),
    ensures
        refused_port(ports, open_ports, from) is None,
    decreases ports.len() - from,
{
    if from < ports.len() {
        lemma_open_ports_are_not_refused(ports, open_ports, from + 1);
    }
}

/// A request is granted exactly where all of the policy holds: the kind of the request,
/// the source in the payload, the sender, the username and every port.
pub proof fn law_policy_decides_by_all_its_parts(
    stanza: AccessStanza,
    p: SpaPayloadView,
    sender: IpAddr,
    unsupported: Seq<char>,
)
    ensures
        policy_error(stanza, p, sender, unsupported) is None <==> {
            &&& p.message is Access
            &&& stanza.require_source_match ==> p.message->Access_source_ip == sender
            &&& exists|i: int|
                0 <= i < stanza.source@.len() && match #[trigger] stanza.source@[i] {
                    SourceSpec::Any => true,
                    SourceSpec::Cidr(range) => net::net_contains(range, sender),
                    SourceSpec::Single(ip) => ip == sender,
                }
            &&& stanza.require_username is Some ==> stanza.require_username->0@ == p.username
            &&& forall|k: int|
                0 <= k < p.message->Access_ports.len() ==> stanza.open_ports.0@.contains(
                    #[trigger] p.message->Access_ports[k],
                )
        },
{
    if policy_error(stanza, p, sender, unsupported) is None {
        law_granted_within_policy(stanza, p, sender, unsupported);
        let i = choose|i: int|
            0 <= i < stanza.source@.len() && shared::source_matches(
                #[trigger] stanza.source@[i],
                sender,
            );
        assert(shared::source_matches(stanza.source@[i], sender));
    }
    if p.message is Access && forall|k: int|
        0 <= k < p.message->Access_ports.len() ==> stanza.open_ports.0@.contains(
            #[trigger] p.message->Access_ports[k],
        ) {
        lemma_open_ports_are_not_refused(p.message->Access_ports, stanza.open_ports.0@, 0);
    }
    if exists|i: int|
        0 <= i < stanza.source@.len() && match #[trigger] stanza.source@[i] {
            SourceSpec::Any => true,
            SourceSpec::Cidr(range) => net::net_contains(range, sender),
            SourceSpec::Single(ip) => ip == sender,
        } {
        let i = choose|i: int|
            0 <= i < stanza.source@.len() && match #[trigger] stanza.source@[i] {
                SourceSpec::Any => true,
                SourceSpec::Cidr(range) => net::net_contains(range, sender),
                SourceSpec::Single(ip) => ip == sender,
            };
        assert(shared::source_matches(stanza.source@[i], sender));
    }
}

/// The port that a refusal names is one that was asked for and is not open, and the ports
/// asked for before it are open.
pub proof fn law_refused_port_is_not_open(ports: Seq<PortProto>, open_ports: Seq<PortProto>)
    ensures
        match refused_port(ports, open_ports, 0) {
            Some(p) => exists|i: int|
                0 <= i < ports.len() && #[trigger] ports[i] == p && !open_ports.contains(p)
                    && forall|k: int| 0 <= k < i ==> open_ports.contains(#[trigger] ports[k]),
            None => forall|k: int| 0 <= k < ports.len() ==> open_ports.contains(#[trigger] ports[k]),
        },
{
    lemma_refused_port_is_first(ports, open_ports, 0);
}

proof fn lemma_refused_port_is_first(ports: Seq<PortProto>, open_ports: Seq<PortProto>, from: int)
    requires
        0 <= from,
    ensures
        match refused_port(ports, open_ports, from) {
            Some(p) => exists|i: int|
                from <= i < ports.len() && #[trigger] ports[i] == p && !open_ports.contains(p)
                    && forall|k: int| from <= k < i ==> open_ports.contains(#[trigger] ports[k]),
            None => forall|k: int|
                from <= k < ports.len() ==> open_ports.contains(#[trigger] ports[k]),
        },
    decreases ports.len() - from,
{
    if from < ports.len() && open_ports.contains(ports[from]) {
        lemma_refused_port_is_first(ports, open_ports, from + 1);
    }
}

/// How long a rule stays, in seconds and nanoseconds. What the client asks for counts
/// before what the stanza says, and that before the default of the daemon; the limit of
/// the stanza counts before that of the daemon. A time within the limit is kept as it is,
/// and a longer one becomes the limit.
pub proof fn law_timeout_by_precedence(
    daemon: DaemonSection,
    stanza: AccessStanza,
    p: SpaPayloadView,
    asked: Duration,
    limit: Duration,
)
    requires
        p.client_timeout is Some ==> asked.secs == p.client_timeout->0 && asked.nanos == 0,
        p.client_timeout is None && stanza.fw_timeout is Some ==> asked == stanza.fw_timeout->0,
        p.client_timeout is None && stanza.fw_timeout is None ==> asked
            == daemon.default_fw_timeout,
        stanza.max_fw_timeout is Some ==> limit == stanza.max_fw_timeout->0,
        stanza.max_fw_timeout is None ==> limit == daemon.max_fw_timeout,
        asked.nanos < 1_000_000_000,
        limit.nanos < 1_000_000_000,
    ensures
        granted_rule(daemon, stanza, p).timeout == (if asked.secs < limit.secs || (asked.secs
            == limit.secs && asked.nanos <= limit.nanos) {
            asked
        } else {
            limit
        }),
{
    time::law_shorter_is_the_shorter(asked, limit);
}

/// The stanza that a name stands for has that name, and none before it has.
pub proof fn law_first_stanza_of_a_name(access: Seq<AccessStanza>, name: Seq<char>)
    ensures
        match stanza_index(access, name, 0) {
            Some(i) => 0 <= i < access.len() && access[i].name@ == name && forall|j: int|
                0 <= j < i ==> (#[trigger] access[j]).name@ != name,
            None => forall|j: int| 0 <= j < access.len() ==> (#[trigger] access[j]).name@ != name,
        },
{
    lemma_stanza_index_is_first(access, name, 0);
}

proof fn lemma_stanza_index_is_first(access: Seq<AccessStanza>, name: Seq<char>, from: int)
    requires
        0 <= from,
    ensures
        match stanza_index(access, name, from) {
            Some(i) => from <= i < access.len() && access[i].name@ == name && forall|j: int|
                from <= j < i ==> (#[trigger] access[j]).name@ != name,
            None => forall|j: int|
                from <= j < access.len() ==> (#[trigger] access[j]).name@ != name,
        },
    decreases access.len() - from,
{
    if from < access.len() && access[from].name@ != name {
        lemma_stanza_index_is_first(access, name, from + 1);
    }
}

/// A refusal tells the first of the reasons that hold: the kind of the request, a source that
/// is not the sender, a sender that is not admitted, and a username that is not the required
/// one. It names the values that do not fit.
pub proof fn law_refusals_tell_the_first_reason(
    stanza: AccessStanza,
    p: SpaPayloadView,
    sender: IpAddr,
    unsupported: Seq<char>,
)
    ensures
        ({
            let r = policy_error(stanza, p, sender, unsupported);
            let source = p.message->Access_source_ip;
            let moved = stanza.require_source_match && source != sender;
            let stranger = forall|i: int|
                0 <= i < stanza.source@.len() ==> !shared::source_matches(
                    #[trigger] stanza.source@[i],
                    sender,
                );
            let misnamed = stanza.require_username is Some && stanza.require_username->0@
                != p.username;
            &&& p.message !is Access ==> r == Some(unsupported)
            &&& p.message is Access && moved ==> r == Some(
                "source mismatch: payload says "@ + net::ip_text(source) + ", packet from "@
                    + net::ip_text(sender),
            )
            &&& p.message is Access && !moved && stranger ==> r == Some(
                "source "@ + net::ip_text(sender) + " not in stanza allowlist"@,
            )
            &&& p.message is Access && !moved && !stranger && misnamed ==> r == Some(
                "username "@ + text::debug_quoted(p.username) + " not allowed by stanza"@,
            )
        }),
{
}

/// A port that is not open, where nothing else speaks against the request and the ports asked
/// for before it are open, is the one that the refusal names.
pub proof fn law_refusal_names_the_port(
    stanza: AccessStanza,
    p: SpaPayloadView,
    sender: IpAddr,
    unsupported: Seq<char>,
    i: int,
)
    requires
        p.message is Access,
        !(stanza.require_source_match && p.message->Access_source_ip != sender),
        exists|k: int|
            0 <= k < stanza.source@.len() && shared::source_matches(
                #[trigger] stanza.source@[k],
                sender,
            ),
        stanza.require_username is Some ==> stanza.require_username->0@ == p.username,
        0 <= i < p.message->Access_ports.len(),
        !stanza.open_ports.0@.contains(p.message->Access_ports[i]),
        forall|k: int|
            0 <= k < i ==> stanza.open_ports.0@.contains(#[trigger] p.message->Access_ports[k]),
    ensures
        policy_error(stanza, p, sender, unsupported) == Some(
            "requested port "@ + types::port_text(p.message->Access_ports[i])
                + " not in stanza open_ports"@,
        ),
{
    lemma_first_refused(p.message->Access_ports, stanza.open_ports.0@, 0, i);
}

proof fn lemma_first_refused(ports: Seq<PortProto>, open_ports: Seq<PortProto>, from: int, i: int)
    requires
        0 <= from <= i < ports.len(),
        !open_ports.contains(ports[i]),
        forall|k: int| from <= k < i ==> open_ports.contains(#[trigger] ports[k]),
    ensures
        refused_port(ports, open_ports, from) == Some(ports[i]),
    decreases i - from,
{
    if from < i {
        lemma_first_refused(ports, open_ports, from + 1, i);
    }
}

/// A timeout that is clamped is no longer than the largest one, and is kept where it is no longer.
pub proof fn law_clamped_timeout(requested: Duration, max: Duration, r: Duration)
    requires
        call_ensures(clamp_timeout, (requested, max), r),
        requested.nanos < 1_000_000_000,
        max.nanos < 1_000_000_000,
    ensures
        r.secs < max.secs || (r.secs == max.secs && r.nanos <= max.nanos),
        r == requested || r == max,
        requested.secs < max.secs || (requested.secs == max.secs && requested.nanos <= max.nanos)
            ==> r == requested,
{
    time::law_shorter_is_the_shorter(requested, max);
}

/// What [`check_policy`] answers: nothing exactly where the request, the sender and the stanza fit
/// together in all parts.
pub proof fn law_checked_policy(
    stanza: AccessStanza,
    payload: SpaPayload,
    sender: IpAddr,
    unsupported: &str,
    r: Option<String>,
)
    requires
        call_ensures(check_policy, (&stanza, &payload, sender, unsupported), r),
    ensures
        r is None <==> match payload.message {
            SpaMessage::Access { source_ip, ports } => {
                &&& stanza.require_source_match ==> source_ip == sender
                &&& exists|i: int|
                    0 <= i < stanza.source@.len() && match #[trigger] stanza.source@[i] {
                        SourceSpec::Any => true,
                        SourceSpec::Cidr(range) => net::net_contains(range, sender),
                        SourceSpec::Single(ip) => ip == sender,
                    }
                &&& stanza.require_username is Some ==> stanza.require_username->0@
                    == payload.username@
                &&& forall|k: int|
                    0 <= k < ports@.len() ==> stanza.open_ports.0@.contains(#[trigger] ports@[k])
            },
            _ => false,
        },
{
    law_policy_decides_by_all_its_parts(stanza, payload@, sender, unsupported@);
    assert(payload@.message == payload.message@);
}

} // verus!
