//! The configuration of the daemon: its settings and the access stanzas.

use crate::config::error::{ConfigError, ConfigErrorView};
use crate::config::shared;
use crate::config::shared::{Base64Key, PortProtoList, SourceSpec};
use crate::net::IpAddr;
use crate::text;
use crate::time::Duration;
use vstd::prelude::*;

verus! {

/// The whole configuration of the daemon.
#[derive(Clone)]
pub struct DaemonConfig {
    /// The settings of the daemon.
    pub daemon: DaemonSection,
    /// The settings of the replay cache.
    pub replay: ReplaySection,
    /// The settings of the rate limiter.
    pub rate_limit: RateLimitSection,
    /// The access stanzas.
    pub access: Vec<AccessStanza>,
}

/// The settings of the daemon.
#[derive(Clone, Debug)]
pub struct DaemonSection {
    /// The address that the daemon binds to.
    pub listen_addr: IpAddr,
    /// The port that the daemon listens on.
    pub listen_port: u16,
    /// The firewall backend.
    pub firewall_backend: FirewallBackend,
    /// The user that the daemon runs as.
    pub run_user: String,
    /// The group that the daemon runs as.
    pub run_group: String,
    /// The largest age of a packet.
    pub max_spa_packet_age: Duration,
    /// Whether rules are flushed when the daemon starts.
    pub flush_rules_at_init: bool,
    /// Whether rules are flushed when the daemon is asked to stop.
    pub flush_rules_at_exit: bool,
    /// How long a rule stays where the packet does not say.
    pub default_fw_timeout: Duration,
    /// The longest time that a rule may stay.
    pub max_fw_timeout: Duration,
    /// Whether the service manager is told that the daemon is ready and alive.
    pub enable_systemd: bool,
    /// Whether privileges are dropped.
    pub enable_sandbox: bool,
    /// Whether the daemon runs as three processes.
    pub enable_privsep: bool,
    /// Whether the filesystem is restricted.
    pub landlock_enabled: bool,
}

/// The settings of the replay cache.
#[derive(Clone, Debug)]
pub struct ReplaySection {
    /// The file that keeps the cache.
    pub cache_path: String,
    /// The age at which an entry is pruned.
    pub max_age: Duration,
    /// The largest number of entries in memory.
    pub max_entries: usize,
}

/// The settings of the rate limiter.
#[derive(Clone, Copy, Debug, PartialEq, Eq, Structural)]
pub struct RateLimitSection {
    /// Whether there is a limit at all.
    pub enabled: bool,
    /// Tokens that a tracked source gains in a second.
    pub per_source_rate_per_sec: u64,
    /// Tokens that a tracked source holds at most.
    pub per_source_burst: u64,
    /// The largest number of tracked sources.
    pub tracked_sources_capacity: usize,
    /// Tokens that all other sources together gain in a second.
    pub global_rate_per_sec: u64,
    /// Tokens that all other sources together hold at most.
    pub global_burst: u64,
    /// After how many admitted packets a source is tracked.
    pub promotion_threshold: u32,
    /// The number of leading bits by which IPv6 sources are told apart.
    pub ipv6_prefix_len: u8,
}

/// An access stanza: a key and what it authorizes.
#[derive(Clone)]
pub struct AccessStanza {
    /// The name, which no other stanza has.
    pub name: String,
    /// The sources that are admitted.
    pub source: Vec<SourceSpec>,
    /// The ports that may be asked for.
    pub open_ports: PortProtoList,
    /// The master key.
    pub master_key_base64: Base64Key,
    /// How long a rule stays where the packet does not say, for this stanza.
    pub fw_timeout: Option<Duration>,
    /// The longest time that a rule may stay, for this stanza.
    pub max_fw_timeout: Option<Duration>,
    /// Whether the source in the payload must be the sender of the packet.
    pub require_source_match: bool,
    /// The username that the payload must hold.
    pub require_username: Option<String>,
    /// Whether forwarding is allowed.
    pub enable_nat: bool,
    /// The destination of forwarded ports.
    pub nat_destination: Option<String>,
    /// Whether commands are allowed.
    pub enable_cmd_exec: bool,
    /// The user that runs commands.
    pub cmd_exec_user: Option<String>,
    /// The day after which the stanza is void.
    pub expiration_date: Option<String>,
}

/// The firewall that the daemon drives.
#[derive(Clone, Copy, Debug, PartialEq, Eq, Structural)]
pub enum FirewallBackend {
    /// nftables.
    Nftables,
    /// iptables.
    Iptables,
}

impl Default for DaemonSection {
    fn default() -> (r: DaemonSection)
        ensures
            r.listen_addr == IpAddr::V4(0),
            r.listen_port == 62201,
            r.firewall_backend == FirewallBackend::Nftables,
            r.run_user@ == "fwknox"@,
            r.run_group@ == "fwknox"@,
            r.max_spa_packet_age == (Duration { secs: 120, nanos: 0 }),
            r.flush_rules_at_init,
            r.flush_rules_at_exit,
            r.default_fw_timeout == (Duration { secs: 30, nanos: 0 }),
            r.max_fw_timeout == (Duration { secs: 300, nanos: 0 }),
            r.enable_systemd,
            r.enable_sandbox,
            r.enable_privsep,
            !r.landlock_enabled,
    {
        DaemonSection {
            listen_addr: IpAddr::V4(0),
            listen_port: 62201,
            firewall_backend: FirewallBackend::Nftables,
            run_user: "fwknox".to_owned(),
            run_group: "fwknox".to_owned(),
            max_spa_packet_age: Duration::from_secs(120),
            flush_rules_at_init: true,
            flush_rules_at_exit: true,
            default_fw_timeout: Duration::from_secs(30),
            max_fw_timeout: Duration::from_secs(300),
            enable_systemd: true,
            enable_sandbox: true,
            enable_privsep: true,
            landlock_enabled: false,
        }
    }
}

impl Default for ReplaySection {
    fn default() -> (r: ReplaySection)
        ensures
            r.cache_path@ == "/var/lib/fwknox/replay.cache"@,
            r.max_age == (Duration { secs: 86_400, nanos: 0 }),
            r.max_entries == 10_000,
    {
        ReplaySection {
            cache_path: "/var/lib/fwknox/replay.cache".to_owned(),
            max_age: Duration::from_secs(86_400),
            max_entries: 10_000,
        }
    }
}

/// The settings of the rate limiter where none are configured.
pub open spec fn default_rate_limit() -> RateLimitSection {
    RateLimitSection {
        enabled: true,
        per_source_rate_per_sec: 10,
        per_source_burst: 20,
        tracked_sources_capacity: 1024,
        global_rate_per_sec: 500,
        global_burst: 1000,
        promotion_threshold: 5,
        ipv6_prefix_len: 64,
    }
}

impl Default for RateLimitSection {
    fn default() -> (r: RateLimitSection)
        ensures
            r == default_rate_limit(),
    {
        RateLimitSection {
            enabled: true,
            per_source_rate_per_sec: 10,
            per_source_burst: 20,
            tracked_sources_capacity: 1024,
            global_rate_per_sec: 500,
            global_burst: 1000,
            promotion_threshold: 5,
            ipv6_prefix_len: 64,
        }
    }
}

impl AccessStanza {
    /// A stanza with the fields that every stanza has, and the defaults for the rest:
    /// the source in the payload must match, and nothing else is required or enabled.
    pub fn new(
        name: String,
        source: Vec<SourceSpec>,
        open_ports: PortProtoList,
        master_key_base64: Base64Key,
    ) -> (r: AccessStanza)
        ensures
            r == (AccessStanza {
                name,
                source,
                open_ports,
                master_key_base64,
                fw_timeout: None,
                max_fw_timeout: None,
                require_source_match: true,
                require_username: None,
                enable_nat: false,
                nat_destination: None,
                enable_cmd_exec: false,
                cmd_exec_user: None,
                expiration_date: None,
            }),
    {
        AccessStanza {
            name,
            source,
            open_ports,
            master_key_base64,
            fw_timeout: None,
            max_fw_timeout: None,
            require_source_match: true,
            require_username: None,
            enable_nat: false,
            nat_destination: None,
            enable_cmd_exec: false,
            cmd_exec_user: None,
            expiration_date: None,
        }
    }
}

/// Whether a stanza before `i` has the name of stanza `i`.
pub open spec fn name_taken(access: Seq<AccessStanza>, i: int) -> bool {
    exists|j: int| 0 <= j < i && (#[trigger] access[j]).name@ == access[i].name@
}

/// The text of the error for a setting that is not implemented.
pub open spec fn not_implemented_text(name: Seq<char>, field: Seq<char>) -> Seq<char> {
    "access stanza "@ + text::debug_quoted(name) + " sets "@ + field
        + ", which is not yet implemented — remove the field or wait for a future release"@
}

/// What is wrong with stanza `i`, if anything.
pub open spec fn stanza_problem(access: Seq<AccessStanza>, i: int) -> Option<Seq<char>> {
    let stanza = access[i];
    let name = stanza.name@;
    if name_taken(access, i) {
        Some("duplicate access stanza name: "@ + name)
    } else if stanza.open_ports.0@.len() == 0 {
        Some("access stanza "@ + name + " has empty open_ports"@)
    } else if stanza.enable_nat && stanza.nat_destination is None {
        Some("access stanza "@ + name + " has enable_nat=true but no nat_destination"@)
    } else if shared::all_zero(stanza.master_key_base64.0@) {
        Some(
            "access stanza "@ + text::debug_quoted(name)
                + " uses the all-zero example placeholder key; generate a real one with `head -c 32 /dev/urandom | base64`"@,
        )
    } else if stanza.expiration_date is Some {
        Some(not_implemented_text(name, "expiration_date"@))
    } else if stanza.enable_nat {
        Some(not_implemented_text(name, "enable_nat"@))
    } else if stanza.enable_cmd_exec {
        Some(not_implemented_text(name, "enable_cmd_exec"@))
    } else {
        None
    }
}

/// What is wrong with the first stanza from `i` on with which anything is wrong.
pub open spec fn access_problem(access: Seq<AccessStanza>, i: int) -> Option<Seq<char>>
    decreases access.len() - i,
{
    if i < 0 || i >= access.len() {
        None
    } else {
        match stanza_problem(access, i) {
            Some(msg) => Some(msg),
            None => access_problem(access, i + 1),
        }
    }
}

/// What is wrong with the settings of the rate limiter, if anything. Where it is
/// switched off its numbers do not matter.
pub open spec fn rate_limit_problem(r: RateLimitSection) -> Option<Seq<char>> {
    if !r.enabled {
        None
    } else if r.per_source_rate_per_sec < 1 {
        Some("per_source_rate_per_sec must be >= 1 when rate limiting is enabled"@)
    } else if r.global_rate_per_sec < 1 {
        Some("global_rate_per_sec must be >= 1 when rate limiting is enabled"@)
    } else if r.per_source_burst < r.per_source_rate_per_sec {
        Some("per_source_burst must be >= per_source_rate_per_sec"@)
    } else if r.global_burst < r.global_rate_per_sec {
        Some("global_burst must be >= global_rate_per_sec"@)
    } else if r.tracked_sources_capacity == 0 {
        Some("tracked_sources_capacity must be >= 1"@)
    } else if r.promotion_threshold == 0 {
        Some("promotion_threshold must be >= 1"@)
    } else if !(1 <= r.ipv6_prefix_len <= 128) {
        Some("ipv6_prefix_len must be in 1..=128"@)
    } else {
        None
    }
}

/// What is wrong with a configuration, if anything: the first of the stanzas, the
/// timeouts and the rate limiter with which anything is wrong.
pub open spec fn config_problem(c: DaemonConfig) -> Option<Seq<char>> {
    if c.access@.len() == 0 {
        Some("at least one [[access]] stanza is required"@)
    } else if let Some(msg) = access_problem(c.access@, 0) {
        Some(msg)
    } else if c.daemon.default_fw_timeout.total_nanos() > c.daemon.max_fw_timeout.total_nanos() {
        Some("default_fw_timeout must be <= max_fw_timeout"@)
    } else {
        rate_limit_problem(c.rate_limit)
    }
}

/// Whether a stanza before `i` has the name of stanza `i`.
fn is_name_taken(access: &Vec<AccessStanza>, i: usize) -> (r: bool)
    requires
        i < access@.len(),
    ensures
        r == name_taken(access@, i as int),
{
    for j in 0..i
        invariant
            i < access@.len(),
            forall|k: int| 0 <= k < j ==> (#[trigger] access@[k]).name@ != access@[i as int].name@,
    {
        if text::same_text(access[j].name.as_str(), access[i].name.as_str()) {
            assert(access@[j as int].name@ == access@[i as int].name@);
            return true;
        }
    }
    false
}

/// A text about a stanza: words, its name, and words.
fn about(before: &str, name: &str, after: &str) -> (r: String)
    ensures
        r@ == before@ + name@ + after@,
{
    let mut s = before.to_owned();
    s.append(name);
    s.append(after);
    s
}

/// The text of the error for a setting that is not implemented.
fn not_implemented(name: &str, field: &str) -> (r: String)
    ensures
        r@ == not_implemented_text(name@, field@),
{
    let mut s = about("access stanza ", text::quoted(name).as_str(), " sets ");
    s.append(field);
    s.append(", which is not yet implemented — remove the field or wait for a future release");
    s
}

/// Checks stanza `i`.
fn check_stanza(access: &Vec<AccessStanza>, i: usize) -> (r: Option<String>)
    requires
        i < access@.len(),
    ensures
        match r {
            Some(msg) => stanza_problem(access@, i as int) == Some(msg@),
            None => stanza_problem(access@, i as int) is None,
        },
{
    let stanza = &access[i];
    let name = stanza.name.as_str();
    if is_name_taken(access, i) {
        let mut msg = "duplicate access stanza name: ".to_owned();
        msg.append(name);
        return Some(msg);
    }
    if stanza.open_ports.0.len() == 0 {
        return Some(about("access stanza ", name, " has empty open_ports"));
    }
    if stanza.enable_nat && stanza.nat_destination.is_none() {
        return Some(
            about("access stanza ", name, " has enable_nat=true but no nat_destination"),
        );
    }
    if stanza.master_key_base64.is_all_zero() {
        return Some(
            about(
                "access stanza ",
                text::quoted(name).as_str(),
                " uses the all-zero example placeholder key; generate a real one with `head -c 32 /dev/urandom | base64`",
            ),
        );
    }
    if stanza.expiration_date.is_some() {
        return Some(not_implemented(name, "expiration_date"));
    }
    if stanza.enable_nat {
        return Some(not_implemented(name, "enable_nat"));
    }
    if stanza.enable_cmd_exec {
        return Some(not_implemented(name, "enable_cmd_exec"));
    }
    None
}

/// Checks the settings of the rate limiter.
fn check_rate_limit(s: &RateLimitSection) -> (r: Option<&'static str>)
    ensures
        match r {
            Some(msg) => rate_limit_problem(*s) == Some(msg@),
            None => rate_limit_problem(*s) is None,
        },
{
    if !s.enabled {
        return None;
    }
    if s.per_source_rate_per_sec < 1 {
        return Some("per_source_rate_per_sec must be >= 1 when rate limiting is enabled");
    }
    if s.global_rate_per_sec < 1 {
        return Some("global_rate_per_sec must be >= 1 when rate limiting is enabled");
    }
    if s.per_source_burst < s.per_source_rate_per_sec {
        return Some("per_source_burst must be >= per_source_rate_per_sec");
    }
    if s.global_burst < s.global_rate_per_sec {
        return Some("global_burst must be >= global_rate_per_sec");
    }
    if s.tracked_sources_capacity == 0 {
        return Some("tracked_sources_capacity must be >= 1");
    }
    if s.promotion_threshold == 0 {
        return Some("promotion_threshold must be >= 1");
    }
    if s.ipv6_prefix_len < 1 || s.ipv6_prefix_len > 128 {
        return Some("ipv6_prefix_len must be in 1..=128");
    }
    None
}

impl DaemonConfig {
    /// Checks the rules that the values have to keep. The error is about the first
    /// rule that is broken.
    pub fn validate(&self) -> (r: Result<(), ConfigError>)
        ensures
            match config_problem(*self) {
                None => r is Ok,
                Some(msg) => r is Err && r->Err_0@ == ConfigErrorView::Invalid(msg),
            },
    {
        if self.access.len() == 0 {
            return Err(
                ConfigError::invalid("at least one [[access]] stanza is required".to_owned()),
            );
        }
        for i in 0..self.access.len()
            invariant
                access_problem(self.access@, 0) == access_problem(self.access@, i as int),
                self.access@.len() > 0,
        {
            if let Some(msg) = check_stanza(&self.access, i) {
                return Err(ConfigError::invalid(msg));
            }
        }
        if self.daemon.default_fw_timeout.exceeds(&self.daemon.max_fw_timeout) {
            return Err(
                ConfigError::invalid("default_fw_timeout must be <= max_fw_timeout".to_owned()),
            );
        }
        match check_rate_limit(&self.rate_limit) {
            Some(msg) => Err(ConfigError::invalid(msg.to_owned())),
            None => Ok(()),
        }
    }

    /// The first stanza with the given master key.
    #[must_use]
    pub fn find_by_master_key(&self, key: &[u8; 32]) -> (r: Option<&AccessStanza>)
        ensures
            match r {
                Some(stanza) => exists|i: int|
                    #![trigger self.access@[i]]
                    0 <= i < self.access@.len() && *stanza == self.access@[i]
                        && stanza.master_key_base64.0@ == key@ && forall|j: int|
                        0 <= j < i ==> (#[trigger] self.access@[j]).master_key_base64.0@ != key@,
                None => forall|j: int|
                    0 <= j < self.access@.len() ==> (
                    #[trigger] self.access@[j]).master_key_base64.0@ != key@,
            },
    {
        for i in 0..self.access.len()
            invariant
                forall|j: int|
                    0 <= j < i ==> (#[trigger] self.access@[j]).master_key_base64.0@ != key@,
        {
            if same_key(self.access[i].master_key_base64.as_bytes(), key) {
                let stanza = &self.access[i];
                assert(*stanza == self.access@[i as int]);
                return Some(stanza);
            }
        }
        None
    }
}

/// Whether two keys are the same.
fn same_key(a: &[u8; 32], b: &[u8; 32]) -> (r: bool)
    ensures
        r == (a@ == b@),
{
    for i in 0..32usize
        invariant
            forall|j: int| 0 <= j < i ==> a@[j] == b@[j],
    {
        if a[i] != b[i] {
            return false;
        }
    }
    assert(a@ =~= b@);
    true
}

/// In a valid configuration there are stanzas, and each passes all checks.
proof fn lemma_every_stanza_passes(access: Seq<AccessStanza>, from: int, i: int)
    requires
        0 <= from <= i < access.len(),
        access_problem(access, from) is None,
    ensures
        stanza_problem(access, i) is None,
    decreases i - from,
{
    if from < i {
        lemma_every_stanza_passes(access, from + 1, i);
    }
}

/// In a valid configuration no two stanzas have the same name.
pub proof fn law_valid_names_differ(c: DaemonConfig, i: int, j: int)
    requires
        config_problem(c) is None,
        0 <= i < j < c.access@.len(),
    ensures
        c.access@[i].name@ != c.access@[j].name@,
{
    lemma_every_stanza_passes(c.access@, 0, j);
    assert(!name_taken(c.access@, j));
}

/// In a valid configuration there is a stanza, and every stanza opens a port, has a
/// key that is not all zeros, and uses nothing that is not implemented.
pub proof fn law_valid_stanzas(c: DaemonConfig, i: int)
    requires
        config_problem(c) is None,
        0 <= i < c.access@.len(),
    ensures
        c.access@.len() > 0,
        c.access@[i].open_ports.0@.len() > 0,
        !shared::all_zero(c.access@[i].master_key_base64.0@),
        !c.access@[i].enable_nat,
        !c.access@[i].enable_cmd_exec,
        c.access@[i].expiration_date is None,
{
    lemma_every_stanza_passes(c.access@, 0, i);
}

/// A valid configuration keeps the default timeout within the largest, and a rate
/// limiter that is switched on admits something.
pub proof fn law_valid_limits(c: DaemonConfig)
    requires
        config_problem(c) is None,
    ensures
        c.daemon.default_fw_timeout.total_nanos() <= c.daemon.max_fw_timeout.total_nanos(),
        c.rate_limit.enabled ==> 1 <= c.rate_limit.per_source_rate_per_sec
            <= c.rate_limit.per_source_burst,
        c.rate_limit.enabled ==> 1 <= c.rate_limit.global_rate_per_sec <= c.rate_limit.global_burst,
        c.rate_limit.enabled ==> c.rate_limit.tracked_sources_capacity >= 1
            && c.rate_limit.promotion_threshold >= 1 && 1 <= c.rate_limit.ipv6_prefix_len <= 128,
{
}

/// The default settings break no rule: a configuration with the default timeouts
/// and the default rate limiter is valid where its stanzas are.
pub proof fn law_defaults_are_valid(c: DaemonConfig)
    requires
        c.access@.len() > 0,
        access_problem(c.access@, 0) is None,
        c.daemon.default_fw_timeout == (Duration { secs: 30, nanos: 0 }),
        c.daemon.max_fw_timeout == (Duration { secs: 300, nanos: 0 }),
        c.rate_limit == default_rate_limit(),
    ensures
        config_problem(c) is None,
{
}

/// A configuration is valid exactly where it has stanzas with names that differ, each with a
/// port and a key that is not all zeros, none with a setting that is not implemented, where
/// its default timeout is no longer than its largest one, and where its rate limiter, if
/// it is switched on, lets something through.
pub proof fn law_valid_exactly_by_the_rules(c: DaemonConfig)
    requires
        c.daemon.default_fw_timeout.nanos < 1_000_000_000,
        c.daemon.max_fw_timeout.nanos < 1_000_000_000,
    ensures
        config_problem(c) is None <==> {
            &&& c.access@.len() >= 1
            &&& forall|i: int, j: int|
                0 <= i < j < c.access@.len() ==> (#[trigger] c.access@[i]).name@ != (
                #[trigger] c.access@[j]).name@
            &&& forall|i: int|
                0 <= i < c.access@.len() ==> (#[trigger] c.access@[i]).open_ports.0@.len() >= 1
                    && !c.access@[i].enable_nat && !c.access@[i].enable_cmd_exec
                    && c.access@[i].expiration_date is None && exists|k: int|
                    0 <= k < c.access@[i].master_key_base64.0@.len()
                        && #[trigger] c.access@[i].master_key_base64.0@[k] as int != 0
            &&& c.daemon.default_fw_timeout.secs < c.daemon.max_fw_timeout.secs || (
            c.daemon.default_fw_timeout.secs == c.daemon.max_fw_timeout.secs
                && c.daemon.default_fw_timeout.nanos <= c.daemon.max_fw_timeout.nanos)
            &&& c.rate_limit.enabled ==> {
                &&& 1 <= c.rate_limit.per_source_rate_per_sec <= c.rate_limit.per_source_burst
                &&& 1 <= c.rate_limit.global_rate_per_sec <= c.rate_limit.global_burst
                &&& c.rate_limit.tracked_sources_capacity >= 1
                &&& c.rate_limit.promotion_threshold >= 1
                &&& 1 <= c.rate_limit.ipv6_prefix_len <= 128
            }
        },
{
    let access = c.access@;
    if config_problem(c) is None {
        assert forall|i: int, j: int| 0 <= i < j < access.len() implies (#[trigger] access[i]).name@
            != (#[trigger] access[j]).name@ by {
            law_valid_names_differ(c, i, j);
        }
        assert forall|i: int| 0 <= i < access.len() implies (
        #[trigger] access[i]).open_ports.0@.len() >= 1 && !access[i].enable_nat
            && !access[i].enable_cmd_exec && access[i].expiration_date is None && exists|k: int|
            0 <= k < access[i].master_key_base64.0@.len()
                && #[trigger] access[i].master_key_base64.0@[k] as int != 0 by {
            law_valid_stanzas(c, i);
        }
    }
    if (forall|i: int, j: int|
        0 <= i < j < access.len() ==> (#[trigger] access[i]).name@ != (
        #[trigger] access[j]).name@) && (forall|i: int|
        0 <= i < access.len() ==> (#[trigger] access[i]).open_ports.0@.len() >= 1
            && !access[i].enable_nat && !access[i].enable_cmd_exec
            && access[i].expiration_date is None && exists|k: int|
            0 <= k < access[i].master_key_base64.0@.len()
                && #[trigger] access[i].master_key_base64.0@[k] as int != 0) {
        assert forall|i: int| 0 <= i < access.len() implies (#[trigger] stanza_problem(
            access,
            i,
        )) is None by {
            assert(access[i].open_ports.0@.len() >= 1);
            assert(!name_taken(access, i));
        }
        lemma_no_stanza_has_a_problem(access, 0);
    }
}

proof fn lemma_no_stanza_has_a_problem(access: Seq<AccessStanza>, from: int)
    requires
        0 <= from,
        forall|i: int| 0 <= i < access.len() ==> (#[trigger] stanza_problem(access, i)) is None,
    ensures
        access_problem(access, from) is None,
    decreases access.len() - from,
{
    if from < access.len() {
        lemma_no_stanza_has_a_problem(access, from + 1);
    }
}

/// The first stanza that breaks a rule decides: where the stanzas before it keep the rules,
/// what is wrong with the configuration is what is wrong with it, whatever follows.
pub proof fn law_first_bad_stanza_decides(c: DaemonConfig, i: int)
    requires
        0 <= i < c.access@.len(),
        stanza_problem(c.access@, i) is Some,
        forall|j: int| 0 <= j < i ==> (#[trigger] stanza_problem(c.access@, j)) is None,
    ensures
        config_problem(c) == stanza_problem(c.access@, i),
{
    lemma_first_problem(c.access@, 0, i);
}

proof fn lemma_first_problem(access: Seq<AccessStanza>, from: int, i: int)
    requires
        0 <= from <= i < access.len(),
        stanza_problem(access, i) is Some,
        forall|j: int| from <= j < i ==> (#[trigger] stanza_problem(access, j)) is None,
    ensures
        access_problem(access, from) == stanza_problem(access, i),
    decreases i - from,
{
    if from < i {
        assert(stanza_problem(access, from) is None);
        lemma_first_problem(access, from + 1, i);
    }
}

/// What a stanza is told about: the message names the stanza, and the first rule that it
/// breaks, in this order: its name, its ports, the destination of its forwarding, its key,
/// its expiration, forwarding and commands.
pub proof fn law_stanza_messages(access: Seq<AccessStanza>, i: int)
    requires
        0 <= i < access.len(),
        forall|j: int| 0 <= j < i ==> (#[trigger] access[j]).name@ != access[i].name@,
    ensures
        access[i].open_ports.0@.len() == 0 ==> stanza_problem(access, i) == Some(
            "access stanza "@ + access[i].name@ + " has empty open_ports"@,
        ),
        access[i].open_ports.0@.len() > 0 && access[i].enable_nat
            && access[i].nat_destination is None ==> stanza_problem(access, i) == Some(
            "access stanza "@ + access[i].name@
                + " has enable_nat=true but no nat_destination"@,
        ),
        access[i].open_ports.0@.len() > 0 && (access[i].enable_nat
            ==> access[i].nat_destination is Some) ==> {
            let zeros = forall|k: int|
                0 <= k < access[i].master_key_base64.0@.len() ==> (
                #[trigger] access[i].master_key_base64.0@[k]) as int == 0;
            let quoted = text::debug_quoted(access[i].name@);
            let waits =
                ", which is not yet implemented — remove the field or wait for a future release"@;
            if zeros {
                stanza_problem(access, i) == Some(
                    "access stanza "@ + quoted
                        + " uses the all-zero example placeholder key; generate a real one with `head -c 32 /dev/urandom | base64`"@,
                )
            } else if access[i].expiration_date is Some {
                stanza_problem(access, i) == Some(
                    "access stanza "@ + quoted + " sets "@ + "expiration_date"@ + waits,
                )
            } else if access[i].enable_nat {
                stanza_problem(access, i) == Some(
                    "access stanza "@ + quoted + " sets "@ + "enable_nat"@ + waits,
                )
            } else if access[i].enable_cmd_exec {
                stanza_problem(access, i) == Some(
                    "access stanza "@ + quoted + " sets "@ + "enable_cmd_exec"@ + waits,
                )
            } else {
                stanza_problem(access, i) is None
            }
        },
{
    assert(!name_taken(access, i));
}

/// A name that an earlier stanza has is the first thing that is wrong with a stanza.
pub proof fn law_repeated_name_is_told(access: Seq<AccessStanza>, j: int, i: int)
    requires
        0 <= j < i < access.len(),
        access[j].name@ == access[i].name@,
    ensures
        stanza_problem(access, i) == Some("duplicate access stanza name: "@ + access[i].name@),
{
    assert(name_taken(access, i));
}

/// What is told of settings that break a rule, where the stanzas keep theirs: first of the
/// timeouts, then of the rates, the bursts, the capacity, the threshold and the prefix.
pub proof fn law_settings_messages(c: DaemonConfig)
    requires
        c.access@.len() > 0,
        forall|i: int| 0 <= i < c.access@.len() ==> (#[trigger] stanza_problem(c.access@, i)) is None,
        c.daemon.default_fw_timeout.nanos < 1_000_000_000,
        c.daemon.max_fw_timeout.nanos < 1_000_000_000,
    ensures
        ({
            let d = c.daemon.default_fw_timeout;
            let m = c.daemon.max_fw_timeout;
            let l = c.rate_limit;
            let told = config_problem(c);
            if d.secs > m.secs || (d.secs == m.secs && d.nanos > m.nanos) {
                told == Some("default_fw_timeout must be <= max_fw_timeout"@)
            } else if !l.enabled {
                told is None
            } else if l.per_source_rate_per_sec == 0 {
                told == Some("per_source_rate_per_sec must be >= 1 when rate limiting is enabled"@)
            } else if l.global_rate_per_sec == 0 {
                told == Some("global_rate_per_sec must be >= 1 when rate limiting is enabled"@)
            } else if l.per_source_rate_per_sec > l.per_source_burst {
                told == Some("per_source_burst must be >= per_source_rate_per_sec"@)
            } else if l.global_rate_per_sec > l.global_burst {
                told == Some("global_burst must be >= global_rate_per_sec"@)
            } else if l.tracked_sources_capacity == 0 {
                told == Some("tracked_sources_capacity must be >= 1"@)
            } else if l.promotion_threshold == 0 {
                told == Some("promotion_threshold must be >= 1"@)
            } else if l.ipv6_prefix_len == 0 || l.ipv6_prefix_len > 128 {
                told == Some("ipv6_prefix_len must be in 1..=128"@)
            } else {
                told is None
            }
        }),
{
    lemma_no_stanza_has_a_problem(c.access@, 0);
}

/// A configuration without stanzas is told that it needs one.
pub proof fn law_no_stanzas_message(c: DaemonConfig)
    requires
        c.access@.len() == 0,
    ensures
        config_problem(c) == Some("at least one [[access]] stanza is required"@),
{
}

/// What [`DaemonConfig::validate`] answers for a configuration that keeps the rules, and for one
/// that does not.
pub proof fn law_validate_accepts_the_valid(c: DaemonConfig, r: Result<(), ConfigError>, i: int)
    requires
        call_ensures(DaemonConfig::validate, (&c,), r),
        0 <= i < c.access@.len(),
        c.daemon.default_fw_timeout.nanos < 1_000_000_000,
        c.daemon.max_fw_timeout.nanos < 1_000_000_000,
    ensures
        r is Ok ==> c.access@[i].open_ports.0@.len() > 0 && !c.access@[i].enable_nat
            && !c.access@[i].enable_cmd_exec && c.access@[i].expiration_date is None,
        r is Ok ==> c.daemon.default_fw_timeout.secs <= c.daemon.max_fw_timeout.secs,
        r is Ok <==> config_problem(c) is None,
        r is Err ==> (r->Err_0 matches ConfigError::Invalid(msg) && config_problem(c) == Some(msg@)),
{
    if r is Ok {
        law_valid_stanzas(c, i);
        law_valid_limits(c);
    }
}

} // verus!
