//! The configuration, on concrete values.

use fwknox::config::client::{ClientConfig, ClientTransport, DefaultsSection, ServerEntry};
use fwknox::config::daemon::{
    AccessStanza, DaemonConfig, DaemonSection, FirewallBackend, RateLimitSection, ReplaySection,
};
use fwknox::config::error::ConfigError;
use fwknox::config::shared::{parse_port_proto, Base64Key, PortProtoList, SourceSpec};
use fwknox::net::IpAddr;
use fwknox::proto::types::{PortProto, Protocol};
use fwknox::time::Duration;

fn ports(texts: &[&str]) -> PortProtoList {
    let strings: Vec<String> = texts.iter().map(|s| s.to_string()).collect();
    PortProtoList::from_strings(&strings).unwrap()
}

fn stanza(name: &str, open_ports: &[&str], key: [u8; 32]) -> AccessStanza {
    AccessStanza::new(
        name.to_string(),
        vec!["any".parse().unwrap()],
        ports(open_ports),
        Base64Key(key),
    )
}

fn config_with(access: Vec<AccessStanza>) -> DaemonConfig {
    DaemonConfig {
        daemon: DaemonSection::default(),
        replay: ReplaySection::default(),
        rate_limit: RateLimitSection::default(),
        access,
    }
}

fn minimal_config() -> DaemonConfig {
    config_with(vec![stanza("test", &["tcp/22"], [0x11; 32])])
}

fn config_with_rate_limit(change: fn(&mut RateLimitSection)) -> DaemonConfig {
    let mut cfg = config_with(vec![stanza("t", &["tcp/22"], [0x11; 32])]);
    change(&mut cfg.rate_limit);
    cfg
}

fn server(name: &str, destination: &str, access: &[&str]) -> ServerEntry {
    ServerEntry::new(
        name.to_string(),
        destination.to_string(),
        ports(access),
        Base64Key([0x11; 32]),
    )
}

// Ports.

#[test]
fn parse_tcp_port() {
    let p = parse_port_proto("tcp/22").unwrap();
    assert_eq!(p, PortProto::new(Protocol::Tcp, 22));
}

#[test]
fn parse_udp_port() {
    let p = parse_port_proto("udp/53").unwrap();
    assert_eq!(p, PortProto::new(Protocol::Udp, 53));
}

#[test]
fn rejects_unknown_protocol() {
    assert!(parse_port_proto("sctp/22").is_err());
}

#[test]
fn rejects_zero_port() {
    assert!(parse_port_proto("tcp/0").is_err());
}

#[test]
fn rejects_missing_slash() {
    assert!(parse_port_proto("tcp22").is_err());
}

#[test]
fn ports_are_read_with_space_and_in_any_case() {
    assert_eq!(
        parse_port_proto(" TCP / +022 \u{3000}").unwrap(),
        PortProto::new(Protocol::Tcp, 22)
    );
    assert_eq!(
        parse_port_proto("uDp/65535").unwrap(),
        PortProto::new(Protocol::Udp, 65535)
    );
}

#[test]
fn port_errors_have_their_texts() {
    let texts = [
        ("tcp22", "invalid configuration: expected proto/port, got \"tcp22\""),
        ("SCTP/22", "invalid configuration: unknown protocol: \"sctp\""),
        (
            "tcp/",
            "invalid configuration: invalid port: cannot parse integer from empty string",
        ),
        (
            "tcp/2x",
            "invalid configuration: invalid port: invalid digit found in string",
        ),
        (
            "tcp/22/23",
            "invalid configuration: invalid port: invalid digit found in string",
        ),
        (
            "tcp/-1",
            "invalid configuration: invalid port: invalid digit found in string",
        ),
        (
            "tcp/+",
            "invalid configuration: invalid port: invalid digit found in string",
        ),
        (
            "tcp/65536",
            "invalid configuration: invalid port: number too large to fit in target type",
        ),
        ("tcp/0", "invalid configuration: port must be > 0"),
    ];
    for (port, text) in texts {
        assert_eq!(parse_port_proto(port).unwrap_err().to_string(), text);
    }
}

#[test]
fn port_numbers_are_read_as_the_standard_library_reads_them() {
    for s in ["", "+", "-", "0", "007", "65535", "65536", "99999x", "6553x", "+-1", "1 2"] {
        let expected = s.parse::<u16>();
        let got = parse_port_proto(&format!("tcp/{s}"));
        match expected {
            Ok(0) => assert_eq!(
                got.unwrap_err().to_string(),
                "invalid configuration: port must be > 0"
            ),
            Ok(port) => assert_eq!(got.unwrap(), PortProto::new(Protocol::Tcp, port)),
            Err(e) => assert_eq!(
                got.unwrap_err().to_string(),
                format!("invalid configuration: invalid port: {e}")
            ),
        }
    }
}

#[test]
fn displayed_ports_read_back() {
    for p in [
        PortProto::new(Protocol::Tcp, 1),
        PortProto::new(Protocol::Udp, 53),
        PortProto::new(Protocol::Tcp, 65535),
    ] {
        assert_eq!(parse_port_proto(&p.to_string()).unwrap(), p);
    }
}

#[test]
fn a_list_of_ports_fails_at_its_first_bad_entry() {
    let strings = vec!["tcp/22".to_string(), "x/1".to_string(), "y/2".to_string()];
    let err = PortProtoList::from_strings(&strings).unwrap_err();
    assert_eq!(
        err.to_string(),
        "invalid configuration: unknown protocol: \"x\""
    );
    assert_eq!(
        ports(&["tcp/22", "udp/53"]).0,
        vec![
            PortProto::new(Protocol::Tcp, 22),
            PortProto::new(Protocol::Udp, 53)
        ]
    );
}

// Sources.

#[test]
fn source_spec_any() {
    let s: SourceSpec = "any".parse().unwrap();
    assert!(s.matches("1.2.3.4".parse().unwrap()));
    assert!(s.matches("::1".parse().unwrap()));
}

#[test]
fn source_spec_cidr_v4() {
    let s: SourceSpec = "192.168.1.0/24".parse().unwrap();
    assert!(s.matches("192.168.1.50".parse().unwrap()));
    assert!(!s.matches("192.168.2.50".parse().unwrap()));
}

#[test]
fn source_spec_single() {
    let s: SourceSpec = "10.0.0.1".parse().unwrap();
    assert!(s.matches("10.0.0.1".parse().unwrap()));
    assert!(!s.matches("10.0.0.2".parse().unwrap()));
}

#[test]
fn ranges_match_by_their_leading_bits() {
    let all: SourceSpec = "10.0.0.0/0".parse().unwrap();
    assert!(all.matches("255.255.255.255".parse().unwrap()));
    assert!(all.matches("0.0.0.0".parse().unwrap()));
    assert!(!all.matches("::1".parse().unwrap()));
    let one: SourceSpec = "127.0.0.1/32".parse().unwrap();
    assert!(one.matches("127.0.0.1".parse().unwrap()));
    assert!(!one.matches("127.0.0.2".parse().unwrap()));
    // The address in the range need not be its first.
    let odd: SourceSpec = "10.1.2.3/13".parse().unwrap();
    assert!(odd.matches("10.7.255.255".parse().unwrap()));
    assert!(!odd.matches("10.8.0.0".parse().unwrap()));
    let v6: SourceSpec = "2001:db8::/33".parse().unwrap();
    assert!(v6.matches("2001:db8:7fff::1".parse().unwrap()));
    assert!(!v6.matches("2001:db8:8000::1".parse().unwrap()));
    assert!(!v6.matches("32.1.13.184".parse().unwrap()));
}

#[test]
fn sources_are_written_and_read() {
    for text in ["any", "10.0.0.0/8", "192.168.1.5", "2001:db8::/32", "::1"] {
        let spec: SourceSpec = text.parse().unwrap();
        assert_eq!(spec.to_string(), text);
    }
    assert_eq!("  ANY\n".parse::<SourceSpec>().unwrap(), SourceSpec::Any);
    assert_eq!(
        "10.0.0.0/33".parse::<SourceSpec>().unwrap_err().to_string(),
        "invalid configuration: could not parse source spec: \"10.0.0.0/33\""
    );
}

// Keys.

#[test]
fn base64_key_roundtrip_via_toml() {
    // Encode and decode through a tiny TOML table.
    let key = Base64Key([0xAB; 32]);
    let mut table = toml::Table::new();
    table.insert("k".to_string(), toml::Value::String(key.encode()));
    let s = table.to_string();
    let back: toml::Table = s.parse().unwrap();
    let back = Base64Key::decode(back["k"].as_str().unwrap()).unwrap();
    assert_eq!(back.as_bytes(), key.as_bytes());
}

#[test]
fn base64_key_rejects_wrong_length() {
    let bad = base64::Engine::encode(
        &base64::engine::general_purpose::STANDARD,
        [0u8; 16],
    );
    match Base64Key::decode(&bad) {
        Err(e) => assert_eq!(e, "expected 32-byte key, got 16"),
        Ok(_) => panic!("expected an error"),
    }
}

#[test]
fn base64_key_debug_does_not_leak() {
    let key = Base64Key([0xAB; 32]);
    let s = key.debug_text();
    assert!(!s.contains("ab"));
    assert!(s.contains("redacted"));
}

#[test]
fn base64_key_rejects_what_is_no_base64() {
    let expected = base64::Engine::decode(
        &base64::engine::general_purpose::STANDARD,
        "not base64!",
    )
    .unwrap_err()
    .to_string();
    match Base64Key::decode("not base64!") {
        Err(e) => assert_eq!(e, expected),
        Ok(_) => panic!("expected an error"),
    }
}

#[test]
fn base64_key_is_standard_base64() {
    assert_eq!(
        Base64Key([0; 32]).encode(),
        "AAAAAAAAAAAAAAAAAAAAAAAAAAAAAAAAAAAAAAAAAAA="
    );
    assert!(Base64Key([0; 32]).is_all_zero());
    let mut key = Base64Key([0xff; 32]);
    assert!(!key.is_all_zero());
    assert!(Base64Key::decode(&key.encode()).unwrap() == key);
    key.wipe();
    assert!(key.is_all_zero());
}

// Errors.

#[test]
fn invalid_helper_constructs_variant() {
    let err = ConfigError::invalid("oh no".to_string());
    assert!(matches!(err, ConfigError::Invalid(_)));
    assert!(err.to_string().contains("oh no"));
}

#[test]
fn config_errors_have_their_texts() {
    let err = ConfigError::Io {
        path: "/a".to_string(),
        source: "gone".to_string(),
    };
    assert_eq!(err.to_string(), "failed to read config file /a: gone");
    let err = ConfigError::Toml {
        path: "/a".to_string(),
        source: "bad".to_string(),
    };
    assert_eq!(err.to_string(), "failed to parse TOML in /a: bad");
    let err = ConfigError::Base64 {
        field: "f",
        source: "bad".to_string(),
    };
    assert_eq!(err.to_string(), "invalid base64 in field f: bad");
}

// The client's configuration.

#[test]
fn find_server_by_name() {
    let cfg = ClientConfig {
        defaults: DefaultsSection::default(),
        servers: vec![server("home", "my.server.com", &["tcp/22"])],
    };
    assert!(cfg.find_server("home").is_some());
    assert!(cfg.find_server("nonexistent").is_none());
}

#[test]
fn rejects_duplicate_server_names() {
    let cfg = ClientConfig {
        defaults: DefaultsSection::default(),
        servers: vec![server("dup", "a", &["tcp/22"]), server("dup", "b", &["tcp/22"])],
    };
    let err = cfg.validate().unwrap_err();
    assert!(err.to_string().contains("duplicate"));
    assert_eq!(
        err.to_string(),
        "invalid configuration: duplicate server name: dup"
    );
    assert_eq!(cfg.find_server("dup").unwrap().destination, "a");
}

#[test]
fn servers_have_their_defaults() {
    let cfg = ClientConfig {
        defaults: DefaultsSection::default(),
        servers: vec![server("x", "x", &["tcp/22"])],
    };
    assert_eq!(cfg.defaults.transport, ClientTransport::Udp);
    assert_eq!(ClientTransport::default(), ClientTransport::Udp);
    assert!(!cfg.defaults.resolve_ip);
    assert!(!cfg.defaults.verbose);
    assert_eq!(cfg.servers[0].port, 62201);
    assert_eq!(cfg.servers[0].source_ip, "auto");
    assert_eq!(cfg.servers[0].fw_timeout, None);
    cfg.validate().unwrap();
}

#[test]
fn rejects_a_server_without_ports() {
    let cfg = ClientConfig {
        defaults: DefaultsSection::default(),
        servers: vec![server("x", "x", &[])],
    };
    assert_eq!(
        cfg.validate().unwrap_err().to_string(),
        "invalid configuration: server x has empty access list"
    );
}

// The daemon's configuration.

#[test]
fn minimal_config_has_its_defaults() {
    let cfg = minimal_config();
    assert_eq!(cfg.daemon.listen_port, 62201);
    assert_eq!(cfg.daemon.listen_addr.to_string(), "0.0.0.0");
    assert_eq!(cfg.daemon.firewall_backend, FirewallBackend::Nftables);
    assert_eq!(cfg.daemon.run_user, "fwknox");
    assert_eq!(cfg.daemon.run_group, "fwknox");
    assert_eq!(cfg.daemon.max_spa_packet_age, Duration::from_secs(120));
    assert_eq!(cfg.daemon.default_fw_timeout, Duration::from_secs(30));
    assert_eq!(cfg.daemon.max_fw_timeout, Duration::from_secs(300));
    assert_eq!(cfg.replay.cache_path, "/var/lib/fwknox/replay.cache");
    assert_eq!(cfg.replay.max_age, Duration::from_secs(86_400));
    assert_eq!(cfg.replay.max_entries, 10_000);
    assert_eq!(cfg.access.len(), 1);
    assert_eq!(cfg.access[0].name, "test");
    cfg.validate().unwrap();
}

#[test]
fn rejects_empty_access_list() {
    let err = config_with(vec![]).validate().unwrap_err();
    assert!(matches!(err, ConfigError::Invalid(_)));
    assert_eq!(
        err.to_string(),
        "invalid configuration: at least one [[access]] stanza is required"
    );
}

#[test]
fn rejects_duplicate_access_names() {
    let cfg = config_with(vec![
        stanza("dup", &["tcp/22"], [0x11; 32]),
        stanza("dup", &["tcp/23"], [0x11; 32]),
    ]);
    let err = cfg.validate().unwrap_err();
    assert!(err.to_string().contains("duplicate"));
}

#[test]
fn rejects_nat_without_destination() {
    let mut cfg = config_with(vec![stanza("n", &["tcp/22"], [0x11; 32])]);
    cfg.access[0].enable_nat = true;
    let err = cfg.validate().unwrap_err();
    assert!(err.to_string().contains("nat_destination"));
}

#[test]
fn find_by_master_key_works() {
    let cfg = minimal_config();
    let key = [0x11u8; 32];
    let stanza = cfg.find_by_master_key(&key).expect("should find stanza");
    assert_eq!(stanza.name, "test");
    let bad = [0x99u8; 32];
    assert!(cfg.find_by_master_key(&bad).is_none());
}

#[test]
fn require_source_match_default_is_true() {
    assert!(minimal_config().access[0].require_source_match);
}

#[test]
fn enable_sandbox_defaults_to_true_landlock_defaults_to_false() {
    let cfg = minimal_config();
    assert!(cfg.daemon.enable_sandbox);
    assert!(!cfg.daemon.landlock_enabled);
}

#[test]
fn enable_privsep_defaults_to_true() {
    assert!(minimal_config().daemon.enable_privsep);
}

#[test]
fn default_config_has_rate_limit_section_with_defaults() {
    let cfg = minimal_config();
    assert!(cfg.rate_limit.enabled);
    assert_eq!(cfg.rate_limit.per_source_rate_per_sec, 10);
    assert_eq!(cfg.rate_limit.per_source_burst, 20);
    assert_eq!(cfg.rate_limit.tracked_sources_capacity, 1024);
    assert_eq!(cfg.rate_limit.global_rate_per_sec, 500);
    assert_eq!(cfg.rate_limit.global_burst, 1000);
    assert_eq!(cfg.rate_limit.promotion_threshold, 5);
    assert_eq!(cfg.rate_limit.ipv6_prefix_len, 64);
}

#[test]
fn rate_limit_that_is_switched_off_is_not_checked() {
    let cfg = config_with_rate_limit(|r| {
        r.enabled = false;
        r.per_source_rate_per_sec = 0;
        r.ipv6_prefix_len = 0;
    });
    assert!(!cfg.rate_limit.enabled);
    cfg.validate().unwrap();
}

#[test]
fn rate_limit_rejects_burst_less_than_rate() {
    let cfg = config_with_rate_limit(|r| {
        r.per_source_rate_per_sec = 10;
        r.per_source_burst = 5;
    });
    let err = cfg.validate().unwrap_err();
    assert!(err.to_string().contains("per_source_burst"));
}

#[test]
fn rate_limit_rejects_global_burst_less_than_global_rate() {
    let cfg = config_with_rate_limit(|r| {
        r.global_rate_per_sec = 500;
        r.global_burst = 100;
    });
    let err = cfg.validate().unwrap_err();
    assert!(err.to_string().contains("global_burst"));
}

#[test]
fn rate_limit_rejects_zero_tracked_capacity() {
    let cfg = config_with_rate_limit(|r| r.tracked_sources_capacity = 0);
    let err = cfg.validate().unwrap_err();
    assert!(err.to_string().contains("tracked_sources_capacity"));
}

#[test]
fn rate_limit_rejects_ipv6_prefix_zero() {
    let cfg = config_with_rate_limit(|r| r.ipv6_prefix_len = 0);
    let err = cfg.validate().unwrap_err();
    assert!(err.to_string().contains("ipv6_prefix_len"));
}

#[test]
fn rate_limit_rejects_ipv6_prefix_over_128() {
    let cfg = config_with_rate_limit(|r| r.ipv6_prefix_len = 129);
    let err = cfg.validate().unwrap_err();
    assert!(err.to_string().contains("ipv6_prefix_len"));
}

#[test]
fn rate_limit_rejects_promotion_threshold_zero() {
    let cfg = config_with_rate_limit(|r| r.promotion_threshold = 0);
    let err = cfg.validate().unwrap_err();
    assert!(err.to_string().contains("promotion_threshold"));
}

#[test]
fn rate_limit_rejects_zero_rates_while_enabled() {
    let cfg = config_with_rate_limit(|r| r.per_source_rate_per_sec = 0);
    let err = cfg.validate().unwrap_err();
    assert!(err.to_string().contains("per_source_rate_per_sec"));
    let cfg = config_with_rate_limit(|r| r.global_rate_per_sec = 0);
    let err = cfg.validate().unwrap_err();
    assert!(err.to_string().contains("global_rate_per_sec"));
}

#[test]
fn rate_limit_accepts_ipv6_prefix_at_boundary() {
    config_with_rate_limit(|r| r.ipv6_prefix_len = 1)
        .validate()
        .expect("boundary value should be accepted");
    config_with_rate_limit(|r| r.ipv6_prefix_len = 128)
        .validate()
        .expect("boundary value should be accepted");
}

#[test]
fn all_zero_master_key_is_rejected() {
    let cfg = config_with(vec![stanza("t", &["tcp/22"], [0u8; 32])]);
    let msg = cfg
        .validate()
        .expect_err("all-zero key must be rejected")
        .to_string();
    assert!(
        msg.contains("all-zero") || msg.contains("example placeholder"),
        "unexpected error for zero key: {msg}"
    );
    assert_eq!(
        msg,
        "invalid configuration: access stanza \"t\" uses the all-zero example placeholder key; \
         generate a real one with `head -c 32 /dev/urandom | base64`"
    );
}

#[test]
fn expiration_date_is_rejected() {
    let mut cfg = config_with(vec![stanza("t", &["tcp/22"], [0x11; 32])]);
    cfg.access[0].expiration_date = Some("01/01/2024".to_string());
    let err = cfg
        .validate()
        .expect_err("expiration_date must be rejected as unimplemented");
    assert!(err.to_string().contains("expiration_date"));
    assert_eq!(
        err.to_string(),
        "invalid configuration: access stanza \"t\" sets expiration_date, which is not yet \
         implemented \u{2014} remove the field or wait for a future release"
    );
}

#[test]
fn enable_nat_is_rejected() {
    let mut cfg = config_with(vec![stanza("t", &["tcp/22"], [0x11; 32])]);
    cfg.access[0].enable_nat = true;
    cfg.access[0].nat_destination = Some("10.0.0.5:22".to_string());
    let err = cfg
        .validate()
        .expect_err("enable_nat must be rejected as unimplemented");
    assert!(err.to_string().contains("enable_nat"));
}

#[test]
fn enable_cmd_exec_is_rejected() {
    let mut cfg = config_with(vec![stanza("t", &["tcp/22"], [0x11; 32])]);
    cfg.access[0].enable_cmd_exec = true;
    cfg.access[0].cmd_exec_user = Some("root".to_string());
    let err = cfg.validate().expect_err("enable_cmd_exec must be rejected");
    assert!(err.to_string().contains("enable_cmd_exec"));
}

#[test]
fn valid_stanza_loads_clean() {
    let cfg = config_with(vec![stanza("t", &["tcp/22"], [0x11; 32])]);
    cfg.validate().expect("valid stanza must load");
    assert_eq!(cfg.access.len(), 1);
}

#[test]
fn rejects_a_stanza_without_ports() {
    let cfg = config_with(vec![stanza("t", &[], [0x11; 32])]);
    assert_eq!(
        cfg.validate().unwrap_err().to_string(),
        "invalid configuration: access stanza t has empty open_ports"
    );
}

#[test]
fn rejects_a_default_timeout_above_the_largest() {
    let mut cfg = minimal_config();
    cfg.daemon.default_fw_timeout = Duration { secs: 300, nanos: 1 };
    assert_eq!(
        cfg.validate().unwrap_err().to_string(),
        "invalid configuration: default_fw_timeout must be <= max_fw_timeout"
    );
    cfg.daemon.default_fw_timeout = Duration::from_secs(300);
    cfg.validate().unwrap();
}

#[test]
fn the_first_broken_rule_is_reported() {
    // A stanza without ports behind a good one, with bad limits behind them.
    let mut cfg = config_with(vec![
        stanza("a", &["tcp/22"], [0x11; 32]),
        stanza("b", &[], [0; 32]),
    ]);
    cfg.rate_limit.global_rate_per_sec = 0;
    assert_eq!(
        cfg.validate().unwrap_err().to_string(),
        "invalid configuration: access stanza b has empty open_ports"
    );
}

#[test]
fn loopback_is_an_address() {
    assert_eq!(IpAddr::loopback(), "127.0.0.1".parse().unwrap());
}
