//! The decisions of the daemon, on concrete values.

use fwknox::capture::error::CaptureError;
use fwknox::capture::packet::CapturedPacket;
use fwknox::capture::udp::{
    captured_packet, classify_datagram, sockaddr_storage_to_ip, RecvFailure, RecvOutcome,
    TimeoutCache, MAX_DATAGRAM_LEN,
};
use fwknox::config::daemon::{
    AccessStanza, DaemonConfig, DaemonSection, FirewallBackend as BackendKind, RateLimitSection,
    ReplaySection,
};
use fwknox::config::error::ConfigError;
use fwknox::config::shared::{Base64Key, PortProtoList};
use fwknox::daemon::cli::Cli;
use fwknox::daemon::error::DaemonError;
use fwknox::daemon::matcher::{match_packet, MatchResult};
use fwknox::daemon::pipeline::{now_unix, process_packet, process_packet_at, ProcessResult};
use fwknox::daemon::policy::{clamp_timeout, find_stanza};
use fwknox::daemon::privsep_run::{handle_crypto_msg, ParentOutcome};
use fwknox::daemon::replay::ReplayCache;
use fwknox::daemon::run::{
    handle_packet, report_outcome, report_packet, Handled, Level, MainLoop, Reply, Step,
    PRUNE_EVERY_TICKS,
};
use fwknox::daemon::shutdown::ShutdownSignal;
use fwknox::daemon::startup::{check_backend, plan_sandbox, replay_capacity};
use fwknox::daemon::validate::{validate_capture_msg, validate_capture_msg_at};
use fwknox::firewall::backend::FirewallBackend;
use fwknox::firewall::error::FirewallError;
use fwknox::firewall::mock::MockBackend;
use fwknox::firewall::rule::RuleHandle;
use fwknox::net::IpAddr;
use fwknox::privsep::error::PrivsepError;
use fwknox::privsep::ipc::{check_incoming, check_outgoing, MAX_IPC_MSG};
use fwknox::privsep::messages::{CaptureMsg, CryptoMsg};
use fwknox::privsep::workers::{
    capture_step, crypto_step, CaptureAction, CaptureEvent, CryptoAction, CryptoEvent, Decision,
};
use fwknox::proto::error::ProtoError;
use fwknox::proto::hmac::{sign, HMAC_LEN};
use fwknox::proto::kdf::DerivedKeys;
use fwknox::proto::packet::build_packet;
use fwknox::proto::payload::SpaPayload;
use fwknox::proto::types::{PortProto, Protocol, SpaMessage};
use fwknox::time::Duration;
use std::collections::HashSet;

const NOW: i64 = 1_700_000_000;

/// Remembers nonces, as a replay cache does.
#[derive(Default)]
struct Seen(HashSet<[u8; 16]>);

impl ReplayCache for Seen {
    fn check_and_insert(&mut self, nonce: [u8; 16]) -> bool {
        self.0.insert(nonce)
    }
}

fn stanza(name: &str, source: &str, key: &[u8; 32]) -> AccessStanza {
    AccessStanza::new(
        name.to_string(),
        vec![source.parse().unwrap()],
        PortProtoList(vec![PortProto::new(Protocol::Tcp, 22)]),
        Base64Key(*key),
    )
}

fn config(access: Vec<AccessStanza>) -> DaemonConfig {
    let cfg = DaemonConfig {
        daemon: DaemonSection::default(),
        replay: ReplaySection::default(),
        rate_limit: RateLimitSection::default(),
        access,
    };
    cfg.validate().unwrap();
    cfg
}

fn ssh_config(key: &[u8; 32]) -> DaemonConfig {
    config(vec![stanza("ssh", "127.0.0.1/32", key)])
}

fn two_stanza_config(key_a: &[u8; 32], key_b: &[u8; 32]) -> DaemonConfig {
    config(vec![
        stanza("stanza-a", "any", key_a),
        stanza("stanza-b", "any", key_b),
    ])
}

fn payload_at(nonce: [u8; 16], timestamp: i64) -> SpaPayload {
    SpaPayload {
        nonce,
        timestamp,
        username: "alice".into(),
        message: SpaMessage::Access {
            source_ip: "127.0.0.1".parse().unwrap(),
            ports: vec![PortProto::new(Protocol::Tcp, 22)],
        },
        client_timeout: Some(60),
    }
}

fn fresh_payload(nonce: [u8; 16]) -> SpaPayload {
    payload_at(nonce, now_unix())
}

fn captured(data: Vec<u8>, src: &str) -> CapturedPacket {
    CapturedPacket {
        source_ip: src.parse().unwrap(),
        data,
    }
}

fn ready_mock() -> MockBackend {
    let mut firewall = MockBackend::new();
    firewall.init().unwrap();
    firewall
}

/// Processes one payload at a fixed time, with a fresh replay cache.
fn process_one(
    cfg: &DaemonConfig,
    payload: &SpaPayload,
    key: &[u8; 32],
    src: &str,
    now: i64,
) -> (ProcessResult, MockBackend) {
    let mut firewall = ready_mock();
    let mut seen = Seen::default();
    let pkt = captured(build_packet(payload, key).unwrap(), src);
    let result = process_packet_at(&pkt, cfg, now, &mut seen, &mut firewall).unwrap();
    (result, firewall)
}

fn rejection(result: ProcessResult) -> String {
    match result {
        ProcessResult::Rejected { reason, .. } => reason,
        other => panic!("expected Rejected, got {other:?}"),
    }
}

// Matching.

#[test]
fn matches_first_stanza_when_first_key_is_used() {
    let (key_a, key_b) = ([0x11u8; 32], [0x22u8; 32]);
    let cfg = two_stanza_config(&key_a, &key_b);
    let wire = build_packet(&fresh_payload([0xCD; 16]), &key_a).unwrap();
    match match_packet(&wire, &cfg.access) {
        MatchResult::Matched { stanza_name, .. } => {
            assert_eq!(stanza_name, "stanza-a");
        }
        other => panic!("expected Matched, got {other:?}"),
    }
}

#[test]
fn matches_second_stanza_when_second_key_is_used() {
    let (key_a, key_b) = ([0x11u8; 32], [0x22u8; 32]);
    let cfg = two_stanza_config(&key_a, &key_b);
    let payload = fresh_payload([0xCD; 16]);
    let wire = build_packet(&payload, &key_b).unwrap();
    match match_packet(&wire, &cfg.access) {
        MatchResult::Matched { stanza_name, payload: got } => {
            assert_eq!(stanza_name, "stanza-b");
            assert_eq!(got, payload);
        }
        other => panic!("expected Matched, got {other:?}"),
    }
}

#[test]
fn no_match_for_unknown_key() {
    let cfg = two_stanza_config(&[0x11u8; 32], &[0x22u8; 32]);
    let wire = build_packet(&fresh_payload([0xCD; 16]), &[0x99u8; 32]).unwrap();
    match match_packet(&wire, &cfg.access) {
        MatchResult::NoMatch => {}
        other => panic!("expected NoMatch, got {other:?}"),
    }
}

/// A packet whose ciphertext was changed and that was signed anew.
fn corrupt_packet(key: &[u8; 32]) -> Vec<u8> {
    let mut wire = build_packet(&fresh_payload([0xCD; 16]), key).unwrap();
    wire[20] ^= 0x80;
    let keys = DerivedKeys::derive(key).unwrap();
    let signed_len = wire.len() - HMAC_LEN;
    let new_tag = sign(keys.hmac.as_bytes(), &wire[..signed_len]);
    wire[signed_len..].copy_from_slice(&new_tag);
    wire
}

#[test]
fn rejected_when_hmac_matches_but_packet_is_corrupt() {
    let (key_a, key_b) = ([0x11u8; 32], [0x22u8; 32]);
    let cfg = two_stanza_config(&key_a, &key_b);
    match match_packet(&corrupt_packet(&key_a), &cfg.access) {
        MatchResult::Rejected {
            stanza_name,
            reason,
        } => {
            assert_eq!(stanza_name, "stanza-a");
            assert!(matches!(reason, ProtoError::AeadFailed));
        }
        other => panic!("expected Rejected, got {other:?}"),
    }
}

#[test]
fn noise_of_any_length_matches_nothing() {
    let cfg = two_stanza_config(&[0x11u8; 32], &[0x22u8; 32]);
    for len in [0, 10, 63, 64, 200, 1500, 1501, 9000] {
        assert!(matches!(
            match_packet(&vec![0x5a; len], &cfg.access),
            MatchResult::NoMatch
        ));
    }
    let wire = build_packet(&fresh_payload([1; 16]), &[0x11; 32]).unwrap();
    assert!(matches!(match_packet(&wire, &[]), MatchResult::NoMatch));
}

#[test]
fn the_first_of_two_stanzas_with_one_key_decides() {
    let key = [0x11u8; 32];
    let cfg = two_stanza_config(&key, &key);
    let wire = build_packet(&fresh_payload([1; 16]), &key).unwrap();
    match match_packet(&wire, &cfg.access) {
        MatchResult::Matched { stanza_name, .. } => assert_eq!(stanza_name, "stanza-a"),
        other => panic!("expected Matched, got {other:?}"),
    }
}

// The pipeline.

#[test]
fn happy_path_installs_rule() {
    let key = [0x42u8; 32];
    let cfg = ssh_config(&key);
    let mut seen = Seen::default();
    let mut firewall = ready_mock();
    let wire = build_packet(&fresh_payload([1; 16]), &key).unwrap();
    let pkt = captured(wire, "127.0.0.1");
    let result = process_packet(&pkt, &cfg, &mut seen, &mut firewall).unwrap();
    match result {
        ProcessResult::Installed { stanza_name, .. } => {
            assert_eq!(stanza_name, "ssh");
            assert_eq!(firewall.installed_rules().len(), 1);
        }
        other => panic!("expected Installed, got {other:?}"),
    }
}

#[test]
fn replay_is_detected() {
    let key = [0x42u8; 32];
    let cfg = ssh_config(&key);
    let mut seen = Seen::default();
    let mut firewall = ready_mock();
    let wire = build_packet(&fresh_payload([2; 16]), &key).unwrap();
    let pkt = captured(wire, "127.0.0.1");
    let _ = process_packet(&pkt, &cfg, &mut seen, &mut firewall).unwrap();
    let result = process_packet(&pkt, &cfg, &mut seen, &mut firewall).unwrap();
    assert!(matches!(result, ProcessResult::Replay { .. }));
    assert_eq!(firewall.installed_rules().len(), 1);
}

#[test]
fn pipeline_unknown_key_returns_no_match() {
    let cfg = ssh_config(&[0x42u8; 32]);
    let mut seen = Seen::default();
    let mut firewall = ready_mock();
    let wire = build_packet(&fresh_payload([3; 16]), &[0x99u8; 32]).unwrap();
    let pkt = captured(wire, "127.0.0.1");
    let result = process_packet(&pkt, &cfg, &mut seen, &mut firewall).unwrap();
    assert!(matches!(result, ProcessResult::NoMatch));
    assert!(firewall.installed_rules().is_empty());
}

#[test]
fn require_source_match_rejects_mismatched_packet_source() {
    let key = [0x42u8; 32];
    let cfg = ssh_config(&key);
    let mut seen = Seen::default();
    let mut firewall = ready_mock();
    let wire = build_packet(&fresh_payload([4; 16]), &key).unwrap();
    let pkt = captured(wire, "10.0.0.1");
    let result = process_packet(&pkt, &cfg, &mut seen, &mut firewall).unwrap();
    match result {
        ProcessResult::Rejected { reason, .. } => {
            assert!(reason.contains("source mismatch"));
            assert_eq!(
                reason,
                "source mismatch: payload says 127.0.0.1, packet from 10.0.0.1"
            );
        }
        other => panic!("expected Rejected, got {other:?}"),
    }
}

#[test]
fn requested_port_outside_open_ports_is_rejected() {
    let key = [0x42u8; 32];
    let cfg = ssh_config(&key);
    let mut seen = Seen::default();
    let mut firewall = ready_mock();
    let mut payload = fresh_payload([5; 16]);
    payload.message = SpaMessage::Access {
        source_ip: "127.0.0.1".parse().unwrap(),
        ports: vec![PortProto::new(Protocol::Tcp, 80)],
    };
    let wire = build_packet(&payload, &key).unwrap();
    let pkt = captured(wire, "127.0.0.1");
    let result = process_packet(&pkt, &cfg, &mut seen, &mut firewall).unwrap();
    match result {
        ProcessResult::Rejected { reason, .. } => {
            assert!(reason.contains("not in stanza open_ports"));
            assert_eq!(reason, "requested port tcp/80 not in stanza open_ports");
        }
        other => panic!("expected Rejected, got {other:?}"),
    }
    assert!(firewall.installed_rules().is_empty());
}

#[test]
fn the_installed_rule_is_what_was_asked_for() {
    let key = [0x42u8; 32];
    let cfg = ssh_config(&key);
    let (result, firewall) = process_one(&cfg, &payload_at([1; 16], NOW), &key, "127.0.0.1", NOW);
    match result {
        ProcessResult::Installed { stanza_name, handle } => {
            assert_eq!(stanza_name, "ssh");
            assert_eq!(handle, RuleHandle::new("mock-0"));
        }
        other => panic!("expected Installed, got {other:?}"),
    }
    let rule = &firewall.installed_rules()[0].1;
    assert_eq!(rule.source_ip, IpAddr::loopback());
    assert_eq!(rule.ports, vec![PortProto::new(Protocol::Tcp, 22)]);
    assert_eq!(rule.timeout, Duration::from_secs(60));
    assert_eq!(rule.comment, "fwknox:alice:1700000000");
}

#[test]
fn timeouts_come_from_client_stanza_or_daemon_and_are_limited() {
    let key = [0x42u8; 32];
    let timeout = |cfg: &DaemonConfig, client: Option<u32>| {
        let mut payload = payload_at([1; 16], NOW);
        payload.client_timeout = client;
        let (_, firewall) = process_one(cfg, &payload, &key, "127.0.0.1", NOW);
        firewall.installed_rules()[0].1.timeout
    };
    let mut cfg = ssh_config(&key);
    assert_eq!(timeout(&cfg, None), Duration::from_secs(30));
    assert_eq!(timeout(&cfg, Some(300)), Duration::from_secs(300));
    assert_eq!(timeout(&cfg, Some(301)), Duration::from_secs(300));
    cfg.access[0].fw_timeout = Some(Duration::from_secs(45));
    assert_eq!(timeout(&cfg, None), Duration::from_secs(45));
    assert_eq!(timeout(&cfg, Some(10)), Duration::from_secs(10));
    cfg.access[0].max_fw_timeout = Some(Duration::from_secs(40));
    assert_eq!(timeout(&cfg, None), Duration::from_secs(40));
    cfg.access[0].max_fw_timeout = Some(Duration::from_secs(3600));
    assert_eq!(timeout(&cfg, Some(3600)), Duration::from_secs(3600));
    assert_eq!(
        clamp_timeout(Duration::from_secs(2), Duration::from_secs(1)),
        Duration::from_secs(1)
    );
}

#[test]
fn the_configured_age_is_the_limit() {
    let key = [0x42u8; 32];
    let mut cfg = ssh_config(&key);
    cfg.daemon.max_spa_packet_age = Duration::from_secs(10);
    let payload = payload_at([1; 16], NOW);
    let (result, _) = process_one(&cfg, &payload, &key, "127.0.0.1", NOW + 10);
    assert!(matches!(result, ProcessResult::Installed { .. }));
    let (result, firewall) = process_one(&cfg, &payload, &key, "127.0.0.1", NOW + 11);
    assert_eq!(rejection(result), "packet age 11s exceeds maximum 10s");
    assert!(firewall.installed_rules().is_empty());
    let (result, _) = process_one(&cfg, &payload, &key, "127.0.0.1", NOW - 31);
    assert_eq!(rejection(result), "packet timestamp is 31s in the future");
    cfg.daemon.max_spa_packet_age = Duration::from_secs(u64::MAX);
    let (result, _) = process_one(&cfg, &payload, &key, "127.0.0.1", i64::MAX);
    assert!(matches!(result, ProcessResult::Installed { .. }));
}

#[test]
fn a_source_that_is_not_admitted_is_rejected() {
    let key = [0x42u8; 32];
    let mut cfg = ssh_config(&key);
    cfg.access[0].require_source_match = false;
    let payload = payload_at([1; 16], NOW);
    let (result, _) = process_one(&cfg, &payload, &key, "10.0.0.1", NOW);
    assert_eq!(rejection(result), "source 10.0.0.1 not in stanza allowlist");
    cfg.access[0].source.push("10.0.0.0/8".parse().unwrap());
    let (result, firewall) = process_one(&cfg, &payload, &key, "10.0.0.1", NOW);
    assert!(matches!(result, ProcessResult::Installed { .. }));
    // The rule opens for the source in the payload.
    assert_eq!(firewall.installed_rules()[0].1.source_ip, IpAddr::loopback());
}

#[test]
fn a_required_username_must_be_given() {
    let key = [0x42u8; 32];
    let mut cfg = ssh_config(&key);
    cfg.access[0].require_username = Some("bob".to_string());
    let mut payload = payload_at([1; 16], NOW);
    let (result, firewall) = process_one(&cfg, &payload, &key, "127.0.0.1", NOW);
    assert_eq!(rejection(result), "username \"alice\" not allowed by stanza");
    assert!(firewall.installed_rules().is_empty());
    payload.username = "bob".to_string();
    let (result, _) = process_one(&cfg, &payload, &key, "127.0.0.1", NOW);
    assert!(matches!(result, ProcessResult::Installed { .. }));
}

#[test]
fn other_requests_are_not_granted() {
    let key = [0x42u8; 32];
    let cfg = ssh_config(&key);
    let mut payload = payload_at([1; 16], NOW);
    payload.message = SpaMessage::Command {
        source_ip: IpAddr::loopback(),
        command: "/bin/true".to_string(),
    };
    let (result, _) = process_one(&cfg, &payload, &key, "127.0.0.1", NOW);
    assert_eq!(rejection(result), "unsupported message variant in Phase 3");
}

#[test]
fn a_corrupt_packet_is_rejected_with_its_reason() {
    let key = [0x42u8; 32];
    let cfg = ssh_config(&key);
    let mut firewall = ready_mock();
    let mut seen = Seen::default();
    let pkt = captured(corrupt_packet(&key), "127.0.0.1");
    let result = process_packet_at(&pkt, &cfg, NOW, &mut seen, &mut firewall).unwrap();
    assert_eq!(rejection(result), "AEAD decryption failed");
    // A packet that is not authentic and in time is not remembered.
    assert!(seen.0.is_empty());
}

#[test]
fn a_firewall_that_fails_is_an_error() {
    let key = [0x42u8; 32];
    let cfg = ssh_config(&key);
    let mut firewall = MockBackend::new();
    let mut seen = Seen::default();
    let pkt = captured(build_packet(&payload_at([1; 16], NOW), &key).unwrap(), "127.0.0.1");
    let err = process_packet_at(&pkt, &cfg, NOW, &mut seen, &mut firewall).unwrap_err();
    assert!(matches!(err, FirewallError::InconsistentState(_)));
    let report = report_packet(pkt.source_ip, Err(err));
    assert_eq!(report.level, Level::Error);
    assert_eq!(
        report.detail.as_deref(),
        Some("backend in inconsistent state: open_access called before init")
    );
}

// The workers.

#[test]
fn happy_path_returns_valid_request() {
    let key = [0x42u8; 32];
    let cfg = ssh_config(&key);
    let wire = build_packet(&fresh_payload([0xAA; 16]), &key).unwrap();
    let msg = CaptureMsg::Packet {
        source_ip: "127.0.0.1".parse().unwrap(),
        data: wire,
    };
    let reply = validate_capture_msg(msg, &cfg);
    match reply {
        CryptoMsg::ValidRequest { stanza_name, .. } => {
            assert_eq!(stanza_name, "ssh");
        }
        other => panic!("expected ValidRequest, got {other:?}"),
    }
}

#[test]
fn validate_unknown_key_returns_no_match() {
    let cfg = ssh_config(&[0x42u8; 32]);
    let wire = build_packet(&fresh_payload([0xAA; 16]), &[0x99; 32]).unwrap();
    let msg = CaptureMsg::Packet {
        source_ip: "127.0.0.1".parse().unwrap(),
        data: wire,
    };
    let reply = validate_capture_msg(msg, &cfg);
    assert!(matches!(reply, CryptoMsg::NoMatch { .. }));
}

#[test]
fn missing_stanza_lookup_yields_invariant_error() {
    let cfg = ssh_config(&[0x42u8; 32]);
    match find_stanza(&cfg, "does-not-exist") {
        Err(err) => {
            assert!(
                matches!(err, DaemonError::InvariantViolation(_)),
                "got: {err:?}"
            );
            assert_eq!(
                err.to_string(),
                "internal invariant violated: stanza name \"does-not-exist\" not found in config"
            );
        }
        Ok(_) => panic!("expected an error"),
    }
    assert_eq!(find_stanza(&cfg, "ssh").ok().unwrap().name, "ssh");
}

#[test]
fn source_mismatch_returns_rejected() {
    let key = [0x42u8; 32];
    let cfg = ssh_config(&key);
    let wire = build_packet(&fresh_payload([0xAA; 16]), &key).unwrap();
    let msg = CaptureMsg::Packet {
        source_ip: "10.0.0.1".parse().unwrap(),
        data: wire,
    };
    let reply = validate_capture_msg(msg, &cfg);
    match reply {
        CryptoMsg::Rejected { reason, .. } => {
            assert!(reason.contains("source mismatch"));
        }
        other => panic!("expected Rejected, got {other:?}"),
    }
}

#[test]
fn validation_gives_reasons() {
    let key = [0x42u8; 32];
    let cfg = ssh_config(&key);
    let validate = |payload: &SpaPayload, now: i64| {
        let msg = CaptureMsg::Packet {
            source_ip: IpAddr::loopback(),
            data: build_packet(payload, &key).unwrap(),
        };
        match validate_capture_msg_at(msg, &cfg, now) {
            CryptoMsg::Rejected { source_ip, reason } => {
                assert_eq!(source_ip, IpAddr::loopback());
                reason
            }
            other => panic!("expected Rejected, got {other:?}"),
        }
    };
    let mut payload = payload_at([1; 16], NOW);
    assert_eq!(
        validate(&payload, NOW + 121),
        "packet age 121s exceeds maximum 120s"
    );
    payload.message = SpaMessage::Command {
        source_ip: IpAddr::loopback(),
        command: "x".to_string(),
    };
    assert_eq!(validate(&payload, NOW), "unsupported message variant");
}

fn valid_request(cfg: &DaemonConfig, key: &[u8; 32], nonce: [u8; 16]) -> CryptoMsg {
    let msg = CaptureMsg::Packet {
        source_ip: IpAddr::loopback(),
        data: build_packet(&payload_at(nonce, NOW), key).unwrap(),
    };
    validate_capture_msg_at(msg, cfg, NOW)
}

#[test]
fn the_parent_installs_what_one_process_would() {
    let key = [0x42u8; 32];
    let cfg = ssh_config(&key);
    let mut firewall = ready_mock();
    let mut seen = Seen::default();
    let msg = valid_request(&cfg, &key, [1; 16]);
    let again = msg.clone();
    match handle_crypto_msg(msg, &cfg, &mut seen, &mut firewall) {
        ParentOutcome::Installed { stanza_name, source_ip, handle } => {
            assert_eq!(stanza_name, "ssh");
            assert_eq!(source_ip, IpAddr::loopback());
            assert_eq!(handle.as_str(), "mock-0");
        }
        other => panic!("expected Installed, got {other:?}"),
    }
    let (_, single) = process_one(&cfg, &payload_at([1; 16], NOW), &key, "127.0.0.1", NOW);
    assert_eq!(firewall.installed_rules(), single.installed_rules());
    match handle_crypto_msg(again, &cfg, &mut seen, &mut firewall) {
        ParentOutcome::Replay { stanza_name, .. } => assert_eq!(stanza_name, "ssh"),
        other => panic!("expected Replay, got {other:?}"),
    }
    assert_eq!(firewall.installed_rules().len(), 1);
}

#[test]
fn the_parent_reports_each_outcome() {
    let key = [0x42u8; 32];
    let cfg = ssh_config(&key);
    let mut seen = Seen::default();
    let mut report = |msg: CryptoMsg, firewall: &mut MockBackend| {
        let r = report_outcome(handle_crypto_msg(msg, &cfg, &mut seen, firewall));
        (r.level, r.message, r.stanza, r.detail)
    };
    let mut firewall = ready_mock();
    assert_eq!(
        report(CryptoMsg::NoMatch { source_ip: IpAddr::loopback() }, &mut firewall),
        (Level::Debug, "parent: no-match packet", None, None)
    );
    let rejected = CryptoMsg::Rejected {
        source_ip: IpAddr::loopback(),
        reason: "why".to_string(),
    };
    assert_eq!(
        report(rejected, &mut firewall),
        (Level::Warn, "parent: rejected packet", None, Some("why".to_string()))
    );
    let request = |nonce: u8, message: Option<SpaMessage>, stanza_name: &str| {
        let mut payload = payload_at([nonce; 16], NOW);
        if let Some(message) = message {
            payload.message = message;
        }
        CryptoMsg::ValidRequest {
            stanza_name: stanza_name.to_string(),
            source_ip: IpAddr::loopback(),
            payload,
        }
    };
    let command = SpaMessage::Command {
        source_ip: IpAddr::loopback(),
        command: "x".to_string(),
    };
    let ssh = Some("ssh".to_string());
    assert_eq!(
        report(request(1, Some(command), "ssh"), &mut firewall),
        (
            Level::Warn,
            "parent: unsupported message variant in ValidRequest",
            ssh.clone(),
            None
        )
    );
    assert_eq!(
        report(request(2, None, "gone"), &mut firewall),
        (
            Level::Error,
            "parent: stanza name not found in config",
            Some("gone".to_string()),
            None
        )
    );
    assert_eq!(
        report(request(3, None, "ssh"), &mut firewall),
        (Level::Info, "parent: rule installed", ssh.clone(), None)
    );
    assert_eq!(
        report(request(3, None, "ssh"), &mut firewall),
        (Level::Warn, "parent: replay detected", ssh, None)
    );
    let (level, message, _, detail) = report(request(4, None, "ssh"), &mut MockBackend::new());
    assert_eq!(
        (level, message),
        (Level::Error, "parent: firewall.open_access failed")
    );
    assert!(detail.unwrap().contains("before init"));
}

#[test]
fn packets_are_reported_by_what_became_of_them() {
    let key = [0x42u8; 32];
    let cfg = ssh_config(&key);
    let mut seen = Seen::default();
    let mut firewall = ready_mock();
    let pkt = captured(build_packet(&fresh_payload([1; 16]), &key).unwrap(), "127.0.0.1");
    let handled = handle_packet(&pkt, &cfg, &mut seen, &mut firewall);
    assert_eq!(handled.reply(), Reply::Yes);
    let report = handled.report;
    assert_eq!((report.level, report.message), (Level::Info, "rule installed"));
    assert_eq!(report.stanza.as_deref(), Some("ssh"));
    assert_eq!(report.source, Some(IpAddr::loopback()));
    let Handled { report, .. } = handle_packet(&pkt, &cfg, &mut seen, &mut firewall);
    assert_eq!((report.level, report.message), (Level::Warn, "replay detected"));
    let noise = captured(vec![0; 100], "127.0.0.1");
    let Handled { report, .. } = handle_packet(&noise, &cfg, &mut seen, &mut firewall);
    assert_eq!(
        (report.level, report.message),
        (Level::Debug, "no stanza matched (dropped)")
    );
    let other = captured(build_packet(&fresh_payload([2; 16]), &key).unwrap(), "10.0.0.1");
    let Handled { report, failure } = handle_packet(&other, &cfg, &mut seen, &mut firewall);
    assert_eq!((report.level, report.message), (Level::Warn, "packet rejected"));
    assert!(report.detail.unwrap().contains("source mismatch"));
    assert!(failure.is_none());
    // A firewall that is not prepared fails, which ends the daemon.
    let third = captured(build_packet(&fresh_payload([3; 16]), &key).unwrap(), "127.0.0.1");
    let handled = handle_packet(&third, &cfg, &mut seen, &mut MockBackend::new());
    assert_eq!(handled.report.level, Level::Error);
    assert_eq!(handled.reply(), Reply::No);
    assert!(matches!(handled.failure, Some(FirewallError::InconsistentState(_))));
}

#[test]
fn capture_worker_steps() {
    let received = |decision| CaptureEvent::Received {
        source_ip: IpAddr::loopback(),
        data: vec![1, 2, 3],
        decision,
    };
    match capture_step(received(Decision::Pass)) {
        CaptureAction::Send(CaptureMsg::Packet { source_ip, data }) => {
            assert_eq!(source_ip, IpAddr::loopback());
            assert_eq!(data, vec![1, 2, 3]);
        }
        _ => panic!("expected Send"),
    }
    assert!(matches!(capture_step(received(Decision::Drop)), CaptureAction::Continue));
    assert!(matches!(capture_step(CaptureEvent::TimedOut), CaptureAction::Continue));
    assert!(matches!(capture_step(CaptureEvent::Sent), CaptureAction::Continue));
    assert!(matches!(capture_step(CaptureEvent::Shutdown), CaptureAction::Exit(Ok(()))));
    match capture_step(CaptureEvent::ReceiveFailed("bad".to_string())) {
        CaptureAction::Exit(Err(e)) => assert_eq!(e.to_string(), "io error: bad"),
        _ => panic!("expected Exit"),
    }
    assert!(matches!(
        capture_step(CaptureEvent::SendFailed(PrivsepError::PeerClosed)),
        CaptureAction::Exit(Err(PrivsepError::PeerClosed))
    ));
}

#[test]
fn crypto_worker_steps() {
    let msg = CaptureMsg::Packet {
        source_ip: IpAddr::loopback(),
        data: vec![1],
    };
    assert!(matches!(
        crypto_step(CryptoEvent::Received(msg)),
        CryptoAction::Validate(CaptureMsg::Packet { .. })
    ));
    let reply = CryptoMsg::NoMatch { source_ip: IpAddr::loopback() };
    assert!(matches!(
        crypto_step(CryptoEvent::Validated(reply)),
        CryptoAction::Send(CryptoMsg::NoMatch { .. })
    ));
    assert!(matches!(crypto_step(CryptoEvent::Panicked), CryptoAction::Continue));
    assert!(matches!(crypto_step(CryptoEvent::TimedOut), CryptoAction::Continue));
    assert!(matches!(crypto_step(CryptoEvent::Sent), CryptoAction::Continue));
    assert!(matches!(crypto_step(CryptoEvent::Shutdown), CryptoAction::Exit(Ok(()))));
    assert!(matches!(
        crypto_step(CryptoEvent::ReceiveFailed(PrivsepError::PeerClosed)),
        CryptoAction::Exit(Err(PrivsepError::PeerClosed))
    ));
    assert!(matches!(
        crypto_step(CryptoEvent::SendFailed(PrivsepError::PeerClosed)),
        CryptoAction::Exit(Err(PrivsepError::PeerClosed))
    ));
}

#[test]
fn messages_between_processes_are_bounded() {
    assert!(check_outgoing(MAX_IPC_MSG).is_ok());
    let err = check_outgoing(MAX_IPC_MSG + 1).unwrap_err();
    assert_eq!(
        err.to_string(),
        "ipc encode error: message too large: 8193 bytes > 8192 limit"
    );
    assert!(matches!(check_incoming(0), Err(PrivsepError::PeerClosed)));
    assert_eq!(check_incoming(8192).unwrap(), 8192);
    let err = check_incoming(8193).unwrap_err();
    assert_eq!(
        err.to_string(),
        "IPC datagram truncated: received 8193 bytes, limit is 8192"
    );
}

// Capturing.

#[test]
fn datagrams_are_delivered_whole_or_not_at_all() {
    let ip = IpAddr::loopback();
    let buf = [0x5a; MAX_DATAGRAM_LEN];
    let whole = classify_datagram(MAX_DATAGRAM_LEN, false, buf.len(), ip);
    assert_eq!(whole, RecvOutcome::Packet { len: MAX_DATAGRAM_LEN, source_ip: ip });
    let pkt = captured_packet(Ok(whole), &buf).unwrap().unwrap();
    assert_eq!(pkt.data.len(), MAX_DATAGRAM_LEN);
    assert_eq!(pkt.source_ip, ip);
    let pkt = captured_packet(Ok(classify_datagram(5, false, buf.len(), ip)), &buf)
        .unwrap()
        .unwrap();
    assert_eq!(pkt.data, vec![0x5a; 5]);
    let cut = classify_datagram(2000, true, buf.len(), ip);
    assert_eq!(cut, RecvOutcome::Truncated { reported: 2000, source_ip: ip });
    assert!(captured_packet(Ok(cut), &buf).unwrap().is_none());
    let late = RecvFailure { timed_out: true, error: "timed out".to_string() };
    assert!(captured_packet(Err(late), &buf).unwrap().is_none());
    let broken = RecvFailure { timed_out: false, error: "broken".to_string() };
    match captured_packet(Err(broken), &buf) {
        Err(e) => assert_eq!(e.to_string(), "failed to receive packet: broken"),
        Ok(_) => panic!("expected an error"),
    }
}

#[test]
fn socket_addresses_give_the_sender() {
    assert_eq!(sockaddr_storage_to_ip(2, 16, 0x0a00_0001, 0), Ok(IpAddr::v4(10, 0, 0, 1)));
    assert_eq!(sockaddr_storage_to_ip(10, 28, 0, 1), Ok(IpAddr::V6(1)));
    assert_eq!(
        sockaddr_storage_to_ip(2, 15, 0, 0),
        Err("short sockaddr_in from recvmsg".to_string())
    );
    assert_eq!(
        sockaddr_storage_to_ip(10, 27, 0, 0),
        Err("short sockaddr_in6 from recvmsg".to_string())
    );
    assert_eq!(
        sockaddr_storage_to_ip(1, 128, 0, 0),
        Err("recvmsg returned unsupported address family 1".to_string())
    );
}

#[test]
fn a_timeout_is_set_when_it_changes() {
    let mut cache = TimeoutCache::new();
    let half = Duration { secs: 0, nanos: 500_000_000 };
    assert!(cache.must_set(half));
    cache.note(half);
    assert!(!cache.must_set(half));
    assert!(cache.must_set(Duration::from_secs(1)));
}

// The main loop.

/// Settings of which only those that the loop reads are given.
fn loop_settings(at_init: bool, at_exit: bool, systemd: bool) -> DaemonSection {
    DaemonSection {
        flush_rules_at_init: at_init,
        flush_rules_at_exit: at_exit,
        enable_systemd: systemd,
        ..DaemonSection::default()
    }
}

/// The steps that a loop takes.
fn steps_of(mut l: MainLoop, replies: &[Reply]) -> Vec<Step> {
    let mut steps = vec![l.step];
    for reply in replies {
        l.advance(*reply);
        steps.push(l.step);
    }
    steps
}

#[test]
fn the_loop_of_one_process_cleans_up() {
    // The firewall is flushed and prepared, one packet is handled, nothing arrives, and
    // then the signal is set; flushing and saving fail.
    let replies = [
        Reply::No,
        Reply::Yes,
        Reply::No,
        Reply::Yes,
        Reply::Yes,
        Reply::No,
        Reply::No,
        Reply::Yes,
        Reply::No,
        Reply::No,
    ];
    assert_eq!(
        steps_of(MainLoop::single_process(&loop_settings(true, true, false)), &replies),
        vec![
            Step::FlushAtStart,
            Step::InitFirewall,
            Step::CheckShutdown,
            Step::Receive,
            Step::Handle,
            Step::CheckShutdown,
            Step::Receive,
            Step::CheckShutdown,
            Step::FlushFirewall,
            Step::SaveReplay,
            Step::Finish,
        ]
    );
}

#[test]
fn the_loop_flushes_only_where_it_is_asked_to() {
    let replies = [Reply::Yes, Reply::Yes, Reply::Yes];
    assert_eq!(
        steps_of(MainLoop::single_process(&loop_settings(false, false, false)), &replies),
        vec![
            Step::InitFirewall,
            Step::CheckShutdown,
            Step::SaveReplay,
            Step::Finish,
        ]
    );
    let defaults = DaemonSection::default();
    assert_eq!(MainLoop::single_process(&defaults).step, Step::FlushAtStart);
    assert!(MainLoop::single_process(&defaults).flush_at_exit);
}

#[test]
fn the_loop_of_the_parent_stops_its_workers() {
    let replies = [
        Reply::Yes,
        Reply::Yes,
        Reply::Yes,
        Reply::No,
        Reply::No,
        Reply::Yes,
        Reply::Yes,
        Reply::Yes,
        Reply::Yes,
        Reply::No,
        Reply::No,
        Reply::No,
        Reply::No,
        Reply::No,
    ];
    assert_eq!(
        steps_of(MainLoop::parent(&loop_settings(true, true, true)), &replies),
        vec![
            Step::FlushAtStart,
            Step::InitFirewall,
            Step::StartWorkers,
            Step::NotifyReady,
            Step::CheckShutdown,
            Step::Receive,
            Step::Handle,
            Step::Watchdog,
            Step::CheckShutdown,
            Step::NotifyStopping,
            Step::ReapCapture,
            Step::ReapCrypto,
            Step::FlushFirewall,
            Step::SaveReplay,
            Step::Finish,
        ]
    );
}

#[test]
fn the_service_manager_hears_only_of_the_stop_where_notices_are_switched_off() {
    let replies = [
        Reply::Yes,
        Reply::Yes,
        Reply::No,
        Reply::No,
        Reply::Yes,
        Reply::Yes,
        Reply::Yes,
        Reply::Yes,
    ];
    assert_eq!(
        steps_of(MainLoop::parent(&loop_settings(false, false, false)), &replies),
        vec![
            Step::InitFirewall,
            Step::StartWorkers,
            Step::CheckShutdown,
            Step::Receive,
            Step::CheckShutdown,
            Step::NotifyStopping,
            Step::ReapCapture,
            Step::ReapCrypto,
            Step::SaveReplay,
        ]
    );
}

#[test]
fn the_cache_is_pruned_on_time() {
    let mut l = MainLoop::single_process(&loop_settings(false, true, false));
    l.advance(Reply::Yes);
    for turn in 1..=2 * PRUNE_EVERY_TICKS {
        l.advance(Reply::No);
        l.advance(Reply::No);
        assert_eq!(l.tick, turn);
        if turn % 600 == 0 {
            assert_eq!(l.step, Step::PruneReplay);
            l.advance(Reply::Yes);
        }
        assert_eq!(l.step, Step::CheckShutdown);
    }
}

#[test]
fn a_firewall_that_cannot_be_prepared_ends_the_daemon() {
    // The single process cleans up before it ends, whatever is asked of a graceful stop.
    let no = [Reply::No; 4];
    assert_eq!(
        steps_of(MainLoop::single_process(&loop_settings(false, false, true)), &no),
        vec![
            Step::InitFirewall,
            Step::FlushFirewall,
            Step::SaveReplay,
            Step::Fail,
            Step::Fail,
        ]
    );
    // The parent ends at once.
    let mut l = MainLoop::parent(&loop_settings(false, true, true));
    l.advance(Reply::No);
    assert_eq!(l.step, Step::Fail);
    let mut l = MainLoop::parent(&loop_settings(false, true, true));
    l.advance(Reply::Yes);
    l.advance(Reply::No);
    assert_eq!(l.step, Step::Fail);
}

#[test]
fn a_firewall_that_fails_ends_the_single_process_and_not_the_parent() {
    let replies = [Reply::Yes, Reply::No, Reply::Yes, Reply::No, Reply::Yes, Reply::Yes];
    assert_eq!(
        steps_of(MainLoop::single_process(&loop_settings(false, true, false)), &replies),
        vec![
            Step::InitFirewall,
            Step::CheckShutdown,
            Step::Receive,
            Step::Handle,
            Step::FlushFirewall,
            Step::SaveReplay,
            Step::Fail,
        ]
    );
    let replies = [Reply::Yes, Reply::Yes, Reply::No, Reply::Yes, Reply::No];
    assert_eq!(
        steps_of(MainLoop::parent(&loop_settings(false, true, false)), &replies),
        vec![
            Step::InitFirewall,
            Step::StartWorkers,
            Step::CheckShutdown,
            Step::Receive,
            Step::Handle,
            Step::CheckShutdown,
        ]
    );
}

#[test]
fn errors_convert_into_those_of_the_daemon() {
    let e: DaemonError = FirewallError::Backend("x".to_string()).into();
    assert!(matches!(e, DaemonError::Firewall(FirewallError::Backend(m)) if m == "x"));
    let e: PrivsepError = ProtoError::HmacFailed.into();
    let e: DaemonError = e.into();
    assert!(matches!(e, DaemonError::Privsep(PrivsepError::Proto(ProtoError::HmacFailed))));
    assert!(!ShutdownSignal::default().is_shutdown());
    assert!(!MockBackend::default().is_initialized());
}

#[test]
fn a_nonce_is_remembered_before_the_policy_and_not_before_the_clock() {
    let key = [0x42u8; 32];
    let cfg = ssh_config(&key);
    let mut firewall = ready_mock();
    let mut seen = Seen::default();
    let data = build_packet(&payload_at([3; 16], NOW), &key).unwrap();
    // Out of time, and noise: nothing is remembered.
    let late = captured(data.clone(), "127.0.0.1");
    let result = process_packet_at(&late, &cfg, NOW + 1000, &mut seen, &mut firewall).unwrap();
    assert_eq!(rejection(result), "packet age 1000s exceeds maximum 120s");
    let noise = captured(vec![0; 100], "127.0.0.1");
    process_packet_at(&noise, &cfg, NOW, &mut seen, &mut firewall).unwrap();
    assert!(seen.0.is_empty());
    // From a source that the policy refuses: remembered, so that it is a replay later.
    let other = captured(data.clone(), "10.0.0.1");
    let result = process_packet_at(&other, &cfg, NOW, &mut seen, &mut firewall).unwrap();
    assert!(rejection(result).contains("source mismatch"));
    assert!(seen.0.contains(&[3; 16]));
    let again = captured(data, "127.0.0.1");
    let result = process_packet_at(&again, &cfg, NOW, &mut seen, &mut firewall).unwrap();
    assert!(matches!(result, ProcessResult::Replay { .. }));
    // What the crypto worker refused is not remembered.
    let mut fresh = Seen::default();
    let msg = CryptoMsg::NoMatch { source_ip: IpAddr::loopback() };
    handle_crypto_msg(msg, &cfg, &mut fresh, &mut firewall);
    assert!(fresh.0.is_empty());
    assert!(firewall.installed_rules().is_empty());
}

// The shutdown signal.

#[test]
fn fresh_signal_is_not_shutdown() {
    let s = ShutdownSignal::new();
    assert!(!s.is_shutdown());
}

#[test]
fn trigger_flips_the_flag() {
    let s = ShutdownSignal::new();
    s.trigger();
    assert!(s.is_shutdown());
}

#[test]
fn clones_share_state() {
    let a = ShutdownSignal::new();
    let b = a.clone();
    a.trigger();
    assert!(b.is_shutdown());
}

// Before the loop.

#[test]
fn only_nftables_is_supported() {
    assert!(check_backend(BackendKind::Nftables).is_ok());
    assert_eq!(
        check_backend(BackendKind::Iptables).unwrap_err().to_string(),
        "operation not supported: iptables backend (Phase 3 ships only nftables)"
    );
}

#[test]
fn the_replay_cache_holds_at_least_one() {
    assert_eq!(replay_capacity(0), 1);
    assert_eq!(replay_capacity(10_000), 10_000);
}

#[test]
fn the_sandbox_is_planned_from_the_configuration() {
    let mut cfg = ssh_config(&[0x42; 32]);
    let plan = plan_sandbox(&cfg, true).unwrap();
    assert_eq!(plan.drop_to.unwrap().user, "fwknox");
    assert_eq!(plan.landlock_file, None);
    cfg.daemon.landlock_enabled = true;
    let plan = plan_sandbox(&cfg, false).unwrap();
    assert_eq!(plan.drop_to, None);
    assert_eq!(plan.landlock_file.as_deref(), Some("/var/lib/fwknox/replay.cache"));
    cfg.daemon.enable_sandbox = false;
    assert_eq!(plan_sandbox(&cfg, true), None);
    assert_eq!(Cli::default().config, "/etc/fwknox/fwknoxd.toml");
}

#[test]
fn daemon_errors_have_their_texts() {
    let texts = [
        (
            DaemonError::Config(ConfigError::Invalid("x".to_string())),
            "config error: invalid configuration: x",
        ),
        (
            DaemonError::Firewall(FirewallError::Backend("x".to_string())),
            "firewall error: nftables backend failure: x",
        ),
        (
            DaemonError::Capture(CaptureError::Bind("x".to_string())),
            "capture error: failed to bind capture socket: x",
        ),
        (DaemonError::Replay("x".to_string()), "replay cache error: x"),
        (DaemonError::Sandbox("x".to_string()), "sandbox error: x"),
        (
            DaemonError::Proto(ProtoError::HmacFailed),
            "protocol error: HMAC verification failed",
        ),
        (
            DaemonError::Privsep(PrivsepError::Syscall {
                syscall: "fork",
                source: "x".to_string(),
            }),
            "privsep error: system call fork failed: x",
        ),
        (DaemonError::Io("x".to_string()), "io error: x"),
    ];
    for (err, text) in texts {
        assert_eq!(err.to_string(), text);
    }
    assert_eq!(
        PrivsepError::Proto(ProtoError::AeadFailed).to_string(),
        "protocol error: AEAD decryption failed"
    );
    assert_eq!(
        PrivsepError::IpcDecode("x".to_string()).to_string(),
        "ipc decode error: x"
    );
}

#[test]
fn a_reading_of_the_clock_stands_for_a_time() {
    assert_eq!(fwknox::time::unix_time_of(Some(1_700_000_000)), 1_700_000_000);
    assert_eq!(fwknox::time::unix_time_of(Some(u64::MAX)), i64::MAX);
    assert_eq!(fwknox::time::unix_time_of(None), 0);
}
