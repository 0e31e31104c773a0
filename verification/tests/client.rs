//! The client, on concrete values.

use fwknox::client::cli::{log_level, named_server, resolve_destination, resolve_port, Cli};
use fwknox::client::error::ClientError;
use fwknox::client::keygen::{generate_master_key, generate_master_key_base64, MASTER_KEY_LEN};
use fwknox::client::packet::{build_spa_packet, parse_access_string, resolve_request};
use fwknox::config::client::{ClientConfig, DefaultsSection, ServerEntry};
use fwknox::config::error::ConfigError;
use fwknox::config::shared::{Base64Key, PortProtoList};
use fwknox::net::IpAddr;
use fwknox::proto::error::ProtoError;
use fwknox::proto::packet::parse_packet;
use fwknox::proto::types::{PortProto, Protocol, SpaMessage};
use fwknox::time::Duration;

fn b64(bytes: &[u8]) -> String {
    base64::Engine::encode(&base64::engine::general_purpose::STANDARD, bytes)
}

fn cli_with_inline_args() -> Cli {
    let mut cli = Cli::empty();
    cli.destination = Some("127.0.0.1".to_string());
    cli.access = Some("tcp/22".to_string());
    cli.master_key_base64 = Some(b64(&[0x42u8; 32]));
    cli
}

fn home() -> ServerEntry {
    let mut server = ServerEntry::new(
        "home".to_string(),
        "203.0.113.42".to_string(),
        PortProtoList(vec![PortProto::new(Protocol::Udp, 53)]),
        Base64Key([0x11; 32]),
    );
    server.fw_timeout = Some(Duration::from_secs(30));
    server.port = 4000;
    server
}

fn refused(cli: &Cli, server: Option<&ServerEntry>) -> String {
    build_spa_packet(cli, server, None).unwrap_err().to_string()
}

#[test]
fn build_packet_from_inline_cli_args() {
    let cli = cli_with_inline_args();
    let wire = build_spa_packet(&cli, None, None).unwrap();
    let payload = parse_packet(&wire, &[0x42u8; 32]).unwrap();
    match payload.message {
        SpaMessage::Access { ports, .. } => {
            assert_eq!(ports, vec![PortProto::new(Protocol::Tcp, 22)]);
        }
        other => panic!("expected Access, got {other:?}"),
    }
}

#[test]
fn missing_master_key_returns_missing_argument() {
    let mut cli = Cli::empty();
    cli.access = Some("tcp/22".to_string());
    let err = build_spa_packet(&cli, None, None).unwrap_err();
    assert!(matches!(err, ClientError::MissingArgument(_)));
}

#[test]
fn missing_access_returns_missing_argument() {
    let mut cli = Cli::empty();
    cli.master_key_base64 = Some(b64(&[0u8; 32]));
    let err = build_spa_packet(&cli, None, None).unwrap_err();
    assert!(matches!(err, ClientError::MissingArgument(_)));
}

#[test]
fn invalid_master_key_length_is_rejected() {
    let mut cli = Cli::empty();
    cli.access = Some("tcp/22".to_string());
    cli.master_key_base64 = Some(b64(&[0u8; 16]));
    let err = build_spa_packet(&cli, None, None).unwrap_err();
    assert!(matches!(err, ClientError::InvalidArgument { .. }));
    assert_eq!(
        err.to_string(),
        "invalid argument master-key-base64: expected 32 bytes, got 16"
    );
}

#[test]
fn parse_access_handles_multiple_ports() {
    let parsed = parse_access_string("tcp/22, udp/53,tcp/443").unwrap();
    assert_eq!(parsed.len(), 3);
}

#[test]
fn parse_access_rejects_empty_string() {
    let err = parse_access_string("").unwrap_err();
    assert!(matches!(err, ClientError::InvalidArgument { .. }));
}

#[test]
fn access_lists_skip_empty_tokens_and_stop_at_bad_ones() {
    assert_eq!(
        parse_access_string(",tcp/22,, udp/53 ,").unwrap(),
        vec![
            PortProto::new(Protocol::Tcp, 22),
            PortProto::new(Protocol::Udp, 53)
        ]
    );
    assert_eq!(
        parse_access_string(" , ").unwrap_err().to_string(),
        "invalid argument access: empty list"
    );
    assert_eq!(
        parse_access_string("tcp/22,tcp/0,x").unwrap_err().to_string(),
        "invalid argument access: invalid configuration: port must be > 0"
    );
}

#[test]
fn arguments_are_refused_in_their_order() {
    let mut cli = Cli::empty();
    cli.source_ip = Some("nowhere".to_string());
    assert_eq!(
        refused(&cli, None),
        "missing argument: master_key (-k or via -n / --name)"
    );
    cli.master_key_base64 = Some(b64(&[0x42; 32]));
    assert_eq!(
        refused(&cli, None),
        "missing argument: access (-A or via -n / --name)"
    );
    cli.access = Some("tcp/22".to_string());
    assert_eq!(
        refused(&cli, None),
        "invalid argument source-ip: invalid IP address syntax"
    );
    cli.master_key_base64 = Some("*".to_string());
    assert!(refused(&cli, None).starts_with("invalid argument master-key-base64: "));
}

#[test]
fn the_command_line_comes_before_the_server() {
    let server = home();
    let req = resolve_request(&Cli::empty(), Some(&server), Some("carol")).unwrap();
    assert_eq!(req.master_key, [0x11; 32]);
    assert_eq!(req.ports, vec![PortProto::new(Protocol::Udp, 53)]);
    assert_eq!(req.source_ip, IpAddr::loopback());
    assert_eq!(req.username, "carol");
    assert_eq!(req.client_timeout, Some(30));
    let mut cli = cli_with_inline_args();
    cli.source_ip = Some("2001:db8::1".to_string());
    cli.username = Some("dave".to_string());
    cli.timeout = Some(90);
    let req = resolve_request(&cli, Some(&server), Some("carol")).unwrap();
    assert_eq!(req.master_key, [0x42; 32]);
    assert_eq!(req.ports, vec![PortProto::new(Protocol::Tcp, 22)]);
    assert_eq!(req.source_ip.to_string(), "2001:db8::1");
    assert_eq!(req.username, "dave");
    assert_eq!(req.client_timeout, Some(90));
    cli.timeout = Some(1 << 32);
    let req = resolve_request(&cli, Some(&server), None).unwrap();
    assert_eq!(req.client_timeout, None);
    cli.username = None;
    let req = resolve_request(&cli, None, None).unwrap();
    assert_eq!(req.username, "fwknox");
}

#[test]
fn a_request_is_carried_as_it_is() {
    let req = resolve_request(&cli_with_inline_args(), None, Some("erin")).unwrap();
    let wire = req.packet(1_700_000_000, [7; 16], &[9; 12]).unwrap();
    let payload = parse_packet(&wire, &req.master_key).unwrap();
    assert_eq!(payload, req.payload(1_700_000_000, [7; 16]));
    assert_eq!(payload.timestamp, 1_700_000_000);
    assert_eq!(payload.nonce, [7; 16]);
    assert_eq!(payload.username, "erin");
    // The same time and nonces give the same packet.
    assert_eq!(wire, req.packet(1_700_000_000, [7; 16], &[9; 12]).unwrap());
    // Fresh packets differ.
    assert_ne!(req.fresh_packet().unwrap(), req.fresh_packet().unwrap());
}

#[test]
fn a_request_that_is_too_large_is_refused() {
    let mut cli = cli_with_inline_args();
    cli.username = Some("x".repeat(2000));
    let err = build_spa_packet(&cli, None, None).unwrap_err();
    assert!(matches!(
        err,
        ClientError::Proto(ProtoError::InvalidField("payload too large"))
    ));
}

#[test]
fn generated_key_is_correct_length() {
    let key = generate_master_key().unwrap();
    assert_eq!(key.len(), MASTER_KEY_LEN);
}

#[test]
fn generated_key_is_nonzero() {
    let key = generate_master_key().unwrap();
    assert!(key.iter().any(|b| *b != 0));
}

#[test]
fn two_generated_keys_are_distinct() {
    let a = generate_master_key().unwrap();
    let b = generate_master_key().unwrap();
    assert_ne!(a, b);
}

#[test]
fn base64_form_decodes_to_32_bytes() {
    let s = generate_master_key_base64().unwrap();
    let bytes =
        base64::Engine::decode(&base64::engine::general_purpose::STANDARD, &s).unwrap();
    assert_eq!(bytes.len(), MASTER_KEY_LEN);
    assert!(Base64Key::decode(&s).is_ok());
}

#[test]
fn the_destination_comes_from_the_command_line_or_the_server() {
    let server = home();
    let mut cli = Cli::empty();
    assert_eq!(
        resolve_destination(&cli, None).unwrap_err().to_string(),
        "missing argument: destination (-D or via -n / --name)"
    );
    assert_eq!(resolve_destination(&cli, Some(&server)).unwrap(), "203.0.113.42");
    assert_eq!(resolve_port(&cli, Some(&server)), 4000);
    assert_eq!(resolve_port(&cli, None), 62201);
    cli.destination = Some("example.net".to_string());
    cli.port = 5000;
    assert_eq!(resolve_destination(&cli, Some(&server)).unwrap(), "example.net");
    assert_eq!(resolve_port(&cli, Some(&server)), 5000);
}

#[test]
fn servers_are_named() {
    let cfg = ClientConfig {
        defaults: DefaultsSection::default(),
        servers: vec![home()],
    };
    assert_eq!(named_server(&cfg, "home").ok().unwrap().port, 4000);
    match named_server(&cfg, "away") {
        Err(e) => assert_eq!(e.to_string(), "server entry away not found in client config"),
        Ok(_) => panic!("expected an error"),
    }
}

#[test]
fn client_errors_have_their_texts() {
    assert_eq!(
        ClientError::Config(ConfigError::Invalid("x".to_string())).to_string(),
        "config error: invalid configuration: x"
    );
    assert_eq!(
        ClientError::Proto(ProtoError::HkdfFailed).to_string(),
        "protocol error: HKDF expand failed"
    );
    assert_eq!(ClientError::Io("x".to_string()).to_string(), "io error: x");
}

#[test]
fn log_levels_follow_the_flags() {
    assert_eq!(log_level(0), "info");
    assert_eq!(log_level(1), "debug");
    assert_eq!(log_level(2), "trace");
    assert_eq!(log_level(255), "trace");
}

#[test]
fn a_draw_becomes_a_master_key_as_it_came() {
    assert_eq!(fwknox::client::keygen::master_key_of(Some([9u8; 32])).unwrap(), [9u8; 32]);
    let err = fwknox::client::keygen::master_key_of(None).unwrap_err();
    assert!(err.to_string().contains("system random number generator failed"));
}

#[test]
fn a_packet_is_printed_in_base64() {
    assert_eq!(fwknox::client::packet::packet_text(b"fwknox!"), "Zndrbm94IQ==");
    assert_eq!(fwknox::client::packet::packet_text(b""), "");
}
