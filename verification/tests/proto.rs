//! The packet format, on concrete values.

use fwknox::net::{IpAddr, SocketAddr};
use fwknox::proto::aead::{generate_nonce, open, seal, KEY_LEN, NONCE_LEN, TAG_LEN};
use fwknox::proto::error::ProtoError;
use fwknox::proto::header::{Flags, Header, HEADER_LEN, PROTO_VERSION};
use fwknox::proto::hmac::{sign, verify, HMAC_LEN};
use fwknox::proto::kdf::{DerivedKeys, SubKey, SUBKEY_LEN};
use fwknox::proto::packet::{
    build_packet, build_packet_with_nonce, parse_packet, MAX_PACKET_LEN, MIN_PACKET_LEN,
};
use fwknox::proto::payload::SpaPayload;
use fwknox::proto::types::{PortProto, Protocol, SpaMessage};
use fwknox::proto::validate::{
    validate_against_clock, DEFAULT_MAX_AGE_SECS, DEFAULT_MAX_SKEW_SECS,
};

fn sample_payload() -> SpaPayload {
    SpaPayload {
        nonce: [0xCD; 16],
        timestamp: 1_700_000_000,
        username: "alice".to_string(),
        message: SpaMessage::Access {
            source_ip: "192.168.1.5".parse().unwrap(),
            ports: vec![PortProto::new(Protocol::Tcp, 22)],
        },
        client_timeout: Some(60),
    }
}

fn nat_payload() -> SpaPayload {
    SpaPayload {
        nonce: [0xCD; 16],
        timestamp: 1_700_000_000,
        username: "alice".to_string(),
        message: SpaMessage::Nat {
            source_ip: "10.0.0.1".parse().unwrap(),
            ports: vec![PortProto::new(Protocol::Tcp, 443)],
            nat_dest: "192.168.1.100:8443".parse().unwrap(),
        },
        client_timeout: None,
    }
}

fn payload_with(message: SpaMessage, client_timeout: Option<u32>) -> SpaPayload {
    SpaPayload {
        nonce: [7; 16],
        timestamp: -5,
        username: "bob smith".to_string(),
        message,
        client_timeout,
    }
}

/// The fields of a payload as the arrays that MessagePack holds.
type AccessArrays = ([u8; 16], i64, String, (String, String, Vec<(String, u16)>), Option<u32>);

fn access_arrays(username: &str) -> AccessArrays {
    (
        [0xAB; 16],
        1_700_000_000,
        username.to_string(),
        (
            "access".to_string(),
            "192.168.1.5".to_string(),
            vec![("tcp".to_string(), 22)],
        ),
        Some(60),
    )
}

// Errors.

#[test]
fn display_includes_byte_counts() {
    let err = ProtoError::PacketTooShort { got: 10, need: 64 };
    let s = err.to_string();
    assert!(s.contains("10"));
    assert!(s.contains("64"));
}

#[test]
fn display_includes_version() {
    let err = ProtoError::UnsupportedVersion(0xFF);
    assert!(err.to_string().contains("0xff"));
}

#[test]
fn every_error_has_its_text() {
    let texts = [
        (
            ProtoError::PacketTooShort { got: 10, need: 64 },
            "packet too short: got 10 bytes, need at least 64",
        ),
        (
            ProtoError::PacketTooLong { got: 1501, max: 1500 },
            "packet too long: got 1501 bytes, max 1500",
        ),
        (
            ProtoError::UnsupportedVersion(0x0a),
            "unsupported protocol version: 0xa",
        ),
        (ProtoError::ReservedFlag(0xf0), "reserved flag bit set: 0xf0"),
        (ProtoError::HmacFailed, "HMAC verification failed"),
        (ProtoError::AeadFailed, "AEAD decryption failed"),
        (
            ProtoError::PayloadDecode("x".to_string()),
            "payload decode error: x",
        ),
        (
            ProtoError::PayloadEncode("y".to_string()),
            "payload encode error: y",
        ),
        (ProtoError::HkdfFailed, "HKDF expand failed"),
        (ProtoError::InvalidField("z"), "invalid field: z"),
        (
            ProtoError::PacketTooOld { age_secs: 121, max_secs: 120 },
            "packet age 121s exceeds maximum 120s",
        ),
        (
            ProtoError::PacketInFuture { skew_secs: i64::MIN },
            "packet timestamp is -9223372036854775808s in the future",
        ),
    ];
    for (err, text) in texts {
        assert_eq!(err.to_string(), text);
    }
}

// Header.

#[test]
fn header_encode_decode_roundtrip() {
    let mut flags = Flags::new();
    flags.set(Flags::NAT);
    flags.set(Flags::CLIENT_TIMEOUT);
    let h = Header::new(flags, 184);
    let bytes = h.encode();
    assert_eq!(bytes[0], PROTO_VERSION);
    assert_eq!(bytes[1], Flags::NAT | Flags::CLIENT_TIMEOUT);
    assert_eq!(u16::from_be_bytes([bytes[2], bytes[3]]), 184);
    let decoded = Header::decode(&bytes).unwrap();
    assert_eq!(h, decoded);
}

#[test]
fn rejects_short_header() {
    let err = Header::decode(&[0x01, 0x00, 0x00]).unwrap_err();
    assert!(matches!(err, ProtoError::PacketTooShort { .. }));
}

#[test]
fn rejects_unknown_version() {
    let err = Header::decode(&[0xFF, 0x00, 0x00, 0x10]).unwrap_err();
    assert!(matches!(err, ProtoError::UnsupportedVersion(0xFF)));
}

#[test]
fn rejects_reserved_flag_bits() {
    let err = Header::decode(&[0x01, 0xF0, 0x00, 0x10]).unwrap_err();
    match err {
        ProtoError::ReservedFlag(b) => assert_eq!(b, 0xF0),
        other => panic!("expected ReservedFlag, got {other:?}"),
    }
}

#[test]
fn flags_contains_works() {
    let mut f = Flags::new();
    f.set(Flags::NAT);
    assert!(f.contains(Flags::NAT));
    assert!(!f.contains(Flags::COMMAND));
}

#[test]
fn header_bytes_are_big_endian() {
    let h = Header::new(Flags::from_raw_unchecked(0x0f), 0x1234);
    assert_eq!(h.encode(), [0x01, 0x0f, 0x12, 0x34]);
    let decoded = Header::decode(&[0x01, 0x0f, 0x12, 0x34, 0xff]).unwrap();
    assert_eq!(decoded, h);
    assert_eq!(decoded.flags.raw(), 0x0f);
    assert_eq!(decoded.encode(), [0x01, 0x0f, 0x12, 0x34]);
}

#[test]
fn from_raw_reports_only_the_reserved_bits() {
    match Flags::from_raw(0x93) {
        Err(ProtoError::ReservedFlag(bits)) => assert_eq!(bits, 0x90),
        other => panic!("expected ReservedFlag, got {other:?}"),
    }
    assert_eq!(Flags::from_raw(0x0f).unwrap().raw(), 0x0f);
}

// Keys.

#[test]
fn derives_two_distinct_subkeys() {
    let master = [0x42u8; 32];
    let keys = DerivedKeys::derive(&master).unwrap();
    assert_eq!(keys.enc.as_bytes().len(), SUBKEY_LEN);
    assert_eq!(keys.hmac.as_bytes().len(), SUBKEY_LEN);
    assert_ne!(keys.enc.as_bytes(), keys.hmac.as_bytes());
}

#[test]
fn deterministic_for_same_master() {
    let master = [0x11u8; 32];
    let a = DerivedKeys::derive(&master).unwrap();
    let b = DerivedKeys::derive(&master).unwrap();
    assert_eq!(a.enc.as_bytes(), b.enc.as_bytes());
    assert_eq!(a.hmac.as_bytes(), b.hmac.as_bytes());
}

#[test]
fn different_masters_give_different_keys() {
    let a = DerivedKeys::derive(&[0x00u8; 32]).unwrap();
    let b = DerivedKeys::derive(&[0xFFu8; 32]).unwrap();
    assert_ne!(a.enc.as_bytes(), b.enc.as_bytes());
    assert_ne!(a.hmac.as_bytes(), b.hmac.as_bytes());
}

#[test]
fn debug_does_not_leak_bytes() {
    let key = SubKey::new([0xAB; SUBKEY_LEN]);
    let s = key.debug_text();
    assert!(!s.contains("ab"));
    assert!(s.contains("redacted"));
}

#[test]
fn wiped_keys_are_zero() {
    let mut keys = DerivedKeys::derive(&[0x42u8; 32]).unwrap();
    keys.wipe();
    assert_eq!(keys.enc.as_bytes(), &[0u8; 32][..]);
    assert_eq!(keys.hmac.as_bytes(), &[0u8; 32][..]);
}

#[test]
fn subkey_is_the_hkdf_output() {
    // HKDF by hand: extract with the salt, then one block of expansion.
    let master = [0x42u8; 32];
    let prk = sign(b"fwknox-enc-v1", &master);
    let mut block = b"encryption".to_vec();
    block.push(1);
    let okm = sign(&prk, &block);
    let keys = DerivedKeys::derive(&master).unwrap();
    assert_eq!(keys.enc.as_bytes(), &okm[..]);
    let prk = sign(b"fwknox-hmac-v1", &master);
    let mut block = b"authentication".to_vec();
    block.push(1);
    let okm = sign(&prk, &block);
    assert_eq!(keys.hmac.as_bytes(), &okm[..]);
}

// HMAC.

#[test]
fn sign_then_verify_succeeds() {
    let key = [0x42u8; 32];
    let msg = b"hello fwknox";
    let tag = sign(&key, msg);
    verify(&key, msg, &tag).unwrap();
}

#[test]
fn verify_with_wrong_key_fails() {
    let key = [0x42u8; 32];
    let bad = [0x01u8; 32];
    let tag = sign(&key, b"x");
    let err = verify(&bad, b"x", &tag).unwrap_err();
    assert!(matches!(err, ProtoError::HmacFailed));
}

#[test]
fn verify_with_tampered_message_fails() {
    let key = [0x42u8; 32];
    let tag = sign(&key, b"hello");
    let err = verify(&key, b"hellp", &tag).unwrap_err();
    assert!(matches!(err, ProtoError::HmacFailed));
}

#[test]
fn verify_rejects_short_tag() {
    let key = [0x42u8; 32];
    let err = verify(&key, b"x", &[0; 16]).unwrap_err();
    assert!(matches!(err, ProtoError::HmacFailed));
}

#[test]
fn known_answer_for_zero_key_zero_message() {
    let tag = sign(&[0u8; 32], b"");
    assert_eq!(tag.len(), HMAC_LEN);
    assert!(tag.iter().any(|b| *b != 0));
}

#[test]
fn hmac_known_answer() {
    // The second test case of RFC 4231.
    let tag = sign(b"Jefe", b"what do ya want for nothing?");
    let expected = [
        0x5b, 0xdc, 0xc1, 0x46, 0xbf, 0x60, 0x75, 0x4e, 0x6a, 0x04, 0x24, 0x26, 0x08, 0x95, 0x75,
        0xc7, 0x5a, 0x00, 0x3f, 0x08, 0x9d, 0x27, 0x39, 0x83, 0x9d, 0xec, 0x58, 0xb9, 0x64, 0xec,
        0x38, 0x43,
    ];
    assert_eq!(tag, expected);
}

// AEAD.

#[test]
fn seal_then_open_roundtrip() {
    let key = [0x11u8; KEY_LEN];
    let nonce = [0x22u8; NONCE_LEN];
    let aad = b"header bytes";
    let pt = b"top secret message";
    let ct = seal(&key, &nonce, aad, pt).unwrap();
    assert_eq!(ct.len(), pt.len() + TAG_LEN);
    let pt2 = open(&key, &nonce, aad, &ct).unwrap();
    assert_eq!(pt2, pt);
}

#[test]
fn open_with_wrong_key_fails() {
    let nonce = [0u8; NONCE_LEN];
    let ct = seal(&[0x11; KEY_LEN], &nonce, b"", b"hello").unwrap();
    let err = open(&[0x22; KEY_LEN], &nonce, b"", &ct).unwrap_err();
    assert!(matches!(err, ProtoError::AeadFailed));
}

#[test]
fn open_with_wrong_nonce_fails() {
    let key = [0x11; KEY_LEN];
    let ct = seal(&key, &[0u8; NONCE_LEN], b"", b"hello").unwrap();
    let err = open(&key, &[1u8; NONCE_LEN], b"", &ct).unwrap_err();
    assert!(matches!(err, ProtoError::AeadFailed));
}

#[test]
fn open_with_wrong_aad_fails() {
    let key = [0x11; KEY_LEN];
    let nonce = [0u8; NONCE_LEN];
    let ct = seal(&key, &nonce, b"hdr1", b"hello").unwrap();
    let err = open(&key, &nonce, b"hdr2", &ct).unwrap_err();
    assert!(matches!(err, ProtoError::AeadFailed));
}

#[test]
fn open_with_tampered_ciphertext_fails() {
    let key = [0x11; KEY_LEN];
    let nonce = [0u8; NONCE_LEN];
    let mut ct = seal(&key, &nonce, b"", b"hello").unwrap();
    ct[0] ^= 0x80;
    let err = open(&key, &nonce, b"", &ct).unwrap_err();
    assert!(matches!(err, ProtoError::AeadFailed));
}

#[test]
fn rejects_wrong_key_length() {
    let nonce = [0u8; NONCE_LEN];
    let err = seal(&[0u8; 16], &nonce, b"", b"x").unwrap_err();
    assert!(matches!(err, ProtoError::AeadFailed));
}

#[test]
fn open_rejects_wrong_key_length() {
    let nonce = [0u8; NONCE_LEN];
    let err = open(&[0u8; 16], &nonce, b"", &[0u8; 32]).unwrap_err();
    assert!(matches!(err, ProtoError::AeadFailed));
}

#[test]
fn open_rejects_short_input() {
    let key = [0x11; KEY_LEN];
    let nonce = [0u8; NONCE_LEN];
    let err = open(&key, &nonce, b"", &[0u8; 8]).unwrap_err();
    assert!(matches!(err, ProtoError::AeadFailed));
}

#[test]
fn generate_nonce_is_nonzero_and_correct_length() {
    let n = generate_nonce().unwrap();
    assert_eq!(n.len(), NONCE_LEN);
    assert!(n.iter().any(|b| *b != 0));
}

#[test]
fn aead_known_answer() {
    // The test case of AES-256-GCM with a zero key, a zero nonce and one zero block.
    let ct = seal(&[0u8; 32], &[0u8; 12], b"", &[0u8; 16]).unwrap();
    let expected = [
        0xce, 0xa7, 0x40, 0x3d, 0x4d, 0x60, 0x6b, 0x6e, 0x07, 0x4e, 0xc5, 0xd3, 0xba, 0xf3, 0x9d,
        0x18, 0xd0, 0xd1, 0xc8, 0xa7, 0x99, 0x99, 0x6b, 0xf0, 0x26, 0x5b, 0x98, 0xb5, 0xd4, 0x8a,
        0xb9, 0x19,
    ];
    assert_eq!(ct, expected);
}

// Values.

#[test]
fn protocol_display() {
    assert_eq!(Protocol::Tcp.to_string(), "tcp");
    assert_eq!(Protocol::Udp.to_string(), "udp");
}

#[test]
fn portproto_display() {
    assert_eq!(PortProto::new(Protocol::Tcp, 22).to_string(), "tcp/22");
}

#[test]
fn spa_message_access_serializes() {
    let p = payload_with(
        SpaMessage::Access {
            source_ip: "192.168.1.5".parse().unwrap(),
            ports: vec![PortProto::new(Protocol::Tcp, 22)],
        },
        None,
    );
    let bytes = p.encode().expect("serialize");
    let back = SpaPayload::decode(&bytes).expect("deserialize");
    assert_eq!(p.message, back.message);
}

#[test]
fn spa_message_nat_roundtrip() {
    let p = payload_with(
        SpaMessage::Nat {
            source_ip: "10.0.0.1".parse().unwrap(),
            ports: vec![PortProto::new(Protocol::Tcp, 443)],
            nat_dest: "192.168.1.100:8443".parse().unwrap(),
        },
        None,
    );
    let bytes = p.encode().unwrap();
    let back = SpaPayload::decode(&bytes).unwrap();
    assert_eq!(p.message, back.message);
}

#[test]
fn spa_message_command_roundtrip() {
    let p = payload_with(
        SpaMessage::Command {
            source_ip: "10.0.0.1".parse().unwrap(),
            command: "/bin/true".to_string(),
        },
        None,
    );
    let bytes = p.encode().unwrap();
    let back = SpaPayload::decode(&bytes).unwrap();
    assert_eq!(p.message, back.message);
}

#[test]
fn local_nat_and_ipv6_roundtrip() {
    let p = payload_with(
        SpaMessage::LocalNat {
            source_ip: "2001:db8::1".parse().unwrap(),
            ports: vec![
                PortProto::new(Protocol::Udp, 53),
                PortProto::new(Protocol::Tcp, 65535),
            ],
            nat_dest: "[fe80::1%7]:8080".parse().unwrap(),
        },
        Some(u32::MAX),
    );
    let back = SpaPayload::decode(&p.encode().unwrap()).unwrap();
    assert_eq!(p, back);
    match back.message {
        SpaMessage::LocalNat { nat_dest, .. } => {
            assert_eq!(nat_dest.to_string(), "[fe80::1%7]:8080");
            assert!(matches!(nat_dest, SocketAddr::V6 { port: 8080, scope_id: 7, .. }));
        }
        other => panic!("expected LocalNat, got {other:?}"),
    }
}

// Payload.

#[test]
fn roundtrip_encode_decode() {
    let mut payload = sample_payload();
    payload.nonce = [0xAB; 16];
    let bytes = payload.encode().unwrap();
    let decoded = SpaPayload::decode(&bytes).unwrap();
    assert_eq!(payload, decoded);
}

#[test]
fn rejects_long_username() {
    let bytes =
        rmp_serde::to_vec(&access_arrays(&"a".repeat(SpaPayload::MAX_USERNAME_LEN + 1))).unwrap();
    let err = SpaPayload::decode(&bytes).unwrap_err();
    assert!(matches!(err, ProtoError::InvalidField("username too long")));
}

#[test]
fn rejects_username_with_control_bytes() {
    let bytes = rmp_serde::to_vec(&access_arrays("alice\u{0007}")).unwrap();
    let err = SpaPayload::decode(&bytes).unwrap_err();
    assert!(matches!(err, ProtoError::InvalidField(_)));
}

#[test]
fn username_length_is_counted_in_bytes() {
    let longest = "a".repeat(SpaPayload::MAX_USERNAME_LEN);
    let bytes = rmp_serde::to_vec(&access_arrays(&longest)).unwrap();
    assert_eq!(SpaPayload::decode(&bytes).unwrap().username, longest);
    // 33 characters of two bytes each are too long; 32 are merely not ASCII.
    let bytes = rmp_serde::to_vec(&access_arrays(&"\u{e9}".repeat(33))).unwrap();
    assert!(matches!(
        SpaPayload::decode(&bytes).unwrap_err(),
        ProtoError::InvalidField("username too long")
    ));
    let bytes = rmp_serde::to_vec(&access_arrays(&"\u{e9}".repeat(32))).unwrap();
    assert!(matches!(
        SpaPayload::decode(&bytes).unwrap_err(),
        ProtoError::InvalidField("username contains control bytes")
    ));
    // A space and the tilde are in order; the next character is not.
    let bytes = rmp_serde::to_vec(&access_arrays("a ~")).unwrap();
    assert!(SpaPayload::decode(&bytes).is_ok());
    let bytes = rmp_serde::to_vec(&access_arrays("a\u{7f}")).unwrap();
    assert!(SpaPayload::decode(&bytes).is_err());
}

#[test]
fn rejects_garbage_bytes() {
    let err = SpaPayload::decode(&[0xFF, 0xFE, 0xFD]).unwrap_err();
    assert!(matches!(err, ProtoError::PayloadDecode(_)));
}

#[test]
fn encoded_size_under_budget() {
    let bytes = sample_payload().encode().unwrap();
    assert!(bytes.len() < 200, "encoded len = {}", bytes.len());
}

#[test]
fn payload_is_an_array_of_its_fields() {
    let mut payload = sample_payload();
    payload.nonce = [0xAB; 16];
    let bytes = payload.encode().unwrap();
    assert_eq!(bytes, rmp_serde::to_vec(&access_arrays("alice")).unwrap());
    // An array of five, then an array of sixteen numbers.
    assert_eq!(&bytes[..6], &[0x95, 0xdc, 0x00, 0x10, 0xcc, 0xab]);
}

#[test]
fn decode_rejects_unknown_names_and_addresses() {
    let mut arrays = access_arrays("alice");
    arrays.3 .0 = "open".to_string();
    match SpaPayload::decode(&rmp_serde::to_vec(&arrays).unwrap()) {
        Err(ProtoError::PayloadDecode(e)) => assert_eq!(
            e,
            "unknown variant `open`, expected one of `access`, `nat`, `local_nat`, `command`"
        ),
        other => panic!("expected PayloadDecode, got {other:?}"),
    }
    let mut arrays = access_arrays("alice");
    arrays.3 .1 = "192.168.1.256".to_string();
    match SpaPayload::decode(&rmp_serde::to_vec(&arrays).unwrap()) {
        Err(ProtoError::PayloadDecode(e)) => assert_eq!(e, "invalid IP address syntax"),
        other => panic!("expected PayloadDecode, got {other:?}"),
    }
    let mut arrays = access_arrays("alice");
    arrays.3 .2.push(("sctp".to_string(), 1));
    match SpaPayload::decode(&rmp_serde::to_vec(&arrays).unwrap()) {
        Err(ProtoError::PayloadDecode(e)) => {
            assert_eq!(e, "unknown variant `sctp`, expected `tcp` or `udp`");
        }
        other => panic!("expected PayloadDecode, got {other:?}"),
    }
}

#[test]
fn payload_too_large_is_not_encoded() {
    let mut payload = sample_payload();
    payload.message = SpaMessage::Command {
        source_ip: "10.0.0.1".parse().unwrap(),
        command: "x".repeat(SpaPayload::MAX_ENCODED_LEN),
    };
    let err = payload.encode().unwrap_err();
    assert!(matches!(err, ProtoError::InvalidField("payload too large")));
    let err = build_packet(&payload, &[0x42; 32]).unwrap_err();
    assert!(matches!(err, ProtoError::InvalidField("payload too large")));
}

// Packet.

#[test]
fn build_then_parse_roundtrip() {
    let key = [0x42u8; 32];
    let payload = sample_payload();
    let wire = build_packet(&payload, &key).unwrap();
    let back = parse_packet(&wire, &key).unwrap();
    assert_eq!(payload, back);
}

#[test]
fn build_sets_correct_flags_for_nat() {
    let key = [0x42u8; 32];
    let wire = build_packet(&nat_payload(), &key).unwrap();
    let header = Header::decode(&wire[..HEADER_LEN]).unwrap();
    assert!(header.flags.contains(Flags::NAT));
    assert!(!header.flags.contains(Flags::CLIENT_TIMEOUT));
}

#[test]
fn parse_with_wrong_key_fails_on_hmac() {
    let payload = sample_payload();
    let wire = build_packet(&payload, &[0x42; 32]).unwrap();
    let err = parse_packet(&wire, &[0x00; 32]).unwrap_err();
    assert!(matches!(err, ProtoError::HmacFailed));
}

#[test]
fn parse_rejects_truncated_packet() {
    let payload = sample_payload();
    let wire = build_packet(&payload, &[0x42; 32]).unwrap();
    let truncated = &wire[..wire.len() - 1];
    let err = parse_packet(truncated, &[0x42; 32]).unwrap_err();
    assert!(matches!(err, ProtoError::HmacFailed));
}

/// Signs a changed packet anew, so that the tag does not give the change away.
fn resign(wire: &mut [u8], master_key: &[u8]) {
    let keys = DerivedKeys::derive(master_key).unwrap();
    let signed_len = wire.len() - HMAC_LEN;
    let new_tag = sign(keys.hmac.as_bytes(), &wire[..signed_len]);
    wire[signed_len..].copy_from_slice(&new_tag);
}

#[test]
fn parse_rejects_tampered_header_via_aad() {
    let payload = sample_payload();
    let mut wire = build_packet(&payload, &[0x42; 32]).unwrap();
    wire[1] ^= Flags::COMMAND;
    resign(&mut wire, &[0x42; 32]);
    let err = parse_packet(&wire, &[0x42; 32]).unwrap_err();
    assert!(matches!(err, ProtoError::AeadFailed));
}

#[test]
fn parse_rejects_tampered_ciphertext_at_hmac() {
    let payload = sample_payload();
    let mut wire = build_packet(&payload, &[0x42; 32]).unwrap();
    let ct_byte_index = HEADER_LEN + NONCE_LEN;
    wire[ct_byte_index] ^= 0x80;
    let err = parse_packet(&wire, &[0x42; 32]).unwrap_err();
    assert!(
        matches!(err, ProtoError::HmacFailed),
        "expected HmacFailed (proves HMAC covers ciphertext), got {err:?}"
    );
}

#[test]
fn parse_rejects_oversize_packet() {
    let mut wire = vec![0u8; MAX_PACKET_LEN + 1];
    wire[0] = 0x01;
    let err = parse_packet(&wire, &[0x42; 32]).unwrap_err();
    assert!(matches!(err, ProtoError::PacketTooLong { .. }));
}

#[test]
fn parse_rejects_short_packet() {
    let err = parse_packet(&[0u8; 10], &[0x42; 32]).unwrap_err();
    assert!(matches!(err, ProtoError::PacketTooShort { .. }));
}

#[test]
fn nat_payload_roundtrip() {
    let key = [0x99u8; 32];
    let p = nat_payload();
    let wire = build_packet(&p, &key).unwrap();
    let back = parse_packet(&wire, &key).unwrap();
    assert_eq!(p, back);
}

#[test]
fn packet_length_limits() {
    assert_eq!(MIN_PACKET_LEN, 64);
    match parse_packet(&[0u8; 63], &[0x42; 32]) {
        Err(ProtoError::PacketTooShort { got, need }) => assert_eq!((got, need), (63, 64)),
        other => panic!("expected PacketTooShort, got {other:?}"),
    }
    assert!(matches!(
        parse_packet(&[0u8; 64], &[0x42; 32]),
        Err(ProtoError::HmacFailed)
    ));
    assert!(matches!(
        parse_packet(&[0u8; 1500], &[0x42; 32]),
        Err(ProtoError::HmacFailed)
    ));
}

#[test]
fn packet_is_laid_out_as_documented() {
    let key = [0x42u8; 32];
    let nonce = [9u8; 12];
    let payload = sample_payload();
    let plaintext = payload.encode().unwrap();
    let wire = build_packet_with_nonce(&payload, &key, &nonce).unwrap();
    assert_eq!(wire.len(), 4 + 12 + plaintext.len() + 16 + 32);
    let header = Header::new(
        Flags::from_raw(Flags::CLIENT_TIMEOUT).unwrap(),
        u16::try_from(plaintext.len() + 16).unwrap(),
    );
    assert_eq!(wire[..4], header.encode());
    assert_eq!(wire[4..16], nonce);
    let keys = DerivedKeys::derive(&key).unwrap();
    let sealed = seal(keys.enc.as_bytes(), &nonce, &wire[..4], &plaintext).unwrap();
    assert_eq!(wire[16..wire.len() - 32], sealed[..]);
    let tag = sign(keys.hmac.as_bytes(), &wire[..wire.len() - 32]);
    assert_eq!(wire[wire.len() - 32..], tag);
}

#[test]
fn a_signed_packet_with_a_bad_header_is_told_apart() {
    let key = [0x42u8; 32];
    let mut wire = build_packet(&sample_payload(), &key).unwrap();
    wire[0] = 2;
    resign(&mut wire, &key);
    assert!(matches!(
        parse_packet(&wire, &key),
        Err(ProtoError::UnsupportedVersion(2))
    ));
    let mut wire = build_packet(&sample_payload(), &key).unwrap();
    wire[3] ^= 1;
    resign(&mut wire, &key);
    assert!(matches!(
        parse_packet(&wire, &key),
        Err(ProtoError::InvalidField("payload_len mismatch"))
    ));
}

#[test]
fn flags_that_do_not_fit_the_payload_are_rejected() {
    // Seal a payload under a header whose flags announce another kind.
    let key = [0x42u8; 32];
    let keys = DerivedKeys::derive(&key).unwrap();
    let plaintext = sample_payload().encode().unwrap();
    let header = Header::new(
        Flags::from_raw(Flags::ASYMMETRIC).unwrap(),
        u16::try_from(plaintext.len() + TAG_LEN).unwrap(),
    )
    .encode();
    let nonce = [3u8; 12];
    let mut wire = header.to_vec();
    wire.extend_from_slice(&nonce);
    wire.extend(seal(keys.enc.as_bytes(), &nonce, &header, &plaintext).unwrap());
    wire.extend([0u8; 32]);
    resign(&mut wire, &key);
    assert!(matches!(
        parse_packet(&wire, &key),
        Err(ProtoError::InvalidField("flag/payload mismatch"))
    ));
}

#[test]
fn a_payload_with_a_bad_username_is_built_and_rejected() {
    let key = [0x42u8; 32];
    let mut payload = sample_payload();
    payload.username = "tab\there".to_string();
    let wire = build_packet(&payload, &key).unwrap();
    assert!(matches!(
        parse_packet(&wire, &key),
        Err(ProtoError::InvalidField("username contains control bytes"))
    ));
}

// Clock.

fn payload_at(ts: i64) -> SpaPayload {
    SpaPayload {
        nonce: [0u8; 16],
        timestamp: ts,
        username: "u".into(),
        message: SpaMessage::Access {
            source_ip: "10.0.0.1".parse().unwrap(),
            ports: vec![PortProto::new(Protocol::Tcp, 22)],
        },
        client_timeout: None,
    }
}

#[test]
fn accepts_fresh_packet() {
    let p = payload_at(1_000_000);
    validate_against_clock(&p, 1_000_001, DEFAULT_MAX_AGE_SECS, DEFAULT_MAX_SKEW_SECS).unwrap();
}

#[test]
fn accepts_packet_within_skew_window() {
    let p = payload_at(1_000_010);
    validate_against_clock(&p, 1_000_000, DEFAULT_MAX_AGE_SECS, DEFAULT_MAX_SKEW_SECS).unwrap();
}

#[test]
fn rejects_old_packet() {
    let p = payload_at(1_000_000);
    let err = validate_against_clock(
        &p,
        1_000_000 + DEFAULT_MAX_AGE_SECS + 1,
        DEFAULT_MAX_AGE_SECS,
        DEFAULT_MAX_SKEW_SECS,
    )
    .unwrap_err();
    match err {
        ProtoError::PacketTooOld { age_secs, max_secs } => {
            assert_eq!(age_secs, DEFAULT_MAX_AGE_SECS + 1);
            assert_eq!(max_secs, DEFAULT_MAX_AGE_SECS);
        }
        other => panic!("expected PacketTooOld, got {other:?}"),
    }
}

#[test]
fn rejects_packet_too_far_in_future() {
    let p = payload_at(2_000_000);
    let err = validate_against_clock(
        &p,
        2_000_000 - DEFAULT_MAX_SKEW_SECS - 1,
        DEFAULT_MAX_AGE_SECS,
        DEFAULT_MAX_SKEW_SECS,
    )
    .unwrap_err();
    assert!(matches!(err, ProtoError::PacketInFuture { .. }));
}

#[test]
fn window_bounds_are_accepted() {
    let p = payload_at(1000);
    assert!(validate_against_clock(&p, 1120, 120, 30).is_ok());
    assert!(validate_against_clock(&p, 970, 120, 30).is_ok());
    match validate_against_clock(&p, 969, 120, 30) {
        Err(ProtoError::PacketInFuture { skew_secs }) => assert_eq!(skew_secs, 31),
        other => panic!("expected PacketInFuture, got {other:?}"),
    }
}

#[test]
fn extreme_timestamps_are_rejected() {
    match validate_against_clock(&payload_at(i64::MIN), i64::MAX, 120, 30) {
        Err(ProtoError::PacketTooOld { age_secs, max_secs }) => {
            assert_eq!((age_secs, max_secs), (i64::MAX, 120));
        }
        other => panic!("expected PacketTooOld, got {other:?}"),
    }
    match validate_against_clock(&payload_at(i64::MAX), i64::MIN, 120, 30) {
        Err(ProtoError::PacketInFuture { skew_secs }) => assert_eq!(skew_secs, i64::MAX),
        other => panic!("expected PacketInFuture, got {other:?}"),
    }
}

#[test]
fn addresses_write_and_read_as_text() {
    let ip: IpAddr = "192.168.1.5".parse().unwrap();
    assert_eq!(ip, IpAddr::v4(192, 168, 1, 5));
    assert_eq!(ip.to_string(), "192.168.1.5");
    assert_eq!(IpAddr::V6(1).to_string(), "::1");
    assert_eq!("::1".parse::<IpAddr>(), Ok(IpAddr::V6(1)));
    assert_eq!("1.2.3".parse::<IpAddr>(), Err("invalid IP address syntax"));
    assert_eq!(
        "1.2.3.4".parse::<SocketAddr>(),
        Err("invalid socket address syntax")
    );
    let addr: SocketAddr = "10.0.0.255:65535".parse().unwrap();
    assert_eq!(addr, SocketAddr::V4 { ip: 0x0a00_00ff, port: 65535 });
    assert_eq!(addr.to_string(), "10.0.0.255:65535");
}

#[test]
fn a_draw_becomes_a_nonce_as_it_came() {
    assert_eq!(fwknox::proto::aead::nonce_of(Some([7u8; 12])).unwrap(), [7u8; 12]);
    assert!(matches!(
        fwknox::proto::aead::nonce_of(None),
        Err(fwknox::proto::error::ProtoError::AeadFailed)
    ));
}
