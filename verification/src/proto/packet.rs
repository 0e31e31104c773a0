//! Building and reading packets.
//!
//! Building encrypts and then signs; reading checks the signature before anything
//! else, so that a packet without a valid tag costs little.

use crate::outcome;
use crate::proto::aead;
use crate::proto::aead::{NONCE_LEN, TAG_LEN};
use crate::proto::error::{ProtoError, ProtoErrorView};
use crate::proto::header;
use crate::proto::header::{Flags, Header, HEADER_LEN};
use crate::proto::hmac;
use crate::proto::hmac::{HMAC_LEN, MAX_INPUT_LEN};
use crate::proto::kdf;
use crate::proto::kdf::DerivedKeys;
use crate::proto::payload;
use crate::proto::payload::{SpaPayload, SpaPayloadView};
use crate::proto::types::{SpaMessage, SpaMessageView};
use vstd::prelude::*;
use vstd::slice::slice_subrange;

verus! {

/// The longest packet in bytes, which fits in one datagram.
pub const MAX_PACKET_LEN: usize = 1500;

/// The shortest packet in bytes: header, nonce, GCM tag and HMAC tag.
pub const MIN_PACKET_LEN: usize = HEADER_LEN + NONCE_LEN + TAG_LEN + HMAC_LEN;

/// The flag bits that belong to a request.
pub open spec fn flag_bits(message: SpaMessageView, has_client_timeout: bool) -> u8 {
    let kind: u8 = match message {
        SpaMessageView::Access { .. } => 0,
        SpaMessageView::Nat { .. } | SpaMessageView::LocalNat { .. } => Flags::NAT,
        SpaMessageView::Command { .. } => Flags::COMMAND,
    };
    kind | (if has_client_timeout {
        Flags::CLIENT_TIMEOUT
    } else {
        0
    })
}

/// The header of the packet that carries an encoded payload.
pub open spec fn packet_header(p: SpaPayloadView, plaintext: Seq<u8>) -> Header {
    Header {
        version: header::PROTO_VERSION,
        flags: Flags { bits: flag_bits(p.message, p.client_timeout is Some) },
        payload_len: (plaintext.len() + TAG_LEN) as u16,
    }
}

/// A packet from its parts: header, nonce and ciphertext, and behind them their tag.
pub open spec fn assembled(head: Seq<u8>, nonce: Seq<u8>, ciphertext: Seq<u8>, key: Seq<u8>) -> Seq<
    u8,
> {
    head + nonce + ciphertext + hmac::hmac_sha256(key, head + nonce + ciphertext)
}

/// The packet that carries a payload under a master key and a nonce, or the error
/// where there is none.
pub open spec fn built(p: SpaPayloadView, master: Seq<u8>, nonce: Seq<u8>) -> Result<
    Seq<u8>,
    ProtoErrorView,
> {
    match payload::encoded(p) {
        Err(e) => Err(e),
        Ok(plaintext) => {
            let head = header::header_bytes(packet_header(p, plaintext));
            match aead::sealed(kdf::enc_key(master), nonce, head, plaintext) {
                Err(e) => Err(e),
                Ok(ciphertext) => Ok(assembled(head, nonce, ciphertext, kdf::hmac_key(master))),
            }
        },
    }
}

/// What a signed part holds, once its tag has been checked.
pub open spec fn parsed_signed(signed: Seq<u8>, enc_key: Seq<u8>) -> Result<
    SpaPayloadView,
    ProtoErrorView,
> {
    let head = signed.take(HEADER_LEN as int);
    let nonce = signed.subrange(HEADER_LEN as int, HEADER_LEN + NONCE_LEN);
    let ciphertext = signed.skip(HEADER_LEN + NONCE_LEN);
    match header::header_of(head) {
        Err(e) => Err(e),
        Ok(h) => if ciphertext.len() != h.payload_len {
            Err(ProtoErrorView::InvalidField("payload_len mismatch"@))
        } else {
            match aead::opened(enc_key, nonce, head, ciphertext) {
                Err(e) => Err(e),
                Ok(plaintext) => match payload::decoded(plaintext) {
                    Err(e) => Err(e),
                    Ok(p) => if h.flags.bits != flag_bits(p.message, p.client_timeout is Some) {
                        Err(ProtoErrorView::InvalidField("flag/payload mismatch"@))
                    } else {
                        Ok(p)
                    },
                },
            }
        },
    }
}

/// The part of a packet that its tag covers.
pub open spec fn signed_part(wire: Seq<u8>) -> Seq<u8> {
    wire.take(wire.len() - HMAC_LEN)
}

/// The tag at the end of a packet.
pub open spec fn tag_part(wire: Seq<u8>) -> Seq<u8> {
    wire.skip(wire.len() - HMAC_LEN)
}

/// Whether a packet has a valid length.
pub open spec fn length_fits(wire: Seq<u8>) -> bool {
    MIN_PACKET_LEN <= wire.len() <= MAX_PACKET_LEN
}

/// Whether a packet has a valid length and ends in the tag of its signed part under
/// the keys that belong to a master key.
pub open spec fn authentic(wire: Seq<u8>, master: Seq<u8>) -> bool {
    length_fits(wire) && tag_part(wire) == hmac::hmac_sha256(
        kdf::hmac_key(master),
        signed_part(wire),
    )
}

/// The payload that a packet carries under a master key, or the error where it
/// carries none: length first, then the tag, then all the rest.
pub open spec fn parsed(wire: Seq<u8>, master: Seq<u8>) -> Result<SpaPayloadView, ProtoErrorView> {
    if wire.len() < MIN_PACKET_LEN {
        Err(ProtoErrorView::PacketTooShort(wire.len(), MIN_PACKET_LEN as nat))
    } else if wire.len() > MAX_PACKET_LEN {
        Err(ProtoErrorView::PacketTooLong(wire.len(), MAX_PACKET_LEN as nat))
    } else if !authentic(wire, master) {
        Err(ProtoErrorView::HmacFailed)
    } else {
        parsed_signed(signed_part(wire), kdf::enc_key(master))
    }
}

/// What reading a packet that was built from `p` gives: `p` itself, unless its
/// structure is not valid.
pub open spec fn read_back(p: SpaPayloadView) -> Result<SpaPayloadView, ProtoErrorView> {
    match payload::structure_error(p) {
        Some(e) => Err(e),
        None => Ok(p),
    }
}

/// The flags that belong to a request.
fn derive_flags(message: &SpaMessage, has_client_timeout: bool) -> (r: Flags)
    ensures
        r.bits == flag_bits(message@, has_client_timeout),
{
    let mut flags = Flags::new();
    match message {
        SpaMessage::Access { .. } => {},
        SpaMessage::Nat { .. } | SpaMessage::LocalNat { .. } => flags.set(Flags::NAT),
        SpaMessage::Command { .. } => flags.set(Flags::COMMAND),
    }
    assert(0u8 | 1u8 == 1u8) by (bit_vector);
    assert(0u8 | 4u8 == 4u8) by (bit_vector);
    assert(0u8 | 0u8 == 0u8) by (bit_vector);
    assert(1u8 | 0u8 == 1u8) by (bit_vector);
    assert(4u8 | 0u8 == 4u8) by (bit_vector);
    if has_client_timeout {
        flags.set(Flags::CLIENT_TIMEOUT);
    }
    flags
}

/// Checks that the flags of a header are those that belong to the payload.
fn check_flags_match_payload(flags: Flags, payload: &SpaPayload) -> (r: Result<(), ProtoError>)
    ensures
        r is Ok <==> flags.bits == flag_bits(payload@.message, payload@.client_timeout is Some),
        r is Err ==> r->Err_0@ == ProtoErrorView::InvalidField("flag/payload mismatch"@),
{
    let expected = derive_flags(&payload.message, payload.client_timeout.is_some());
    if flags.raw() != expected.raw() {
        return Err(ProtoError::InvalidField("flag/payload mismatch"));
    }
    Ok(())
}

/// The flags that belong to a request are all defined.
proof fn lemma_flags_defined(message: SpaMessageView, has_client_timeout: bool)
    ensures
        header::reserved_bits(flag_bits(message, has_client_timeout)) == 0,
{
    assert((0u8 | 0u8) & !0b1111u8 == 0) by (bit_vector);
    assert((0u8 | 2u8) & !0b1111u8 == 0) by (bit_vector);
    assert((1u8 | 0u8) & !0b1111u8 == 0) by (bit_vector);
    assert((1u8 | 2u8) & !0b1111u8 == 0) by (bit_vector);
    assert((4u8 | 0u8) & !0b1111u8 == 0) by (bit_vector);
    assert((4u8 | 2u8) & !0b1111u8 == 0) by (bit_vector);
}

/// The parts of an assembled packet are found where they are looked for.
proof fn lemma_parts(head: Seq<u8>, nonce: Seq<u8>, ciphertext: Seq<u8>, key: Seq<u8>)
    requires
        head.len() == HEADER_LEN,
        nonce.len() == NONCE_LEN,
        hmac::hmac_sha256(key, head + nonce + ciphertext).len() == HMAC_LEN,
    ensures
        signed_part(assembled(head, nonce, ciphertext, key)) == head + nonce + ciphertext,
        tag_part(assembled(head, nonce, ciphertext, key)) == hmac::hmac_sha256(
            key,
            head + nonce + ciphertext,
        ),
        (head + nonce + ciphertext).take(HEADER_LEN as int) == head,
        (head + nonce + ciphertext).subrange(HEADER_LEN as int, HEADER_LEN + NONCE_LEN) == nonce,
        (head + nonce + ciphertext).skip(HEADER_LEN + NONCE_LEN) == ciphertext,
{
    let signed = head + nonce + ciphertext;
    let wire = assembled(head, nonce, ciphertext, key);
    assert(signed_part(wire) =~= signed);
    assert(tag_part(wire) =~= hmac::hmac_sha256(key, signed));
    assert(signed.take(HEADER_LEN as int) =~= head);
    assert(signed.subrange(HEADER_LEN as int, HEADER_LEN + NONCE_LEN) =~= nonce);
    assert(signed.skip(HEADER_LEN + NONCE_LEN) =~= ciphertext);
}

/// Appends the bytes of a slice.
fn append_bytes(v: &mut Vec<u8>, bytes: &[u8])
    ensures
        final(v)@ == old(v)@ + bytes@,
{
    v.extend_from_slice(bytes);
    assert(v@ =~= old(v)@ + bytes@);
}

/// Seals and signs an encoded payload. Reading the packet gives what the encoded
/// payload decodes to, where the flags belong to it.
fn seal_packet(
    flags: Flags,
    plaintext: &[u8],
    master_key: &[u8],
    nonce: &[u8; 12],
) -> (r: Result<Vec<u8>, ProtoError>)
    requires
        plaintext@.len() <= SpaPayload::MAX_ENCODED_LEN,
        master_key@.len() <= MAX_INPUT_LEN,
        header::reserved_bits(flags.bits) == 0,
    ensures
        r is Ok,
        ({
            let head = header::header_bytes(
                Header {
                    version: header::PROTO_VERSION,
                    flags,
                    payload_len: (plaintext@.len() + TAG_LEN) as u16,
                },
            );
            match aead::sealed(kdf::enc_key(master_key@), nonce@, head, plaintext@) {
                Ok(c) => r->Ok_0@ == assembled(head, nonce@, c, kdf::hmac_key(master_key@)),
                Err(_) => false,
            }
        }),
        authentic(r->Ok_0@, master_key@),
        parsed(r->Ok_0@, master_key@) == (match payload::decoded(plaintext@) {
            Err(e) => Err(e),
            Ok(p) => if flags.bits != flag_bits(p.message, p.client_timeout is Some) {
                Err(ProtoErrorView::InvalidField("flag/payload mismatch"@))
            } else {
                Ok(p)
            },
        }),
{
    let sealed_len: usize = plaintext.len() + TAG_LEN;
    if sealed_len > 0xffff {
        return Err(ProtoError::PacketTooLong { got: sealed_len, max: 0xffff });
    }
    let header = Header::new(flags, sealed_len as u16);
    let head = header.encode();
    let mut keys = match DerivedKeys::derive(master_key) {
        Ok(keys) => keys,
        Err(e) => return Err(e),
    };
    let ciphertext = match aead::seal(keys.enc.as_bytes(), nonce, head.as_slice(), plaintext) {
        Ok(c) => c,
        Err(e) => return Err(e),
    };
    let mut packet: Vec<u8> = Vec::with_capacity(HEADER_LEN + NONCE_LEN + ciphertext.len() + HMAC_LEN);
    append_bytes(&mut packet, head.as_slice());
    append_bytes(&mut packet, nonce.as_slice());
    append_bytes(&mut packet, ciphertext.as_slice());
    let tag = hmac::sign(keys.hmac.as_bytes(), packet.as_slice());
    append_bytes(&mut packet, tag.as_slice());
    keys.wipe();
    proof {
        assert(packet@ == assembled(head@, nonce@, ciphertext@, kdf::hmac_key(master_key@)));
        lemma_parts(head@, nonce@, ciphertext@, kdf::hmac_key(master_key@));
        header::law_header_reads_back(header, Seq::empty());
        assert(head@ + Seq::<u8>::empty() =~= head@);
    }
    if packet.len() > MAX_PACKET_LEN {
        return Err(ProtoError::PacketTooLong { got: packet.len(), max: MAX_PACKET_LEN });
    }
    Ok(packet)
}

/// Builds the packet that carries a payload under a master key and a nonce. It
/// succeeds where the payload can be encoded, and reading the packet under the same
/// key gives the payload back.
pub fn build_packet_with_nonce(payload: &SpaPayload, master_key: &[u8], nonce: &[u8; 12]) -> (r:
    Result<Vec<u8>, ProtoError>)
    requires
        master_key@.len() <= MAX_INPUT_LEN,
    ensures
        match r {
            Ok(wire) => outcome::gives(built(payload@, master_key@, nonce@), wire@),
            Err(e) => outcome::fails(built(payload@, master_key@, nonce@), e@),
        },
        r is Ok <==> payload::encoded(payload@) is Ok,
        r is Ok ==> authentic(r->Ok_0@, master_key@),
        r is Ok ==> parsed(r->Ok_0@, master_key@) == read_back(payload@),
{
    let plaintext = match payload.encode() {
        Ok(bytes) => bytes,
        Err(e) => return Err(e),
    };
    let flags = derive_flags(&payload.message, payload.client_timeout.is_some());
    proof {
        lemma_flags_defined(payload@.message, payload@.client_timeout is Some);
    }
    seal_packet(flags, plaintext.as_slice(), master_key, nonce)
}

/// Builds the packet that carries a payload under a master key, with a fresh nonce.
/// The flags are those that belong to the payload. Where the payload can be encoded,
/// the one failure is that of the random generator.
pub fn build_packet(payload: &SpaPayload, master_key: &[u8]) -> (r: Result<Vec<u8>, ProtoError>)
    requires
        master_key@.len() <= MAX_INPUT_LEN,
    ensures
        match r {
            Ok(wire) => exists|nonce: [u8; 12]| #[trigger]
                aead::generator_gives(Some(nonce)) && outcome::gives(
                    built(payload@, master_key@, nonce@),
                    wire@,
                ),
            Err(e) => outcome::fails(payload::encoded(payload@), e@) || (e@
                == ProtoErrorView::AeadFailed && aead::generator_gives(None::<[u8; 12]>)),
        },
        payload::encoded(payload@) is Err ==> r is Err && outcome::fails(
            payload::encoded(payload@),
            r->Err_0@,
        ),
        r is Ok ==> authentic(r->Ok_0@, master_key@),
        r is Ok ==> parsed(r->Ok_0@, master_key@) == read_back(payload@),
{
    let plaintext = match payload.encode() {
        Ok(bytes) => bytes,
        Err(e) => return Err(e),
    };
    let nonce = match aead::generate_nonce() {
        Ok(nonce) => nonce,
        Err(e) => return Err(e),
    };
    let flags = derive_flags(&payload.message, payload.client_timeout.is_some());
    proof {
        lemma_flags_defined(payload@.message, payload@.client_timeout is Some);
    }
    let r = seal_packet(flags, plaintext.as_slice(), master_key, &nonce);
    proof {
        assert(outcome::gives(built(payload@, master_key@, nonce@), r->Ok_0@));
    }
    r
}

/// Reads what a signed part holds, once its tag has been checked.
fn parse_signed(signed: &[u8], enc_key: &[u8]) -> (r: Result<SpaPayload, ProtoError>)
    requires
        MIN_PACKET_LEN - HMAC_LEN <= signed@.len(),
    ensures
        payload::payload_view(r) == parsed_signed(signed@, enc_key@),
{
    let head = slice_subrange(signed, 0, HEADER_LEN);
    assert(head@ =~= signed@.take(HEADER_LEN as int));
    let header = match Header::decode(head) {
        Ok(h) => h,
        Err(e) => return Err(e),
    };
    let ciphertext = slice_subrange(signed, HEADER_LEN + NONCE_LEN, signed.len());
    assert(ciphertext@ =~= signed@.skip(HEADER_LEN + NONCE_LEN));
    if ciphertext.len() != header.payload_len as usize {
        return Err(ProtoError::InvalidField("payload_len mismatch"));
    }
    let nonce: [u8; 12] = [
        signed[4],
        signed[5],
        signed[6],
        signed[7],
        signed[8],
        signed[9],
        signed[10],
        signed[11],
        signed[12],
        signed[13],
        signed[14],
        signed[15],
    ];
    assert(nonce@ =~= signed@.subrange(HEADER_LEN as int, HEADER_LEN + NONCE_LEN));
    let plaintext = match aead::open(enc_key, &nonce, head, ciphertext) {
        Ok(p) => p,
        Err(e) => return Err(e),
    };
    let payload = match SpaPayload::decode(plaintext.as_slice()) {
        Ok(p) => p,
        Err(e) => return Err(e),
    };
    match check_flags_match_payload(header.flags, &payload) {
        Ok(()) => Ok(payload),
        Err(e) => Err(e),
    }
}

/// Reads a packet under a master key. The tag is checked before anything is
/// decrypted.
pub fn parse_packet(wire: &[u8], master_key: &[u8]) -> (r: Result<SpaPayload, ProtoError>)
    requires
        master_key@.len() <= MAX_INPUT_LEN,
    ensures
        payload::payload_view(r) == parsed(wire@, master_key@),
{
    if wire.len() < MIN_PACKET_LEN {
        return Err(ProtoError::PacketTooShort { got: wire.len(), need: MIN_PACKET_LEN });
    }
    if wire.len() > MAX_PACKET_LEN {
        return Err(ProtoError::PacketTooLong { got: wire.len(), max: MAX_PACKET_LEN });
    }
    let split: usize = wire.len() - HMAC_LEN;
    let signed = slice_subrange(wire, 0, split);
    let tag = slice_subrange(wire, split, wire.len());
    assert(signed@ =~= signed_part(wire@));
    assert(tag@ =~= tag_part(wire@));
    let mut keys = match DerivedKeys::derive(master_key) {
        Ok(keys) => keys,
        Err(e) => return Err(e),
    };
    let r = match hmac::verify(keys.hmac.as_bytes(), signed, tag) {
        Ok(()) => parse_signed(signed, keys.enc.as_bytes()),
        Err(e) => Err(e),
    };
    keys.wipe();
    r
}

/// A packet of valid length whose tag is not that of its signed part is rejected
/// for its tag, whatever else it holds.
pub proof fn law_tag_is_checked_first(wire: Seq<u8>, master: Seq<u8>)
    requires
        length_fits(wire),
        tag_part(wire) != hmac::hmac_sha256(kdf::hmac_key(master), signed_part(wire)),
    ensures
        outcome::fails(parsed(wire, master), ProtoErrorView::HmacFailed),
{
}

/// A packet is rejected for its tag only where it is of valid length and not
/// authentic: no check behind the tag gives that error.
pub proof fn law_only_the_tag_fails_as_hmac(wire: Seq<u8>, master: Seq<u8>)
    ensures
        outcome::fails(parsed(wire, master), ProtoErrorView::HmacFailed) <==> length_fits(wire)
            && !authentic(wire, master),
{
}

/// A payload that was accepted came in an authentic packet, has a valid structure,
/// and its kind and timeout are those that the flags of the header announce.
pub proof fn law_accepted_payload(wire: Seq<u8>, master: Seq<u8>)
    requires
        parsed(wire, master) is Ok,
    ensures
        authentic(wire, master),
        payload::structure_error(parsed(wire, master)->Ok_0) is None,
        ({
            let p = parsed(wire, master)->Ok_0;
            wire[1] == flag_bits(p.message, p.client_timeout is Some)
        }),
        wire[0] == header::PROTO_VERSION,
{
    let signed = signed_part(wire);
    assert(signed.take(HEADER_LEN as int)[0] == wire[0]);
    assert(signed.take(HEADER_LEN as int)[1] == wire[1]);
}

/// What was sent is what is received: a packet that was built from a payload with a
/// plain username parses under the same key to the same payload, field by field.
pub proof fn law_packet_gives_the_payload_back(
    payload: SpaPayload,
    key: &[u8],
    nonce: [u8; 12],
    wire: Vec<u8>,
    received: &[u8],
    r: Result<SpaPayload, ProtoError>,
)
    requires
        payload.username@.len() <= 64,
        forall|i: int|
            0 <= i < payload.username@.len() ==> 0x20 <= (#[trigger] payload.username@[i]) as int
                <= 0x7e,
        call_ensures(build_packet_with_nonce, (&payload, key, &nonce), Ok(wire)),
        received@ == wire@,
        call_ensures(parse_packet, (received, key), r),
    ensures
        r is Ok,
        r->Ok_0.nonce@ == payload.nonce@,
        r->Ok_0.timestamp == payload.timestamp,
        r->Ok_0.username@ == payload.username@,
        r->Ok_0.client_timeout == payload.client_timeout,
        match (payload.message, r->Ok_0.message) {
            (
                SpaMessage::Access { source_ip, ports },
                SpaMessage::Access { source_ip: s, ports: p },
            ) => s == source_ip && p@ == ports@,
            (
                SpaMessage::Nat { source_ip, ports, nat_dest },
                SpaMessage::Nat { source_ip: s, ports: p, nat_dest: d },
            ) => s == source_ip && p@ == ports@ && d == nat_dest,
            (
                SpaMessage::LocalNat { source_ip, ports, nat_dest },
                SpaMessage::LocalNat { source_ip: s, ports: p, nat_dest: d },
            ) => s == source_ip && p@ == ports@ && d == nat_dest,
            (
                SpaMessage::Command { source_ip, command },
                SpaMessage::Command { source_ip: s, command: c },
            ) => s == source_ip && c@ == command@,
            _ => false,
        },
{
    payload::law_plain_usernames_are_accepted(payload@);
    assert(payload::payload_view(r) == Ok::<SpaPayloadView, ProtoErrorView>(payload@));
    assert(r->Ok_0@ == payload@);
    assert(r->Ok_0.message@ == payload.message@);
}

/// A payload with a plain username is read back unchanged.
pub proof fn law_plain_payload_reads_back(p: SpaPayloadView)
    requires
        p.username.len() <= 64,
        forall|i: int|
            0 <= i < p.username.len() ==> 0x20 <= (#[trigger] p.username[i]) as int <= 0x7e,
    ensures
        outcome::gives(read_back(p), p),
{
    payload::law_plain_usernames_are_accepted(p);
}

/// The flags of each kind of request, with and without a timeout.
pub proof fn law_flags_by_kind(message: SpaMessageView, has_client_timeout: bool)
    ensures
        flag_bits(message, has_client_timeout) == (match message {
            SpaMessageView::Access { .. } => 0int,
            SpaMessageView::Nat { .. } => 1,
            SpaMessageView::LocalNat { .. } => 1,
            SpaMessageView::Command { .. } => 4,
        }) + (if has_client_timeout {
            2int
        } else {
            0
        }),
{
    assert((0u8 | 0u8) == 0 && (0u8 | 2u8) == 2) by (bit_vector);
    assert((1u8 | 0u8) == 1 && (1u8 | 2u8) == 3) by (bit_vector);
    assert((4u8 | 0u8) == 4 && (4u8 | 2u8) == 6) by (bit_vector);
}

/// A packet is authentic exactly where it has 64 to 1500 bytes and its last 32 are the tag
/// of all the bytes before them, under the authentication key.
pub proof fn law_authentic_by_its_bytes(wire: Seq<u8>, master: Seq<u8>)
    ensures
        authentic(wire, master) <==> 64 <= wire.len() <= 1500 && wire.subrange(
            wire.len() - 32,
            wire.len() as int,
        ) == hmac::hmac_sha256(kdf::hmac_key(master), wire.subrange(0, wire.len() - 32)),
{
    if wire.len() >= 64 {
        assert(tag_part(wire) =~= wire.subrange(wire.len() - 32, wire.len() as int));
        assert(signed_part(wire) =~= wire.subrange(0, wire.len() - 32));
    }
}

/// A packet that was built, byte by byte: the version 1, the flags of the request, the
/// length of the sealed payload with its high byte first, the nonce, the sealed payload,
/// to which the first four bytes are bound, and the tag of all that.
pub proof fn law_packet_on_the_wire(
    p: SpaPayloadView,
    master: Seq<u8>,
    nonce: Seq<u8>,
    wire: Seq<u8>,
)
    requires
        outcome::gives(built(p, master, nonce), wire),
        nonce.len() == 12,
    ensures
        wire.len() >= 16,
        wire[0] == 1,
        wire[1] == flag_bits(p.message, p.client_timeout is Some),
        wire.subrange(4, 16) == nonce,
        payload::encoded(p) is Ok,
        wire[2] * 256 + wire[3] == payload::encoded(p)->Ok_0.len() + 16,
        exists|ciphertext: Seq<u8>|
            {
                &&& aead::aes_gcm_seal(
                    kdf::enc_key(master),
                    nonce,
                    wire.subrange(0, 4),
                    payload::encoded(p)->Ok_0,
                ) == Some(ciphertext)
                &&& wire == #[trigger] (wire.subrange(0, 4) + nonce + ciphertext)
                    + hmac::hmac_sha256(
                    kdf::hmac_key(master),
                    wire.subrange(0, 4) + nonce + ciphertext,
                )
            },
{
    let plaintext = payload::encoded(p)->Ok_0;
    let head = header::header_bytes(packet_header(p, plaintext));
    header::law_header_on_the_wire(packet_header(p, plaintext));
    let ciphertext = aead::sealed(kdf::enc_key(master), nonce, head, plaintext)->Ok_0;
    assert(wire == assembled(head, nonce, ciphertext, kdf::hmac_key(master)));
    assert(wire.subrange(0, 4) =~= head);
    assert(wire.subrange(4, 16) =~= nonce);
    assert(wire[0] == head[0] && wire[1] == head[1] && wire[2] == head[2] && wire[3] == head[3]);
    assert(wire == (wire.subrange(0, 4) + nonce + ciphertext) + hmac::hmac_sha256(
        kdf::hmac_key(master),
        wire.subrange(0, 4) + nonce + ciphertext,
    ));
}

/// A packet is read to a payload exactly where it is authentic, starts with the version 1,
/// announces the length of what is sealed and the flags of the payload, and what is sealed
/// opens, under the nonce in front of it and with the first four bytes bound to it, to
/// bytes that hold the payload.
pub proof fn law_packet_is_read_from_its_bytes(wire: Seq<u8>, master: Seq<u8>, p: SpaPayloadView)
    ensures
        outcome::gives(parsed(wire, master), p) <==> {
            &&& authentic(wire, master)
            &&& wire[0] == 1
            &&& wire[1] == flag_bits(p.message, p.client_timeout is Some)
            &&& wire[2] * 256 + wire[3] == wire.len() - 48
            &&& kdf::enc_key(master).len() == 32
            &&& aead::aes_gcm_open(
                kdf::enc_key(master),
                wire.subrange(4, 16),
                wire.subrange(0, 4),
                wire.subrange(16, wire.len() - 32),
            ) is Some
            &&& outcome::gives(
                payload::decoded(
                    aead::aes_gcm_open(
                        kdf::enc_key(master),
                        wire.subrange(4, 16),
                        wire.subrange(0, 4),
                        wire.subrange(16, wire.len() - 32),
                    )->0,
                ),
                p,
            )
        },
{
    if authentic(wire, master) {
        let signed = signed_part(wire);
        assert(signed.take(HEADER_LEN as int) =~= wire.subrange(0, 4));
        assert(signed.subrange(HEADER_LEN as int, HEADER_LEN + NONCE_LEN) =~= wire.subrange(4, 16));
        assert(signed.skip(HEADER_LEN + NONCE_LEN) =~= wire.subrange(16, wire.len() - 32));
        let head = wire.subrange(0, 4);
        assert(head[0] == wire[0] && head[1] == wire[1] && head[2] == wire[2] && head[3] == wire[3]);
        header::law_header_is_read_from_its_bytes(head);
        law_flags_by_kind(p.message, p.client_timeout is Some);
    }
}

/// A packet of a wrong length is told its length and the one that it breaks, whatever it
/// holds.
pub proof fn law_lengths_are_checked_first(wire: Seq<u8>, master: Seq<u8>)
    ensures
        wire.len() < 64 ==> outcome::fails(
            parsed(wire, master),
            ProtoErrorView::PacketTooShort(wire.len(), 64),
        ),
        wire.len() > 1500 ==> outcome::fails(
            parsed(wire, master),
            ProtoErrorView::PacketTooLong(wire.len(), 1500),
        ),
{
}

/// What [`parse_packet`] tells of a packet of a wrong length: the length that it has, and the
/// one that it should keep.
pub proof fn law_wrong_lengths_are_told(wire: &[u8], key: &[u8], r: Result<SpaPayload, ProtoError>)
    requires
        call_ensures(parse_packet, (wire, key), r),
    ensures
        wire@.len() < 64 ==> (r matches Err(ProtoError::PacketTooShort { got, need }) && got
            == wire@.len() && need == 64),
        wire@.len() > 1500 ==> (r matches Err(ProtoError::PacketTooLong { got, max }) && got
            == wire@.len() && max == 1500),
{
    if wire@.len() < 64 || wire@.len() > 1500 {
        assert(r is Err);
        assert(payload::payload_view(r)->Err_0 == r->Err_0@);
    }
}

} // verus!
