//! What can go wrong with a packet.

use crate::text;
use vstd::prelude::*;

verus! {

/// What can go wrong while a packet is built or read.
#[derive(Debug)]
#[non_exhaustive]
pub enum ProtoError {
    /// The packet is shorter than the smallest valid packet.
    PacketTooShort {
        /// The number of bytes received.
        got: usize,
        /// The smallest number of bytes that is accepted.
        need: usize,
    },
    /// The packet is longer than the largest valid packet.
    PacketTooLong {
        /// The number of bytes received.
        got: usize,
        /// The largest number of bytes that is accepted.
        max: usize,
    },
    /// The version byte of the header is not a supported version.
    UnsupportedVersion(u8),
    /// A reserved bit of the flags byte is set.
    ReservedFlag(u8),
    /// The HMAC tag does not verify.
    HmacFailed,
    /// Decryption failed: the tag does not match, or the ciphertext was changed.
    AeadFailed,
    /// The payload cannot be decoded.
    PayloadDecode(String),
    /// The payload cannot be encoded.
    PayloadEncode(String),
    /// The expansion of a key failed.
    HkdfFailed,
    /// A field of the decoded payload is not valid.
    InvalidField(&'static str),
    /// The timestamp is older than the window allows.
    PacketTooOld {
        /// The age of the packet in seconds.
        age_secs: i64,
        /// The largest age that is accepted.
        max_secs: i64,
    },
    /// The timestamp lies further in the future than the allowed skew.
    PacketInFuture {
        /// How many seconds the packet lies in the future.
        skew_secs: i64,
    },
}

/// The model of a [`ProtoError`]: the same with texts as sequences.
#[verifier::ext_equal]
pub enum ProtoErrorView {
    /// See [`ProtoError::PacketTooShort`].
    PacketTooShort(nat, nat),
    /// See [`ProtoError::PacketTooLong`].
    PacketTooLong(nat, nat),
    /// See [`ProtoError::UnsupportedVersion`].
    UnsupportedVersion(u8),
    /// See [`ProtoError::ReservedFlag`].
    ReservedFlag(u8),
    /// See [`ProtoError::HmacFailed`].
    HmacFailed,
    /// See [`ProtoError::AeadFailed`].
    AeadFailed,
    /// See [`ProtoError::PayloadDecode`].
    PayloadDecode(Seq<char>),
    /// See [`ProtoError::PayloadEncode`].
    PayloadEncode(Seq<char>),
    /// See [`ProtoError::HkdfFailed`].
    HkdfFailed,
    /// See [`ProtoError::InvalidField`].
    InvalidField(Seq<char>),
    /// See [`ProtoError::PacketTooOld`].
    PacketTooOld(i64, i64),
    /// See [`ProtoError::PacketInFuture`].
    PacketInFuture(i64),
}

impl View for ProtoError {
    type V = ProtoErrorView;

    open spec fn view(&self) -> ProtoErrorView {
        match *self {
            ProtoError::PacketTooShort { got, need } => ProtoErrorView::PacketTooShort(
                got as nat,
                need as nat,
            ),
            ProtoError::PacketTooLong { got, max } => ProtoErrorView::PacketTooLong(
                got as nat,
                max as nat,
            ),
            ProtoError::UnsupportedVersion(v) => ProtoErrorView::UnsupportedVersion(v),
            ProtoError::ReservedFlag(b) => ProtoErrorView::ReservedFlag(b),
            ProtoError::HmacFailed => ProtoErrorView::HmacFailed,
            ProtoError::AeadFailed => ProtoErrorView::AeadFailed,
            ProtoError::PayloadDecode(s) => ProtoErrorView::PayloadDecode(s@),
            ProtoError::PayloadEncode(s) => ProtoErrorView::PayloadEncode(s@),
            ProtoError::HkdfFailed => ProtoErrorView::HkdfFailed,
            ProtoError::InvalidField(s) => ProtoErrorView::InvalidField(s@),
            ProtoError::PacketTooOld { age_secs, max_secs } => ProtoErrorView::PacketTooOld(
                age_secs,
                max_secs,
            ),
            ProtoError::PacketInFuture { skew_secs } => ProtoErrorView::PacketInFuture(skew_secs),
        }
    }
}

impl ProtoErrorView {
    /// The text that describes the error.
    pub open spec fn text(self) -> Seq<char> {
        match self {
            ProtoErrorView::PacketTooShort(got, need) => "packet too short: got "@ + text::decimal(
                got,
            ) + " bytes, need at least "@ + text::decimal(need),
            ProtoErrorView::PacketTooLong(got, max) => "packet too long: got "@ + text::decimal(got)
                + " bytes, max "@ + text::decimal(max),
            ProtoErrorView::UnsupportedVersion(v) => "unsupported protocol version: "@
                + text::hex_byte(v),
            ProtoErrorView::ReservedFlag(b) => "reserved flag bit set: "@ + text::hex_byte(b),
            ProtoErrorView::HmacFailed => "HMAC verification failed"@,
            ProtoErrorView::AeadFailed => "AEAD decryption failed"@,
            ProtoErrorView::PayloadDecode(s) => "payload decode error: "@ + s,
            ProtoErrorView::PayloadEncode(s) => "payload encode error: "@ + s,
            ProtoErrorView::HkdfFailed => "HKDF expand failed"@,
            ProtoErrorView::InvalidField(s) => "invalid field: "@ + s,
            ProtoErrorView::PacketTooOld(age, max) => "packet age "@ + text::signed_decimal(
                age as int,
            ) + "s exceeds maximum "@ + text::signed_decimal(max as int) + "s"@,
            ProtoErrorView::PacketInFuture(skew) => "packet timestamp is "@ + text::signed_decimal(
                skew as int,
            ) + "s in the future"@,
        }
    }
}

impl ProtoError {
    /// The text that describes the error.
    pub fn to_string(&self) -> (r: String)
        ensures
            r@ == self@.text(),
    {
        let mut s = String::new();
        match self {
            ProtoError::PacketTooShort { got, need } => {
                s.append("packet too short: got ");
                text::push_decimal(&mut s, *got as u64);
                s.append(" bytes, need at least ");
                text::push_decimal(&mut s, *need as u64);
            },
            ProtoError::PacketTooLong { got, max } => {
                s.append("packet too long: got ");
                text::push_decimal(&mut s, *got as u64);
                s.append(" bytes, max ");
                text::push_decimal(&mut s, *max as u64);
            },
            ProtoError::UnsupportedVersion(v) => {
                s.append("unsupported protocol version: ");
                text::push_hex_byte(&mut s, *v);
            },
            ProtoError::ReservedFlag(b) => {
                s.append("reserved flag bit set: ");
                text::push_hex_byte(&mut s, *b);
            },
            ProtoError::HmacFailed => s.append("HMAC verification failed"),
            ProtoError::AeadFailed => s.append("AEAD decryption failed"),
            ProtoError::PayloadDecode(e) => {
                s.append("payload decode error: ");
                s.append(e.as_str());
            },
            ProtoError::PayloadEncode(e) => {
                s.append("payload encode error: ");
                s.append(e.as_str());
            },
            ProtoError::HkdfFailed => s.append("HKDF expand failed"),
            ProtoError::InvalidField(e) => {
                s.append("invalid field: ");
                s.append(e);
            },
            ProtoError::PacketTooOld { age_secs, max_secs } => {
                s.append("packet age ");
                text::push_signed(&mut s, *age_secs);
                s.append("s exceeds maximum ");
                text::push_signed(&mut s, *max_secs);
                s.append("s");
            },
            ProtoError::PacketInFuture { skew_secs } => {
                s.append("packet timestamp is ");
                text::push_signed(&mut s, *skew_secs);
                s.append("s in the future");
            },
        }
        assert(s@ =~= self@.text());
        s
    }
}

/// What an error says: what happened, and behind it the cause that it carries.
pub proof fn law_texts_tell_the_cause(e: ProtoError, r: String)
    requires
        call_ensures(ProtoError::to_string, (&e,), r),
    ensures
        match e {
            ProtoError::PacketTooShort { got, need } => {
                r@ == "packet too short: got "@ + text::decimal(got as nat)
                    + " bytes, need at least "@ + text::decimal(need as nat)
            },
            ProtoError::PacketTooLong { got, max } => {
                r@ == "packet too long: got "@ + text::decimal(got as nat) + " bytes, max "@
                    + text::decimal(max as nat)
            },
            ProtoError::UnsupportedVersion(v) => {
                r@ == "unsupported protocol version: "@ + text::hex_byte(v)
            },
            ProtoError::ReservedFlag(b) => r@ == "reserved flag bit set: "@ + text::hex_byte(b),
            ProtoError::HmacFailed => r@ == "HMAC verification failed"@,
            ProtoError::AeadFailed => r@ == "AEAD decryption failed"@,
            ProtoError::PayloadDecode(s) => r@ == "payload decode error: "@ + s@,
            ProtoError::PayloadEncode(s) => r@ == "payload encode error: "@ + s@,
            ProtoError::HkdfFailed => r@ == "HKDF expand failed"@,
            ProtoError::InvalidField(s) => r@ == "invalid field: "@ + s@,
            ProtoError::PacketTooOld { age_secs, max_secs } => {
                r@ == "packet age "@ + text::signed_decimal(age_secs as int)
                    + "s exceeds maximum "@ + text::signed_decimal(max_secs as int) + "s"@
            },
            ProtoError::PacketInFuture { skew_secs } => {
                r@ == "packet timestamp is "@ + text::signed_decimal(skew_secs as int)
                    + "s in the future"@
            },
        },
{
}

} // verus!
