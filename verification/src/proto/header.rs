//! The header of a packet: version, flags and the length of the sealed payload.

use crate::outcome;
use crate::proto::error::{ProtoError, ProtoErrorView};
use vstd::prelude::*;

verus! {

/// The protocol version.
pub const PROTO_VERSION: u8 = 0x01;

/// The length of a header in bytes.
pub const HEADER_LEN: usize = 4;

/// The flag bits of a header.
#[derive(Clone, Copy, Debug, Default, PartialEq, Eq, Structural)]
pub struct Flags {
    /// The byte that holds the bits.
    pub bits: u8,
}

/// The bits of `byte` that no flag defines.
pub open spec fn reserved_bits(byte: u8) -> u8 {
    byte & !Flags::ALL_DEFINED
}

impl Flags {
    /// The request is of a kind that forwards ports.
    pub const NAT: u8 = 0b0000_0001;

    /// The payload holds a timeout that the client asks for.
    pub const CLIENT_TIMEOUT: u8 = 0b0000_0010;

    /// The request is a command.
    pub const COMMAND: u8 = 0b0000_0100;

    /// The packet uses asymmetric keys.
    pub const ASYMMETRIC: u8 = 0b0000_1000;

    /// All bits that are defined; a receiver rejects any other.
    pub const ALL_DEFINED: u8 = 0b0000_1111;

    /// No flags.
    #[must_use]
    pub fn new() -> (r: Flags)
        ensures
            r.bits == 0,
    {
        Flags { bits: 0 }
    }

    /// The byte that holds the bits.
    #[must_use]
    pub fn raw(self) -> (r: u8)
        ensures
            r == self.bits,
    {
        self.bits
    }

    /// Flags with the given byte, whatever bits are set in it.
    #[must_use]
    pub fn from_raw_unchecked(byte: u8) -> (r: Flags)
        ensures
            r.bits == byte,
    {
        Flags { bits: byte }
    }

    /// Flags with the given byte; a reserved bit is an error.
    pub fn from_raw(byte: u8) -> (r: Result<Flags, ProtoError>)
        ensures
            match r {
                Ok(f) => reserved_bits(byte) == 0 && f.bits == byte,
                Err(e) => reserved_bits(byte) != 0 && e@ == ProtoErrorView::ReservedFlag(
                    reserved_bits(byte),
                ),
            },
    {
        let reserved: u8 = byte & !Flags::ALL_DEFINED;
        if reserved != 0 {
            return Err(ProtoError::ReservedFlag(reserved));
        }
        Ok(Flags { bits: byte })
    }

    /// Whether any of the bits in `mask` is set.
    #[must_use]
    pub fn contains(self, mask: u8) -> (r: bool)
        ensures
            r == (self.bits & mask != 0),
    {
        self.bits & mask != 0
    }

    /// Sets the bits in `mask`.
    pub fn set(&mut self, mask: u8)
        ensures
            final(self).bits == old(self).bits | mask,
    {
        self.bits = self.bits | mask;
    }
}

/// The header of a packet.
#[derive(Clone, Copy, Debug, PartialEq, Eq, Structural)]
pub struct Header {
    /// The protocol version.
    pub version: u8,
    /// The flag bits.
    pub flags: Flags,
    /// The length of the ciphertext with its tag, in bytes.
    pub payload_len: u16,
}

/// The bytes of a header: version, flags, and the length with its high byte first.
pub open spec fn header_bytes(h: Header) -> Seq<u8> {
    seq![h.version, h.flags.bits, (h.payload_len / 256) as u8, (h.payload_len % 256) as u8]
}

/// The header at the start of `bytes`, or what is wrong with it.
pub open spec fn header_of(bytes: Seq<u8>) -> Result<Header, ProtoErrorView> {
    if bytes.len() < HEADER_LEN {
        Err(ProtoErrorView::PacketTooShort(bytes.len(), HEADER_LEN as nat))
    } else if bytes[0] != PROTO_VERSION {
        Err(ProtoErrorView::UnsupportedVersion(bytes[0]))
    } else if reserved_bits(bytes[1]) != 0 {
        Err(ProtoErrorView::ReservedFlag(reserved_bits(bytes[1])))
    } else {
        Ok(
            Header {
                version: bytes[0],
                flags: Flags { bits: bytes[1] },
                payload_len: (bytes[2] * 256 + bytes[3]) as u16,
            },
        )
    }
}

impl Header {
    /// A header of the current version.
    #[must_use]
    pub fn new(flags: Flags, payload_len: u16) -> (r: Header)
        ensures
            r == (Header { version: PROTO_VERSION, flags, payload_len }),
    {
        Header { version: PROTO_VERSION, flags, payload_len }
    }

    /// The bytes of the header.
    #[must_use]
    pub fn encode(self) -> (r: [u8; 4])
        ensures
            r@ == header_bytes(self),
    {
        let r: [u8; 4] = [
            self.version,
            self.flags.raw(),
            (self.payload_len / 256) as u8,
            (self.payload_len % 256) as u8,
        ];
        assert(r@ =~= header_bytes(self));
        r
    }

    /// The header at the start of `bytes`. Too few bytes, another version and a
    /// reserved flag are errors.
    pub fn decode(bytes: &[u8]) -> (r: Result<Header, ProtoError>)
        ensures
            match r {
                Ok(h) => outcome::gives(header_of(bytes@), h),
                Err(e) => outcome::fails(header_of(bytes@), e@),
            },
    {
        if bytes.len() < HEADER_LEN {
            return Err(ProtoError::PacketTooShort { got: bytes.len(), need: HEADER_LEN });
        }
        let version: u8 = bytes[0];
        if version != PROTO_VERSION {
            return Err(ProtoError::UnsupportedVersion(version));
        }
        match Flags::from_raw(bytes[1]) {
            Ok(flags) => {
                let payload_len: u16 = bytes[2] as u16 * 256 + bytes[3] as u16;
                Ok(Header { version, flags, payload_len })
            },
            Err(e) => Err(e),
        }
    }
}

/// A header of the current version without reserved flags decodes from its own
/// bytes, whatever follows them.
pub proof fn law_header_reads_back(h: Header, rest: Seq<u8>)
    requires
        h.version == PROTO_VERSION,
        reserved_bits(h.flags.bits) == 0,
    ensures
        outcome::gives(header_of(header_bytes(h) + rest), h),
{
    let bytes = header_bytes(h) + rest;
    assert(bytes[0] == h.version && bytes[1] == h.flags.bits);
    assert(bytes[2] == (h.payload_len / 256) as u8 && bytes[3] == (h.payload_len % 256) as u8);
}

/// A header that was decoded encodes to the bytes that it was decoded from.
pub proof fn law_header_writes_back(bytes: Seq<u8>)
    requires
        header_of(bytes) is Ok,
    ensures
        header_bytes(header_of(bytes)->Ok_0) == bytes.take(HEADER_LEN as int),
{
    assert(header_bytes(header_of(bytes)->Ok_0) =~= bytes.take(HEADER_LEN as int));
}

/// The flag bits that are defined are the four lowest.
pub proof fn law_reserved_bits_are_the_high_ones(byte: u8)
    ensures
        reserved_bits(byte) == 0 <==> byte < 16,
        reserved_bits(byte) == byte / 16 * 16,
        Flags::NAT == 1,
        Flags::CLIENT_TIMEOUT == 2,
        Flags::COMMAND == 4,
        Flags::ASYMMETRIC == 8,
{
    assert((byte & !0b1111u8) == 0 <==> byte < 16) by (bit_vector);
    assert((byte & !0b1111u8) == byte / 16 * 16) by (bit_vector);
}

/// A header on the wire: the version, the flags, and the length with its high byte first.
pub proof fn law_header_on_the_wire(h: Header)
    ensures
        header_bytes(h).len() == 4,
        header_bytes(h)[0] == h.version,
        header_bytes(h)[1] == h.flags.bits,
        header_bytes(h)[2] * 256 + header_bytes(h)[3] == h.payload_len,
{
}

/// Bytes start with a header exactly where there are four of them, the first is the version
/// 1, and the second has no bit above the four lowest; its values are then those bytes.
pub proof fn law_header_is_read_from_its_bytes(bytes: Seq<u8>)
    ensures
        header_of(bytes) is Ok <==> bytes.len() >= 4 && bytes[0] == 1 && bytes[1] < 16,
        header_of(bytes) is Ok ==> header_of(bytes)->Ok_0.version == 1
            && header_of(bytes)->Ok_0.flags.bits == bytes[1]
            && header_of(bytes)->Ok_0.payload_len as int == bytes[2] * 256 + bytes[3],
        bytes.len() < 4 ==> outcome::fails(
            header_of(bytes),
            ProtoErrorView::PacketTooShort(bytes.len(), 4),
        ),
        bytes.len() >= 4 && bytes[0] != 1 ==> outcome::fails(
            header_of(bytes),
            ProtoErrorView::UnsupportedVersion(bytes[0]),
        ),
        bytes.len() >= 4 && bytes[0] == 1 && bytes[1] >= 16 ==> outcome::fails(
            header_of(bytes),
            ProtoErrorView::ReservedFlag((bytes[1] / 16 * 16) as u8),
        ),
{
    if bytes.len() >= 4 {
        law_reserved_bits_are_the_high_ones(bytes[1]);
    }
}

} // verus!
