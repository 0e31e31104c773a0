//! The payload of a packet, which travels encrypted as MessagePack.
//!
//! A payload is an array of its fields in their order. The request is itself an
//! array, which starts with the name of its kind; addresses are written as text
//! and transport protocols by their names.

use crate::net;
use crate::net::{IpAddr, SocketAddr};
use crate::outcome;
use crate::proto::error::{ProtoError, ProtoErrorView};
use crate::proto::types;
use crate::proto::types::{PortProto, Protocol, SpaMessage, SpaMessageView};
use crate::text;
use vstd::prelude::*;
use vstd::string::*;
use vstd::utf8;

verus! {

/// What a packet carries.
#[derive(Clone, Debug, PartialEq, Eq)]
pub struct SpaPayload {
    /// Random bytes by which a replayed packet is recognised.
    pub nonce: [u8; 16],
    /// When the client made the packet, in seconds of Unix time.
    pub timestamp: i64,
    /// The name that the client gives, at most 64 bytes.
    pub username: String,
    /// The request.
    pub message: SpaMessage,
    /// How long the rule shall stay, in seconds, where the client asks for that.
    pub client_timeout: Option<u32>,
}

/// The model of an [`SpaPayload`].
#[verifier::ext_equal]
pub struct SpaPayloadView {
    /// Random bytes by which a replayed packet is recognised.
    pub nonce: Seq<u8>,
    /// When the client made the packet, in seconds of Unix time.
    pub timestamp: i64,
    /// The name that the client gives.
    pub username: Seq<char>,
    /// The request.
    pub message: SpaMessageView,
    /// How long the rule shall stay, in seconds, where the client asks for that.
    pub client_timeout: Option<u32>,
}

impl View for SpaPayload {
    type V = SpaPayloadView;

    open spec fn view(&self) -> SpaPayloadView {
        SpaPayloadView {
            nonce: self.nonce@,
            timestamp: self.timestamp,
            username: self.username@,
            message: self.message@,
            client_timeout: self.client_timeout,
        }
    }
}

/// The model of an array of plain values that stands for a payload; `M` is the
/// model of the array that stands for the request.
#[verifier::ext_equal]
pub struct RecordView<M> {
    /// The random bytes.
    pub nonce: Seq<u8>,
    /// The time.
    pub timestamp: i64,
    /// The username.
    pub username: Seq<char>,
    /// The request.
    pub message: M,
    /// The timeout.
    pub client_timeout: Option<u32>,
}

/// The model of the ports in a request: a protocol name and a number each.
pub type PortsView = Seq<(Seq<char>, u16)>;

/// The model of a payload with an access request as plain values.
pub type AccessView = RecordView<(Seq<char>, Seq<char>, PortsView)>;

/// The model of a payload with a forwarding request as plain values.
pub type NatView = RecordView<(Seq<char>, Seq<char>, PortsView, Seq<char>)>;

/// The model of a payload with a command as plain values.
pub type CommandView = RecordView<(Seq<char>, Seq<char>, Seq<char>)>;

/// A port as plain values.
pub type RawPort = (String, u16);

/// A payload with an access request as plain values.
pub type RawAccess = ([u8; 16], i64, String, (String, String, Vec<RawPort>), Option<u32>);

/// A payload with a forwarding request as plain values.
pub type RawNat = ([u8; 16], i64, String, (String, String, Vec<RawPort>, String), Option<u32>);

/// A payload with a command as plain values.
pub type RawCommand = ([u8; 16], i64, String, (String, String, String), Option<u32>);

/// The model of the ports in a vector of plain values.
pub open spec fn ports_view(ports: Seq<RawPort>) -> PortsView {
    ports.map_values(|p: RawPort| (p.0@, p.1))
}

/// The model of [`RawAccess`].
pub open spec fn access_view(r: RawAccess) -> AccessView {
    RecordView {
        nonce: r.0@,
        timestamp: r.1,
        username: r.2@,
        message: (r.3.0@, r.3.1@, ports_view(r.3.2@)),
        client_timeout: r.4,
    }
}

/// The model of [`RawNat`].
pub open spec fn nat_view(r: RawNat) -> NatView {
    RecordView {
        nonce: r.0@,
        timestamp: r.1,
        username: r.2@,
        message: (r.3.0@, r.3.1@, ports_view(r.3.2@), r.3.3@),
        client_timeout: r.4,
    }
}

/// The model of [`RawCommand`].
pub open spec fn command_view(r: RawCommand) -> CommandView {
    RecordView {
        nonce: r.0@,
        timestamp: r.1,
        username: r.2@,
        message: (r.3.0@, r.3.1@, r.3.2@),
        client_timeout: r.4,
    }
}

/// The MessagePack form of a payload with an access request, or the error text.
pub uninterp spec fn pack_access(
    r: AccessView,
) -> Result<Seq<u8>, Seq<char>>;

/// The MessagePack form of a payload with a forwarding request, or the error text.
pub uninterp spec fn pack_nat(
    r: NatView,
) -> Result<Seq<u8>, Seq<char>>;

/// The MessagePack form of a payload with a command, or the error text.
pub uninterp spec fn pack_command(
    r: CommandView,
) -> Result<Seq<u8>, Seq<char>>;

/// Bytes read as a payload with an access request, or the error text.
pub uninterp spec fn unpack_access(bytes: Seq<u8>) -> Result<
    AccessView,
    Seq<char>,
>;

/// Bytes read as a payload with a forwarding request, or the error text.
pub uninterp spec fn unpack_nat(bytes: Seq<u8>) -> Result<
    NatView,
    Seq<char>,
>;

/// Bytes read as a payload with a command, or the error text.
pub uninterp spec fn unpack_command(bytes: Seq<u8>) -> Result<
    CommandView,
    Seq<char>,
>;

/// The view of bytes, or of an error text.
pub open spec fn bytes_view(r: Result<Vec<u8>, String>) -> Result<Seq<u8>, Seq<char>> {
    match r {
        Ok(b) => Ok(b@),
        Err(e) => Err(e@),
    }
}

/// `rmp_serde::to_vec` on a payload with an access request. The contract names the
/// result. Bytes whose number fits in 32 bits, in which no length was cut, are
/// read back as the values that were written.
#[verifier::external_body]
fn write_access(r: &RawAccess) -> (out: Result<Vec<u8>, String>)
    ensures
        bytes_view(out) == pack_access(access_view(*r)),
        out is Ok && out->Ok_0@.len() <= 0xffff_ffff ==> outcome::gives(
            unpack_access(out->Ok_0@),
            access_view(*r),
        ),
{
    rmp_serde::to_vec(r).map_err(|e| e.to_string())
}

/// `rmp_serde::to_vec` on a payload with a forwarding request. The contract names
/// the result. Bytes whose number fits in 32 bits are read back as the values that
/// were written, and not as an access request, whose array is shorter.
#[verifier::external_body]
fn write_nat(r: &RawNat) -> (out: Result<Vec<u8>, String>)
    ensures
        bytes_view(out) == pack_nat(nat_view(*r)),
        out is Ok && out->Ok_0@.len() <= 0xffff_ffff ==> outcome::gives(
            unpack_nat(out->Ok_0@),
            nat_view(*r),
        ) && unpack_access(out->Ok_0@) is Err,
{
    rmp_serde::to_vec(r).map_err(|e| e.to_string())
}

/// `rmp_serde::to_vec` on a payload with a command. The contract names the result.
/// Bytes whose number fits in 32 bits are read back as the values that were
/// written, and not as one of the other requests, which hold an array where the
/// command is a text.
#[verifier::external_body]
fn write_command(r: &RawCommand) -> (out: Result<Vec<u8>, String>)
    ensures
        bytes_view(out) == pack_command(command_view(*r)),
        out is Ok && out->Ok_0@.len() <= 0xffff_ffff ==> outcome::gives(
            unpack_command(out->Ok_0@),
            command_view(*r),
        ) && unpack_access(out->Ok_0@) is Err && unpack_nat(out->Ok_0@) is Err,
{
    rmp_serde::to_vec(r).map_err(|e| e.to_string())
}

/// `rmp_serde::from_slice`, asked for a payload with an access request. The
/// contract names the result.
#[verifier::external_body]
fn read_access(bytes: &[u8]) -> (r: Result<RawAccess, String>)
    ensures
        match r {
            Ok(v) => outcome::gives(unpack_access(bytes@), access_view(v)),
            Err(e) => outcome::fails(unpack_access(bytes@), e@),
        },
{
    rmp_serde::from_slice(bytes).map_err(|e| e.to_string())
}

/// `rmp_serde::from_slice`, asked for a payload with a forwarding request. The
/// contract names the result.
#[verifier::external_body]
fn read_nat(bytes: &[u8]) -> (r: Result<RawNat, String>)
    ensures
        match r {
            Ok(v) => outcome::gives(unpack_nat(bytes@), nat_view(v)),
            Err(e) => outcome::fails(unpack_nat(bytes@), e@),
        },
{
    rmp_serde::from_slice(bytes).map_err(|e| e.to_string())
}

/// `rmp_serde::from_slice`, asked for a payload with a command. The contract names
/// the result.
#[verifier::external_body]
fn read_command(bytes: &[u8]) -> (r: Result<RawCommand, String>)
    ensures
        match r {
            Ok(v) => outcome::gives(unpack_command(bytes@), command_view(v)),
            Err(e) => outcome::fails(unpack_command(bytes@), e@),
        },
{
    rmp_serde::from_slice(bytes).map_err(|e| e.to_string())
}

/// Ports as protocol names and numbers.
pub open spec fn port_records(ports: Seq<PortProto>) -> PortsView {
    ports.map_values(|p: PortProto| (types::protocol_text(p.proto), p.port))
}

/// The array that stands for a payload, given the one that stands for its request.
pub open spec fn record_of<M>(p: SpaPayloadView, message: M) -> RecordView<M> {
    RecordView {
        nonce: p.nonce,
        timestamp: p.timestamp,
        username: p.username,
        message,
        client_timeout: p.client_timeout,
    }
}

/// The MessagePack form of a payload, or the error text.
pub open spec fn packed(p: SpaPayloadView) -> Result<Seq<u8>, Seq<char>> {
    match p.message {
        SpaMessageView::Access { source_ip, ports } => pack_access(
            record_of(p, ("access"@, net::ip_text(source_ip), port_records(ports))),
        ),
        SpaMessageView::Nat { source_ip, ports, nat_dest } => pack_nat(
            record_of(
                p,
                ("nat"@, net::ip_text(source_ip), port_records(ports), net::socket_text(nat_dest)),
            ),
        ),
        SpaMessageView::LocalNat { source_ip, ports, nat_dest } => pack_nat(
            record_of(
                p,
                (
                    "local_nat"@,
                    net::ip_text(source_ip),
                    port_records(ports),
                    net::socket_text(nat_dest),
                ),
            ),
        ),
        SpaMessageView::Command { source_ip, command } => pack_command(
            record_of(p, ("command"@, net::ip_text(source_ip), command)),
        ),
    }
}

/// The encoded form of a payload, or the error where it has none.
pub open spec fn encoded(p: SpaPayloadView) -> Result<Seq<u8>, ProtoErrorView> {
    match packed(p) {
        Err(e) => Err(ProtoErrorView::PayloadEncode(e)),
        Ok(bytes) => if bytes.len() > SpaPayload::MAX_ENCODED_LEN {
            Err(ProtoErrorView::InvalidField("payload too large"@))
        } else {
            Ok(bytes)
        },
    }
}

/// The protocol with a given name.
pub open spec fn protocol_of(name: Seq<char>) -> Option<Protocol> {
    if name == "tcp"@ {
        Some(Protocol::Tcp)
    } else if name == "udp"@ {
        Some(Protocol::Udp)
    } else {
        None
    }
}

/// The text of the error for a protocol name that is none.
pub open spec fn unknown_protocol_text(name: Seq<char>) -> Seq<char> {
    "unknown variant `"@ + name + "`, expected `tcp` or `udp`"@
}

/// Whether a text is the name of a kind of requests.
pub open spec fn is_kind(kind: Seq<char>) -> bool {
    kind == "access"@ || kind == "nat"@ || kind == "local_nat"@ || kind == "command"@
}

/// The text of the error for a request whose kind is none, or does not fit its shape.
pub open spec fn unknown_kind_text(kind: Seq<char>) -> Seq<char> {
    if is_kind(kind) {
        "unexpected message kind `"@ + kind + "`"@
    } else {
        "unknown variant `"@ + kind
            + "`, expected one of `access`, `nat`, `local_nat`, `command`"@
    }
}

/// The ports that protocol names and numbers stand for, or the text of the error
/// for the first name that is none.
pub open spec fn ports_of(records: PortsView) -> Result<Seq<PortProto>, Seq<char>>
    decreases records.len(),
{
    if records.len() == 0 {
        Ok(Seq::empty())
    } else {
        match ports_of(records.drop_last()) {
            Err(e) => Err(e),
            Ok(ports) => match protocol_of(records.last().0) {
                Some(proto) => Ok(ports.push(PortProto { proto, port: records.last().1 })),
                None => Err(unknown_protocol_text(records.last().0)),
            },
        }
    }
}

/// The address that a text writes, or the text of the error.
pub open spec fn source_of(s: Seq<char>) -> Result<IpAddr, Seq<char>> {
    match net::ip_of_text(s) {
        Some(ip) => Ok(ip),
        None => Err("invalid IP address syntax"@),
    }
}

/// The payload that an array stands for, given its request.
pub open spec fn payload_of<M>(r: RecordView<M>, message: SpaMessageView) -> SpaPayloadView {
    SpaPayloadView {
        nonce: r.nonce,
        timestamp: r.timestamp,
        username: r.username,
        message,
        client_timeout: r.client_timeout,
    }
}

/// The payload that an array with an access request stands for.
pub open spec fn from_access(r: AccessView) -> Result<
    SpaPayloadView,
    Seq<char>,
> {
    let (kind, source, ports) = r.message;
    if kind != "access"@ {
        Err(unknown_kind_text(kind))
    } else {
        match source_of(source) {
            Err(e) => Err(e),
            Ok(source_ip) => match ports_of(ports) {
                Err(e) => Err(e),
                Ok(ports) => Ok(payload_of(r, SpaMessageView::Access { source_ip, ports })),
            },
        }
    }
}

/// The payload that an array with a forwarding request stands for.
pub open spec fn from_nat(r: NatView) -> Result<
    SpaPayloadView,
    Seq<char>,
> {
    let (kind, source, ports, dest) = r.message;
    if kind != "nat"@ && kind != "local_nat"@ {
        Err(unknown_kind_text(kind))
    } else {
        match source_of(source) {
            Err(e) => Err(e),
            Ok(source_ip) => match ports_of(ports) {
                Err(e) => Err(e),
                Ok(ports) => match net::socket_of_text(dest) {
                    None => Err("invalid socket address syntax"@),
                    Some(nat_dest) => Ok(
                        payload_of(
                            r,
                            if kind == "nat"@ {
                                SpaMessageView::Nat { source_ip, ports, nat_dest }
                            } else {
                                SpaMessageView::LocalNat { source_ip, ports, nat_dest }
                            },
                        ),
                    ),
                },
            },
        }
    }
}

/// The payload that an array with a command stands for.
pub open spec fn from_command(r: CommandView) -> Result<
    SpaPayloadView,
    Seq<char>,
> {
    let (kind, source, command) = r.message;
    if kind != "command"@ {
        Err(unknown_kind_text(kind))
    } else {
        match source_of(source) {
            Err(e) => Err(e),
            Ok(source_ip) => Ok(payload_of(r, SpaMessageView::Command { source_ip, command })),
        }
    }
}

/// The payload that bytes hold, or the error text: the shapes of the requests are
/// tried in turn, and where none fits, the error is that of the first.
pub open spec fn unpacked(bytes: Seq<u8>) -> Result<SpaPayloadView, Seq<char>> {
    match unpack_access(bytes) {
        Ok(r) => from_access(r),
        Err(e) => match unpack_nat(bytes) {
            Ok(r) => from_nat(r),
            Err(_) => match unpack_command(bytes) {
                Ok(r) => from_command(r),
                Err(_) => Err(e),
            },
        },
    }
}

/// Whether a character may stand in a username: visible ASCII or a space.
pub open spec fn username_char(c: char) -> bool {
    ' ' <= c <= '~'
}

/// What is wrong with the structure of a payload, if anything.
pub open spec fn structure_error(p: SpaPayloadView) -> Option<ProtoErrorView> {
    if utf8::encode_utf8(p.username).len() > SpaPayload::MAX_USERNAME_LEN {
        Some(ProtoErrorView::InvalidField("username too long"@))
    } else if exists|i: int| 0 <= i < p.username.len() && !username_char(p.username[i]) {
        Some(ProtoErrorView::InvalidField("username contains control bytes"@))
    } else {
        None
    }
}

/// The payload that bytes hold, or the error where they hold none.
pub open spec fn decoded(bytes: Seq<u8>) -> Result<SpaPayloadView, ProtoErrorView> {
    match unpacked(bytes) {
        Err(e) => Err(ProtoErrorView::PayloadDecode(e)),
        Ok(p) => match structure_error(p) {
            Some(e) => Err(e),
            None => Ok(p),
        },
    }
}

/// The ports as protocol names and numbers.
fn raw_ports(ports: &Vec<PortProto>) -> (r: Vec<RawPort>)
    ensures
        ports_view(r@) == port_records(ports@),
{
    let mut r: Vec<RawPort> = Vec::new();
    for i in 0..ports.len()
        invariant
            ports_view(r@) =~= port_records(ports@.take(i as int)),
    {
        let ghost before = r@;
        let name = ports[i].proto.to_string();
        r.push((name, ports[i].port));
        assert(ports@.take(i + 1) =~= ports@.take(i as int).push(ports@[i as int]));
        assert(ports_view(r@) =~= ports_view(before).push((name@, ports@[i as int].port)));
    }
    assert(ports@.take(ports@.len() as int) =~= ports@);
    r
}

/// A failure stays, whatever follows.
proof fn lemma_ports_prefix(records: PortsView, n: int)
    requires
        0 <= n <= records.len(),
        ports_of(records.take(n)) is Err,
    ensures
        ports_of(records) == ports_of(records.take(n)),
    decreases records.len(),
{
    if n < records.len() {
        assert(records.drop_last().take(n) =~= records.take(n));
        lemma_ports_prefix(records.drop_last(), n);
    } else {
        assert(records.take(n) =~= records);
    }
}

/// The error for a name that is no protocol.
fn unknown_protocol(name: &str) -> (r: String)
    ensures
        r@ == unknown_protocol_text(name@),
{
    let mut s = String::new();
    s.append("unknown variant `");
    s.append(name);
    s.append("`, expected `tcp` or `udp`");
    assert(s@ =~= unknown_protocol_text(name@));
    s
}

/// The error for a request whose kind is none, or does not fit its shape.
fn unknown_kind(kind: &str) -> (r: String)
    ensures
        r@ == unknown_kind_text(kind@),
{
    let known = text::same_text(kind, "access") || text::same_text(kind, "nat")
        || text::same_text(kind, "local_nat") || text::same_text(kind, "command");
    let mut s = String::new();
    if known {
        s.append("unexpected message kind `");
        s.append(kind);
        s.append("`");
    } else {
        s.append("unknown variant `");
        s.append(kind);
        s.append("`, expected one of `access`, `nat`, `local_nat`, `command`");
    }
    assert(s@ =~= unknown_kind_text(kind@));
    s
}

/// The ports that protocol names and numbers stand for.
fn typed_ports(records: &Vec<RawPort>) -> (r: Result<Vec<PortProto>, String>)
    ensures
        match r {
            Ok(ports) => outcome::gives(ports_of(ports_view(records@)), ports@),
            Err(e) => outcome::fails(ports_of(ports_view(records@)), e@),
        },
{
    let mut r: Vec<PortProto> = Vec::new();
    let ghost all = ports_view(records@);
    for i in 0..records.len()
        invariant
            all == ports_view(records@),
            outcome::gives(ports_of(all.take(i as int)), r@),
    {
        let record = &records[i];
        assert(all.take(i + 1).drop_last() =~= all.take(i as int));
        assert(all.take(i + 1).last() == (record.0@, record.1));
        let name = record.0.as_str();
        if text::same_text(name, "tcp") {
            r.push(PortProto { proto: Protocol::Tcp, port: record.1 });
        } else if text::same_text(name, "udp") {
            r.push(PortProto { proto: Protocol::Udp, port: record.1 });
        } else {
            proof {
                lemma_ports_prefix(all, i + 1);
            }
            return Err(unknown_protocol(name));
        }
    }
    assert(all.take(all.len() as int) =~= all);
    Ok(r)
}

/// The address that a text writes.
fn typed_source(s: &str) -> (r: Result<IpAddr, String>)
    ensures
        match r {
            Ok(ip) => outcome::gives(source_of(s@), ip),
            Err(e) => outcome::fails(source_of(s@), e@),
        },
{
    match IpAddr::parse(s) {
        Some(ip) => Ok(ip),
        None => Err("invalid IP address syntax".to_owned()),
    }
}

/// The payload that an array with an access request stands for.
fn access_payload(r: RawAccess) -> (out: Result<SpaPayload, String>)
    ensures
        match out {
            Ok(p) => outcome::gives(from_access(access_view(r)), p@),
            Err(e) => outcome::fails(from_access(access_view(r)), e@),
        },
{
    let (nonce, timestamp, username, message, client_timeout) = r;
    let (kind, source, records) = message;
    if !text::same_text(kind.as_str(), "access") {
        return Err(unknown_kind(kind.as_str()));
    }
    let source_ip = match typed_source(source.as_str()) {
        Ok(ip) => ip,
        Err(e) => return Err(e),
    };
    let ports = match typed_ports(&records) {
        Ok(ports) => ports,
        Err(e) => return Err(e),
    };
    Ok(
        SpaPayload {
            nonce,
            timestamp,
            username,
            message: SpaMessage::Access { source_ip, ports },
            client_timeout,
        },
    )
}

/// The payload that an array with a forwarding request stands for.
fn nat_payload(r: RawNat) -> (out: Result<SpaPayload, String>)
    ensures
        match out {
            Ok(p) => outcome::gives(from_nat(nat_view(r)), p@),
            Err(e) => outcome::fails(from_nat(nat_view(r)), e@),
        },
{
    let (nonce, timestamp, username, message, client_timeout) = r;
    let (kind, source, records, dest) = message;
    let forwards = text::same_text(kind.as_str(), "nat");
    if !forwards && !text::same_text(kind.as_str(), "local_nat") {
        return Err(unknown_kind(kind.as_str()));
    }
    let source_ip = match typed_source(source.as_str()) {
        Ok(ip) => ip,
        Err(e) => return Err(e),
    };
    let ports = match typed_ports(&records) {
        Ok(ports) => ports,
        Err(e) => return Err(e),
    };
    let nat_dest = match SocketAddr::parse(dest.as_str()) {
        Some(addr) => addr,
        None => return Err("invalid socket address syntax".to_owned()),
    };
    let message = if forwards {
        SpaMessage::Nat { source_ip, ports, nat_dest }
    } else {
        SpaMessage::LocalNat { source_ip, ports, nat_dest }
    };
    Ok(SpaPayload { nonce, timestamp, username, message, client_timeout })
}

/// The payload that an array with a command stands for.
fn command_payload(r: RawCommand) -> (out: Result<SpaPayload, String>)
    ensures
        match out {
            Ok(p) => outcome::gives(from_command(command_view(r)), p@),
            Err(e) => outcome::fails(from_command(command_view(r)), e@),
        },
{
    let (nonce, timestamp, username, message, client_timeout) = r;
    let (kind, source, command) = message;
    if !text::same_text(kind.as_str(), "command") {
        return Err(unknown_kind(kind.as_str()));
    }
    let source_ip = match typed_source(source.as_str()) {
        Ok(ip) => ip,
        Err(e) => return Err(e),
    };
    Ok(
        SpaPayload {
            nonce,
            timestamp,
            username,
            message: SpaMessage::Command { source_ip, command },
            client_timeout,
        },
    )
}

/// Whether all characters of a username are visible ASCII or spaces.
fn username_is_plain(name: &str) -> (r: bool)
    ensures
        r == (forall|i: int| 0 <= i < name@.len() ==> username_char(#[trigger] name@[i])),
{
    let chars = text::chars_of(name);
    for i in 0..chars.len()
        invariant
            chars@ == name@,
            forall|j: int| 0 <= j < i ==> username_char(#[trigger] chars@[j]),
    {
        if chars[i] < ' ' || '~' < chars[i] {
            assert(!username_char(name@[i as int]));
            return false;
        }
    }
    true
}

/// The result of decoding, with errors and payload by their models.
pub open spec fn payload_view(r: Result<SpaPayload, ProtoError>) -> Result<
    SpaPayloadView,
    ProtoErrorView,
> {
    match r {
        Ok(p) => Ok(p@),
        Err(e) => Err(e@),
    }
}

impl SpaPayload {
    /// The longest username in bytes.
    pub const MAX_USERNAME_LEN: usize = 64;

    /// The longest encoded payload in bytes.
    pub const MAX_ENCODED_LEN: usize = 1024;

    /// Encodes the payload. Fails where MessagePack fails and where the result is
    /// longer than [`SpaPayload::MAX_ENCODED_LEN`]. What is encoded is read back as the
    /// same payload.
    pub fn encode(&self) -> (r: Result<Vec<u8>, ProtoError>)
        ensures
            match r {
                Ok(bytes) => outcome::gives(encoded(self@), bytes@),
                Err(e) => outcome::fails(encoded(self@), e@),
            },
            r is Ok ==> outcome::gives(unpacked(r->Ok_0@), self@),
    {
        proof {
            lemma_kinds_differ();
        }
        let bytes = match self.pack() {
            Ok(bytes) => bytes,
            Err(e) => return Err(ProtoError::PayloadEncode(e)),
        };
        if bytes.len() > SpaPayload::MAX_ENCODED_LEN {
            return Err(ProtoError::InvalidField("payload too large"));
        }
        Ok(bytes)
    }

    /// The MessagePack form of the payload.
    fn pack(&self) -> (r: Result<Vec<u8>, String>)
        ensures
            bytes_view(r) == packed(self@),
            r is Ok && r->Ok_0@.len() <= 0xffff_ffff ==> outcome::gives(unpacked(r->Ok_0@), self@),
    {
        proof {
            lemma_kinds_differ();
        }
        match &self.message {
            SpaMessage::Access { source_ip, ports } => {
                let source = source_ip.to_string();
                let raw: RawAccess = (
                    self.nonce,
                    self.timestamp,
                    self.username.clone(),
                    ("access".to_owned(), source, raw_ports(ports)),
                    self.client_timeout,
                );
                proof {
                    lemma_ports_read_back(ports@);
                    assert(access_view(raw) =~= record_of(
                        self@,
                        ("access"@, net::ip_text(*source_ip), port_records(ports@)),
                    ));
                }
                write_access(&raw)
            },
            SpaMessage::Nat { source_ip, ports, nat_dest } => {
                let raw: RawNat = (
                    self.nonce,
                    self.timestamp,
                    self.username.clone(),
                    (
                        "nat".to_owned(),
                        source_ip.to_string(),
                        raw_ports(ports),
                        nat_dest.to_string(),
                    ),
                    self.client_timeout,
                );
                proof {
                    lemma_ports_read_back(ports@);
                }
                write_nat(&raw)
            },
            SpaMessage::LocalNat { source_ip, ports, nat_dest } => {
                let raw: RawNat = (
                    self.nonce,
                    self.timestamp,
                    self.username.clone(),
                    (
                        "local_nat".to_owned(),
                        source_ip.to_string(),
                        raw_ports(ports),
                        nat_dest.to_string(),
                    ),
                    self.client_timeout,
                );
                proof {
                    lemma_ports_read_back(ports@);
                }
                write_nat(&raw)
            },
            SpaMessage::Command { source_ip, command } => {
                let raw: RawCommand = (
                    self.nonce,
                    self.timestamp,
                    self.username.clone(),
                    ("command".to_owned(), source_ip.to_string(), command.clone()),
                    self.client_timeout,
                );
                write_command(&raw)
            },
        }
    }

    /// Decodes a payload and checks its structure. Only the form that is written is read:
    /// arrays of the fields in their order, with kinds and protocols by their names.
    pub fn decode(bytes: &[u8]) -> (r: Result<SpaPayload, ProtoError>)
        ensures
            payload_view(r) == decoded(bytes@),
    {
        let unpacked = match read_access(bytes) {
            Ok(raw) => access_payload(raw),
            Err(first) => match read_nat(bytes) {
                Ok(raw) => nat_payload(raw),
                Err(_) => match read_command(bytes) {
                    Ok(raw) => command_payload(raw),
                    Err(_) => Err(first),
                },
            },
        };
        let payload = match unpacked {
            Ok(payload) => payload,
            Err(e) => return Err(ProtoError::PayloadDecode(e)),
        };
        match payload.validate_structure() {
            Ok(()) => Ok(payload),
            Err(e) => Err(e),
        }
    }

    /// Checks the username.
    fn validate_structure(&self) -> (r: Result<(), ProtoError>)
        ensures
            match r {
                Ok(_) => structure_error(self@) is None,
                Err(e) => structure_error(self@) == Some(e@),
            },
    {
        if self.username.as_str().as_bytes().len() > SpaPayload::MAX_USERNAME_LEN {
            return Err(ProtoError::InvalidField("username too long"));
        }
        if !username_is_plain(self.username.as_str()) {
            return Err(ProtoError::InvalidField("username contains control bytes"));
        }
        Ok(())
    }
}

/// The names of protocols and of kinds of requests are different texts.
proof fn lemma_kinds_differ()
    ensures
        "tcp"@ != "udp"@,
        "nat"@ != "local_nat"@,
{
    reveal_strlit("tcp");
    reveal_strlit("udp");
    reveal_strlit("nat");
    reveal_strlit("local_nat");
    assert("tcp"@[0] == 't' && "udp"@[0] == 'u');
    assert("nat"@.len() != "local_nat"@.len());
}

/// Ports are read back from their names and numbers.
proof fn lemma_ports_read_back(ports: Seq<PortProto>)
    ensures
        outcome::gives(ports_of(port_records(ports)), ports),
    decreases ports.len(),
{
    lemma_kinds_differ();
    if ports.len() > 0 {
        lemma_ports_read_back(ports.drop_last());
        assert(port_records(ports).drop_last() =~= port_records(ports.drop_last()));
        assert(ports.drop_last().push(ports.last()) =~= ports);
    } else {
        assert(ports =~= Seq::<PortProto>::empty());
    }
}

/// A username is accepted exactly where it has at most 64 characters, each with a code
/// from 0x20 to 0x7e.
pub proof fn law_plain_usernames_are_accepted(p: SpaPayloadView)
    ensures
        structure_error(p) is None <==> p.username.len() <= 64 && forall|i: int|
            0 <= i < p.username.len() ==> 0x20 <= (#[trigger] p.username[i]) as int <= 0x7e,
{
    if forall|i: int|
        0 <= i < p.username.len() ==> 0x20 <= (#[trigger] p.username[i]) as int <= 0x7e {
        assert(utf8::is_ascii_chars(p.username));
        utf8::is_ascii_chars_encode_utf8(p.username);
        assert forall|i: int| 0 <= i < p.username.len() implies username_char(
            #[trigger] p.username[i],
        ) by {}
    } else {
        let i = choose|i: int|
            0 <= i < p.username.len() && !(0x20 <= (#[trigger] p.username[i]) as int <= 0x7e);
        assert(!username_char(p.username[i]));
    }
}

/// A payload is encoded exactly where its MessagePack form has at most 1024 bytes, and the
/// encoded form is those bytes.
pub proof fn law_encoded_within_the_limit(p: SpaPayloadView, bytes: Seq<u8>)
    ensures
        outcome::gives(encoded(p), bytes) <==> outcome::gives(packed(p), bytes) && bytes.len()
            <= 1024,
        outcome::gives(packed(p), bytes) && bytes.len() > 1024 ==> outcome::fails(
            encoded(p),
            ProtoErrorView::InvalidField("payload too large"@),
        ),
{
}

/// Whether names and numbers are those of ports, one by one.
pub open spec fn name_ports(records: PortsView, ports: Seq<PortProto>) -> bool {
    &&& records.len() == ports.len()
    &&& forall|i: int|
        0 <= i < ports.len() ==> (#[trigger] records[i]).1 == ports[i].port && records[i].0 == (
        if ports[i].proto == Protocol::Tcp {
            "tcp"@
        } else {
            "udp"@
        })
}

/// Ports are written as their names and numbers and read from them, one by one.
pub proof fn law_ports_by_name_and_number(records: PortsView, ports: Seq<PortProto>)
    ensures
        name_ports(port_records(ports), ports),
        outcome::gives(ports_of(records), ports) <==> name_ports(records, ports),
    decreases records.len(),
{
    lemma_kinds_differ();
    assert(name_ports(port_records(ports), ports));
    if records.len() > 0 {
        let head = records.drop_last();
        let n = records.len() - 1;
        if let Ok(before) = ports_of(head) {
            law_ports_by_name_and_number(head, before);
        }
        if ports.len() > 0 {
            law_ports_by_name_and_number(head, ports.drop_last());
            assert(ports.drop_last().push(ports.last()) =~= ports);
        }
        if outcome::gives(ports_of(records), ports) {
            let before = ports_of(head)->Ok_0;
            assert(ports.drop_last() =~= before);
            assert forall|i: int| 0 <= i < ports.len() implies (#[trigger] records[i]).1
                == ports[i].port && records[i].0 == (if ports[i].proto == Protocol::Tcp {
                "tcp"@
            } else {
                "udp"@
            }) by {
                if i < n {
                    assert(head[i] == records[i]);
                }
            }
        }
        if name_ports(records, ports) {
            let before = ports.drop_last();
            assert forall|i: int| 0 <= i < before.len() implies (#[trigger] head[i]).1
                == before[i].port && head[i].0 == (if before[i].proto == Protocol::Tcp {
                "tcp"@
            } else {
                "udp"@
            }) by {
                assert(head[i] == records[i]);
            }
            assert(records[n] == records.last());
        }
    } else if name_ports(records, ports) {
        assert(ports =~= Seq::<PortProto>::empty());
    }
}

/// What is written for a payload: its nonce, time, username and timeout as they are, the
/// name of its kind, the text of its source, and its ports by name and number, or its
/// destination or its command with them.
pub proof fn law_payload_is_written_field_by_field(p: SpaPayloadView)
    ensures
        match p.message {
            SpaMessageView::Access { source_ip, ports } => exists|records: PortsView| #[trigger]
                name_ports(records, ports) && packed(p) == pack_access(
                    RecordView {
                        nonce: p.nonce,
                        timestamp: p.timestamp,
                        username: p.username,
                        message: ("access"@, net::ip_text(source_ip), records),
                        client_timeout: p.client_timeout,
                    },
                ),
            SpaMessageView::Nat { source_ip, ports, nat_dest } => exists|records: PortsView|
             #[trigger]
                name_ports(records, ports) && packed(p) == pack_nat(
                    RecordView {
                        nonce: p.nonce,
                        timestamp: p.timestamp,
                        username: p.username,
                        message: (
                            "nat"@,
                            net::ip_text(source_ip),
                            records,
                            net::socket_text(nat_dest),
                        ),
                        client_timeout: p.client_timeout,
                    },
                ),
            SpaMessageView::LocalNat { source_ip, ports, nat_dest } => exists|records: PortsView|
             #[trigger]
                name_ports(records, ports) && packed(p) == pack_nat(
                    RecordView {
                        nonce: p.nonce,
                        timestamp: p.timestamp,
                        username: p.username,
                        message: (
                            "local_nat"@,
                            net::ip_text(source_ip),
                            records,
                            net::socket_text(nat_dest),
                        ),
                        client_timeout: p.client_timeout,
                    },
                ),
            SpaMessageView::Command { source_ip, command } => packed(p) == pack_command(
                RecordView {
                    nonce: p.nonce,
                    timestamp: p.timestamp,
                    username: p.username,
                    message: ("command"@, net::ip_text(source_ip), command),
                    client_timeout: p.client_timeout,
                },
            ),
        },
{
    match p.message {
        SpaMessageView::Access { source_ip, ports } => {
            law_ports_by_name_and_number(port_records(ports), ports);
        },
        SpaMessageView::Nat { source_ip, ports, nat_dest } => {
            law_ports_by_name_and_number(port_records(ports), ports);
        },
        SpaMessageView::LocalNat { source_ip, ports, nat_dest } => {
            law_ports_by_name_and_number(port_records(ports), ports);
        },
        SpaMessageView::Command { .. } => {},
    }
}

/// An array with an access request stands for a payload exactly where its kind is `access`,
/// its source is the text of the payload's source, its ports are the payload's, and all
/// the rest is the same.
pub proof fn law_access_is_read_field_by_field(r: AccessView, p: SpaPayloadView)
    ensures
        outcome::gives(from_access(r), p) <==> {
            &&& r.message.0 == "access"@
            &&& p.message is Access
            &&& net::ip_of_text(r.message.1) == Some(p.message->Access_source_ip)
            &&& name_ports(r.message.2, p.message->Access_ports)
            &&& p.nonce == r.nonce
            &&& p.timestamp == r.timestamp
            &&& p.username == r.username
            &&& p.client_timeout == r.client_timeout
        },
{
    if p.message is Access {
        law_ports_by_name_and_number(r.message.2, p.message->Access_ports);
    }
}

/// An array with a forwarding request stands for a payload in the same way; its kind tells
/// the two kinds of forwarding apart.
pub proof fn law_nat_is_read_field_by_field(r: NatView, p: SpaPayloadView)
    ensures
        outcome::gives(from_nat(r), p) <==> {
            &&& p.nonce == r.nonce
            &&& p.timestamp == r.timestamp
            &&& p.username == r.username
            &&& p.client_timeout == r.client_timeout
            &&& match p.message {
                SpaMessageView::Nat { source_ip, ports, nat_dest } => r.message.0 == "nat"@
                    && net::ip_of_text(r.message.1) == Some(source_ip) && name_ports(
                    r.message.2,
                    ports,
                ) && net::socket_of_text(r.message.3) == Some(nat_dest),
                SpaMessageView::LocalNat { source_ip, ports, nat_dest } => r.message.0
                    == "local_nat"@ && net::ip_of_text(r.message.1) == Some(source_ip)
                    && name_ports(r.message.2, ports) && net::socket_of_text(r.message.3) == Some(
                    nat_dest,
                ),
                _ => false,
            }
        },
{
    lemma_kinds_differ();
    if p.message is Nat {
        law_ports_by_name_and_number(r.message.2, p.message->Nat_ports);
    }
    if p.message is LocalNat {
        law_ports_by_name_and_number(r.message.2, p.message->LocalNat_ports);
    }
}

/// An array with a command stands for a payload in the same way.
pub proof fn law_command_is_read_field_by_field(r: CommandView, p: SpaPayloadView)
    ensures
        outcome::gives(from_command(r), p) <==> {
            &&& r.message.0 == "command"@
            &&& p.message is Command
            &&& net::ip_of_text(r.message.1) == Some(p.message->Command_source_ip)
            &&& p.message->Command_command == r.message.2
            &&& p.nonce == r.nonce
            &&& p.timestamp == r.timestamp
            &&& p.username == r.username
            &&& p.client_timeout == r.client_timeout
        },
{
}

/// Bytes hold the payload that the first shape which fits them stands for, and nothing
/// where none fits; a payload with a username that is not plain is refused.
pub proof fn law_first_shape_that_fits(bytes: Seq<u8>, p: SpaPayloadView)
    ensures
        outcome::gives(decoded(bytes), p) <==> {
            &&& p.username.len() <= 64
            &&& forall|i: int|
                0 <= i < p.username.len() ==> 0x20 <= (#[trigger] p.username[i]) as int <= 0x7e
            &&& {
                ||| unpack_access(bytes) is Ok && outcome::gives(
                    from_access(unpack_access(bytes)->Ok_0),
                    p,
                )
                ||| unpack_access(bytes) is Err && unpack_nat(bytes) is Ok && outcome::gives(
                    from_nat(unpack_nat(bytes)->Ok_0),
                    p,
                )
                ||| unpack_access(bytes) is Err && unpack_nat(bytes) is Err && unpack_command(
                    bytes,
                ) is Ok && outcome::gives(from_command(unpack_command(bytes)->Ok_0), p)
            }
        },
{
    law_plain_usernames_are_accepted(p);
}

/// Encoding a payload and decoding the bytes gives the payload, where the username is plain.
pub proof fn law_encoded_decodes(
    payload: SpaPayload,
    bytes: Vec<u8>,
    received: &[u8],
    r: Result<SpaPayload, ProtoError>,
)
    requires
        payload.username@.len() <= 64,
        forall|i: int|
            0 <= i < payload.username@.len() ==> 0x20 <= (#[trigger] payload.username@[i]) as int
                <= 0x7e,
        call_ensures(SpaPayload::encode, (&payload,), Ok(bytes)),
        received@ == bytes@,
        call_ensures(SpaPayload::decode, (received,), r),
    ensures
        r is Ok,
        r->Ok_0@ == payload@,
        bytes@.len() <= 1024,
{
    law_plain_usernames_are_accepted(payload@);
    assert(payload_view(r) == Ok::<SpaPayloadView, ProtoErrorView>(payload@));
}

} // verus!
