//! Building a packet from the command line and a server of the configuration.

use crate::client::cli::Cli;
use crate::client::error::{ClientError, ClientErrorView};
use crate::client::keygen;
use crate::client::keygen::csprng_failed;
use crate::config::client::ServerEntry;
use crate::config::error::ConfigErrorView;
use crate::config::shared;
use crate::config::shared::{array_of, of_base64, parse_port_proto, Base64Key};
use crate::firewall::rule::copy_ports;
use crate::net;
use crate::net::IpAddr;
use crate::outcome;
use crate::proto::aead;
use crate::proto::aead::draw;
use crate::proto::error::ProtoErrorView;
use crate::proto::packet;
use crate::proto::packet::{build_packet, build_packet_with_nonce};
use crate::proto::payload;
use crate::proto::payload::{SpaPayload, SpaPayloadView};
use crate::proto::types;
use crate::proto::types::{PortProto, SpaMessage, SpaMessageView};
use crate::text;
use crate::time;
use crate::time::{read_clock, unix_time_of};
use vstd::prelude::*;

verus! {

/// What the client asks for, once the command line and the server are resolved.
pub struct Request {
    /// The master key.
    pub master_key: [u8; 32],
    /// The source that the packet names.
    pub source_ip: IpAddr,
    /// The ports to open.
    pub ports: Vec<PortProto>,
    /// The username that the packet names.
    pub username: String,
    /// How long the rule shall stay.
    pub client_timeout: Option<u32>,
}

/// The model of a [`Request`].
#[verifier::ext_equal]
pub struct RequestView {
    /// The master key.
    pub master_key: Seq<u8>,
    /// The source that the packet names.
    pub source_ip: IpAddr,
    /// The ports to open.
    pub ports: Seq<PortProto>,
    /// The username that the packet names.
    pub username: Seq<char>,
    /// How long the rule shall stay.
    pub client_timeout: Option<u32>,
}

impl View for Request {
    type V = RequestView;

    open spec fn view(&self) -> RequestView {
        RequestView {
            master_key: self.master_key@,
            source_ip: self.source_ip,
            ports: self.ports@,
            username: self.username@,
            client_timeout: self.client_timeout,
        }
    }
}

/// The error for an argument that is not valid.
pub open spec fn invalid(field: Seq<char>, reason: Seq<char>) -> ClientErrorView {
    ClientErrorView::InvalidArgument(field, reason)
}

/// The key that a base64 argument writes.
pub open spec fn key_argument(s: Seq<char>) -> Result<Seq<u8>, ClientErrorView> {
    match shared::base64_bytes(s) {
        Err(e) => Err(invalid("master-key-base64"@, e)),
        Ok(bytes) => if bytes.len() != 32 {
            Err(
                invalid(
                    "master-key-base64"@,
                    "expected 32 bytes, got "@ + text::decimal(bytes.len()),
                ),
            )
        } else {
            Ok(bytes)
        },
    }
}

/// The master key: the one on the command line, else that of the server.
pub open spec fn resolved_key(cli: Cli, server: Option<&ServerEntry>) -> Result<
    Seq<u8>,
    ClientErrorView,
> {
    match (cli.master_key_base64, server) {
        (Some(s), _) => key_argument(s@),
        (None, Some(server)) => Ok(server.master_key_base64.0@),
        (None, None) => Err(
            ClientErrorView::MissingArgument("master_key (-k or via -n / --name)"@),
        ),
    }
}

/// The ports that tokens write, or the message of the error for the first that writes
/// none. Tokens without text are skipped.
pub open spec fn token_ports(tokens: Seq<Seq<char>>) -> Result<Seq<PortProto>, Seq<char>>
    decreases tokens.len(),
{
    if tokens.len() == 0 {
        Ok(Seq::empty())
    } else {
        match token_ports(tokens.drop_last()) {
            Err(msg) => Err(msg),
            Ok(ports) => {
                let token = text::trim(tokens.last());
                if token.len() == 0 {
                    Ok(ports)
                } else {
                    match shared::port_of_text(token) {
                        Err(msg) => Err(msg),
                        Ok(p) => Ok(ports.push(p)),
                    }
                }
            },
        }
    }
}

/// The ports that an argument writes; there must be one.
pub open spec fn access_argument(s: Seq<char>) -> Result<Seq<PortProto>, ClientErrorView> {
    match token_ports(text::split(s, ',')) {
        Err(msg) => Err(invalid("access"@, ConfigErrorView::Invalid(msg).text())),
        Ok(ports) => if ports.len() == 0 {
            Err(invalid("access"@, "empty list"@))
        } else {
            Ok(ports)
        },
    }
}

/// The ports: those on the command line, else those of the server.
pub open spec fn resolved_ports(cli: Cli, server: Option<&ServerEntry>) -> Result<
    Seq<PortProto>,
    ClientErrorView,
> {
    match (cli.access, server) {
        (Some(s), _) => access_argument(s@),
        (None, Some(server)) => Ok(server.access.0@),
        (None, None) => Err(ClientErrorView::MissingArgument("access (-A or via -n / --name)"@)),
    }
}

/// The source: the one on the command line, else the loopback address.
pub open spec fn resolved_source(cli: Cli) -> Result<IpAddr, ClientErrorView> {
    match cli.source_ip {
        Some(s) => match net::ip_of_text(s@) {
            Some(ip) => Ok(ip),
            None => Err(invalid("source-ip"@, "invalid IP address syntax"@)),
        },
        None => Ok(IpAddr::V4(0x7f00_0001)),
    }
}

/// The username: the one on the command line, else that of the user, else a default.
pub open spec fn resolved_username(cli: Cli, user: Option<&str>) -> Seq<char> {
    match (cli.username, user) {
        (Some(u), _) => u@,
        (None, Some(u)) => u@,
        (None, None) => "fwknox"@,
    }
}

/// A number of seconds as 32 bits, where it fits.
pub open spec fn timeout_u32(secs: u64) -> Option<u32> {
    if secs <= u32::MAX {
        Some(secs as u32)
    } else {
        None
    }
}

/// How long the rule shall stay: what the command line says, else what the server
/// says. A number that does not fit asks for nothing.
pub open spec fn resolved_timeout(cli: Cli, server: Option<&ServerEntry>) -> Option<u32> {
    match cli.timeout {
        Some(secs) => timeout_u32(secs),
        None => match server {
            Some(server) => match server.fw_timeout {
                Some(timeout) => timeout_u32(timeout.secs),
                None => None,
            },
            None => None,
        },
    }
}

/// What the client asks for, or what is missing or not valid.
pub open spec fn resolved(cli: Cli, server: Option<&ServerEntry>, user: Option<&str>) -> Result<
    RequestView,
    ClientErrorView,
> {
    match resolved_key(cli, server) {
        Err(e) => Err(e),
        Ok(master_key) => match resolved_ports(cli, server) {
            Err(e) => Err(e),
            Ok(ports) => match resolved_source(cli) {
                Err(e) => Err(e),
                Ok(source_ip) => Ok(
                    RequestView {
                        master_key,
                        source_ip,
                        ports,
                        username: resolved_username(cli, user),
                        client_timeout: resolved_timeout(cli, server),
                    },
                ),
            },
        },
    }
}

/// The payload of a request, made at a time with a nonce.
pub open spec fn request_payload(req: RequestView, timestamp: i64, nonce: Seq<u8>) -> SpaPayloadView {
    SpaPayloadView {
        nonce,
        timestamp,
        username: req.username,
        message: SpaMessageView::Access { source_ip: req.source_ip, ports: req.ports },
        client_timeout: req.client_timeout,
    }
}

/// The error for an argument that is not valid.
fn invalid_argument(field: &'static str, reason: String) -> (r: ClientError)
    ensures
        r@ == invalid(field@, reason@),
{
    ClientError::InvalidArgument { field, reason }
}

/// The key that a base64 argument writes.
fn decode_master_key(b64: &str) -> (r: Result<[u8; 32], ClientError>)
    ensures
        match r {
            Ok(key) => outcome::gives(key_argument(b64@), key@),
            Err(e) => outcome::fails(key_argument(b64@), e@),
        },
{
    let bytes = match of_base64(b64) {
        Ok(bytes) => bytes,
        Err(e) => return Err(invalid_argument("master-key-base64", e)),
    };
    if bytes.len() != 32 {
        let mut reason = "expected 32 bytes, got ".to_owned();
        text::push_decimal(&mut reason, bytes.len() as u64);
        return Err(invalid_argument("master-key-base64", reason));
    }
    Ok(array_of(bytes.as_slice()))
}

/// The master key: the one on the command line, else that of the server.
fn resolve_master_key(cli: &Cli, server: Option<&ServerEntry>) -> (r: Result<[u8; 32], ClientError>)
    ensures
        match r {
            Ok(key) => outcome::gives(resolved_key(*cli, server), key@),
            Err(e) => outcome::fails(resolved_key(*cli, server), e@),
        },
{
    if let Some(b64) = &cli.master_key_base64 {
        return decode_master_key(b64.as_str());
    }
    if let Some(server) = server {
        return Ok(*server.master_key_base64.as_bytes());
    }
    Err(ClientError::MissingArgument("master_key (-k or via -n / --name)"))
}

/// A failure stays, whatever follows.
proof fn lemma_tokens_prefix(tokens: Seq<Seq<char>>, n: int)
    requires
        0 <= n <= tokens.len(),
        token_ports(tokens.take(n)) is Err,
    ensures
        token_ports(tokens) == token_ports(tokens.take(n)),
    decreases tokens.len(),
{
    if n < tokens.len() {
        assert(tokens.drop_last().take(n) =~= tokens.take(n));
        lemma_tokens_prefix(tokens.drop_last(), n);
    } else {
        assert(tokens.take(n) =~= tokens);
    }
}

/// The ports that a text writes, in the form `proto/port` with commas between them.
/// Tokens without text are skipped; the first other token that writes no port is an
/// error, and so is a text that writes no port at all.
pub fn parse_access_string(s: &str) -> (r: Result<Vec<PortProto>, ClientError>)
    ensures
        match r {
            Ok(ports) => outcome::gives(access_argument(s@), ports@),
            Err(e) => outcome::fails(access_argument(s@), e@),
        },
{
    let chars = text::chars_of(s);
    let tokens = text::split_on(chars.as_slice(), ',');
    let ghost all = text::views(tokens@);
    let mut ports: Vec<PortProto> = Vec::new();
    for i in 0..tokens.len()
        invariant
            all == text::views(tokens@),
            all == text::split(s@, ','),
            outcome::gives(token_ports(all.take(i as int)), ports@),
    {
        assert(all.take(i + 1).drop_last() =~= all.take(i as int));
        assert(all.take(i + 1).last() == tokens@[i as int]@);
        let token = text::trimmed(tokens[i].as_slice());
        if token.len() > 0 {
            let text = text::string_of(token);
            match parse_port_proto(text.as_str()) {
                Ok(p) => ports.push(p),
                Err(e) => {
                    proof {
                        lemma_tokens_prefix(all, i + 1);
                    }
                    return Err(invalid_argument("access", e.to_string()));
                },
            }
        }
    }
    assert(all.take(all.len() as int) =~= all);
    if ports.len() == 0 {
        return Err(invalid_argument("access", "empty list".to_owned()));
    }
    Ok(ports)
}

/// The ports: those on the command line, else those of the server.
fn resolve_ports(cli: &Cli, server: Option<&ServerEntry>) -> (r: Result<Vec<PortProto>, ClientError>)
    ensures
        match r {
            Ok(ports) => outcome::gives(resolved_ports(*cli, server), ports@),
            Err(e) => outcome::fails(resolved_ports(*cli, server), e@),
        },
{
    if let Some(s) = &cli.access {
        return parse_access_string(s.as_str());
    }
    if let Some(server) = server {
        return Ok(copy_ports(&server.access.0));
    }
    Err(ClientError::MissingArgument("access (-A or via -n / --name)"))
}

/// The source: the one on the command line, else the loopback address.
fn resolve_source_ip(cli: &Cli) -> (r: Result<IpAddr, ClientError>)
    ensures
        match r {
            Ok(ip) => outcome::gives(resolved_source(*cli), ip),
            Err(e) => outcome::fails(resolved_source(*cli), e@),
        },
{
    match &cli.source_ip {
        Some(s) => match IpAddr::parse(s.as_str()) {
            Some(ip) => Ok(ip),
            None => Err(invalid_argument("source-ip", "invalid IP address syntax".to_owned())),
        },
        None => Ok(IpAddr::loopback()),
    }
}

/// The username: the one on the command line, else that of the user, else a default.
fn resolve_username(cli: &Cli, user: Option<&str>) -> (r: String)
    ensures
        r@ == resolved_username(*cli, user),
{
    if let Some(u) = &cli.username {
        return u.clone();
    }
    match user {
        Some(u) => u.to_owned(),
        None => "fwknox".to_owned(),
    }
}

/// A number of seconds as 32 bits, where it fits.
fn fit_u32(secs: u64) -> (r: Option<u32>)
    ensures
        r == timeout_u32(secs),
{
    if secs <= u32::MAX as u64 {
        Some(secs as u32)
    } else {
        None
    }
}

/// How long the rule shall stay: what the command line says, else what the server says.
fn resolve_timeout(cli: &Cli, server: Option<&ServerEntry>) -> (r: Option<u32>)
    ensures
        r == resolved_timeout(*cli, server),
{
    match cli.timeout {
        Some(secs) => fit_u32(secs),
        None => match server {
            Some(server) => match server.fw_timeout {
                Some(timeout) => fit_u32(timeout.as_secs()),
                None => None,
            },
            None => None,
        },
    }
}

/// Resolves the command line and the server to what the client asks for. `user` is
/// the name of the user who runs the client, where it is known.
pub fn resolve_request(cli: &Cli, server: Option<&ServerEntry>, user: Option<&str>) -> (r: Result<
    Request,
    ClientError,
>)
    ensures
        match r {
            Ok(req) => outcome::gives(resolved(*cli, server, user), req@),
            Err(e) => outcome::fails(resolved(*cli, server, user), e@),
        },
{
    let master_key = match resolve_master_key(cli, server) {
        Ok(key) => key,
        Err(e) => return Err(e),
    };
    let ports = match resolve_ports(cli, server) {
        Ok(ports) => ports,
        Err(e) => return Err(e),
    };
    let source_ip = match resolve_source_ip(cli) {
        Ok(ip) => ip,
        Err(e) => return Err(e),
    };
    let username = resolve_username(cli, user);
    let client_timeout = resolve_timeout(cli, server);
    Ok(Request { master_key, source_ip, ports, username, client_timeout })
}

impl Request {
    /// The payload of the request, made at a time with a nonce.
    pub fn payload(&self, timestamp: i64, nonce: [u8; 16]) -> (r: SpaPayload)
        ensures
            r@ == request_payload(self@, timestamp, nonce@),
    {
        SpaPayload {
            nonce,
            timestamp,
            username: self.username.clone(),
            message: SpaMessage::Access {
                source_ip: self.source_ip,
                ports: copy_ports(&self.ports),
            },
            client_timeout: self.client_timeout,
        }
    }

    /// The packet that carries the request, made at a time with the two nonces.
    pub fn packet(&self, timestamp: i64, nonce: [u8; 16], gcm_nonce: &[u8; 12]) -> (r: Result<
        Vec<u8>,
        ClientError,
    >)
        ensures
            match packet::built(
                request_payload(self@, timestamp, nonce@),
                self.master_key@,
                gcm_nonce@,
            ) {
                Ok(wire) => r is Ok && r->Ok_0@ == wire,
                Err(e) => r is Err && r->Err_0@ == ClientErrorView::Proto(e),
            },
            r is Ok ==> carries(
                r->Ok_0@,
                self.master_key@,
                request_payload(self@, timestamp, nonce@),
            ),
    {
        let payload = self.payload(timestamp, nonce);
        match build_packet_with_nonce(&payload, self.master_key.as_slice(), gcm_nonce) {
            Ok(wire) => Ok(wire),
            Err(e) => Err(ClientError::Proto(e)),
        }
    }
}

/// Whether a payload is one of a request, made at a time that the clock gave with a nonce
/// that the random generator gave.
pub open spec fn asks_now(p: SpaPayloadView, nonce: [u8; 16], req: RequestView) -> bool {
    &&& p == request_payload(req, p.timestamp, nonce@)
    &&& time::clock_time(p.timestamp)
    &&& aead::generator_gives(Some(nonce))
}

/// Whether a packet carries a payload under a master key: it is authentic, and
/// reading it gives the payload.
pub open spec fn carries(wire: Seq<u8>, master: Seq<u8>, p: SpaPayloadView) -> bool {
    packet::authentic(wire, master) && packet::parsed(wire, master) == packet::read_back(p)
}

/// Whether a packet is the one that carries a payload under a master key and a nonce that
/// the random generator gave.
pub open spec fn sealed_now(wire: Seq<u8>, master: Seq<u8>, p: SpaPayloadView) -> bool {
    exists|gcm_nonce: [u8; 12]| #[trigger]
        aead::generator_gives(Some(gcm_nonce)) && outcome::gives(
            packet::built(p, master, gcm_nonce@),
            wire,
        )
}

/// Whether a packet carries a payload of a request, and was made now with fresh nonces.
pub open spec fn carries_request(wire: Seq<u8>, req: RequestView) -> bool {
    exists|p: SpaPayloadView, nonce: [u8; 16]| #[trigger]
        asks_now(p, nonce, req) && carries(wire, req.master_key, p) && sealed_now(
            wire,
            req.master_key,
            p,
        )
}

/// Whether an error can come of building a packet of a request: that of the random
/// generator, where it gave nothing, or that the payload cannot be encoded.
pub open spec fn fails_with(req: RequestView, e: ClientErrorView) -> bool {
    match e {
        ClientErrorView::Proto(cause) => exists|p: SpaPayloadView, nonce: [u8; 16]| #[trigger]
            asks_now(p, nonce, req) && (outcome::fails(payload::encoded(p), cause) || (cause
                == ProtoErrorView::AeadFailed && aead::generator_gives(None::<[u8; 12]>))),
        other => other == keygen::csprng_error() && aead::generator_gives(None::<[u8; 16]>),
    }
}

impl Request {
    /// The payload of the request, made now with a fresh nonce.
    fn fresh_payload(&self) -> (r: Result<SpaPayload, ClientError>)
        ensures
            match r {
                Ok(p) => exists|nonce: [u8; 16]| #[trigger] asks_now(p@, nonce, self@),
                Err(e) => e@ == keygen::csprng_error() && aead::generator_gives(None::<[u8; 16]>),
            },
    {
        let timestamp: i64 = unix_time_of(read_clock());
        match draw::<16>() {
            Some(nonce) => {
                let payload = self.payload(timestamp, nonce);
                assert(asks_now(payload@, nonce, self@));
                Ok(payload)
            },
            None => Err(csprng_failed()),
        }
    }

    /// The packet that carries the request, made now with fresh nonces.
    pub fn fresh_packet(&self) -> (r: Result<Vec<u8>, ClientError>)
        ensures
            match r {
                Ok(wire) => carries_request(wire@, self@),
                Err(e) => fails_with(self@, e@),
            },
    {
        let payload = match self.fresh_payload() {
            Ok(payload) => payload,
            Err(e) => return Err(e),
        };
        match build_packet(&payload, self.master_key.as_slice()) {
            Ok(wire) => Ok(wire),
            Err(e) => Err(ClientError::Proto(e)),
        }
    }
}

/// Builds the packet that carries what the command line and the server ask for, made
/// now with fresh nonces. `user` is the name of the user who runs the client, where it
/// is known. What is missing or not valid is an error; behind that, the payload may be
/// too large, and the random generator may fail.
pub fn build_spa_packet(cli: &Cli, server: Option<&ServerEntry>, user: Option<&str>) -> (r: Result<
    Vec<u8>,
    ClientError,
>)
    ensures
        match resolved(*cli, server, user) {
            Err(e) => r is Err && r->Err_0@ == e,
            Ok(req) => match r {
                Ok(wire) => carries_request(wire@, req),
                Err(e) => fails_with(req, e@),
            },
        },
{
    match resolve_request(cli, server, user) {
        Ok(req) => req.fresh_packet(),
        Err(e) => Err(e),
    }
}

/// A packet in base64, for a user who sends it by other means.
pub fn packet_text(wire: &[u8]) -> (r: String)
    requires
        wire@.len() <= shared::MAX_BASE64_INPUT,
    ensures
        r@ == shared::base64_text(wire@),
        outcome::gives(shared::base64_bytes(r@), wire@),
{
    shared::to_base64(wire)
}

/// The key on the command line is the bytes that its base64 text writes, in their order,
/// where there are 32 of them; and the daemon reads the same text to the same key.
pub proof fn law_key_is_read_unchanged(s: Seq<char>, bytes: Seq<u8>)
    requires
        outcome::gives(shared::base64_bytes(s), bytes),
    ensures
        bytes.len() == 32 ==> outcome::gives(key_argument(s), bytes),
        bytes.len() != 32 ==> key_argument(s) is Err,
        bytes.len() == 32 ==> outcome::gives(shared::key_of_text(s), bytes),
{
}

/// A text is a key for the client exactly where it is one for the daemon, and then it is
/// the same key.
pub proof fn law_client_and_daemon_read_the_same_key(s: Seq<char>, key: Seq<u8>)
    ensures
        outcome::gives(key_argument(s), key) <==> outcome::gives(shared::key_of_text(s), key),
        outcome::gives(key_argument(s), key) <==> outcome::gives(shared::base64_bytes(s), key)
            && key.len() == 32,
{
}

/// Writing a key in base64 and giving the text on the command line gives the key.
pub proof fn law_written_key_reads_back(
    key: Base64Key,
    cli: Cli,
    server: Option<&ServerEntry>,
    user: Option<&str>,
    r: Result<Request, ClientError>,
)
    requires
        cli.master_key_base64 is Some,
        call_ensures(Base64Key::encode, (&key,), cli.master_key_base64->0),
        call_ensures(resolve_request, (&cli, server, user), r),
    ensures
        r is Ok ==> r->Ok_0.master_key@ == key.0@,
        outcome::gives(resolved_key(cli, server), key.0@),
{
}

/// What the command line says counts before what the server says: the key, the ports and
/// the timeout are those of the command line where it has them, and those of the server
/// where it has not. A timeout that fits in 32 bits is asked for as it is, and one that
/// does not is not asked for.
pub proof fn law_command_line_counts_first(
    cli: Cli,
    server: Option<&ServerEntry>,
    user: Option<&str>,
)
    requires
        resolved(cli, server, user) is Ok,
    ensures
        ({
            let req = resolved(cli, server, user)->Ok_0;
            &&& req.master_key.len() == 32 || cli.master_key_base64 is None
            &&& match cli.master_key_base64 {
                Some(s) => outcome::gives(shared::base64_bytes(s@), req.master_key),
                None => server is Some && req.master_key == server->0.master_key_base64.0@,
            }
            &&& match cli.access {
                Some(s) => outcome::gives(access_argument(s@), req.ports) && req.ports.len() > 0,
                None => server is Some && req.ports == server->0.access.0@,
            }
            &&& match cli.source_ip {
                Some(s) => net::ip_of_text(s@) == Some(req.source_ip),
                None => req.source_ip == IpAddr::V4(0x7f00_0001),
            }
            &&& match (cli.username, user) {
                (Some(u), _) => req.username == u@,
                (None, Some(u)) => req.username == u@,
                (None, None) => req.username == "fwknox"@,
            }
            &&& cli.timeout is Some && cli.timeout->0 <= 0xffff_ffff ==> req.client_timeout is Some
                && req.client_timeout->0 as int == cli.timeout->0 as int
            &&& cli.timeout is Some && cli.timeout->0 > 0xffff_ffff ==> req.client_timeout is None
            &&& cli.timeout is None && server is Some && server->0.fw_timeout is Some
                && server->0.fw_timeout->0.secs <= 0xffff_ffff ==> req.client_timeout is Some
                && req.client_timeout->0 as int == server->0.fw_timeout->0.secs as int
            &&& cli.timeout is None && server is Some && server->0.fw_timeout is Some
                && server->0.fw_timeout->0.secs > 0xffff_ffff ==> req.client_timeout is None
            &&& cli.timeout is None && (server is None || server->0.fw_timeout is None)
                ==> req.client_timeout is None
        }),
{
}

/// A request is resolved wherever its parts are there and can be read: a key, ports and a
/// source.
pub proof fn law_complete_request_is_resolved(
    cli: Cli,
    server: Option<&ServerEntry>,
    user: Option<&str>,
)
    requires
        match cli.master_key_base64 {
            Some(s) => shared::base64_bytes(s@) is Ok && shared::base64_bytes(s@)->Ok_0.len() == 32,
            None => server is Some,
        },
        match cli.access {
            Some(s) => access_argument(s@) is Ok,
            None => server is Some,
        },
        cli.source_ip is Some ==> net::ip_of_text(cli.source_ip->0@) is Some,
    ensures
        resolved(cli, server, user) is Ok,
{
}

/// The texts of ports.
pub open spec fn port_texts(ports: Seq<PortProto>) -> Seq<Seq<char>> {
    ports.map_values(|p: PortProto| types::port_text(p))
}

/// Ports that are written with commas between them are read back, however many there are
/// and in their order.
pub proof fn law_ports_read_back(ports: Seq<PortProto>)
    requires
        ports.len() > 0,
        forall|i: int| 0 <= i < ports.len() ==> (#[trigger] ports[i]).port > 0,
    ensures
        outcome::gives(access_argument(text::joined(port_texts(ports), ',')), ports),
{
    let texts = port_texts(ports);
    assert forall|i: int, j: int| 0 <= i < texts.len() && 0 <= j < texts[i].len() implies (
    #[trigger] texts[i][j]) != ',' by {
        lemma_port_text_chars(ports[i]);
        assert(texts[i] == types::port_text(ports[i]));
    }
    text::law_split_undoes_joined(texts, ',');
    lemma_texts_read_back(ports);
}

/// The text of a port starts and ends with visible characters and holds no comma.
proof fn lemma_port_text_chars(p: PortProto)
    ensures
        types::port_text(p).len() > 4,
        text::trim(types::port_text(p)) == types::port_text(p),
        text::lacks(types::port_text(p), ','),
{
    reveal_strlit("tcp");
    reveal_strlit("udp");
    text::lemma_decimal_digits(p.port as nat);
    let s = types::port_text(p);
    let digits = text::decimal(p.port as nat);
    assert(s.last() == digits.last());
    assert('0' <= digits[digits.len() - 1] <= '9');
    assert(s[0] == 't' || s[0] == 'u');
    assert forall|j: int| 0 <= j < s.len() implies s[j] != ',' by {
        if j >= 4 {
            assert(s[j] == digits[j - 4]);
        }
    }
}

proof fn lemma_texts_read_back(ports: Seq<PortProto>)
    requires
        forall|i: int| 0 <= i < ports.len() ==> (#[trigger] ports[i]).port > 0,
    ensures
        outcome::gives(token_ports(port_texts(ports)), ports),
    decreases ports.len(),
{
    if ports.len() > 0 {
        let head = ports.drop_last();
        assert forall|i: int| 0 <= i < head.len() implies (#[trigger] head[i]).port > 0 by {
            assert(ports[i].port > 0);
        }
        lemma_texts_read_back(head);
        assert(port_texts(ports).drop_last() =~= port_texts(head));
        let p = ports[ports.len() - 1];
        assert(port_texts(ports).last() == types::port_text(p));
        lemma_port_text_chars(p);
        shared::law_port_reads_back(p);
        assert(head.push(p) =~= ports);
    } else {
        assert(ports =~= Seq::<PortProto>::empty());
        assert(port_texts(ports).len() == 0);
    }
}

/// White space around a token and a token without text change nothing; and a token that
/// writes no port fails the whole argument.
pub proof fn law_tokens_one_by_one(tokens: Seq<Seq<char>>, token: Seq<char>)
    ensures
        token_ports(tokens) is Err ==> token_ports(tokens.push(token)) == token_ports(tokens),
        token_ports(tokens) is Ok && (forall|k: int|
            0 <= k < token.len() ==> text::white_space(#[trigger] token[k])) ==> token_ports(
            tokens.push(token),
        ) == token_ports(tokens),
        token_ports(tokens) is Ok && text::trim(token).len() > 0 ==> match shared::port_of_text(
            text::trim(token),
        ) {
            Ok(p) => outcome::gives(
                token_ports(tokens.push(token)),
                token_ports(tokens)->Ok_0.push(p),
            ),
            Err(e) => outcome::fails(token_ports(tokens.push(token)), e),
        },
{
    assert(tokens.push(token).drop_last() =~= tokens);
    text::law_trim_takes_white_space_only(token);
    if (forall|k: int| 0 <= k < token.len() ==> text::white_space(#[trigger] token[k]))
        && text::trim(token).len() > 0 {
        let (i, j) = choose|i: int, j: int|
            0 <= i <= j <= token.len() && text::trim(token) == #[trigger] token.subrange(i, j);
        assert(text::trim(token)[0] == token[i]);
    }
}

/// The payload of a request holds what the request asks for, each value where it belongs.
pub proof fn law_payload_holds_the_request(
    req: Request,
    timestamp: i64,
    nonce: [u8; 16],
    r: SpaPayload,
)
    requires
        call_ensures(Request::payload, (&req, timestamp, nonce), r),
    ensures
        r.nonce@ == nonce@,
        r.timestamp == timestamp,
        r.username@ == req.username@,
        r.client_timeout == req.client_timeout,
        match r.message {
            SpaMessage::Access { source_ip, ports } => source_ip == req.source_ip && ports@
                == req.ports@,
            _ => false,
        },
{
    assert(r@ == request_payload(req@, timestamp, nonce@));
    assert(r.message@ == r@.message);
}

/// A fresh packet says when it was made: its payload's time is a reading of the clock, its
/// nonces are draws of the random generator, and reading it under the request's key gives
/// that payload, where the username is plain.
pub proof fn law_fresh_packet_carries_the_request(wire: Seq<u8>, req: RequestView)
    requires
        carries_request(wire, req),
        req.username.len() <= 64,
        forall|i: int|
            0 <= i < req.username.len() ==> 0x20 <= (#[trigger] req.username[i]) as int <= 0x7e,
    ensures
        packet::parsed(wire, req.master_key) is Ok,
        ({
            let p = packet::parsed(wire, req.master_key)->Ok_0;
            &&& p.username == req.username
            &&& p.client_timeout == req.client_timeout
            &&& p.message is Access
            &&& p.message->Access_source_ip == req.source_ip
            &&& p.message->Access_ports == req.ports
            &&& time::clock_time(p.timestamp)
            &&& exists|nonce: [u8; 16]| #[trigger] aead::generator_gives(Some(nonce)) && p.nonce
                == nonce@
        }),
{
    let (p, nonce) = choose|p: SpaPayloadView, nonce: [u8; 16]| #[trigger]
        asks_now(p, nonce, req) && carries(wire, req.master_key, p) && sealed_now(
            wire,
            req.master_key,
            p,
        );
    packet::law_plain_payload_reads_back(p);
    assert(aead::generator_gives(Some(nonce)) && p.nonce == nonce@);
}

/// What is missing or cannot be read is told, the first of the key, the ports and the source:
/// each is missing where neither the command line nor a server gives it, a key is told what
/// base64 says against it or how many bytes it has, and a list of ports must not be empty.
pub proof fn law_first_bad_part_is_told(cli: Cli, server: Option<&ServerEntry>, user: Option<&str>)
    ensures
        cli.master_key_base64 is None && server is None ==> outcome::fails(
            resolved(cli, server, user),
            ClientErrorView::MissingArgument("master_key (-k or via -n / --name)"@),
        ),
        cli.master_key_base64 is Some ==> match shared::base64_bytes(cli.master_key_base64->0@) {
            Err(e) => outcome::fails(
                resolved(cli, server, user),
                ClientErrorView::InvalidArgument("master-key-base64"@, e),
            ),
            Ok(bytes) => bytes.len() != 32 ==> outcome::fails(
                resolved(cli, server, user),
                ClientErrorView::InvalidArgument(
                    "master-key-base64"@,
                    "expected 32 bytes, got "@ + text::decimal(bytes.len()),
                ),
            ),
        },
        resolved_key(cli, server) is Ok && cli.access is None && server is None ==> outcome::fails(
            resolved(cli, server, user),
            ClientErrorView::MissingArgument("access (-A or via -n / --name)"@),
        ),
        resolved_key(cli, server) is Ok && cli.access is Some && (forall|k: int|
            0 <= k < cli.access->0@.len() ==> text::white_space(#[trigger] cli.access->0@[k]))
            ==> outcome::fails(
            resolved(cli, server, user),
            ClientErrorView::InvalidArgument("access"@, "empty list"@),
        ),
        resolved_key(cli, server) is Ok && resolved_ports(cli, server) is Ok
            && cli.source_ip is Some && net::ip_of_text(cli.source_ip->0@) is None
            ==> outcome::fails(
            resolved(cli, server, user),
            ClientErrorView::InvalidArgument("source-ip"@, "invalid IP address syntax"@),
        ),
{
    if cli.access is Some && (forall|k: int|
        0 <= k < cli.access->0@.len() ==> text::white_space(#[trigger] cli.access->0@[k])) {
        let s = cli.access->0@;
        assert(text::lacks(s, ','));
        text::lemma_split_one(s, ',');
        let tokens = Seq::<Seq<char>>::empty();
        assert(tokens.push(s) =~= seq![s]);
        law_tokens_one_by_one(tokens, s);
    }
}

/// Building a packet of a request fails only for a cause: the random generator gave nothing, or
/// a payload of the request cannot be encoded.
pub proof fn law_failures_have_a_cause(req: RequestView, e: ClientErrorView)
    requires
        fails_with(req, e),
    ensures
        aead::generator_gives(None::<[u8; 16]>) || aead::generator_gives(None::<[u8; 12]>) || exists|
            p: SpaPayloadView,
        |
            #[trigger] payload::encoded(p) is Err && p.username == req.username && p.client_timeout
                == req.client_timeout && p.message == (SpaMessageView::Access {
                source_ip: req.source_ip,
                ports: req.ports,
            }) && e == ClientErrorView::Proto(payload::encoded(p)->Err_0),
{
}

/// The nonce under which a fresh packet is sealed stands in the packet and is a draw of the
/// random generator.
pub proof fn law_fresh_packet_shows_its_nonce(wire: Seq<u8>, master: Seq<u8>, p: SpaPayloadView)
    requires
        sealed_now(wire, master, p),
    ensures
        exists|nonce: [u8; 12]| #[trigger]
            aead::generator_gives(Some(nonce)) && wire.subrange(4, 16) == nonce@,
        wire[0] == 1,
{
    let nonce = choose|nonce: [u8; 12]| #[trigger]
        aead::generator_gives(Some(nonce)) && outcome::gives(
            packet::built(p, master, nonce@),
            wire,
        );
    packet::law_packet_on_the_wire(p, master, nonce@, wire);
    assert(aead::generator_gives(Some(nonce)) && wire.subrange(4, 16) == nonce@);
}

/// A list with a token that writes no port is refused for that token, and a list without any
/// port is refused as empty.
pub proof fn law_bad_lists_of_ports(s: Seq<char>)
    ensures
        match token_ports(text::split(s, ',')) {
            Err(msg) => outcome::fails(
                access_argument(s),
                ClientErrorView::InvalidArgument("access"@, "invalid configuration: "@ + msg),
            ),
            Ok(ports) => if ports.len() > 0 {
                outcome::gives(access_argument(s), ports)
            } else {
                outcome::fails(
                    access_argument(s),
                    ClientErrorView::InvalidArgument("access"@, "empty list"@),
                )
            },
        },
{
}

} // verus!
