//! Values that the client and the daemon configuration share: sources, ports and
//! keys.

use crate::config::error::{ConfigError, ConfigErrorView};
use crate::net;
use crate::net::{IpAddr, IpNet};
use crate::outcome;
use crate::proto::kdf::zero_bytes;
use crate::proto::types;
use crate::proto::types::{PortProto, Protocol};
use crate::text;
use vstd::prelude::*;
use vstd::slice::slice_subrange;

verus! {

/// A source that a stanza admits: one address, a range, or any address.
#[derive(Clone, Copy, Debug, PartialEq, Eq, Structural)]
pub enum SourceSpec {
    /// Every address.
    Any,
    /// The addresses of a range.
    Cidr(IpNet),
    /// One address.
    Single(IpAddr),
}

/// Whether a source admits an address.
pub open spec fn source_matches(spec: SourceSpec, ip: IpAddr) -> bool {
    match spec {
        SourceSpec::Any => true,
        SourceSpec::Cidr(net) => net::net_contains(net, ip),
        SourceSpec::Single(addr) => addr == ip,
    }
}

/// The source that a text writes, or the message of the error: `any` in upper or
/// lower case, then a range, then an address. White space around it is ignored.
pub open spec fn source_of_text(s: Seq<char>) -> Result<SourceSpec, Seq<char>> {
    let t = text::trim(s);
    if text::lower_all(t) == "any"@ {
        Ok(SourceSpec::Any)
    } else if let Some(net) = net::net_of_text(t) {
        Ok(SourceSpec::Cidr(net))
    } else if let Some(ip) = net::ip_of_text(t) {
        Ok(SourceSpec::Single(ip))
    } else {
        Err("could not parse source spec: "@ + text::debug_quoted(t))
    }
}

/// The text of a source.
pub open spec fn source_text(spec: SourceSpec) -> Seq<char> {
    match spec {
        SourceSpec::Any => "any"@,
        SourceSpec::Cidr(net) => net::net_text(net),
        SourceSpec::Single(ip) => net::ip_text(ip),
    }
}

impl SourceSpec {
    /// Whether the source admits an address.
    #[must_use]
    pub fn matches(&self, ip: IpAddr) -> (r: bool)
        ensures
            r == source_matches(*self, ip),
    {
        match self {
            SourceSpec::Any => true,
            SourceSpec::Cidr(net) => net.contains(ip),
            SourceSpec::Single(addr) => *addr == ip,
        }
    }

    /// The text of the source.
    pub fn to_string(&self) -> (r: String)
        ensures
            r@ == source_text(*self),
    {
        match self {
            SourceSpec::Any => "any".to_owned(),
            SourceSpec::Cidr(net) => net.to_string(),
            SourceSpec::Single(ip) => ip.to_string(),
        }
    }
}

impl std::str::FromStr for SourceSpec {
    type Err = ConfigError;

    fn from_str(s: &str) -> (r: Result<SourceSpec, ConfigError>)
        ensures
            match source_of_text(s@) {
                Ok(spec) => r == Ok::<SourceSpec, ConfigError>(spec),
                Err(msg) => r is Err && r->Err_0@ == ConfigErrorView::Invalid(msg),
            },
    {
        let chars = text::chars_of(s);
        let t = text::trimmed(chars.as_slice());
        let lowered = text::lowered(t);
        let trimmed = text::string_of(t);
        if text::same_chars(lowered.as_slice(), text::chars_of("any").as_slice()) {
            return Ok(SourceSpec::Any);
        }
        if let Some(net) = IpNet::parse(trimmed.as_str()) {
            return Ok(SourceSpec::Cidr(net));
        }
        if let Some(ip) = IpAddr::parse(trimmed.as_str()) {
            return Ok(SourceSpec::Single(ip));
        }
        let mut msg = "could not parse source spec: ".to_owned();
        msg.append(text::quoted(trimmed.as_str()).as_str());
        Err(ConfigError::Invalid(msg))
    }
}

/// The port that a text of the form `proto/port` writes, or the message of the error.
pub open spec fn port_of_text(s: Seq<char>) -> Result<PortProto, Seq<char>> {
    match text::find(s, '/') {
        None => Err("expected proto/port, got "@ + text::debug_quoted(s)),
        Some(i) => {
            let name = text::lower_all(text::trim(s.take(i)));
            let proto = if name == "tcp"@ {
                Some(Protocol::Tcp)
            } else if name == "udp"@ {
                Some(Protocol::Udp)
            } else {
                None
            };
            match proto {
                None => Err("unknown protocol: "@ + text::debug_quoted(name)),
                Some(proto) => match text::number_u16(text::trim(s.skip(i + 1))) {
                    Err(e) => Err("invalid port: "@ + text::number_error_text(e)),
                    Ok(port) => if port == 0 {
                        Err("port must be > 0"@)
                    } else {
                        Ok(PortProto { proto, port })
                    },
                },
            }
        },
    }
}

/// Reads a port in the form `proto/port`. The protocol may be in upper or lower
/// case, and white space around either part is ignored.
pub fn parse_port_proto(s: &str) -> (r: Result<PortProto, ConfigError>)
    ensures
        match port_of_text(s@) {
            Ok(p) => r == Ok::<PortProto, ConfigError>(p),
            Err(msg) => r is Err && r->Err_0@ == ConfigErrorView::Invalid(msg),
        },
{
    let chars = text::chars_of(s);
    let all = chars.as_slice();
    let n: usize = all.len();
    let i: usize = match text::position(all, '/') {
        Some(i) => i,
        None => {
            let mut msg = "expected proto/port, got ".to_owned();
            msg.append(text::quoted(s).as_str());
            return Err(ConfigError::Invalid(msg));
        },
    };
    let before = slice_subrange(all, 0, i);
    let after = slice_subrange(all, i + 1, n);
    assert(before@ =~= s@.take(i as int));
    assert(after@ =~= s@.skip(i + 1));
    let name = text::lowered(text::trimmed(before));
    let proto = if text::same_chars(name.as_slice(), text::chars_of("tcp").as_slice()) {
        Protocol::Tcp
    } else if text::same_chars(name.as_slice(), text::chars_of("udp").as_slice()) {
        Protocol::Udp
    } else {
        let mut msg = "unknown protocol: ".to_owned();
        msg.append(text::quoted(text::string_of(name.as_slice()).as_str()).as_str());
        return Err(ConfigError::Invalid(msg));
    };
    let port: u16 = match text::parse_u16(text::trimmed(after)) {
        Ok(port) => port,
        Err(e) => {
            let mut msg = "invalid port: ".to_owned();
            msg.append(text::number_error_str(e));
            return Err(ConfigError::Invalid(msg));
        },
    };
    if port == 0 {
        return Err(ConfigError::Invalid("port must be > 0".to_owned()));
    }
    Ok(PortProto::new(proto, port))
}

/// The text that a port is displayed as reads back as the port.
pub proof fn law_port_reads_back(p: PortProto)
    requires
        p.port > 0,
    ensures
        outcome::gives(port_of_text(types::port_text(p)), p),
{
    reveal_strlit("tcp");
    reveal_strlit("udp");
    let s = types::port_text(p);
    let name = types::protocol_text(p.proto);
    let digits = text::decimal(p.port as nat);
    text::lemma_decimal_digits(p.port as nat);
    text::law_decimal_reads_back(p.port);
    text::lemma_find(s, '/', 3);
    assert(s.take(3) =~= name);
    assert(s.skip(4) =~= digits);
    assert(text::trim(name) == name);
    assert(text::lower_all(name) =~= name);
    assert("tcp"@ != "udp"@) by {
        assert("tcp"@[0] == 't' && "udp"@[0] == 'u');
    }
    assert(!text::white_space(digits[0]) && !text::white_space(digits.last()));
    assert(text::trim(digits) == digits);
}

/// Ports in a configuration.
#[derive(Clone, Debug, PartialEq, Eq)]
pub struct PortProtoList(
    /// The ports.
    pub Vec<PortProto>,
);

/// The views of a sequence of strings.
pub open spec fn strings_view(strings: Seq<String>) -> Seq<Seq<char>> {
    strings.map_values(|s: String| s@)
}

/// The ports that texts write, or the message of the error for the first that writes
/// none.
pub open spec fn ports_of_texts(texts: Seq<Seq<char>>) -> Result<Seq<PortProto>, Seq<char>>
    decreases texts.len(),
{
    if texts.len() == 0 {
        Ok(Seq::empty())
    } else {
        match ports_of_texts(texts.drop_last()) {
            Err(msg) => Err(msg),
            Ok(ports) => match port_of_text(texts.last()) {
                Err(msg) => Err(msg),
                Ok(p) => Ok(ports.push(p)),
            },
        }
    }
}

/// A failure stays, whatever follows.
proof fn lemma_texts_prefix(texts: Seq<Seq<char>>, n: int)
    requires
        0 <= n <= texts.len(),
        ports_of_texts(texts.take(n)) is Err,
    ensures
        ports_of_texts(texts) == ports_of_texts(texts.take(n)),
    decreases texts.len(),
{
    if n < texts.len() {
        assert(texts.drop_last().take(n) =~= texts.take(n));
        lemma_texts_prefix(texts.drop_last(), n);
    } else {
        assert(texts.take(n) =~= texts);
    }
}

impl PortProtoList {
    /// The ports that strings of the form `proto/port` write. The first string that
    /// writes none is the error.
    pub fn from_strings(strings: &Vec<String>) -> (r: Result<PortProtoList, ConfigError>)
        ensures
            match ports_of_texts(strings_view(strings@)) {
                Ok(ports) => r is Ok && r->Ok_0.0@ == ports,
                Err(msg) => r is Err && r->Err_0@ == ConfigErrorView::Invalid(msg),
            },
    {
        let mut ports: Vec<PortProto> = Vec::new();
        let ghost all = strings_view(strings@);
        for i in 0..strings.len()
            invariant
                all == strings_view(strings@),
                outcome::gives(ports_of_texts(all.take(i as int)), ports@),
        {
            assert(all.take(i + 1).drop_last() =~= all.take(i as int));
            assert(all.take(i + 1).last() == strings@[i as int]@);
            match parse_port_proto(strings[i].as_str()) {
                Ok(p) => ports.push(p),
                Err(e) => {
                    proof {
                        lemma_texts_prefix(all, i + 1);
                    }
                    return Err(e);
                },
            }
        }
        assert(all.take(all.len() as int) =~= all);
        Ok(PortProtoList(ports))
    }
}

/// The length up to which bytes are written in base64. A longer text need not fit in
/// memory on every machine.
pub const MAX_BASE64_INPUT: usize = 0x3fff_ffff;

/// The standard base64 text of bytes.
pub uninterp spec fn base64_text(bytes: Seq<u8>) -> Seq<char>;

/// The bytes that a standard base64 text writes, or the text of the error.
pub uninterp spec fn base64_bytes(s: Seq<char>) -> Result<Seq<u8>, Seq<char>>;

/// `encode` of the engine `base64::engine::general_purpose::STANDARD`. The contract
/// names the text and says that it decodes to the bytes. It panics where the text would
/// be too long.
#[verifier::external_body]
pub(crate) fn to_base64(bytes: &[u8]) -> (r: String)
    requires
        bytes@.len() <= MAX_BASE64_INPUT,
    ensures
        r@ == base64_text(bytes@),
        outcome::gives(base64_bytes(r@), bytes@),
{
    base64::Engine::encode(&base64::engine::general_purpose::STANDARD, bytes)
}

/// `decode` of the engine `base64::engine::general_purpose::STANDARD`. The contract
/// names the bytes, or the `Display` text of the error.
#[verifier::external_body]
pub(crate) fn of_base64(s: &str) -> (r: Result<Vec<u8>, String>)
    ensures
        match r {
            Ok(bytes) => outcome::gives(base64_bytes(s@), bytes@),
            Err(e) => outcome::fails(base64_bytes(s@), e@),
        },
{
    base64::Engine::decode(&base64::engine::general_purpose::STANDARD, s).map_err(|e| e.to_string())
}

/// A key of 32 bytes, which a configuration holds in base64.
#[derive(Clone, PartialEq, Eq)]
pub struct Base64Key(
    /// The bytes of the key.
    pub [u8; 32],
);

/// The key that a base64 text writes, or the text of the error.
pub open spec fn key_of_text(s: Seq<char>) -> Result<Seq<u8>, Seq<char>> {
    match base64_bytes(s) {
        Err(e) => Err(e),
        Ok(bytes) => if bytes.len() != 32 {
            Err("expected 32-byte key, got "@ + text::decimal(bytes.len()))
        } else {
            Ok(bytes)
        },
    }
}

/// The 32 bytes of a slice.
pub(crate) fn array_of(bytes: &[u8]) -> (r: [u8; 32])
    requires
        bytes@.len() == 32,
    ensures
        r@ == bytes@,
{
    let mut r: [u8; 32] = [0u8; 32];
    for i in 0..32usize
        invariant
            bytes@.len() == 32,
            r@.len() == 32,
            forall|j: int| 0 <= j < i ==> r@[j] == bytes@[j],
    {
        r[i] = bytes[i];
    }
    assert(r@ =~= bytes@);
    r
}

impl Base64Key {
    /// The bytes of the key.
    #[must_use]
    pub fn as_bytes(&self) -> (r: &[u8; 32])
        ensures
            *r == self.0,
    {
        &self.0
    }

    /// Whether every byte of the key is zero.
    #[must_use]
    pub fn is_all_zero(&self) -> (r: bool)
        ensures
            r == all_zero(self.0@),
    {
        for i in 0..32usize
            invariant
                forall|j: int| 0 <= j < i ==> self.0@[j] == 0,
        {
            if self.0[i] != 0 {
                assert(self.0@[i as int] != 0);
                return false;
            }
        }
        true
    }

    /// The key that a base64 text writes, or the text of the error: that of the
    /// decoder, or that the length is not 32.
    pub fn decode(s: &str) -> (r: Result<Base64Key, String>)
        ensures
            match key_of_text(s@) {
                Ok(bytes) => r is Ok && r->Ok_0.0@ == bytes,
                Err(e) => r is Err && r->Err_0@ == e,
            },
    {
        let bytes = match of_base64(s) {
            Ok(bytes) => bytes,
            Err(e) => return Err(e),
        };
        if bytes.len() != 32 {
            let mut msg = "expected 32-byte key, got ".to_owned();
            text::push_decimal(&mut msg, bytes.len() as u64);
            return Err(msg);
        }
        Ok(Base64Key(array_of(bytes.as_slice())))
    }

    /// The key in base64, which decodes to the key.
    pub fn encode(&self) -> (r: String)
        ensures
            r@ == base64_text(self.0@),
            outcome::gives(key_of_text(r@), self.0@),
    {
        to_base64(self.0.as_slice())
    }

    /// Overwrites the key with zeros.
    pub fn wipe(&mut self)
        ensures
            all_zero(final(self).0@),
    {
        zero_bytes(&mut self.0);
    }

    /// What a log may show of the key, which is none of its bytes.
    pub fn debug_text(&self) -> (r: String)
        ensures
            r@ == "Base64Key(<redacted>)"@,
    {
        "Base64Key(<redacted>)".to_owned()
    }
}

/// Whether every byte is zero.
pub open spec fn all_zero(bytes: Seq<u8>) -> bool {
    forall|i: int| 0 <= i < bytes.len() ==> bytes[i] == 0
}

/// Which addresses a source admits: all of them, those that lie in its range, or the one
/// that it names.
pub proof fn law_source_admits(net: IpNet, a: IpAddr, b: IpAddr)
    ensures
        source_matches(SourceSpec::Any, b),
        source_matches(SourceSpec::Single(a), b) <==> a == b,
        source_matches(SourceSpec::Cidr(net), b) <==> net::net_contains(net, b),
{
}

/// A source text is read by what it writes: `any` in whatever case, a range, or an address,
/// in this order, and white space around it does not matter.
pub proof fn law_source_texts(before: Seq<char>, s: Seq<char>, after: Seq<char>)
    requires
        forall|k: int| 0 <= k < before.len() ==> text::white_space(#[trigger] before[k]),
        forall|k: int| 0 <= k < after.len() ==> text::white_space(#[trigger] after[k]),
        s.len() > 0,
        !text::white_space(s[0]),
        !text::white_space(s.last()),
    ensures
        source_of_text(before + s + after) == source_of_text(s),
        text::lower_all(s) == "any"@ ==> outcome::gives(source_of_text(s), SourceSpec::Any),
        text::lower_all(s) != "any"@ && net::net_of_text(s) is Some ==> outcome::gives(
            source_of_text(s),
            SourceSpec::Cidr(net::net_of_text(s)->0),
        ),
        text::lower_all(s) != "any"@ && net::net_of_text(s) is None && net::ip_of_text(s) is Some
            ==> outcome::gives(source_of_text(s), SourceSpec::Single(net::ip_of_text(s)->0)),
        text::lower_all(s) != "any"@ && net::net_of_text(s) is None && net::ip_of_text(s) is None
            ==> source_of_text(s) is Err,
{
    text::law_trim_undoes_padding(before, s, after);
    text::law_trim_undoes_padding(Seq::empty(), s, Seq::empty());
    assert(Seq::<char>::empty() + s + Seq::<char>::empty() =~= s);
}

/// A text writes a port exactly where it is a protocol name in whatever case, a slash and a
/// number from 1 to 65535, with or without white space around the name and the number.
pub proof fn law_port_texts(name: Seq<char>, number: Seq<char>, p: PortProto)
    requires
        forall|k: int| 0 <= k < name.len() ==> (#[trigger] name[k]) as int != 47,
    ensures
        outcome::gives(port_of_text(name + seq!['/'] + number), p) <==> {
            &&& text::lower_all(text::trim(name)) == (if p.proto == Protocol::Tcp {
                "tcp"@
            } else {
                "udp"@
            })
            &&& text::number_u16(text::trim(number)) == Ok::<u16, text::NumberError>(p.port)
            &&& p.port > 0
        },
{
    reveal_strlit("tcp");
    reveal_strlit("udp");
    assert("tcp"@[0] == 't' && "udp"@[0] == 'u');
    let s = name + seq!['/'] + number;
    let n = name.len() as int;
    assert forall|i: int| 0 <= i < n implies s[i] != '/' by {
        assert(s[i] == name[i]);
    }
    text::lemma_find(s, '/', n);
    assert(s.take(n) =~= name);
    assert(s.skip(n + 1) =~= number);
}

/// A text without a slash writes no port.
pub proof fn law_port_needs_a_slash(s: Seq<char>)
    requires
        forall|k: int| 0 <= k < s.len() ==> (#[trigger] s[k]) as int != 47,
    ensures
        port_of_text(s) is Err,
{
    text::law_find_is_first(s, '/');
}

/// Where a list of texts writes ports, there are as many ports as texts, and each text
/// writes the port at its place.
pub proof fn law_ports_one_by_one(texts: Seq<Seq<char>>, i: int)
    requires
        ports_of_texts(texts) is Ok,
        0 <= i < texts.len(),
    ensures
        ports_of_texts(texts)->Ok_0.len() == texts.len(),
        outcome::gives(port_of_text(texts[i]), ports_of_texts(texts)->Ok_0[i]),
    decreases texts.len(),
{
    let head = texts.drop_last();
    let rest = ports_of_texts(head);
    let last = port_of_text(texts.last());
    assert(rest is Ok && last is Ok);
    assert(ports_of_texts(texts)->Ok_0 == rest->Ok_0.push(last->Ok_0));
    if head.len() == 0 {
        assert(rest->Ok_0.len() == 0);
    } else {
        law_ports_one_by_one(head, if i < head.len() {
            i
        } else {
            0
        });
    }
    if i < head.len() {
        assert(head[i] == texts[i]);
    }
}

/// A list of texts of which each writes a port writes ports.
pub proof fn law_ports_are_read_where_each_is(texts: Seq<Seq<char>>)
    requires
        forall|i: int| 0 <= i < texts.len() ==> port_of_text(#[trigger] texts[i]) is Ok,
    ensures
        ports_of_texts(texts) is Ok,
    decreases texts.len(),
{
    if texts.len() > 0 {
        let head = texts.drop_last();
        assert forall|i: int| 0 <= i < head.len() implies port_of_text(#[trigger] head[i]) is Ok by {
            assert(head[i] == texts[i]);
        }
        law_ports_are_read_where_each_is(head);
        assert(port_of_text(texts[texts.len() - 1]) is Ok);
    }
}

/// The first text that writes no port is the error for the list, whatever follows.
pub proof fn law_first_bad_port_decides(texts: Seq<Seq<char>>, i: int)
    requires
        0 <= i < texts.len(),
        port_of_text(texts[i]) is Err,
        forall|k: int| 0 <= k < i ==> port_of_text(#[trigger] texts[k]) is Ok,
    ensures
        outcome::fails(ports_of_texts(texts), port_of_text(texts[i])->Err_0),
{
    let upto = texts.take(i + 1);
    let before = texts.take(i);
    assert forall|k: int| 0 <= k < before.len() implies port_of_text(#[trigger] before[k]) is Ok by {
        assert(before[k] == texts[k]);
    }
    law_ports_are_read_where_each_is(before);
    assert(upto.drop_last() =~= before);
    assert(upto.last() == texts[i]);
    lemma_texts_prefix(texts, i + 1);
}

/// A text is a key exactly where it writes 32 bytes, and the key is these bytes.
pub proof fn law_key_texts(s: Seq<char>, bytes: Seq<u8>)
    ensures
        outcome::gives(key_of_text(s), bytes) <==> outcome::gives(base64_bytes(s), bytes)
            && bytes.len() == 32,
{
}

/// Bytes are all zero exactly where none of them is another number.
pub proof fn law_one_other_byte_is_enough(bytes: Seq<u8>, i: int)
    ensures
        0 <= i < bytes.len() && bytes[i] as int != 0 ==> !all_zero(bytes),
        all_zero(Seq::new(bytes.len(), |k: int| 0u8)),
{
}

/// The text of a source: `any`, the address and the length of its prefix, or the address.
pub proof fn law_source_texts_are_written(net: IpNet, ip: IpAddr)
    ensures
        source_text(SourceSpec::Any) == "any"@,
        source_text(SourceSpec::Single(ip)) == net::ip_text(ip),
        source_text(SourceSpec::Cidr(net)) == net::ip_text(net.addr) + seq!['/'] + text::decimal(
            net.prefix_len as nat,
        ),
{
}

/// What is wrong with a text that writes no port, the first of these: it has no slash, the
/// name in front of the slash is no protocol, the rest is no number, or the number is 0.
pub proof fn law_port_errors(name: Seq<char>, number: Seq<char>)
    requires
        forall|k: int| 0 <= k < name.len() ==> (#[trigger] name[k]) as int != 47,
    ensures
        outcome::fails(port_of_text(name), "expected proto/port, got "@ + text::debug_quoted(name)),
        ({
            let r = port_of_text(name + seq!['/'] + number);
            let proto = text::lower_all(text::trim(name));
            let port = text::number_u16(text::trim(number));
            let known = proto == "tcp"@ || proto == "udp"@;
            &&& !known ==> outcome::fails(r, "unknown protocol: "@ + text::debug_quoted(proto))
            &&& known && port is Err ==> outcome::fails(
                r,
                "invalid port: "@ + text::number_error_text(port->Err_0),
            )
            &&& known && port is Ok && port->Ok_0 == 0 ==> outcome::fails(r, "port must be > 0"@)
            &&& known && port is Ok && port->Ok_0 > 0 ==> r is Ok
        }),
{
    text::law_find_is_first(name, '/');
    let s = name + seq!['/'] + number;
    let n = name.len() as int;
    assert forall|i: int| 0 <= i < n implies s[i] != '/' by {
        assert(s[i] == name[i]);
    }
    text::lemma_find(s, '/', n);
    assert(s.take(n) =~= name);
    assert(s.skip(n + 1) =~= number);
}

/// What a list of strings gives, one by one: as many ports as strings, each the one that its
/// string writes.
pub proof fn law_strings_are_read_one_by_one(
    strings: Vec<String>,
    r: Result<PortProtoList, ConfigError>,
    i: int,
)
    requires
        call_ensures(PortProtoList::from_strings, (&strings,), r),
        0 <= i < strings@.len(),
    ensures
        r is Ok ==> r->Ok_0.0@.len() == strings@.len() && outcome::gives(
            port_of_text(strings@[i]@),
            r->Ok_0.0@[i],
        ),
        port_of_text(strings@[i]@) is Err ==> r is Err,
{
    let texts = strings_view(strings@);
    assert(texts[i] == strings@[i]@);
    if ports_of_texts(texts) is Ok {
        law_ports_one_by_one(texts, i);
    }
}

/// A text that is no key is told what base64 says against it, or how many bytes it writes.
pub proof fn law_key_text_errors(s: Seq<char>)
    ensures
        match base64_bytes(s) {
            Err(e) => outcome::fails(key_of_text(s), e),
            Ok(bytes) => bytes.len() != 32 ==> outcome::fails(
                key_of_text(s),
                "expected 32-byte key, got "@ + text::decimal(bytes.len()),
            ),
        },
{
}

} // verus!
