//! Network addresses: IP addresses, socket addresses and address ranges.

use crate::text;
use vstd::arithmetic::power2;
use vstd::prelude::*;

verus! {

/// An IP address, held as the number that its octets write in network order.
#[derive(Clone, Copy, Debug, PartialEq, Eq, Hash, Structural)]
pub enum IpAddr {
    /// An IPv4 address.
    V4(u32),
    /// An IPv6 address.
    V6(u128),
}

/// An IP address with a port.
#[allow(inconsistent_fields)]
#[derive(Clone, Copy, Debug, PartialEq, Eq, Hash, Structural)]
pub enum SocketAddr {
    /// An IPv4 address and a port.
    V4 {
        /// The address.
        ip: u32,
        /// The port.
        port: u16,
    },
    /// An IPv6 address, a port and the scope of the address.
    V6 {
        /// The address.
        ip: u128,
        /// The port.
        port: u16,
        /// The scope identifier, 0 where there is none.
        scope_id: u32,
    },
}

/// A range of addresses: those that share the first `prefix_len` bits of `addr`.
#[derive(Clone, Copy, Debug, PartialEq, Eq, Hash, Structural)]
pub struct IpNet {
    /// An address of the range.
    pub addr: IpAddr,
    /// The number of leading bits that the addresses of the range share.
    pub prefix_len: u8,
}

/// An IPv4 address in dotted decimal.
pub open spec fn dotted(ip: u32) -> Seq<char> {
    text::decimal(ip as nat / 0x100_0000) + seq!['.'] + text::decimal(ip as nat / 0x1_0000 % 0x100) + seq!['.']
        + text::decimal(ip as nat / 0x100 % 0x100) + seq!['.'] + text::decimal(ip as nat % 0x100)
}

/// The text of an IPv6 address, as `core::net::Ipv6Addr` displays it.
pub uninterp spec fn ipv6_text(ip: u128) -> Seq<char>;

/// The text of an IPv6 socket address without flow information, as
/// `core::net::SocketAddrV6` displays it.
pub uninterp spec fn socket_v6_text(ip: u128, port: u16, scope_id: u32) -> Seq<char>;

/// The address that a text writes, as `core::net::IpAddr` parses it.
pub uninterp spec fn ip_of_text(s: Seq<char>) -> Option<IpAddr>;

/// The socket address that a text writes, as `core::net::SocketAddr` parses it.
pub uninterp spec fn socket_of_text(s: Seq<char>) -> Option<SocketAddr>;

/// The range that a text writes, as `ipnet::IpNet` parses it.
pub uninterp spec fn net_of_text(s: Seq<char>) -> Option<IpNet>;

/// The text of an address.
pub open spec fn ip_text(ip: IpAddr) -> Seq<char> {
    match ip {
        IpAddr::V4(b) => dotted(b),
        IpAddr::V6(b) => ipv6_text(b),
    }
}

/// The text of a socket address.
pub open spec fn socket_text(addr: SocketAddr) -> Seq<char> {
    match addr {
        SocketAddr::V4 { ip, port } => dotted(ip) + seq![':'] + text::decimal(port as nat),
        SocketAddr::V6 { ip, port, scope_id } => socket_v6_text(ip, port, scope_id),
    }
}

/// The text of an address range.
pub open spec fn net_text(net: IpNet) -> Seq<char> {
    ip_text(net.addr) + seq!['/'] + text::decimal(net.prefix_len as nat)
}

/// Whether `ip` lies in `net`: both are of one family, and their first
/// `prefix_len` bits are the same.
pub open spec fn net_contains(net: IpNet, ip: IpAddr) -> bool {
    match (net.addr, ip) {
        (IpAddr::V4(a), IpAddr::V4(b)) => net.prefix_len <= 32 && a as nat / power2::pow2(
            (32 - net.prefix_len) as nat,
        ) == b as nat / power2::pow2((32 - net.prefix_len) as nat),
        (IpAddr::V6(a), IpAddr::V6(b)) => net.prefix_len <= 128 && a as nat / power2::pow2(
            (128 - net.prefix_len) as nat,
        ) == b as nat / power2::pow2((128 - net.prefix_len) as nat),
        _ => false,
    }
}

/// Dotted decimal holds digits and dots and nothing else.
pub proof fn lemma_dotted_chars(ip: u32)
    ensures
        forall|i: int|
            0 <= i < dotted(ip).len() ==> ('0' <= #[trigger] dotted(ip)[i] <= '9' || dotted(ip)[i]
                == '.'),
{
    text::lemma_decimal_digits(ip as nat / 0x100_0000);
    text::lemma_decimal_digits(ip as nat / 0x1_0000 % 0x100);
    text::lemma_decimal_digits(ip as nat / 0x100 % 0x100);
    text::lemma_decimal_digits(ip as nat % 0x100);
}

/// The `Display` text of `core::net::Ipv4Addr`: dotted decimal. The text parses to
/// the address.
#[verifier::external_body]
fn show_ipv4(ip: u32) -> (r: String)
    ensures
        r@ == dotted(ip),
        ip_of_text(r@) == Some(IpAddr::V4(ip)),
{
    core::net::Ipv4Addr::from(ip).to_string()
}

/// The `Display` text of `core::net::Ipv6Addr`, which the contract names. The text
/// parses to the address.
#[verifier::external_body]
fn show_ipv6(ip: u128) -> (r: String)
    ensures
        r@ == ipv6_text(ip),
        ip_of_text(r@) == Some(IpAddr::V6(ip)),
{
    core::net::Ipv6Addr::from(ip).to_string()
}

/// The `Display` text of `core::net::SocketAddrV4`: the address, a colon and the
/// port. The text parses to the socket address.
#[verifier::external_body]
fn show_socket_v4(ip: u32, port: u16) -> (r: String)
    ensures
        r@ == dotted(ip) + seq![':'] + text::decimal(port as nat),
        socket_of_text(r@) == Some(SocketAddr::V4 { ip, port }),
{
    core::net::SocketAddrV4::new(ip.into(), port).to_string()
}

/// The `Display` text of `core::net::SocketAddrV6`, which the contract names; the
/// flow information, which the text does not hold, is 0. The text parses to the
/// socket address.
#[verifier::external_body]
fn show_socket_v6(ip: u128, port: u16, scope_id: u32) -> (r: String)
    ensures
        r@ == socket_v6_text(ip, port, scope_id),
        socket_of_text(r@) == Some(SocketAddr::V6 { ip, port, scope_id }),
{
    core::net::SocketAddrV6::new(ip.into(), port, 0, scope_id).to_string()
}

/// `core::net::IpAddr::from_str`, whose result the contract names.
#[verifier::external_body]
fn read_ip(s: &str) -> (r: Option<IpAddr>)
    ensures
        r == ip_of_text(s@),
{
    match s.parse::<core::net::IpAddr>().ok()? {
        core::net::IpAddr::V4(a) => Some(IpAddr::V4(a.to_bits())),
        core::net::IpAddr::V6(a) => Some(IpAddr::V6(a.to_bits())),
    }
}

/// `core::net::SocketAddr::from_str`, which reads no flow information. The
/// contract names its result.
#[verifier::external_body]
fn read_socket(s: &str) -> (r: Option<SocketAddr>)
    ensures
        r == socket_of_text(s@),
{
    match s.parse::<core::net::SocketAddr>().ok()? {
        core::net::SocketAddr::V4(a) => Some(SocketAddr::V4 { ip: a.ip().to_bits(), port: a.port() }),
        core::net::SocketAddr::V6(a) => Some(
            SocketAddr::V6 { ip: a.ip().to_bits(), port: a.port(), scope_id: a.scope_id() },
        ),
    }
}

/// `ipnet::IpNet::from_str`. The contract names its result; a range that it
/// gives has no more leading bits than its family has bits.
#[verifier::external_body]
fn read_net(s: &str) -> (r: Option<IpNet>)
    ensures
        r == net_of_text(s@),
        r is Some ==> r->0.prefix_len <= (if r->0.addr is V4 {
            32u8
        } else {
            128u8
        }),
{
    match s.parse::<ipnet::IpNet>().ok()? {
        ipnet::IpNet::V4(n) => Some(
            IpNet { addr: IpAddr::V4(n.addr().to_bits()), prefix_len: n.prefix_len() },
        ),
        ipnet::IpNet::V6(n) => Some(
            IpNet { addr: IpAddr::V6(n.addr().to_bits()), prefix_len: n.prefix_len() },
        ),
    }
}

/// `ipnet::IpNet::contains`: an address lies in a range when it is of the same
/// family and lies between the first and the last address with the range's
/// leading bits. A prefix that is too long makes no range.
#[verifier::external_body]
fn in_net(net: IpNet, ip: IpAddr) -> (r: bool)
    ensures
        r == net_contains(net, ip),
{
    let addr: core::net::IpAddr = match net.addr {
        IpAddr::V4(b) => core::net::Ipv4Addr::from(b).into(),
        IpAddr::V6(b) => core::net::Ipv6Addr::from(b).into(),
    };
    let ip: core::net::IpAddr = match ip {
        IpAddr::V4(b) => core::net::Ipv4Addr::from(b).into(),
        IpAddr::V6(b) => core::net::Ipv6Addr::from(b).into(),
    };
    match ipnet::IpNet::new(addr, net.prefix_len) {
        Ok(n) => n.contains(&ip),
        Err(_) => false,
    }
}

impl IpAddr {
    /// The IPv4 address with the octets `a.b.c.d`.
    pub fn v4(a: u8, b: u8, c: u8, d: u8) -> (r: IpAddr)
        ensures
            r == IpAddr::V4((a * 0x100_0000 + b * 0x1_0000 + c * 0x100 + d) as u32),
    {
        IpAddr::V4(a as u32 * 0x100_0000 + b as u32 * 0x1_0000 + c as u32 * 0x100 + d as u32)
    }

    /// The IPv4 loopback address.
    pub fn loopback() -> (r: IpAddr)
        ensures
            r == IpAddr::V4(0x7f00_0001),
    {
        IpAddr::V4(0x7f00_0001)
    }

    /// The text of the address, which parses to the address.
    pub fn to_string(&self) -> (r: String)
        ensures
            r@ == ip_text(*self),
            ip_of_text(r@) == Some(*self),
    {
        match *self {
            IpAddr::V4(b) => show_ipv4(b),
            IpAddr::V6(b) => show_ipv6(b),
        }
    }

    /// The address that a text writes.
    pub fn parse(s: &str) -> (r: Option<IpAddr>)
        ensures
            r == ip_of_text(s@),
    {
        read_ip(s)
    }
}

/// The dotted decimal text of an IPv4 address.
pub fn ipv4_to_string(ip: u32) -> (r: String)
    ensures
        r@ == dotted(ip),
{
    show_ipv4(ip)
}

impl SocketAddr {
    /// The text of the socket address, which parses to the socket address.
    pub fn to_string(&self) -> (r: String)
        ensures
            r@ == socket_text(*self),
            socket_of_text(r@) == Some(*self),
    {
        match *self {
            SocketAddr::V4 { ip, port } => show_socket_v4(ip, port),
            SocketAddr::V6 { ip, port, scope_id } => show_socket_v6(ip, port, scope_id),
        }
    }

    /// The socket address that a text writes.
    pub fn parse(s: &str) -> (r: Option<SocketAddr>)
        ensures
            r == socket_of_text(s@),
    {
        read_socket(s)
    }
}

impl IpNet {
    /// The prefix is no longer than an address of the family.
    pub open spec fn wf(self) -> bool {
        self.prefix_len <= (if self.addr is V4 {
            32u8
        } else {
            128u8
        })
    }

    /// The address range that a text writes.
    pub fn parse(s: &str) -> (r: Option<IpNet>)
        ensures
            r == net_of_text(s@),
            r is Some ==> r->0.wf(),
    {
        read_net(s)
    }

    /// Whether `ip` lies in the range.
    pub fn contains(&self, ip: IpAddr) -> (r: bool)
        ensures
            r == net_contains(*self, ip),
    {
        in_net(*self, ip)
    }

    /// The text of the range.
    pub fn to_string(&self) -> (r: String)
        ensures
            r@ == net_text(*self),
    {
        let mut s = self.addr.to_string();
        s.push('/');
        text::push_decimal(&mut s, self.prefix_len as u64);
        s
    }
}

impl std::str::FromStr for IpAddr {
    type Err = &'static str;

    fn from_str(s: &str) -> (r: Result<IpAddr, &'static str>)
        ensures
            match ip_of_text(s@) {
                Some(ip) => r == Ok::<IpAddr, &'static str>(ip),
                None => r is Err && r->Err_0@ == "invalid IP address syntax"@,
            },
    {
        match IpAddr::parse(s) {
            Some(ip) => Ok(ip),
            None => Err("invalid IP address syntax"),
        }
    }
}

impl std::str::FromStr for SocketAddr {
    type Err = &'static str;

    fn from_str(s: &str) -> (r: Result<SocketAddr, &'static str>)
        ensures
            match socket_of_text(s@) {
                Some(addr) => r == Ok::<SocketAddr, &'static str>(addr),
                None => r is Err && r->Err_0@ == "invalid socket address syntax"@,
            },
    {
        match SocketAddr::parse(s) {
            Some(addr) => Ok(addr),
            None => Err("invalid socket address syntax"),
        }
    }
}

/// Dotted decimal writes the four octets from the highest to the lowest, with dots
/// between them.
pub proof fn law_dotted_writes_the_octets(a: u8, b: u8, c: u8, d: u8)
    ensures
        dotted((a * 0x100_0000 + b * 0x1_0000 + c * 0x100 + d) as u32) == text::joined(
            seq![
                text::decimal(a as nat),
                text::decimal(b as nat),
                text::decimal(c as nat),
                text::decimal(d as nat),
            ],
            '.',
        ),
{
    let ip = (a * 0x100_0000 + b * 0x1_0000 + c * 0x100 + d) as u32;
    assert(ip == a * 0x100_0000 + b * 0x1_0000 + c * 0x100 + d);
    assert(ip as nat / 0x100_0000 == a as nat);
    assert(ip as nat / 0x1_0000 % 0x100 == b as nat);
    assert(ip as nat / 0x100 % 0x100 == c as nat);
    assert(ip as nat % 0x100 == d as nat);
    let all = seq![
        text::decimal(a as nat),
        text::decimal(b as nat),
        text::decimal(c as nat),
        text::decimal(d as nat),
    ];
    reveal_with_fuel(text::joined, 4);
    assert(all.drop_last() =~= seq![all[0], all[1], all[2]]);
    assert(all.drop_last().drop_last() =~= seq![all[0], all[1]]);
    assert(all.drop_last().drop_last().drop_last() =~= seq![all[0]]);
    assert(text::joined(all, '.') =~= dotted(ip));
}

/// A range of IPv4 addresses is the block of addresses that holds the range's address:
/// the blocks are as long as the bits behind the prefix allow, start at multiples of
/// that length, and fill the whole space.
pub proof fn law_v4_range_is_a_block(net: IpNet, a: u32, b: u32, block: nat)
    requires
        net.addr == IpAddr::V4(a),
        net.prefix_len <= 32,
        block * power2::pow2((32 - net.prefix_len) as nat) <= a < (block + 1) * power2::pow2(
            (32 - net.prefix_len) as nat,
        ),
    ensures
        net_contains(net, IpAddr::V4(b)) <==> block * power2::pow2((32 - net.prefix_len) as nat)
            <= b < (block + 1) * power2::pow2((32 - net.prefix_len) as nat),
{
    let size = power2::pow2((32 - net.prefix_len) as nat);
    power2::lemma_pow2_pos((32 - net.prefix_len) as nat);
    lemma_block(a as nat, size, block);
    lemma_block(b as nat, size, block);
}

/// A range of IPv6 addresses is the block of addresses that holds the range's address,
/// as for IPv4.
pub proof fn law_v6_range_is_a_block(net: IpNet, a: u128, b: u128, block: nat)
    requires
        net.addr == IpAddr::V6(a),
        net.prefix_len <= 128,
        block * power2::pow2((128 - net.prefix_len) as nat) <= a < (block + 1) * power2::pow2(
            (128 - net.prefix_len) as nat,
        ),
    ensures
        net_contains(net, IpAddr::V6(b)) <==> block * power2::pow2((128 - net.prefix_len) as nat)
            <= b < (block + 1) * power2::pow2((128 - net.prefix_len) as nat),
{
    let size = power2::pow2((128 - net.prefix_len) as nat);
    power2::lemma_pow2_pos((128 - net.prefix_len) as nat);
    lemma_block(a as nat, size, block);
    lemma_block(b as nat, size, block);
}

proof fn lemma_block(n: nat, size: nat, block: nat)
    requires
        size > 0,
    ensures
        n / size == block <==> block * size <= n < (block + 1) * size,
{
    assert(n / size == block <==> block * size <= n < (block + 1) * size) by (nonlinear_arith)
        requires
            size > 0,
    ;
}

/// A range holds its own address and no address of the other family; a range of the
/// whole length holds one address, and one of no length all of its family.
pub proof fn law_range_ends(net: IpNet, ip: IpAddr)
    requires
        net.wf(),
    ensures
        net_contains(net, net.addr),
        net.addr is V4 != ip is V4 ==> !net_contains(net, ip),
        net.addr is V4 && net.prefix_len == 32 && net_contains(net, ip) ==> ip == net.addr,
        net.addr is V6 && net.prefix_len == 128 && net_contains(net, ip) ==> ip == net.addr,
        net.prefix_len == 0 && (net.addr is V4 <==> ip is V4) ==> net_contains(net, ip),
{
    power2::lemma2_to64();
    power2::lemma2_to64_rest();
    power2::lemma_pow2_adds(64, 64);
    match (net.addr, ip) {
        (IpAddr::V6(a), IpAddr::V6(b)) => {
            if net.prefix_len == 128 {
                lemma_block(a as nat, 1, a as nat);
                lemma_block(b as nat, 1, b as nat);
            }
            if net.prefix_len == 0 {
                lemma_block(a as nat, power2::pow2(128), 0);
                lemma_block(b as nat, power2::pow2(128), 0);
            }
        },
        (IpAddr::V4(a), IpAddr::V4(b)) => {
            if net.prefix_len == 32 {
                lemma_block(a as nat, 1, a as nat);
                lemma_block(b as nat, 1, b as nat);
            }
            if net.prefix_len == 0 {
                lemma_block(a as nat, power2::pow2(32), 0);
                lemma_block(b as nat, power2::pow2(32), 0);
            }
        },
        _ => {},
    }
}

/// The octets of an address stand from the highest to the lowest.
pub proof fn law_octets_of_an_address(a: u8, b: u8, c: u8, d: u8, r: IpAddr)
    requires
        call_ensures(IpAddr::v4, (a, b, c, d), r),
    ensures
        r is V4,
        r->V4_0 / 0x100_0000 == a,
        r->V4_0 / 0x1_0000 % 0x100 == b,
        r->V4_0 / 0x100 % 0x100 == c,
        r->V4_0 % 0x100 == d,
{
}

} // verus!
