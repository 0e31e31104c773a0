//! The values of the protocol: transport protocols, ports and requests.

use crate::net::{IpAddr, SocketAddr};
use crate::text;
use vstd::prelude::*;

verus! {

/// The transport protocol of a request.
#[derive(Clone, Copy, Debug, PartialEq, Eq, Hash, Structural)]
pub enum Protocol {
    /// Transmission Control Protocol.
    Tcp,
    /// User Datagram Protocol.
    Udp,
}

/// The name of a transport protocol, in lower case.
pub open spec fn protocol_text(proto: Protocol) -> Seq<char> {
    match proto {
        Protocol::Tcp => "tcp"@,
        Protocol::Udp => "udp"@,
    }
}

impl Protocol {
    /// The name of the protocol, in lower case.
    pub fn name(&self) -> (r: &'static str)
        ensures
            r@ == protocol_text(*self),
    {
        match self {
            Protocol::Tcp => "tcp",
            Protocol::Udp => "udp",
        }
    }

    /// The name of the protocol, in lower case.
    pub fn to_string(&self) -> (r: String)
        ensures
            r@ == protocol_text(*self),
    {
        self.name().to_owned()
    }
}

/// A transport protocol and a port, such as `tcp/22`.
#[derive(Clone, Copy, Debug, PartialEq, Eq, Hash, Structural)]
pub struct PortProto {
    /// The transport protocol.
    pub proto: Protocol,
    /// The port number.
    pub port: u16,
}

/// A port in the form `proto/port`.
pub open spec fn port_text(p: PortProto) -> Seq<char> {
    protocol_text(p.proto) + seq!['/'] + text::decimal(p.port as nat)
}

impl PortProto {
    /// The pair of a protocol and a port.
    #[must_use]
    pub fn new(proto: Protocol, port: u16) -> (r: PortProto)
        ensures
            r == (PortProto { proto, port }),
    {
        PortProto { proto, port }
    }

    /// Appends the pair in the form `proto/port`.
    pub fn push_to(&self, s: &mut String)
        ensures
            final(s)@ == old(s)@ + port_text(*self),
    {
        s.append(self.proto.name());
        s.push('/');
        text::push_decimal(s, self.port as u64);
        assert(s@ =~= old(s)@ + port_text(*self));
    }

    /// The pair in the form `proto/port`.
    pub fn to_string(&self) -> (r: String)
        ensures
            r@ == port_text(*self),
    {
        let mut s = String::new();
        self.push_to(&mut s);
        s
    }
}

/// What a packet asks for, once it is authenticated and decrypted.
#[derive(Clone, Debug, PartialEq, Eq)]
pub enum SpaMessage {
    /// Open `ports` for `source_ip`.
    Access {
        /// The address that the firewall rule admits.
        source_ip: IpAddr,
        /// The ports to open.
        ports: Vec<PortProto>,
    },
    /// Open `ports` and forward them to `nat_dest`.
    Nat {
        /// The address that the firewall rule admits.
        source_ip: IpAddr,
        /// The external ports to open.
        ports: Vec<PortProto>,
        /// The internal destination.
        nat_dest: SocketAddr,
    },
    /// Open `ports` and forward them to a destination on the server itself.
    LocalNat {
        /// The address that the firewall rule admits.
        source_ip: IpAddr,
        /// The external ports to open.
        ports: Vec<PortProto>,
        /// The local destination.
        nat_dest: SocketAddr,
    },
    /// Run a command on the server.
    Command {
        /// The address that the firewall rule admits.
        source_ip: IpAddr,
        /// The command line.
        command: String,
    },
}

/// The model of an [`SpaMessage`].
#[verifier::ext_equal]
pub enum SpaMessageView {
    /// See [`SpaMessage::Access`].
    Access {
        /// The address that the firewall rule admits.
        source_ip: IpAddr,
        /// The ports to open.
        ports: Seq<PortProto>,
    },
    /// See [`SpaMessage::Nat`].
    Nat {
        /// The address that the firewall rule admits.
        source_ip: IpAddr,
        /// The external ports to open.
        ports: Seq<PortProto>,
        /// The internal destination.
        nat_dest: SocketAddr,
    },
    /// See [`SpaMessage::LocalNat`].
    LocalNat {
        /// The address that the firewall rule admits.
        source_ip: IpAddr,
        /// The external ports to open.
        ports: Seq<PortProto>,
        /// The local destination.
        nat_dest: SocketAddr,
    },
    /// See [`SpaMessage::Command`].
    Command {
        /// The address that the firewall rule admits.
        source_ip: IpAddr,
        /// The command line.
        command: Seq<char>,
    },
}

impl View for SpaMessage {
    type V = SpaMessageView;

    open spec fn view(&self) -> SpaMessageView {
        match *self {
            SpaMessage::Access { source_ip, ports } => SpaMessageView::Access {
                source_ip,
                ports: ports@,
            },
            SpaMessage::Nat { source_ip, ports, nat_dest } => SpaMessageView::Nat {
                source_ip,
                ports: ports@,
                nat_dest,
            },
            SpaMessage::LocalNat { source_ip, ports, nat_dest } => SpaMessageView::LocalNat {
                source_ip,
                ports: ports@,
                nat_dest,
            },
            SpaMessage::Command { source_ip, command } => SpaMessageView::Command {
                source_ip,
                command: command@,
            },
        }
    }
}

impl SpaMessage {
    /// Whether this is an access request.
    pub fn is_access(&self) -> (r: bool)
        ensures
            r == (self@ is Access),
    {
        match self {
            SpaMessage::Access { .. } => true,
            _ => false,
        }
    }
}

} // verus!
