//! The configuration of the client: defaults and the servers that it knows.

use crate::config::error::{ConfigError, ConfigErrorView};
use crate::config::shared::{Base64Key, PortProtoList};
use crate::text;
use crate::time::Duration;
use vstd::prelude::*;

verus! {

/// The whole configuration of the client.
#[derive(Clone)]
pub struct ClientConfig {
    /// The defaults.
    pub defaults: DefaultsSection,
    /// The servers.
    pub servers: Vec<ServerEntry>,
}

/// The defaults of the client.
#[derive(Clone, Copy, Debug, PartialEq, Eq, Structural)]
pub struct DefaultsSection {
    /// How packets are sent.
    pub transport: ClientTransport,
    /// Whether the external address is looked up.
    pub resolve_ip: bool,
    /// Whether the client logs more.
    pub verbose: bool,
}

/// A server with its name.
#[derive(Clone)]
pub struct ServerEntry {
    /// The name by which the server is chosen.
    pub name: String,
    /// The host name or address.
    pub destination: String,
    /// The port.
    pub port: u16,
    /// The ports to ask for.
    pub access: PortProtoList,
    /// The master key.
    pub master_key_base64: Base64Key,
    /// How long the rule shall stay.
    pub fw_timeout: Option<Duration>,
    /// The source of this host, or `auto`. The client does not read it: the packet names
    /// what the command line says, else the loopback address.
    pub source_ip: String,
}

/// How packets are sent.
#[derive(Clone, Copy, Debug, PartialEq, Eq, Structural)]
pub enum ClientTransport {
    /// In a UDP datagram.
    Udp,
    /// Over a TCP connection.
    Tcp,
    /// In the path of an HTTP request.
    Http,
}

impl Default for ClientTransport {
    fn default() -> (r: ClientTransport)
        ensures
            r == ClientTransport::Udp,
    {
        ClientTransport::Udp
    }
}

impl Default for DefaultsSection {
    fn default() -> (r: DefaultsSection)
        ensures
            r == (DefaultsSection {
                transport: ClientTransport::Udp,
                resolve_ip: false,
                verbose: false,
            }),
    {
        DefaultsSection { transport: ClientTransport::Udp, resolve_ip: false, verbose: false }
    }
}

/// The port of a server where none is configured.
pub const DEFAULT_PORT: u16 = 62201;

impl ServerEntry {
    /// A server with the fields that every entry has, and the defaults for the rest.
    pub fn new(
        name: String,
        destination: String,
        access: PortProtoList,
        master_key_base64: Base64Key,
    ) -> (r: ServerEntry)
        ensures
            r.name == name,
            r.destination == destination,
            r.port == DEFAULT_PORT,
            r.access == access,
            r.master_key_base64 == master_key_base64,
            r.fw_timeout is None,
            r.source_ip@ == "auto"@,
    {
        ServerEntry {
            name,
            destination,
            port: DEFAULT_PORT,
            access,
            master_key_base64,
            fw_timeout: None,
            source_ip: "auto".to_owned(),
        }
    }
}

/// Whether a server before `i` has the name of server `i`.
pub open spec fn name_taken(servers: Seq<ServerEntry>, i: int) -> bool {
    exists|j: int| 0 <= j < i && (#[trigger] servers[j]).name@ == servers[i].name@
}

/// What is wrong with server `i`, if anything.
pub open spec fn server_problem(servers: Seq<ServerEntry>, i: int) -> Option<Seq<char>> {
    let name = servers[i].name@;
    if name_taken(servers, i) {
        Some("duplicate server name: "@ + name)
    } else if servers[i].access.0@.len() == 0 {
        Some("server "@ + name + " has empty access list"@)
    } else {
        None
    }
}

/// What is wrong with the first server from `i` on with which anything is wrong.
pub open spec fn servers_problem(servers: Seq<ServerEntry>, i: int) -> Option<Seq<char>>
    decreases servers.len() - i,
{
    if i < 0 || i >= servers.len() {
        None
    } else {
        match server_problem(servers, i) {
            Some(msg) => Some(msg),
            None => servers_problem(servers, i + 1),
        }
    }
}

/// Whether a server before `i` has the name of server `i`.
fn is_name_taken(servers: &Vec<ServerEntry>, i: usize) -> (r: bool)
    requires
        i < servers@.len(),
    ensures
        r == name_taken(servers@, i as int),
{
    for j in 0..i
        invariant
            i < servers@.len(),
            forall|k: int|
                0 <= k < j ==> (#[trigger] servers@[k]).name@ != servers@[i as int].name@,
    {
        if text::same_text(servers[j].name.as_str(), servers[i].name.as_str()) {
            assert(servers@[j as int].name@ == servers@[i as int].name@);
            return true;
        }
    }
    false
}

impl ClientConfig {
    /// Checks the rules that the values have to keep. The error is about the first
    /// server that breaks one.
    pub fn validate(&self) -> (r: Result<(), ConfigError>)
        ensures
            match servers_problem(self.servers@, 0) {
                None => r is Ok,
                Some(msg) => r is Err && r->Err_0@ == ConfigErrorView::Invalid(msg),
            },
    {
        for i in 0..self.servers.len()
            invariant
                servers_problem(self.servers@, 0) == servers_problem(self.servers@, i as int),
        {
            let server = &self.servers[i];
            if is_name_taken(&self.servers, i) {
                let mut msg = "duplicate server name: ".to_owned();
                msg.append(server.name.as_str());
                return Err(ConfigError::invalid(msg));
            }
            if server.access.0.len() == 0 {
                let mut msg = "server ".to_owned();
                msg.append(server.name.as_str());
                msg.append(" has empty access list");
                return Err(ConfigError::invalid(msg));
            }
        }
        Ok(())
    }

    /// The first server with the given name.
    #[must_use]
    pub fn find_server(&self, name: &str) -> (r: Option<&ServerEntry>)
        ensures
            match r {
                Some(server) => exists|i: int|
                    #![trigger self.servers@[i]]
                    0 <= i < self.servers@.len() && *server == self.servers@[i] && server.name@
                        == name@ && forall|j: int|
                        0 <= j < i ==> (#[trigger] self.servers@[j]).name@ != name@,
                None => forall|j: int|
                    0 <= j < self.servers@.len() ==> (#[trigger] self.servers@[j]).name@ != name@,
            },
    {
        for i in 0..self.servers.len()
            invariant
                forall|j: int| 0 <= j < i ==> (#[trigger] self.servers@[j]).name@ != name@,
        {
            if text::same_text(self.servers[i].name.as_str(), name) {
                let server = &self.servers[i];
                assert(*server == self.servers@[i as int]);
                return Some(server);
            }
        }
        None
    }
}

/// In a valid configuration no two servers have the same name, and every server
/// asks for a port.
pub proof fn law_valid_servers(servers: Seq<ServerEntry>, i: int, j: int)
    requires
        servers_problem(servers, 0) is None,
        0 <= i < j < servers.len(),
    ensures
        servers[i].name@ != servers[j].name@,
        servers[i].access.0@.len() > 0,
        servers[j].access.0@.len() > 0,
{
    lemma_every_server_passes(servers, 0, i);
    lemma_every_server_passes(servers, 0, j);
    assert(!name_taken(servers, j));
}

proof fn lemma_every_server_passes(servers: Seq<ServerEntry>, from: int, i: int)
    requires
        0 <= from <= i < servers.len(),
        servers_problem(servers, from) is None,
    ensures
        server_problem(servers, i) is None,
    decreases i - from,
{
    if from < i {
        lemma_every_server_passes(servers, from + 1, i);
    }
}

/// A client configuration is valid exactly where the names of its servers differ and every
/// server asks for a port.
pub proof fn law_valid_exactly_by_the_rules(servers: Seq<ServerEntry>)
    ensures
        servers_problem(servers, 0) is None <==> {
            &&& forall|i: int, j: int|
                0 <= i < j < servers.len() ==> (#[trigger] servers[i]).name@ != (
                #[trigger] servers[j]).name@
            &&& forall|i: int| 0 <= i < servers.len() ==> (#[trigger] servers[i]).access.0@.len() >= 1
        },
{
    if servers_problem(servers, 0) is None {
        assert forall|i: int, j: int|
            0 <= i < j < servers.len() implies (#[trigger] servers[i]).name@ != (
        #[trigger] servers[j]).name@ by {
            law_valid_servers(servers, i, j);
        }
        assert forall|i: int| 0 <= i < servers.len() implies (
        #[trigger] servers[i]).access.0@.len() >= 1 by {
            lemma_every_server_passes(servers, 0, i);
        }
    }
    if (forall|i: int, j: int|
        0 <= i < j < servers.len() ==> (#[trigger] servers[i]).name@ != (
        #[trigger] servers[j]).name@) && (forall|i: int|
        0 <= i < servers.len() ==> (#[trigger] servers[i]).access.0@.len() >= 1) {
        assert forall|i: int| 0 <= i < servers.len() implies (#[trigger] server_problem(
            servers,
            i,
        )) is None by {
            assert(servers[i].access.0@.len() >= 1);
            assert(!name_taken(servers, i));
        }
        lemma_no_server_has_a_problem(servers, 0);
    }
}

proof fn lemma_no_server_has_a_problem(servers: Seq<ServerEntry>, from: int)
    requires
        0 <= from,
        forall|i: int| 0 <= i < servers.len() ==> (#[trigger] server_problem(servers, i)) is None,
    ensures
        servers_problem(servers, from) is None,
    decreases servers.len() - from,
{
    if from < servers.len() {
        lemma_no_server_has_a_problem(servers, from + 1);
    }
}

/// The first server that breaks a rule decides what is wrong, whatever follows: a name that
/// an earlier server has, or an empty list of ports.
pub proof fn law_first_bad_server_decides(servers: Seq<ServerEntry>, i: int)
    requires
        0 <= i < servers.len(),
        server_problem(servers, i) is Some,
        forall|j: int| 0 <= j < i ==> (#[trigger] server_problem(servers, j)) is None,
    ensures
        servers_problem(servers, 0) == server_problem(servers, i),
        (exists|j: int| 0 <= j < i && (#[trigger] servers[j]).name@ == servers[i].name@)
            ==> server_problem(servers, i) == Some("duplicate server name: "@ + servers[i].name@),
        !(exists|j: int| 0 <= j < i && (#[trigger] servers[j]).name@ == servers[i].name@)
            ==> server_problem(servers, i) == Some(
            "server "@ + servers[i].name@ + " has empty access list"@,
        ),
{
    lemma_first_problem(servers, 0, i);
}

proof fn lemma_first_problem(servers: Seq<ServerEntry>, from: int, i: int)
    requires
        0 <= from <= i < servers.len(),
        server_problem(servers, i) is Some,
        forall|j: int| from <= j < i ==> (#[trigger] server_problem(servers, j)) is None,
    ensures
        servers_problem(servers, from) == server_problem(servers, i),
    decreases i - from,
{
    if from < i {
        assert(server_problem(servers, from) is None);
        lemma_first_problem(servers, from + 1, i);
    }
}

} // verus!
