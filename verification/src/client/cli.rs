//! What the command line of the client says, and where the packet goes.

use crate::client::error::{ClientError, ClientErrorView};
use crate::config::client::{ClientConfig, ServerEntry, DEFAULT_PORT};
use vstd::prelude::*;

verus! {

/// The command line of the client.
#[derive(Clone, Debug)]
pub struct Cli {
    /// The name of a server in the configuration.
    pub name: Option<String>,
    /// The host, in place of that of the named server.
    pub destination: Option<String>,
    /// The port of the server.
    pub port: u16,
    /// The ports to ask for, in the form `proto/port` with commas between them.
    pub access: Option<String>,
    /// The source that the packet names.
    pub source_ip: Option<String>,
    /// The username that the packet names.
    pub username: Option<String>,
    /// How long the rule shall stay, in seconds.
    pub timeout: Option<u64>,
    /// The master key in base64.
    pub master_key_base64: Option<String>,
    /// The path of the configuration.
    pub config: Option<String>,
    /// Whether the packet is shown instead of sent.
    pub test: bool,
    /// Whether a key is generated instead.
    pub generate_key: bool,
    /// How much is logged.
    pub verbose: u8,
}

impl Cli {
    /// A command line that says nothing.
    pub fn empty() -> (r: Cli)
        ensures
            r.name is None,
            r.destination is None,
            r.port == DEFAULT_PORT,
            r.access is None,
            r.source_ip is None,
            r.username is None,
            r.timeout is None,
            r.master_key_base64 is None,
            r.config is None,
            !r.test,
            !r.generate_key,
            r.verbose == 0,
    {
        Cli {
            name: None,
            destination: None,
            port: DEFAULT_PORT,
            access: None,
            source_ip: None,
            username: None,
            timeout: None,
            master_key_base64: None,
            config: None,
            test: false,
            generate_key: false,
            verbose: 0,
        }
    }
}

/// The level of logging for a number of `-v` flags.
pub fn log_level(verbose: u8) -> (r: &'static str)
    ensures
        r@ == (match verbose {
            0u8 => "info"@,
            1u8 => "debug"@,
            _ => "trace"@,
        }),
{
    if verbose == 0 {
        "info"
    } else if verbose == 1 {
        "debug"
    } else {
        "trace"
    }
}

/// The server with a name in the configuration.
pub fn named_server<'a>(config: &'a ClientConfig, name: &str) -> (r: Result<
    &'a ServerEntry,
    ClientError,
>)
    ensures
        match r {
            Ok(server) => exists|i: int|
                #![trigger config.servers@[i]]
                0 <= i < config.servers@.len() && *server == config.servers@[i] && server.name@
                    == name@ && forall|j: int|
                    0 <= j < i ==> (#[trigger] config.servers@[j]).name@ != name@,
            Err(e) => e@ == ClientErrorView::UnknownServer(name@) && forall|j: int|
                0 <= j < config.servers@.len() ==> (#[trigger] config.servers@[j]).name@ != name@,
        },
{
    match config.find_server(name) {
        Some(server) => Ok(server),
        None => Err(ClientError::UnknownServer(name.to_owned())),
    }
}

/// The host that the packet goes to: the one on the command line, else that of the
/// named server.
pub fn resolve_destination(cli: &Cli, server: Option<&ServerEntry>) -> (r: Result<
    String,
    ClientError,
>)
    ensures
        match (cli.destination, server) {
            (Some(d), _) => r is Ok && r->Ok_0@ == d@,
            (None, Some(s)) => r is Ok && r->Ok_0@ == s.destination@,
            (None, None) => r is Err && r->Err_0@ == ClientErrorView::MissingArgument(
                "destination (-D or via -n / --name)"@,
            ),
        },
{
    if let Some(d) = &cli.destination {
        return Ok(d.clone());
    }
    if let Some(s) = server {
        return Ok(s.destination.clone());
    }
    Err(ClientError::MissingArgument("destination (-D or via -n / --name)"))
}

/// The port that the packet goes to: the one on the command line where it is not the
/// default, else that of the named server, else the default.
pub fn resolve_port(cli: &Cli, server: Option<&ServerEntry>) -> (r: u16)
    ensures
        r == (if cli.port != DEFAULT_PORT {
            cli.port
        } else {
            match server {
                Some(s) => s.port,
                None => cli.port,
            }
        }),
{
    if cli.port != DEFAULT_PORT {
        return cli.port;
    }
    if let Some(s) = server {
        return s.port;
    }
    cli.port
}

/// A port on the command line that is not 62201 is where the packet goes; otherwise it goes to
/// the port of the server, where there is one.
pub proof fn law_port_by_precedence(cli: Cli, server: Option<&ServerEntry>, r: u16)
    requires
        call_ensures(resolve_port, (&cli, server), r),
    ensures
        cli.port != 62201 ==> r == cli.port,
        cli.port == 62201 && server is Some ==> r == server->0.port,
        server is None ==> r == cli.port,
{
}

/// A host on the command line is where the packet goes; otherwise it goes to the host of the
/// server. It fails exactly where there is neither.
pub proof fn law_destination_by_precedence(
    cli: Cli,
    server: Option<&ServerEntry>,
    r: Result<String, ClientError>,
)
    requires
        call_ensures(resolve_destination, (&cli, server), r),
    ensures
        r is Ok <==> cli.destination is Some || server is Some,
        cli.destination is Some ==> r->Ok_0@ == cli.destination->0@,
        cli.destination is None && server is Some ==> r->Ok_0@ == server->0.destination@,
{
}

/// A server is found by its name exactly where one has it, and it is the first that has.
pub proof fn law_server_by_its_name(
    config: ClientConfig,
    name: &str,
    r: Result<&ServerEntry, ClientError>,
)
    requires
        call_ensures(named_server, (&config, name), r),
    ensures
        r is Ok <==> exists|i: int|
            0 <= i < config.servers@.len() && (#[trigger] config.servers@[i]).name@ == name@,
        r is Ok ==> r->Ok_0.name@ == name@ && config.servers@.contains(*r->Ok_0),
{
}

} // verus!
