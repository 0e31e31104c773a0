//! What the command line of the daemon says.

use vstd::prelude::*;

verus! {

/// The command line of the daemon.
#[derive(Clone, Debug)]
pub struct Cli {
    /// The path of the configuration.
    pub config: String,
    /// How much is logged.
    pub verbose: u8,
}

impl Default for Cli {
    fn default() -> (r: Cli)
        ensures
            r.config@ == "/etc/fwknox/fwknoxd.toml"@,
            r.verbose == 0,
    {
        Cli { config: "/etc/fwknox/fwknoxd.toml".to_owned(), verbose: 0 }
    }
}

} // verus!
