//! The daemon: matching packets, enforcing the policy of a stanza and installing
//! rules.

pub mod cli;
pub mod error;
pub mod matcher;
pub mod pipeline;
pub mod policy;
pub mod privsep_run;
pub mod replay;
pub mod run;
pub mod shutdown;
pub mod startup;
pub mod validate;
