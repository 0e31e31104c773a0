//! What can go wrong in the client.

use crate::config::error::{ConfigError, ConfigErrorView};
use crate::proto::error::{ProtoError, ProtoErrorView};
use vstd::prelude::*;

verus! {

/// What can go wrong in the client.
#[derive(Debug)]
#[non_exhaustive]
pub enum ClientError {
    /// The configuration cannot be loaded or is not valid.
    Config(ConfigError),
    /// The packet cannot be built.
    Proto(ProtoError),
    /// The system failed. The text is what the system says.
    Io(String),
    /// Something is missing on the command line.
    MissingArgument(&'static str),
    /// Something on the command line is not valid.
    InvalidArgument {
        /// The name of the argument.
        field: &'static str,
        /// Why.
        reason: String,
    },
    /// The configuration has no server of the given name.
    UnknownServer(String),
}

/// The model of a [`ClientError`].
#[verifier::ext_equal]
pub enum ClientErrorView {
    /// See [`ClientError::Config`].
    Config(ConfigErrorView),
    /// See [`ClientError::Proto`].
    Proto(ProtoErrorView),
    /// See [`ClientError::Io`].
    Io(Seq<char>),
    /// See [`ClientError::MissingArgument`].
    MissingArgument(Seq<char>),
    /// See [`ClientError::InvalidArgument`].
    InvalidArgument(Seq<char>, Seq<char>),
    /// See [`ClientError::UnknownServer`].
    UnknownServer(Seq<char>),
}

impl View for ClientError {
    type V = ClientErrorView;

    open spec fn view(&self) -> ClientErrorView {
        match *self {
            ClientError::Config(e) => ClientErrorView::Config(e@),
            ClientError::Proto(e) => ClientErrorView::Proto(e@),
            ClientError::Io(s) => ClientErrorView::Io(s@),
            ClientError::MissingArgument(s) => ClientErrorView::MissingArgument(s@),
            ClientError::InvalidArgument { field, reason } => ClientErrorView::InvalidArgument(
                field@,
                reason@,
            ),
            ClientError::UnknownServer(s) => ClientErrorView::UnknownServer(s@),
        }
    }
}

impl ClientErrorView {
    /// The text that describes the error.
    pub open spec fn text(self) -> Seq<char> {
        match self {
            ClientErrorView::Config(e) => "config error: "@ + e.text(),
            ClientErrorView::Proto(e) => "protocol error: "@ + e.text(),
            ClientErrorView::Io(s) => "io error: "@ + s,
            ClientErrorView::MissingArgument(s) => "missing argument: "@ + s,
            ClientErrorView::InvalidArgument(field, reason) => "invalid argument "@ + field + ": "@
                + reason,
            ClientErrorView::UnknownServer(s) => "server entry "@ + s
                + " not found in client config"@,
        }
    }
}

impl ClientError {
    /// The text that describes the error.
    pub fn to_string(&self) -> (r: String)
        ensures
            r@ == self@.text(),
    {
        let mut s = String::new();
        match self {
            ClientError::Config(e) => {
                s.append("config error: ");
                s.append(e.to_string().as_str());
            },
            ClientError::Proto(e) => {
                s.append("protocol error: ");
                s.append(e.to_string().as_str());
            },
            ClientError::Io(e) => {
                s.append("io error: ");
                s.append(e.as_str());
            },
            ClientError::MissingArgument(e) => {
                s.append("missing argument: ");
                s.append(e);
            },
            ClientError::InvalidArgument { field, reason } => {
                s.append("invalid argument ");
                s.append(field);
                s.append(": ");
                s.append(reason.as_str());
            },
            ClientError::UnknownServer(e) => {
                s.append("server entry ");
                s.append(e.as_str());
                s.append(" not found in client config");
            },
        }
        assert(s@ =~= self@.text());
        s
    }
}

impl From<ConfigError> for ClientError {
    fn from(e: ConfigError) -> (r: ClientError) {
        ClientError::Config(e)
    }
}

impl vstd::std_specs::convert::FromSpecImpl<ConfigError> for ClientError {
    open spec fn obeys_from_spec() -> bool {
        true
    }

    open spec fn from_spec(e: ConfigError) -> ClientError {
        ClientError::Config(e)
    }
}

impl From<ProtoError> for ClientError {
    fn from(e: ProtoError) -> (r: ClientError) {
        ClientError::Proto(e)
    }
}

impl vstd::std_specs::convert::FromSpecImpl<ProtoError> for ClientError {
    open spec fn obeys_from_spec() -> bool {
        true
    }

    open spec fn from_spec(e: ProtoError) -> ClientError {
        ClientError::Proto(e)
    }
}

/// What an error says: what happened, and behind it the cause that it carries.
pub proof fn law_texts_tell_the_cause(e: ClientError, r: String)
    requires
        call_ensures(ClientError::to_string, (&e,), r),
    ensures
        match e {
            ClientError::Config(cause) => r@ == "config error: "@ + cause@.text(),
            ClientError::Proto(cause) => r@ == "protocol error: "@ + cause@.text(),
            ClientError::Io(s) => r@ == "io error: "@ + s@,
            ClientError::MissingArgument(s) => r@ == "missing argument: "@ + s@,
            ClientError::InvalidArgument { field, reason } => {
                r@ == "invalid argument "@ + field@ + ": "@ + reason@
            },
            ClientError::UnknownServer(s) => {
                r@ == "server entry "@ + s@ + " not found in client config"@
            },
        },
{
}

} // verus!
