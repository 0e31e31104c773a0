//! What can go wrong in the daemon.

use crate::capture::error::{CaptureError, CaptureErrorView};
use crate::config::error::{ConfigError, ConfigErrorView};
use crate::firewall::error::{FirewallError, FirewallErrorView};
use crate::privsep::error::{PrivsepError, PrivsepErrorView};
use crate::proto::error::{ProtoError, ProtoErrorView};
use vstd::prelude::*;

verus! {

/// What can go wrong in the daemon.
#[derive(Debug)]
#[non_exhaustive]
pub enum DaemonError {
    /// The configuration cannot be loaded or is not valid.
    Config(ConfigError),
    /// The firewall failed.
    Firewall(FirewallError),
    /// Capturing packets failed.
    Capture(CaptureError),
    /// The replay cache failed. The text is what the cache says.
    Replay(String),
    /// The sandbox could not be applied. The text is what the sandbox says.
    Sandbox(String),
    /// A protocol operation failed.
    Proto(ProtoError),
    /// An operation between the processes failed.
    Privsep(PrivsepError),
    /// The system failed. The text is what the system says.
    Io(String),
    /// Something that never happens did happen. The packet is dropped, and the daemon
    /// goes on.
    InvariantViolation(String),
}

/// The model of a [`DaemonError`].
#[verifier::ext_equal]
pub enum DaemonErrorView {
    /// See [`DaemonError::Config`].
    Config(ConfigErrorView),
    /// See [`DaemonError::Firewall`].
    Firewall(FirewallErrorView),
    /// See [`DaemonError::Capture`].
    Capture(CaptureErrorView),
    /// See [`DaemonError::Replay`].
    Replay(Seq<char>),
    /// See [`DaemonError::Sandbox`].
    Sandbox(Seq<char>),
    /// See [`DaemonError::Proto`].
    Proto(ProtoErrorView),
    /// See [`DaemonError::Privsep`].
    Privsep(PrivsepErrorView),
    /// See [`DaemonError::Io`].
    Io(Seq<char>),
    /// See [`DaemonError::InvariantViolation`].
    InvariantViolation(Seq<char>),
}

impl View for DaemonError {
    type V = DaemonErrorView;

    open spec fn view(&self) -> DaemonErrorView {
        match *self {
            DaemonError::Config(e) => DaemonErrorView::Config(e@),
            DaemonError::Firewall(e) => DaemonErrorView::Firewall(e@),
            DaemonError::Capture(e) => DaemonErrorView::Capture(e@),
            DaemonError::Replay(s) => DaemonErrorView::Replay(s@),
            DaemonError::Sandbox(s) => DaemonErrorView::Sandbox(s@),
            DaemonError::Proto(e) => DaemonErrorView::Proto(e@),
            DaemonError::Privsep(e) => DaemonErrorView::Privsep(e@),
            DaemonError::Io(s) => DaemonErrorView::Io(s@),
            DaemonError::InvariantViolation(s) => DaemonErrorView::InvariantViolation(s@),
        }
    }
}

impl DaemonErrorView {
    /// The text that describes the error.
    pub open spec fn text(self) -> Seq<char> {
        match self {
            DaemonErrorView::Config(e) => "config error: "@ + e.text(),
            DaemonErrorView::Firewall(e) => "firewall error: "@ + e.text(),
            DaemonErrorView::Capture(e) => "capture error: "@ + e.text(),
            DaemonErrorView::Replay(s) => "replay cache error: "@ + s,
            DaemonErrorView::Sandbox(s) => "sandbox error: "@ + s,
            DaemonErrorView::Proto(e) => "protocol error: "@ + e.text(),
            DaemonErrorView::Privsep(e) => "privsep error: "@ + e.text(),
            DaemonErrorView::Io(s) => "io error: "@ + s,
            DaemonErrorView::InvariantViolation(s) => "internal invariant violated: "@ + s,
        }
    }
}

impl DaemonError {
    /// The text that describes the error.
    pub fn to_string(&self) -> (r: String)
        ensures
            r@ == self@.text(),
    {
        let mut s = String::new();
        match self {
            DaemonError::Config(e) => {
                s.append("config error: ");
                s.append(e.to_string().as_str());
            },
            DaemonError::Firewall(e) => {
                s.append("firewall error: ");
                s.append(e.to_string().as_str());
            },
            DaemonError::Capture(e) => {
                s.append("capture error: ");
                s.append(e.to_string().as_str());
            },
            DaemonError::Replay(e) => {
                s.append("replay cache error: ");
                s.append(e.as_str());
            },
            DaemonError::Sandbox(e) => {
                s.append("sandbox error: ");
                s.append(e.as_str());
            },
            DaemonError::Proto(e) => {
                s.append("protocol error: ");
                s.append(e.to_string().as_str());
            },
            DaemonError::Privsep(e) => {
                s.append("privsep error: ");
                s.append(e.to_string().as_str());
            },
            DaemonError::Io(e) => {
                s.append("io error: ");
                s.append(e.as_str());
            },
            DaemonError::InvariantViolation(e) => {
                s.append("internal invariant violated: ");
                s.append(e.as_str());
            },
        }
        assert(s@ =~= self@.text());
        s
    }
}

impl From<ConfigError> for DaemonError {
    fn from(e: ConfigError) -> (r: DaemonError) {
        DaemonError::Config(e)
    }
}

impl vstd::std_specs::convert::FromSpecImpl<ConfigError> for DaemonError {
    open spec fn obeys_from_spec() -> bool {
        true
    }

    open spec fn from_spec(e: ConfigError) -> DaemonError {
        DaemonError::Config(e)
    }
}

impl From<FirewallError> for DaemonError {
    fn from(e: FirewallError) -> (r: DaemonError) {
        DaemonError::Firewall(e)
    }
}

impl vstd::std_specs::convert::FromSpecImpl<FirewallError> for DaemonError {
    open spec fn obeys_from_spec() -> bool {
        true
    }

    open spec fn from_spec(e: FirewallError) -> DaemonError {
        DaemonError::Firewall(e)
    }
}

impl From<CaptureError> for DaemonError {
    fn from(e: CaptureError) -> (r: DaemonError) {
        DaemonError::Capture(e)
    }
}

impl vstd::std_specs::convert::FromSpecImpl<CaptureError> for DaemonError {
    open spec fn obeys_from_spec() -> bool {
        true
    }

    open spec fn from_spec(e: CaptureError) -> DaemonError {
        DaemonError::Capture(e)
    }
}

impl From<ProtoError> for DaemonError {
    fn from(e: ProtoError) -> (r: DaemonError) {
        DaemonError::Proto(e)
    }
}

impl vstd::std_specs::convert::FromSpecImpl<ProtoError> for DaemonError {
    open spec fn obeys_from_spec() -> bool {
        true
    }

    open spec fn from_spec(e: ProtoError) -> DaemonError {
        DaemonError::Proto(e)
    }
}

impl From<PrivsepError> for DaemonError {
    fn from(e: PrivsepError) -> (r: DaemonError) {
        DaemonError::Privsep(e)
    }
}

impl vstd::std_specs::convert::FromSpecImpl<PrivsepError> for DaemonError {
    open spec fn obeys_from_spec() -> bool {
        true
    }

    open spec fn from_spec(e: PrivsepError) -> DaemonError {
        DaemonError::Privsep(e)
    }
}

/// What an error says: what happened, and behind it the cause that it carries.
pub proof fn law_texts_tell_the_cause(e: DaemonError, r: String)
    requires
        call_ensures(DaemonError::to_string, (&e,), r),
    ensures
        match e {
            DaemonError::Config(cause) => r@ == "config error: "@ + cause@.text(),
            DaemonError::Firewall(cause) => r@ == "firewall error: "@ + cause@.text(),
            DaemonError::Capture(cause) => r@ == "capture error: "@ + cause@.text(),
            DaemonError::Replay(s) => r@ == "replay cache error: "@ + s@,
            DaemonError::Sandbox(s) => r@ == "sandbox error: "@ + s@,
            DaemonError::Proto(cause) => r@ == "protocol error: "@ + cause@.text(),
            DaemonError::Privsep(cause) => r@ == "privsep error: "@ + cause@.text(),
            DaemonError::Io(s) => r@ == "io error: "@ + s@,
            DaemonError::InvariantViolation(s) => r@ == "internal invariant violated: "@ + s@,
        },
{
}

} // verus!
