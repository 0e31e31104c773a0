//! Firewall rules and the handles by which they are removed.

use crate::net::IpAddr;
use crate::proto::types::PortProto;
use crate::time::Duration;
use vstd::prelude::*;

verus! {

/// A rule: `ports` are open for `source_ip` for a time.
#[derive(Clone, Debug, PartialEq, Eq)]
pub struct AccessRule {
    /// The address that is let through.
    pub source_ip: IpAddr,
    /// The ports that are open.
    pub ports: Vec<PortProto>,
    /// How long the rule stays.
    pub timeout: Duration,
    /// A comment that says where the rule comes from.
    pub comment: String,
}

/// The model of an [`AccessRule`].
#[verifier::ext_equal]
pub struct AccessRuleView {
    /// The address that is let through.
    pub source_ip: IpAddr,
    /// The ports that are open.
    pub ports: Seq<PortProto>,
    /// How long the rule stays.
    pub timeout: Duration,
    /// A comment that says where the rule comes from.
    pub comment: Seq<char>,
}

impl View for AccessRule {
    type V = AccessRuleView;

    open spec fn view(&self) -> AccessRuleView {
        AccessRuleView {
            source_ip: self.source_ip,
            ports: self.ports@,
            timeout: self.timeout,
            comment: self.comment@,
        }
    }
}

/// A copy of ports.
pub fn copy_ports(ports: &Vec<PortProto>) -> (r: Vec<PortProto>)
    ensures
        r@ == ports@,
{
    let mut r: Vec<PortProto> = Vec::new();
    for i in 0..ports.len()
        invariant
            r@ == ports@.take(i as int),
    {
        r.push(ports[i]);
    }
    r
}

impl AccessRule {
    /// A copy of the rule.
    pub fn copy(&self) -> (r: AccessRule)
        ensures
            r@ == self@,
    {
        AccessRule {
            source_ip: self.source_ip,
            ports: copy_ports(&self.ports),
            timeout: self.timeout,
            comment: self.comment.clone(),
        }
    }
}

/// What names an installed rule; its text is the backend's own.
#[derive(Clone, Debug, PartialEq, Eq, Hash)]
pub struct RuleHandle(
    /// The text.
    pub String,
);

impl RuleHandle {
    /// The handle with the given text.
    #[must_use]
    pub fn new(s: &str) -> (r: RuleHandle)
        ensures
            r.0@ == s@,
    {
        RuleHandle(s.to_owned())
    }

    /// The text of the handle.
    #[must_use]
    pub fn as_str(&self) -> (r: &str)
        ensures
            r@ == self.0@,
    {
        self.0.as_str()
    }
}

} // verus!
