//! What can go wrong with the firewall.

use vstd::prelude::*;

verus! {

/// What can go wrong in a firewall backend.
#[derive(Debug)]
#[non_exhaustive]
pub enum FirewallError {
    /// A ruleset could not be applied. The text is what the backend says.
    Backend(String),
    /// There is no rule with the given handle.
    RuleNotFound(String),
    /// The backend is not in a state for the operation.
    InconsistentState(String),
    /// The operation is not supported.
    Unsupported(&'static str),
}

/// The model of a [`FirewallError`].
#[verifier::ext_equal]
pub enum FirewallErrorView {
    /// See [`FirewallError::Backend`].
    Backend(Seq<char>),
    /// See [`FirewallError::RuleNotFound`].
    RuleNotFound(Seq<char>),
    /// See [`FirewallError::InconsistentState`].
    InconsistentState(Seq<char>),
    /// See [`FirewallError::Unsupported`].
    Unsupported(Seq<char>),
}

impl View for FirewallError {
    type V = FirewallErrorView;

    open spec fn view(&self) -> FirewallErrorView {
        match *self {
            FirewallError::Backend(s) => FirewallErrorView::Backend(s@),
            FirewallError::RuleNotFound(s) => FirewallErrorView::RuleNotFound(s@),
            FirewallError::InconsistentState(s) => FirewallErrorView::InconsistentState(s@),
            FirewallError::Unsupported(s) => FirewallErrorView::Unsupported(s@),
        }
    }
}

impl FirewallErrorView {
    /// The text that describes the error.
    pub open spec fn text(self) -> Seq<char> {
        match self {
            FirewallErrorView::Backend(s) => "nftables backend failure: "@ + s,
            FirewallErrorView::RuleNotFound(s) => "rule not found: "@ + s,
            FirewallErrorView::InconsistentState(s) => "backend in inconsistent state: "@ + s,
            FirewallErrorView::Unsupported(s) => "operation not supported: "@ + s,
        }
    }
}

impl FirewallError {
    /// The text that describes the error.
    pub fn to_string(&self) -> (r: String)
        ensures
            r@ == self@.text(),
    {
        let mut s = String::new();
        match self {
            FirewallError::Backend(e) => {
                s.append("nftables backend failure: ");
                s.append(e.as_str());
            },
            FirewallError::RuleNotFound(e) => {
                s.append("rule not found: ");
                s.append(e.as_str());
            },
            FirewallError::InconsistentState(e) => {
                s.append("backend in inconsistent state: ");
                s.append(e.as_str());
            },
            FirewallError::Unsupported(e) => {
                s.append("operation not supported: ");
                s.append(e);
            },
        }
        assert(s@ =~= self@.text());
        s
    }
}

/// What an error says: what happened, and behind it the cause that it carries.
pub proof fn law_texts_tell_the_cause(e: FirewallError, r: String)
    requires
        call_ensures(FirewallError::to_string, (&e,), r),
    ensures
        match e {
            FirewallError::Backend(s) => r@ == "nftables backend failure: "@ + s@,
            FirewallError::RuleNotFound(s) => r@ == "rule not found: "@ + s@,
            FirewallError::InconsistentState(s) => r@ == "backend in inconsistent state: "@ + s@,
            FirewallError::Unsupported(s) => r@ == "operation not supported: "@ + s@,
        },
{
}

} // verus!
