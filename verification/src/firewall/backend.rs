//! The interface of a firewall backend.

use crate::firewall::error::FirewallError;
use crate::firewall::rule::{AccessRule, RuleHandle};
use vstd::prelude::*;

verus! {

/// A firewall that the daemon drives.
///
/// Each operation is described by a relation between the backend before it, what it
/// is given, the backend after it, and its result.
pub trait FirewallBackend: Sized {
    /// What preparing the backend does.
    spec fn inits(before: Self, after: Self, r: Result<(), FirewallError>) -> bool;

    /// What installing a rule does.
    spec fn opens(
        before: Self,
        rule: AccessRule,
        after: Self,
        r: Result<RuleHandle, FirewallError>,
    ) -> bool;

    /// What removing a rule does.
    spec fn removes(
        before: Self,
        handle: RuleHandle,
        after: Self,
        r: Result<(), FirewallError>,
    ) -> bool;

    /// What tearing everything down does.
    spec fn flushes(before: Self, after: Self, r: Result<(), FirewallError>) -> bool;

    /// Prepares the backend. Preparing it again once everything was torn down
    /// succeeds where preparing it did.
    fn init(&mut self) -> (r: Result<(), FirewallError>)
        ensures
            Self::inits(*old(self), *final(self), r),
    ;

    /// Installs a rule and returns the handle by which it is removed.
    fn open_access(&mut self, rule: &AccessRule) -> (r: Result<RuleHandle, FirewallError>)
        ensures
            Self::opens(*old(self), *rule, *final(self), r),
    ;

    /// Removes an installed rule.
    fn remove_rule(&mut self, handle: &RuleHandle) -> (r: Result<(), FirewallError>)
        ensures
            Self::removes(*old(self), *handle, *final(self), r),
    ;

    /// Tears down everything that the backend has set up.
    fn flush(&mut self) -> (r: Result<(), FirewallError>)
        ensures
            Self::flushes(*old(self), *final(self), r),
    ;
}

} // verus!
