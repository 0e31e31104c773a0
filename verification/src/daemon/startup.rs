//! The decisions that the daemon makes before its main loop.

use crate::config::daemon::{DaemonConfig, FirewallBackend};
use crate::firewall::error::{FirewallError, FirewallErrorView};
use vstd::prelude::*;

verus! {

/// Checks that the configured firewall is supported, which only nftables is.
pub fn check_backend(backend: FirewallBackend) -> (r: Result<(), FirewallError>)
    ensures
        match backend {
            FirewallBackend::Nftables => r is Ok,
            FirewallBackend::Iptables => r is Err && r->Err_0@ == FirewallErrorView::Unsupported(
                "iptables backend (Phase 3 ships only nftables)"@,
            ),
        },
{
    match backend {
        FirewallBackend::Nftables => Ok(()),
        FirewallBackend::Iptables => Err(
            FirewallError::Unsupported("iptables backend (Phase 3 ships only nftables)"),
        ),
    }
}

/// The number of entries that the replay cache is made for: what is configured, and at
/// least one.
pub fn replay_capacity(max_entries: usize) -> (r: usize)
    ensures
        r == (if max_entries == 0 {
            1
        } else {
            max_entries
        }),
{
    if max_entries == 0 {
        1
    } else {
        max_entries
    }
}

/// A user and a group to run as.
#[derive(Clone, Debug, PartialEq, Eq)]
pub struct PrivDropTarget {
    /// The user.
    pub user: String,
    /// The group.
    pub group: String,
}

/// How the daemon confines itself.
#[derive(Clone, Debug, PartialEq, Eq)]
pub struct SandboxPlan {
    /// The user and the group to run as, where they change.
    pub drop_to: Option<PrivDropTarget>,
    /// The file whose directory stays writable, where the filesystem is restricted.
    pub landlock_file: Option<String>,
}

/// Plans how the daemon confines itself: not at all where that is switched off; the
/// user changes only where the daemon runs as root, and the filesystem is restricted
/// only where that is configured.
pub fn plan_sandbox(config: &DaemonConfig, is_root: bool) -> (r: Option<SandboxPlan>)
    ensures
        r is Some <==> config.daemon.enable_sandbox,
        r matches Some(plan) ==> {
            &&& plan.drop_to is Some <==> is_root
            &&& plan.drop_to matches Some(target) ==> target.user@ == config.daemon.run_user@
                && target.group@ == config.daemon.run_group@
            &&& plan.landlock_file is Some <==> config.daemon.landlock_enabled
            &&& plan.landlock_file matches Some(file) ==> file@ == config.replay.cache_path@
        },
{
    if !config.daemon.enable_sandbox {
        return None;
    }
    let drop_to = if is_root {
        Some(
            PrivDropTarget {
                user: config.daemon.run_user.clone(),
                group: config.daemon.run_group.clone(),
            },
        )
    } else {
        None
    };
    let landlock_file = if config.daemon.landlock_enabled {
        Some(config.replay.cache_path.clone())
    } else {
        None
    };
    Some(SandboxPlan { drop_to, landlock_file })
}

/// The replay cache is made for what is configured, and never for nothing.
pub proof fn law_replay_cache_holds_something(max_entries: usize, r: usize)
    requires
        call_ensures(replay_capacity, (max_entries,), r),
    ensures
        r >= 1,
        max_entries >= 1 ==> r == max_entries,
        max_entries == 0 ==> r == 1,
{
}

/// The daemon confines itself where that is switched on, and no further than it is told to.
pub proof fn law_confined_as_configured(config: DaemonConfig, is_root: bool, r: Option<SandboxPlan>)
    requires
        call_ensures(plan_sandbox, (&config, is_root), r),
    ensures
        !config.daemon.enable_sandbox ==> r is None,
        config.daemon.enable_sandbox ==> r is Some,
        r is Some && is_root ==> r->0.drop_to is Some && r->0.drop_to->0.user@
            == config.daemon.run_user@ && r->0.drop_to->0.group@ == config.daemon.run_group@,
        r is Some && !is_root ==> r->0.drop_to is None,
        r is Some && config.daemon.landlock_enabled ==> r->0.landlock_file is Some
            && r->0.landlock_file->0@ == config.replay.cache_path@,
        r is Some && !config.daemon.landlock_enabled ==> r->0.landlock_file is None,
{
}

/// Only nftables is supported.
pub proof fn law_only_nftables(backend: FirewallBackend, r: Result<(), FirewallError>)
    requires
        call_ensures(check_backend, (backend,), r),
    ensures
        r is Ok <==> backend == FirewallBackend::Nftables,
{
}

} // verus!
