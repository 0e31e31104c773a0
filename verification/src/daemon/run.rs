//! The main loop of the daemon, as the steps that it takes, and what it reports of
//! each packet.

use crate::capture::packet::CapturedPacket;
use crate::config::daemon::{DaemonConfig, DaemonSection};
use crate::daemon::pipeline;
use crate::daemon::pipeline::{process_packet, ProcessResult, ProcessView};
use crate::daemon::privsep_run::{ParentOutcome, ParentView};
use crate::daemon::replay::ReplayCache;
use crate::firewall::backend::FirewallBackend;
use crate::firewall::error::{FirewallError, FirewallErrorView};
use crate::net::IpAddr;
use crate::time;
use vstd::prelude::*;

verus! {

/// How long the main loop waits for a packet, in milliseconds.
pub const LOOP_TICK_MILLIS: u64 = 500;

/// After how many turns of the main loop the replay cache is pruned.
pub const PRUNE_EVERY_TICKS: u64 = 600;

/// What the main loop does next.
#[derive(Clone, Copy, Debug, PartialEq, Eq, Structural)]
pub enum Step {
    /// Tear down what an earlier run left in the firewall.
    FlushAtStart,
    /// Prepare the firewall.
    InitFirewall,
    /// Start the workers.
    StartWorkers,
    /// Tell the service manager that the daemon is ready.
    NotifyReady,
    /// Look at the shutdown signal.
    CheckShutdown,
    /// Wait for a packet, or for a message of the crypto worker.
    Receive,
    /// Handle what was received.
    Handle,
    /// Tell the service manager that the daemon is alive.
    Watchdog,
    /// Prune the replay cache.
    PruneReplay,
    /// Tell the service manager that the daemon stops.
    NotifyStopping,
    /// Stop the capture worker and wait for it.
    ReapCapture,
    /// Stop the crypto worker and wait for it.
    ReapCrypto,
    /// Tear down the firewall.
    FlushFirewall,
    /// Save the replay cache.
    SaveReplay,
    /// Return without an error.
    Finish,
    /// Return the error of the firewall, or of the workers that did not start.
    Fail,
}

/// What came of a step.
#[derive(Clone, Copy, Debug, PartialEq, Eq, Structural)]
pub enum Reply {
    /// The step is done, or the answer is yes, or something was received.
    Yes,
    /// The step failed, or the answer is no, or nothing was received.
    No,
}

/// The state of the main loop.
#[derive(Clone, Copy, Debug, PartialEq, Eq, Structural)]
pub struct MainLoop {
    /// The step to take.
    pub step: Step,
    /// The turns that the loop has made.
    pub tick: u64,
    /// Whether there are workers to look after.
    pub workers: bool,
    /// Whether the service manager is told that the daemon is ready and alive.
    pub notify: bool,
    /// Whether the firewall is torn down when the daemon is asked to stop.
    pub flush_at_exit: bool,
    /// Whether the loop ends for an error.
    pub failed: bool,
}

/// The loop before its first step, as the settings ask for it: what an earlier run left
/// in the firewall is torn down first, unless that is switched off.
pub open spec fn started(daemon: DaemonSection, workers: bool) -> MainLoop {
    MainLoop {
        step: if daemon.flush_rules_at_init {
            Step::FlushAtStart
        } else {
            Step::InitFirewall
        },
        tick: 0,
        workers,
        notify: daemon.enable_systemd,
        flush_at_exit: daemon.flush_rules_at_exit,
        failed: false,
    }
}

/// A number of turns and one more, or 0 behind the largest number.
pub open spec fn next_tick(tick: u64) -> u64 {
    if tick == u64::MAX {
        0
    } else {
        (tick + 1) as u64
    }
}

/// The loop at the end of a turn: every so many turns the cache is pruned.
pub open spec fn turned(l: MainLoop) -> MainLoop {
    MainLoop {
        step: if next_tick(l.tick) % PRUNE_EVERY_TICKS == 0 {
            Step::PruneReplay
        } else {
            Step::CheckShutdown
        },
        tick: next_tick(l.tick),
        ..l
    }
}

/// The loop once something was received and handled, or nothing was received.
pub open spec fn served(l: MainLoop) -> MainLoop {
    if l.notify {
        MainLoop { step: Step::Watchdog, ..l }
    } else {
        turned(l)
    }
}

/// The loop once the firewall is prepared and the workers, if any, run.
pub open spec fn ready(l: MainLoop) -> MainLoop {
    MainLoop {
        step: if l.notify {
            Step::NotifyReady
        } else {
            Step::CheckShutdown
        },
        ..l
    }
}

/// The loop once no worker is left: the firewall is torn down, unless that is switched
/// off, and then the replay cache is saved.
pub open spec fn closing(l: MainLoop) -> MainLoop {
    MainLoop {
        step: if l.flush_at_exit {
            Step::FlushFirewall
        } else {
            Step::SaveReplay
        },
        ..l
    }
}

/// The loop once it cannot go on. The parent ends at once; the single process tears down
/// the firewall and saves the replay cache first.
pub open spec fn failing(l: MainLoop) -> MainLoop {
    if l.workers {
        MainLoop { step: Step::Fail, ..l }
    } else {
        MainLoop { step: Step::FlushFirewall, failed: true, ..l }
    }
}

/// The loop after a step.
pub open spec fn stepped(l: MainLoop, reply: Reply) -> MainLoop {
    match l.step {
        Step::FlushAtStart => MainLoop { step: Step::InitFirewall, ..l },
        Step::InitFirewall => if reply == Reply::No {
            failing(l)
        } else if l.workers {
            MainLoop { step: Step::StartWorkers, ..l }
        } else {
            ready(l)
        },
        Step::StartWorkers => if reply == Reply::No {
            MainLoop { step: Step::Fail, ..l }
        } else {
            ready(l)
        },
        Step::NotifyReady => MainLoop { step: Step::CheckShutdown, ..l },
        Step::CheckShutdown => if reply == Reply::No {
            MainLoop { step: Step::Receive, ..l }
        } else if l.workers {
            MainLoop { step: Step::NotifyStopping, ..l }
        } else {
            closing(l)
        },
        Step::Receive => if reply == Reply::Yes {
            MainLoop { step: Step::Handle, ..l }
        } else {
            served(l)
        },
        Step::Handle => if reply == Reply::No && !l.workers {
            failing(l)
        } else {
            served(l)
        },
        Step::Watchdog => turned(l),
        Step::PruneReplay => MainLoop { step: Step::CheckShutdown, ..l },
        Step::NotifyStopping => MainLoop { step: Step::ReapCapture, ..l },
        Step::ReapCapture => MainLoop { step: Step::ReapCrypto, ..l },
        Step::ReapCrypto => closing(l),
        Step::FlushFirewall => MainLoop { step: Step::SaveReplay, ..l },
        Step::SaveReplay => MainLoop {
            step: if l.failed {
                Step::Fail
            } else {
                Step::Finish
            },
            ..l
        },
        Step::Finish | Step::Fail => l,
    }
}

impl MainLoop {
    /// The loop before its first step.
    fn start(daemon: &DaemonSection, workers: bool) -> (r: MainLoop)
        ensures
            r == started(*daemon, workers),
    {
        MainLoop {
            step: if daemon.flush_rules_at_init {
                Step::FlushAtStart
            } else {
                Step::InitFirewall
            },
            tick: 0,
            workers,
            notify: daemon.enable_systemd,
            flush_at_exit: daemon.flush_rules_at_exit,
            failed: false,
        }
    }

    /// The loop of the single process.
    pub fn single_process(daemon: &DaemonSection) -> (r: MainLoop)
        ensures
            r == started(*daemon, false),
    {
        MainLoop::start(daemon, false)
    }

    /// The loop of the parent, which starts the workers once the firewall is prepared.
    pub fn parent(daemon: &DaemonSection) -> (r: MainLoop)
        ensures
            r == started(*daemon, true),
    {
        MainLoop::start(daemon, true)
    }

    /// Ends a turn.
    fn turn(&mut self)
        ensures
            *final(self) == turned(*old(self)),
    {
        self.tick = self.tick.wrapping_add(1);
        self.step = if self.tick % PRUNE_EVERY_TICKS == 0 {
            Step::PruneReplay
        } else {
            Step::CheckShutdown
        };
    }

    /// Goes on once something was received and handled, or nothing was received.
    fn serve(&mut self)
        ensures
            *final(self) == served(*old(self)),
    {
        if self.notify {
            self.step = Step::Watchdog;
        } else {
            self.turn();
        }
    }

    /// Goes on once the firewall is prepared and the workers, if any, run.
    fn begin(&mut self)
        ensures
            *final(self) == ready(*old(self)),
    {
        self.step = if self.notify {
            Step::NotifyReady
        } else {
            Step::CheckShutdown
        };
    }

    /// Goes on once no worker is left.
    fn close(&mut self)
        ensures
            *final(self) == closing(*old(self)),
    {
        self.step = if self.flush_at_exit {
            Step::FlushFirewall
        } else {
            Step::SaveReplay
        };
    }

    /// Goes on once the loop cannot go on.
    fn fail(&mut self)
        ensures
            *final(self) == failing(*old(self)),
    {
        if self.workers {
            self.step = Step::Fail;
        } else {
            self.step = Step::FlushFirewall;
            self.failed = true;
        }
    }

    /// Takes note of what came of the current step, and goes on to the next.
    pub fn advance(&mut self, reply: Reply)
        ensures
            *final(self) == stepped(*old(self), reply),
    {
        match self.step {
            Step::FlushAtStart => self.step = Step::InitFirewall,
            Step::InitFirewall => {
                if reply == Reply::No {
                    self.fail();
                } else if self.workers {
                    self.step = Step::StartWorkers;
                } else {
                    self.begin();
                }
            },
            Step::StartWorkers => {
                if reply == Reply::No {
                    self.step = Step::Fail;
                } else {
                    self.begin();
                }
            },
            Step::NotifyReady => self.step = Step::CheckShutdown,
            Step::CheckShutdown => {
                if reply == Reply::No {
                    self.step = Step::Receive;
                } else if self.workers {
                    self.step = Step::NotifyStopping;
                } else {
                    self.close();
                }
            },
            Step::Receive => {
                if reply == Reply::Yes {
                    self.step = Step::Handle;
                } else {
                    self.serve();
                }
            },
            Step::Handle => {
                if reply == Reply::No && !self.workers {
                    self.fail();
                } else {
                    self.serve();
                }
            },
            Step::Watchdog => self.turn(),
            Step::PruneReplay => self.step = Step::CheckShutdown,
            Step::NotifyStopping => self.step = Step::ReapCapture,
            Step::ReapCapture => self.step = Step::ReapCrypto,
            Step::ReapCrypto => self.close(),
            Step::FlushFirewall => self.step = Step::SaveReplay,
            Step::SaveReplay => {
                self.step = if self.failed {
                    Step::Fail
                } else {
                    Step::Finish
                };
            },
            Step::Finish | Step::Fail => {},
        }
    }
}

/// The steps that the loop takes from `l` on, where `replies` came of them.
pub open spec fn after(l: MainLoop, replies: Seq<Reply>) -> MainLoop
    decreases replies.len(),
{
    if replies.len() == 0 {
        l
    } else {
        stepped(after(l, replies.drop_last()), replies.last())
    }
}

/// What is settled when the loop starts stays as it is.
pub proof fn law_settings_stay(daemon: DaemonSection, workers: bool, replies: Seq<Reply>)
    ensures
        ({
            let l = after(started(daemon, workers), replies);
            l.workers == workers && l.notify == daemon.enable_systemd && l.flush_at_exit
                == daemon.flush_rules_at_exit
        }),
    decreases replies.len(),
{
    if replies.len() > 0 {
        law_settings_stay(daemon, workers, replies.drop_last());
    }
}

/// The step that comes first is the one that tears down what an earlier run left in the
/// firewall, where the settings ask for it; the firewall is prepared next, whatever came
/// of that. So both come before the first packet.
pub proof fn law_start_comes_first(daemon: DaemonSection, workers: bool, flushed: Reply)
    ensures
        ({
            let l = started(daemon, workers);
            if daemon.flush_rules_at_init {
                l.step == Step::FlushAtStart && stepped(l, flushed).step == Step::InitFirewall
            } else {
                l.step == Step::InitFirewall
            }
        }),
{
}

/// What an earlier run left in the firewall is torn down at most once, in the first step,
/// and where it is switched off, not at all.
pub proof fn law_start_comes_once(daemon: DaemonSection, workers: bool, replies: Seq<Reply>)
    ensures
        after(started(daemon, workers), replies).step == Step::FlushAtStart ==> replies.len() == 0
            && daemon.flush_rules_at_init,
    decreases replies.len(),
{
    if replies.len() > 0 {
        law_start_comes_once(daemon, workers, replies.drop_last());
    }
}

/// A packet is waited for only once the firewall was prepared and, where the settings
/// ask for it, what an earlier run left in it was torn down before that.
pub proof fn law_packets_come_after_start(
    daemon: DaemonSection,
    workers: bool,
    replies: Seq<Reply>,
)
    requires
        after(started(daemon, workers), replies).step == Step::Receive,
    ensures
        ({
            let init: int = if daemon.flush_rules_at_init {
                1
            } else {
                0
            };
            &&& init < replies.len()
            &&& daemon.flush_rules_at_init ==> after(
                started(daemon, workers),
                replies.take(0),
            ).step == Step::FlushAtStart
            &&& after(started(daemon, workers), replies.take(init)).step == Step::InitFirewall
            &&& replies[init] == Reply::Yes
        }),
{
    lemma_past_start(daemon, workers, replies);
    assert(replies.take(0) =~= Seq::empty());
    if daemon.flush_rules_at_init {
        assert(replies.take(1).drop_last() =~= Seq::empty());
        assert(after(started(daemon, workers), replies.take(1).drop_last()) == started(
            daemon,
            workers,
        ));
    }
}

/// Where the loop stands after some replies: in its start, or past it, and then the
/// firewall was prepared or the loop has failed.
proof fn lemma_past_start(daemon: DaemonSection, workers: bool, replies: Seq<Reply>)
    ensures
        ({
            let l = after(started(daemon, workers), replies);
            let init: int = if daemon.flush_rules_at_init {
                1
            } else {
                0
            };
            if replies.len() < init {
                l.step == Step::FlushAtStart
            } else if replies.len() == init {
                l.step == Step::InitFirewall
            } else {
                &&& l.step != Step::FlushAtStart
                &&& l.step != Step::InitFirewall
                &&& replies[init] == Reply::No ==> l.step == Step::Fail || (l.failed && (l.step
                    == Step::FlushFirewall || l.step == Step::SaveReplay))
            }
        }),
    decreases replies.len(),
{
    if replies.len() > 0 {
        lemma_past_start(daemon, workers, replies.drop_last());
    }
}

/// Once the shutdown signal is seen, the loop of the single process tears down the
/// firewall, unless that is switched off, saves the replay cache and finishes, whatever
/// fails on the way.
pub proof fn law_shutdown_cleans_up(l: MainLoop, flushed: Reply, saved: Reply)
    requires
        l.step == Step::CheckShutdown,
        !l.workers,
        !l.failed,
    ensures
        ({
            let s1 = stepped(l, Reply::Yes);
            let s2 = if l.flush_at_exit {
                stepped(s1, flushed)
            } else {
                s1
            };
            &&& l.flush_at_exit ==> s1.step == Step::FlushFirewall
            &&& s2.step == Step::SaveReplay
            &&& stepped(s2, saved).step == Step::Finish
        }),
{
}

/// Once the shutdown signal is seen, the loop of the parent says that it stops, stops
/// both workers, tears down the firewall, unless that is switched off, saves the replay
/// cache and finishes, whatever fails on the way.
pub proof fn law_parent_shutdown_cleans_up(
    l: MainLoop,
    told: Reply,
    capture: Reply,
    crypto: Reply,
    flushed: Reply,
    saved: Reply,
)
    requires
        l.step == Step::CheckShutdown,
        l.workers,
        !l.failed,
    ensures
        ({
            let s1 = stepped(l, Reply::Yes);
            let s2 = stepped(s1, told);
            let s3 = stepped(s2, capture);
            let s4 = stepped(s3, crypto);
            let s5 = if l.flush_at_exit {
                stepped(s4, flushed)
            } else {
                s4
            };
            &&& s1.step == Step::NotifyStopping
            &&& s2.step == Step::ReapCapture
            &&& s3.step == Step::ReapCrypto
            &&& l.flush_at_exit ==> s4.step == Step::FlushFirewall
            &&& s5.step == Step::SaveReplay
            &&& stepped(s5, saved).step == Step::Finish
        }),
{
}

/// Where the firewall fails, while it is prepared or while a packet is handled, the loop
/// of the single process tears it down, saves the replay cache and ends with the error,
/// whatever fails on the way and whatever the settings say of a stop that was asked for.
pub proof fn law_fatal_error_cleans_up(l: MainLoop, flushed: Reply, saved: Reply)
    requires
        l.step == Step::InitFirewall || l.step == Step::Handle,
        !l.workers,
    ensures
        ({
            let s1 = stepped(l, Reply::No);
            let s2 = stepped(s1, flushed);
            &&& s1.step == Step::FlushFirewall
            &&& s2.step == Step::SaveReplay
            &&& stepped(s2, saved).step == Step::Fail
        }),
{
}

/// The parent ends at once where the firewall cannot be prepared or the workers do not
/// start, and goes on where a message could not be handled.
pub proof fn law_parent_errors(l: MainLoop, reply: Reply)
    requires
        l.workers,
    ensures
        l.step == Step::InitFirewall || l.step == Step::StartWorkers ==> stepped(
            l,
            Reply::No,
        ).step == Step::Fail,
        l.step == Step::Handle ==> stepped(l, reply) == served(l),
{
}

/// A loop that has not failed finishes only behind the step that saves the replay cache.
/// Where the firewall is to be torn down, that step comes only behind the one that does
/// so, which comes only once the shutdown signal was seen; where it is not, it never is.
pub proof fn law_finish_only_after_cleanup(l: MainLoop, reply: Reply)
    requires
        !l.failed,
        !stepped(l, reply).failed,
    ensures
        stepped(l, reply).step == Step::Finish ==> l.step == Step::SaveReplay || l.step
            == Step::Finish,
        stepped(l, reply).step == Step::SaveReplay && l.flush_at_exit ==> l.step
            == Step::FlushFirewall,
        stepped(l, reply).step == Step::FlushFirewall ==> l.flush_at_exit && (l.step
            == Step::ReapCrypto || (l.step == Step::CheckShutdown && reply == Reply::Yes)),
        stepped(l, reply).step == Step::NotifyStopping ==> l.step == Step::CheckShutdown && reply
            == Reply::Yes,
{
}

/// The service manager is told neither that the daemon is ready nor that it is alive
/// where that is switched off.
pub proof fn law_silent_where_switched_off(l: MainLoop, reply: Reply)
    requires
        !l.notify,
    ensures
        stepped(l, reply).step != Step::NotifyReady,
        stepped(l, reply).step != Step::Watchdog,
        !stepped(l, reply).notify,
{
}

/// Where the service manager is notified, it is told that the daemon is alive in every
/// turn that does not end the loop: after what was received was handled, and after
/// nothing was received.
pub proof fn law_alive_in_every_turn(l: MainLoop, reply: Reply)
    requires
        l.notify,
        (l.step == Step::Handle && (l.workers || reply == Reply::Yes)) || (l.step == Step::Receive
            && reply == Reply::No),
    ensures
        stepped(l, reply).step == Step::Watchdog,
{
}

/// The cache is pruned exactly at the end of those turns whose number is a multiple
/// of [`PRUNE_EVERY_TICKS`].
pub proof fn law_prune_every_so_many_ticks(l: MainLoop, reply: Reply)
    ensures
        stepped(l, reply).step == Step::PruneReplay <==> stepped(l, reply).tick == next_tick(l.tick)
            && next_tick(l.tick) % PRUNE_EVERY_TICKS == 0 && (l.step == Step::Watchdog || (
        !l.notify && ((l.step == Step::Handle && (l.workers || reply == Reply::Yes)) || (l.step
            == Step::Receive && reply == Reply::No)))),
{
}

/// How urgent a report is.
#[derive(Clone, Copy, Debug, PartialEq, Eq, Structural)]
pub enum Level {
    /// Of interest when something is looked into.
    Debug,
    /// Of interest in operation.
    Info,
    /// Suspicious.
    Warn,
    /// A failure.
    Error,
}

/// What is logged of a packet.
#[derive(Debug)]
pub struct Report {
    /// How urgent it is.
    pub level: Level,
    /// What happened.
    pub message: &'static str,
    /// The sender of the packet, where it is known.
    pub source: Option<IpAddr>,
    /// The stanza that the packet belongs to, where there is one.
    pub stanza: Option<String>,
    /// Why, where there is a reason.
    pub detail: Option<String>,
}

/// The model of a [`Report`].
#[verifier::ext_equal]
pub struct ReportView {
    /// How urgent it is.
    pub level: Level,
    /// What happened.
    pub message: Seq<char>,
    /// The sender of the packet, where it is known.
    pub source: Option<IpAddr>,
    /// The stanza that the packet belongs to, where there is one.
    pub stanza: Option<Seq<char>>,
    /// Why, where there is a reason.
    pub detail: Option<Seq<char>>,
}

/// The view of an optional text.
pub open spec fn opt_text(s: Option<String>) -> Option<Seq<char>> {
    match s {
        Some(t) => Some(t@),
        None => None,
    }
}

impl View for Report {
    type V = ReportView;

    open spec fn view(&self) -> ReportView {
        ReportView {
            level: self.level,
            message: self.message@,
            source: self.source,
            stanza: opt_text(self.stanza),
            detail: opt_text(self.detail),
        }
    }
}

/// What is reported of a packet that a single process handled.
pub open spec fn packet_report(source: IpAddr, r: Result<ProcessView, FirewallErrorView>) -> ReportView {
    let source = Some(source);
    match r {
        Ok(ProcessView::Installed { stanza_name, .. }) => ReportView {
            level: Level::Info,
            message: "rule installed"@,
            source,
            stanza: Some(stanza_name),
            detail: None,
        },
        Ok(ProcessView::Replay { stanza_name }) => ReportView {
            level: Level::Warn,
            message: "replay detected"@,
            source,
            stanza: Some(stanza_name),
            detail: None,
        },
        Ok(ProcessView::NoMatch) => ReportView {
            level: Level::Debug,
            message: "no stanza matched (dropped)"@,
            source,
            stanza: None,
            detail: None,
        },
        Ok(ProcessView::Rejected { stanza_name, reason }) => ReportView {
            level: Level::Warn,
            message: "packet rejected"@,
            source,
            stanza: Some(stanza_name),
            detail: Some(reason),
        },
        Err(e) => ReportView {
            level: Level::Error,
            message: "firewall backend failure during packet processing"@,
            source,
            stanza: None,
            detail: Some(e.text()),
        },
    }
}

/// The view of what became of a packet.
pub open spec fn result_view(r: Result<ProcessResult, FirewallError>) -> Result<
    ProcessView,
    FirewallErrorView,
> {
    match r {
        Ok(v) => Ok(v@),
        Err(e) => Err(e@),
    }
}

/// Reports what became of a packet.
pub fn report_packet(source: IpAddr, result: Result<ProcessResult, FirewallError>) -> (r: Report)
    ensures
        r@ == packet_report(source, result_view(result)),
{
    match result {
        Ok(v) => report_result(source, v),
        Err(e) => report_failure(source, &e),
    }
}

/// Reports what became of a packet where the firewall did not fail.
fn report_result(source: IpAddr, result: ProcessResult) -> (r: Report)
    ensures
        r@ == packet_report(source, Ok(result@)),
{
    let source = Some(source);
    match result {
        ProcessResult::Installed { stanza_name, handle } => Report {
            level: Level::Info,
            message: "rule installed",
            source,
            stanza: Some(stanza_name),
            detail: None,
        },
        ProcessResult::Replay { stanza_name } => Report {
            level: Level::Warn,
            message: "replay detected",
            source,
            stanza: Some(stanza_name),
            detail: None,
        },
        ProcessResult::NoMatch => Report {
            level: Level::Debug,
            message: "no stanza matched (dropped)",
            source,
            stanza: None,
            detail: None,
        },
        ProcessResult::Rejected { stanza_name, reason } => Report {
            level: Level::Warn,
            message: "packet rejected",
            source,
            stanza: Some(stanza_name),
            detail: Some(reason),
        },
    }
}

/// Reports a packet at which the firewall failed.
fn report_failure(source: IpAddr, e: &FirewallError) -> (r: Report)
    ensures
        r@ == packet_report(source, Err(e@)),
{
    Report {
        level: Level::Error,
        message: "firewall backend failure during packet processing",
        source: Some(source),
        stanza: None,
        detail: Some(e.to_string()),
    }
}

/// What handling a packet gives.
#[derive(Debug)]
pub struct Handled {
    /// What is logged.
    pub report: Report,
    /// How the firewall failed, if it did; the daemon then cannot go on.
    pub failure: Option<FirewallError>,
}

/// The reply to the main loop for a packet that was handled.
pub open spec fn handled_reply(failure: Option<FirewallError>) -> Reply {
    match failure {
        None => Reply::Yes,
        Some(_) => Reply::No,
    }
}

impl Handled {
    /// The reply to the main loop: that the packet was handled, unless the firewall
    /// failed.
    pub fn reply(&self) -> (r: Reply)
        ensures
            r == handled_reply(self.failure),
    {
        match self.failure {
            None => Reply::Yes,
            Some(_) => Reply::No,
        }
    }
}

/// Processes a packet now, reports what became of it, and hands on how the firewall
/// failed.
pub fn handle_packet<F: FirewallBackend, C: ReplayCache>(
    pkt: &CapturedPacket,
    config: &DaemonConfig,
    replay: &mut C,
    firewall: &mut F,
) -> (r: Handled)
    ensures
        exists|now: i64, result: Result<ProcessResult, FirewallError>| #[trigger]
            pipeline::processed(
                *pkt,
                *config,
                now,
                *old(replay),
                *final(replay),
                *old(firewall),
                *final(firewall),
                result,
            ) && time::clock_time(now) && r.report@ == packet_report(
                pkt.source_ip,
                result_view(result),
            ) && match result {
                Ok(_) => r.failure is None,
                Err(e) => r.failure == Some(e),
            },
{
    match process_packet(pkt, config, replay, firewall) {
        Ok(v) => Handled { report: report_result(pkt.source_ip, v), failure: None },
        Err(e) => {
            let report = report_failure(pkt.source_ip, &e);
            Handled { report, failure: Some(e) }
        },
    }
}

/// What is reported of a message that the parent handled.
pub open spec fn parent_report(o: ParentView) -> ReportView {
    match o {
        ParentView::NoMatch { source_ip } => ReportView {
            level: Level::Debug,
            message: "parent: no-match packet"@,
            source: Some(source_ip),
            stanza: None,
            detail: None,
        },
        ParentView::Rejected { source_ip, reason } => ReportView {
            level: Level::Warn,
            message: "parent: rejected packet"@,
            source: Some(source_ip),
            stanza: None,
            detail: Some(reason),
        },
        ParentView::Replay { stanza_name, source_ip } => ReportView {
            level: Level::Warn,
            message: "parent: replay detected"@,
            source: Some(source_ip),
            stanza: Some(stanza_name),
            detail: None,
        },
        ParentView::Unsupported { stanza_name } => ReportView {
            level: Level::Warn,
            message: "parent: unsupported message variant in ValidRequest"@,
            source: None,
            stanza: Some(stanza_name),
            detail: None,
        },
        ParentView::UnknownStanza { stanza_name } => ReportView {
            level: Level::Error,
            message: "parent: stanza name not found in config"@,
            source: None,
            stanza: Some(stanza_name),
            detail: None,
        },
        ParentView::Installed { stanza_name, source_ip, .. } => ReportView {
            level: Level::Info,
            message: "parent: rule installed"@,
            source: Some(source_ip),
            stanza: Some(stanza_name),
            detail: None,
        },
        ParentView::Failed { error } => ReportView {
            level: Level::Error,
            message: "parent: firewall.open_access failed"@,
            source: None,
            stanza: None,
            detail: Some(error@.text()),
        },
    }
}

/// Reports what the parent made of a message.
pub fn report_outcome(outcome: ParentOutcome) -> (r: Report)
    ensures
        r@ == parent_report(outcome@),
{
    match outcome {
        ParentOutcome::NoMatch { source_ip } => Report {
            level: Level::Debug,
            message: "parent: no-match packet",
            source: Some(source_ip),
            stanza: None,
            detail: None,
        },
        ParentOutcome::Rejected { source_ip, reason } => Report {
            level: Level::Warn,
            message: "parent: rejected packet",
            source: Some(source_ip),
            stanza: None,
            detail: Some(reason),
        },
        ParentOutcome::Replay { stanza_name, source_ip } => Report {
            level: Level::Warn,
            message: "parent: replay detected",
            source: Some(source_ip),
            stanza: Some(stanza_name),
            detail: None,
        },
        ParentOutcome::Unsupported { stanza_name } => Report {
            level: Level::Warn,
            message: "parent: unsupported message variant in ValidRequest",
            source: None,
            stanza: Some(stanza_name),
            detail: None,
        },
        ParentOutcome::UnknownStanza { stanza_name } => Report {
            level: Level::Error,
            message: "parent: stanza name not found in config",
            source: None,
            stanza: Some(stanza_name),
            detail: None,
        },
        ParentOutcome::Installed { stanza_name, source_ip, handle } => Report {
            level: Level::Info,
            message: "parent: rule installed",
            source: Some(source_ip),
            stanza: Some(stanza_name),
            detail: None,
        },
        ParentOutcome::Failed { error } => Report {
            level: Level::Error,
            message: "parent: firewall.open_access failed",
            source: None,
            stanza: None,
            detail: Some(error.to_string()),
        },
    }
}

/// A start that succeeds: the firewall is prepared, the workers, if any, are started, the
/// service manager, if it is to be told, is told, and the first turn begins.
pub proof fn law_start_goes_through(l: MainLoop, told: Reply)
    requires
        l.step == Step::InitFirewall,
    ensures
        ({
            let s1 = stepped(l, Reply::Yes);
            let s2 = if l.workers {
                stepped(s1, Reply::Yes)
            } else {
                s1
            };
            let s3 = if l.notify {
                stepped(s2, told)
            } else {
                s2
            };
            &&& l.workers ==> s1.step == Step::StartWorkers
            &&& l.notify ==> s2.step == Step::NotifyReady
            &&& s3.step == Step::CheckShutdown
            &&& s3.tick == l.tick && s3.failed == l.failed
        }),
{
}

/// One turn, in which nothing asks the daemon to stop and the firewall does not fail: a packet
/// is waited for; one that came is handled; the service manager, if it is to be told, is told;
/// every 600 turns the replay cache is pruned; and the next turn begins with one turn more
/// on the count, which starts again at 0 behind its largest number.
pub proof fn law_turn_after_turn(l: MainLoop, received: Reply, told: Reply, pruned: Reply)
    requires
        l.step == Step::CheckShutdown,
    ensures
        ({
            let s1 = stepped(l, Reply::No);
            let s2 = stepped(s1, received);
            let s3 = if received == Reply::Yes {
                stepped(s2, Reply::Yes)
            } else {
                s2
            };
            let s4 = if l.notify {
                stepped(s3, told)
            } else {
                s3
            };
            let count = if l.tick == 0xffff_ffff_ffff_ffff {
                0int
            } else {
                l.tick + 1
            };
            let s5 = if count % 600 == 0 {
                stepped(s4, pruned)
            } else {
                s4
            };
            &&& s1.step == Step::Receive
            &&& received == Reply::Yes ==> s2.step == Step::Handle
            &&& l.notify ==> s3.step == Step::Watchdog
            &&& count % 600 == 0 ==> s4.step == Step::PruneReplay
            &&& s5.step == Step::CheckShutdown
            &&& s5.tick == count
            &&& s5.failed == l.failed
        }),
{
}

/// A packet that was handled is answered with yes, unless the firewall failed.
pub proof fn law_only_a_failure_is_answered_with_no(failure: Option<FirewallError>)
    ensures
        handled_reply(failure) == Reply::No <==> failure is Some,
{
}

/// Every report on a packet names its sender. An installed rule is of interest in operation, a
/// packet of no stanza when something is looked into, a failure of the firewall is an error, and
/// all else is suspicious; the stanza and the reason are named where there are any.
pub proof fn law_packet_reports(source: IpAddr, r: Result<ProcessView, FirewallErrorView>)
    ensures
        ({
            let report = packet_report(source, r);
            &&& report.source == Some(source)
            &&& report.level == Level::Error <==> r is Err
            &&& report.level == Level::Info <==> r is Ok && r->Ok_0 is Installed
            &&& report.level == Level::Debug <==> r is Ok && r->Ok_0 is NoMatch
            &&& match r {
                Ok(ProcessView::Installed { stanza_name, .. }) => report.stanza == Some(stanza_name)
                    && report.detail is None,
                Ok(ProcessView::Replay { stanza_name }) => report.stanza == Some(stanza_name)
                    && report.detail is None,
                Ok(ProcessView::NoMatch) => report.stanza is None && report.detail is None,
                Ok(ProcessView::Rejected { stanza_name, reason }) => report.stanza == Some(
                    stanza_name,
                ) && report.detail == Some(reason),
                Err(e) => report.stanza is None && report.detail == Some(e.text()),
            }
        }),
{
}

/// The reports of the parent are as urgent as those of the single process, and name the sender,
/// the stanza and the reason where the outcome has them.
pub proof fn law_parent_reports(o: ParentView)
    ensures
        ({
            let report = parent_report(o);
            &&& report.level == Level::Error <==> o is Failed || o is UnknownStanza
            &&& report.level == Level::Info <==> o is Installed
            &&& report.level == Level::Debug <==> o is NoMatch
            &&& match o {
                ParentView::NoMatch { source_ip } => report.source == Some(source_ip)
                    && report.stanza is None && report.detail is None,
                ParentView::Rejected { source_ip, reason } => report.source == Some(source_ip)
                    && report.stanza is None && report.detail == Some(reason),
                ParentView::Replay { stanza_name, source_ip } => report.source == Some(source_ip)
                    && report.stanza == Some(stanza_name) && report.detail is None,
                ParentView::Unsupported { stanza_name } => report.source is None && report.stanza
                    == Some(stanza_name) && report.detail is None,
                ParentView::UnknownStanza { stanza_name } => report.source is None && report.stanza
                    == Some(stanza_name) && report.detail is None,
                ParentView::Installed { stanza_name, source_ip, .. } => report.source == Some(
                    source_ip,
                ) && report.stanza == Some(stanza_name) && report.detail is None,
                ParentView::Failed { error } => report.source is None && report.stanza is None
                    && report.detail == Some(error@.text()),
            }
        }),
{
}

/// The loop starts without a turn and without a failure.
pub proof fn law_starts_fresh(daemon: DaemonSection, workers: bool)
    ensures
        started(daemon, workers).tick == 0,
        !started(daemon, workers).failed,
        started(daemon, workers).workers == workers,
        started(daemon, workers).notify == daemon.enable_systemd,
        started(daemon, workers).flush_at_exit == daemon.flush_rules_at_exit,
{
}

/// Behind its end the loop does nothing more.
pub proof fn law_end_is_the_end(l: MainLoop, reply: Reply)
    requires
        l.step == Step::Finish || l.step == Step::Fail,
    ensures
        stepped(l, reply) == l,
{
}

/// Only the end of a turn counts a turn; no other step changes the count.
pub proof fn law_only_turns_are_counted(l: MainLoop, reply: Reply)
    ensures
        stepped(l, reply).tick == l.tick || (l.step == Step::Receive || l.step == Step::Handle
            || l.step == Step::Watchdog),
        stepped(l, reply).tick == l.tick || stepped(l, reply).tick == (if l.tick
            == 0xffff_ffff_ffff_ffff {
            0int
        } else {
            l.tick + 1
        }),
{
}

/// In turns that wait in full, the replay cache is pruned every five minutes.
pub proof fn law_pruned_every_five_minutes()
    ensures
        PRUNE_EVERY_TICKS * LOOP_TICK_MILLIS == 5 * 60 * 1000,
        LOOP_TICK_MILLIS == 500,
{
}

/// The words of the reports.
pub proof fn law_report_words(
    source: IpAddr,
    r: Result<ProcessView, FirewallErrorView>,
    o: ParentView,
)
    ensures
        packet_report(source, r).message == (match r {
            Ok(ProcessView::Installed { .. }) => "rule installed"@,
            Ok(ProcessView::Replay { .. }) => "replay detected"@,
            Ok(ProcessView::NoMatch) => "no stanza matched (dropped)"@,
            Ok(ProcessView::Rejected { .. }) => "packet rejected"@,
            Err(_) => "firewall backend failure during packet processing"@,
        }),
        parent_report(o).message == (match o {
            ParentView::NoMatch { .. } => "parent: no-match packet"@,
            ParentView::Rejected { .. } => "parent: rejected packet"@,
            ParentView::Replay { .. } => "parent: replay detected"@,
            ParentView::Unsupported { .. } => "parent: unsupported message variant in ValidRequest"@,
            ParentView::UnknownStanza { .. } => "parent: stanza name not found in config"@,
            ParentView::Installed { .. } => "parent: rule installed"@,
            ParentView::Failed { .. } => "parent: firewall.open_access failed"@,
        }),
{
}

} // verus!
