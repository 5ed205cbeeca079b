//! The process lifecycle manager: one run of the session-start sequence —
//! defensive kill, browser launch, bounded polling of the debug endpoint,
//! bridge launch, bridge connect — as a state machine that issues one
//! command at a time and consumes the outcome the surroundings report.
//! A census model of the externally spawned processes shows that the
//! defensive kill keeps the manager from ever stacking up live browsers.

use vstd::prelude::*;

verus! {

/// How often the debug endpoint is probed before the startup gives up.
pub const PROBE_ATTEMPTS: u32 = 10;

/// Seconds between two probes of the debug endpoint.
pub const PROBE_INTERVAL_SECONDS: u64 = 1;

/// Seconds the bridge process is given to come up before connecting.
pub const BRIDGE_SETTLE_SECONDS: u64 = 3;

/// Seconds granted to killed processes before the teardown reports done.
pub const KILL_GRACE_SECONDS: u64 = 2;

/// Why a session start failed.
#[derive(Clone, Copy, PartialEq, Eq, Structural, Debug)]
pub enum ProcessError {
    /// A binary could not be spawned.
    LaunchFailed,
    /// The debugging endpoint never became reachable within the budget.
    PortUnavailable,
    /// The bridge session could not be opened.
    BridgeConnectFailed,
}

/// One unit of outside work the manager asks for.  The surroundings perform
/// it and report whether it succeeded.
#[derive(Clone, Copy, PartialEq, Eq, Structural, Debug)]
pub enum ProcCommand {
    /// Kill every process matching the known browser/bridge names.
    /// Best-effort: the outcome is ignored.
    KillStaleProcesses,
    /// Spawn the browser with remote debugging on the configured port and
    /// the persistent profile directory.
    LaunchBrowser,
    /// Wait one probe interval, then try the debug endpoint once.
    ProbeDebugEndpoint,
    /// Spawn the bridge process pointed at the browser's debugging address.
    LaunchBridge,
    /// Wait the settle time, then open the bridge session.
    OpenBridgeSession,
}

/// Where the startup stands.
#[derive(Clone, Copy, PartialEq, Eq, Structural, Debug)]
pub enum StartupPhase {
    /// About to kill stale processes.
    CleaningUp,
    /// About to spawn the browser.
    LaunchingBrowser,
    /// Polling the debug endpoint.
    Probing,
    /// About to spawn the bridge process.
    LaunchingBridge,
    /// About to open the bridge session.
    Connecting,
    /// The bridge session is open.
    Ready,
    /// The startup failed; the session must be reverted.
    Failed(ProcessError),
}

/// The fixed launch configuration of one session start.
pub struct SessionConfig {
    /// Persistent user-profile directory handed to the browser.
    pub profile_dir: String,
    /// Local port the browser's remote-debugging endpoint binds to.
    pub debug_port: u16,
    /// Local port the bridge process listens on.
    pub bridge_port: u16,
}

/// One run of the session-start sequence.
pub struct SessionStartup {
    pub config: SessionConfig,
    pub phase: StartupPhase,
    pub probes: u32,
}

/// The startup's next transition for one reported outcome.
pub open spec fn spec_startup_step(phase: StartupPhase, probes: u32, ok: bool) -> (
    StartupPhase,
    u32,
) {
    match phase {
        StartupPhase::CleaningUp => (StartupPhase::LaunchingBrowser, probes),
        StartupPhase::LaunchingBrowser => if ok {
            (StartupPhase::Probing, 0u32)
        } else {
            (StartupPhase::Failed(ProcessError::LaunchFailed), probes)
        },
        StartupPhase::Probing => if ok {
            (StartupPhase::LaunchingBridge, probes)
        } else if probes + 1 < PROBE_ATTEMPTS {
            (StartupPhase::Probing, (probes + 1) as u32)
        } else {
            (StartupPhase::Failed(ProcessError::PortUnavailable), probes)
        },
        StartupPhase::LaunchingBridge => if ok {
            (StartupPhase::Connecting, probes)
        } else {
            (StartupPhase::Failed(ProcessError::LaunchFailed), probes)
        },
        StartupPhase::Connecting => if ok {
            (StartupPhase::Ready, probes)
        } else {
            (StartupPhase::Failed(ProcessError::BridgeConnectFailed), probes)
        },
        StartupPhase::Ready => (StartupPhase::Ready, probes),
        StartupPhase::Failed(e) => (StartupPhase::Failed(e), probes),
    }
}

/// The command each phase issues; terminal phases issue none.
pub open spec fn spec_startup_command(phase: StartupPhase) -> Option<ProcCommand> {
    match phase {
        StartupPhase::CleaningUp => Some(ProcCommand::KillStaleProcesses),
        StartupPhase::LaunchingBrowser => Some(ProcCommand::LaunchBrowser),
        StartupPhase::Probing => Some(ProcCommand::ProbeDebugEndpoint),
        StartupPhase::LaunchingBridge => Some(ProcCommand::LaunchBridge),
        StartupPhase::Connecting => Some(ProcCommand::OpenBridgeSession),
        StartupPhase::Ready => None,
        StartupPhase::Failed(_) => None,
    }
}

impl SessionStartup {
    /// Begin a session start: the very first command is always the
    /// defensive kill of stale processes.
    pub fn begin(config: SessionConfig) -> (s: Self)
        ensures
            s.phase is CleaningUp,
            s.probes == 0,
            s.config == config,
    {
        SessionStartup { config, phase: StartupPhase::CleaningUp, probes: 0 }
    }

    /// The next unit of outside work, or nothing once the startup is done.
    pub fn next_command(&self) -> (c: Option<ProcCommand>)
        ensures
            c == spec_startup_command(self.phase),
    {
        match self.phase {
            StartupPhase::CleaningUp => Some(ProcCommand::KillStaleProcesses),
            StartupPhase::LaunchingBrowser => Some(ProcCommand::LaunchBrowser),
            StartupPhase::Probing => Some(ProcCommand::ProbeDebugEndpoint),
            StartupPhase::LaunchingBridge => Some(ProcCommand::LaunchBridge),
            StartupPhase::Connecting => Some(ProcCommand::OpenBridgeSession),
            StartupPhase::Ready => None,
            StartupPhase::Failed(_) => None,
        }
    }

    /// Consume the outcome of the command last issued.
    pub fn on_result(&mut self, ok: bool)
        ensures
            (final(self).phase, final(self).probes) == spec_startup_step(
                old(self).phase,
                old(self).probes,
                ok,
            ),
            final(self).config == old(self).config,
    {
        let (phase, probes) = match self.phase {
            StartupPhase::CleaningUp => (StartupPhase::LaunchingBrowser, self.probes),
            StartupPhase::LaunchingBrowser => if ok {
                (StartupPhase::Probing, 0u32)
            } else {
                (StartupPhase::Failed(ProcessError::LaunchFailed), self.probes)
            },
            StartupPhase::Probing => if ok {
                (StartupPhase::LaunchingBridge, self.probes)
            } else if self.probes < PROBE_ATTEMPTS - 1 {
                (StartupPhase::Probing, self.probes + 1)
            } else {
                (StartupPhase::Failed(ProcessError::PortUnavailable), self.probes)
            },
            StartupPhase::LaunchingBridge => if ok {
                (StartupPhase::Connecting, self.probes)
            } else {
                (StartupPhase::Failed(ProcessError::LaunchFailed), self.probes)
            },
            StartupPhase::Connecting => if ok {
                (StartupPhase::Ready, self.probes)
            } else {
                (StartupPhase::Failed(ProcessError::BridgeConnectFailed), self.probes)
            },
            StartupPhase::Ready => (StartupPhase::Ready, self.probes),
            StartupPhase::Failed(e) => (StartupPhase::Failed(e), self.probes),
        };
        self.phase = phase;
        self.probes = probes;
    }

    /// What the startup concluded once it reaches a terminal phase.
    pub fn outcome(&self) -> (r: Option<Result<(), ProcessError>>)
        ensures
            r matches Some(v) <==> (self.phase is Ready || self.phase is Failed),
            self.phase is Ready ==> r == Some(Result::<(), ProcessError>::Ok(())),
            self.phase matches StartupPhase::Failed(e) ==> r == Some(
                Result::<(), ProcessError>::Err(e),
            ),
    {
        match self.phase {
            StartupPhase::Ready => Some(Ok(())),
            StartupPhase::Failed(e) => Some(Err(e)),
            _ => None,
        }
    }
}

/// A census of the externally spawned processes the manager is responsible
/// for: how many browsers and how many bridge processes are alive.
pub ghost struct ProcessCensus {
    pub browsers: nat,
    pub bridges: nat,
}

/// How one performed command changes the census.  The kill-by-name clears
/// both counts whatever its reported outcome; a launch that succeeds adds
/// one process; probes and connects spawn nothing.
pub open spec fn apply_command(w: ProcessCensus, c: ProcCommand, ok: bool) -> ProcessCensus {
    match c {
        ProcCommand::KillStaleProcesses => ProcessCensus { browsers: 0, bridges: 0 },
        ProcCommand::LaunchBrowser => if ok {
            ProcessCensus { browsers: w.browsers + 1, bridges: w.bridges }
        } else {
            w
        },
        ProcCommand::LaunchBridge => if ok {
            ProcessCensus { browsers: w.browsers, bridges: w.bridges + 1 }
        } else {
            w
        },
        ProcCommand::ProbeDebugEndpoint => w,
        ProcCommand::OpenBridgeSession => w,
    }
}

/// Run the startup machine over a sequence of reported outcomes, threading
/// the process census through every performed command.
pub open spec fn run_startup(
    phase: StartupPhase,
    probes: u32,
    oks: Seq<bool>,
    w: ProcessCensus,
) -> (StartupPhase, u32, ProcessCensus)
    decreases oks.len(),
{
    if oks.len() == 0 {
        (phase, probes, w)
    } else {
        match spec_startup_command(phase) {
            None => (phase, probes, w),
            Some(c) => {
                let w1 = apply_command(w, c, oks[0]);
                let (phase1, probes1) = spec_startup_step(phase, probes, oks[0]);
                run_startup(phase1, probes1, oks.drop_first(), w1)
            },
        }
    }
}

/// What each phase guarantees of the census.  Before the defensive kill the
/// world is unknown; from then on at most one browser and one bridge exist,
/// and no bridge exists until the debug endpoint was seen ready.
pub open spec fn census_invariant(phase: StartupPhase, w: ProcessCensus) -> bool {
    match phase {
        StartupPhase::CleaningUp => true,
        StartupPhase::LaunchingBrowser => w.browsers == 0 && w.bridges == 0,
        StartupPhase::Probing => w.browsers <= 1 && w.bridges == 0,
        StartupPhase::LaunchingBridge => w.browsers <= 1 && w.bridges == 0,
        StartupPhase::Connecting => w.browsers <= 1 && w.bridges <= 1,
        StartupPhase::Ready => w.browsers <= 1 && w.bridges <= 1,
        StartupPhase::Failed(e) => w.browsers <= 1 && w.bridges <= 1 && (!(e
            is BridgeConnectFailed) ==> w.bridges == 0),
    }
}

/// One transition preserves the census invariant.
proof fn lemma_step_preserves_census(phase: StartupPhase, probes: u32, ok: bool, w: ProcessCensus)
    requires
        census_invariant(phase, w),
        spec_startup_command(phase) is Some,
    ensures
        census_invariant(
            spec_startup_step(phase, probes, ok).0,
            apply_command(w, spec_startup_command(phase)->0, ok),
        ),
{
}

/// A whole run preserves the census invariant, and never re-enters the
/// pre-kill phase.
proof fn lemma_run_preserves_census(
    phase: StartupPhase,
    probes: u32,
    oks: Seq<bool>,
    w: ProcessCensus,
)
    requires
        census_invariant(phase, w),
    ensures
        census_invariant(run_startup(phase, probes, oks, w).0, run_startup(phase, probes, oks, w).2),
        phase !is CleaningUp ==> run_startup(phase, probes, oks, w).0 !is CleaningUp,
    decreases oks.len(),
{
    if oks.len() > 0 {
        match spec_startup_command(phase) {
            None => {},
            Some(c) => {
                lemma_step_preserves_census(phase, probes, oks[0], w);
                let (phase1, probes1) = spec_startup_step(phase, probes, oks[0]);
                let w1 = apply_command(w, c, oks[0]);
                lemma_run_preserves_census(phase1, probes1, oks.drop_first(), w1);
            },
        }
    }
}

/// Law: two session startups in direct succession, with no teardown in
/// between and whatever processes were alive beforehand, never leave more
/// than one live browser (nor more than one bridge): each startup's first
/// performed command is the defensive kill-by-name, which clears the world
/// before anything is launched.
pub proof fn lemma_no_stacked_browsers(oks1: Seq<bool>, oks2: Seq<bool>, w0: ProcessCensus)
    requires
        oks1.len() >= 1,
        oks2.len() >= 1,
    ensures
        ({
            let r1 = run_startup(StartupPhase::CleaningUp, 0, oks1, w0);
            let r2 = run_startup(StartupPhase::CleaningUp, 0, oks2, r1.2);
            r2.2.browsers <= 1 && r2.2.bridges <= 1
        }),
{
    lemma_fresh_run_bounded(oks1, w0);
    let r1 = run_startup(StartupPhase::CleaningUp, 0, oks1, w0);
    lemma_fresh_run_bounded(oks2, r1.2);
}

/// A startup run from the pre-kill phase with at least one consumed outcome
/// leaves at most one browser and one bridge, whatever the world held.
proof fn lemma_fresh_run_bounded(oks: Seq<bool>, w0: ProcessCensus)
    requires
        oks.len() >= 1,
    ensures
        census_invariant(
            run_startup(StartupPhase::CleaningUp, 0, oks, w0).0,
            run_startup(StartupPhase::CleaningUp, 0, oks, w0).2,
        ),
        run_startup(StartupPhase::CleaningUp, 0, oks, w0).0 !is CleaningUp,
        run_startup(StartupPhase::CleaningUp, 0, oks, w0).2.browsers <= 1,
        run_startup(StartupPhase::CleaningUp, 0, oks, w0).2.bridges <= 1,
{
    let w1 = apply_command(w0, ProcCommand::KillStaleProcesses, oks[0]);
    assert(w1 == ProcessCensus { browsers: 0 as nat, bridges: 0 as nat });
    lemma_run_preserves_census(StartupPhase::LaunchingBrowser, 0, oks.drop_first(), w1);
}

/// Law: a startup that fails before the bridge-connect stage — a launch
/// failure, or a debug endpoint that never became reachable — leaves no
/// bridge process running.
pub proof fn lemma_early_failure_leaves_no_bridge(oks: Seq<bool>, w0: ProcessCensus)
    requires
        oks.len() >= 1,
        run_startup(StartupPhase::CleaningUp, 0, oks, w0).0 matches StartupPhase::Failed(e) && !(e
            is BridgeConnectFailed),
    ensures
        run_startup(StartupPhase::CleaningUp, 0, oks, w0).2.bridges == 0,
{
    lemma_fresh_run_bounded(oks, w0);
}

/// Law: teardown is best-effort and total — the kill-by-name clears the
/// whole census whatever outcome the surroundings report, so stopping a
/// session never fails observably and never leaves a tracked process.
pub proof fn lemma_teardown_clears_census(w: ProcessCensus, ok: bool)
    ensures
        apply_command(w, ProcCommand::KillStaleProcesses, ok).browsers == 0,
        apply_command(w, ProcCommand::KillStaleProcesses, ok).bridges == 0,
{
}

/// The process-name patterns the kill-by-name commands match: the bridge
/// first, then the browser names.  Teardown is coarse by design — the
/// browser may own child processes the manager never spawned itself.
pub fn kill_patterns() -> (r: Vec<String>)
    ensures
        r@.len() == 3,
        r@[0]@ == "chromedriver"@,
        r@[1]@ == "chromium"@,
        r@[2]@ == "chrome"@,
{
    let mut v: Vec<String> = Vec::new();
    v.push(String::from_str("chromedriver"));
    v.push(String::from_str("chromium"));
    v.push(String::from_str("chrome"));
    v
}

} // verus!
