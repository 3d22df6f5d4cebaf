//! The shared process record and the lifecycle operations over it.
//!
//! The supervisor owns at most one recorded gateway child at a time, plus two
//! intent flags: `desired_running` (should the gateway be up) and
//! `app_closing` (the one-shot shutdown latch). The runtime around the
//! library owns the real OS child handle and the mutex; it probes the child
//! with a non-blocking wait and feeds the outcome into these operations.

use vstd::prelude::*;
use vstd::string::StringExecFns;

use crate::plans::views_of;
use crate::text::dec_seq;
use crate::text::u64_to_string;
use crate::GatewayStatus;
use crate::GATEWAY_PORT;

verus! {

/// Outcome of a non-blocking liveness probe (`try_wait`) on the recorded
/// child: still running, already exited, or the probe itself failed (the
/// string carries the OS error text).
pub enum ProbeOutcome {
    Alive,
    Exited,
    Failed(String),
}

/// What a start operation asks of its caller.
pub enum StartStep {
    /// A live child is already recorded: report "running", spawn nothing.
    AlreadyRunning,
    /// The slot is empty (or was just cleared): spawn a new gateway process
    /// and record its handle.
    NeedsSpawn,
    /// Liveness of the recorded child could not be determined; the operation
    /// fails with this message and the record is left as it was.
    ProbeError(String),
}

/// What the watchdog does on one tick.
pub enum WatchdogAction {
    /// The closing latch is set: the loop ends for good.
    Terminate,
    /// The gateway is not meant to be running: do nothing this tick.
    Skip,
    /// Ensure the gateway is running (one idempotent start operation).
    Reconcile,
}

/// The supervisor's shared state: the recorded child handle (an opaque
/// identifier for the runtime's OS handle) and the two intent flags.
pub struct Supervisor {
    /// At most one recorded live child, by handle identifier.
    pub child: Option<u64>,
    /// Intent: the gateway should be running. Default true at startup.
    pub desired_running: bool,
    /// One-shot latch, set when application shutdown begins. Never reset.
    pub app_closing: bool,
}

/// The message surfaced when a liveness probe fails.
pub open spec fn probe_error_view(detail: Seq<char>) -> Seq<char> {
    "failed to inspect gateway process: "@ + detail
}

pub(crate) fn probe_error_message(detail: &str) -> (r: String)
    ensures
        r@ == probe_error_view(detail@),
{
    let mut m = String::new();
    m.append("failed to inspect gateway process: ");
    m.append(detail);
    m
}

/// The start operation's transition: given the recorded slot and the probe
/// of the recorded child (exactly when one is recorded), the new state and
/// the step asked of the caller.
pub open spec fn spec_start(s: Supervisor, probe: Option<ProbeOutcome>) -> (Supervisor, StartStep) {
    match s.child {
        Some(_) => match probe {
            Some(ProbeOutcome::Alive) => (s, StartStep::AlreadyRunning),
            Some(ProbeOutcome::Exited) => (
                Supervisor { child: None, ..s },
                StartStep::NeedsSpawn,
            ),
            Some(ProbeOutcome::Failed(d)) => (s, StartStep::ProbeError(d)),
            None => (s, StartStep::NeedsSpawn),  // excluded by the operations' contracts
        },
        None => (s, StartStep::NeedsSpawn),
    }
}

/// The status operation's transition: the new state and the reported
/// liveness (`Err` when the probe failed).
pub open spec fn spec_status(s: Supervisor, probe: Option<ProbeOutcome>) -> (
    Supervisor,
    Result<bool, Seq<char>>,
) {
    match s.child {
        Some(_) => match probe {
            Some(ProbeOutcome::Alive) => (s, Ok(true)),
            Some(ProbeOutcome::Exited) => (Supervisor { child: None, ..s }, Ok(false)),
            Some(ProbeOutcome::Failed(d)) => (s, Err(probe_error_view(d@))),
            None => (s, Ok(false)),  // excluded by the operations' contracts
        },
        None => (s, Ok(false)),
    }
}

/// The watchdog's decision for one tick.
pub open spec fn spec_watchdog(app_closing: bool, desired_running: bool) -> WatchdogAction {
    if app_closing {
        WatchdogAction::Terminate
    } else if !desired_running {
        WatchdogAction::Skip
    } else {
        WatchdogAction::Reconcile
    }
}

impl Supervisor {
    /// A fresh supervisor: nothing recorded, the gateway meant to run, the
    /// closing latch clear.
    pub fn new() -> (s: Supervisor)
        ensures
            s.child is None,
            s.desired_running,
            !s.app_closing,
    {
        Supervisor { child: None, desired_running: true, app_closing: false }
    }

    /// Start operation, first half: probe the recorded child and decide.
    /// `probe` is the non-blocking wait outcome for the recorded child, and
    /// is given exactly when one is recorded. On `NeedsSpawn` the caller
    /// spawns and then records the handle with [`Supervisor::record_spawned`];
    /// a spawn failure leaves the slot empty (no partial state).
    pub fn start_check(&mut self, probe: Option<ProbeOutcome>) -> (r: StartStep)
        requires
            probe is Some <==> old(self).child is Some,
        ensures
            (*final(self), r) == spec_start(*old(self), probe),
            r is NeedsSpawn ==> final(self).child is None,
            final(self).desired_running == old(self).desired_running,
            final(self).app_closing == old(self).app_closing,
    {
        match self.child {
            Some(_) => match probe {
                Some(ProbeOutcome::Alive) => StartStep::AlreadyRunning,
                Some(ProbeOutcome::Exited) => {
                    self.child = None;
                    StartStep::NeedsSpawn
                },
                Some(ProbeOutcome::Failed(d)) => StartStep::ProbeError(d),
                None => StartStep::NeedsSpawn,
            },
            None => StartStep::NeedsSpawn,
        }
    }

    /// Record the handle of a child that was just spawned into the empty
    /// slot, and report the gateway as running on the canonical port.
    pub fn record_spawned(&mut self, handle: u64) -> (st: GatewayStatus)
        requires
            old(self).child is None,
        ensures
            final(self).child == Some(handle),
            final(self).desired_running == old(self).desired_running,
            final(self).app_closing == old(self).app_closing,
            st.running,
            st.port == GATEWAY_PORT,
    {
        self.child = Some(handle);
        GatewayStatus::running_now()
    }

    /// Status operation: non-blocking liveness query. A recorded child that
    /// has exited is cleared from the record; a probe failure is surfaced as
    /// an error and changes nothing.
    pub fn gateway_status(&mut self, probe: Option<ProbeOutcome>) -> (r: Result<
        GatewayStatus,
        String,
    >)
        requires
            probe is Some <==> old(self).child is Some,
        ensures
            ({
                let (s2, v) = spec_status(*old(self), probe);
                &&& *final(self) == s2
                &&& match v {
                    Ok(running) => r matches Ok(st) && st.running == running && st.port
                        == GATEWAY_PORT,
                    Err(m) => r matches Err(e) && e@ == m,
                }
            }),
    {
        match self.child {
            Some(_) => match probe {
                Some(ProbeOutcome::Alive) => Ok(GatewayStatus::running_now()),
                Some(ProbeOutcome::Exited) => {
                    self.child = None;
                    Ok(GatewayStatus::stopped_now())
                },
                Some(ProbeOutcome::Failed(d)) => Err(probe_error_message(d.as_str())),
                None => Ok(GatewayStatus::stopped_now()),
            },
            None => Ok(GatewayStatus::stopped_now()),
        }
    }

    /// Shutdown's acquire-and-detach step: take ownership of the recorded
    /// handle, leaving the slot empty, so no concurrent caller can act on
    /// the same child.
    pub fn detach(&mut self) -> (r: Option<u64>)
        ensures
            r == old(self).child,
            final(self).child is None,
            final(self).desired_running == old(self).desired_running,
            final(self).app_closing == old(self).app_closing,
    {
        let taken = self.child;
        self.child = None;
        taken
    }

    /// Record the caller's intent: set by explicit start, cleared by stop,
    /// exit and the red phone.
    pub fn set_desired_running(&mut self, v: bool)
        ensures
            final(self).desired_running == v,
            final(self).child == old(self).child,
            final(self).app_closing == old(self).app_closing,
    {
        self.desired_running = v;
    }

    /// Set the one-shot closing latch; returns whether it was already set,
    /// so a second concurrent exit trigger observes "already handled".
    pub fn begin_closing(&mut self) -> (already: bool)
        ensures
            already == old(self).app_closing,
            final(self).app_closing,
            final(self).child == old(self).child,
            final(self).desired_running == old(self).desired_running,
    {
        let before = self.app_closing;
        self.app_closing = true;
        before
    }

    /// The user-facing start command: record the intent that the gateway
    /// should run, then perform the start operation's check.
    pub fn start_gateway(&mut self, probe: Option<ProbeOutcome>) -> (r: StartStep)
        requires
            probe is Some <==> old(self).child is Some,
        ensures
            final(self).desired_running,
            ({
                let intent = Supervisor { desired_running: true, ..*old(self) };
                (*final(self), r) == spec_start(intent, probe)
            }),
    {
        self.desired_running = true;
        self.start_check(probe)
    }

    /// The stop commands' first half: record the intent that the gateway
    /// should stay down, and detach the recorded handle for the shutdown
    /// protocol. The returned handle (if any) is the one the protocol acts
    /// on; no other caller can reach it any more.
    pub fn request_stop(&mut self) -> (r: Option<u64>)
        ensures
            r == old(self).child,
            final(self).child is None,
            !final(self).desired_running,
            final(self).app_closing == old(self).app_closing,
    {
        self.desired_running = false;
        self.detach()
    }

    /// One watchdog tick's decision, from the two intent flags alone.
    pub fn watchdog_tick(&self) -> (a: WatchdogAction)
        ensures
            a == spec_watchdog(self.app_closing, self.desired_running),
    {
        if self.app_closing {
            WatchdogAction::Terminate
        } else if !self.desired_running {
            WatchdogAction::Skip
        } else {
            WatchdogAction::Reconcile
        }
    }
}

/// Everything a new gateway child is spawned with: the resolved package
/// runner, the fixed start arguments, the environment carrying the session
/// token and the supervisor's own process id (so the child can detect
/// orphaning), and the fixed working directory.
pub struct GatewaySpawnPlan {
    pub program: String,
    pub args: Vec<String>,
    /// Environment variables set on the child, name and value.
    pub env: Vec<(String, String)>,
    pub working_dir: String,
}

/// The spawn plan for a new gateway child, from the resolved package-runner
/// path, the workspace root, the established session token and the
/// supervisor's process id.
pub fn gateway_spawn_plan(
    pnpm: &str,
    root: &str,
    session_token: String,
    owner_pid: u32,
) -> (p: GatewaySpawnPlan)
    ensures
        p.program@ == pnpm@,
        views_of(p.args@) == seq!["--filter"@, "@majorclaw/gateway"@, "dev:server"@],
        p.env@.len() == 2,
        p.env@[0].0@ == "MAJORCLAW_GATEWAY_SESSION_TOKEN"@,
        p.env@[0].1 == session_token,
        p.env@[1].0@ == "MAJORCLAW_GATEWAY_OWNER_PID"@,
        p.env@[1].1@ == dec_seq(owner_pid as nat),
        p.working_dir@ == root@,
{
    let mut args: Vec<String> = Vec::new();
    args.push("--filter".to_owned());
    args.push("@majorclaw/gateway".to_owned());
    args.push("dev:server".to_owned());
    proof {
        assert(views_of(args@) =~= seq!["--filter"@, "@majorclaw/gateway"@, "dev:server"@]);
    }
    let pid_text = u64_to_string(owner_pid as u64);
    let mut env: Vec<(String, String)> = Vec::new();
    env.push(("MAJORCLAW_GATEWAY_SESSION_TOKEN".to_owned(), session_token));
    env.push(("MAJORCLAW_GATEWAY_OWNER_PID".to_owned(), pid_text));
    GatewaySpawnPlan { program: pnpm.to_owned(), args, env, working_dir: root.to_owned() }
}

/// Law: while the recorded child is alive, the start operation is
/// idempotent — invoked twice in succession it reports "already running"
/// both times, changes nothing, and never asks for a spawn.
pub proof fn lemma_start_idempotent_while_alive(s: Supervisor)
    requires
        s.child is Some,
    ensures
        ({
            let (s1, r1) = spec_start(s, Some(ProbeOutcome::Alive));
            let (s2, r2) = spec_start(s1, Some(ProbeOutcome::Alive));
            &&& r1 == StartStep::AlreadyRunning
            &&& r2 == StartStep::AlreadyRunning
            &&& s1 == s
            &&& s2 == s
        }),
{
}

/// Law: a status query that observes the recorded child as exited clears
/// the record, reports "not running", and every later status query (with
/// nothing newly recorded) keeps reporting "not running".
pub proof fn lemma_status_clears_exited_record(s: Supervisor)
    requires
        s.child is Some,
    ensures
        ({
            let (s1, r1) = spec_status(s, Some(ProbeOutcome::Exited));
            let (s2, r2) = spec_status(s1, None);
            &&& r1 == Ok::<bool, Seq<char>>(false)
            &&& s1.child is None
            &&& r2 == Ok::<bool, Seq<char>>(false)
            &&& s2 == s1
        }),
{
}

/// Law: a watchdog tick with `desired_running == false` never asks for a
/// reconciliation, whatever the state of the recorded child — an explicit
/// stop is not fought.
pub proof fn lemma_watchdog_respects_stop(app_closing: bool)
    ensures
        spec_watchdog(app_closing, false) != WatchdogAction::Reconcile,
{
}

/// Law: a watchdog tick that finds the gateway desired but dead performs
/// exactly one respawn: the tick's single start operation clears the dead
/// record and asks for one spawn, and once the new handle is recorded a
/// further start reports "already running" rather than spawning again.
pub proof fn lemma_watchdog_respawns_once(s: Supervisor, handle: u64)
    requires
        !s.app_closing,
        s.desired_running,
        s.child is Some,
    ensures
        spec_watchdog(s.app_closing, s.desired_running) == WatchdogAction::Reconcile,
        ({
            let (s1, r1) = spec_start(s, Some(ProbeOutcome::Exited));
            let s2 = Supervisor { child: Some(handle), ..s1 };
            let (s3, r3) = spec_start(s2, Some(ProbeOutcome::Alive));
            &&& r1 == StartStep::NeedsSpawn
            &&& s1.child is None
            &&& r3 == StartStep::AlreadyRunning
            &&& s3 == s2
        }),
{
}

} // verus!
