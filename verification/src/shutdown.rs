//! The graceful-shutdown protocol: a bounded state machine shared by manual
//! stop, application-exit stop and the red phone.
//!
//! After the supervisor's acquire-and-detach step, the protocol asks the
//! gateway to shut down cooperatively (best effort), polls the detached
//! child on a fixed interval until it exits or the graceful window elapses,
//! escalates to a forced kill, waits a short kill window, and ends in an
//! unconditional reap. The runtime drives it: it performs each returned
//! action (notify, sleep, kill, reap) and feeds the next probe outcome back
//! into [`ShutdownProtocol::on_poll`].

use vstd::prelude::*;

use crate::supervisor::ProbeOutcome;
use crate::GatewayStatus;
use crate::GATEWAY_PORT;

verus! {

/// Fixed interval between liveness polls while waiting for an exit.
pub const POLL_INTERVAL_MS: u64 = 120;

/// Grace window for manual and application-exit stops.
pub const STOP_GRACEFUL_TIMEOUT_MS: u64 = 8500;

/// Kill window for manual and application-exit stops.
pub const STOP_KILL_TIMEOUT_MS: u64 = 1500;

/// Both windows of the expedited red-phone stop.
pub const RED_PHONE_TIMEOUT_MS: u64 = 1500;

/// One shutdown's parameters: who asked, why, and the two windows the
/// protocol runs with. Constructed fresh per call.
#[derive(Debug)]
pub struct ShutdownRequest {
    pub reason: String,
    pub actor: String,
    pub graceful_timeout_ms: u64,
    pub kill_timeout_ms: u64,
}

/// The request a manual, user-triggered stop runs with: a long grace window
/// so in-flight work can finish, and a short kill window.
pub fn plan_manual_stop() -> (r: ShutdownRequest)
    ensures
        r.reason@ == "manual_stop"@,
        r.actor@ == "user"@,
        r.graceful_timeout_ms == STOP_GRACEFUL_TIMEOUT_MS,
        r.kill_timeout_ms == STOP_KILL_TIMEOUT_MS,
{
    ShutdownRequest {
        reason: "manual_stop".to_owned(),
        actor: "user".to_owned(),
        graceful_timeout_ms: STOP_GRACEFUL_TIMEOUT_MS,
        kill_timeout_ms: STOP_KILL_TIMEOUT_MS,
    }
}

/// The request the application-exit path runs with: same windows as a
/// manual stop, attributed to the application itself.
pub fn plan_exit_stop() -> (r: ShutdownRequest)
    ensures
        r.reason@ == "app_exit"@,
        r.actor@ == "app"@,
        r.graceful_timeout_ms == STOP_GRACEFUL_TIMEOUT_MS,
        r.kill_timeout_ms == STOP_KILL_TIMEOUT_MS,
{
    ShutdownRequest {
        reason: "app_exit".to_owned(),
        actor: "app".to_owned(),
        graceful_timeout_ms: STOP_GRACEFUL_TIMEOUT_MS,
        kill_timeout_ms: STOP_KILL_TIMEOUT_MS,
    }
}

/// Where the protocol stands.
#[derive(Clone, Copy)]
pub enum StopPhase {
    /// Waiting for a cooperative exit, up to the graceful window.
    Graceful,
    /// Kill issued; waiting for it to take effect, up to the kill window.
    Killing,
    /// Protocol over (cleanly, or aborted by a probe failure).
    Done,
}

/// What the protocol asks its driver to do next.
pub enum StopAction {
    /// Send the best-effort shutdown request, then report with `on_notified`.
    Notify,
    /// Probe the detached child now, then report with `on_poll`.
    Poll,
    /// Sleep one poll interval, probe, then report with `on_poll`.
    Sleep,
    /// Forcibly terminate the child, then probe and report with `on_poll`.
    Kill,
    /// Perform the final unconditional reap; the protocol is over.
    Reap,
    /// Abort: a liveness probe failed during the graceful wait; surface this
    /// message to the caller.
    Fail(String),
    /// Nothing to do: no child was recorded (already stopped) or the
    /// protocol is over.
    Finished,
}

/// The protocol's state. `waited_in_phase_ms` and `total_waited_ms` count
/// the slept poll intervals; they bound how long a shutdown can take.
pub struct ShutdownProtocol {
    pub graceful_timeout_ms: u64,
    pub kill_timeout_ms: u64,
    pub phase: StopPhase,
    pub waited_in_phase_ms: u64,
    pub total_waited_ms: u64,
    /// A forced kill was issued (escalation happened).
    pub kill_issued: bool,
    /// The graceful wait was aborted by a probe failure.
    pub failed: bool,
    /// A child was recorded when the protocol began.
    pub had_child: bool,
}

impl ShutdownProtocol {
    /// The protocol's invariant: counters stay within the two windows plus
    /// one poll interval each, so every shutdown resolves within
    /// `graceful + kill` milliseconds of waiting plus polling overhead.
    pub open spec fn inv(self) -> bool {
        &&& self.graceful_timeout_ms + self.kill_timeout_ms + 2 * POLL_INTERVAL_MS <= u64::MAX
        &&& match self.phase {
            StopPhase::Graceful => {
                &&& !self.kill_issued
                &&& !self.failed
                &&& self.had_child
                &&& self.waited_in_phase_ms <= self.graceful_timeout_ms + (POLL_INTERVAL_MS - 1)
                &&& self.total_waited_ms == self.waited_in_phase_ms
            },
            StopPhase::Killing => {
                &&& self.kill_issued
                &&& !self.failed
                &&& self.had_child
                &&& self.waited_in_phase_ms <= self.kill_timeout_ms + (POLL_INTERVAL_MS - 1)
                &&& self.total_waited_ms <= self.graceful_timeout_ms + (POLL_INTERVAL_MS - 1)
                    + self.waited_in_phase_ms
            },
            StopPhase::Done => self.total_waited_ms <= self.graceful_timeout_ms
                + self.kill_timeout_ms + 2 * (POLL_INTERVAL_MS - 1),
        }
    }
}

/// Starting state and first action of a shutdown, given whether the
/// acquire-and-detach step actually found a recorded child.
pub open spec fn spec_begin(detached: bool, graceful_timeout_ms: u64, kill_timeout_ms: u64) -> (
    ShutdownProtocol,
    StopAction,
) {
    let p = ShutdownProtocol {
        graceful_timeout_ms,
        kill_timeout_ms,
        phase: if detached {
            StopPhase::Graceful
        } else {
            StopPhase::Done
        },
        waited_in_phase_ms: 0,
        total_waited_ms: 0,
        kill_issued: false,
        failed: false,
        had_child: detached,
    };
    (p, if detached {
        StopAction::Notify
    } else {
        StopAction::Finished
    })
}

/// The notification step's transition: the state is untouched and polling
/// begins, whatever the delivery report was.
pub open spec fn spec_notified(p: ShutdownProtocol, delivered: bool) -> (
    ShutdownProtocol,
    StopAction,
) {
    (p, StopAction::Poll)
}

/// One poll step of the protocol.
pub open spec fn spec_poll(p: ShutdownProtocol, probe: ProbeOutcome) -> (
    ShutdownProtocol,
    StopAction,
) {
    match p.phase {
        StopPhase::Graceful => match probe {
            ProbeOutcome::Exited => (
                ShutdownProtocol { phase: StopPhase::Done, ..p },
                StopAction::Reap,
            ),
            ProbeOutcome::Alive => {
                if p.waited_in_phase_ms >= p.graceful_timeout_ms {
                    (
                        ShutdownProtocol {
                            phase: StopPhase::Killing,
                            waited_in_phase_ms: 0,
                            kill_issued: true,
                            ..p
                        },
                        StopAction::Kill,
                    )
                } else {
                    (
                        ShutdownProtocol {
                            waited_in_phase_ms: (p.waited_in_phase_ms + POLL_INTERVAL_MS) as u64,
                            total_waited_ms: (p.total_waited_ms + POLL_INTERVAL_MS) as u64,
                            ..p
                        },
                        StopAction::Sleep,
                    )
                }
            },
            // The action carries the raw probe detail; the executable step
            // surfaces it wrapped in the probe-error message.
            ProbeOutcome::Failed(d) => (
                ShutdownProtocol { phase: StopPhase::Done, failed: true, ..p },
                StopAction::Fail(d),
            ),
        },
        StopPhase::Killing => match probe {
            ProbeOutcome::Exited => (
                ShutdownProtocol { phase: StopPhase::Done, ..p },
                StopAction::Reap,
            ),
            ProbeOutcome::Alive => {
                if p.waited_in_phase_ms >= p.kill_timeout_ms {
                    (ShutdownProtocol { phase: StopPhase::Done, ..p }, StopAction::Reap)
                } else {
                    (
                        ShutdownProtocol {
                            waited_in_phase_ms: (p.waited_in_phase_ms + POLL_INTERVAL_MS) as u64,
                            total_waited_ms: (p.total_waited_ms + POLL_INTERVAL_MS) as u64,
                            ..p
                        },
                        StopAction::Sleep,
                    )
                }
            },
            // A probe failure inside the kill window is swallowed: proceed
            // straight to the unconditional reap.
            ProbeOutcome::Failed(_) => (
                ShutdownProtocol { phase: StopPhase::Done, ..p },
                StopAction::Reap,
            ),
        },
        StopPhase::Done => (p, StopAction::Finished),
    }
}

impl ShutdownProtocol {
    /// Begin a shutdown after the acquire-and-detach step. With no recorded
    /// child the protocol is a no-op success: it is immediately done, no
    /// kill is ever issued and no process is touched.
    pub fn begin(detached: bool, graceful_timeout_ms: u64, kill_timeout_ms: u64) -> (r: (
        ShutdownProtocol,
        StopAction,
    ))
        requires
            graceful_timeout_ms + kill_timeout_ms + 2 * POLL_INTERVAL_MS <= u64::MAX,
        ensures
            r == spec_begin(detached, graceful_timeout_ms, kill_timeout_ms),
            r.0.inv(),
            !detached ==> r.0.phase is Done && !r.0.kill_issued && r.1 == StopAction::Finished,
            detached ==> r.0.phase is Graceful && r.1 == StopAction::Notify,
    {
        let p = ShutdownProtocol {
            graceful_timeout_ms,
            kill_timeout_ms,
            phase: if detached {
                StopPhase::Graceful
            } else {
                StopPhase::Done
            },
            waited_in_phase_ms: 0,
            total_waited_ms: 0,
            kill_issued: false,
            failed: false,
            had_child: detached,
        };
        let action = if detached {
            StopAction::Notify
        } else {
            StopAction::Finished
        };
        (p, action)
    }

    /// Report the outcome of the best-effort shutdown notification. Network
    /// failure here is swallowed: the protocol proceeds identically whether
    /// the gateway was reachable or not.
    pub fn on_notified(&mut self, delivered: bool) -> (a: StopAction)
        requires
            old(self).inv(),
            old(self).phase is Graceful,
        ensures
            (*final(self), a) == spec_notified(*old(self), delivered),
            *final(self) == *old(self),
            a == StopAction::Poll,
            final(self).inv(),
    {
        let _ = delivered;
        StopAction::Poll
    }

    /// One poll step: feed in the probe outcome for the detached child and
    /// get the next action. On a probe failure during the graceful wait the
    /// returned `Fail` carries the probe-error message built from the detail.
    pub fn on_poll(&mut self, probe: ProbeOutcome) -> (a: StopAction)
        requires
            old(self).inv(),
        ensures
            *final(self) == spec_poll(*old(self), probe).0,
            final(self).inv(),
            ({
                let sa = spec_poll(*old(self), probe).1;
                match sa {
                    StopAction::Fail(d) => a matches StopAction::Fail(m) && m@
                        == crate::supervisor::probe_error_view(d@),
                    _ => a == sa,
                }
            }),
    {
        proof {
            lemma_poll_preserves_inv(*old(self), probe);
        }
        match self.phase {
            StopPhase::Graceful => match probe {
                ProbeOutcome::Exited => {
                    self.phase = StopPhase::Done;
                    StopAction::Reap
                },
                ProbeOutcome::Alive => {
                    if self.waited_in_phase_ms >= self.graceful_timeout_ms {
                        self.phase = StopPhase::Killing;
                        self.waited_in_phase_ms = 0;
                        self.kill_issued = true;
                        StopAction::Kill
                    } else {
                        self.waited_in_phase_ms = self.waited_in_phase_ms + POLL_INTERVAL_MS;
                        self.total_waited_ms = self.total_waited_ms + POLL_INTERVAL_MS;
                        StopAction::Sleep
                    }
                },
                ProbeOutcome::Failed(d) => {
                    self.phase = StopPhase::Done;
                    self.failed = true;
                    StopAction::Fail(crate::supervisor::probe_error_message(d.as_str()))
                },
            },
            StopPhase::Killing => match probe {
                ProbeOutcome::Exited => {
                    self.phase = StopPhase::Done;
                    StopAction::Reap
                },
                ProbeOutcome::Alive => {
                    if self.waited_in_phase_ms >= self.kill_timeout_ms {
                        self.phase = StopPhase::Done;
                        StopAction::Reap
                    } else {
                        self.waited_in_phase_ms = self.waited_in_phase_ms + POLL_INTERVAL_MS;
                        self.total_waited_ms = self.total_waited_ms + POLL_INTERVAL_MS;
                        StopAction::Sleep
                    }
                },
                ProbeOutcome::Failed(_) => {
                    self.phase = StopPhase::Done;
                    StopAction::Reap
                },
            },
            StopPhase::Done => StopAction::Finished,
        }
    }

    /// The final status once the protocol is done: the gateway is not
    /// running on the canonical port.
    pub fn outcome(&self) -> (st: GatewayStatus)
        requires
            self.phase is Done,
        ensures
            !st.running,
            st.port == GATEWAY_PORT,
    {
        GatewayStatus::stopped_now()
    }
}

/// Upper bound (in milliseconds of a poll-interval-granularity clock) on
/// the work left before the protocol is done; drives the termination law.
pub open spec fn measure(p: ShutdownProtocol) -> int {
    match p.phase {
        StopPhase::Done => 0,
        StopPhase::Killing => p.kill_timeout_ms + 3 * POLL_INTERVAL_MS - p.waited_in_phase_ms,
        StopPhase::Graceful => (p.graceful_timeout_ms + 3 * POLL_INTERVAL_MS
            - p.waited_in_phase_ms) + (p.kill_timeout_ms + 3 * POLL_INTERVAL_MS)
            + 3 * POLL_INTERVAL_MS,
    }
}

/// One poll step preserves the invariant and strictly decreases the measure
/// while the protocol is not done.
pub proof fn lemma_poll_preserves_inv(p: ShutdownProtocol, probe: ProbeOutcome)
    requires
        p.inv(),
    ensures
        spec_poll(p, probe).0.inv(),
        !(p.phase is Done) ==> measure(spec_poll(p, probe).0) < measure(p),
        measure(spec_poll(p, probe).0) <= measure(p),
        p.phase is Done ==> spec_poll(p, probe).0 == p,
        measure(p) >= 0,
        !(p.phase is Done) ==> measure(p) > 0,
{
}

/// Run the protocol through a sequence of poll outcomes.
pub open spec fn spec_run(p: ShutdownProtocol, polls: Seq<ProbeOutcome>) -> ShutdownProtocol
    decreases polls.len(),
{
    if polls.len() == 0 {
        p
    } else {
        spec_run(spec_poll(p, polls[0]).0, polls.drop_first())
    }
}

/// Law: the shutdown protocol always resolves. Whatever the polls report —
/// including a gateway that never exits because the cooperative notification
/// could not reach it — after at most `measure(p)` polls the protocol is
/// done, by escalating to a forced kill when the graceful window elapses.
pub proof fn lemma_shutdown_terminates(p: ShutdownProtocol, polls: Seq<ProbeOutcome>)
    requires
        p.inv(),
        polls.len() >= measure(p),
    ensures
        spec_run(p, polls).phase is Done,
        spec_run(p, polls).inv(),
    decreases polls.len(),
{
    if p.phase is Done {
        lemma_run_stays_done(p, polls);
    } else {
        let next = spec_poll(p, polls[0]).0;
        lemma_poll_preserves_inv(p, polls[0]);
        lemma_shutdown_terminates(next, polls.drop_first());
    }
}

/// A finished protocol stays finished under further polls.
pub proof fn lemma_run_stays_done(p: ShutdownProtocol, polls: Seq<ProbeOutcome>)
    requires
        p.inv(),
        p.phase is Done,
    ensures
        spec_run(p, polls) == p,
    decreases polls.len(),
{
    if polls.len() > 0 {
        lemma_run_stays_done(p, polls.drop_first());
    }
}

/// Law: the total time the protocol ever sleeps is bounded by the graceful
/// window plus the kill window plus two poll intervals of overhead, so a
/// stop resolves to "not running" within `Tg + Tk` plus polling overhead.
pub proof fn lemma_total_wait_bounded(p: ShutdownProtocol)
    requires
        p.inv(),
    ensures
        p.total_waited_ms <= p.graceful_timeout_ms + p.kill_timeout_ms + 2 * (POLL_INTERVAL_MS
            - 1),
{
}

/// Law: the outcome of the best-effort shutdown notification has no effect
/// at all on the protocol: the state is untouched and the next action is the
/// same whether the gateway acknowledged, refused or was unreachable.
pub proof fn lemma_notify_outcome_irrelevant(p: ShutdownProtocol)
    ensures
        spec_notified(p, true) == spec_notified(p, false),
        spec_notified(p, true).0 == p,
{
}

/// Law: a stop with no recorded child is a no-op success — immediately
/// done, nothing killed, no process touched.
pub proof fn lemma_stop_already_stopped(graceful_timeout_ms: u64, kill_timeout_ms: u64)
    ensures
        ({
            let (p, a) = spec_begin(false, graceful_timeout_ms, kill_timeout_ms);
            &&& p.phase is Done
            &&& !p.kill_issued
            &&& !p.had_child
            &&& p.total_waited_ms == 0
            &&& a == StopAction::Finished
        }),
{
}

} // verus!
