use gateway_supervisor::supervisor::{
    gateway_spawn_plan, ProbeOutcome, StartStep, Supervisor, WatchdogAction,
};
use gateway_supervisor::GATEWAY_PORT;

#[test]
fn fresh_supervisor_defaults() {
    let s = Supervisor::new();
    assert!(s.child.is_none());
    assert!(s.desired_running);
    assert!(!s.app_closing);
    assert_eq!(GATEWAY_PORT, 4455);
}

#[test]
fn start_twice_while_alive_spawns_nothing() {
    let mut s = Supervisor::new();
    let first = s.start_check(None);
    assert!(matches!(first, StartStep::NeedsSpawn));
    let st = s.record_spawned(7);
    assert!(st.running);
    assert_eq!(st.port, 4455);

    // Two further starts against a live child: "running" both times, no spawn.
    let again = s.start_check(Some(ProbeOutcome::Alive));
    assert!(matches!(again, StartStep::AlreadyRunning));
    assert_eq!(s.child, Some(7));
    let once_more = s.start_check(Some(ProbeOutcome::Alive));
    assert!(matches!(once_more, StartStep::AlreadyRunning));
    assert_eq!(s.child, Some(7));
}

#[test]
fn start_clears_dead_record_before_spawn() {
    let mut s = Supervisor::new();
    s.record_spawned(3);
    let step = s.start_check(Some(ProbeOutcome::Exited));
    assert!(matches!(step, StartStep::NeedsSpawn));
    assert!(s.child.is_none());
}

#[test]
fn start_probe_error_reports_and_keeps_record() {
    let mut s = Supervisor::new();
    s.record_spawned(3);
    let step = s.start_check(Some(ProbeOutcome::Failed("boom".to_string())));
    match step {
        StartStep::ProbeError(d) => assert_eq!(d, "boom"),
        _ => panic!("expected a probe error"),
    }
    assert_eq!(s.child, Some(3));
}

#[test]
fn status_reports_running_child() {
    let mut s = Supervisor::new();
    s.record_spawned(9);
    let st = s.gateway_status(Some(ProbeOutcome::Alive)).unwrap();
    assert!(st.running);
    assert_eq!(st.port, 4455);
    assert_eq!(s.child, Some(9));
}

#[test]
fn status_after_exit_clears_record_and_stays_not_running() {
    let mut s = Supervisor::new();
    s.record_spawned(9);
    let st = s.gateway_status(Some(ProbeOutcome::Exited)).unwrap();
    assert!(!st.running);
    assert!(s.child.is_none());
    // A later query, with nothing newly recorded, still reports not running.
    let st2 = s.gateway_status(None).unwrap();
    assert!(!st2.running);
    assert!(s.child.is_none());
}

#[test]
fn status_probe_failure_is_fatal_and_changes_nothing() {
    let mut s = Supervisor::new();
    s.record_spawned(9);
    let err = s.gateway_status(Some(ProbeOutcome::Failed("no such process".to_string())));
    assert_eq!(
        err.unwrap_err(),
        "failed to inspect gateway process: no such process"
    );
    assert_eq!(s.child, Some(9));
}

#[test]
fn status_without_record_is_not_running() {
    let mut s = Supervisor::new();
    let st = s.gateway_status(None).unwrap();
    assert!(!st.running);
    assert_eq!(st.port, 4455);
}

#[test]
fn detach_takes_the_handle_once() {
    let mut s = Supervisor::new();
    s.record_spawned(11);
    assert_eq!(s.detach(), Some(11));
    assert_eq!(s.detach(), None);
}

#[test]
fn closing_latch_is_one_shot() {
    let mut s = Supervisor::new();
    assert!(!s.begin_closing());
    assert!(s.begin_closing());
    assert!(s.app_closing);
}

#[test]
fn watchdog_terminates_when_closing() {
    let mut s = Supervisor::new();
    s.begin_closing();
    assert!(matches!(s.watchdog_tick(), WatchdogAction::Terminate));
}

#[test]
fn watchdog_never_respawns_when_stop_was_asked() {
    let mut s = Supervisor::new();
    // The child is observed dead and the record cleared, but the stop intent
    // stands: the tick must skip.
    s.record_spawned(5);
    s.request_stop();
    assert!(matches!(s.watchdog_tick(), WatchdogAction::Skip));
}

#[test]
fn watchdog_respawns_dead_gateway_exactly_once_per_tick() {
    let mut s = Supervisor::new();
    s.record_spawned(5);
    assert!(matches!(s.watchdog_tick(), WatchdogAction::Reconcile));
    // The tick's single start operation: dead child cleared, one spawn.
    let step = s.start_check(Some(ProbeOutcome::Exited));
    assert!(matches!(step, StartStep::NeedsSpawn));
    let st = s.record_spawned(6);
    assert!(st.running);
    // Any further start within the same state spawns nothing more.
    let step2 = s.start_check(Some(ProbeOutcome::Alive));
    assert!(matches!(step2, StartStep::AlreadyRunning));
    assert_eq!(s.child, Some(6));
}

#[test]
fn start_gateway_sets_intent() {
    let mut s = Supervisor::new();
    s.set_desired_running(false);
    let step = s.start_gateway(None);
    assert!(matches!(step, StartStep::NeedsSpawn));
    assert!(s.desired_running);
}

#[test]
fn spawn_plan_pins_command_environment_and_directory() {
    let plan = gateway_spawn_plan("/usr/bin/pnpm", "/srv/claw", "mc-42-7".to_string(), 42);
    assert_eq!(plan.program, "/usr/bin/pnpm");
    let args: Vec<&str> = plan.args.iter().map(|a| a.as_str()).collect();
    assert_eq!(args, vec!["--filter", "@majorclaw/gateway", "dev:server"]);
    assert_eq!(plan.env.len(), 2);
    assert_eq!(plan.env[0].0, "MAJORCLAW_GATEWAY_SESSION_TOKEN");
    assert_eq!(plan.env[0].1, "mc-42-7");
    assert_eq!(plan.env[1].0, "MAJORCLAW_GATEWAY_OWNER_PID");
    assert_eq!(plan.env[1].1, "42");
    assert_eq!(plan.working_dir, "/srv/claw");
}

#[test]
fn request_stop_clears_intent_and_detaches() {
    let mut s = Supervisor::new();
    s.record_spawned(4);
    let taken = s.request_stop();
    assert_eq!(taken, Some(4));
    assert!(!s.desired_running);
    assert!(s.child.is_none());
}
