use gateway_supervisor::shutdown::{
    plan_exit_stop, plan_manual_stop, ShutdownProtocol, StopAction, POLL_INTERVAL_MS,
    RED_PHONE_TIMEOUT_MS, STOP_GRACEFUL_TIMEOUT_MS, STOP_KILL_TIMEOUT_MS,
};
use gateway_supervisor::supervisor::ProbeOutcome;

#[test]
fn fixed_windows_match_the_callers() {
    assert_eq!(POLL_INTERVAL_MS, 120);
    assert_eq!(STOP_GRACEFUL_TIMEOUT_MS, 8500);
    assert_eq!(STOP_KILL_TIMEOUT_MS, 1500);
    assert_eq!(RED_PHONE_TIMEOUT_MS, 1500);
}

#[test]
fn manual_stop_request_values() {
    let r = plan_manual_stop();
    assert_eq!(r.reason, "manual_stop");
    assert_eq!(r.actor, "user");
    assert_eq!(r.graceful_timeout_ms, 8500);
    assert_eq!(r.kill_timeout_ms, 1500);
}

#[test]
fn exit_stop_request_values() {
    let r = plan_exit_stop();
    assert_eq!(r.reason, "app_exit");
    assert_eq!(r.actor, "app");
    assert_eq!(r.graceful_timeout_ms, 8500);
    assert_eq!(r.kill_timeout_ms, 1500);
}

#[test]
fn stop_with_nothing_recorded_is_a_noop_success() {
    let (p, action) = ShutdownProtocol::begin(false, 8500, 1500);
    assert!(matches!(action, StopAction::Finished));
    assert!(!p.kill_issued);
    assert!(!p.had_child);
    assert_eq!(p.total_waited_ms, 0);
    let st = p.outcome();
    assert!(!st.running);
    assert_eq!(st.port, 4455);
}

#[test]
fn prompt_exit_needs_no_escalation() {
    // Start → stop against a gateway that exits within 200 ms of the notify:
    // final status not running, well within a second, no kill issued.
    let (mut p, action) = ShutdownProtocol::begin(true, 8500, 1500);
    assert!(matches!(action, StopAction::Notify));
    assert!(matches!(p.on_notified(true), StopAction::Poll));
    assert!(matches!(p.on_poll(ProbeOutcome::Alive), StopAction::Sleep));
    assert!(matches!(p.on_poll(ProbeOutcome::Alive), StopAction::Sleep));
    assert!(matches!(p.on_poll(ProbeOutcome::Exited), StopAction::Reap));
    assert!(!p.kill_issued);
    assert_eq!(p.total_waited_ms, 240);
    let st = p.outcome();
    assert!(!st.running);
}

#[test]
fn unresponsive_gateway_is_killed_within_both_windows() {
    // The gateway never exits (e.g. the notify never reached it): the
    // protocol escalates to a forced kill after the graceful window and
    // resolves within graceful + kill plus polling overhead.
    let (mut p, action) = ShutdownProtocol::begin(true, 8500, 1500);
    assert!(matches!(action, StopAction::Notify));
    // Unreachable gateway: the notification failed outright.
    assert!(matches!(p.on_notified(false), StopAction::Poll));
    let mut kills = 0u32;
    let mut steps = 0u32;
    loop {
        steps += 1;
        assert!(steps < 1000, "protocol must resolve");
        match p.on_poll(ProbeOutcome::Alive) {
            StopAction::Sleep => continue,
            StopAction::Kill => {
                kills += 1;
                continue;
            }
            StopAction::Reap => break,
            other => panic!("unexpected action: {:?}", action_name(&other)),
        }
    }
    assert_eq!(kills, 1);
    assert!(p.kill_issued);
    // 71 graceful sleeps (8520 ms) + 13 kill-window sleeps (1560 ms).
    assert_eq!(p.total_waited_ms, 10080);
    assert!(p.total_waited_ms <= 8500 + 1500 + 2 * (POLL_INTERVAL_MS - 1));
    let st = p.outcome();
    assert!(!st.running);
}

fn action_name(a: &StopAction) -> &'static str {
    match a {
        StopAction::Notify => "notify",
        StopAction::Poll => "poll",
        StopAction::Sleep => "sleep",
        StopAction::Kill => "kill",
        StopAction::Reap => "reap",
        StopAction::Fail(_) => "fail",
        StopAction::Finished => "finished",
    }
}

#[test]
fn notify_outcome_does_not_change_the_protocol() {
    let (mut a, _) = ShutdownProtocol::begin(true, 300, 200);
    let (mut b, _) = ShutdownProtocol::begin(true, 300, 200);
    let ra = a.on_notified(true);
    let rb = b.on_notified(false);
    assert!(matches!(ra, StopAction::Poll));
    assert!(matches!(rb, StopAction::Poll));
    assert_eq!(a.total_waited_ms, b.total_waited_ms);
    assert_eq!(a.kill_issued, b.kill_issued);
}

#[test]
fn probe_failure_during_graceful_wait_aborts() {
    let (mut p, _) = ShutdownProtocol::begin(true, 8500, 1500);
    p.on_notified(true);
    match p.on_poll(ProbeOutcome::Failed("gone".to_string())) {
        StopAction::Fail(m) => assert_eq!(m, "failed to inspect gateway process: gone"),
        _ => panic!("expected the protocol to abort"),
    }
    assert!(p.failed);
}

#[test]
fn probe_failure_during_kill_window_is_swallowed() {
    let (mut p, _) = ShutdownProtocol::begin(true, 0, 200);
    p.on_notified(true);
    // Graceful window of zero: the first poll escalates at once.
    assert!(matches!(p.on_poll(ProbeOutcome::Alive), StopAction::Kill));
    // A failed probe while waiting for the kill goes straight to the reap.
    assert!(matches!(
        p.on_poll(ProbeOutcome::Failed("gone".to_string())),
        StopAction::Reap
    ));
    assert!(!p.failed);
    assert!(!p.outcome().running);
}

#[test]
fn short_red_phone_windows_resolve_quickly() {
    let (mut p, _) = ShutdownProtocol::begin(true, 1500, 1500);
    p.on_notified(true);
    let mut steps = 0u32;
    loop {
        steps += 1;
        assert!(steps < 100);
        match p.on_poll(ProbeOutcome::Alive) {
            StopAction::Sleep | StopAction::Kill => continue,
            StopAction::Reap => break,
            _ => panic!("unexpected action"),
        }
    }
    assert!(p.kill_issued);
    // 13 sleeps per window of 1500 ms.
    assert_eq!(p.total_waited_ms, 2 * 13 * 120);
}
