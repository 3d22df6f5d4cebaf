use gateway_supervisor::daemon::{
    daemon_status_for_linux, daemon_status_for_macos, CmdOutput, Platform,
};
use gateway_supervisor::plans::{
    daemon_disable_plan, daemon_enable_plan, daemon_restart_plan, daemon_start_plan,
    daemon_stop_plan, DaemonStep,
};

fn run_step(step: &DaemonStep) -> &gateway_supervisor::plans::PlannedCommand {
    match step {
        DaemonStep::Run(c) => c,
        _ => panic!("expected a command step"),
    }
}

fn args(c: &gateway_supervisor::plans::PlannedCommand) -> Vec<&str> {
    c.args.iter().map(|a| a.as_str()).collect()
}

#[test]
fn macos_enable_plan_registers_and_kickstarts() {
    let plan = daemon_enable_plan(
        Platform::MacOs,
        "/Users/kim",
        "/srv/claw",
        "/usr/bin/pnpm",
        "gui/501",
        false,
    )
    .unwrap();
    assert_eq!(plan.len(), 6);
    let plist = "/Users/kim/Library/LaunchAgents/com.jonnycatx.major-claw.gateway.plist";
    match &plan[0] {
        DaemonStep::EnsureDir { path, error_prefix } => {
            assert_eq!(path, "/Users/kim/Library/LaunchAgents");
            assert_eq!(error_prefix, "failed to create launch agents directory: ");
        }
        _ => panic!("expected a directory step"),
    }
    match &plan[1] {
        DaemonStep::EnsureDir { path, .. } => {
            assert_eq!(path, "/Users/kim/Library/Logs/MajorClaw");
        }
        _ => panic!("expected a directory step"),
    }
    match &plan[2] {
        DaemonStep::WriteFile { path, contents, error_prefix } => {
            assert_eq!(path, plist);
            assert!(contents.contains("<key>KeepAlive</key>"));
            assert!(contents.contains("<string>/usr/bin/pnpm</string>"));
            assert_eq!(error_prefix, "failed to write launch agent plist: ");
        }
        _ => panic!("expected the definition write"),
    }
    let bootout = run_step(&plan[3]);
    assert_eq!(bootout.program, "launchctl");
    assert_eq!(args(bootout), vec!["bootout", "gui/501", plist]);
    assert!(!bootout.must_succeed);
    let bootstrap = run_step(&plan[4]);
    assert_eq!(args(bootstrap), vec!["bootstrap", "gui/501", plist]);
    assert!(bootstrap.must_succeed);
    assert_eq!(bootstrap.failure_message, "launchctl bootstrap failed");
    assert_eq!(bootstrap.error_prefix, "failed to bootstrap launch agent: ");
    let kick = run_step(&plan[5]);
    assert_eq!(
        args(kick),
        vec!["kickstart", "-k", "gui/501/com.jonnycatx.major-claw.gateway"]
    );
    assert!(!kick.must_succeed);
}

#[test]
fn macos_disable_plan_unloads_and_deletes() {
    let plan = daemon_disable_plan(Platform::MacOs, "/Users/kim", "gui/501", true);
    assert_eq!(plan.len(), 2);
    let bootout = run_step(&plan[0]);
    assert_eq!(bootout.program, "launchctl");
    assert!(!bootout.must_succeed);
    match &plan[1] {
        DaemonStep::RemoveFile { path } => assert_eq!(
            path,
            "/Users/kim/Library/LaunchAgents/com.jonnycatx.major-claw.gateway.plist"
        ),
        _ => panic!("expected the definition delete"),
    }
}

#[test]
fn macos_disable_plan_without_definition_does_nothing() {
    let plan = daemon_disable_plan(Platform::MacOs, "/Users/kim", "gui/501", false);
    assert!(plan.is_empty());
}

#[test]
fn linux_enable_then_status_reports_enabled() {
    // Enable writes the unit at the exact path the status query reads, and a
    // following status (with the service manager agreeing) reports enabled.
    let plan =
        daemon_enable_plan(Platform::Linux, "/home/kim", "/srv/claw", "pnpm", "", false).unwrap();
    assert_eq!(plan.len(), 4);
    let unit_path = "/home/kim/.config/systemd/user/major-claw-gateway.service";
    match &plan[1] {
        DaemonStep::WriteFile { path, contents, .. } => {
            assert_eq!(path, unit_path);
            assert!(contents.contains("WorkingDirectory=/srv/claw"));
        }
        _ => panic!("expected the unit write"),
    }
    let enable = run_step(&plan[3]);
    assert_eq!(enable.program, "systemctl");
    assert_eq!(
        args(enable),
        vec!["--user", "enable", "--now", "major-claw-gateway"]
    );
    assert!(enable.must_succeed);
    assert_eq!(
        enable.failure_message,
        "systemd enable --now failed (ensure user services are available; loginctl enable-linger may be required)"
    );

    let st = daemon_status_for_linux(
        "/home/kim",
        Some(CmdOutput { success: true, stdout: "enabled\n".to_string(), stderr: String::new() }),
        Some(CmdOutput { success: true, stdout: "active\n".to_string(), stderr: String::new() }),
    );
    assert!(st.enabled);
    assert_eq!(st.service_path, unit_path);
}

#[test]
fn linux_disable_removes_the_same_unit_the_status_reads() {
    let plan = daemon_disable_plan(Platform::Linux, "/home/kim", "", false);
    assert_eq!(plan.len(), 3);
    let disable = run_step(&plan[0]);
    assert_eq!(
        args(disable),
        vec!["--user", "disable", "--now", "major-claw-gateway"]
    );
    match &plan[1] {
        DaemonStep::RemoveFile { path } => {
            let st = daemon_status_for_linux("/home/kim", None, None);
            assert_eq!(path, &st.service_path);
            assert!(!st.enabled);
        }
        _ => panic!("expected the unit delete"),
    }
    let reload = run_step(&plan[2]);
    assert_eq!(args(reload), vec!["--user", "daemon-reload"]);
}

#[test]
fn windows_enable_requires_the_install_script() {
    let missing =
        daemon_enable_plan(Platform::Windows, "", "C:/claw", "", "", false).unwrap_err();
    assert_eq!(
        missing,
        "Windows install script not found at C:/claw/ops/windows/install-gateway-service.ps1"
    );
    let plan = daemon_enable_plan(Platform::Windows, "", "C:/claw", "", "", true).unwrap();
    assert_eq!(plan.len(), 1);
    let install = run_step(&plan[0]);
    assert_eq!(install.program, "powershell");
    assert_eq!(
        args(install),
        vec![
            "-NoProfile",
            "-ExecutionPolicy",
            "Bypass",
            "-File",
            "C:/claw/ops/windows/install-gateway-service.ps1"
        ]
    );
    assert!(install.must_succeed);
    assert_eq!(
        install.failure_message,
        "Windows service install script failed (admin rights may be required)"
    );
}

#[test]
fn windows_disable_stops_and_deletes_the_service() {
    let plan = daemon_disable_plan(Platform::Windows, "", "", false);
    assert_eq!(plan.len(), 2);
    assert_eq!(args(run_step(&plan[0])), vec!["stop", "MajorClawGateway"]);
    assert_eq!(args(run_step(&plan[1])), vec!["delete", "MajorClawGateway"]);
}

#[test]
fn unsupported_platform_plans_nothing() {
    assert!(daemon_enable_plan(Platform::Unsupported, "", "", "", "", false)
        .unwrap()
        .is_empty());
    assert!(daemon_disable_plan(Platform::Unsupported, "", "", false).is_empty());
    assert!(daemon_start_plan(Platform::Unsupported, "").is_empty());
    assert!(daemon_stop_plan(Platform::Unsupported, "", "").is_empty());
    assert!(daemon_restart_plan(Platform::Unsupported, "").is_empty());
}

#[test]
fn start_plans_surface_failures() {
    let mac = daemon_start_plan(Platform::MacOs, "gui/501");
    let kick = run_step(&mac[0]);
    assert!(kick.must_succeed);
    assert_eq!(kick.error_prefix, "failed to start launch agent: ");
    assert_eq!(kick.failure_message, "launchctl kickstart failed");

    let linux = daemon_start_plan(Platform::Linux, "");
    let start = run_step(&linux[0]);
    assert_eq!(args(start), vec!["--user", "start", "major-claw-gateway"]);
    assert_eq!(start.failure_message, "systemctl --user start failed");

    let win = daemon_start_plan(Platform::Windows, "");
    let sc = run_step(&win[0]);
    assert_eq!(args(sc), vec!["start", "MajorClawGateway"]);
    assert_eq!(sc.failure_message, "sc start failed");
}

#[test]
fn stop_plans_surface_failures_of_the_stop_primitive() {
    let mac = daemon_stop_plan(Platform::MacOs, "/Users/kim", "gui/501");
    assert_eq!(mac.len(), 3);
    // The re-registration steps are best effort; the termination itself
    // must succeed and its failure is surfaced.
    assert!(!run_step(&mac[0]).must_succeed);
    assert!(!run_step(&mac[1]).must_succeed);
    let kill = run_step(&mac[2]);
    assert_eq!(
        args(kill),
        vec!["kill", "SIGTERM", "gui/501/com.jonnycatx.major-claw.gateway"]
    );
    assert!(kill.must_succeed);
    assert_eq!(kill.error_prefix, "failed to stop launch agent: ");
    assert_eq!(kill.failure_message, "launchctl kill failed");

    let linux = daemon_stop_plan(Platform::Linux, "", "");
    let stop = run_step(&linux[0]);
    assert_eq!(args(stop), vec!["--user", "stop", "major-claw-gateway"]);
    assert!(stop.must_succeed);
    assert_eq!(stop.error_prefix, "failed to stop systemd service: ");
    assert_eq!(stop.failure_message, "systemctl --user stop failed");

    let win = daemon_stop_plan(Platform::Windows, "", "");
    let sc = run_step(&win[0]);
    assert_eq!(args(sc), vec!["stop", "MajorClawGateway"]);
    assert!(sc.must_succeed);
    assert_eq!(sc.error_prefix, "failed to stop windows service: ");
    assert_eq!(sc.failure_message, "sc stop failed");
}

#[test]
fn restart_plans_per_platform() {
    let mac = daemon_restart_plan(Platform::MacOs, "gui/501");
    assert_eq!(run_step(&mac[0]).error_prefix, "failed to restart launch agent: ");

    let linux = daemon_restart_plan(Platform::Linux, "");
    assert_eq!(
        args(run_step(&linux[0])),
        vec!["--user", "restart", "major-claw-gateway"]
    );
    assert_eq!(
        run_step(&linux[0]).failure_message,
        "systemctl --user restart failed"
    );

    let win = daemon_restart_plan(Platform::Windows, "");
    assert_eq!(win.len(), 2);
    assert!(!run_step(&win[0]).must_succeed);
    assert!(run_step(&win[1]).must_succeed);
    assert_eq!(
        run_step(&win[1]).failure_message,
        "sc start failed"
    );
}

#[test]
fn macos_enable_writes_the_path_the_status_reports() {
    let plan = daemon_enable_plan(
        Platform::MacOs,
        "/Users/kim",
        "/srv/claw",
        "pnpm",
        "gui/501",
        false,
    )
    .unwrap();
    let st = daemon_status_for_macos("/Users/kim", true, Err("not queried".to_string()));
    match &plan[2] {
        DaemonStep::WriteFile { path, .. } => assert_eq!(path, &st.service_path),
        _ => panic!("expected the definition write"),
    }
}
