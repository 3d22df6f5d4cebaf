//! Command plans for the daemon controller's mutating operations.
//!
//! Enabling, disabling, starting, stopping and restarting the persistent
//! service are sequences of filesystem steps and platform-utility
//! invocations. Each operation's plan is computed here as data, exactly as
//! the adapter for that platform performs it; the runtime executes the
//! steps in order, ignoring failures only where a step says so.

use vstd::prelude::*;
use vstd::string::StringExecFns;

use crate::daemon::linux_unit_path_view;
use crate::daemon::linux_unit_view;
use crate::daemon::launchctl_service_view;
use crate::daemon::macos_agents_dir_view;
use crate::daemon::macos_launch_agent_path;
use crate::daemon::macos_logs_dir_view;
use crate::daemon::macos_plist_path_view;
use crate::daemon::macos_plist_view;
use crate::daemon::render_linux_systemd_service;
use crate::daemon::render_macos_launch_agent_plist;
use crate::daemon::windows_install_script_path;
use crate::daemon::windows_script_path_view;
use crate::daemon::linux_systemd_service_path;
use crate::daemon::launchctl_service_target;
use crate::daemon::Platform;

verus! {

/// The views of a sequence of strings.
pub open spec fn views_of(v: Seq<String>) -> Seq<Seq<char>> {
    v.map_values(|s: String| s@)
}

/// One planned platform-utility invocation.
#[derive(Debug)]
pub struct PlannedCommand {
    pub program: String,
    pub args: Vec<String>,
    /// Whether the operation fails when this command does not succeed.
    /// When false, the command's outcome is ignored (best effort).
    pub must_succeed: bool,
    /// Error surfaced (followed by the OS detail) when the invocation
    /// itself fails; meaningful only for commands that must succeed.
    pub error_prefix: String,
    /// Error surfaced when the command runs but exits unsuccessfully;
    /// meaningful only for commands that must succeed.
    pub failure_message: String,
}

/// One step of a daemon-controller operation.
#[derive(Debug)]
pub enum DaemonStep {
    /// Create this directory (and its parents) if missing; a failure aborts
    /// the operation with the prefix plus the OS detail.
    EnsureDir { path: String, error_prefix: String },
    /// Write this definition file; a failure aborts likewise.
    WriteFile { path: String, contents: String, error_prefix: String },
    /// Delete this file if it is present; failures are ignored.
    RemoveFile { path: String },
    /// Invoke a platform utility.
    Run(PlannedCommand),
}

fn push_owned(v: &mut Vec<String>, s: &str)
    ensures
        final(v)@.len() == old(v)@.len() + 1,
        views_of(final(v)@) =~= views_of(old(v)@).push(s@),
{
    v.push(s.to_owned());
}

fn args2(a: &str, b: &str) -> (v: Vec<String>)
    ensures
        views_of(v@) =~= seq![a@, b@],
{
    let mut v: Vec<String> = Vec::new();
    push_owned(&mut v, a);
    push_owned(&mut v, b);
    v
}

fn args3(a: &str, b: &str, c: &str) -> (v: Vec<String>)
    ensures
        views_of(v@) =~= seq![a@, b@, c@],
{
    let mut v: Vec<String> = Vec::new();
    push_owned(&mut v, a);
    push_owned(&mut v, b);
    push_owned(&mut v, c);
    v
}

fn args4(a: &str, b: &str, c: &str, d: &str) -> (v: Vec<String>)
    ensures
        views_of(v@) =~= seq![a@, b@, c@, d@],
{
    let mut v: Vec<String> = Vec::new();
    push_owned(&mut v, a);
    push_owned(&mut v, b);
    push_owned(&mut v, c);
    push_owned(&mut v, d);
    v
}

fn args5(a: &str, b: &str, c: &str, d: &str, e: &str) -> (v: Vec<String>)
    ensures
        views_of(v@) =~= seq![a@, b@, c@, d@, e@],
{
    let mut v: Vec<String> = Vec::new();
    push_owned(&mut v, a);
    push_owned(&mut v, b);
    push_owned(&mut v, c);
    push_owned(&mut v, d);
    push_owned(&mut v, e);
    v
}

/// A best-effort command: its outcome is ignored.
fn cmd_ignored(program: &str, args: Vec<String>) -> (c: PlannedCommand)
    ensures
        c.program@ == program@,
        c.args == args,
        !c.must_succeed,
        c.error_prefix@ == Seq::<char>::empty(),
        c.failure_message@ == Seq::<char>::empty(),
{
    PlannedCommand {
        program: program.to_owned(),
        args,
        must_succeed: false,
        error_prefix: String::new(),
        failure_message: String::new(),
    }
}

/// A required command: the operation fails if it cannot run or does not
/// exit successfully.
fn cmd_required(program: &str, args: Vec<String>, error_prefix: &str, failure_message: &str) -> (c:
    PlannedCommand)
    ensures
        c.program@ == program@,
        c.args == args,
        c.must_succeed,
        c.error_prefix@ == error_prefix@,
        c.failure_message@ == failure_message@,
{
    PlannedCommand {
        program: program.to_owned(),
        args,
        must_succeed: true,
        error_prefix: error_prefix.to_owned(),
        failure_message: failure_message.to_owned(),
    }
}

/// The plan enabling the persistent service: render and write the
/// platform's service definition to its per-user location, then register
/// and kick-start it. On the platform with a native service manager the
/// registration runs through the bundled install script, which must exist.
/// `launchctl_domain` is the per-user domain target of the launch-agent
/// platform; `script_exists` reports whether the install script is present.
pub fn daemon_enable_plan(
    platform: Platform,
    home: &str,
    root: &str,
    pnpm: &str,
    launchctl_domain: &str,
    script_exists: bool,
) -> (r: Result<Vec<DaemonStep>, String>)
    ensures
        platform == Platform::MacOs ==> (r matches Ok(plan) && {
            &&& plan@.len() == 6
            &&& plan@[0] matches DaemonStep::EnsureDir { path, error_prefix } && path@
                == macos_agents_dir_view(home@) && error_prefix@
                == "failed to create launch agents directory: "@
            &&& plan@[1] matches DaemonStep::EnsureDir { path, error_prefix } && path@
                == macos_logs_dir_view(home@) && error_prefix@
                == "failed to create logs directory: "@
            &&& plan@[2] matches DaemonStep::WriteFile { path, contents, error_prefix } && path@
                == macos_plist_path_view(home@) && contents@ == macos_plist_view(
                root@,
                pnpm@,
                home@,
            ) && error_prefix@ == "failed to write launch agent plist: "@
            &&& plan@[3] matches DaemonStep::Run(c) && c.program@ == "launchctl"@ && views_of(
                c.args@,
            ) == seq!["bootout"@, launchctl_domain@, macos_plist_path_view(home@)]
                && !c.must_succeed
            &&& plan@[4] matches DaemonStep::Run(c) && c.program@ == "launchctl"@ && views_of(
                c.args@,
            ) == seq!["bootstrap"@, launchctl_domain@, macos_plist_path_view(home@)]
                && c.must_succeed && c.error_prefix@ == "failed to bootstrap launch agent: "@
                && c.failure_message@ == "launchctl bootstrap failed"@
            &&& plan@[5] matches DaemonStep::Run(c) && c.program@ == "launchctl"@ && views_of(
                c.args@,
            ) == seq!["kickstart"@, "-k"@, launchctl_service_view(launchctl_domain@)]
                && !c.must_succeed
        }),
        platform == Platform::Linux ==> (r matches Ok(plan) && {
            &&& plan@.len() == 4
            &&& plan@[0] matches DaemonStep::EnsureDir { path, error_prefix } && path@ == home@
                + "/.config/systemd/user"@ && error_prefix@
                == "failed to create systemd user directory: "@
            &&& plan@[1] matches DaemonStep::WriteFile { path, contents, error_prefix } && path@
                == linux_unit_path_view(home@) && contents@ == linux_unit_view(root@)
                && error_prefix@ == "failed to write systemd unit file: "@
            &&& plan@[2] matches DaemonStep::Run(c) && c.program@ == "systemctl"@ && views_of(
                c.args@,
            ) == seq!["--user"@, "daemon-reload"@] && !c.must_succeed
            &&& plan@[3] matches DaemonStep::Run(c) && c.program@ == "systemctl"@ && views_of(
                c.args@,
            ) == seq!["--user"@, "enable"@, "--now"@, "major-claw-gateway"@] && c.must_succeed
                && c.error_prefix@ == "failed to enable systemd service: "@ && c.failure_message@
                == "systemd enable --now failed (ensure user services are available; loginctl enable-linger may be required)"@
        }),
        platform == Platform::Windows ==> {
            &&& !script_exists ==> (r matches Err(m) && m@ == "Windows install script not found at "@
                + windows_script_path_view(root@))
            &&& script_exists ==> (r matches Ok(plan) && {
                &&& plan@.len() == 1
                &&& plan@[0] matches DaemonStep::Run(c) && c.program@ == "powershell"@ && views_of(
                    c.args@,
                ) == seq![
                    "-NoProfile"@,
                    "-ExecutionPolicy"@,
                    "Bypass"@,
                    "-File"@,
                    windows_script_path_view(root@),
                ] && c.must_succeed && c.error_prefix@
                    == "failed to execute Windows service install script: "@ && c.failure_message@
                    == "Windows service install script failed (admin rights may be required)"@
            })
        },
        platform == Platform::Unsupported ==> (r matches Ok(plan) && plan@.len() == 0),
{
    match platform {
        Platform::MacOs => {
            let mut agents_dir = home.to_owned();
            agents_dir.append("/Library/LaunchAgents");
            let mut logs_dir = home.to_owned();
            logs_dir.append("/Library/Logs/MajorClaw");
            let plist_path = macos_launch_agent_path(home);
            let contents = render_macos_launch_agent_plist(root, pnpm, home);
            let mut plan: Vec<DaemonStep> = Vec::new();
            plan.push(
                DaemonStep::EnsureDir {
                    path: agents_dir,
                    error_prefix: "failed to create launch agents directory: ".to_owned(),
                },
            );
            plan.push(
                DaemonStep::EnsureDir {
                    path: logs_dir,
                    error_prefix: "failed to create logs directory: ".to_owned(),
                },
            );
            plan.push(
                DaemonStep::WriteFile {
                    path: macos_launch_agent_path(home),
                    contents,
                    error_prefix: "failed to write launch agent plist: ".to_owned(),
                },
            );
            plan.push(
                DaemonStep::Run(
                    cmd_ignored(
                        "launchctl",
                        args3("bootout", launchctl_domain, plist_path.as_str()),
                    ),
                ),
            );
            plan.push(
                DaemonStep::Run(
                    cmd_required(
                        "launchctl",
                        args3("bootstrap", launchctl_domain, plist_path.as_str()),
                        "failed to bootstrap launch agent: ",
                        "launchctl bootstrap failed",
                    ),
                ),
            );
            let service = launchctl_service_target(launchctl_domain);
            plan.push(
                DaemonStep::Run(
                    cmd_ignored("launchctl", args3("kickstart", "-k", service.as_str())),
                ),
            );
            Ok(plan)
        },
        Platform::Linux => {
            let mut unit_dir = home.to_owned();
            unit_dir.append("/.config/systemd/user");
            let contents = render_linux_systemd_service(root);
            let mut plan: Vec<DaemonStep> = Vec::new();
            plan.push(
                DaemonStep::EnsureDir {
                    path: unit_dir,
                    error_prefix: "failed to create systemd user directory: ".to_owned(),
                },
            );
            plan.push(
                DaemonStep::WriteFile {
                    path: linux_systemd_service_path(home),
                    contents,
                    error_prefix: "failed to write systemd unit file: ".to_owned(),
                },
            );
            plan.push(DaemonStep::Run(cmd_ignored("systemctl", args2("--user", "daemon-reload"))));
            plan.push(
                DaemonStep::Run(
                    cmd_required(
                        "systemctl",
                        args4("--user", "enable", "--now", "major-claw-gateway"),
                        "failed to enable systemd service: ",
                        "systemd enable --now failed (ensure user services are available; loginctl enable-linger may be required)",
                    ),
                ),
            );
            Ok(plan)
        },
        Platform::Windows => {
            let script = windows_install_script_path(root);
            if !script_exists {
                let mut m = "Windows install script not found at ".to_owned();
                m.append(script.as_str());
                return Err(m);
            }
            let mut plan: Vec<DaemonStep> = Vec::new();
            plan.push(
                DaemonStep::Run(
                    cmd_required(
                        "powershell",
                        args5("-NoProfile", "-ExecutionPolicy", "Bypass", "-File", script.as_str()),
                        "failed to execute Windows service install script: ",
                        "Windows service install script failed (admin rights may be required)",
                    ),
                ),
            );
            Ok(plan)
        },
        Platform::Unsupported => Ok(Vec::new()),
    }
}

/// The plan disabling the persistent service: unregister it and delete the
/// definition file where one is written. `definition_exists` reports
/// whether the launch-agent definition file is present; when it is not,
/// that platform has nothing to do.
pub fn daemon_disable_plan(
    platform: Platform,
    home: &str,
    launchctl_domain: &str,
    definition_exists: bool,
) -> (r: Vec<DaemonStep>)
    ensures
        platform == Platform::MacOs ==> {
            &&& definition_exists ==> {
                &&& r@.len() == 2
                &&& r@[0] matches DaemonStep::Run(c) && c.program@ == "launchctl"@ && views_of(
                    c.args@,
                ) == seq!["bootout"@, launchctl_domain@, macos_plist_path_view(home@)]
                    && !c.must_succeed
                &&& r@[1] matches DaemonStep::RemoveFile { path } && path@ == macos_plist_path_view(
                    home@,
                )
            }
            &&& !definition_exists ==> r@.len() == 0
        },
        platform == Platform::Linux ==> {
            &&& r@.len() == 3
            &&& r@[0] matches DaemonStep::Run(c) && c.program@ == "systemctl"@ && views_of(c.args@)
                == seq!["--user"@, "disable"@, "--now"@, "major-claw-gateway"@] && !c.must_succeed
            &&& r@[1] matches DaemonStep::RemoveFile { path } && path@ == linux_unit_path_view(
                home@,
            )
            &&& r@[2] matches DaemonStep::Run(c) && c.program@ == "systemctl"@ && views_of(c.args@)
                == seq!["--user"@, "daemon-reload"@] && !c.must_succeed
        },
        platform == Platform::Windows ==> {
            &&& r@.len() == 2
            &&& r@[0] matches DaemonStep::Run(c) && c.program@ == "sc"@ && views_of(c.args@)
                == seq!["stop"@, "MajorClawGateway"@] && !c.must_succeed
            &&& r@[1] matches DaemonStep::Run(c) && c.program@ == "sc"@ && views_of(c.args@)
                == seq!["delete"@, "MajorClawGateway"@] && !c.must_succeed
        },
        platform == Platform::Unsupported ==> r@.len() == 0,
{
    match platform {
        Platform::MacOs => {
            let mut plan: Vec<DaemonStep> = Vec::new();
            if definition_exists {
                let plist_path = macos_launch_agent_path(home);
                plan.push(
                    DaemonStep::Run(
                        cmd_ignored(
                            "launchctl",
                            args3("bootout", launchctl_domain, plist_path.as_str()),
                        ),
                    ),
                );
                plan.push(DaemonStep::RemoveFile { path: macos_launch_agent_path(home) });
            }
            plan
        },
        Platform::Linux => {
            let mut plan: Vec<DaemonStep> = Vec::new();
            plan.push(
                DaemonStep::Run(
                    cmd_ignored(
                        "systemctl",
                        args4("--user", "disable", "--now", "major-claw-gateway"),
                    ),
                ),
            );
            plan.push(DaemonStep::RemoveFile { path: linux_systemd_service_path(home) });
            plan.push(DaemonStep::Run(cmd_ignored("systemctl", args2("--user", "daemon-reload"))));
            plan
        },
        Platform::Windows => {
            let mut plan: Vec<DaemonStep> = Vec::new();
            plan.push(DaemonStep::Run(cmd_ignored("sc", args2("stop", "MajorClawGateway"))));
            plan.push(DaemonStep::Run(cmd_ignored("sc", args2("delete", "MajorClawGateway"))));
            plan
        },
        Platform::Unsupported => Vec::new(),
    }
}

/// The plan starting the already-registered service. The platform's own
/// start primitive must succeed; if the definition does not exist the
/// command is expected to fail, and that failure is surfaced.
pub fn daemon_start_plan(platform: Platform, launchctl_domain: &str) -> (r: Vec<DaemonStep>)
    ensures
        platform == Platform::MacOs ==> r@.len() == 1 && (r@[0] matches DaemonStep::Run(c)
            && c.program@ == "launchctl"@ && views_of(c.args@) == seq![
            "kickstart"@,
            "-k"@,
            launchctl_service_view(launchctl_domain@),
        ] && c.must_succeed && c.error_prefix@ == "failed to start launch agent: "@
            && c.failure_message@ == "launchctl kickstart failed"@),
        platform == Platform::Linux ==> r@.len() == 1 && (r@[0] matches DaemonStep::Run(c)
            && c.program@ == "systemctl"@ && views_of(c.args@) == seq![
            "--user"@,
            "start"@,
            "major-claw-gateway"@,
        ] && c.must_succeed && c.error_prefix@ == "failed to start systemd service: "@
            && c.failure_message@ == "systemctl --user start failed"@),
        platform == Platform::Windows ==> r@.len() == 1 && (r@[0] matches DaemonStep::Run(c)
            && c.program@ == "sc"@ && views_of(c.args@) == seq!["start"@, "MajorClawGateway"@]
            && c.must_succeed && c.error_prefix@ == "failed to start windows service: "@
            && c.failure_message@ == "sc start failed"@),
        platform == Platform::Unsupported ==> r@.len() == 0,
{
    match platform {
        Platform::MacOs => {
            let service = launchctl_service_target(launchctl_domain);
            let mut plan: Vec<DaemonStep> = Vec::new();
            plan.push(
                DaemonStep::Run(
                    cmd_required(
                        "launchctl",
                        args3("kickstart", "-k", service.as_str()),
                        "failed to start launch agent: ",
                        "launchctl kickstart failed",
                    ),
                ),
            );
            plan
        },
        Platform::Linux => {
            let mut plan: Vec<DaemonStep> = Vec::new();
            plan.push(
                DaemonStep::Run(
                    cmd_required(
                        "systemctl",
                        args3("--user", "start", "major-claw-gateway"),
                        "failed to start systemd service: ",
                        "systemctl --user start failed",
                    ),
                ),
            );
            plan
        },
        Platform::Windows => {
            let mut plan: Vec<DaemonStep> = Vec::new();
            plan.push(
                DaemonStep::Run(
                    cmd_required(
                        "sc",
                        args2("start", "MajorClawGateway"),
                        "failed to start windows service: ",
                        "sc start failed",
                    ),
                ),
            );
            plan
        },
        Platform::Unsupported => Vec::new(),
    }
}

/// The plan stopping the registered service: each platform's stop
/// primitive for the already-registered definition, whose failure is
/// surfaced to the caller (if the definition does not exist, the command is
/// expected to fail, and that failure is reported, not swallowed). The
/// launch-agent platform first re-registers the agent, best effort, and
/// then delivers the termination signal, so a keep-alive agent is left
/// registered but stopped.
pub fn daemon_stop_plan(platform: Platform, home: &str, launchctl_domain: &str) -> (r: Vec<
    DaemonStep,
>)
    ensures
        platform == Platform::MacOs ==> {
            &&& r@.len() == 3
            &&& r@[0] matches DaemonStep::Run(c) && c.program@ == "launchctl"@ && views_of(c.args@)
                == seq!["bootout"@, launchctl_domain@, macos_plist_path_view(home@)]
                && !c.must_succeed
            &&& r@[1] matches DaemonStep::Run(c) && c.program@ == "launchctl"@ && views_of(c.args@)
                == seq!["bootstrap"@, launchctl_domain@, macos_plist_path_view(home@)]
                && !c.must_succeed
            &&& r@[2] matches DaemonStep::Run(c) && c.program@ == "launchctl"@ && views_of(c.args@)
                == seq!["kill"@, "SIGTERM"@, launchctl_service_view(launchctl_domain@)]
                && c.must_succeed && c.error_prefix@ == "failed to stop launch agent: "@
                && c.failure_message@ == "launchctl kill failed"@
        },
        platform == Platform::Linux ==> r@.len() == 1 && (r@[0] matches DaemonStep::Run(c)
            && c.program@ == "systemctl"@ && views_of(c.args@) == seq![
            "--user"@,
            "stop"@,
            "major-claw-gateway"@,
        ] && c.must_succeed && c.error_prefix@ == "failed to stop systemd service: "@
            && c.failure_message@ == "systemctl --user stop failed"@),
        platform == Platform::Windows ==> r@.len() == 1 && (r@[0] matches DaemonStep::Run(c)
            && c.program@ == "sc"@ && views_of(c.args@) == seq!["stop"@, "MajorClawGateway"@]
            && c.must_succeed && c.error_prefix@ == "failed to stop windows service: "@
            && c.failure_message@ == "sc stop failed"@),
        platform == Platform::Unsupported ==> r@.len() == 0,
{
    match platform {
        Platform::MacOs => {
            let plist_path = macos_launch_agent_path(home);
            let service = launchctl_service_target(launchctl_domain);
            let mut plan: Vec<DaemonStep> = Vec::new();
            plan.push(
                DaemonStep::Run(
                    cmd_ignored(
                        "launchctl",
                        args3("bootout", launchctl_domain, plist_path.as_str()),
                    ),
                ),
            );
            plan.push(
                DaemonStep::Run(
                    cmd_ignored(
                        "launchctl",
                        args3("bootstrap", launchctl_domain, plist_path.as_str()),
                    ),
                ),
            );
            plan.push(
                DaemonStep::Run(
                    cmd_required(
                        "launchctl",
                        args3("kill", "SIGTERM", service.as_str()),
                        "failed to stop launch agent: ",
                        "launchctl kill failed",
                    ),
                ),
            );
            plan
        },
        Platform::Linux => {
            let mut plan: Vec<DaemonStep> = Vec::new();
            plan.push(
                DaemonStep::Run(
                    cmd_required(
                        "systemctl",
                        args3("--user", "stop", "major-claw-gateway"),
                        "failed to stop systemd service: ",
                        "systemctl --user stop failed",
                    ),
                ),
            );
            plan
        },
        Platform::Windows => {
            let mut plan: Vec<DaemonStep> = Vec::new();
            plan.push(
                DaemonStep::Run(
                    cmd_required(
                        "sc",
                        args2("stop", "MajorClawGateway"),
                        "failed to stop windows service: ",
                        "sc stop failed",
                    ),
                ),
            );
            plan
        },
        Platform::Unsupported => Vec::new(),
    }
}

/// The plan restarting the registered service: the kick-start primitive
/// where one exists, else stop (best effort) followed by a required start.
pub fn daemon_restart_plan(platform: Platform, launchctl_domain: &str) -> (r: Vec<DaemonStep>)
    ensures
        platform == Platform::MacOs ==> r@.len() == 1 && (r@[0] matches DaemonStep::Run(c)
            && c.program@ == "launchctl"@ && views_of(c.args@) == seq![
            "kickstart"@,
            "-k"@,
            launchctl_service_view(launchctl_domain@),
        ] && c.must_succeed && c.error_prefix@ == "failed to restart launch agent: "@
            && c.failure_message@ == "launchctl kickstart failed"@),
        platform == Platform::Linux ==> r@.len() == 1 && (r@[0] matches DaemonStep::Run(c)
            && c.program@ == "systemctl"@ && views_of(c.args@) == seq![
            "--user"@,
            "restart"@,
            "major-claw-gateway"@,
        ] && c.must_succeed && c.error_prefix@ == "failed to restart systemd service: "@
            && c.failure_message@ == "systemctl --user restart failed"@),
        platform == Platform::Windows ==> {
            &&& r@.len() == 2
            &&& r@[0] matches DaemonStep::Run(c) && c.program@ == "sc"@ && views_of(c.args@)
                == seq!["stop"@, "MajorClawGateway"@] && !c.must_succeed
            &&& r@[1] matches DaemonStep::Run(c) && c.program@ == "sc"@ && views_of(c.args@)
                == seq!["start"@, "MajorClawGateway"@] && c.must_succeed && c.error_prefix@
                == "failed to restart windows service: "@ && c.failure_message@
                == "sc start failed"@
        },
        platform == Platform::Unsupported ==> r@.len() == 0,
{
    match platform {
        Platform::MacOs => {
            let service = launchctl_service_target(launchctl_domain);
            let mut plan: Vec<DaemonStep> = Vec::new();
            plan.push(
                DaemonStep::Run(
                    cmd_required(
                        "launchctl",
                        args3("kickstart", "-k", service.as_str()),
                        "failed to restart launch agent: ",
                        "launchctl kickstart failed",
                    ),
                ),
            );
            plan
        },
        Platform::Linux => {
            let mut plan: Vec<DaemonStep> = Vec::new();
            plan.push(
                DaemonStep::Run(
                    cmd_required(
                        "systemctl",
                        args3("--user", "restart", "major-claw-gateway"),
                        "failed to restart systemd service: ",
                        "systemctl --user restart failed",
                    ),
                ),
            );
            plan
        },
        Platform::Windows => {
            let mut plan: Vec<DaemonStep> = Vec::new();
            plan.push(DaemonStep::Run(cmd_ignored("sc", args2("stop", "MajorClawGateway"))));
            plan.push(
                DaemonStep::Run(
                    cmd_required(
                        "sc",
                        args2("start", "MajorClawGateway"),
                        "failed to restart windows service: ",
                        "sc start failed",
                    ),
                ),
            );
            plan
        },
        Platform::Unsupported => Vec::new(),
    }
}

} // verus!
