//! The per-platform daemon controller's pure half: service labels,
//! definition paths, rendered definition files, tolerant parsing of the
//! platform utilities' output, and the assembly of a status value from the
//! raw command outcomes. The runtime invokes the platform utilities and
//! checks file existence; everything it feeds in arrives as plain values.

use vstd::prelude::*;
use vstd::string::StringExecFns;

use crate::text::contains_lowered;
use crate::text::contains_seq;
use crate::text::contains_substring;
use crate::text::lower_seq;
use crate::text::str_eq;
use crate::text::str_trim;
use crate::text::trim_seq;

verus! {

/// The platforms the daemon controller distinguishes. Anything else gets
/// the first-class "unsupported" answer, never an error.
#[derive(Clone, Copy, Debug, PartialEq, Eq, Structural)]
pub enum Platform {
    MacOs,
    Linux,
    Windows,
    Unsupported,
}

/// Platform selection from an operating-system name.
pub open spec fn spec_platform(os: Seq<char>) -> Platform {
    if os == "macos"@ {
        Platform::MacOs
    } else if os == "linux"@ {
        Platform::Linux
    } else if os == "windows"@ {
        Platform::Windows
    } else {
        Platform::Unsupported
    }
}

/// Map an operating-system name to the platform adapter that serves it.
pub fn platform_of(os: &str) -> (p: Platform)
    ensures
        p == spec_platform(os@),
{
    if str_eq(os, "macos") {
        Platform::MacOs
    } else if str_eq(os, "linux") {
        Platform::Linux
    } else if str_eq(os, "windows") {
        Platform::Windows
    } else {
        Platform::Unsupported
    }
}

/// Captured outcome of one platform-utility invocation.
pub struct CmdOutput {
    /// The process ran and exited successfully.
    pub success: bool,
    /// Its standard output, decoded as text.
    pub stdout: String,
    /// Its standard error, decoded as text.
    pub stderr: String,
}

/// Status of one persistent, OS-native service registration.
pub struct GatewayDaemonStatus {
    pub platform: String,
    pub supported: bool,
    pub enabled: bool,
    pub running: bool,
    pub service_label: String,
    pub service_path: String,
    pub log_hint: String,
    pub last_error: Option<String>,
    pub message: String,
}

/// The per-user launch-agent label.
pub fn macos_launch_agent_label() -> (r: &'static str)
    ensures
        r@ == "com.jonnycatx.major-claw.gateway"@,
{
    "com.jonnycatx.major-claw.gateway"
}

/// The per-user service-unit name.
pub fn linux_systemd_label() -> (r: &'static str)
    ensures
        r@ == "major-claw-gateway"@,
{
    "major-claw-gateway"
}

/// The native service name.
pub fn windows_service_label() -> (r: &'static str)
    ensures
        r@ == "MajorClawGateway"@,
{
    "MajorClawGateway"
}

/// The launch-agent property list's path under the user's library directory.
pub open spec fn macos_plist_path_view(home: Seq<char>) -> Seq<char> {
    home + "/Library/LaunchAgents/com.jonnycatx.major-claw.gateway.plist"@
}

/// The launch-agent property list's path for the given home directory.
pub fn macos_launch_agent_path(home: &str) -> (r: String)
    ensures
        r@ == macos_plist_path_view(home@),
{
    let mut p = home.to_owned();
    p.append("/Library/LaunchAgents/com.jonnycatx.major-claw.gateway.plist");
    p
}

/// The service unit's path under the user's service-manager configuration.
pub open spec fn linux_unit_path_view(home: Seq<char>) -> Seq<char> {
    home + "/.config/systemd/user/major-claw-gateway.service"@
}

/// The service unit's path for the given home directory.
pub fn linux_systemd_service_path(home: &str) -> (r: String)
    ensures
        r@ == linux_unit_path_view(home@),
{
    let mut p = home.to_owned();
    p.append("/.config/systemd/user/major-claw-gateway.service");
    p
}

/// The install script's path under the workspace root.
pub open spec fn windows_script_path_view(root: Seq<char>) -> Seq<char> {
    root + "/ops/windows/install-gateway-service.ps1"@
}

/// The install script's path for the given workspace root.
pub fn windows_install_script_path(root: &str) -> (r: String)
    ensures
        r@ == windows_script_path_view(root@),
{
    let mut p = root.to_owned();
    p.append("/ops/windows/install-gateway-service.ps1");
    p
}

/// The directory launch-agent definitions live in.
pub open spec fn macos_agents_dir_view(home: Seq<char>) -> Seq<char> {
    home + "/Library/LaunchAgents"@
}

/// The directory the launch agent's log redirection points into.
pub open spec fn macos_logs_dir_view(home: Seq<char>) -> Seq<char> {
    home + "/Library/Logs/MajorClaw"@
}

/// The rendered launch-agent property list: the label, the package runner
/// and its arguments, the working directory, keep-alive, and log paths.
pub open spec fn macos_plist_view(root: Seq<char>, pnpm: Seq<char>, home: Seq<char>) -> Seq<char> {
    "<?xml version=\"1.0\" encoding=\"UTF-8\"?>\n<!DOCTYPE plist PUBLIC \"-//Apple//DTD PLIST 1.0//EN\" \"http://www.apple.com/DTDs/PropertyList-1.0.dtd\">\n<plist version=\"1.0\">\n<dict>\n  <key>Label</key>\n  <string>com.jonnycatx.major-claw.gateway</string>\n  <key>ProgramArguments</key>\n  <array>\n    <string>"@
        + pnpm
        + "</string>\n    <string>--filter</string>\n    <string>@majorclaw/gateway</string>\n    <string>start</string>\n  </array>\n  <key>WorkingDirectory</key>\n  <string>"@
        + root
        + "</string>\n  <key>RunAtLoad</key>\n  <true/>\n  <key>KeepAlive</key>\n  <true/>\n  <key>StandardOutPath</key>\n  <string>"@
        + home + "/Library/Logs/MajorClaw/stdout.log</string>\n  <key>StandardErrorPath</key>\n  <string>"@
        + home + "/Library/Logs/MajorClaw/stderr.log</string>\n</dict>\n</plist>\n"@
}

/// Render the launch-agent property list for the given workspace root,
/// package-runner path and home directory.
pub fn render_macos_launch_agent_plist(root: &str, pnpm: &str, home: &str) -> (r: String)
    ensures
        r@ == macos_plist_view(root@, pnpm@, home@),
{
    let mut t =
        "<?xml version=\"1.0\" encoding=\"UTF-8\"?>\n<!DOCTYPE plist PUBLIC \"-//Apple//DTD PLIST 1.0//EN\" \"http://www.apple.com/DTDs/PropertyList-1.0.dtd\">\n<plist version=\"1.0\">\n<dict>\n  <key>Label</key>\n  <string>com.jonnycatx.major-claw.gateway</string>\n  <key>ProgramArguments</key>\n  <array>\n    <string>".to_owned();
    t.append(pnpm);
    t.append(
        "</string>\n    <string>--filter</string>\n    <string>@majorclaw/gateway</string>\n    <string>start</string>\n  </array>\n  <key>WorkingDirectory</key>\n  <string>",
    );
    t.append(root);
    t.append(
        "</string>\n  <key>RunAtLoad</key>\n  <true/>\n  <key>KeepAlive</key>\n  <true/>\n  <key>StandardOutPath</key>\n  <string>",
    );
    t.append(home);
    t.append(
        "/Library/Logs/MajorClaw/stdout.log</string>\n  <key>StandardErrorPath</key>\n  <string>",
    );
    t.append(home);
    t.append("/Library/Logs/MajorClaw/stderr.log</string>\n</dict>\n</plist>\n");
    proof {
        assert(t@ =~= macos_plist_view(root@, pnpm@, home@));
    }
    t
}

/// The rendered service unit: the working directory, the fixed start
/// command under the environment's package runner, and an always-restart
/// policy.
pub open spec fn linux_unit_view(root: Seq<char>) -> Seq<char> {
    "[Unit]\nDescription=Major Claw Gateway\nAfter=network.target\n\n[Service]\nType=simple\nWorkingDirectory="@
        + root
        + "\nExecStart=/usr/bin/env pnpm --filter @majorclaw/gateway start\nRestart=always\nRestartSec=3\nEnvironment=NODE_ENV=production\n\n[Install]\nWantedBy=default.target\n"@
}

/// Render the service unit for the given workspace root.
pub fn render_linux_systemd_service(root: &str) -> (r: String)
    ensures
        r@ == linux_unit_view(root@),
{
    let mut t =
        "[Unit]\nDescription=Major Claw Gateway\nAfter=network.target\n\n[Service]\nType=simple\nWorkingDirectory=".to_owned();
    t.append(root);
    t.append(
        "\nExecStart=/usr/bin/env pnpm --filter @majorclaw/gateway start\nRestart=always\nRestartSec=3\nEnvironment=NODE_ENV=production\n\n[Install]\nWantedBy=default.target\n",
    );
    proof {
        assert(t@ =~= linux_unit_view(root@));
    }
    t
}

/// The per-user domain target the launch-agent commands address, from the
/// raw output of the user-id query.
pub fn launchctl_target(uid_output: &str) -> (r: String)
    ensures
        r@ == "gui/"@ + trim_seq(uid_output@),
{
    let mut t = "gui/".to_owned();
    t.append(str_trim(uid_output));
    t
}

/// The fully qualified service specifier `target/label` the launch-agent
/// commands address.
pub open spec fn launchctl_service_view(target: Seq<char>) -> Seq<char> {
    target + "/com.jonnycatx.major-claw.gateway"@
}

/// The fully qualified service specifier for the given domain target.
pub fn launchctl_service_target(target: &str) -> (r: String)
    ensures
        r@ == launchctl_service_view(target@),
{
    let mut t = target.to_owned();
    t.append("/com.jonnycatx.major-claw.gateway");
    t
}

/// The package-runner executable the gateway is started with: a workspace-
/// local install when one exists, else the first present of the well-known
/// system locations, else the bare command left to path lookup.
pub fn resolve_pnpm_path(
    root: &str,
    windows: bool,
    local_exists: bool,
    homebrew_exists: bool,
    usr_local_exists: bool,
    usr_bin_exists: bool,
) -> (r: String)
    ensures
        local_exists ==> r@ == root@ + (if windows {
            "/node_modules/.bin/pnpm.cmd"@
        } else {
            "/node_modules/.bin/pnpm"@
        }),
        !local_exists && homebrew_exists ==> r@ == "/opt/homebrew/bin/pnpm"@,
        !local_exists && !homebrew_exists && usr_local_exists ==> r@ == "/usr/local/bin/pnpm"@,
        !local_exists && !homebrew_exists && !usr_local_exists && usr_bin_exists ==> r@
            == "/usr/bin/pnpm"@,
        !local_exists && !homebrew_exists && !usr_local_exists && !usr_bin_exists ==> r@
            == "pnpm"@,
{
    if local_exists {
        let mut p = root.to_owned();
        if windows {
            p.append("/node_modules/.bin/pnpm.cmd");
        } else {
            p.append("/node_modules/.bin/pnpm");
        }
        p
    } else if homebrew_exists {
        "/opt/homebrew/bin/pnpm".to_owned()
    } else if usr_local_exists {
        "/usr/local/bin/pnpm".to_owned()
    } else if usr_bin_exists {
        "/usr/bin/pnpm".to_owned()
    } else {
        "pnpm".to_owned()
    }
}

/// Whether service-control query output reports the service as running:
/// both a state token and a running token occur, case-insensitively.
pub fn parse_sc_running(output: &str) -> (r: bool)
    ensures
        r == (contains_seq(lower_seq(output@), "state"@) && contains_seq(
            lower_seq(output@),
            "running"@,
        )),
{
    contains_lowered(output, "state") && contains_lowered(output, "running")
}

/// Whether service-control configuration output reports the service as
/// installed for automatic start: a start-type token and an auto-start
/// token occur, case-insensitively.
pub fn parse_sc_enabled(output: &str) -> (r: bool)
    ensures
        r == (contains_seq(lower_seq(output@), "start_type"@) && (contains_seq(
            lower_seq(output@),
            "auto_start"@,
        ) || contains_seq(lower_seq(output@), "auto start"@))),
{
    contains_lowered(output, "start_type") && (contains_lowered(output, "auto_start")
        || contains_lowered(output, "auto start"))
}

/// The status answer for a platform without an adapter: a first-class
/// value, never an error — nothing enabled, nothing running, no last error.
pub fn daemon_status_unsupported(os: String, message: String) -> (r: GatewayDaemonStatus)
    ensures
        r.platform == os,
        !r.supported,
        !r.enabled,
        !r.running,
        r.service_label@ == Seq::<char>::empty(),
        r.service_path@ == Seq::<char>::empty(),
        r.log_hint@ == Seq::<char>::empty(),
        r.last_error is None,
        r.message == message,
{
    GatewayDaemonStatus {
        platform: os,
        supported: false,
        enabled: false,
        running: false,
        service_label: String::new(),
        service_path: String::new(),
        log_hint: String::new(),
        last_error: None,
        message,
    }
}

/// The explanatory message the unsupported adapter answers with.
pub fn daemon_unsupported_message() -> (r: &'static str)
    ensures
        r@ == "Always-on service toggle is not supported on this platform."@,
{
    "Always-on service toggle is not supported on this platform."
}

/// Assemble the launch-agent status from the definition file's existence
/// and the print query's outcome (`Err` carries the invocation error).
/// Parsing is tolerant: the agent counts as running only when the query
/// succeeded and its output shows a running state or a live process id.
pub fn daemon_status_for_macos(
    home: &str,
    enabled: bool,
    print_result: Result<CmdOutput, String>,
) -> (r: GatewayDaemonStatus)
    ensures
        r.platform@ == "macos"@,
        r.supported,
        r.enabled == enabled,
        r.service_label@ == "com.jonnycatx.major-claw.gateway"@,
        r.service_path@ == macos_plist_path_view(home@),
        r.log_hint@ == "$HOME/Library/Logs/MajorClaw/stdout.log"@,
        match print_result {
            Ok(out) => {
                &&& r.running == (out.success && (contains_seq(out.stdout@, "state = running"@)
                    || contains_seq(out.stdout@, "pid ="@)))
                &&& if out.success {
                    &&& r.last_error is None
                    &&& r.message@ == (if enabled {
                        "Always-on launch agent is enabled."@
                    } else {
                        "Always-on launch agent is disabled."@
                    })
                } else {
                    &&& (if trim_seq(out.stderr@).len() == 0 {
                        r.last_error is None
                    } else {
                        r.last_error matches Some(e) && e@ == trim_seq(out.stderr@)
                    })
                    &&& r.message@ == (if enabled {
                        "Launch agent is enabled but not currently running."@
                    } else {
                        "Always-on launch agent is disabled."@
                    })
                }
            },
            Err(e) => {
                &&& !r.running
                &&& r.last_error matches Some(x) && x@ == e@
                &&& r.message@ == (if enabled {
                    "Launch agent is enabled but launchctl status could not be read."@
                } else {
                    "Always-on launch agent is disabled."@
                })
            },
        },
{
    let path = macos_launch_agent_path(home);
    let (running, last_error, message): (bool, Option<String>, String) = match print_result {
        Ok(out) => {
            if out.success {
                let is_running = contains_substring(out.stdout.as_str(), "state = running")
                    || contains_substring(out.stdout.as_str(), "pid =");
                (
                    is_running,
                    None,
                    if enabled {
                        "Always-on launch agent is enabled.".to_owned()
                    } else {
                        "Always-on launch agent is disabled.".to_owned()
                    },
                )
            } else {
                let trimmed = str_trim(out.stderr.as_str());
                let last = if trimmed.is_empty() {
                    None
                } else {
                    Some(trimmed.to_owned())
                };
                (
                    false,
                    last,
                    if enabled {
                        "Launch agent is enabled but not currently running.".to_owned()
                    } else {
                        "Always-on launch agent is disabled.".to_owned()
                    },
                )
            }
        },
        Err(e) => (
            false,
            Some(e),
            if enabled {
                "Launch agent is enabled but launchctl status could not be read.".to_owned()
            } else {
                "Always-on launch agent is disabled.".to_owned()
            },
        ),
    };
    GatewayDaemonStatus {
        platform: "macos".to_owned(),
        supported: true,
        enabled,
        running,
        service_label: "com.jonnycatx.major-claw.gateway".to_owned(),
        service_path: path,
        log_hint: "$HOME/Library/Logs/MajorClaw/stdout.log".to_owned(),
        last_error,
        message,
    }
}

/// Assemble the service-unit status from the enablement and activity
/// queries' outcomes (`None` means the invocation itself failed, which the
/// status swallows as "not enabled" / "not running").
pub fn daemon_status_for_linux(
    home: &str,
    enabled_result: Option<CmdOutput>,
    active_result: Option<CmdOutput>,
) -> (r: GatewayDaemonStatus)
    ensures
        r.platform@ == "linux"@,
        r.supported,
        r.enabled == (enabled_result matches Some(out) && out.success),
        r.running == (active_result matches Some(out) && out.success),
        r.service_label@ == "major-claw-gateway"@,
        r.service_path@ == linux_unit_path_view(home@),
        r.log_hint@ == "journalctl --user -u major-claw-gateway -f"@,
        match active_result {
            Some(out) => if trim_seq(out.stderr@).len() == 0 {
                r.last_error is None
            } else {
                r.last_error matches Some(e) && e@ == trim_seq(out.stderr@)
            },
            None => r.last_error is None,
        },
        r.message@ == (if enabled_result matches Some(out) && out.success {
            "Systemd user service is enabled."@
        } else {
            "Systemd user service is disabled."@
        }),
{
    let path = linux_systemd_service_path(home);
    let enabled = match &enabled_result {
        Some(out) => out.success,
        None => false,
    };
    let running = match &active_result {
        Some(out) => out.success,
        None => false,
    };
    let last_error = match active_result {
        Some(out) => {
            let trimmed = str_trim(out.stderr.as_str());
            if trimmed.is_empty() {
                None
            } else {
                Some(trimmed.to_owned())
            }
        },
        None => None,
    };
    GatewayDaemonStatus {
        platform: "linux".to_owned(),
        supported: true,
        enabled,
        running,
        service_label: "major-claw-gateway".to_owned(),
        service_path: path,
        log_hint: "journalctl --user -u major-claw-gateway -f".to_owned(),
        last_error,
        message: if enabled {
            "Systemd user service is enabled.".to_owned()
        } else {
            "Systemd user service is disabled.".to_owned()
        },
    }
}

/// Assemble the native-service status from the query and configuration
/// commands' outcomes (`None` means the invocation itself failed; its
/// output then counts as empty, so parsing degrades to "not enabled" /
/// "not running").
pub fn daemon_status_for_windows(
    root: &str,
    query_result: Option<CmdOutput>,
    config_result: Option<CmdOutput>,
) -> (r: GatewayDaemonStatus)
    ensures
        r.platform@ == "windows"@,
        r.supported,
        r.enabled == (config_result matches Some(out) && contains_seq(
            lower_seq(out.stdout@),
            "start_type"@,
        ) && (contains_seq(lower_seq(out.stdout@), "auto_start"@) || contains_seq(
            lower_seq(out.stdout@),
            "auto start"@,
        ))),
        r.running == (query_result matches Some(out) && contains_seq(
            lower_seq(out.stdout@),
            "state"@,
        ) && contains_seq(lower_seq(out.stdout@), "running"@)),
        r.service_label@ == "MajorClawGateway"@,
        r.service_path@ == windows_script_path_view(root@),
        r.log_hint@
            == "PowerShell: Get-WinEvent -LogName Application | Where-Object {$_.ProviderName -like '*MajorClawGateway*'} -MaxEvents 50"@,
        match query_result {
            Some(out) => if trim_seq(out.stderr@).len() == 0 {
                r.last_error is None
            } else {
                r.last_error matches Some(e) && e@ == trim_seq(out.stderr@)
            },
            None => r.last_error is None,
        },
        r.message@ == (if config_result matches Some(out) && contains_seq(
            lower_seq(out.stdout@),
            "start_type"@,
        ) && (contains_seq(lower_seq(out.stdout@), "auto_start"@) || contains_seq(
            lower_seq(out.stdout@),
            "auto start"@,
        )) {
            "Windows service is installed."@
        } else {
            "Windows service is not installed."@
        }),
{
    let script = windows_install_script_path(root);
    let enabled = match &config_result {
        Some(out) => parse_sc_enabled(out.stdout.as_str()),
        None => false,
    };
    let running = match &query_result {
        Some(out) => parse_sc_running(out.stdout.as_str()),
        None => false,
    };
    let last_error = match query_result {
        Some(out) => {
            let trimmed = str_trim(out.stderr.as_str());
            if trimmed.is_empty() {
                None
            } else {
                Some(trimmed.to_owned())
            }
        },
        None => None,
    };
    GatewayDaemonStatus {
        platform: "windows".to_owned(),
        supported: true,
        enabled,
        running,
        service_label: "MajorClawGateway".to_owned(),
        service_path: script,
        log_hint:
            "PowerShell: Get-WinEvent -LogName Application | Where-Object {$_.ProviderName -like '*MajorClawGateway*'} -MaxEvents 50".to_owned(),
        last_error,
        message: if enabled {
            "Windows service is installed.".to_owned()
        } else {
            "Windows service is not installed.".to_owned()
        },
    }
}

} // verus!
