//! Process- and service-lifecycle supervisor for a long-running local
//! backend ("the gateway").
//!
//! The crate models the supervisor's shared process record, the lifecycle
//! operations (start / status / stop), the graceful-shutdown protocol, the
//! watchdog reconciliation step, the emergency ("red phone") path, and the
//! per-platform daemon controller, all as verified logic over plain values.
//! The unverified runtime around it performs the actual process spawns,
//! HTTP calls and subprocess invocations and feeds their outcomes back in.

use vstd::prelude::*;

pub mod daemon;
pub mod dto;
pub mod plans;
pub mod redphone;
pub mod session;
pub mod shutdown;
pub mod supervisor;
pub mod text;
pub mod urls;

verus! {

/// The well-known local port the gateway listens on.
pub const GATEWAY_PORT: u16 = 4455;

/// Liveness report for the in-process gateway child, as every caller sees it.
#[derive(Clone, Copy, Debug)]
pub struct GatewayStatus {
    pub running: bool,
    pub port: u16,
}

impl GatewayStatus {
    /// A status value reporting the gateway as running on the canonical port.
    pub fn running_now() -> (s: GatewayStatus)
        ensures
            s.running,
            s.port == GATEWAY_PORT,
    {
        GatewayStatus { running: true, port: GATEWAY_PORT }
    }

    /// A status value reporting the gateway as stopped.
    pub fn stopped_now() -> (s: GatewayStatus)
        ensures
            !s.running,
            s.port == GATEWAY_PORT,
    {
        GatewayStatus { running: false, port: GATEWAY_PORT }
    }
}

} // verus!
