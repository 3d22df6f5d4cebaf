//! The red phone: an emergency, reason-required, expedited shutdown path.
//!
//! The reason must be attributable: an empty or whitespace-only reason is
//! rejected before any shutdown action is planned. The runtime best-effort
//! posts the emergency request to the gateway and, if the response carried
//! an audit-record payload, hands the parsed record back in; parsing or
//! network failure just means `audited == false`.

use vstd::prelude::*;
use vstd::string::StringExecFns;

use crate::dto::AuditLogEntry;
use crate::shutdown::ShutdownRequest;
use crate::shutdown::RED_PHONE_TIMEOUT_MS;
use crate::text::all_ws;
use crate::text::lemma_trim_empty_iff_all_ws;
use crate::text::str_trim;
use crate::text::trim_seq;

verus! {

/// Outcome of a red-phone shutdown: what happened, why, when, and whether
/// the gateway recorded an audit entry for it.
pub struct RedPhoneResult {
    pub status: String,
    pub reason: String,
    pub timestamp: String,
    pub audited: bool,
    pub audit_log: Option<AuditLogEntry>,
}

/// Validate the caller-supplied reason and plan the expedited shutdown:
/// a whitespace-only reason is rejected (with no request planned), anything
/// else yields a request carrying the trimmed reason under the `red_phone:`
/// prefix, attributed to the user, with short windows on both stages.
pub fn plan_red_phone(reason: &str) -> (r: Result<ShutdownRequest, String>)
    ensures
        r is Err <==> all_ws(reason@),
        r matches Err(m) ==> m@ == "red phone requires a reason"@,
        r matches Ok(req) ==> {
            &&& req.reason@ == "red_phone:"@ + trim_seq(reason@)
            &&& req.actor@ == "user"@
            &&& req.graceful_timeout_ms == RED_PHONE_TIMEOUT_MS
            &&& req.kill_timeout_ms == RED_PHONE_TIMEOUT_MS
        },
{
    proof {
        lemma_trim_empty_iff_all_ws(reason@);
    }
    let note = str_trim(reason);
    if note.is_empty() {
        return Err("red phone requires a reason".to_owned());
    }
    let mut tagged = "red_phone:".to_owned();
    tagged.append(note);
    Ok(
        ShutdownRequest {
            reason: tagged,
            actor: "user".to_owned(),
            graceful_timeout_ms: RED_PHONE_TIMEOUT_MS,
            kill_timeout_ms: RED_PHONE_TIMEOUT_MS,
        },
    )
}

/// The trimmed reason a red-phone result reports, for the caller that
/// already validated it.
pub fn red_phone_note(reason: &str) -> (r: String)
    ensures
        r@ == trim_seq(reason@),
{
    str_trim(reason).to_owned()
}

/// Assemble the red-phone result: status is always "stopped" (the protocol
/// always resolves to not-running), and the action counts as audited exactly
/// when the gateway handed back a parsable audit record.
pub fn make_red_phone_result(
    note: String,
    timestamp: String,
    audit_log: Option<AuditLogEntry>,
) -> (r: RedPhoneResult)
    ensures
        r.status@ == "stopped"@,
        r.reason == note,
        r.timestamp == timestamp,
        r.audited == audit_log is Some,
        r.audit_log == audit_log,
{
    let audited = audit_log.is_some();
    RedPhoneResult { status: "stopped".to_owned(), reason: note, timestamp, audited, audit_log }
}

} // verus!
