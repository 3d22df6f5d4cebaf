//! The process-wide session token every outbound gateway request carries.
//!
//! The token is established once per application life: an already-set,
//! non-blank value from the environment is reused; otherwise a fresh one is
//! generated from the supervising process's id and the current time and
//! cached by the runtime for the rest of the process's life.

use vstd::prelude::*;
use vstd::string::StringExecFns;

use crate::text::all_ws;
use crate::text::dec_seq;
use crate::text::u128_to_string;
use crate::text::u64_to_string;

verus! {

/// The header every outbound gateway request authenticates with.
pub fn session_token_header() -> (r: &'static str)
    ensures
        r@ == "x-session-token"@,
{
    "x-session-token"
}

/// Whether an already-set token value may be reused: it must not be blank.
pub fn existing_token_usable(existing: &str) -> (r: bool)
    ensures
        r == !all_ws(existing@),
{
    proof {
        crate::text::lemma_trim_empty_iff_all_ws(existing@);
    }
    let trimmed = crate::text::str_trim(existing);
    !trimmed.is_empty()
}

/// A freshly generated session token: the supervisor's process id and the
/// current time, under a fixed prefix.
pub fn make_session_token(pid: u32, now_nanos: u128) -> (r: String)
    ensures
        r@ == "mc-"@ + dec_seq(pid as nat) + "-"@ + dec_seq(now_nanos as nat),
{
    let mut token = "mc-".to_owned();
    let pid_text = u64_to_string(pid as u64);
    token.append(pid_text.as_str());
    token.append("-");
    let nanos_text = u128_to_string(now_nanos);
    token.append(nanos_text.as_str());
    proof {
        assert(token@ =~= "mc-"@ + dec_seq(pid as nat) + "-"@ + dec_seq(now_nanos as nat));
    }
    token
}

/// The token value outbound requests use when the environment supplies
/// none: a fixed development default.
pub fn gateway_session_token_value(env_token: Option<String>) -> (r: String)
    ensures
        match env_token {
            Some(t) => r == t,
            None => r@ == "majorclaw-dev-session-token"@,
        },
{
    match env_token {
        Some(t) => t,
        None => "majorclaw-dev-session-token".to_owned(),
    }
}

} // verus!
