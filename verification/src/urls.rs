//! The fixed gateway endpoints and the outward-facing URLs the shell opens,
//! with exact percent-encoding of caller-supplied pieces.

use vstd::prelude::*;
use vstd::string::StrSliceExecFns;
use vstd::string::StringExecFns;
use vstd::string::StringSliceAdditionalSpecFns;

use crate::text::dec_digit_char;
use crate::text::dec_seq;
use crate::text::trim_seq;
use crate::text::u64_to_string;
use crate::GATEWAY_PORT;

verus! {

/// The gateway's base URL: loopback on the canonical port.
pub open spec fn gateway_base_view() -> Seq<char> {
    "http://127.0.0.1:"@ + dec_seq(GATEWAY_PORT as nat)
}

/// The gateway's base URL as a string.
pub fn gateway_base_url() -> (r: String)
    ensures
        r@ == gateway_base_view(),
{
    let mut url = "http://127.0.0.1:".to_owned();
    let port_text = u64_to_string(GATEWAY_PORT as u64);
    url.append(port_text.as_str());
    url
}

/// The cooperative-shutdown endpoint.
pub fn shutdown_endpoint_url() -> (r: String)
    ensures
        r@ == gateway_base_view() + "/system/shutdown"@,
{
    let mut url = gateway_base_url();
    url.append("/system/shutdown");
    url
}

/// The emergency-shutdown endpoint.
pub fn red_phone_endpoint_url() -> (r: String)
    ensures
        r@ == gateway_base_view() + "/system/red-phone"@,
{
    let mut url = gateway_base_url();
    url.append("/system/red-phone");
    url
}

/// The health endpoint.
pub fn health_endpoint_url() -> (r: String)
    ensures
        r@ == gateway_base_view() + "/health"@,
{
    let mut url = gateway_base_url();
    url.append("/health");
    url
}

/// A byte the URL encoding leaves as itself: ASCII alphanumerics and
/// `-`, `.`, `_`, `~`.
pub open spec fn url_safe_byte(b: u8) -> bool {
    ||| (0x30 <= b && b <= 0x39)
    ||| (0x41 <= b && b <= 0x5A)
    ||| (0x61 <= b && b <= 0x7A)
    ||| b == 0x2D
    ||| b == 0x2E
    ||| b == 0x5F
    ||| b == 0x7E
}

/// The hexadecimal digit `d` as an uppercase character; defined for
/// `0 <= d <= 15`.
pub open spec fn hex_upper_char(d: int) -> char {
    if d < 10 {
        dec_digit_char(d)
    } else if d == 10 {
        'A'
    } else if d == 11 {
        'B'
    } else if d == 12 {
        'C'
    } else if d == 13 {
        'D'
    } else if d == 14 {
        'E'
    } else {
        'F'
    }
}

/// The encoding of one byte: safe bytes stand for themselves, every other
/// byte becomes `%` and two uppercase hex digits.
pub open spec fn enc_byte(b: u8) -> Seq<char> {
    if url_safe_byte(b) {
        seq![b as char]
    } else {
        seq!['%', hex_upper_char(b as int / 16), hex_upper_char(b as int % 16)]
    }
}

/// Percent-encoding of a byte sequence, byte by byte.
pub open spec fn percent_encode(bs: Seq<u8>) -> Seq<char>
    decreases bs.len(),
{
    if bs.len() == 0 {
        Seq::<char>::empty()
    } else {
        enc_byte(bs[0]) + percent_encode(bs.drop_first())
    }
}

/// Relies on `urlencoding::encode`: percent-encodes every byte of the
/// string's UTF-8 form except ASCII alphanumerics and `-`, `.`, `_`, `~`,
/// rendering escapes as `%` plus two uppercase hexadecimal digits.
#[verifier::external_body]
fn percent_encode_str(s: &str) -> (r: String)
    ensures
        r@ == percent_encode(s.spec_bytes()),
{
    urlencoding::encode(s).into_owned()
}

/// The skill-hub search URL for a query and sort order, both
/// percent-encoded into the query string.
pub fn clawhub_search_url(query: &str, sort: &str) -> (r: String)
    ensures
        r@ == gateway_base_view() + "/clawhub/search?query="@ + percent_encode(query.spec_bytes())
            + "&sort="@ + percent_encode(sort.spec_bytes()),
{
    let mut url = gateway_base_url();
    url.append("/clawhub/search?query=");
    let enc_query = percent_encode_str(query);
    url.append(enc_query.as_str());
    url.append("&sort=");
    let enc_sort = percent_encode_str(sort);
    url.append(enc_sort.as_str());
    proof {
        assert(url@ =~= gateway_base_view() + "/clawhub/search?query="@ + percent_encode(
            query.spec_bytes(),
        ) + "&sort="@ + percent_encode(sort.spec_bytes()));
    }
    url
}

/// The page of official integrations the shell opens. A blank fragment is
/// ignored; anything else is trimmed, percent-encoded and appended behind
/// `#`.
pub fn official_integrations_url(fragment: Option<String>) -> (r: String)
    ensures
        match fragment {
            Some(v) => {
                if crate::text::all_ws(v@) {
                    r@ == "https://openclaw.ai/integrations"@
                } else {
                    r@ == "https://openclaw.ai/integrations#"@ + percent_encode(
                        vstd::utf8::encode_utf8(trim_seq(v@)),
                    )
                }
            },
            None => r@ == "https://openclaw.ai/integrations"@,
        },
{
    match fragment {
        Some(v) => {
            proof {
                crate::text::lemma_trim_empty_iff_all_ws(v@);
            }
            let trimmed = crate::text::str_trim(v.as_str());
            if trimmed.is_empty() {
                "https://openclaw.ai/integrations".to_owned()
            } else {
                let mut url = "https://openclaw.ai/integrations#".to_owned();
                let enc = percent_encode_str(trimmed);
                url.append(enc.as_str());
                url
            }
        },
        None => "https://openclaw.ai/integrations".to_owned(),
    }
}

} // verus!
