//! The decisions of an HTTP check: which URL to request for a target, and
//! how a response (or the failure to get one) reads as a status line.

use crate::models::HttpResult;
use crate::text::{decimal, decimal_string};
use vstd::prelude::*;

verus! {

/// How long a request may take before it fails, in seconds.
pub const HTTP_TIMEOUT_SECS: u64 = 10;

/// The reason phrase that the `http` crate's table of status codes gives for
/// `code`, if it has one.
pub uninterp spec fn canonical_reason_phrase(code: u16) -> Option<Seq<char>>;

/// Calls `StatusCode::canonical_reason` (the `http` crate's status code, as
/// `reqwest` exports it) on the status with number `code`.
///
/// The result is the registered reason phrase of `code`, named
/// `canonical_reason_phrase`; numbers outside 100..=999 are no status code
/// and have none.
#[verifier::external_body]
fn canonical_reason(code: u16) -> (r: Option<&'static str>)
    ensures
        r matches Some(s) ==> canonical_reason_phrase(code) == Some(s@),
        r is None ==> canonical_reason_phrase(code) is None,
        (code < 100 || code > 999) ==> r is None,
{
    match reqwest::StatusCode::from_u16(code) {
        Ok(status) => status.canonical_reason(),
        Err(_) => None,
    }
}

/// The status line of a response with status `code` and reason phrase
/// `reason`: the code in decimal, a space, and the phrase ("Unknown" when
/// there is none).
pub open spec fn status_line_of(code: u16, reason: Option<Seq<char>>) -> Seq<char> {
    decimal(code as nat) + " "@ + match reason {
        Some(r) => r,
        None => "Unknown"@,
    }
}

/// The URL requested for `target`: the target itself when it names the
/// `http` or `https` scheme, else the target over `https`.
pub open spec fn request_url(target: Seq<char>) -> Seq<char> {
    if "http://"@.is_prefix_of(target) || "https://"@.is_prefix_of(target) {
        target
    } else {
        "https://"@ + target
    }
}

/// The text reported for a request that got no response.
pub open spec fn error_line(message: Seq<char>) -> Seq<char> {
    "Error: "@ + message
}

/// The status line of a response with status `code` and reason phrase
/// `reason`.
pub fn status_line(code: u16, reason: Option<&str>) -> (r: String)
    ensures
        r@ == status_line_of(code, match reason {
            Some(s) => Some(s@),
            None => None,
        }),
{
    let mut r = decimal_string(code as u64);
    r.append(" ");
    match reason {
        Some(s) => r.append(s),
        None => r.append("Unknown"),
    }
    r
}

/// The status line of a response with status `code`, with the registered
/// reason phrase of the code.
pub fn http_status_text(code: u16) -> (r: String)
    ensures
        r@ == status_line_of(code, canonical_reason_phrase(code)),
{
    let reason = canonical_reason(code);
    status_line(code, reason)
}

/// The URL to request for `target`.
pub fn request_url_for(target: &str) -> (r: String)
    ensures
        r@ == request_url(target@),
{
    if crate::text::has_prefix(target, "http://") || crate::text::has_prefix(target, "https://") {
        target.to_owned()
    } else {
        let mut r = "https://".to_owned();
        r.append(target);
        r
    }
}

/// The result of requesting `url`: `response` is the status code that came
/// back, or the text of the error that stopped the request; `ttfb_ms` is the
/// time to the first byte of the answer.
pub fn http_result(url: String, response: Result<u16, String>, ttfb_ms: u64) -> (r: HttpResult)
    ensures
        r.url == url,
        r.ttfb_ms == ttfb_ms,
        match response {
            Ok(code) => r.status_code == Some(code) && r.status_text@ == status_line_of(
                code,
                canonical_reason_phrase(code),
            ),
            Err(e) => r.status_code is None && r.status_text@ == error_line(e@),
        },
{
    match response {
        Ok(code) => HttpResult {
            url,
            status_code: Some(code),
            status_text: http_status_text(code),
            ttfb_ms,
        },
        Err(e) => {
            let mut text = "Error: ".to_owned();
            text.append(e.as_str());
            HttpResult { url, status_code: None, status_text: text, ttfb_ms }
        },
    }
}

/// Requesting the URL of a target again asks for the same URL, and that URL
/// always names the `http` or `https` scheme.
pub proof fn lemma_request_url_idempotent(target: Seq<char>)
    ensures
        request_url(request_url(target)) == request_url(target),
        "http://"@.is_prefix_of(request_url(target)) || "https://"@.is_prefix_of(
            request_url(target),
        ),
        ("http://"@.is_prefix_of(target) || "https://"@.is_prefix_of(target)) ==> request_url(
            target,
        ) == target,
        request_url(target).len() >= target.len(),
        request_url(target).subrange(
            request_url(target).len() - target.len(),
            request_url(target).len() as int,
        ) == target,
{
    let https = "https://"@;
    assert((https + target).subrange(0, https.len() as int) =~= https);
    assert((https + target).subrange(https.len() as int, (https + target).len() as int) =~= target);
    assert(target.subrange(0, target.len() as int) =~= target);
}

/// A status line reads the status code in decimal, one space, then the
/// reason phrase, or "Unknown" when there is none; so the code can be read
/// back from the line. A request that got no response reports "Error: " and
/// the error's text.
pub proof fn lemma_status_line(code: u16, reason: Option<Seq<char>>, message: Seq<char>)
    ensures
        status_line_of(code, reason) == decimal(code as nat) + seq![' '] + match reason {
            Some(r) => r,
            None => seq!['U', 'n', 'k', 'n', 'o', 'w', 'n'],
        },
        crate::text::digits_value(status_line_of(code, reason).take(decimal(code as nat).len() as int))
            == code,
        error_line(message) == seq!['E', 'r', 'r', 'o', 'r', ':', ' '] + message,
{
    reveal_strlit(" ");
    reveal_strlit("Unknown");
    reveal_strlit("Error: ");
    crate::text::lemma_decimal(code as nat);
    let d = decimal(code as nat);
    assert(status_line_of(code, reason).take(d.len() as int) =~= d);
    assert(" "@ =~= seq![' ']);
    assert("Unknown"@ =~= seq!['U', 'n', 'k', 'n', 'o', 'w', 'n']);
    assert("Error: "@ =~= seq!['E', 'r', 'r', 'o', 'r', ':', ' ']);
}

} // verus!
