//! The per-connection dispatcher: the response to send, the updated
//! availability flag, and the gates that decide whether the response is
//! transmitted and whether the exchange is logged.

use vstd::prelude::*;
use crate::classify::RequestClass;
use crate::classify::categorize_request;
use crate::classify::classify;
use crate::classify::is_google_health_check;
use crate::classify::is_google_uptime_check;
use crate::classify::is_health_line;
use crate::classify::is_uptime_line;
use crate::content::HttpResponse;
use crate::content::generate_response;
use crate::content::response_spec;

verus! {

/// Everything one connection needs after its request was read: the
/// response, the updated availability flag, and the two gate decisions.
pub struct DispatchOutcome {
    pub response: HttpResponse,
    pub new_serving: bool,
    pub transmit: bool,
    pub log: bool,
}

/// Some line of the request announces a health or an uptime prober.
pub open spec fn has_probe_line(lines: Seq<Seq<char>>) -> bool {
    exists|i: int| 0 <= i < lines.len() && (is_health_line(lines[i]) || is_uptime_line(lines[i]))
}

/// The transmission gate: an uptime check is answered only while the
/// updated flag says the server is serving; every other caller is always
/// answered.
pub open spec fn transmit_spec(lines: Seq<Seq<char>>, new_serving: bool) -> bool {
    if classify(lines) is UptimeCheck {
        new_serving
    } else {
        true
    }
}

/// The logging gate: only non-empty requests with no probe line are
/// logged.
pub open spec fn log_spec(lines: Seq<Seq<char>>) -> bool {
    lines.len() > 0 && !has_probe_line(lines)
}

/// Whether the request passes the logging gate: it is non-empty and no
/// line of it announces a prober.
pub fn request_is_loggable(http_request: &Vec<String>) -> (r: bool)
    ensures
        r == log_spec(http_request.deep_view()),
{
    let ghost lines = http_request.deep_view();
    if http_request.len() == 0 {
        return false;
    }
    let mut i: usize = 0;
    while i < http_request.len()
        invariant
            lines == http_request.deep_view(),
            i <= lines.len(),
            forall|k: int| 0 <= k < i ==> !is_health_line(lines[k]) && !is_uptime_line(lines[k]),
        decreases lines.len() - i,
    {
        let line = &http_request[i];
        proof {
            assert(lines[i as int] == line@);
        }
        if is_google_health_check(line.as_str()) || is_google_uptime_check(line.as_str()) {
            assert(has_probe_line(lines));
            return false;
        }
        i += 1;
    }
    assert(!has_probe_line(lines));
    true
}

/// Handles one request: computes the response and the updated flag, then
/// the transmission gate from the caller's class, and the logging gate.
/// Only `/on` and `/off` targets change the flag; the response itself is
/// computed the same way for every caller class.
pub fn dispatch(http_request: &Vec<String>, server_name: &str, serve: bool) -> (r: DispatchOutcome)
    ensures
        r.response.status@ == response_spec(http_request.deep_view(), server_name@, serve).0.0,
        r.response.content@ == response_spec(http_request.deep_view(), server_name@, serve).0.1,
        r.new_serving == response_spec(http_request.deep_view(), server_name@, serve).1,
        r.transmit == transmit_spec(http_request.deep_view(), r.new_serving),
        r.log == log_spec(http_request.deep_view()),
{
    let (response, should_serve_uptime_check) = generate_response(http_request, server_name, serve);
    let transmit = match categorize_request(http_request) {
        RequestClass::UptimeCheck => should_serve_uptime_check,
        _ => true,
    };
    let log = request_is_loggable(http_request);
    DispatchOutcome { response, new_serving: should_serve_uptime_check, transmit, log }
}

} // verus!
