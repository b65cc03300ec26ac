//! Request classification: a request is attributed to a health-check
//! prober, an uptime-check prober, or an ordinary caller, from the
//! `User-Agent` content of its lines.

use vstd::prelude::*;
use crate::text::has_prefix;
use crate::text::has_substring;
use crate::text::lower_of;
use crate::text::str_contains;
use crate::text::str_has_prefix;
use crate::text::to_lower;

verus! {

/// How a request's sender is classified, from its `User-Agent` lines.
#[derive(Clone, Copy, PartialEq, Eq, Structural, Debug)]
pub enum RequestClass {
    Ordinary,
    HealthCheck,
    UptimeCheck,
}

/// The line, lower-cased, starts with `user-agent:` and mentions `googlehc`.
pub open spec fn is_health_line(l: Seq<char>) -> bool {
    has_prefix(lower_of(l), "user-agent:"@) && has_substring(lower_of(l), "googlehc"@)
}

/// The line, lower-cased, starts with `user-agent:` and mentions
/// `uptimechecks`.
pub open spec fn is_uptime_line(l: Seq<char>) -> bool {
    has_prefix(lower_of(l), "user-agent:"@) && has_substring(lower_of(l), "uptimechecks"@)
}

/// The class of a request: the first line that is a health or an uptime
/// signal decides (a health signal checked first on each line); with no such
/// line the caller is ordinary.
pub open spec fn classify(lines: Seq<Seq<char>>) -> RequestClass
    decreases lines.len(),
{
    if lines.len() == 0 {
        RequestClass::Ordinary
    } else if is_health_line(lines[0]) {
        RequestClass::HealthCheck
    } else if is_uptime_line(lines[0]) {
        RequestClass::UptimeCheck
    } else {
        classify(lines.drop_first())
    }
}

/// Whether the line announces a Google health-check prober.
pub fn is_google_health_check(data: &str) -> (r: bool)
    ensures
        r == is_health_line(data@),
{
    let lower = to_lower(data);
    str_has_prefix(lower.as_str(), "user-agent:") && str_contains(lower.as_str(), "googlehc")
}

/// Whether the line announces an uptime-check prober.
pub fn is_google_uptime_check(data: &str) -> (r: bool)
    ensures
        r == is_uptime_line(data@),
{
    let lower = to_lower(data);
    str_has_prefix(lower.as_str(), "user-agent:") && str_contains(lower.as_str(), "uptimechecks")
}

/// Scans the request's lines in order and returns the class of the first
/// line that is a health or an uptime signal, or `Ordinary` with no such
/// line.
pub fn categorize_request(http_request: &Vec<String>) -> (r: RequestClass)
    ensures
        r == classify(http_request.deep_view()),
{
    let ghost lines = http_request.deep_view();
    let mut i: usize = 0;
    proof {
        assert(lines.skip(0) =~= lines);
    }
    while i < http_request.len()
        invariant
            lines == http_request.deep_view(),
            i <= lines.len(),
            classify(lines) == classify(lines.skip(i as int)),
        decreases lines.len() - i,
    {
        let line = &http_request[i];
        proof {
            assert(lines.skip(i as int)[0] == line@);
        }
        if is_google_health_check(line.as_str()) {
            return RequestClass::HealthCheck;
        }
        if is_google_uptime_check(line.as_str()) {
            return RequestClass::UptimeCheck;
        }
        proof {
            assert(lines.skip(i as int).drop_first() =~= lines.skip(i as int + 1));
        }
        i += 1;
    }
    proof {
        assert(lines.skip(i as int).len() == 0);
    }
    RequestClass::Ordinary
}

} // verus!
