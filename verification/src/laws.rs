//! Properties of the responder, stated once over all inputs and proved.

use vstd::prelude::*;
use crate::classify::classify;
use crate::classify::is_health_line;
use crate::classify::is_uptime_line;
use crate::content::empty_request_msg;
use crate::content::invalid_start_line_msg;
use crate::content::invalid_target_msg;
use crate::content::on_body;
use crate::content::response_spec;
use crate::content::root_body;
use crate::content::status_200;
use crate::content::status_500;
use crate::dispatch::has_probe_line;
use crate::dispatch::log_spec;
use crate::dispatch::transmit_spec;
use crate::text::tokens_of;

verus! {

/// A non-empty request whose start line has three tokens and target `/` is
/// answered `200 OK` with the greeting, and leaves the flag unchanged.
pub proof fn lemma_root_request(lines: Seq<Seq<char>>, name: Seq<char>, serve: bool)
    requires
        lines.len() > 0,
        tokens_of(lines[0]).len() == 3,
        tokens_of(lines[0])[1] == "/"@,
    ensures
        response_spec(lines, name, serve).0.0 == status_200(),
        response_spec(lines, name, serve).0.1 == root_body(name),
        response_spec(lines, name, serve).1 == serve,
{
}

/// A request for `/on` leaves the flag on, whatever it was before.
pub proof fn lemma_on_forces_serving(lines: Seq<Seq<char>>, name: Seq<char>, serve: bool)
    requires
        lines.len() > 0,
        tokens_of(lines[0]).len() == 3,
        tokens_of(lines[0])[1] == "/on"@,
    ensures
        response_spec(lines, name, serve).0.0 == status_200(),
        response_spec(lines, name, serve).0.1 == on_body(name),
        response_spec(lines, name, serve).1 == true,
{
    reveal_strlit("/");
    reveal_strlit("/on");
    assert("/"@.len() == 1);
    assert("/on"@.len() == 3);
}

/// A request for `/off` leaves the flag off, whatever it was before.
pub proof fn lemma_off_forces_not_serving(lines: Seq<Seq<char>>, name: Seq<char>, serve: bool)
    requires
        lines.len() > 0,
        tokens_of(lines[0]).len() == 3,
        tokens_of(lines[0])[1] == "/off"@,
    ensures
        response_spec(lines, name, serve).0.0 == status_200(),
        response_spec(lines, name, serve).1 == false,
{
    reveal_strlit("/");
    reveal_strlit("/on");
    reveal_strlit("/off");
    assert("/"@.len() == 1);
    assert("/on"@.len() == 3);
    assert("/off"@.len() == 4);
}

/// A target that is none of `/`, `/on`, `/off` is answered `500 Error`
/// carrying the target in the error text, and leaves the flag unchanged.
pub proof fn lemma_unknown_target(lines: Seq<Seq<char>>, name: Seq<char>, serve: bool)
    requires
        lines.len() > 0,
        tokens_of(lines[0]).len() == 3,
        tokens_of(lines[0])[1] != "/"@,
        tokens_of(lines[0])[1] != "/on"@,
        tokens_of(lines[0])[1] != "/off"@,
    ensures
        response_spec(lines, name, serve).0.0 == status_500(),
        response_spec(lines, name, serve).0.1 == invalid_target_msg(tokens_of(lines[0])[1]),
        response_spec(lines, name, serve).1 == serve,
{
}

/// An empty request is answered `500 Error` with the empty-request text,
/// and leaves the flag unchanged.
pub proof fn lemma_empty_request(name: Seq<char>, serve: bool)
    ensures
        response_spec(Seq::empty(), name, serve).0.0 == status_500(),
        response_spec(Seq::empty(), name, serve).0.1 == empty_request_msg(),
        response_spec(Seq::empty(), name, serve).1 == serve,
{
}

/// A start line that does not split into three tokens is answered
/// `500 Error` carrying the quoted line, and leaves the flag unchanged.
pub proof fn lemma_malformed_start_line(lines: Seq<Seq<char>>, name: Seq<char>, serve: bool)
    requires
        lines.len() > 0,
        tokens_of(lines[0]).len() != 3,
    ensures
        response_spec(lines, name, serve).0.0 == status_500(),
        response_spec(lines, name, serve).0.1 == invalid_start_line_msg(lines[0]),
        response_spec(lines, name, serve).1 == serve,
{
}

/// Every caller class but the uptime check is always transmitted.
pub proof fn lemma_non_uptime_always_transmitted(lines: Seq<Seq<char>>, new_serving: bool)
    requires
        !(classify(lines) is UptimeCheck),
    ensures
        transmit_spec(lines, new_serving),
{
}

/// An uptime check is transmitted exactly while the updated flag is on.
pub proof fn lemma_uptime_gate(lines: Seq<Seq<char>>, new_serving: bool)
    requires
        classify(lines) is UptimeCheck,
    ensures
        transmit_spec(lines, new_serving) == new_serving,
{
}

/// A request is classified `Ordinary` exactly when none of its lines is a
/// health or an uptime signal.
pub proof fn lemma_ordinary_iff_no_probe(lines: Seq<Seq<char>>)
    ensures
        (classify(lines) is Ordinary) <==> !has_probe_line(lines),
    decreases lines.len(),
{
    if lines.len() == 0 {
        assert(!has_probe_line(lines));
    } else if is_health_line(lines[0]) || is_uptime_line(lines[0]) {
        assert(has_probe_line(lines));
    } else {
        lemma_ordinary_iff_no_probe(lines.drop_first());
        if has_probe_line(lines) {
            let i = choose|i: int|
                0 <= i < lines.len() && (is_health_line(lines[i]) || is_uptime_line(lines[i]));
            assert(i > 0);
            assert(lines.drop_first()[i - 1] == lines[i]);
            assert(has_probe_line(lines.drop_first()));
        }
        if has_probe_line(lines.drop_first()) {
            let i = choose|i: int|
                0 <= i < lines.drop_first().len() && (is_health_line(lines.drop_first()[i])
                    || is_uptime_line(lines.drop_first()[i]));
            assert(lines[i + 1] == lines.drop_first()[i]);
            assert(has_probe_line(lines));
        }
    }
}

/// A request with a probe line anywhere is never logged.
pub proof fn lemma_probe_line_never_logged(lines: Seq<Seq<char>>, i: int)
    requires
        0 <= i < lines.len(),
        is_health_line(lines[i]) || is_uptime_line(lines[i]),
    ensures
        !log_spec(lines),
{
    assert(has_probe_line(lines));
}

/// A request classified as a health or an uptime check is never logged.
pub proof fn lemma_probed_class_never_logged(lines: Seq<Seq<char>>)
    requires
        !(classify(lines) is Ordinary),
    ensures
        !log_spec(lines),
{
    lemma_ordinary_iff_no_probe(lines);
}

/// Classification is pure: it reads the request's lines alone, so two
/// requests with equal lines carry the equal class, whatever the
/// availability flag or the server's name at either call.
pub proof fn lemma_classification_deterministic(a: Seq<Seq<char>>, b: Seq<Seq<char>>)
    requires
        a == b,
    ensures
        classify(a) == classify(b),
{
}

/// Every response body is non-empty text ending in a newline.
pub proof fn lemma_body_newline_terminated(lines: Seq<Seq<char>>, name: Seq<char>, serve: bool)
    ensures
        response_spec(lines, name, serve).0.1.len() > 0,
        response_spec(lines, name, serve).0.1.last() == '\n',
{
    reveal_strlit("\n");
    reveal_strlit("Empty request, don't know what to do\n");
    reveal_strlit("Server shutting down, BEEEeeep... spin back up with /on\n");
    assert("\n"@.len() == 1);
    assert("Empty request, don't know what to do\n"@.len() == 37);
    assert("Server shutting down, BEEEeeep... spin back up with /on\n"@.len() == 56);
}

} // verus!
