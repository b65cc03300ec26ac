//! Start-line parsing and response generation: the mapping from a raw
//! request, the server's name and the current availability flag to the
//! response content, the status line, and the updated flag.

use vstd::prelude::*;
use vstd::string::StringExecFns;
use crate::text::quote_debug;
use crate::text::quoted_of;
use crate::text::split_whitespace_tokens;
use crate::text::str_eq;
use crate::text::tokens_of;

verus! {

/// An error met while handling a request; `msg` is the text that a 500
/// response carries as its body.
#[derive(Debug)]
pub struct ServerError {
    pub msg: String,
}

/// The three tokens of a request's first line.
#[derive(Debug)]
pub struct HttpStartLine {
    pub action: String,
    pub target: String,
    pub version: String,
}

/// A response: its status line and its body.
#[derive(Debug)]
pub struct HttpResponse {
    pub status: String,
    pub content: String,
}

/// The message reported for a start line that does not split into three
/// tokens.
pub open spec fn invalid_start_line_msg(line: Seq<char>) -> Seq<char> {
    "Invalid HTTP start line: "@ + quoted_of(line) + "\n"@
}

/// The message reported for an empty request.
pub open spec fn empty_request_msg() -> Seq<char> {
    "Empty request, don't know what to do\n"@
}

/// The message reported for a target that is none of `/`, `/on`, `/off`.
pub open spec fn invalid_target_msg(target: Seq<char>) -> Seq<char> {
    "invalid target: "@ + target + "\n"@
}

/// The body announced for target `/`.
pub open spec fn root_body(name: Seq<char>) -> Seq<char> {
    "Hi there! I'm a server. My name is: "@ + name + "\n"@
}

/// The body announced for target `/on`.
pub open spec fn on_body(name: Seq<char>) -> Seq<char> {
    "Server spinning back up, beep-boop. Hi! My name is: "@ + name + "\n"@
}

/// The body announced for target `/off`.
pub open spec fn off_body() -> Seq<char> {
    "Server shutting down, BEEEeeep... spin back up with /on\n"@
}

/// The status line of a successful response.
pub open spec fn status_200() -> Seq<char> {
    "HTTP/1.1 200 OK"@
}

/// The status line of a failed response.
pub open spec fn status_500() -> Seq<char> {
    "HTTP/1.1 500 Error"@
}

/// Splits a request's first line on whitespace; exactly three tokens make a
/// start line, any other count is a parse failure carrying the quoted line.
pub fn parse_start_line(line: &str) -> (r: Result<HttpStartLine, ServerError>)
    ensures
        tokens_of(line@).len() == 3 ==> {
            &&& r is Ok
            &&& r->Ok_0.action@ == tokens_of(line@)[0]
            &&& r->Ok_0.target@ == tokens_of(line@)[1]
            &&& r->Ok_0.version@ == tokens_of(line@)[2]
        },
        tokens_of(line@).len() != 3 ==> {
            &&& r is Err
            &&& r->Err_0.msg@ == invalid_start_line_msg(line@)
        },
{
    let split_line = split_whitespace_tokens(line);
    if split_line.len() != 3 {
        let msg = String::from_str("Invalid HTTP start line: ").concat(
            quote_debug(line).as_str(),
        ).concat("\n");
        Err(ServerError { msg })
    } else {
        let action = split_line[0].clone();
        let target = split_line[1].clone();
        let version = split_line[2].clone();
        Ok(HttpStartLine { action, target, version })
    }
}

/// The content policy: the body or error message, and the updated
/// availability flag, decided by the request's target.
pub open spec fn content_spec(lines: Seq<Seq<char>>, name: Seq<char>, serve: bool) -> (Result<
    Seq<char>,
    Seq<char>,
>, bool) {
    if lines.len() == 0 {
        (Result::Err(empty_request_msg()), serve)
    } else if tokens_of(lines[0]).len() != 3 {
        (Result::Err(invalid_start_line_msg(lines[0])), serve)
    } else {
        let target = tokens_of(lines[0])[1];
        if target == "/"@ {
            (Result::Ok(root_body(name)), serve)
        } else if target == "/on"@ {
            (Result::Ok(on_body(name)), true)
        } else if target == "/off"@ {
            (Result::Ok(off_body()), false)
        } else {
            (Result::Err(invalid_target_msg(target)), serve)
        }
    }
}

/// The generated content stands for the specified one: same case, same
/// characters.
pub open spec fn content_matches(r: Result<String, ServerError>, m: Result<
    Seq<char>,
    Seq<char>,
>) -> bool {
    match r {
        Result::Ok(body) => m is Ok && body@ == m->Ok_0,
        Result::Err(e) => m is Err && e.msg@ == m->Err_0,
    }
}

/// Produces the response body (or the error message) and the updated
/// availability flag for one request, per the content policy: an empty
/// request and an unparsable start line are errors; `/` answers with the
/// server's name; `/on` and `/off` set the flag; any other target is an
/// error. Only `/on` and `/off` change the flag.
pub fn generate_content(http_request: &Vec<String>, server_name: &str, serve: bool) -> (r: (
    Result<String, ServerError>,
    bool,
))
    ensures
        content_matches(r.0, content_spec(http_request.deep_view(), server_name@, serve).0),
        r.1 == content_spec(http_request.deep_view(), server_name@, serve).1,
{
    if http_request.len() == 0 {
        (Err(ServerError { msg: String::from_str("Empty request, don't know what to do\n") }), serve)
    } else {
        let start_line = &http_request[0];
        proof {
            assert(http_request.deep_view()[0] == start_line@);
        }
        match parse_start_line(start_line.as_str()) {
            Ok(start_line) => {
                if str_eq(start_line.target.as_str(), "/") {
                    (
                        Ok(
                            String::from_str("Hi there! I'm a server. My name is: ").concat(
                                server_name,
                            ).concat("\n"),
                        ),
                        serve,
                    )
                } else if str_eq(start_line.target.as_str(), "/on") {
                    (
                        Ok(
                            String::from_str(
                                "Server spinning back up, beep-boop. Hi! My name is: ",
                            ).concat(server_name).concat("\n"),
                        ),
                        true,
                    )
                } else if str_eq(start_line.target.as_str(), "/off") {
                    (
                        Ok(String::from_str("Server shutting down, BEEEeeep... spin back up with /on\n")),
                        false,
                    )
                } else {
                    (
                        Err(
                            ServerError {
                                msg: String::from_str("invalid target: ").concat(
                                    start_line.target.as_str(),
                                ).concat("\n"),
                            },
                        ),
                        serve,
                    )
                }
            },
            Err(error) => (Err(error), serve),
        }
    }
}

/// The response for one request: status, body, and the updated flag. A
/// successful content is sent under `200 OK`; any error is sent under
/// `500 Error` with the error message as the body.
pub open spec fn response_spec(lines: Seq<Seq<char>>, name: Seq<char>, serve: bool) -> (
    (Seq<char>, Seq<char>),
    bool,
) {
    let cs = content_spec(lines, name, serve);
    (
        match cs.0 {
            Result::Ok(body) => (status_200(), body),
            Result::Err(m) => (status_500(), m),
        },
        cs.1,
    )
}

/// Wraps the content policy into a response: success becomes `200 OK`,
/// every error becomes `500 Error` carrying the error message as its body.
pub fn generate_response(http_request: &Vec<String>, server_name: &str, serve: bool) -> (r: (
    HttpResponse,
    bool,
))
    ensures
        r.0.status@ == response_spec(http_request.deep_view(), server_name@, serve).0.0,
        r.0.content@ == response_spec(http_request.deep_view(), server_name@, serve).0.1,
        r.1 == response_spec(http_request.deep_view(), server_name@, serve).1,
{
    match generate_content(http_request, server_name, serve) {
        (Ok(content), should_serve) => (
            HttpResponse { status: String::from_str("HTTP/1.1 200 OK"), content },
            should_serve,
        ),
        (Err(error), should_serve) => (
            HttpResponse { status: String::from_str("HTTP/1.1 500 Error"), content: error.msg },
            should_serve,
        ),
    }
}

} // verus!
