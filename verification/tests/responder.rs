use toggle_server::classify::RequestClass;
use toggle_server::classify::categorize_request;
use toggle_server::classify::is_google_health_check;
use toggle_server::classify::is_google_uptime_check;
use toggle_server::content::HttpResponse;
use toggle_server::content::generate_content;
use toggle_server::content::generate_response;
use toggle_server::content::parse_start_line;
use toggle_server::dispatch::dispatch;
use toggle_server::log::render_request_log;
use toggle_server::log::render_response_log;
use toggle_server::log::request_log_block;
use toggle_server::options::resolve_options;
use toggle_server::render::render_response;
use toggle_server::render::usize_to_string;

fn lines(raw: &[&str]) -> Vec<String> {
    raw.iter().map(|s| s.to_string()).collect()
}

#[test]
fn root_request_replies_greeting() {
    for serve in [true, false] {
        let req = lines(&["GET / HTTP/1.1"]);
        let (response, new_serve) = generate_response(&req, "Steve", serve);
        assert_eq!(response.status, "HTTP/1.1 200 OK");
        assert_eq!(response.content, "Hi there! I'm a server. My name is: Steve\n");
        assert_eq!(new_serve, serve);
    }
}

#[test]
fn on_request_forces_serving() {
    for serve in [true, false] {
        let req = lines(&["GET /on HTTP/1.1"]);
        let (response, new_serve) = generate_response(&req, "Steve", serve);
        assert_eq!(response.status, "HTTP/1.1 200 OK");
        assert_eq!(
            response.content,
            "Server spinning back up, beep-boop. Hi! My name is: Steve\n"
        );
        assert!(new_serve);
    }
}

#[test]
fn off_request_forces_not_serving() {
    for serve in [true, false] {
        let req = lines(&["GET /off HTTP/1.1"]);
        let (response, new_serve) = generate_response(&req, "Steve", serve);
        assert_eq!(response.status, "HTTP/1.1 200 OK");
        assert_eq!(
            response.content,
            "Server shutting down, BEEEeeep... spin back up with /on\n"
        );
        assert!(!new_serve);
    }
}

#[test]
fn unknown_target_is_an_error() {
    let req = lines(&["GET /nope HTTP/1.1"]);
    let (response, new_serve) = generate_response(&req, "Steve", true);
    assert_eq!(response.status, "HTTP/1.1 500 Error");
    assert_eq!(response.content, "invalid target: /nope\n");
    assert!(new_serve);
}

#[test]
fn empty_request_is_an_error() {
    let req: Vec<String> = Vec::new();
    let (response, new_serve) = generate_response(&req, "Steve", true);
    assert_eq!(response.status, "HTTP/1.1 500 Error");
    assert_eq!(response.content, "Empty request, don't know what to do\n");
    assert!(new_serve);
    let (response, new_serve) = generate_response(&req, "Steve", false);
    assert_eq!(response.status, "HTTP/1.1 500 Error");
    assert!(!new_serve);
}

#[test]
fn malformed_start_line_is_an_error() {
    let req = lines(&["GET /"]);
    let (response, new_serve) = generate_response(&req, "Steve", true);
    assert_eq!(response.status, "HTTP/1.1 500 Error");
    assert_eq!(response.content, "Invalid HTTP start line: \"GET /\"\n");
    assert!(new_serve);
}

#[test]
fn four_token_start_line_is_an_error() {
    let req = lines(&["GET / HTTP/1.1 extra"]);
    let (response, _) = generate_response(&req, "Steve", true);
    assert_eq!(response.status, "HTTP/1.1 500 Error");
    assert_eq!(
        response.content,
        "Invalid HTTP start line: \"GET / HTTP/1.1 extra\"\n"
    );
}

#[test]
fn generate_content_success_and_errors() {
    let (content, serve) = generate_content(&lines(&["GET / HTTP/1.1"]), "n", false);
    assert_eq!(content.unwrap(), "Hi there! I'm a server. My name is: n\n");
    assert!(!serve);
    let (content, serve) = generate_content(&Vec::new(), "n", false);
    assert_eq!(content.unwrap_err().msg, "Empty request, don't know what to do\n");
    assert!(!serve);
    let (content, serve) = generate_content(&lines(&["GET /x HTTP/1.1"]), "n", true);
    assert_eq!(content.unwrap_err().msg, "invalid target: /x\n");
    assert!(serve);
}

#[test]
fn tab_separated_start_line_parses() {
    let start = parse_start_line("GET\t/on\tHTTP/1.1").unwrap();
    assert_eq!(start.action, "GET");
    assert_eq!(start.target, "/on");
    assert_eq!(start.version, "HTTP/1.1");
}

#[test]
fn start_line_with_extra_spaces_parses() {
    let start = parse_start_line("  GET   /   HTTP/1.1  ").unwrap();
    assert_eq!(start.action, "GET");
    assert_eq!(start.target, "/");
    assert_eq!(start.version, "HTTP/1.1");
}

#[test]
fn start_line_with_wrong_token_count_fails() {
    let err = parse_start_line("GET").unwrap_err();
    assert_eq!(err.msg, "Invalid HTTP start line: \"GET\"\n");
    let err = parse_start_line("").unwrap_err();
    assert_eq!(err.msg, "Invalid HTTP start line: \"\"\n");
}

#[test]
fn health_check_is_classified_case_insensitively() {
    assert!(is_google_health_check("User-Agent: GoogleHC/1.0"));
    assert!(is_google_health_check("user-AGENT: gOoGleHC"));
    assert!(!is_google_health_check("X-User-Agent: GoogleHC"));
    assert!(!is_google_health_check("GoogleHC"));
    assert!(!is_google_health_check("User-Agent: Mozilla"));
}

#[test]
fn uptime_check_is_classified_case_insensitively() {
    assert!(is_google_uptime_check("User-Agent: UptimeChecks/2.0"));
    assert!(is_google_uptime_check("USER-AGENT: uptimechecks"));
    assert!(!is_google_uptime_check("User-Agent: GoogleHC/1.0"));
}

#[test]
fn first_matching_line_wins() {
    let req = lines(&[
        "GET / HTTP/1.1",
        "User-Agent: UptimeChecks/2.0",
        "User-Agent: GoogleHC/1.0",
    ]);
    assert_eq!(categorize_request(&req), RequestClass::UptimeCheck);
    let req = lines(&["GET / HTTP/1.1", "User-Agent: GoogleHC UptimeChecks"]);
    assert_eq!(categorize_request(&req), RequestClass::HealthCheck);
}

#[test]
fn plain_request_is_ordinary() {
    assert_eq!(categorize_request(&lines(&["GET / HTTP/1.1"])), RequestClass::Ordinary);
    assert_eq!(categorize_request(&Vec::new()), RequestClass::Ordinary);
}

#[test]
fn health_check_always_transmitted_never_logged() {
    for serve in [true, false] {
        let req = lines(&["GET / HTTP/1.1", "User-Agent: GoogleHC/1.0"]);
        let outcome = dispatch(&req, "Steve", serve);
        assert!(outcome.transmit);
        assert!(!outcome.log);
        assert_eq!(outcome.new_serving, serve);
    }
}

#[test]
fn uptime_check_suppressed_while_off() {
    let req = lines(&["GET / HTTP/1.1", "User-Agent: UptimeChecks/2.0"]);
    let outcome = dispatch(&req, "Steve", false);
    assert_eq!(categorize_request(&req), RequestClass::UptimeCheck);
    assert!(!outcome.transmit);
    assert!(!outcome.new_serving);
    assert!(!outcome.log);
    assert_eq!(outcome.response.status, "HTTP/1.1 200 OK");
}

#[test]
fn uptime_check_transmitted_while_on() {
    let req = lines(&["GET / HTTP/1.1", "User-Agent: UptimeChecks/2.0"]);
    let outcome = dispatch(&req, "Steve", true);
    assert!(outcome.transmit);
    assert!(outcome.new_serving);
    assert!(!outcome.log);
}

#[test]
fn uptime_check_transmitted_when_turning_on() {
    let req = lines(&["GET /on HTTP/1.1", "User-Agent: UptimeChecks/2.0"]);
    let outcome = dispatch(&req, "Steve", false);
    assert!(outcome.new_serving);
    assert!(outcome.transmit);
}

#[test]
fn ordinary_request_is_logged() {
    let outcome = dispatch(&lines(&["GET / HTTP/1.1", "Host: x"]), "Steve", true);
    assert!(outcome.log);
    assert!(outcome.transmit);
}

#[test]
fn empty_request_is_not_logged() {
    let outcome = dispatch(&Vec::new(), "Steve", true);
    assert!(!outcome.log);
    assert!(outcome.transmit);
    assert_eq!(outcome.response.status, "HTTP/1.1 500 Error");
}

#[test]
fn classification_is_deterministic() {
    let req = lines(&["GET /off HTTP/1.1", "User-Agent: UptimeChecks/2.0"]);
    let first = categorize_request(&req);
    let mut serve = true;
    for _ in 0..3 {
        let outcome = dispatch(&req, "Steve", serve);
        serve = outcome.new_serving;
        assert_eq!(categorize_request(&req), first);
    }
    assert_eq!(first, RequestClass::UptimeCheck);
}

#[test]
fn serving_state_threads_across_requests() {
    let name = "Steve";
    let mut serve = true;
    serve = dispatch(&lines(&["GET /off HTTP/1.1"]), name, serve).new_serving;
    assert!(!serve);
    serve = dispatch(&lines(&["GET / HTTP/1.1"]), name, serve).new_serving;
    assert!(!serve);
    serve = dispatch(&lines(&["GET /nope HTTP/1.1"]), name, serve).new_serving;
    assert!(!serve);
    serve = dispatch(&lines(&["GET /on HTTP/1.1"]), name, serve).new_serving;
    assert!(serve);
    serve = dispatch(&lines(&["GET /on HTTP/1.1"]), name, serve).new_serving;
    assert!(serve);
}

#[test]
fn wire_format_is_exact() {
    let response = HttpResponse {
        status: "HTTP/1.1 200 OK".to_string(),
        content: "hello\n".to_string(),
    };
    assert_eq!(
        render_response(&response),
        "HTTP/1.1 200 OK\r\nContent-Length: 6\r\n\r\nhello\n"
    );
}

#[test]
fn wire_content_length_counts_bytes() {
    let response = HttpResponse {
        status: "HTTP/1.1 200 OK".to_string(),
        content: "h\u{e9}llo\n".to_string(),
    };
    assert_eq!(
        render_response(&response),
        "HTTP/1.1 200 OK\r\nContent-Length: 7\r\n\r\nh\u{e9}llo\n"
    );
}

#[test]
fn decimal_rendering_is_exact() {
    assert_eq!(usize_to_string(0), "0");
    assert_eq!(usize_to_string(7), "7");
    assert_eq!(usize_to_string(10), "10");
    assert_eq!(usize_to_string(42), "42");
    assert_eq!(usize_to_string(10000), "10000");
    assert_eq!(usize_to_string(usize::MAX), usize::MAX.to_string());
}

#[test]
fn request_log_lists_indented_lines() {
    let req = lines(&["GET / HTTP/1.1", "Host: x"]);
    assert_eq!(
        render_request_log("now", &req),
        "Request received at now\n  GET / HTTP/1.1\n  Host: x"
    );
    assert_eq!(render_request_log("now", &Vec::new()), "Request received at now\n");
}

#[test]
fn response_log_summarizes_response() {
    let response = HttpResponse {
        status: "HTTP/1.1 200 OK".to_string(),
        content: "hello\n".to_string(),
    };
    assert_eq!(
        render_response_log(&response),
        "Response sent:\n  HTTP/1.1 200 OK\n  Content-Length: 6\n  hello\n"
    );
}

#[test]
fn request_log_block_is_stamped() {
    let req = lines(&["GET / HTTP/1.1"]);
    let block = request_log_block(&req);
    assert!(block.starts_with("Request received at "));
    assert!(block.ends_with("\n  GET / HTTP/1.1"));
    assert!(block.len() > "Request received at \n  GET / HTTP/1.1".len());
}

#[test]
fn options_resolve_with_defaults() {
    let opts = resolve_options(
        Some("Steve".to_string()),
        None,
        Some("8080".to_string()),
    )
    .unwrap();
    assert_eq!(opts.server_name, "Steve");
    assert_eq!(opts.address, "127.0.0.1");
    assert_eq!(opts.port, "8080");
    let opts = resolve_options(
        Some("s".to_string()),
        Some("0.0.0.0".to_string()),
        Some("80".to_string()),
    )
    .unwrap();
    assert_eq!(opts.address, "0.0.0.0");
}

#[test]
fn options_require_name_and_port() {
    let err = resolve_options(None, None, Some("80".to_string())).unwrap_err();
    assert_eq!(err.msg, "Error parsing SERVER_NAME flag");
    let err = resolve_options(Some("s".to_string()), None, None).unwrap_err();
    assert_eq!(err.msg, "Error parsing PORT flag");
    let err = resolve_options(None, None, None).unwrap_err();
    assert_eq!(err.msg, "Error parsing SERVER_NAME flag");
}
