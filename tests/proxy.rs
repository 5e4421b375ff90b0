use s3_proxy::config::{select_trust_policy, TrustPolicy, HEALTH_PATH, MAX_RETRIES};
use s3_proxy::forward::{is_valid_s3_request, prepare_forward, ForwardError, IncomingRequest};
use s3_proxy::headers::{forwarded_headers, is_host_header, Header};
use s3_proxy::retry::{backoff_delay_ms, draw_backoff_ms, Next, Outcome, RetryMachine};
use s3_proxy::router::{internal_error_reply, route, Route};
use s3_proxy::shutdown::ShutdownCoordinator;
use s3_proxy::uri::{ConfigError, UpstreamBase, UriError};

fn store_base() -> UpstreamBase {
    UpstreamBase::new(Some("https".to_string()), Some("store.example:443".to_string())).unwrap()
}

fn header(name: &str, value: &str) -> Header {
    Header { name: name.to_string(), value: value.as_bytes().to_vec() }
}

fn request(path: &str, query: Option<&str>, body: &[u8]) -> IncomingRequest {
    IncomingRequest {
        method: "PUT".to_string(),
        path: path.to_string(),
        query: query.map(|q| q.to_string()),
        headers: vec![header("Host", "proxy.local"), header("content-type", "text/plain")],
        body: body.to_vec(),
    }
}

fn respond(route: Route) -> (u16, String) {
    match route {
        Route::Respond(r) => (r.status, r.body),
        Route::Forward => panic!("expected a reply"),
    }
}

#[test]
fn health_check_while_running() {
    assert_eq!(respond(route(false, "/healthz")), (200, "OK".to_string()));
    assert_eq!(HEALTH_PATH, "/healthz");
}

#[test]
fn draining_rejects_every_path() {
    for path in ["/healthz", "/bucket/key", "/", ""] {
        let (status, body) = respond(route(true, path));
        assert_eq!(status, 503);
        assert_eq!(body, "Server is shutting down");
    }
}

#[test]
fn other_paths_are_forwarded() {
    assert!(matches!(route(false, "/bucket/key"), Route::Forward));
    assert!(matches!(route(false, "/healthz/"), Route::Forward));
    assert!(matches!(route(false, "/HEALTHZ"), Route::Forward));
}

#[test]
fn uri_builder_joins_base_path_and_query() {
    let base = store_base();
    assert_eq!(
        base.construct_uri("/bucket/key", Some("x=1")),
        Ok("https://store.example:443/bucket/key?x=1".to_string())
    );
    assert_eq!(
        base.forwarded_uri_text("/bucket/key", None),
        "https://store.example:443/bucket/key"
    );
}

#[test]
fn uri_builder_rejects_invalid_text() {
    let base = store_base();
    assert_eq!(base.construct_uri("/a b", None), Err(UriError::UriConstruction));
    assert_eq!(base.construct_uri("/k", Some("a\"b")), Err(UriError::UriConstruction));
}

#[test]
fn upstream_base_needs_scheme_and_authority() {
    assert!(matches!(
        UpstreamBase::new(None, Some("store.example".to_string())),
        Err(ConfigError::MissingScheme)
    ));
    assert!(matches!(
        UpstreamBase::new(Some("https".to_string()), None),
        Err(ConfigError::MissingAuthority)
    ));
    let base = store_base();
    assert_eq!(base.scheme, "https");
    assert_eq!(base.authority, "store.example:443");
}

#[test]
fn host_header_is_stripped_in_any_case() {
    let headers = vec![
        header("host", "a"),
        header("x-amz-date", "today"),
        header("Host", "b"),
        header("HOST", "c"),
        header("hOsT", "d"),
        header("hosts", "e"),
        header("content-length", "3"),
    ];
    let out = forwarded_headers(&headers);
    let names: Vec<&str> = out.iter().map(|h| h.name.as_str()).collect();
    assert_eq!(names, vec!["x-amz-date", "hosts", "content-length"]);
    assert_eq!(out[0].value, b"today".to_vec());
    assert!(is_host_header("HoSt"));
    assert!(!is_host_header("ghost"));
    assert!(!is_host_header(""));
}

#[test]
fn backoff_delay_formula() {
    assert_eq!(backoff_delay_ms(0, 0), 1000);
    assert_eq!(backoff_delay_ms(1, 250), 2250);
    assert_eq!(backoff_delay_ms(2, 999), 4999);
    assert_eq!(backoff_delay_ms(10, 7), 1024 * 1000 + 7);
    assert_eq!(backoff_delay_ms(54, 999), (1u64 << 54) * 1000 + 999);
}

#[test]
fn drawn_backoff_lies_in_its_window() {
    for attempt in 0..5u32 {
        let base = (1u64 << attempt) * 1000;
        for _ in 0..200 {
            let d = draw_backoff_ms(attempt);
            assert!(base <= d && d < base + 1000);
        }
    }
}

#[test]
fn scenario_first_attempt_succeeds() {
    let mut m = RetryMachine::new(MAX_RETRIES);
    let next = m.on_outcome(Outcome::Responded { status: 200, body: b"hello".to_vec() });
    match next {
        Next::Relay { status, body } => {
            assert_eq!(status, 200);
            assert_eq!(body, b"hello".to_vec());
        }
        _ => panic!("expected the upstream reply"),
    }
    assert!(m.done);
    assert_eq!(m.attempt, 0);
}

#[test]
fn scenario_two_refusals_then_success() {
    let mut m = RetryMachine::new(MAX_RETRIES);
    let mut sleeps = 0;
    let mut attempts = 1;
    let outcomes = vec![
        Outcome::TransportError,
        Outcome::TransportError,
        Outcome::Responded { status: 200, body: b"ok".to_vec() },
    ];
    let mut reply = None;
    for outcome in outcomes {
        match m.on_outcome(outcome) {
            Next::Backoff { index, delay_ms } => {
                let base = (1u64 << (index - 1)) * 1000;
                assert!(base <= delay_ms && delay_ms < base + 1000);
                sleeps += 1;
                attempts += 1;
            }
            Next::Attempt { .. } => attempts += 1,
            Next::Relay { status, body } => reply = Some((status, body)),
            Next::Fail { .. } => panic!("unexpected failure"),
        }
    }
    assert_eq!(reply, Some((200, b"ok".to_vec())));
    assert_eq!(sleeps, 2);
    assert_eq!(attempts, 3);
}

#[test]
fn scenario_every_attempt_times_out() {
    let mut m = RetryMachine::new(MAX_RETRIES);
    let mut attempts = 1;
    loop {
        match m.on_outcome(Outcome::TimedOut) {
            Next::Attempt { index } => {
                assert_eq!(index, attempts);
                attempts += 1;
            }
            Next::Fail { status, message } => {
                assert_eq!(status, 504);
                assert_eq!(message, "Gateway Timeout");
                break;
            }
            _ => panic!("no backoff or relay expected after timeouts"),
        }
    }
    assert_eq!(attempts, MAX_RETRIES);
}

#[test]
fn transport_errors_exhaust_to_bad_gateway() {
    let mut m = RetryMachine::new(MAX_RETRIES);
    let mut attempts = 1;
    loop {
        match m.on_outcome_with_jitter(Outcome::TransportError, 500) {
            Next::Backoff { index, delay_ms } => {
                assert_eq!(delay_ms, (1u64 << (index - 1)) * 1000 + 500);
                attempts += 1;
            }
            Next::Fail { status, message } => {
                assert_eq!(status, 502);
                assert_eq!(message, "Bad Gateway");
                break;
            }
            _ => panic!("unexpected decision"),
        }
    }
    assert_eq!(attempts, 3);
}

#[test]
fn single_attempt_bound() {
    let mut m = RetryMachine::new(1);
    assert!(matches!(m.on_outcome(Outcome::TransportError), Next::Fail { status: 502, .. }));
    let mut m = RetryMachine::new(1);
    assert!(matches!(m.on_outcome(Outcome::TimedOut), Next::Fail { status: 504, .. }));
}

#[test]
fn upstream_error_status_is_passed_through() {
    let mut m = RetryMachine::new(MAX_RETRIES);
    m.on_outcome(Outcome::TimedOut);
    match m.on_outcome(Outcome::Responded { status: 404, body: b"missing".to_vec() }) {
        Next::Relay { status, body } => {
            assert_eq!(status, 404);
            assert_eq!(body, b"missing".to_vec());
        }
        _ => panic!("expected the upstream reply"),
    }
}

#[test]
fn forwarded_request_keeps_method_and_body() {
    let req = request("/bucket/key", Some("x=1"), b"payload bytes");
    let accepted = is_valid_s3_request(&req);
    assert!(accepted);
    let fwd = match prepare_forward(&req, &store_base(), accepted) {
        Ok(f) => f,
        Err(_) => panic!("request should be forwarded"),
    };
    assert_eq!(fwd.method, "PUT");
    assert_eq!(fwd.uri, "https://store.example:443/bucket/key?x=1");
    assert_eq!(fwd.headers.len(), 1);
    assert_eq!(fwd.headers[0].name, "content-type");
    let first = fwd.for_attempt();
    let second = fwd.for_attempt();
    let third = fwd.for_attempt();
    assert_eq!(first.body, b"payload bytes".to_vec());
    assert_eq!(second.body, first.body);
    assert_eq!(third.body, first.body);
    assert_eq!(third.uri, first.uri);
    assert_eq!(req.body, b"payload bytes".to_vec());
}

#[test]
fn rejected_request_gets_bad_request() {
    let req = request("/bucket/key", None, b"");
    let err = match prepare_forward(&req, &store_base(), false) {
        Err(e) => e,
        Ok(_) => panic!("request should be rejected"),
    };
    assert_eq!(err, ForwardError::Invalid);
    let reply = err.reply();
    assert_eq!(reply.status, 400);
    assert_eq!(reply.body, "Invalid S3 request");
}

#[test]
fn unbuildable_uri_gets_internal_error() {
    let req = request("/bad path", None, b"");
    let err = match prepare_forward(&req, &store_base(), true) {
        Err(e) => e,
        Ok(_) => panic!("URI should not be built"),
    };
    assert_eq!(err, ForwardError::UriConstruction);
    let reply = err.reply();
    assert_eq!(reply.status, 500);
    assert_eq!(reply.body, "Internal Server Error");
    let fallback = internal_error_reply();
    assert_eq!(fallback.status, 500);
}

#[test]
fn scenario_shutdown_during_retry() {
    let coordinator = ShutdownCoordinator::new();
    assert!(!coordinator.is_draining());
    assert!(matches!(coordinator.dispatch("/bucket/key"), Route::Forward));
    let mut m = RetryMachine::new(MAX_RETRIES);
    assert!(matches!(m.on_outcome(Outcome::TimedOut), Next::Attempt { index: 1 }));
    assert!(coordinator.initiate_shutdown());
    assert!(!coordinator.initiate_shutdown());
    assert!(coordinator.is_draining());
    match m.on_outcome(Outcome::Responded { status: 200, body: b"late".to_vec() }) {
        Next::Relay { status, body } => {
            assert_eq!(status, 200);
            assert_eq!(body, b"late".to_vec());
        }
        _ => panic!("the request in flight should complete"),
    }
    assert_eq!(respond(coordinator.dispatch("/bucket/key")).0, 503);
    assert_eq!(respond(coordinator.dispatch("/healthz")).0, 503);
}

#[test]
fn trust_policy_selection() {
    assert!(matches!(select_trust_policy(None, false), TrustPolicy::SystemRoots));
    match select_trust_policy(Some("/etc/ca.pem".to_string()), false) {
        TrustPolicy::CustomCa { path } => assert_eq!(path, "/etc/ca.pem"),
        _ => panic!("expected the custom CA"),
    }
    let insecure = select_trust_policy(Some("/etc/ca.pem".to_string()), true);
    assert!(matches!(insecure, TrustPolicy::InsecureTestOnly));
    assert!(insecure.needs_warning());
    assert!(!select_trust_policy(None, false).needs_warning());
}
