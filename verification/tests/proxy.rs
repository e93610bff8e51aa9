use container_agent_dev::dial::StageEnd;
use container_agent_dev::fetch::{Fetch, FetchAction};
use container_agent_dev::idle::{BodyPoll, IdleClock, UPSTREAM_BODY_IDLE_TIMEOUT_SECS};
use container_agent_dev::proxy::{
    accept_method, body_clock, gateway_error, proxy_read, EngineReply, Fetched, ReadMethod, ReplyBody,
    REBOOTSTRAP_MSG,
};
use container_agent_dev::serve::{
    loopback_address, AcceptLoop, AfterFailure, ACCEPT_ERROR_BACKOFF_MILLIS, ACCEPT_ERROR_LIMIT,
};
use container_agent_dev::span::Span;
use container_agent_dev::state::ReBootstrap;
use container_agent_dev::tls::BulkTarget;
use hyper::header::{HeaderMap, HeaderName, HeaderValue};

// --- reading through ---------------------------------------------------------

fn head(status: u16, headers: Vec<(&'static str, &'static str)>) -> Fetched {
    let mut map = HeaderMap::new();
    for (name, value) in headers {
        map.append(HeaderName::from_static(name), HeaderValue::from_static(value));
    }
    Fetched::Head { status, headers: map }
}

fn text_of(reply: &EngineReply) -> &'static str {
    match reply.body {
        ReplyBody::Text(text) => text,
        ReplyBody::Upstream => panic!("expected a text"),
    }
}

#[test]
fn proxy_forwards_upstream_200_body_verbatim() {
    let fetched = head(
        200,
        vec![
            ("content-type", "application/octet-stream"),
            ("docker-content-digest", "sha256:abc"),
        ],
    );
    let mut rebootstrap = ReBootstrap::default();
    assert!(matches!(accept_method("GET"), Ok(ReadMethod::Get)));
    let reply = proxy_read(&fetched, &mut rebootstrap);
    assert_eq!(reply.status, 200);
    assert_eq!(reply.body, ReplyBody::Upstream);
    assert_eq!(reply.headers.get("content-type").unwrap(), "application/octet-stream");
    assert_eq!(reply.headers.get("docker-content-digest").unwrap(), "sha256:abc");
    assert!(!rebootstrap.is_raised());
}

#[test]
fn proxy_401_returns_clean_error_no_www_authenticate_and_raises_rebootstrap() {
    for status in [401, 403] {
        let fetched = head(
            status,
            vec![("www-authenticate", "Bearer realm=\"https://evil/token\"")],
        );
        let mut rebootstrap = ReBootstrap::default();
        let reply = proxy_read(&fetched, &mut rebootstrap);
        assert_ne!(reply.status, 401);
        assert_eq!(reply.status, 502);
        assert!(reply.headers.get("www-authenticate").is_none());
        assert_eq!(text_of(&reply), REBOOTSTRAP_MSG);
        assert!(rebootstrap.is_raised());
    }
}

#[test]
fn proxy_transient_5xx_is_gateway_error_without_rebootstrap() {
    for status in [503, 404, 301, 199, 300, 400, 402] {
        let mut rebootstrap = ReBootstrap::default();
        let reply = proxy_read(&head(status, vec![]), &mut rebootstrap);
        assert_eq!(reply.status, 502);
        assert_eq!(text_of(&reply), "bulk upstream returned an error");
        assert!(!rebootstrap.is_raised());
    }
}

#[test]
fn an_unreachable_upstream_is_a_gateway_error_and_keeps_the_flag() {
    let mut rebootstrap = ReBootstrap::default();
    let reply = proxy_read(&Fetched::Unreachable, &mut rebootstrap);
    assert_eq!(reply.status, 502);
    assert_eq!(text_of(&reply), "bulk upstream unreachable");
    assert!(!rebootstrap.is_raised());
    rebootstrap.raise();
    proxy_read(&Fetched::Unreachable, &mut rebootstrap);
    proxy_read(&head(200, vec![]), &mut rebootstrap);
    assert!(rebootstrap.is_raised(), "only a report lowers the flag");
}

#[test]
fn only_the_listed_fields_pass_and_only_their_first_value() {
    let fetched = head(
        206,
        vec![
            ("content-type", "a"),
            ("content-type", "b"),
            ("content-length", "8"),
            ("content-range", "bytes 0-7/9"),
            ("accept-ranges", "bytes"),
            ("docker-content-digest", "sha256:abc"),
            ("etag", "\"e\""),
            ("last-modified", "now"),
            ("www-authenticate", "Bearer"),
            ("set-cookie", "c"),
            ("location", "/elsewhere"),
        ],
    );
    let reply = proxy_read(&fetched, &mut ReBootstrap::default());
    assert_eq!(reply.status, 206);
    assert_eq!(reply.headers.len(), 7);
    assert_eq!(reply.headers.keys_len(), 7);
    assert_eq!(reply.headers.get("content-type").unwrap(), "a");
    assert_eq!(reply.headers.get("last-modified").unwrap(), "now");
    for name in ["www-authenticate", "set-cookie", "location"] {
        assert!(reply.headers.get(name).is_none(), "{name}");
    }
}

#[test]
fn only_get_and_head_are_proxied() {
    assert!(matches!(accept_method("HEAD"), Ok(ReadMethod::Head)));
    for method in ["POST", "PUT", "DELETE", "get", "", "PATCH", "OPTIONS"] {
        let reply = accept_method(method).expect_err("only reads are proxied");
        assert_eq!(reply.status, 405);
        assert_eq!(text_of(&reply), "only GET and HEAD are proxied");
        assert_eq!(reply.headers.get("content-type").unwrap(), "text/plain; charset=utf-8");
        assert_eq!(reply.headers.len(), 1);
    }
}

#[test]
fn gateway_errors_are_plain_text() {
    let reply = gateway_error(502, "why");
    assert_eq!(reply.status, 502);
    assert_eq!(text_of(&reply), "why");
    assert_eq!(reply.headers.get("content-type").unwrap(), "text/plain; charset=utf-8");
}

// --- fetching ----------------------------------------------------------------

fn target() -> BulkTarget {
    BulkTarget {
        server_name: "10.0.0.1".to_string(),
        authority: "10.0.0.1:8443".to_string(),
        read_token: "read-token".to_string(),
    }
}

fn begun(target: &BulkTarget, path: &str, range: Option<HeaderValue>) -> Fetch {
    match Fetch::begin(target, ReadMethod::Get, path, range) {
        (fetch, FetchAction::Connect { authority }) => {
            assert_eq!(authority, target.authority);
            fetch
        }
        (_, other) => panic!("expected a connect, got {other:?}"),
    }
}

#[test]
fn a_fetch_asks_only_after_tls_with_the_token_and_the_range() {
    let range = HeaderValue::from_static("bytes=5-");
    let mut fetch = begun(&target(), "/v2/app/blobs/sha256:abc?x=1", Some(range));
    match fetch.advance(StageEnd::Done) {
        FetchAction::Secure { server_name } => assert_eq!(server_name, "10.0.0.1"),
        other => panic!("expected the TLS handshake, got {other:?}"),
    }
    assert!(matches!(fetch.advance(StageEnd::Done), FetchAction::Greet));
    match fetch.advance(StageEnd::Done) {
        FetchAction::Ask { request } => {
            assert_eq!(request.method, ReadMethod::Get);
            assert_eq!(request.uri, "/v2/app/blobs/sha256:abc?x=1");
            assert_eq!(request.headers.len(), 3);
            assert_eq!(request.headers.get("host").unwrap(), "10.0.0.1:8443");
            assert_eq!(request.headers.get("authorization").unwrap(), "Bearer read-token");
            assert_eq!(request.headers.get("range").unwrap(), "bytes=5-");
        }
        other => panic!("expected the request, got {other:?}"),
    }
    assert!(matches!(fetch.advance(StageEnd::Done), FetchAction::Done));
    assert!(matches!(fetch.advance(StageEnd::TimedOut), FetchAction::Done));
}

#[test]
fn a_request_without_a_range_has_none() {
    let mut fetch = begun(&target(), "/v2/", None);
    fetch.advance(StageEnd::Done);
    fetch.advance(StageEnd::Done);
    match fetch.advance(StageEnd::Done) {
        FetchAction::Ask { request } => {
            assert_eq!(request.headers.len(), 2);
            assert!(request.headers.get("range").is_none());
        }
        other => panic!("expected the request, got {other:?}"),
    }
}

#[test]
fn the_request_names_the_uri_and_not_the_raw_path() {
    let mut fetch = begun(&target(), "/v2/app/manifests/dev#part", None);
    fetch.advance(StageEnd::Done);
    fetch.advance(StageEnd::Done);
    match fetch.advance(StageEnd::Done) {
        FetchAction::Ask { request } => assert_eq!(request.uri, "/v2/app/manifests/dev"),
        other => panic!("expected the request, got {other:?}"),
    }
}

fn failure(action: FetchAction) -> String {
    match action {
        FetchAction::Fail { message } => message,
        other => panic!("expected a failure, got {other:?}"),
    }
}

#[test]
fn a_fetch_fails_at_the_stage_that_fails() {
    let mut fetch = begun(&target(), "/v2/", None);
    let message = failure(fetch.advance(StageEnd::Failed("refused".to_string())));
    assert_eq!(message, "connecting to bulk listener 10.0.0.1:8443: refused");
    assert_eq!(failure(fetch.advance(StageEnd::Done)), message);

    let mut fetch = begun(&target(), "/v2/", None);
    fetch.advance(StageEnd::Done);
    let message = failure(fetch.advance(StageEnd::TimedOut));
    assert_eq!(
        message,
        "the bulk TLS handshake did not complete within 30s; the host is unreachable or the \
         connection is half-open"
    );

    let mut fetch = begun(&target(), "/v2/", None);
    fetch.advance(StageEnd::Done);
    fetch.advance(StageEnd::Done);
    fetch.advance(StageEnd::Done);
    assert_eq!(
        failure(fetch.advance(StageEnd::Failed("reset".to_string()))),
        "sending upstream request: reset"
    );
}

#[test]
fn a_request_that_cannot_be_made_fails_the_fetch() {
    let bad_token = BulkTarget { read_token: "a\r\nb".to_string(), ..target() };
    let bad_authority = BulkTarget { authority: "h\u{0}:1".to_string(), ..target() };
    let bad_value = "building upstream request: failed to parse header value";
    for (target, path, message) in [
        (target(), "not a uri", "building upstream request: invalid uri character"),
        (target(), "", "building upstream request: empty string"),
        (bad_token, "/v2/", bad_value),
        (bad_authority.clone(), "/v2/", bad_value),
        (bad_authority, "not a uri", "building upstream request: invalid uri character"),
    ] {
        let mut fetch = begun(&target, path, None);
        fetch.advance(StageEnd::Done);
        fetch.advance(StageEnd::Done);
        assert_eq!(failure(fetch.advance(StageEnd::Done)), message);
    }
}

// --- accepting ---------------------------------------------------------------

#[test]
fn a_permanently_failing_listener_ends_the_serve_loop() {
    let mut accepting = AcceptLoop::new();
    let mut paused = Span::from_secs(0);
    let mut err = None;
    for _ in 0..ACCEPT_ERROR_LIMIT {
        assert!(err.is_none());
        match accepting.failed("scripted accept failure") {
            AfterFailure::Retry { pause, .. } => {
                paused = Span { nanos: paused.nanos + pause.nanos };
            }
            AfterFailure::GiveUp { message } => err = Some(message),
        }
    }
    let err = err.expect("a permanently failing listener must surface an error");
    assert!(
        err.contains("in a row"),
        "the error should name the consecutive-failure run: {err}"
    );
    assert_eq!(
        err,
        "accepting loopback connections failed 32 times in a row: scripted accept failure"
    );
    let want = Span::from_millis(ACCEPT_ERROR_BACKOFF_MILLIS).nanos
        * (ACCEPT_ERROR_LIMIT as u128 - 1);
    assert!(paused.nanos >= want, "each retry must back off");
}

#[test]
fn a_successful_accept_resets_the_error_counter() {
    let mut accepting = AcceptLoop::new();
    for _ in 0..2 {
        for n in 1..ACCEPT_ERROR_LIMIT {
            assert_eq!(
                accepting.failed("scripted accept failure"),
                AfterFailure::Retry { pause: Span::from_millis(100), failures: n }
            );
        }
        accepting.accepted();
    }
}

#[test]
fn bind_loopback_binds_localhost_not_wildcard() {
    assert_eq!(loopback_address(0), "127.0.0.1:0");
    assert_eq!(loopback_address(15151), "127.0.0.1:15151");
}

// --- the idle deadline -------------------------------------------------------

#[test]
fn the_production_body_idle_timeout_is_generous() {
    let production = Span::from_secs(UPSTREAM_BODY_IDLE_TIMEOUT_SECS);
    let under_test = Span::from_millis(50);
    assert!(
        production.nanos >= Span::from_secs(30).nanos,
        "a short production idle deadline would kill slow but healthy pulls"
    );
    assert!(
        under_test.nanos < production.nanos,
        "the test override must be the shorter of the two"
    );
    assert_eq!(IdleClock::for_upstream().deadline(), production);
}

#[test]
fn a_stalled_upstream_body_fails_through_the_proxy() {
    let reply = proxy_read(&head(200, vec![]), &mut ReBootstrap::default());
    assert_eq!(reply.status, 200);
    let mut clock = body_clock(&reply).expect("a streamed body runs under the idle deadline");
    let just_before = Span { nanos: Span::from_secs(60).nanos - 1 };
    assert_eq!(clock.polled(just_before, false), BodyPoll::Wait);
    assert_eq!(
        clock.polled(Span::from_secs(60), false),
        BodyPoll::Stalled,
        "a stalled upstream body must surface as an error"
    );
    assert!(clock.stalled().contains("no body data"));
    for status in [401, 503] {
        let reply = proxy_read(&head(status, vec![]), &mut ReBootstrap::default());
        assert!(body_clock(&reply).is_none(), "a fixed text does not stall");
    }
}

#[test]
fn a_body_that_stalls_mid_stream_fails_instead_of_hanging() {
    let mut clock = IdleClock::new(Span::from_millis(50));
    assert_eq!(clock.polled(Span::from_millis(49), false), BodyPoll::Wait);
    assert_eq!(clock.polled(Span::from_millis(50), false), BodyPoll::Stalled);
    assert_eq!(clock.polled(Span::from_millis(90), false), BodyPoll::Stalled);
    let clock = IdleClock::for_upstream();
    let err = clock.stalled();
    assert!(
        err.contains("no body data"),
        "the error must say the stall was in the body: {err}"
    );
    assert_eq!(
        err,
        "the bulk upstream sent no body data for 60s; the host is unreachable or the \
         connection is half-open"
    );
}

#[test]
fn a_body_that_delivers_is_passed_through_untouched() {
    let mut clock = IdleClock::new(Span::from_millis(50));
    // Far longer than the limit in all, but never a gap that reaches it.
    for chunk in 1..100 {
        let now = Span::from_millis(chunk * 49);
        assert_eq!(clock.polled(now, false), BodyPoll::Wait);
        assert_eq!(clock.polled(now, true), BodyPoll::Pass);
        assert_eq!(clock.deadline(), Span::from_millis(chunk * 49 + 50));
    }
    assert_eq!(clock.polled(Span::from_millis(99 * 49 + 50), true), BodyPoll::Pass);
}
