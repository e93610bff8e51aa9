use container_agent_dev::backoff::{
    session_proves_the_link_works, Backoff, MIN_SESSION_FOR_RESET_SECS,
};
use container_agent_dev::bootstrap::{endpoint_host, Bootstrap};
use container_agent_dev::dial::{stage_result, Stage, StageEnd};
use container_agent_dev::run::{end_when_either_ends, AfterSession, FirstEnd, Reconnect};
use container_agent_dev::session::{
    authorize, upgrade_request, Dial, DialAction, DialError, Event, Reaction, Session,
};
use container_agent_dev::span::Span;
use container_agent_dev::state::{rebootstrap_status, AgentState, ReBootstrap};
use container_agent_dev::wire::{DeviceFrame, Hello, HostFrame, Progress, Status};
use rcgen::{BasicConstraints, CertificateParams, IsCa, KeyPair};

// --- frames ------------------------------------------------------------------

fn value_of(frame: &DeviceFrame) -> serde_json::Value {
    serde_json::from_str(&frame.to_wire()).expect("a frame is JSON")
}

#[test]
fn hello_frame_serializes_flat_with_tag() {
    let hello = DeviceFrame::Hello(Hello {
        device_id: "dev-01".to_string(),
        arch: "aarch64".to_string(),
        running_digest: "sha256:running".to_string(),
    });
    let value = value_of(&hello);
    assert_eq!(value["type"], "hello");
    assert_eq!(value["device_id"], "dev-01");
    assert_eq!(value["arch"], "aarch64");
    assert_eq!(value["running_digest"], "sha256:running");
    assert!(value.get("Hello").is_none());
    assert_eq!(
        hello.to_wire(),
        "{\"type\":\"hello\",\"device_id\":\"dev-01\",\"arch\":\"aarch64\",\
         \"running_digest\":\"sha256:running\"}"
    );
}

#[test]
fn progress_frame_serializes_flat_with_tag() {
    let frame = DeviceFrame::Progress(Progress {
        image: "my-app".to_string(),
        bytes_pulled: 4096,
    });
    let value = value_of(&frame);
    assert_eq!(value["type"], "progress");
    assert_eq!(value["image"], "my-app");
    assert_eq!(value["bytes_pulled"], 4096);
}

#[test]
fn status_frame_serializes_flat_with_tag() {
    let frame = DeviceFrame::Status(Status {
        device_id: "dev-01".to_string(),
        state: "running".to_string(),
        detail: None,
    });
    let value = value_of(&frame);
    assert_eq!(value["type"], "status");
    assert_eq!(value["device_id"], "dev-01");
    assert_eq!(value["state"], "running");
    assert!(value.get("detail").is_none());
}

fn field(value: &serde_json::Value, name: &str) -> String {
    value[name].as_str().expect("a text field").to_string()
}

fn read_back(json: &str) -> DeviceFrame {
    let value: serde_json::Value = serde_json::from_str(json).unwrap();
    match value["type"].as_str().unwrap() {
        "hello" => DeviceFrame::Hello(Hello {
            device_id: field(&value, "device_id"),
            arch: field(&value, "arch"),
            running_digest: field(&value, "running_digest"),
        }),
        "progress" => DeviceFrame::Progress(Progress {
            image: field(&value, "image"),
            bytes_pulled: value["bytes_pulled"].as_u64().unwrap(),
        }),
        "status" => DeviceFrame::Status(Status {
            device_id: field(&value, "device_id"),
            state: field(&value, "state"),
            detail: value.get("detail").map(|d| d.as_str().unwrap().to_string()),
        }),
        other => panic!("unknown type {other}"),
    }
}

#[test]
fn device_frame_round_trips() {
    let frames = vec![
        DeviceFrame::Hello(Hello {
            device_id: "d".to_string(),
            arch: "x86_64".to_string(),
            running_digest: String::new(),
        }),
        DeviceFrame::Progress(Progress {
            image: "img".to_string(),
            bytes_pulled: 1,
        }),
        DeviceFrame::Status(Status {
            device_id: "d".to_string(),
            state: "s".to_string(),
            detail: Some("ok".to_string()),
        }),
        DeviceFrame::Progress(Progress {
            image: "a\"\\\n".to_string(),
            bytes_pulled: u64::MAX,
        }),
    ];
    for frame in frames {
        let json = frame.to_wire();
        let back = read_back(&json);
        assert_eq!(frame, back);
    }
}

// --- backoff -----------------------------------------------------------------

#[test]
fn backoff_doubles_then_caps() {
    let mut backoff = Backoff::new(Span::from_secs(1), Span::from_secs(30));
    assert_eq!(backoff.next_delay(), Span::from_secs(1));
    assert_eq!(backoff.next_delay(), Span::from_secs(2));
    assert_eq!(backoff.next_delay(), Span::from_secs(4));
    assert_eq!(backoff.next_delay(), Span::from_secs(8));
    assert_eq!(backoff.next_delay(), Span::from_secs(16));
    assert_eq!(backoff.next_delay(), Span::from_secs(30));
    assert_eq!(backoff.next_delay(), Span::from_secs(30));
}

#[test]
fn backoff_resets_to_base_after_connect() {
    let mut backoff = Backoff::new(Span::from_secs(1), Span::from_secs(30));
    backoff.next_delay();
    backoff.next_delay();
    backoff.next_delay();
    backoff.reset();
    assert_eq!(backoff.next_delay(), Span::from_secs(1));
    assert_eq!(backoff.next_delay(), Span::from_secs(2));
}

#[test]
fn the_default_backoff_goes_from_one_second_to_thirty() {
    let backoff = Backoff::default();
    assert_eq!(backoff.base, Span::from_secs(1));
    assert_eq!(backoff.max, Span::from_secs(30));
    assert_eq!(backoff.current, Span::from_secs(1));
}

#[test]
fn a_handshake_that_immediately_drops_does_not_reset_the_backoff() {
    let floor = Span::from_secs(MIN_SESSION_FOR_RESET_SECS);
    assert!(
        !session_proves_the_link_works(true, Span::from_millis(5)),
        "a 5ms session must not count as a working link"
    );
    assert!(
        !session_proves_the_link_works(
            true,
            Span { nanos: floor.nanos - Span::from_millis(1).nanos }
        ),
        "just under the floor must not reset"
    );
    assert!(
        session_proves_the_link_works(true, floor),
        "a session at the floor is evidence the link works"
    );
    assert!(
        !session_proves_the_link_works(false, Span::from_secs(600)),
        "a dial that never handshook must not reset however long it took"
    );
}

// --- the reconnect loop ------------------------------------------------------

fn base_bootstrap() -> Bootstrap {
    Bootstrap {
        bulk_endpoint: "10.0.2.2:15150".to_string(),
        read_token: "T1".to_string(),
        ca_cert_pem: "PEM".to_string(),
        ws_endpoint: "10.0.2.2:15152".to_string(),
    }
}

fn changed_bootstraps(base: &Bootstrap) -> Vec<Bootstrap> {
    vec![
        Bootstrap {
            read_token: "T2".to_string(),
            ..base.clone()
        },
        Bootstrap {
            ca_cert_pem: "OTHER".to_string(),
            ..base.clone()
        },
        Bootstrap {
            bulk_endpoint: "10.0.2.2:15999".to_string(),
            ..base.clone()
        },
        Bootstrap {
            ws_endpoint: "10.0.2.2:15999".to_string(),
            ..base.clone()
        },
    ]
}

#[test]
fn a_changed_bootstrap_ends_the_process_so_the_new_token_is_adopted() {
    let base = base_bootstrap();

    assert!(base.same_session_as(&base.clone()));

    for changed in changed_bootstraps(&base) {
        assert!(
            !base.same_session_as(&changed),
            "a changed {changed:?} must end the session"
        );
        let mut reconnect = Reconnect::new();
        assert_eq!(
            reconnect.after_session(false, Span::from_secs(1), &base, Some(&changed)),
            AfterSession::Exit
        );
    }
}

#[test]
fn an_unchanged_or_unreadable_bootstrap_keeps_the_process() {
    let base = base_bootstrap();
    let mut reconnect = Reconnect::new();
    assert_eq!(
        reconnect.after_session(true, Span::from_secs(1), &base, Some(&base.clone())),
        AfterSession::Redial(Span::from_secs(1))
    );
    assert_eq!(
        reconnect.after_session(true, Span::from_secs(1), &base, None),
        AfterSession::Redial(Span::from_secs(2))
    );
}

#[test]
fn dropped_sessions_reach_the_cap_and_a_working_one_starts_over() {
    let base = base_bootstrap();
    let mut reconnect = Reconnect::new();
    let mut waits = Vec::new();
    for _ in 0..7 {
        match reconnect.after_session(true, Span::from_millis(20), &base, None) {
            AfterSession::Redial(wait) => waits.push(wait.as_secs()),
            AfterSession::Exit => panic!("nothing changed"),
        }
    }
    assert_eq!(waits, vec![1, 2, 4, 8, 16, 30, 30]);
    assert_eq!(
        reconnect.after_session(true, Span::from_secs(10), &base, None),
        AfterSession::Redial(Span::from_secs(1))
    );
    assert_eq!(
        reconnect.after_session(false, Span::from_secs(600), &base, None),
        AfterSession::Redial(Span::from_secs(2))
    );
}

#[test]
fn a_failing_proxy_ends_the_process_even_while_the_ws_keeps_serving() {
    let err = end_when_either_ends(FirstEnd::ProxyFailed("listener died".to_string()))
        .expect_err("a failed proxy must surface an error");
    assert!(
        err.contains("listener died"),
        "the proxy's own error must survive to the exit: {err}"
    );
    assert_eq!(err, "loopback registry proxy failed: listener died");
}

#[test]
fn a_cleanly_stopped_proxy_also_ends_the_process() {
    let err = end_when_either_ends(FirstEnd::ProxyStopped)
        .expect_err("a stopped proxy must be reported as an error");
    assert!(err.contains("stopped serving"), "{err}");
}

#[test]
fn a_panicked_proxy_ends_the_process() {
    assert_eq!(
        end_when_either_ends(FirstEnd::ProxyPanicked("task 3 panicked".to_string())),
        Err("loopback registry proxy task panicked: task 3 panicked".to_string())
    );
}

#[test]
fn a_failing_ws_loop_returns_its_own_error() {
    let err = end_when_either_ends(FirstEnd::Served(Some("ws gave up".to_string())))
        .expect_err("a failed WS loop must surface an error");
    assert!(err.contains("ws gave up"), "{err}");
    assert_eq!(end_when_either_ends(FirstEnd::Served(None)), Ok(()));
}

// --- endpoints ---------------------------------------------------------------

#[test]
fn endpoint_host_strips_port() {
    assert_eq!(endpoint_host("10.0.0.1:9443"), "10.0.0.1");
    assert_eq!(endpoint_host("host.local:443"), "host.local");
    assert_eq!(endpoint_host("nohost"), "nohost");
}

#[test]
fn endpoint_host_cuts_at_the_last_colon() {
    assert_eq!(endpoint_host("[::1]:443"), "[::1]");
    assert_eq!(endpoint_host("::1"), ":");
    assert_eq!(endpoint_host(":80"), "");
    assert_eq!(endpoint_host("host:"), "host");
    assert_eq!(endpoint_host(""), "");
}

// --- the agent's state -------------------------------------------------------

#[test]
fn a_raised_rebootstrap_wakes_a_waiter_and_clears_once_reported() {
    let mut flag = ReBootstrap::default();
    assert!(!flag.is_raised());
    flag.raise();
    assert!(flag.is_raised());
    flag.clear();
    assert!(
        !flag.is_raised(),
        "the flag must lower once reported, or every later session re-announces it"
    );
    flag.raise();
    flag.raise();
    assert!(flag.take());
    assert!(!flag.take());
    assert!(!flag.is_raised());
}

#[test]
fn hello_carries_current_running_digest() {
    let mut state = AgentState::new("dev-01".to_string());
    assert_eq!(state.running_digest, "");
    assert!(!state.rebootstrap.is_raised());
    state.record_digest("sha256:new");
    match state.hello("riscv64") {
        DeviceFrame::Hello(hello) => {
            assert_eq!(hello.device_id, "dev-01");
            assert_eq!(hello.running_digest, "sha256:new");
            assert_eq!(hello.arch, "riscv64");
        }
        other => panic!("expected Hello, got {other:?}"),
    }
}

fn needs_rebootstrap() -> DeviceFrame {
    DeviceFrame::Status(Status {
        device_id: "dev-01".to_string(),
        state: "needs_rebootstrap".to_string(),
        detail: Some(
            "bulk pull rejected the read/control token; re-run `avocado container dev up`"
                .to_string(),
        ),
    })
}

#[test]
fn the_rebootstrap_status_says_what_to_do() {
    let state = AgentState::new("dev-01".to_string());
    assert_eq!(rebootstrap_status(&state), needs_rebootstrap());
}

// --- sessions ----------------------------------------------------------------

fn sync_of(digest: &str) -> HostFrame {
    HostFrame::Sync {
        image: "my-app".to_string(),
        tag: "dev".to_string(),
        digest: digest.to_string(),
    }
}

#[test]
fn a_session_opens_with_hello_and_an_earlier_rejection() {
    let mut state = AgentState::new("dev-01".to_string());
    state.rebootstrap.raise();
    let (mut session, hello) = Session::begin(&state, "aarch64");
    assert_eq!(hello, state.hello("aarch64"));
    assert_eq!(
        session.on_event(Event::Opened, &mut state),
        Reaction::Send(needs_rebootstrap())
    );
    assert!(!state.rebootstrap.is_raised(), "the flag is lowered before the report goes out");
    // The wake that is left over from that raise reports nothing more.
    assert_eq!(session.on_event(Event::Raised, &mut state), Reaction::Ignore);
    // A raise while the report was being sent is reported in its turn.
    state.rebootstrap.raise();
    assert_eq!(
        session.on_event(Event::Raised, &mut state),
        Reaction::Send(needs_rebootstrap())
    );
    assert_eq!(session.on_event(Event::Opened, &mut state), Reaction::Ignore);
}

#[test]
fn a_report_that_could_not_be_sent_is_due_in_the_next_session() {
    let mut state = AgentState::new("dev-01".to_string());
    state.rebootstrap.raise();
    let (mut session, _) = Session::begin(&state, "x");
    let Reaction::Send(frame) = session.on_event(Event::Opened, &mut state) else {
        panic!("a raised flag is reported");
    };
    assert!(!state.rebootstrap.is_raised());
    session.send_failed(&frame, &mut state);
    assert!(state.rebootstrap.is_raised(), "an unsent report stays due");
    let (mut session, hello) = Session::begin(&state, "x");
    assert_eq!(
        session.on_event(Event::Opened, &mut state),
        Reaction::Send(needs_rebootstrap())
    );
    // Any other frame that could not be sent leaves the flag alone.
    session.send_failed(&hello, &mut state);
    session.send_failed(
        &DeviceFrame::Status(Status {
            device_id: "dev-01".to_string(),
            state: "sync_failed".to_string(),
            detail: None,
        }),
        &mut state,
    );
    assert!(!state.rebootstrap.is_raised());
    // And one that fails while the flag is up again leaves it up.
    state.rebootstrap.raise();
    session.send_failed(&hello, &mut state);
    assert!(state.rebootstrap.is_raised());
}

#[test]
fn the_newest_sync_replaces_the_one_that_waits() {
    let mut state = AgentState::new("dev-01".to_string());
    let (mut session, _) = Session::begin(&state, "x");
    assert_eq!(session.take_work(), None);
    assert_eq!(
        session.on_event(Event::Frame(sync_of("sha256:1")), &mut state),
        Reaction::Wake { coalesced: false }
    );
    assert_eq!(
        session.on_event(Event::Frame(sync_of("sha256:2")), &mut state),
        Reaction::Wake { coalesced: true }
    );
    session.on_event(Event::KeepAlive, &mut state);
    session.on_event(Event::Frame(sync_of("sha256:3")), &mut state);
    assert_eq!(session.take_work(), Some(sync_of("sha256:3")));
    assert_eq!(session.take_work(), None);
    assert_eq!(
        session.on_event(Event::Frame(sync_of("sha256:4")), &mut state),
        Reaction::Wake { coalesced: false }
    );
}

#[test]
fn every_other_event_has_its_reaction() {
    let mut state = AgentState::new("dev-01".to_string());
    let (mut session, _) = Session::begin(&state, "x");
    let report = needs_rebootstrap();
    assert_eq!(
        session.on_event(Event::Report(report.clone()), &mut state),
        Reaction::Send(report)
    );
    for event in [Event::Malformed, Event::KeepAlive, Event::NonText] {
        assert_eq!(session.on_event(event, &mut state), Reaction::Ignore);
    }
    for event in [Event::Closed, Event::Ended] {
        assert_eq!(session.on_event(event, &mut state), Reaction::End);
    }
    assert_eq!(
        session.on_event(Event::ReadFailed("reset".to_string()), &mut state),
        Reaction::Fail("reading control WS frame: reset".to_string())
    );
}

// --- dialling ----------------------------------------------------------------

#[test]
fn stages_say_why_they_did_not_get_done() {
    assert_eq!(stage_result(Stage::BulkTls, "h:1", StageEnd::Done), Ok(()));
    assert_eq!(
        stage_result(Stage::BulkConnect, "h:1", StageEnd::TimedOut),
        Err(
            "connecting to the bulk listener did not complete within 30s; the host is \
             unreachable or the connection is half-open"
                .to_string()
        )
    );
    let failed = |stage: Stage| {
        stage_result(stage, "h:1", StageEnd::Failed("refused".to_string())).unwrap_err()
    };
    assert_eq!(failed(Stage::BulkConnect), "connecting to bulk listener h:1: refused");
    assert_eq!(failed(Stage::BulkTls), "bulk TLS handshake (pinned CA): refused");
    assert_eq!(failed(Stage::BulkHttp), "bulk HTTP/1 handshake: refused");
    assert_eq!(failed(Stage::BulkRequest), "sending upstream request: refused");
    assert_eq!(failed(Stage::ControlConnect), "connecting TCP to h:1: refused");
    assert_eq!(failed(Stage::ControlTls), "TLS handshake to control WS: refused");
    assert_eq!(failed(Stage::ControlUpgrade), "WebSocket upgrade to control WS: refused");
    for stage in [Stage::BulkHttp, Stage::ControlUpgrade] {
        assert_eq!(stage.limit(), Span::from_secs(30));
    }
}

fn ca_pem() -> String {
    let mut params = CertificateParams::new(Vec::new()).expect("ca params");
    params.is_ca = IsCa::Ca(BasicConstraints::Unconstrained);
    let key = KeyPair::generate().expect("ca key");
    params.self_signed(&key).expect("self-sign ca").pem()
}

fn dialled(ws_endpoint: &str, token: &str) -> Dial {
    let bootstrap = Bootstrap {
        bulk_endpoint: "10.0.0.1:8443".to_string(),
        read_token: token.to_string(),
        ca_cert_pem: ca_pem(),
        ws_endpoint: ws_endpoint.to_string(),
    };
    match Dial::begin(&bootstrap) {
        Ok((dial, _config, DialAction::Connect { endpoint })) => {
            assert_eq!(endpoint, ws_endpoint);
            dial
        }
        other => panic!("expected a connect, got {:?}", other.err()),
    }
}

#[test]
fn a_dial_connects_then_secures_then_upgrades() {
    let mut dial = dialled("10.0.0.1:9443", "tok");
    match dial.advance(StageEnd::Done) {
        DialAction::Secure { server_name } => assert_eq!(server_name, "10.0.0.1"),
        other => panic!("expected the TLS handshake, got {other:?}"),
    }
    match dial.advance(StageEnd::Done) {
        DialAction::Upgrade { request } => {
            assert_eq!(request.uri, "wss://10.0.0.1:9443/");
            assert_eq!(request.headers.get("authorization").unwrap(), "Bearer tok");
        }
        other => panic!("expected the upgrade, got {other:?}"),
    }
    assert!(matches!(dial.advance(StageEnd::Done), DialAction::Serve));
    assert!(matches!(dial.advance(StageEnd::TimedOut), DialAction::Serve));
}

#[test]
fn a_dial_without_an_endpoint_or_a_ca_does_not_begin() {
    let mut bootstrap = base_bootstrap();
    bootstrap.ws_endpoint = String::new();
    let err = Dial::begin(&bootstrap).err().expect("no endpoint");
    assert_eq!(err, DialError::NoEndpoint);
    assert_eq!(
        err.message(),
        "bootstrap ws_endpoint is empty; the host must emit it (tracked follow-up)"
    );
    let err = Dial::begin(&base_bootstrap()).err().expect("no certificates");
    assert_eq!(err.message(), "bootstrap ca_cert_pem contained no certificates");
}

#[test]
fn a_dial_fails_at_the_stage_that_fails() {
    let fail = |dial: &mut Dial, end: StageEnd| match dial.advance(end) {
        DialAction::Fail { message } => message,
        other => panic!("expected a failure, got {other:?}"),
    };
    let mut dial = dialled("10.0.0.1:9443", "tok");
    let message = fail(&mut dial, StageEnd::TimedOut);
    assert!(message.starts_with("the control WS TCP connect did not complete within 30s"));
    assert_eq!(fail(&mut dial, StageEnd::Done), message, "a failed dial stays failed");

    let mut dial = dialled("not a host:9443", "tok");
    assert_eq!(
        fail(&mut dial, StageEnd::Done),
        "invalid TLS server name: invalid dns name"
    );

    let mut dial = dialled("10.0.0.1:9443", "to\nken");
    dial.advance(StageEnd::Done);
    assert_eq!(
        fail(&mut dial, StageEnd::Done),
        "building Authorization header: failed to parse header value"
    );

    let mut dial = dialled("10.0.0.1:9443", "tok");
    dial.advance(StageEnd::Done);
    dial.advance(StageEnd::Done);
    assert_eq!(
        fail(&mut dial, StageEnd::Failed("401".to_string())),
        "WebSocket upgrade to control WS: 401"
    );
}

#[test]
fn the_upgrade_request_is_a_websocket_handshake_with_the_token() {
    let request = upgrade_request("host.local:443", "tok").expect("a request");
    assert_eq!(request.uri, "wss://host.local:443/");
    assert_eq!(request.headers.len(), 6);
    assert_eq!(request.headers.get("host").unwrap(), "host.local:443");
    assert_eq!(request.headers.get("connection").unwrap(), "Upgrade");
    assert_eq!(request.headers.get("upgrade").unwrap(), "websocket");
    assert_eq!(request.headers.get("sec-websocket-version").unwrap(), "13");
    let key = request.headers.get("sec-websocket-key").unwrap().as_bytes();
    assert_eq!(key.len(), 24);
    assert!(key.ends_with(b"=="));
    assert!(key[..22]
        .iter()
        .all(|b| b.is_ascii_alphanumeric() || *b == b'+' || *b == b'/'));
    assert_eq!(request.headers.get("authorization").unwrap(), "Bearer tok");

    // A second token takes the place of the first.
    let again = authorize(request, "other").expect("a token that fits");
    assert_eq!(again.headers.len(), 6);
    assert_eq!(again.headers.get("authorization").unwrap(), "Bearer other");
    assert_eq!(again.headers.get("host").unwrap(), "host.local:443");
    assert_eq!(
        authorize(again, "a\u{7f}").unwrap_err(),
        "building Authorization header: failed to parse header value"
    );

    // The host field leaves out who logs in.
    let request = upgrade_request("me@h:1", "tok").expect("a request");
    assert_eq!(request.headers.get("host").unwrap(), "h:1");

    // The request names the URI, in which a fragment has no place.
    let request = upgrade_request("h:1/x#y", "tok").expect("a request");
    assert_eq!(request.uri, "wss://h:1/x");
    assert_eq!(request.headers.get("host").unwrap(), "h:1");

    let err = upgrade_request("bad host", "tok").unwrap_err();
    assert!(err.starts_with("building WS upgrade request: "), "{err}");
}
