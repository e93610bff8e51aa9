//! Laws of the control session.
use rustls::ClientConfig;
use vstd::prelude::*;
use crate::bootstrap;
use crate::bootstrap::Bootstrap;
use crate::dial::{stage_result, Stage, StageEnd};
use crate::headers;
use crate::session;
use crate::session::{
    authorize, upgrade_request, Dial, DialAction, DialError, DialStage, Event, Reaction, Session,
    UpgradeRequest,
};
use crate::laws::trust::same_reason;
use crate::state::AgentState;
use crate::sync::SyncRun;
use crate::tls;
use crate::tls::{build_tls_config, endpoint_server_name, TlsError};
use crate::wire::{DeviceFrame, HostFrame};

verus! {

// ---------------------------------------------------------------------------
// The upgrade request.
// ---------------------------------------------------------------------------

/// Whether a token can be carried in a field.
pub open spec fn fits(token: Seq<char>) -> bool {
    headers::value_ok(vstd::utf8::encode_utf8("Bearer "@ + token))
}

/// The token takes the place of any that was there, is carried whole, and changes no other field
/// and not the URI; one that no field can carry is an error.
pub proof fn law_only_the_token_is_added(
    request: UpgradeRequest,
    token: &str,
    name: Seq<char>,
    r: Result<UpgradeRequest, String>,
)
    requires
        headers::fields(request.headers).dom().finite(),
        headers::fields(request.headers).len() < 64,
        call_ensures(authorize, (request, token), r),
    ensures
        r is Ok <==> fits(token@),
        r is Ok ==> {
            &&& r->Ok_0.uri@ == request.uri@
            &&& headers::fields(r->Ok_0.headers).contains_key("authorization"@)
            &&& headers::fields(r->Ok_0.headers)["authorization"@] == seq![
                vstd::utf8::encode_utf8("Bearer "@ + token@),
            ]
            &&& name != "authorization"@ ==> (headers::fields(r->Ok_0.headers).contains_key(name)
                <==> headers::fields(request.headers).contains_key(name))
            &&& name != "authorization"@ && headers::fields(request.headers).contains_key(name)
                ==> headers::fields(r->Ok_0.headers)[name] == headers::fields(
                request.headers,
            )[name]
        },
        r is Err ==> r->Err_0@ == "building Authorization header: "@
            + "failed to parse header value"@,
{
}

/// Whether `request` is a WebSocket handshake for `url` with `token`: the URI and the host of the
/// URL, the three fixed fields, a key and the token, each once, and no other field.
pub open spec fn upgrades_to(url: Seq<char>, token: Seq<char>, request: UpgradeRequest) -> bool {
    let fields = headers::fields(request.headers);
    &&& session::client_head(url) is Ok
    &&& request.uri@ == session::client_head(url)->Ok_0.0
    &&& fields.contains_key("host"@) && fields["host"@] == seq![session::client_head(url)->Ok_0.1]
    &&& fields.contains_key("connection"@) && fields["connection"@] == seq![
        vstd::utf8::encode_utf8("Upgrade"@),
    ]
    &&& fields.contains_key("upgrade"@) && fields["upgrade"@] == seq![
        vstd::utf8::encode_utf8("websocket"@),
    ]
    &&& fields.contains_key("sec-websocket-version"@) && fields["sec-websocket-version"@] == seq![
        vstd::utf8::encode_utf8("13"@),
    ]
    &&& fields.contains_key("sec-websocket-key"@) && fields["sec-websocket-key"@].len() == 1
        && fields["sec-websocket-key"@][0].len() == 24
    &&& fields.contains_key("authorization"@) && fields["authorization"@] == seq![
        vstd::utf8::encode_utf8("Bearer "@ + token),
    ]
    &&& forall|name: Seq<char>| #[trigger]
        fields.contains_key(name) ==> name == "host"@ || name == "connection"@ || name
            == "upgrade"@ || name == "sec-websocket-version"@ || name == "sec-websocket-key"@
            || name == "authorization"@
}

proof fn lemma_upgrades(endpoint: Seq<char>, token: Seq<char>, request: UpgradeRequest)
    requires
        session::upgrades(endpoint, token, request),
    ensures
        upgrades_to("wss://"@ + endpoint + "/"@, token, request),
{
    let url = "wss://"@ + endpoint + "/"@;
    let before = choose|before: Map<Seq<char>, Seq<Seq<u8>>>| #[trigger]
        session::handshake_fields(before, session::client_host(session::control_url(endpoint)))
            && headers::fields(request.headers) == session::authorized(before, token);
    reveal_strlit("host");
    reveal_strlit("connection");
    reveal_strlit("upgrade");
    reveal_strlit("sec-websocket-version");
    reveal_strlit("sec-websocket-key");
    reveal_strlit("authorization");
    assert("authorization"@.len() == 13 && "host"@.len() == 4 && "connection"@.len() == 10);
    assert("upgrade"@.len() == 7 && "sec-websocket-version"@.len() == 21);
    assert("sec-websocket-key"@.len() == 17);
    assert(session::control_url(endpoint) == url);
    let dom = before.dom();
    assert(dom.contains("host"@) && dom.contains("connection"@) && dom.contains("upgrade"@));
    assert(dom.contains("sec-websocket-version"@) && dom.contains("sec-websocket-key"@));
}

/// The control WebSocket is asked for at the whole endpoint, over TLS, with the whole token, and
/// the request is a WebSocket handshake and nothing more; it can be made exactly where the endpoint
/// makes a URL and the token fits a field.
pub proof fn law_the_upgrade_goes_to_the_endpoint_with_the_token(
    endpoint: &str,
    token: &str,
    r: Result<UpgradeRequest, String>,
)
    requires
        call_ensures(upgrade_request, (endpoint, token), r),
    ensures
        r is Ok <==> session::client_head("wss://"@ + endpoint@ + "/"@) is Ok && fits(token@),
        r is Ok ==> upgrades_to("wss://"@ + endpoint@ + "/"@, token@, r->Ok_0),
        session::client_head("wss://"@ + endpoint@ + "/"@) is Err ==> r is Err && r->Err_0@
            == "building WS upgrade request: "@ + session::client_head(
            "wss://"@ + endpoint@ + "/"@,
        )->Err_0,
        session::client_head("wss://"@ + endpoint@ + "/"@) is Ok && !fits(token@) ==> r is Err
            && r->Err_0@ == "building Authorization header: "@ + "failed to parse header value"@,
{
    if r is Ok {
        lemma_upgrades(endpoint@, token@, r->Ok_0);
    }
}

// ---------------------------------------------------------------------------
// The dial.
// ---------------------------------------------------------------------------

/// A dial begins by connecting to the bootstrap's control endpoint, under the bootstrap's CA and
/// with its token; without an endpoint, or without a CA to trust, it does not begin.
pub proof fn law_a_dial_is_the_bootstraps(
    b: Bootstrap,
    pem: &str,
    config: Result<ClientConfig, TlsError>,
    r: Result<(Dial, ClientConfig, DialAction), DialError>,
)
    requires
        pem@ == b.ca_cert_pem@,
        call_ensures(build_tls_config, (pem,), config),
        call_ensures(Dial::begin, (&b,), r),
    ensures
        r is Ok <==> b.ws_endpoint@.len() > 0 && config is Ok,
        r is Ok ==> {
            &&& r->Ok_0.0.endpoint() == b.ws_endpoint@
            &&& r->Ok_0.0.token() == b.read_token@
            &&& r->Ok_0.0.stage() is Connecting
            &&& tls::pinned_roots(r->Ok_0.1) == tls::pinned_roots(config->Ok_0)
            &&& r->Ok_0.2 is Connect
            &&& r->Ok_0.2->endpoint@ == b.ws_endpoint@
        },
        b.ws_endpoint@.len() == 0 ==> r is Err && r->Err_0 is NoEndpoint,
        b.ws_endpoint@.len() > 0 && config is Err ==> r is Err && r->Err_0 is Tls && same_reason(
            r->Err_0->Tls_0,
            config->Err_0,
        ),
{
}

/// What is said of a dial that does not begin.
pub proof fn law_a_dial_that_does_not_begin_says_why(e: DialError, inner: TlsError, s: String, t: String)
    requires
        call_ensures(DialError::message, (&e,), s),
        call_ensures(TlsError::message, (&inner,), t),
    ensures
        e is NoEndpoint ==> s@
            == "bootstrap ws_endpoint is empty; the host must emit it (tracked follow-up)"@,
        e == DialError::Tls(inner) ==> s@ == t@,
{
}

/// One stage of a dial follows the other: the handshake with the server name of the endpoint's
/// host, the upgrade to that endpoint with the token, and the session.
pub proof fn law_a_dial_secures_then_upgrades_then_serves(
    d: &mut Dial,
    endpoint: &str,
    token: &str,
    name: Result<String, String>,
    request: Result<UpgradeRequest, String>,
    r: DialAction,
)
    requires
        endpoint@ == old(d).endpoint(),
        token@ == old(d).token(),
        call_ensures(endpoint_server_name, (endpoint,), name),
        call_ensures(upgrade_request, (endpoint, token), request),
        call_ensures(Dial::advance, (d, StageEnd::Done), r),
    ensures
        final(d).endpoint() == old(d).endpoint(),
        final(d).token() == old(d).token(),
        old(d).stage() is Connecting && name is Ok ==> final(d).stage() is Securing && r is Secure
            && r->server_name@ == name->Ok_0@,
        old(d).stage() is Connecting && name is Err ==> r is Fail && r->message@
            == "invalid TLS server name: "@ + name->Err_0@,
        old(d).stage() is Securing && request is Ok ==> final(d).stage() is Upgrading
            && r is Upgrade && upgrades_to("wss://"@ + endpoint@ + "/"@, token@, r->request),
        old(d).stage() is Securing && request is Err ==> r is Fail && r->message@
            == request->Err_0@,
        old(d).stage() is Upgrading ==> final(d).stage() is Connected && r is Serve,
        old(d).stage() is Connected ==> final(d).stage() is Connected && r is Serve,
        old(d).stage() is Failed ==> final(d).stage() == old(d).stage() && r is Fail,
{
    let said = tls::texts_of(name);
    let h = choose|h: Seq<char>| #[trigger]
        bootstrap::host_part(endpoint@, h) && said == tls::server_name_of(h);
    match old(d).stage() {
        DialStage::Connecting => {
            let n = choose|n: Result<Seq<char>, Seq<char>>| #[trigger]
                tls::names_server(endpoint@, n) && final(d).stage() == session::secured(n);
            let g = choose|g: Seq<char>| #[trigger]
                bootstrap::host_part(endpoint@, g) && n == tls::server_name_of(g);
            bootstrap::law_host_is_unique(endpoint@, g, h);
            if r is Secure {
                let k = choose|k: Seq<char>| #[trigger]
                    bootstrap::host_part(endpoint@, k) && Ok::<Seq<char>, Seq<char>>(
                        r->server_name@,
                    ) == tls::server_name_of(k);
                bootstrap::law_host_is_unique(endpoint@, k, h);
            }
        },
        DialStage::Securing => {
            if r is Upgrade {
                lemma_upgrades(endpoint@, token@, r->request);
            }
        },
        _ => {},
    }
}

/// A stage that did not get done fails the dial, with what is said of that stage.
pub proof fn law_a_dial_fails_with_the_stage_that_failed(
    d: &mut Dial,
    stage: Stage,
    endpoint: &str,
    end: StageEnd,
    said: Result<(), String>,
    r: DialAction,
)
    requires
        !(end is Done),
        endpoint@ == old(d).endpoint(),
        call_ensures(stage_result, (stage, endpoint, end), said),
        call_ensures(Dial::advance, (d, end), r),
        (old(d).stage() is Connecting && stage is ControlConnect) || (old(d).stage() is Securing
            && stage is ControlTls) || (old(d).stage() is Upgrading && stage is ControlUpgrade),
    ensures
        r is Fail,
        r->message@ == said->Err_0@,
        final(d).stage() == DialStage::Failed(r->message@),
{
}

/// A dial that is over stays as it is, whatever is said of a stage: one that got through serves,
/// and one that failed gives its one reason again.
pub proof fn law_a_dial_that_is_over_stays_over(d: &mut Dial, end: StageEnd, r: DialAction)
    requires
        call_ensures(Dial::advance, (d, end), r),
    ensures
        final(d).endpoint() == old(d).endpoint(),
        final(d).token() == old(d).token(),
        old(d).stage() is Connected ==> final(d).stage() is Connected && r is Serve,
        old(d).stage() matches DialStage::Failed(why) ==> final(d).stage() == old(d).stage()
            && r is Fail && r->message@ == why,
        r is Fail ==> final(d).stage() == DialStage::Failed(r->message@),
{
}

// ---------------------------------------------------------------------------
// The session.
// ---------------------------------------------------------------------------

/// A session begins with the device's own `hello` and nothing to run.
pub proof fn law_a_session_opens_with_hello(
    state: AgentState,
    arch: &str,
    hello: DeviceFrame,
    r: (Session, DeviceFrame),
)
    requires
        call_ensures(AgentState::hello, (&state, arch), hello),
        call_ensures(Session::begin, (&state, arch), r),
    ensures
        r.0.pending() is None,
        r.1 is Hello,
        r.1->Hello_0.device_id@ == hello->Hello_0.device_id@,
        r.1->Hello_0.device_id@ == state.device_id@,
        r.1->Hello_0.arch@ == arch@,
        r.1->Hello_0.running_digest@ == state.running_digest@,
{
}

/// Every report is sent: whatever the frame that a sync hands in, and whatever else goes on, the
/// host is sent exactly that frame; and a report changes nothing of what waits or is flagged.
pub proof fn law_every_report_is_sent(
    s: &mut Session,
    state: &mut AgentState,
    frame: DeviceFrame,
    r: Reaction,
)
    requires
        call_ensures(Session::on_event, (s, Event::Report(frame), state), r),
    ensures
        r is Send,
        r->Send_0 == frame,
        final(s).pending() == old(s).pending(),
        final(state).rebootstrap.up() == old(state).rebootstrap.up(),
{
}

/// In particular a failed sync is told to the host: the report that it gives, handed in, is sent,
/// and says that the sync failed.
pub proof fn law_a_failed_sync_is_told_to_the_host(
    run: SyncRun,
    device: &str,
    report: Option<DeviceFrame>,
    s: &mut Session,
    state: &mut AgentState,
    r: Reaction,
)
    requires
        run.stage() is Failed,
        call_ensures(SyncRun::report, (&run, device), report),
        report is Some ==> call_ensures(
            Session::on_event,
            (s, Event::Report(report->0), state),
            r,
        ),
    ensures
        report is Some,
        r is Send,
        r->Send_0 is Status,
        r->Send_0->Status_0.device_id@ == device@,
        r->Send_0->Status_0.state@ == "sync_failed"@,
{
}

/// A frame of the host waits to be run in place of any that waited, and wakes the worker, who takes
/// that frame and leaves nothing.
pub proof fn law_the_newest_frame_is_the_one_that_is_taken(
    s: &mut Session,
    state: &mut AgentState,
    frame: HostFrame,
    r: Reaction,
    later: &mut Session,
    taken: Option<HostFrame>,
)
    requires
        call_ensures(Session::on_event, (s, Event::Frame(frame), state), r),
        *old(later) == *final(s),
        call_ensures(Session::take_work, (later,), taken),
    ensures
        r is Wake,
        r->coalesced == old(s).pending() is Some,
        taken == Some(frame),
        final(later).pending() is None,
        final(state).rebootstrap.up() == old(state).rebootstrap.up(),
{
}

/// A rejected token is reported where the flag is up when a session opens or the flag is raised, in
/// the device's name, and the flag is down before the report goes out; where it is not up, nothing
/// is sent.
pub proof fn law_a_raised_flag_is_reported_and_lowered(
    s: &mut Session,
    state: &mut AgentState,
    event: Event,
    r: Reaction,
)
    requires
        event is Opened || event is Raised,
        call_ensures(Session::on_event, (s, event, state), r),
    ensures
        old(state).rebootstrap.up() ==> r is Send && r->Send_0 is Status
            && r->Send_0->Status_0.device_id@ == old(state).device_id@
            && r->Send_0->Status_0.state@ == "needs_rebootstrap"@ && r->Send_0->Status_0.detail
            is Some && r->Send_0->Status_0.detail->0@
            == "bulk pull rejected the read/control token; re-run `avocado container dev up`"@,
        !old(state).rebootstrap.up() ==> r is Ignore,
        !final(state).rebootstrap.up(),
        final(s).pending() == old(s).pending(),
{
}

/// What the host sends beside frames, and how a session ends.
pub proof fn law_other_events_end_the_session_or_nothing(
    s: &mut Session,
    state: &mut AgentState,
    event: Event,
    r: Reaction,
)
    requires
        call_ensures(Session::on_event, (s, event, state), r),
    ensures
        event is Malformed || event is KeepAlive || event is NonText ==> r is Ignore,
        event is Closed || event is Ended ==> r is End,
        event matches Event::ReadFailed(e) ==> r is Fail && r->Fail_0@
            == "reading control WS frame: "@ + e@,
        !(event is Frame) ==> final(s).pending() == old(s).pending(),
        !(event is Opened) && !(event is Raised) ==> final(state).rebootstrap.up()
            == old(state).rebootstrap.up(),
        final(state).device_id == old(state).device_id,
        final(state).running_digest == old(state).running_digest,
{
}

/// A report of a rejected token that could not be sent is due again, however it came to be; any
/// other frame that could not be sent changes nothing, and no sync is lost by it.
pub proof fn law_an_unsent_rejection_is_due_again(
    s: &mut Session,
    state: &mut AgentState,
    event: Event,
    r: Reaction,
    later: &mut Session,
    after: &mut AgentState,
    frame: DeviceFrame,
    u: (),
)
    requires
        call_ensures(Session::on_event, (s, event, state), r),
        *old(later) == *final(s),
        *old(after) == *final(state),
        call_ensures(Session::send_failed, (later, &frame, after), u),
    ensures
        (event is Opened || event is Raised) && r == Reaction::Send(frame) ==> final(after).rebootstrap.up(),
        frame is Hello || frame is Progress ==> final(after).rebootstrap.up() == final(state).rebootstrap.up(),
        frame matches DeviceFrame::Status(status) ==> (status.state@ != "needs_rebootstrap"@
            ==> final(after).rebootstrap.up() == final(state).rebootstrap.up()),
        final(later).pending() == final(s).pending(),
        final(after).device_id == old(state).device_id,
        final(after).running_digest == old(state).running_digest,
{
}

/// The worker takes what waits, and nothing waits then.
pub proof fn law_taking_leaves_nothing(s: &mut Session, taken: Option<HostFrame>)
    requires
        call_ensures(Session::take_work, (s,), taken),
    ensures
        taken == old(s).pending(),
        final(s).pending() is None,
{
}

} // verus!
