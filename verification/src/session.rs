//! One control session: how it is dialled, what opens it, and what each event leads to.
use hyper::header::HeaderValue;
use hyper::HeaderMap;
use rustls::ClientConfig;
use tokio_tungstenite::tungstenite::client::IntoClientRequest;
use vstd::prelude::*;
use crate::bootstrap::Bootstrap;
use crate::dial;
use crate::dial::{Stage, StageEnd};
use crate::headers;
use crate::state;
use crate::state::{AgentState, FlagStep};
use crate::text;
use crate::tls;
use crate::tls::TlsError;
use crate::wire::{DeviceFrame, HostFrame};

verus! {

// ---------------------------------------------------------------------------
// The upgrade request.
// ---------------------------------------------------------------------------

/// The request that upgrades a connection to a WebSocket.
#[derive(Debug)]
pub struct UpgradeRequest {
    pub uri: String,
    pub headers: HeaderMap<HeaderValue>,
}

/// What of the request that `IntoClientRequest` makes of a URL depends on the URL: the text of its
/// URI and the bytes of its host field; or its error.
pub uninterp spec fn client_head(url: Seq<char>) -> Result<(Seq<char>, Seq<u8>), Seq<char>>;

/// The text of the URI of the request for `url`; or the error.
pub open spec fn client_uri(url: Seq<char>) -> Result<Seq<char>, Seq<char>> {
    match client_head(url) {
        Ok(head) => Ok(head.0),
        Err(e) => Err(e),
    }
}

/// The bytes of the host field of the request for `url`, where there is one.
pub open spec fn client_host(url: Seq<char>) -> Seq<u8> {
    client_head(url)->Ok_0.1
}

/// Whether `b` is one of the sixty-four characters of Base64.
pub open spec fn base64_byte(b: u8) -> bool {
    ||| 'A' as u8 <= b <= 'Z' as u8
    ||| 'a' as u8 <= b <= 'z' as u8
    ||| '0' as u8 <= b <= '9' as u8
    ||| b == '+' as u8
    ||| b == '/' as u8
}

/// Whether `key` has the shape that sixteen bytes have in Base64: twenty-two of its characters and
/// two signs of padding.
pub open spec fn key_shape(key: Seq<u8>) -> bool {
    &&& key.len() == 24
    &&& forall|i: int| 0 <= i < 22 ==> base64_byte(#[trigger] key[i])
    &&& key[22] == '=' as u8
    &&& key[23] == '=' as u8
}

/// Whether `fields` are those of a WebSocket handshake with `host`: five names with one value each,
/// three of them fixed, and a key of the right shape.
pub open spec fn handshake_fields(
    fields: Map<Seq<char>, Seq<Seq<u8>>>,
    host: Seq<u8>,
) -> bool {
    &&& fields.dom() == set![
        "host"@,
        "connection"@,
        "upgrade"@,
        "sec-websocket-version"@,
        "sec-websocket-key"@,
    ]
    &&& fields["host"@] == seq![host]
    &&& fields["connection"@] == seq![vstd::utf8::encode_utf8("Upgrade"@)]
    &&& fields["upgrade"@] == seq![vstd::utf8::encode_utf8("websocket"@)]
    &&& fields["sec-websocket-version"@] == seq![vstd::utf8::encode_utf8("13"@)]
    &&& fields["sec-websocket-key"@].len() == 1
    &&& key_shape(fields["sec-websocket-key"@][0])
}

/// Makes the request of a WebSocket handshake with tungstenite's `IntoClientRequest`, and gives
/// its URI's text and its fields. Whether it can be made, its URI and its host field depend on the
/// URL alone. The key is random; of it only the shape is said.
#[verifier::external_body]
fn client_request(url: &str) -> (r: Result<UpgradeRequest, String>)
    ensures
        client_head(url@) is Ok <==> r is Ok,
        r is Ok ==> client_head(url@)->Ok_0.0 == r->Ok_0.uri@,
        r is Ok ==> handshake_fields(headers::fields(r->Ok_0.headers), client_head(url@)->Ok_0.1),
        r is Err ==> client_head(url@)->Err_0 == r->Err_0@,
{
    match url.into_client_request() {
        Ok(request) => {
            let (parts, _) = request.into_parts();
            Ok(UpgradeRequest { uri: parts.uri.to_string(), headers: parts.headers })
        },
        Err(e) => Err(e.to_string()),
    }
}

/// The URL of the control WebSocket at `endpoint`.
pub open spec fn control_url(endpoint: Seq<char>) -> Seq<char> {
    "wss://"@ + endpoint + "/"@
}

/// Whether a token can stand in the `Authorization` field.
pub open spec fn token_fits(token: Seq<char>) -> bool {
    headers::value_ok(vstd::utf8::encode_utf8(headers::bearer(token)))
}

/// What is said of a token that does not fit.
pub open spec fn unfit_token() -> Seq<char> {
    "building Authorization header: "@ + headers::BAD_VALUE_MSG@
}

/// The fields `before` with the token.
pub open spec fn authorized(before: Map<Seq<char>, Seq<Seq<u8>>>, token: Seq<char>) -> Map<
    Seq<char>,
    Seq<Seq<u8>>,
> {
    before.insert("authorization"@, seq![vstd::utf8::encode_utf8(headers::bearer(token))])
}

/// Adds the token to an upgrade request.
pub fn authorize(request: UpgradeRequest, token: &str) -> (r: Result<UpgradeRequest, String>)
    requires
        headers::fields(request.headers).dom().finite(),
        headers::fields(request.headers).len() < 64,
    ensures
        r is Ok <==> token_fits(token@),
        r is Ok ==> r->Ok_0.uri == request.uri && headers::fields(r->Ok_0.headers) == authorized(
            headers::fields(request.headers),
            token@,
        ),
        r is Err ==> r->Err_0@ == unfit_token(),
{
    let bearer = headers::bearer_text(token);
    let value = match headers::header_value(bearer.as_str()) {
        Ok(value) => value,
        Err(e) => return Err("building Authorization header: ".to_string().concat(e.as_str())),
    };
    proof {
        reveal_strlit("authorization");
    }
    let mut request = request;
    headers::insert_header(&mut request.headers, "authorization", value);
    Ok(request)
}

/// Whether `request` upgrades the connection to the control WebSocket at `endpoint`, and carries
/// `token` and nothing else beside the handshake.
pub open spec fn upgrades(endpoint: Seq<char>, token: Seq<char>, request: UpgradeRequest) -> bool {
    &&& client_uri(control_url(endpoint)) == Ok::<Seq<char>, Seq<char>>(request.uri@)
    &&& exists|before: Map<Seq<char>, Seq<Seq<u8>>>| #[trigger]
        handshake_fields(before, client_host(control_url(endpoint))) && headers::fields(
            request.headers,
        ) == authorized(before, token)
}

/// Why an upgrade request cannot be made, where it cannot.
pub open spec fn upgrade_failure(endpoint: Seq<char>, token: Seq<char>) -> Option<Seq<char>> {
    match client_uri(control_url(endpoint)) {
        Err(e) => Some("building WS upgrade request: "@ + e),
        Ok(_) => if token_fits(token) {
            None
        } else {
            Some(unfit_token())
        },
    }
}

proof fn lemma_handshake_is_small(fields: Map<Seq<char>, Seq<Seq<u8>>>, host: Seq<u8>)
    requires
        handshake_fields(fields, host),
    ensures
        fields.dom().finite(),
        fields.len() <= 5,
{
    let s0 = Set::<Seq<char>>::empty();
    let s1 = s0.insert("host"@);
    let s2 = s1.insert("connection"@);
    let s3 = s2.insert("upgrade"@);
    let s4 = s3.insert("sec-websocket-version"@);
    let s5 = s4.insert("sec-websocket-key"@);
    assert(fields.dom() =~= s5);
}

/// The request that upgrades the connection to the control WebSocket.
pub fn upgrade_request(endpoint: &str, token: &str) -> (r: Result<UpgradeRequest, String>)
    ensures
        r is Ok <==> upgrade_failure(endpoint@, token@) is None,
        r is Ok ==> upgrades(endpoint@, token@, r->Ok_0),
        r is Err ==> Some(r->Err_0@) == upgrade_failure(endpoint@, token@),
{
    let url = "wss://".to_string().concat(endpoint).concat("/");
    let request = match client_request(url.as_str()) {
        Ok(request) => request,
        Err(e) => return Err("building WS upgrade request: ".to_string().concat(e.as_str())),
    };
    proof {
        lemma_handshake_is_small(headers::fields(request.headers), client_host(url@));
    }
    authorize(request, token)
}

// ---------------------------------------------------------------------------
// The dial.
// ---------------------------------------------------------------------------

/// Why the control WebSocket cannot even be dialled.
#[derive(Debug, Clone, PartialEq, Eq)]
pub enum DialError {
    /// The bootstrap does not say where the control WebSocket is.
    NoEndpoint,
    /// There is no TLS configuration.
    Tls(TlsError),
}

impl DialError {
    /// What is said of this error.
    pub open spec fn text(self) -> Seq<char> {
        match self {
            DialError::NoEndpoint => {
                "bootstrap ws_endpoint is empty; the host must emit it (tracked follow-up)"@
            },
            DialError::Tls(e) => e.text(),
        }
    }

    /// What is said of this error.
    pub fn message(&self) -> (r: String)
        ensures
            r@ == self.text(),
    {
        match self {
            DialError::NoEndpoint => {
                "bootstrap ws_endpoint is empty; the host must emit it (tracked follow-up)".to_string()
            },
            DialError::Tls(e) => e.message(),
        }
    }
}

/// Where a dial stands.
pub ghost enum DialStage {
    /// The host is being connected to.
    Connecting,
    /// The TLS handshake is under way.
    Securing,
    /// The WebSocket upgrade is under way.
    Upgrading,
    /// The session is there.
    Connected,
    /// The dial failed, and why.
    Failed(Seq<char>),
}

/// What a dial with the endpoint's server name `name` leads to once the connection is there.
pub open spec fn secured(name: Result<Seq<char>, Seq<char>>) -> DialStage {
    match name {
        Ok(_) => DialStage::Securing,
        Err(e) => DialStage::Failed("invalid TLS server name: "@ + e),
    }
}

/// Whether a dial of `endpoint` with `token` goes from `before` to `after` where the stage it was
/// at ended with `end`.
pub open spec fn dial_goes(
    endpoint: Seq<char>,
    token: Seq<char>,
    before: DialStage,
    end: StageEnd,
    after: DialStage,
) -> bool {
    match (before, end) {
        (DialStage::Connecting, StageEnd::Done) => {
            exists|name: Result<Seq<char>, Seq<char>>| #[trigger]
                tls::names_server(endpoint, name) && after == secured(name)
        },
        (DialStage::Connecting, _) => after == DialStage::Failed(
            dial::stage_failure(Stage::ControlConnect, endpoint, end)->0,
        ),
        (DialStage::Securing, StageEnd::Done) => after == match upgrade_failure(endpoint, token) {
            None => DialStage::Upgrading,
            Some(why) => DialStage::Failed(why),
        },
        (DialStage::Securing, _) => after == DialStage::Failed(
            dial::stage_failure(Stage::ControlTls, endpoint, end)->0,
        ),
        (DialStage::Upgrading, StageEnd::Done) => after == DialStage::Connected,
        (DialStage::Upgrading, _) => after == DialStage::Failed(
            dial::stage_failure(Stage::ControlUpgrade, endpoint, end)->0,
        ),
        (DialStage::Connected, _) => after == DialStage::Connected,
        (DialStage::Failed(why), _) => after == DialStage::Failed(why),
    }
}

/// What the caller is to do next.
#[derive(Debug)]
pub enum DialAction {
    /// Connect to `endpoint`.
    Connect { endpoint: String },
    /// Do the TLS handshake with `server_name`.
    Secure { server_name: String },
    /// Send the request and do the WebSocket handshake.
    Upgrade { request: UpgradeRequest },
    /// Serve the session.
    Serve,
    /// Nothing: the dial failed.
    Fail { message: String },
}

/// Whether `action` is what a dial at `stage` asks for.
pub open spec fn dial_asks(
    endpoint: Seq<char>,
    token: Seq<char>,
    stage: DialStage,
    action: DialAction,
) -> bool {
    match (stage, action) {
        (DialStage::Connecting, DialAction::Connect { endpoint: to }) => to@ == endpoint,
        (DialStage::Securing, DialAction::Secure { server_name }) => tls::names_server(
            endpoint,
            Ok(server_name@),
        ),
        (DialStage::Upgrading, DialAction::Upgrade { request }) => upgrades(
            endpoint,
            token,
            request,
        ),
        (DialStage::Connected, DialAction::Serve) => true,
        (DialStage::Failed(why), DialAction::Fail { message }) => message@ == why,
        _ => false,
    }
}

#[derive(Debug)]
enum DialStep {
    Connecting,
    Securing,
    Upgrading,
    Connected,
    Failed(String),
}

impl DialStep {
    spec fn stage(self) -> DialStage {
        match self {
            DialStep::Connecting => DialStage::Connecting,
            DialStep::Securing => DialStage::Securing,
            DialStep::Upgrading => DialStage::Upgrading,
            DialStep::Connected => DialStage::Connected,
            DialStep::Failed(why) => DialStage::Failed(why@),
        }
    }
}

/// One dial of the control WebSocket.
#[derive(Debug)]
pub struct Dial {
    endpoint: String,
    token: String,
    step: DialStep,
}

impl Dial {
    /// Where the control WebSocket is.
    pub closed spec fn endpoint(self) -> Seq<char> {
        self.endpoint@
    }

    /// The token that the host is shown.
    pub closed spec fn token(self) -> Seq<char> {
        self.token@
    }

    /// Where this dial stands.
    pub closed spec fn stage(self) -> DialStage {
        self.step.stage()
    }

    /// Begins to dial the control WebSocket of `bootstrap`: gives the dial, the TLS configuration,
    /// and what to do first.
    pub fn begin(bootstrap: &Bootstrap) -> (r: Result<(Dial, ClientConfig, DialAction), DialError>)
        ensures
            match r {
                Ok((dial, config, action)) => {
                    &&& bootstrap.ws_endpoint@.len() > 0
                    &&& tls::pem_outcome(bootstrap.ca_cert_pem@, Ok(tls::pinned_roots(config)))
                    &&& dial.endpoint() == bootstrap.ws_endpoint@
                    &&& dial.token() == bootstrap.read_token@
                    &&& dial.stage() == DialStage::Connecting
                    &&& dial_asks(dial.endpoint(), dial.token(), dial.stage(), action)
                },
                Err(DialError::NoEndpoint) => bootstrap.ws_endpoint@.len() == 0,
                Err(DialError::Tls(e)) => {
                    &&& bootstrap.ws_endpoint@.len() > 0
                    &&& tls::pem_outcome(bootstrap.ca_cert_pem@, Err(e))
                },
            },
    {
        if bootstrap.ws_endpoint.as_str().is_empty() {
            return Err(DialError::NoEndpoint);
        }
        let config = match tls::build_tls_config(bootstrap.ca_cert_pem.as_str()) {
            Ok(config) => config,
            Err(e) => return Err(DialError::Tls(e)),
        };
        let dial = Dial {
            endpoint: bootstrap.ws_endpoint.as_str().to_string(),
            token: bootstrap.read_token.as_str().to_string(),
            step: DialStep::Connecting,
        };
        let action = DialAction::Connect { endpoint: bootstrap.ws_endpoint.as_str().to_string() };
        Ok((dial, config, action))
    }

    fn fail(&mut self, message: String) -> (r: DialAction)
        ensures
            final(self).endpoint() == old(self).endpoint(),
            final(self).token() == old(self).token(),
            final(self).stage() == DialStage::Failed(message@),
            r is Fail,
            r->message@ == message@,
    {
        let copy = message.as_str().to_string();
        self.step = DialStep::Failed(message);
        DialAction::Fail { message: copy }
    }

    /// Takes in how the stage ended, and says what comes next.
    pub fn advance(&mut self, end: StageEnd) -> (r: DialAction)
        ensures
            final(self).endpoint() == old(self).endpoint(),
            final(self).token() == old(self).token(),
            dial_goes(
                old(self).endpoint(),
                old(self).token(),
                old(self).stage(),
                end,
                final(self).stage(),
            ),
            dial_asks(final(self).endpoint(), final(self).token(), final(self).stage(), r),
    {
        let stage = match &self.step {
            DialStep::Connecting => Stage::ControlConnect,
            DialStep::Securing => Stage::ControlTls,
            DialStep::Upgrading => Stage::ControlUpgrade,
            DialStep::Connected => return DialAction::Serve,
            DialStep::Failed(why) => return DialAction::Fail { message: why.as_str().to_string() },
        };
        match dial::stage_result(stage, self.endpoint.as_str(), end) {
            Ok(()) => {},
            Err(message) => return self.fail(message),
        }
        match stage {
            Stage::ControlConnect => match tls::endpoint_server_name(self.endpoint.as_str()) {
                Ok(server_name) => {
                    self.step = DialStep::Securing;
                    DialAction::Secure { server_name }
                },
                Err(e) => {
                    let message = "invalid TLS server name: ".to_string().concat(e.as_str());
                    self.fail(message)
                },
            },
            Stage::ControlTls => match upgrade_request(
                self.endpoint.as_str(),
                self.token.as_str(),
            ) {
                Ok(request) => {
                    self.step = DialStep::Upgrading;
                    DialAction::Upgrade { request }
                },
                Err(message) => self.fail(message),
            },
            _ => {
                self.step = DialStep::Connected;
                DialAction::Serve
            },
        }
    }
}

/// Whether a dial of `endpoint` with `token` went through `stages` where its stages ended with
/// `ends`, one after the other.
pub open spec fn dial_went(
    endpoint: Seq<char>,
    token: Seq<char>,
    stages: Seq<DialStage>,
    ends: Seq<StageEnd>,
) -> bool {
    &&& stages.len() == ends.len() + 1
    &&& stages[0] == DialStage::Connecting
    &&& forall|i: int|
        0 <= i < ends.len() ==> dial_goes(
            endpoint,
            token,
            stages[i],
            #[trigger] ends[i],
            stages[i + 1],
        )
}

proof fn lemma_dial_order(
    endpoint: Seq<char>,
    token: Seq<char>,
    stages: Seq<DialStage>,
    ends: Seq<StageEnd>,
    k: int,
)
    requires
        dial_went(endpoint, token, stages, ends),
        0 <= k < stages.len(),
    ensures
        stages[k] is Connecting <==> k == 0,
        stages[k] is Securing ==> k == 1 && ends[0] is Done,
        stages[k] is Upgrading ==> k == 2 && ends[0] is Done && ends[1] is Done,
        stages[k] is Connected ==> k >= 3 && ends[0] is Done && ends[1] is Done && ends[2] is Done,
    decreases k,
{
    if k > 0 {
        lemma_dial_order(endpoint, token, stages, ends, k - 1);
        assert(dial_goes(endpoint, token, stages[k - 1], ends[k - 1], stages[k]));
    }
}

/// The token goes out only over TLS on the control leg too: the upgrade request that carries it is
/// handed out only after the connection and the TLS handshake are done, and a session is served
/// only after the upgrade is done as well.
pub proof fn law_upgrade_follows_tls(
    endpoint: Seq<char>,
    token: Seq<char>,
    stages: Seq<DialStage>,
    ends: Seq<StageEnd>,
    action: DialAction,
)
    requires
        dial_went(endpoint, token, stages, ends),
        dial_asks(endpoint, token, stages.last(), action),
    ensures
        action is Upgrade ==> ends.len() == 2 && ends[0] is Done && ends[1] is Done && upgrades(
            endpoint,
            token,
            action->request,
        ),
        action is Serve ==> ends.len() >= 3 && ends[0] is Done && ends[1] is Done
            && ends[2] is Done,
{
    lemma_dial_order(endpoint, token, stages, ends, stages.len() - 1);
}

// ---------------------------------------------------------------------------
// Serving.
// ---------------------------------------------------------------------------

/// Something that happens in a session once its `hello` has gone out.
#[derive(Debug, Clone, PartialEq, Eq)]
pub enum Event {
    /// The session has just begun.
    Opened,
    /// A sync has something to report.
    Report(DeviceFrame),
    /// The re-bootstrap flag was raised.
    Raised,
    /// The host sent a frame.
    Frame(HostFrame),
    /// The host sent a text that is no frame.
    Malformed,
    /// The host closed the session.
    Closed,
    /// The host sent a ping or a pong.
    KeepAlive,
    /// The host sent something else than a text.
    NonText,
    /// The stream ended.
    Ended,
    /// Reading failed, and why.
    ReadFailed(String),
}

/// What an event leads to.
#[derive(Debug, Clone, PartialEq, Eq)]
pub enum Reaction {
    /// Send the frame to the host.
    Send(DeviceFrame),
    /// Wake the sync worker; says whether a sync that was still waiting has been superseded.
    Wake { coalesced: bool },
    /// Do nothing.
    Ignore,
    /// End the session; nothing went wrong.
    End,
    /// End the session with an error.
    Fail(String),
}

/// One control session. It keeps the newest sync that has not begun; the worker that runs syncs
/// takes it from here. Only the newest is worth running: an older digest would cost a restart of
/// the container and achieve nothing.
#[derive(Debug)]
pub struct Session {
    pending: Option<HostFrame>,
}

/// Whether an event is one at which the re-bootstrap flag is looked at.
pub open spec fn checks_flag(event: Event) -> bool {
    event is Opened || event is Raised
}

/// Whether a frame reports that the token was rejected.
pub open spec fn announces(frame: DeviceFrame) -> bool {
    frame is Status && frame->Status_0.state@ == state::NEEDS_REBOOTSTRAP@
}

/// One step of a session as a whole: an event, the worker taking the sync that waits, the proxy
/// raising the re-bootstrap flag, or a frame that is handed back because it could not be sent.
pub ghost enum Step {
    Event(Event),
    Take,
    Raise,
    Unsent(DeviceFrame),
}

impl Step {
    /// Whether this step brings a frame of the host.
    pub open spec fn brings_frame(self) -> bool {
        self is Event && self->Event_0 is Frame
    }

    /// Whether the re-bootstrap flag is looked at in this step.
    pub open spec fn checks(self) -> bool {
        self is Event && checks_flag(self->Event_0)
    }

    /// Whether this step hands back a report that the token was rejected.
    pub open spec fn hands_back(self) -> bool {
        self is Unsent && announces(self->Unsent_0)
    }

    /// What this step does to the re-bootstrap flag.
    pub open spec fn on_flag(self) -> FlagStep {
        if self is Raise || self.hands_back() {
            FlagStep::Raise
        } else if self.checks() {
            FlagStep::Lower
        } else {
            FlagStep::Keep
        }
    }
}

/// The sync that waits after `step`, where `before` waited.
pub open spec fn pending_next(before: Option<HostFrame>, step: Step) -> Option<HostFrame> {
    match step {
        Step::Event(Event::Frame(frame)) => Some(frame),
        Step::Take => None,
        _ => before,
    }
}

/// Whether an event hands out a report that the token was rejected, where `raised` says whether the
/// flag is up.
pub open spec fn reports_rejection(event: Event, raised: bool) -> bool {
    checks_flag(event) && raised
}

/// What an event leads to, where `waiting` says whether a sync waits and `raised` whether the
/// re-bootstrap flag is up.
pub open spec fn reacts(
    device_id: Seq<char>,
    waiting: bool,
    raised: bool,
    event: Event,
    r: Reaction,
) -> bool {
    match event {
        Event::Opened | Event::Raised => if reports_rejection(event, raised) {
            r is Send && state::reports(
                r->Send_0,
                device_id,
                state::NEEDS_REBOOTSTRAP@,
                state::REBOOTSTRAP_DETAIL@,
            )
        } else {
            r is Ignore
        },
        Event::Report(frame) => r == Reaction::Send(frame),
        Event::Frame(_) => r == (Reaction::Wake { coalesced: waiting }),
        Event::Malformed | Event::KeepAlive | Event::NonText => r is Ignore,
        Event::Closed | Event::Ended => r is End,
        Event::ReadFailed(e) => r is Fail && r->Fail_0@ == "reading control WS frame: "@ + e@,
    }
}

impl Session {
    /// The sync that waits to be run, where one does.
    pub closed spec fn pending(self) -> Option<HostFrame> {
        self.pending
    }

    /// Begins a session: gives it and the `hello` to open it with.
    pub fn begin(state: &AgentState, arch: &str) -> (r: (Session, DeviceFrame))
        ensures
            r.0.pending() is None,
            state.greets(arch@, r.1),
    {
        (Session { pending: None }, state.hello(arch))
    }

    /// Takes in an event, and says what it leads to.
    ///
    /// The re-bootstrap flag is lowered before the report of it goes out, so that a raise that
    /// comes while the report is being sent is reported in its turn, and none is reported twice. A
    /// frame that could not be sent is handed back with [`Session::send_failed`].
    pub fn on_event(&mut self, event: Event, state: &mut AgentState) -> (r: Reaction)
        ensures
            reacts(
                old(state).device_id@,
                old(self).pending() is Some,
                old(state).rebootstrap.up(),
                event,
                r,
            ),
            final(self).pending() == pending_next(old(self).pending(), Step::Event(event)),
            final(state).rebootstrap.up() == state::flag_next(
                old(state).rebootstrap.up(),
                Step::Event(event).on_flag(),
            ),
            final(state).device_id == old(state).device_id,
            final(state).running_digest == old(state).running_digest,
    {
        match event {
            Event::Opened | Event::Raised => if state.rebootstrap.take() {
                Reaction::Send(state::rebootstrap_status(state))
            } else {
                Reaction::Ignore
            },
            Event::Report(frame) => Reaction::Send(frame),
            Event::Frame(frame) => {
                let coalesced = self.pending.is_some();
                self.pending = Some(frame);
                Reaction::Wake { coalesced }
            },
            Event::Malformed | Event::KeepAlive | Event::NonText => Reaction::Ignore,
            Event::Closed | Event::Ended => Reaction::End,
            Event::ReadFailed(e) => Reaction::Fail(
                "reading control WS frame: ".to_string().concat(e.as_str()),
            ),
        }
    }

    /// Takes in that `frame` could not be sent. A report of a rejected token is due again: the flag
    /// goes back up, and the opening of the next session reports it.
    pub fn send_failed(&mut self, frame: &DeviceFrame, state: &mut AgentState)
        ensures
            final(self).pending() == pending_next(old(self).pending(), Step::Unsent(*frame)),
            final(state).rebootstrap.up() == state::flag_next(
                old(state).rebootstrap.up(),
                Step::Unsent(*frame).on_flag(),
            ),
            final(state).device_id == old(state).device_id,
            final(state).running_digest == old(state).running_digest,
    {
        match frame {
            DeviceFrame::Status(status) => {
                if text::same_text(status.state.as_str(), state::NEEDS_REBOOTSTRAP) {
                    state.rebootstrap.raise();
                }
            },
            _ => {},
        }
    }

    /// Takes the sync that waits, for the worker to run it.
    pub fn take_work(&mut self) -> (r: Option<HostFrame>)
        ensures
            r == old(self).pending(),
            final(self).pending() == pending_next(old(self).pending(), Step::Take),
    {
        self.pending.take()
    }
}

// ---------------------------------------------------------------------------
// Laws.
// ---------------------------------------------------------------------------

/// The sync that waits after `steps`.
pub open spec fn pending_after(steps: Seq<Step>) -> Option<HostFrame>
    decreases steps.len(),
{
    if steps.len() == 0 {
        None
    } else {
        pending_next(pending_after(steps.drop_last()), steps.last())
    }
}

/// Whether the re-bootstrap flag is up after `steps`, where it was `before` they began.
pub open spec fn flag_after(before: bool, steps: Seq<Step>) -> bool
    decreases steps.len(),
{
    if steps.len() == 0 {
        before
    } else {
        state::flag_next(flag_after(before, steps.drop_last()), steps.last().on_flag())
    }
}

/// Whether step `j` of `steps` hands out a report that the token was rejected.
pub open spec fn reported_at(before: bool, steps: Seq<Step>, j: int) -> bool {
    &&& 0 <= j < steps.len()
    &&& steps[j] is Event
    &&& reports_rejection(steps[j]->Event_0, flag_after(before, steps.take(j)))
}

/// Whether step `k` hands back what step `j` handed out: no look at the flag lies between them.
pub open spec fn handed_back(steps: Seq<Step>, j: int, k: int) -> bool {
    &&& j < k < steps.len()
    &&& steps[k].hands_back()
    &&& forall|m: int| j < m < k ==> !(#[trigger] steps[m]).checks()
}

/// Whether the report that step `j` of `steps` hands out was sent: it is not handed back.
pub open spec fn sent_at(before: bool, steps: Seq<Step>, j: int) -> bool {
    reported_at(before, steps, j) && forall|k: int| !(#[trigger] handed_back(steps, j, k))
}

/// Whether reports are handed back only after they were handed out.
pub open spec fn hands_back_its_own(before: bool, steps: Seq<Step>) -> bool {
    forall|k: int|
        0 <= k < steps.len() && (#[trigger] steps[k]).hands_back() ==> exists|j: int|
            #[trigger] reported_at(before, steps, j) && handed_back(steps, j, k)
}

/// The newest sync wins: what waits is the last frame that the host sent, as long as the worker
/// has not taken it, however many came before it.
pub proof fn law_the_newest_sync_wins(steps: Seq<Step>, i: int)
    requires
        0 <= i < steps.len(),
        steps[i].brings_frame(),
        forall|k: int|
            i < k < steps.len() ==> !(#[trigger] steps[k]).brings_frame() && !(steps[k] is Take),
    ensures
        pending_after(steps) == Some(steps[i]->Event_0->Frame_0),
    decreases steps.len(),
{
    if i < steps.len() - 1 {
        assert(!steps[steps.len() - 1].brings_frame());
        law_the_newest_sync_wins(steps.drop_last(), i);
    }
}

/// A sync is run once: after the worker has taken what was there, nothing waits until the host
/// sends another frame.
pub proof fn law_a_taken_sync_does_not_come_back(steps: Seq<Step>, i: int)
    requires
        0 <= i < steps.len(),
        steps[i] is Take,
        forall|k: int| i < k < steps.len() ==> !(#[trigger] steps[k]).brings_frame(),
    ensures
        pending_after(steps) is None,
    decreases steps.len(),
{
    if i < steps.len() - 1 {
        assert(!steps[steps.len() - 1].brings_frame());
        law_a_taken_sync_does_not_come_back(steps.drop_last(), i);
    }
}

/// The first look at the flag after a raise reports it, in the same session or at the opening of
/// the next.
pub proof fn law_a_raise_is_reported(before: bool, steps: Seq<Step>, i: int, j: int)
    requires
        0 <= i < j < steps.len(),
        steps[i] is Raise,
        steps[j].checks(),
        forall|k: int| i < k < j ==> !(#[trigger] steps[k]).checks(),
    ensures
        reported_at(before, steps, j),
{
    lemma_flag_stays_up(before, steps.take(j), i);
}

proof fn lemma_flag_stays_up(before: bool, steps: Seq<Step>, i: int)
    requires
        0 <= i < steps.len(),
        steps[i] is Raise,
        forall|k: int| i < k < steps.len() ==> !(#[trigger] steps[k]).checks(),
    ensures
        flag_after(before, steps),
    decreases steps.len(),
{
    if i < steps.len() - 1 {
        assert(!steps[steps.len() - 1].checks());
        lemma_flag_stays_up(before, steps.drop_last(), i);
    }
}

/// No raise is lost: at any time after a raise, a report has been sent since, or the flag is still
/// up and the next look at it reports it.
pub proof fn law_a_raise_is_sent_or_still_due(before: bool, steps: Seq<Step>, i: int)
    requires
        0 <= i < steps.len(),
        steps[i] is Raise,
    ensures
        flag_after(before, steps) || exists|j: int| i < j && #[trigger] sent_at(before, steps, j),
    decreases steps.len(),
{
    let last = steps.len() - 1;
    let sooner = steps.drop_last();
    if !flag_after(before, steps) {
        assert(steps[last] == steps.last());
        assert(sooner =~= steps.take(last));
        if steps.last().checks() && flag_after(before, sooner) {
            assert(reported_at(before, steps, last));
            assert(sent_at(before, steps, last));
        } else {
            law_a_raise_is_sent_or_still_due(before, sooner, i);
            let j = choose|j: int| i < j && #[trigger] sent_at(before, sooner, j);
            assert(sooner.take(j) =~= steps.take(j));
            assert(reported_at(before, steps, j));
            assert forall|k: int| !(#[trigger] handed_back(steps, j, k)) by {
                if handed_back(steps, j, k) {
                    assert(k != last);
                    assert(forall|m: int| j < m < k ==> sooner[m] == steps[m]);
                    assert(handed_back(sooner, j, k));
                }
            }
            assert(sent_at(before, steps, j));
        }
    }
}

/// No raise is sent twice: between two reports that were sent the flag was raised again.
pub proof fn law_two_reports_need_two_raises(before: bool, steps: Seq<Step>, a: int, b: int)
    requires
        hands_back_its_own(before, steps),
        sent_at(before, steps, a),
        sent_at(before, steps, b),
        a < b,
    ensures
        exists|i: int| a < i < b && #[trigger] steps[i] is Raise,
{
    lemma_report_needs_a_raise(before, steps, a, b);
}

proof fn lemma_report_needs_a_raise(before: bool, steps: Seq<Step>, a: int, b: int)
    requires
        hands_back_its_own(before, steps),
        sent_at(before, steps, a),
        reported_at(before, steps, b),
        a < b,
    ensures
        exists|i: int| a < i < b && #[trigger] steps[i] is Raise,
    decreases b,
{
    let part = steps.take(b);
    lemma_flag_has_a_source(before, part, a);
    let i = choose|i: int| #[trigger] raises_flag(part, a, i);
    assert(steps[i] == part[i]);
    if !(steps[i] is Raise) {
        // Step `i` hands back a report that came after `a`, which in turn needs a raise.
        let j = choose|j: int| #[trigger]
            reported_at(before, steps, j) && handed_back(steps, j, i);
        assert(!handed_back(steps, a, i));
        if j < a {
            assert(steps[a].checks());
        }
        lemma_report_needs_a_raise(before, steps, a, j);
    }
}

/// Whether step `i`, which comes after `a`, puts the flag up.
spec fn raises_flag(steps: Seq<Step>, a: int, i: int) -> bool {
    a < i < steps.len() && (steps[i] is Raise || steps[i].hands_back())
}

proof fn lemma_flag_has_a_source(before: bool, steps: Seq<Step>, a: int)
    requires
        0 <= a < steps.len(),
        steps[a].checks(),
        flag_after(before, steps),
    ensures
        exists|i: int| #[trigger] raises_flag(steps, a, i),
    decreases steps.len(),
{
    let last = steps.len() - 1;
    if steps[last] is Raise || steps[last].hands_back() {
        assert(raises_flag(steps, a, last));
    } else {
        assert(a != last);
        let sooner = steps.drop_last();
        lemma_flag_has_a_source(before, sooner, a);
        let i = choose|i: int| #[trigger] raises_flag(sooner, a, i);
        assert(raises_flag(steps, a, i));
    }
}

} // verus!
