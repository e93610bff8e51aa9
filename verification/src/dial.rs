//! The stages of getting a connection, each with a ceiling on how long it may take.
use vstd::prelude::*;
use crate::span::Span;
use crate::text;

verus! {

/// Ceiling on each stage of reaching the bulk listener, in seconds. It bounds a stall, not a slow
/// link: each of these stages takes milliseconds on a link that works.
pub const UPSTREAM_STAGE_TIMEOUT_SECS: u64 = 30;

/// Ceiling on each stage of reaching the control WebSocket, in seconds.
pub const WS_DIAL_TIMEOUT_SECS: u64 = 30;

/// A stage of getting a connection.
#[derive(Debug, Clone, Copy, PartialEq, Eq, Structural)]
pub enum Stage {
    BulkConnect,
    BulkTls,
    BulkHttp,
    BulkRequest,
    ControlConnect,
    ControlTls,
    ControlUpgrade,
}

/// How a stage ended.
#[derive(Debug, Clone, PartialEq, Eq)]
pub enum StageEnd {
    /// It is done.
    Done,
    /// It did not finish in time.
    TimedOut,
    /// It failed, and why.
    Failed(String),
}

impl Stage {
    /// Whether this is a stage of reaching the bulk listener.
    pub open spec fn is_bulk(self) -> bool {
        self is BulkConnect || self is BulkTls || self is BulkHttp || self is BulkRequest
    }

    /// The ceiling on this stage, in seconds.
    pub open spec fn limit_secs(self) -> u64 {
        if self.is_bulk() {
            UPSTREAM_STAGE_TIMEOUT_SECS
        } else {
            WS_DIAL_TIMEOUT_SECS
        }
    }

    /// What a stage that took too long is called.
    pub open spec fn name(self) -> Seq<char> {
        match self {
            Stage::BulkConnect => "connecting to the bulk listener"@,
            Stage::BulkTls => "the bulk TLS handshake"@,
            Stage::BulkHttp => "the bulk HTTP/1 handshake"@,
            Stage::BulkRequest => "the upstream request"@,
            Stage::ControlConnect => "the control WS TCP connect"@,
            Stage::ControlTls => "the control WS TLS handshake"@,
            Stage::ControlUpgrade => "the control WS upgrade"@,
        }
    }

    /// What a stage that failed was about, on the way to `endpoint`.
    pub open spec fn context(self, endpoint: Seq<char>) -> Seq<char> {
        match self {
            Stage::BulkConnect => "connecting to bulk listener "@ + endpoint,
            Stage::BulkTls => "bulk TLS handshake (pinned CA)"@,
            Stage::BulkHttp => "bulk HTTP/1 handshake"@,
            Stage::BulkRequest => "sending upstream request"@,
            Stage::ControlConnect => "connecting TCP to "@ + endpoint,
            Stage::ControlTls => "TLS handshake to control WS"@,
            Stage::ControlUpgrade => "WebSocket upgrade to control WS"@,
        }
    }

    /// The ceiling on this stage.
    pub fn limit(&self) -> (r: Span)
        ensures
            r.nanos == self.limit_secs() * crate::span::NANOS_PER_SEC,
    {
        Span::from_secs(self.limit_in_secs())
    }

    fn limit_in_secs(&self) -> (r: u64)
        ensures
            r == self.limit_secs(),
    {
        match self {
            Stage::BulkConnect | Stage::BulkTls | Stage::BulkHttp | Stage::BulkRequest => {
                UPSTREAM_STAGE_TIMEOUT_SECS
            },
            Stage::ControlConnect | Stage::ControlTls | Stage::ControlUpgrade => {
                WS_DIAL_TIMEOUT_SECS
            },
        }
    }

    fn name_text(&self) -> (r: &'static str)
        ensures
            r@ == self.name(),
    {
        match self {
            Stage::BulkConnect => "connecting to the bulk listener",
            Stage::BulkTls => "the bulk TLS handshake",
            Stage::BulkHttp => "the bulk HTTP/1 handshake",
            Stage::BulkRequest => "the upstream request",
            Stage::ControlConnect => "the control WS TCP connect",
            Stage::ControlTls => "the control WS TLS handshake",
            Stage::ControlUpgrade => "the control WS upgrade",
        }
    }

    fn context_text(&self, endpoint: &str) -> (r: String)
        ensures
            r@ == self.context(endpoint@),
    {
        match self {
            Stage::BulkConnect => "connecting to bulk listener ".to_string().concat(endpoint),
            Stage::BulkTls => "bulk TLS handshake (pinned CA)".to_string(),
            Stage::BulkHttp => "bulk HTTP/1 handshake".to_string(),
            Stage::BulkRequest => "sending upstream request".to_string(),
            Stage::ControlConnect => "connecting TCP to ".to_string().concat(endpoint),
            Stage::ControlTls => "TLS handshake to control WS".to_string(),
            Stage::ControlUpgrade => "WebSocket upgrade to control WS".to_string(),
        }
    }
}

/// What is said of a stage, on the way to `endpoint`, that did not get done.
pub open spec fn stage_failure(stage: Stage, endpoint: Seq<char>, end: StageEnd) -> Option<
    Seq<char>,
> {
    match end {
        StageEnd::Done => None,
        StageEnd::TimedOut => Some(
            stage.name() + " did not complete within "@ + text::decimal(stage.limit_secs() as nat)
                + "s; the host is unreachable or the connection is half-open"@,
        ),
        StageEnd::Failed(e) => Some(stage.context(endpoint) + ": "@ + e@),
    }
}

/// Whether a stage got done, or what is said of it.
pub fn stage_result(stage: Stage, endpoint: &str, end: StageEnd) -> (r: Result<(), String>)
    ensures
        r is Ok <==> end is Done,
        r is Err ==> Some(r->Err_0@) == stage_failure(stage, endpoint@, end),
{
    match end {
        StageEnd::Done => Ok(()),
        StageEnd::TimedOut => Err(
            stage.name_text().to_string().concat(" did not complete within ").concat(
                text::decimal_text(stage.limit_in_secs()).as_str(),
            ).concat("s; the host is unreachable or the connection is half-open"),
        ),
        StageEnd::Failed(e) => Err(stage.context_text(endpoint).concat(": ").concat(e.as_str())),
    }
}

} // verus!
