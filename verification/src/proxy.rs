//! The loopback registry proxy: what is asked of the bulk upstream, and what the engine is told.
//!
//! The upstream's status is classified before anything of a successful reply is opened, so a
//! rejected read never reaches the engine as a success.
use hyper::header::HeaderValue;
use hyper::HeaderMap;
use vstd::prelude::*;
use crate::headers;
use crate::idle;
use crate::idle::IdleClock;
use crate::span;
use crate::state;
use crate::state::{FlagStep, ReBootstrap};

verus! {

/// What the engine is told where the bulk upstream rejects the token. It carries nothing of the
/// upstream's status or fields.
pub const REBOOTSTRAP_MSG: &'static str =
    "bulk upstream rejected the read/control token; re-run `avocado container dev up`";

/// What the engine is told of a method that is not proxied.
pub const METHOD_MSG: &'static str = "only GET and HEAD are proxied";

/// What the engine is told where the bulk upstream answers with an error that may pass.
pub const UPSTREAM_ERROR_MSG: &'static str = "bulk upstream returned an error";

/// What the engine is told where the bulk upstream cannot be reached.
pub const UNREACHABLE_MSG: &'static str = "bulk upstream unreachable";

/// The content type of what the engine is told.
pub const TEXT_PLAIN: &'static str = "text/plain; charset=utf-8";

// ---------------------------------------------------------------------------
// Methods.
// ---------------------------------------------------------------------------

/// A method that reads. No other is ever forwarded.
#[derive(Debug, Clone, Copy, PartialEq, Eq, Structural)]
pub enum ReadMethod {
    Get,
    Head,
}

/// The reading method that `method` names, where it names one.
pub open spec fn read_method(method: Seq<char>) -> Option<ReadMethod> {
    if method == "GET"@ {
        Some(ReadMethod::Get)
    } else if method == "HEAD"@ {
        Some(ReadMethod::Head)
    } else {
        None
    }
}

// ---------------------------------------------------------------------------
// Replies.
// ---------------------------------------------------------------------------

/// What the body of a reply is.
#[derive(Debug, Clone, Copy, PartialEq, Eq)]
pub enum ReplyBody {
    /// The upstream's body, streamed through.
    Upstream,
    /// A fixed text.
    Text(&'static str),
}

/// What the engine is answered.
#[derive(Debug)]
pub struct EngineReply {
    pub status: u16,
    pub headers: HeaderMap<HeaderValue>,
    pub body: ReplyBody,
}

impl EngineReply {
    /// Whether this is the plain-text reply `message` with `status`, and nothing else.
    pub open spec fn is_error(self, status: u16, message: Seq<char>) -> bool {
        &&& self.status == status
        &&& headers::fields(self.headers) == headers::only(
            "content-type"@,
            vstd::utf8::encode_utf8(TEXT_PLAIN@),
        )
        &&& self.body is Text
        &&& self.body->Text_0@ == message
    }
}

proof fn lemma_text_plain()
    ensures
        headers::value_ok(vstd::utf8::encode_utf8(TEXT_PLAIN@)),
        headers::lower_name("content-type"@),
{
    reveal_strlit("text/plain; charset=utf-8");
    reveal_strlit("content-type");
    assert(vstd::utf8::is_ascii_chars(TEXT_PLAIN@));
    vstd::utf8::is_ascii_chars_encode_utf8(TEXT_PLAIN@);
}

/// The plain-text reply `message` with `status`.
pub fn gateway_error(status: u16, message: &'static str) -> (r: EngineReply)
    ensures
        r.is_error(status, message@),
{
    proof {
        lemma_text_plain();
    }
    let mut map = headers::new_headers();
    headers::append_header(&mut map, "content-type", headers::header_value(TEXT_PLAIN).unwrap());
    EngineReply { status, headers: map, body: ReplyBody::Text(message) }
}

/// Accepts a method that reads; any other is answered at once and never reaches the host.
pub fn accept_method(method: &str) -> (r: Result<ReadMethod, EngineReply>)
    ensures
        match read_method(method@) {
            Some(m) => r is Ok && r->Ok_0 == m,
            None => r is Err && r->Err_0.is_error(405, METHOD_MSG@),
        },
{
    if crate::text::same_text(method, "GET") {
        Ok(ReadMethod::Get)
    } else if crate::text::same_text(method, "HEAD") {
        Ok(ReadMethod::Head)
    } else {
        Err(gateway_error(405, METHOD_MSG))
    }
}

// ---------------------------------------------------------------------------
// Fields that pass.
// ---------------------------------------------------------------------------

/// The fields of an upstream reply that the engine may see. A strict list: what is not on it is
/// dropped, `www-authenticate` above all.
pub open spec fn passthrough() -> Seq<Seq<char>> {
    seq![
        "content-type"@,
        "content-length"@,
        "content-range"@,
        "accept-ranges"@,
        "docker-content-digest"@,
        "etag"@,
        "last-modified"@,
    ]
}

/// The fields that pass of an upstream reply's: of each name on the list that is there, the first
/// value.
pub open spec fn passed(upstream: Map<Seq<char>, Seq<Seq<u8>>>) -> Map<Seq<char>, Seq<Seq<u8>>> {
    Map::new(
        |name: Seq<char>| passthrough().contains(name) && upstream.contains_key(name),
        |name: Seq<char>| seq![upstream[name][0]],
    )
}

fn passthrough_names() -> (r: Vec<&'static str>)
    ensures
        r@.len() == passthrough().len(),
        forall|i: int| 0 <= i < r@.len() ==> (#[trigger] r@[i])@ == passthrough()[i],
{
    vec![
        "content-type",
        "content-length",
        "content-range",
        "accept-ranges",
        "docker-content-digest",
        "etag",
        "last-modified",
    ]
}

proof fn lemma_passthrough_names()
    ensures
        passthrough().len() == 7,
        passthrough().no_duplicates(),
        forall|i: int| 0 <= i < 7 ==> headers::lower_name(#[trigger] passthrough()[i]),
        !passthrough().contains("www-authenticate"@),
{
    reveal_strlit("content-type");
    reveal_strlit("content-length");
    reveal_strlit("content-range");
    reveal_strlit("accept-ranges");
    reveal_strlit("docker-content-digest");
    reveal_strlit("etag");
    reveal_strlit("last-modified");
    reveal_strlit("www-authenticate");
    let names = passthrough();
    assert(names[0].len() == 12);
    assert(names[1].len() == 14);
    assert(names[2].len() == 13 && names[2][0] == 'c');
    assert(names[3].len() == 13 && names[3][0] == 'a');
    assert(names[4].len() == 21);
    assert(names[5].len() == 4);
    assert(names[6].len() == 13 && names[6][0] == 'l');
    assert("www-authenticate"@.len() == 16);
}

/// The fields that pass of an upstream reply's.
pub fn pass_headers(upstream: &HeaderMap<HeaderValue>) -> (r: HeaderMap<HeaderValue>)
    ensures
        headers::fields(r) == passed(headers::fields(*upstream)),
{
    let names = passthrough_names();
    let ghost up = headers::fields(*upstream);
    let mut map = headers::new_headers();
    let mut i: usize = 0;
    proof {
        lemma_passthrough_names();
    }
    while i < names.len()
        invariant
            i <= names.len(),
            names@.len() == 7,
            passthrough().len() == 7,
            passthrough().no_duplicates(),
            forall|k: int| 0 <= k < 7 ==> headers::lower_name(#[trigger] passthrough()[k]),
            forall|k: int| 0 <= k < 7 ==> (#[trigger] names@[k])@ == passthrough()[k],
            up == headers::fields(*upstream),
            headers::fields(map).dom().finite(),
            headers::fields(map).len() <= i,
            forall|name: Seq<char>| #[trigger]
                headers::fields(map).contains_key(name) <==> passthrough().take(i as int).contains(
                    name,
                ) && up.contains_key(name),
            forall|name: Seq<char>| #[trigger]
                headers::fields(map).contains_key(name) ==> headers::fields(map)[name]
                    == seq![up[name][0]],
        decreases names.len() - i,
    {
        let name = names[i];
        let ghost before = headers::fields(map);
        let ghost list = passthrough();
        proof {
            assert(name@ == list[i as int]);
            assert(!list.take(i as int).contains(name@)) by {
                if list.take(i as int).contains(name@) {
                    let j = list.take(i as int).index_of(name@);
                    assert(list[j] == list[i as int]);
                }
            }
            assert forall|n: Seq<char>| list.take(i + 1).contains(n) <==> list.take(
                i as int,
            ).contains(n) || n == name@ by {
                assert(list.take(i + 1) =~= list.take(i as int).push(name@));
                if list.take(i as int).contains(n) {
                    let j = list.take(i as int).index_of(n);
                    assert(list.take(i + 1)[j] == n);
                }
                if n == name@ {
                    assert(list.take(i + 1)[i as int] == n);
                }
            }
        }
        match headers::first_header(upstream, name) {
            Some(value) => {
                headers::append_header(&mut map, name, value);
                assert(headers::fields(map)[name@] =~= seq![up[name@][0]]);
            },
            None => {},
        }
        i = i + 1;
    }
    proof {
        assert(passthrough().take(7) =~= passthrough());
        assert(headers::fields(map) =~= passed(up));
    }
    map
}

// ---------------------------------------------------------------------------
// Reading through.
// ---------------------------------------------------------------------------

/// What came back from the bulk upstream before its body.
#[derive(Debug)]
pub enum Fetched {
    /// A reply: its status and its fields.
    Head { status: u16, headers: HeaderMap<HeaderValue> },
    /// Nothing: the upstream could not be reached or did not answer.
    Unreachable,
}

/// Whether `status` says that a request succeeded.
pub open spec fn is_success(status: u16) -> bool {
    200 <= status < 300
}

/// Whether `status` says that the token was rejected.
pub open spec fn is_rejection(status: u16) -> bool {
    status == 401 || status == 403
}

/// Whether what came back says that the token was rejected.
pub open spec fn rejects(fetched: Fetched) -> bool {
    fetched is Head && is_rejection(fetched->status)
}

/// What the reading of `fetched` does to the re-bootstrap flag: a rejected token raises it, and
/// nothing else does anything to it.
pub open spec fn on_flag(fetched: Fetched) -> FlagStep {
    if rejects(fetched) {
        FlagStep::Raise
    } else {
        FlagStep::Keep
    }
}

/// Whether `reply` is what the engine is told of `fetched`.
pub open spec fn answers(fetched: Fetched, reply: EngineReply) -> bool {
    match fetched {
        Fetched::Head { status, headers } => if is_success(status) {
            &&& reply.status == status
            &&& headers::fields(reply.headers) == passed(headers::fields(headers))
            &&& reply.body is Upstream
        } else if is_rejection(status) {
            reply.is_error(502, REBOOTSTRAP_MSG@)
        } else {
            reply.is_error(502, UPSTREAM_ERROR_MSG@)
        },
        Fetched::Unreachable => reply.is_error(502, UNREACHABLE_MSG@),
    }
}

/// What the engine is told of what came back from the bulk upstream. A rejected token raises
/// `rebootstrap`; nothing else does.
pub fn proxy_read(fetched: &Fetched, rebootstrap: &mut ReBootstrap) -> (reply: EngineReply)
    ensures
        answers(*fetched, reply),
        final(rebootstrap).up() == state::flag_next(old(rebootstrap).up(), on_flag(*fetched)),
{
    match fetched {
        Fetched::Head { status, headers } => if 200 <= *status && *status < 300 {
            EngineReply {
                status: *status,
                headers: pass_headers(headers),
                body: ReplyBody::Upstream,
            }
        } else if *status == 401 || *status == 403 {
            rebootstrap.raise();
            gateway_error(502, REBOOTSTRAP_MSG)
        } else {
            gateway_error(502, UPSTREAM_ERROR_MSG)
        },
        Fetched::Unreachable => gateway_error(502, UNREACHABLE_MSG),
    }
}

/// Whether `clock` is what the body of `reply` runs under: a body that is streamed through has the
/// bulk upstream's idle deadline, started with it, and a fixed text has none.
pub open spec fn runs_under(reply: EngineReply, clock: Option<IdleClock>) -> bool {
    &&& clock is Some <==> reply.body is Upstream
    &&& clock is Some ==> clock->0.limit() == idle::UPSTREAM_BODY_IDLE_TIMEOUT_SECS
        * span::NANOS_PER_SEC && clock->0.progress() == 0
}

/// The clock that the body of `reply` runs under, started now.
pub fn body_clock(reply: &EngineReply) -> (r: Option<IdleClock>)
    ensures
        runs_under(*reply, r),
{
    match reply.body {
        ReplyBody::Upstream => Some(IdleClock::for_upstream()),
        ReplyBody::Text(_) => None,
    }
}

/// A stalled upstream body fails through the proxy: where the upstream answered with a success and
/// its body then makes no progress, the first poll that comes once the idle deadline has passed
/// finds it stalled.
pub proof fn law_a_stalled_success_is_cut(
    fetched: Fetched,
    reply: EngineReply,
    clock: Option<IdleClock>,
    polls: Seq<idle::Poll>,
)
    requires
        answers(fetched, reply),
        fetched is Head,
        is_success(fetched->status),
        runs_under(reply, clock),
        polls.len() > 0,
        forall|k: int| 0 <= k < polls.len() ==> !(#[trigger] polls[k]).ready,
        polls.last().now >= idle::UPSTREAM_BODY_IDLE_TIMEOUT_SECS * span::NANOS_PER_SEC,
    ensures
        clock is Some,
        idle::stalls(clock->0.limit(), polls),
{
    assert(!polls[polls.len() - 1].ready);
    idle::law_a_stalled_body_is_cut(clock->0.limit(), polls);
}

/// The upstream's `www-authenticate` never reaches the engine, whatever came back.
pub proof fn law_www_authenticate_never_passes(fetched: Fetched, reply: EngineReply)
    requires
        answers(fetched, reply),
    ensures
        !headers::fields(reply.headers).contains_key("www-authenticate"@),
{
    lemma_passthrough_names();
    reveal_strlit("www-authenticate");
    reveal_strlit("content-type");
    assert("www-authenticate"@.len() != "content-type"@.len());
}

/// Fail closed: the engine sees a success, or anything of the upstream's body, exactly where the
/// upstream answered with a success, and then with the same status; else it sees a gateway error.
pub proof fn law_success_only_after_upstream_success(fetched: Fetched, reply: EngineReply)
    requires
        answers(fetched, reply),
    ensures
        is_success(reply.status) <==> fetched is Head && is_success(fetched->status),
        is_success(reply.status) ==> reply.status == fetched->status,
        reply.body is Upstream <==> is_success(reply.status),
        !is_success(reply.status) ==> reply.status == 502,
{
}

/// Two upstream replies with the same status and the same listed fields look the same to the
/// engine: nothing else of a reply's head gets through.
pub proof fn law_only_listed_fields_pass(a: Fetched, b: Fetched, x: EngineReply, y: EngineReply)
    requires
        answers(a, x),
        answers(b, y),
        a is Head,
        b is Head,
        a->status == b->status,
        forall|name: Seq<char>|
            passthrough().contains(name) ==> {
                &&& #[trigger] headers::fields(a->headers).contains_key(name)
                    == headers::fields(b->headers).contains_key(name)
                &&& headers::fields(a->headers)[name] == headers::fields(b->headers)[name]
            },
    ensures
        x.status == y.status,
        headers::fields(x.headers) == headers::fields(y.headers),
{
    assert(passed(headers::fields(a->headers)) =~= passed(headers::fields(b->headers)));
}

} // verus!
