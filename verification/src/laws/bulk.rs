//! Laws of the loopback registry and of the reads that it forwards.
use hyper::header::HeaderValue;
use hyper::HeaderMap;
use vstd::prelude::*;
use crate::dial::{stage_result, Stage, StageEnd};
use crate::fetch;
use crate::fetch::{Fetch, FetchAction, FetchStage};
use crate::headers;
use crate::headers::bearer_text;
use crate::idle::{BodyPoll, IdleClock};
use crate::proxy;
use crate::proxy::{
    accept_method, body_clock, gateway_error, pass_headers, proxy_read, EngineReply, Fetched,
    ReadMethod,
};
use crate::serve::{loopback_address, AcceptLoop, AfterFailure};
use crate::span::Span;
use crate::state::ReBootstrap;
use crate::tls::BulkTarget;
use crate::text;

verus! {

// ---------------------------------------------------------------------------
// Answering the engine.
// ---------------------------------------------------------------------------

/// Whether `reply` is a plain text with `status`, and carries no field but its content type.
pub open spec fn plain_text(reply: EngineReply, status: u16, message: Seq<char>) -> bool {
    &&& reply.status == status
    &&& reply.body is Text
    &&& reply.body->Text_0@ == message
    &&& forall|name: Seq<char>| #[trigger]
        headers::fields(reply.headers).contains_key(name) <==> name == "content-type"@
    &&& headers::fields(reply.headers)["content-type"@] == seq![
        vstd::utf8::encode_utf8("text/plain; charset=utf-8"@),
    ]
}

/// `GET` and `HEAD` are accepted as what they are; every other method is refused at once, with a
/// text and the status for it.
pub proof fn law_a_method_is_accepted_as_what_it_is(
    method: &str,
    r: Result<ReadMethod, EngineReply>,
)
    requires
        call_ensures(accept_method, (method,), r),
    ensures
        r == Ok::<ReadMethod, EngineReply>(ReadMethod::Get) <==> method@ == "GET"@,
        r == Ok::<ReadMethod, EngineReply>(ReadMethod::Head) <==> method@ == "HEAD"@,
        method@ != "GET"@ && method@ != "HEAD"@ ==> r is Err && plain_text(
            r->Err_0,
            405,
            "only GET and HEAD are proxied"@,
        ),
{
    reveal_strlit("GET");
    reveal_strlit("HEAD");
    assert("GET"@.len() != "HEAD"@.len());
}

/// An error is the status and the text that it was made of.
pub proof fn law_an_error_is_its_status_and_text(status: u16, message: &'static str, r: EngineReply)
    requires
        call_ensures(gateway_error, (status, message), r),
    ensures
        plain_text(r, status, message@),
{
}

/// Whether the engine may see the field `name`.
pub open spec fn may_pass(name: Seq<char>) -> bool {
    ||| name == "content-type"@
    ||| name == "content-length"@
    ||| name == "content-range"@
    ||| name == "accept-ranges"@
    ||| name == "docker-content-digest"@
    ||| name == "etag"@
    ||| name == "last-modified"@
}

proof fn lemma_may_pass(name: Seq<char>)
    ensures
        proxy::passthrough().contains(name) <==> may_pass(name),
{
    let list = proxy::passthrough();
    assert(list[0] == "content-type"@);
    assert(list[1] == "content-length"@);
    assert(list[2] == "content-range"@);
    assert(list[3] == "accept-ranges"@);
    assert(list[4] == "docker-content-digest"@);
    assert(list[5] == "etag"@);
    assert(list[6] == "last-modified"@);
}

/// A field passes exactly where it may and the upstream sent it, with its first value and no other.
pub proof fn law_a_field_passes_with_its_first_value(
    upstream: HeaderMap<HeaderValue>,
    r: HeaderMap<HeaderValue>,
    name: Seq<char>,
)
    requires
        call_ensures(pass_headers, (&upstream,), r),
    ensures
        headers::fields(r).contains_key(name) <==> may_pass(name) && headers::fields(
            upstream,
        ).contains_key(name),
        headers::fields(r).contains_key(name) ==> headers::fields(r)[name] == seq![
            headers::fields(upstream)[name][0],
        ],
{
    lemma_may_pass(name);
}

/// What the engine is told: an upstream success with the same status, the fields that may pass and
/// the upstream's body; and of anything else a gateway error with a fixed text, one for a rejected
/// token, one for any other status and one for no answer.
pub proof fn law_the_engine_sees_successes_and_gateway_errors(
    fetched: Fetched,
    flag: &mut ReBootstrap,
    reply: EngineReply,
    name: Seq<char>,
)
    requires
        call_ensures(proxy_read, (&fetched, flag), reply),
    ensures
        fetched matches Fetched::Head { status, headers: sent } ==> (200 <= status < 300 ==> {
            &&& reply.status == status
            &&& reply.body is Upstream
            &&& headers::fields(reply.headers).contains_key(name) <==> may_pass(name)
                && headers::fields(sent).contains_key(name)
            &&& headers::fields(reply.headers).contains_key(name) ==> headers::fields(
                reply.headers,
            )[name] == seq![headers::fields(sent)[name][0]]
        }),
        fetched matches Fetched::Head { status, headers: sent } ==> (status == 401 || status == 403
            ==> plain_text(
            reply,
            502,
            "bulk upstream rejected the read/control token; re-run `avocado container dev up`"@,
        )),
        fetched matches Fetched::Head { status, headers: sent } ==> ((status < 200 || status >= 300)
            && status != 401 && status != 403 ==> plain_text(
            reply,
            502,
            "bulk upstream returned an error"@,
        )),
        fetched is Unreachable ==> plain_text(reply, 502, "bulk upstream unreachable"@),
{
    lemma_may_pass(name);
}

/// A rejected token raises the flag, nothing else raises it, and nothing that the proxy reads
/// lowers it.
pub proof fn law_only_a_rejected_token_raises_the_flag(
    fetched: Fetched,
    flag: &mut ReBootstrap,
    reply: EngineReply,
)
    requires
        call_ensures(proxy_read, (&fetched, flag), reply),
    ensures
        fetched is Head && (fetched->status == 401 || fetched->status == 403) ==> final(flag).up(),
        fetched is Unreachable || (fetched is Head && fetched->status != 401 && fetched->status
            != 403) ==> final(flag).up() == old(flag).up(),
{
}

// ---------------------------------------------------------------------------
// The idle deadline.
// ---------------------------------------------------------------------------

/// A streamed body runs under a deadline of sixty seconds that begins with it, and a fixed text
/// under none.
pub proof fn law_a_streamed_body_has_sixty_seconds(reply: EngineReply, r: Option<IdleClock>)
    requires
        call_ensures(body_clock, (&reply,), r),
    ensures
        reply.body is Upstream ==> r is Some && r->0.limit() == 60_000_000_000 && r->0.progress()
            == 0,
        reply.body is Text ==> r is None,
{
}

/// A poll that finds the body ready passes it on and starts the deadline again from then; one that
/// does not leaves it as it is, waits before the deadline and finds the body stalled from the
/// deadline on.
pub proof fn law_progress_moves_the_deadline(
    clock: &mut IdleClock,
    now: Span,
    ready: bool,
    r: BodyPoll,
    before: IdleClock,
    due: Span,
)
    requires
        *old(clock) == before,
        before.limit() <= 18_446_744_073_709_551_615_999_999_999,
        before.progress() <= 18_446_744_073_709_551_615_999_999_999,
        call_ensures(IdleClock::deadline, (&before,), due),
        call_ensures(IdleClock::polled, (clock, now, ready), r),
    ensures
        due.nanos == before.progress() + before.limit(),
        final(clock).limit() == before.limit(),
        ready ==> r is Pass && final(clock).progress() == now.nanos,
        !ready ==> final(clock).progress() == before.progress(),
        !ready && now.nanos < due.nanos ==> r is Wait,
        !ready && now.nanos >= due.nanos ==> r is Stalled,
{
}

/// A clock is made with its limit, and starts at its making; the bulk upstream's has sixty seconds;
/// and a body that stalled is said to have sent nothing for as many seconds as the limit has.
pub proof fn law_a_clock_starts_with_its_whole_limit(
    limit: Span,
    r: IdleClock,
    upstream: IdleClock,
    said: String,
)
    requires
        limit.nanos <= 18_446_744_073_709_551_615_999_999_999,
        call_ensures(IdleClock::new, (limit,), r),
        call_ensures(IdleClock::for_upstream, (), upstream),
        call_ensures(IdleClock::stalled, (&r,), said),
    ensures
        r.limit() == limit.nanos,
        r.progress() == 0,
        upstream.limit() == 60_000_000_000,
        upstream.progress() == 0,
        said@ == "the bulk upstream sent no body data for "@ + text::decimal(
            (limit.nanos / 1_000_000_000) as nat,
        ) + "s; the host is unreachable or the connection is half-open"@,
{
}

// ---------------------------------------------------------------------------
// Accepting.
// ---------------------------------------------------------------------------

/// The registry is bound to this host alone.
pub proof fn law_the_registry_is_bound_to_this_host(port: u16, r: String)
    requires
        call_ensures(loopback_address, (port,), r),
    ensures
        r@ == "127.0.0.1:"@ + text::decimal(port as nat),
{
}

/// The listener is tried again after a tenth of a second for the first thirty-one failures in a
/// row, each counted, and gives up at the thirty-second with a text that says how many there were
/// and ends in the last cause; a connection that was accepted starts the count again.
pub proof fn law_the_thirty_second_failure_in_a_row_is_the_last(
    fresh: AcceptLoop,
    a: &mut AcceptLoop,
    u: (),
    b: &mut AcceptLoop,
    error: &str,
    r: AfterFailure,
)
    requires
        call_ensures(AcceptLoop::new, (), fresh),
        call_ensures(AcceptLoop::accepted, (a,), u),
        call_ensures(AcceptLoop::failed, (b, error), r),
    ensures
        fresh.failures() == 0,
        final(a).failures() == 0,
        old(b).failures() < 32 ==> final(b).failures() == old(b).failures() + 1,
        old(b).failures() >= 32 ==> final(b).failures() == old(b).failures() && r is GiveUp,
        old(b).failures() < 31 ==> r is Retry && r->failures == old(b).failures() + 1
            && r->pause.nanos == 100_000_000,
        old(b).failures() == 31 ==> r is GiveUp && r->message@
            == "accepting loopback connections failed "@ + text::decimal(32)
            + " times in a row: "@ + error@,
{
}

// ---------------------------------------------------------------------------
// Stages.
// ---------------------------------------------------------------------------

/// What is said of `what` where it took too long.
pub open spec fn out_of_time(what: Seq<char>) -> Seq<char> {
    what + " did not complete within "@ + text::decimal(30)
        + "s; the host is unreachable or the connection is half-open"@
}

/// Every stage has thirty seconds; one that is done is no error; one that took too long says so,
/// with how long it had; one that failed ends in the cause; and a connection names where it went.
pub proof fn law_a_stage_says_why_it_did_not_get_done(
    stage: Stage,
    endpoint: &str,
    end: StageEnd,
    limit: Span,
    r: Result<(), String>,
)
    requires
        call_ensures(Stage::limit, (&stage,), limit),
        call_ensures(stage_result, (stage, endpoint, end), r),
    ensures
        limit.nanos == 30_000_000_000,
        r is Ok <==> end is Done,
        end is TimedOut && stage is BulkConnect ==> r->Err_0@ == out_of_time("connecting to the bulk listener"@),
        end is TimedOut && stage is BulkTls ==> r->Err_0@ == out_of_time("the bulk TLS handshake"@),
        end is TimedOut && stage is BulkHttp ==> r->Err_0@ == out_of_time("the bulk HTTP/1 handshake"@),
        end is TimedOut && stage is BulkRequest ==> r->Err_0@ == out_of_time("the upstream request"@),
        end is TimedOut && stage is ControlConnect ==> r->Err_0@ == out_of_time("the control WS TCP connect"@),
        end is TimedOut && stage is ControlTls ==> r->Err_0@ == out_of_time("the control WS TLS handshake"@),
        end is TimedOut && stage is ControlUpgrade ==> r->Err_0@ == out_of_time("the control WS upgrade"@),
        end matches StageEnd::Failed(e) ==> (stage is BulkConnect ==> r->Err_0@
            == "connecting to bulk listener "@ + endpoint@ + ": "@ + e@),
        end matches StageEnd::Failed(e) ==> (stage is BulkTls ==> r->Err_0@
            == "bulk TLS handshake (pinned CA)"@ + ": "@ + e@),
        end matches StageEnd::Failed(e) ==> (stage is BulkHttp ==> r->Err_0@
            == "bulk HTTP/1 handshake"@ + ": "@ + e@),
        end matches StageEnd::Failed(e) ==> (stage is BulkRequest ==> r->Err_0@
            == "sending upstream request"@ + ": "@ + e@),
        end matches StageEnd::Failed(e) ==> (stage is ControlConnect ==> r->Err_0@
            == "connecting TCP to "@ + endpoint@ + ": "@ + e@),
        end matches StageEnd::Failed(e) ==> (stage is ControlTls ==> r->Err_0@
            == "TLS handshake to control WS"@ + ": "@ + e@),
        end matches StageEnd::Failed(e) ==> (stage is ControlUpgrade ==> r->Err_0@
            == "WebSocket upgrade to control WS"@ + ": "@ + e@),
{
}

// ---------------------------------------------------------------------------
// Forwarding.
// ---------------------------------------------------------------------------

/// The `Authorization` value is the word `Bearer`, a space and the whole token.
pub proof fn law_a_token_is_carried_whole(token: &str, r: String)
    requires
        call_ensures(bearer_text, (token,), r),
    ensures
        "Bearer "@.is_prefix_of(r@),
        token@.is_suffix_of(r@),
        r@.len() == "Bearer "@.len() + token@.len(),
{
    assert(r@ =~= "Bearer "@ + token@);
}

/// What a read was begun with.
pub open spec fn begun_with(
    f: Fetch,
    target: BulkTarget,
    method: ReadMethod,
    path: Seq<char>,
    range: Option<HeaderValue>,
) -> bool {
    &&& f.errand().server_name == target.server_name@
    &&& f.errand().authority == target.authority@
    &&& f.errand().token == target.read_token@
    &&& f.errand().method == method
    &&& f.errand().path == path
    &&& range is Some ==> f.errand().range == Some(headers::value_bytes(range->0))
    &&& range is None ==> f.errand().range is None
}

/// Whether the fields of a request are where it goes, the token and the range, each whole and once,
/// and no other.
pub open spec fn carries(
    fields: Map<Seq<char>, Seq<Seq<u8>>>,
    target: BulkTarget,
    range: Option<HeaderValue>,
) -> bool {
    &&& fields.contains_key("host"@)
    &&& fields["host"@] == seq![vstd::utf8::encode_utf8(target.authority@)]
    &&& fields.contains_key("authorization"@)
    &&& fields["authorization"@] == seq![vstd::utf8::encode_utf8("Bearer "@ + target.read_token@)]
    &&& fields.contains_key("range"@) <==> range is Some
    &&& range is Some ==> fields["range"@] == seq![headers::value_bytes(range->0)]
    &&& forall|name: Seq<char>| #[trigger]
        fields.contains_key(name) ==> name == "host"@ || name == "authorization"@ || name
            == "range"@
}

proof fn lemma_carries(f: Fetch, target: BulkTarget, method: ReadMethod, path: Seq<char>, range: Option<HeaderValue>)
    requires
        begun_with(f, target, method, path, range),
    ensures
        carries(f.errand().request_fields(), target, range),
{
    reveal_strlit("host");
    reveal_strlit("authorization");
    reveal_strlit("range");
    assert("host"@.len() == 4);
    assert("authorization"@.len() == 13);
    assert("range"@.len() == 5);
}

/// A read begins by connecting to its host, with all that it was begun with.
pub proof fn law_a_read_begins_by_connecting(
    target: BulkTarget,
    method: ReadMethod,
    path: &str,
    range: Option<HeaderValue>,
    r: (Fetch, FetchAction),
)
    requires
        call_ensures(Fetch::begin, (&target, method, path, range), r),
    ensures
        begun_with(r.0, target, method, path@, range),
        r.0.stage() is Connecting,
        r.1 is Connect,
        r.1->authority@ == target.authority@,
{
}

/// One stage follows the other, and each asks for what the read was begun with: the handshake with
/// the target's server name, and the request with the read's own method, its own path as a URI, the
/// target's authority, the token and the engine's range.
pub proof fn law_a_read_asks_for_what_it_was_begun_with(
    f: &mut Fetch,
    target: BulkTarget,
    method: ReadMethod,
    path: Seq<char>,
    range: Option<HeaderValue>,
    r: FetchAction,
)
    requires
        begun_with(*old(f), target, method, path, range),
        call_ensures(Fetch::advance, (f, StageEnd::Done), r),
    ensures
        begun_with(*final(f), target, method, path, range),
        old(f).stage() is Connecting ==> final(f).stage() is Securing && r is Secure
            && r->server_name@ == target.server_name@,
        old(f).stage() is Securing ==> final(f).stage() is Greeting && r is Greet,
        old(f).stage() is Greeting ==> (final(f).stage() is Asking && r is Ask) || (
        final(f).stage() is Failed && r is Fail),
        old(f).stage() is Greeting && r is Ask ==> {
            &&& r->request.method == method
            &&& fetch::uri_of(path) is Ok
            &&& r->request.uri@ == fetch::uri_of(path)->Ok_0
            &&& carries(headers::fields(r->request.headers), target, range)
        },
        old(f).stage() is Greeting ==> (r is Ask <==> fetch::uri_of(path) is Ok
            && headers::value_ok(vstd::utf8::encode_utf8(target.authority@)) && headers::value_ok(
            vstd::utf8::encode_utf8("Bearer "@ + target.read_token@),
        )),
        old(f).stage() is Greeting && fetch::uri_of(path) is Err ==> r->message@
            == "building upstream request"@ + ": "@ + fetch::uri_of(path)->Err_0,
        old(f).stage() is Greeting && fetch::uri_of(path) is Ok && r is Fail ==> r->message@
            == "building upstream request"@ + ": "@ + "failed to parse header value"@,
        old(f).stage() is Asking ==> final(f).stage() is Answered && r is Done,
        old(f).stage() is Answered ==> final(f).stage() is Answered && r is Done,
        old(f).stage() is Failed ==> final(f).stage() == old(f).stage() && r is Fail,
{
    lemma_carries(*old(f), target, method, path, range);
}

/// The method that the engine asked with is the method that the host is asked with: accepted from
/// the engine, begun with, and handed out after the three stages, it is one and the same.
pub proof fn law_the_engines_method_reaches_the_host(
    asked: &str,
    accepted: Result<ReadMethod, EngineReply>,
    target: BulkTarget,
    path: &str,
    range: Option<HeaderValue>,
    begun: (Fetch, FetchAction),
    a: &mut Fetch,
    b: &mut Fetch,
    c: &mut Fetch,
    secure: FetchAction,
    greet: FetchAction,
    r: FetchAction,
)
    requires
        call_ensures(accept_method, (asked,), accepted),
        accepted is Ok,
        call_ensures(Fetch::begin, (&target, accepted->Ok_0, path, range), begun),
        *old(a) == begun.0,
        call_ensures(Fetch::advance, (a, StageEnd::Done), secure),
        *old(b) == *final(a),
        call_ensures(Fetch::advance, (b, StageEnd::Done), greet),
        *old(c) == *final(b),
        call_ensures(Fetch::advance, (c, StageEnd::Done), r),
        r is Ask,
    ensures
        asked@ == "GET"@ ==> r->request.method == ReadMethod::Get,
        asked@ == "HEAD"@ ==> r->request.method == ReadMethod::Head,
        r->request.method == accepted->Ok_0,
{
    reveal_strlit("GET");
    reveal_strlit("HEAD");
    assert("GET"@.len() != "HEAD"@.len());
}

/// A stage that did not get done fails the read, with what is said of that stage.
pub proof fn law_a_read_fails_with_the_stage_that_failed(
    f: &mut Fetch,
    stage: Stage,
    endpoint: &str,
    end: StageEnd,
    said: Result<(), String>,
    r: FetchAction,
)
    requires
        !(end is Done),
        endpoint@ == old(f).errand().authority,
        call_ensures(stage_result, (stage, endpoint, end), said),
        call_ensures(Fetch::advance, (f, end), r),
        (old(f).stage() is Connecting && stage is BulkConnect) || (old(f).stage() is Securing
            && stage is BulkTls) || (old(f).stage() is Greeting && stage is BulkHttp) || (
        old(f).stage() is Asking && stage is BulkRequest),
    ensures
        r is Fail,
        r->message@ == said->Err_0@,
        final(f).stage() == FetchStage::Failed(r->message@),
{
}

/// A read that is over stays as it is, whatever is said of a stage: one that was answered is
/// answered, and one that failed gives its one reason again.
pub proof fn law_a_read_that_is_over_stays_over(f: &mut Fetch, end: StageEnd, r: FetchAction)
    requires
        call_ensures(Fetch::advance, (f, end), r),
    ensures
        final(f).errand() == old(f).errand(),
        old(f).stage() is Answered ==> final(f).stage() is Answered && r is Done,
        old(f).stage() matches FetchStage::Failed(why) ==> final(f).stage() == old(f).stage()
            && r is Fail && r->message@ == why,
        r is Fail ==> final(f).stage() == FetchStage::Failed(r->message@),
{
}

} // verus!
