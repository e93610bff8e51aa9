//! Laws of what the agent carries and reports, and of its reconnect loop.
use vstd::prelude::*;
use crate::backoff::{session_proves_the_link_works, Backoff};
use crate::bootstrap::Bootstrap;
use crate::json;
use crate::run::{end_when_either_ends, AfterSession, FirstEnd, Reconnect};
use crate::span::Span;
use crate::state::{rebootstrap_status, AgentState, ReBootstrap};
use crate::text;
use crate::wire;
use crate::wire::DeviceFrame;

verus! {

// ---------------------------------------------------------------------------
// Reconnecting.
// ---------------------------------------------------------------------------

/// A delay is handed out as it stands, and the next is twice as long, or the cap once that is
/// shorter; neither the first delay nor the cap ever changes.
pub proof fn law_each_delay_is_twice_the_last(b: &mut Backoff, delay: Span)
    requires
        call_ensures(Backoff::next_delay, (b,), delay),
        2 * old(b).current.nanos <= 18_446_744_073_709_551_615_999_999_999,
    ensures
        delay.nanos == old(b).current.nanos,
        2 * delay.nanos <= old(b).max.nanos ==> final(b).current.nanos == 2 * delay.nanos,
        2 * delay.nanos > old(b).max.nanos ==> final(b).current.nanos == old(b).max.nanos,
        final(b).base == old(b).base,
        final(b).max == old(b).max,
{
}

/// A new backoff begins at its first delay, and a reset one begins there again, whatever it had
/// come to.
pub proof fn law_a_reset_backoff_is_a_new_one(
    base: Span,
    max: Span,
    fresh: Backoff,
    b: &mut Backoff,
    u: (),
)
    requires
        call_ensures(Backoff::new, (base, max), fresh),
        old(b).base == base,
        old(b).max == max,
        call_ensures(Backoff::reset, (b,), u),
    ensures
        fresh.current == base,
        fresh.base == base,
        fresh.max == max,
        *final(b) == fresh,
{
}

/// A longer session proves no less than a shorter one, a session of ten seconds proves the link
/// where its handshake completed, and one of less than that, or without a handshake, never does.
pub proof fn law_longer_sessions_prove_no_less(
    handshook: bool,
    shorter: Span,
    longer: Span,
    r: bool,
    q: bool,
)
    requires
        call_ensures(session_proves_the_link_works, (handshook, shorter), r),
        call_ensures(session_proves_the_link_works, (handshook, longer), q),
        shorter.nanos <= longer.nanos,
    ensures
        r ==> q,
        q ==> handshook && longer.nanos >= 10_000_000_000,
        handshook && shorter.nanos == 10_000_000_000 ==> r,
{
}

/// The first wait of all is one second.
pub proof fn law_the_loop_begins_at_one_second(r: Reconnect)
    requires
        call_ensures(Reconnect::new, (), r),
    ensures
        r.wf(),
        r.backoff().current.nanos == 1_000_000_000,
        r.backoff().base.nanos == 1_000_000_000,
        r.backoff().max.nanos == 30_000_000_000,
{
}

/// After a session whose handshake completed and that lasted ten seconds or more, however long, the
/// host is dialled again in one second, and after the next that drops at once in two.
pub proof fn law_a_long_session_is_followed_by_the_shortest_wait(
    loop_: &mut Reconnect,
    session: Span,
    held: Bootstrap,
    on_disk: Option<&Bootstrap>,
    r: AfterSession,
)
    requires
        old(loop_).wf(),
        call_ensures(Reconnect::after_session, (loop_, true, session, &held, on_disk), r),
        session.nanos >= 10_000_000_000,
        r is Redial,
    ensures
        r->Redial_0.nanos == 1_000_000_000,
        final(loop_).backoff().current.nanos == 2_000_000_000,
{
}

/// After a session that did not complete its handshake, or lasted less than ten seconds, the wait
/// is the one that was due, the next is twice as long up to half a minute, and no wait is ever
/// longer than half a minute or shorter than a second.
pub proof fn law_a_dropped_session_doubles_the_wait(
    loop_: &mut Reconnect,
    handshook: bool,
    session: Span,
    held: Bootstrap,
    on_disk: Option<&Bootstrap>,
    r: AfterSession,
)
    requires
        old(loop_).wf(),
        call_ensures(Reconnect::after_session, (loop_, handshook, session, &held, on_disk), r),
        !handshook || session.nanos < 10_000_000_000,
        r is Redial,
    ensures
        final(loop_).wf(),
        r->Redial_0 == old(loop_).backoff().current,
        1_000_000_000 <= r->Redial_0.nanos <= 30_000_000_000,
        r->Redial_0.nanos <= 15_000_000_000 ==> final(loop_).backoff().current.nanos == 2
            * r->Redial_0.nanos,
        r->Redial_0.nanos > 15_000_000_000 ==> final(loop_).backoff().current.nanos
            == 30_000_000_000,
{
}

/// The process ends where the bootstrap on disk differs from the one it holds in the token, an
/// endpoint or the CA, and only there; a bootstrap that cannot be read never ends it.
pub proof fn law_only_new_session_material_ends_the_process(
    loop_: &mut Reconnect,
    handshook: bool,
    session: Span,
    held: Bootstrap,
    on_disk: Option<&Bootstrap>,
    r: AfterSession,
)
    requires
        old(loop_).wf(),
        call_ensures(Reconnect::after_session, (loop_, handshook, session, &held, on_disk), r),
    ensures
        on_disk is None ==> r is Redial,
        on_disk is Some && on_disk->0.read_token@ != held.read_token@ ==> r is Exit,
        on_disk is Some && on_disk->0.bulk_endpoint@ != held.bulk_endpoint@ ==> r is Exit,
        on_disk is Some && on_disk->0.ws_endpoint@ != held.ws_endpoint@ ==> r is Exit,
        on_disk is Some && on_disk->0.ca_cert_pem@ != held.ca_cert_pem@ ==> r is Exit,
        on_disk is Some && on_disk->0.read_token@ == held.read_token@
            && on_disk->0.bulk_endpoint@ == held.bulk_endpoint@ && on_disk->0.ws_endpoint@
            == held.ws_endpoint@ && on_disk->0.ca_cert_pem@ == held.ca_cert_pem@ ==> r is Redial,
{
}

/// Losing the proxy is an error however it came, whose text ends in the proxy's own; and the
/// control loop's own end is handed on untouched.
pub proof fn law_losing_the_proxy_is_an_error(end: FirstEnd, r: Result<(), String>)
    requires
        call_ensures(end_when_either_ends, (end,), r),
    ensures
        r is Ok <==> end == FirstEnd::Served(None),
        end is ProxyStopped ==> r->Err_0@ == "loopback registry proxy stopped serving"@,
        end is ProxyFailed ==> end->ProxyFailed_0@.is_suffix_of(r->Err_0@)
            && "loopback registry proxy failed: "@.is_prefix_of(r->Err_0@) && r->Err_0@.len()
            == "loopback registry proxy failed: "@.len() + end->ProxyFailed_0@.len(),
        end is ProxyPanicked ==> end->ProxyPanicked_0@.is_suffix_of(r->Err_0@)
            && "loopback registry proxy task panicked: "@.is_prefix_of(r->Err_0@)
            && r->Err_0@.len() == "loopback registry proxy task panicked: "@.len()
            + end->ProxyPanicked_0@.len(),
        end is Served && end->Served_0 is Some ==> r->Err_0@ == end->Served_0->0@,
{
    match end {
        FirstEnd::ProxyFailed(e) => {
            assert(r->Err_0@ == "loopback registry proxy failed: "@ + e@);
        },
        FirstEnd::ProxyPanicked(e) => {
            assert(r->Err_0@ == "loopback registry proxy task panicked: "@ + e@);
        },
        _ => {},
    }
}

// ---------------------------------------------------------------------------
// State.
// ---------------------------------------------------------------------------

/// The flag begins down; raised, it is seen up; taken or cleared, it is down; and taking says
/// whether it was up.
pub proof fn law_the_flag_is_what_was_last_done_to_it(
    fresh: ReBootstrap,
    a: &mut ReBootstrap,
    b: &mut ReBootstrap,
    c: &mut ReBootstrap,
    u: (),
    was: bool,
    seen: ReBootstrap,
    r: bool,
)
    requires
        call_ensures(ReBootstrap::new, (), fresh),
        call_ensures(ReBootstrap::raise, (a,), u),
        call_ensures(ReBootstrap::take, (b,), was),
        call_ensures(ReBootstrap::clear, (c,), u),
        call_ensures(ReBootstrap::is_raised, (&seen,), r),
    ensures
        seen == fresh ==> !r,
        seen == *final(a) ==> r,
        seen == *final(b) ==> !r,
        seen == *final(c) ==> !r,
        seen == *old(b) ==> r == was,
{
}

/// A new device is who it was made as and runs nothing; what is recorded is what it runs, and
/// nothing else changes.
pub proof fn law_the_digest_is_what_was_last_recorded(
    id: String,
    fresh: AgentState,
    s: &mut AgentState,
    digest: &str,
    u: (),
)
    requires
        call_ensures(AgentState::new, (id,), fresh),
        call_ensures(AgentState::record_digest, (s, digest), u),
    ensures
        fresh.device_id@ == id@,
        fresh.running_digest@.len() == 0,
        !fresh.rebootstrap.up(),
        final(s).running_digest@ == digest@,
        final(s).device_id == old(s).device_id,
        final(s).rebootstrap == old(s).rebootstrap,
{
}

/// A `hello` says who the device is, what it is made of and what it runs, each whole.
pub proof fn law_hello_says_who_what_and_which(s: AgentState, arch: &str, frame: DeviceFrame)
    requires
        call_ensures(AgentState::hello, (&s, arch), frame),
    ensures
        frame is Hello,
        frame->Hello_0.device_id@ == s.device_id@,
        frame->Hello_0.arch@ == arch@,
        frame->Hello_0.running_digest@ == s.running_digest@,
{
}

/// A rejected token is reported under the device's own name, and says how to get a new one.
pub proof fn law_a_rejection_is_reported_in_the_devices_name(s: AgentState, frame: DeviceFrame)
    requires
        call_ensures(rebootstrap_status, (&s,), frame),
    ensures
        frame is Status,
        frame->Status_0.device_id@ == s.device_id@,
        frame->Status_0.state@ == "needs_rebootstrap"@,
        frame->Status_0.detail is Some,
        frame->Status_0.detail->0@
            == "bulk pull rejected the read/control token; re-run `avocado container dev up`"@,
{
}

// ---------------------------------------------------------------------------
// Frames.
// ---------------------------------------------------------------------------

/// The JSON text of a frame names its kind and holds each of its fields under the field's name, in
/// one order, as a JSON value, with nothing else; a detail that is not there is left out.
pub proof fn law_a_frame_is_one_flat_object(frame: DeviceFrame, r: String)
    requires
        call_ensures(DeviceFrame::to_wire, (&frame,), r),
    ensures
        frame matches DeviceFrame::Hello(h) ==> r@ == "{\"type\":\"hello\",\"device_id\":"@
            + json::json_string(h.device_id@) + ",\"arch\":"@ + json::json_string(h.arch@)
            + ",\"running_digest\":"@ + json::json_string(h.running_digest@) + "}"@,
        frame matches DeviceFrame::Progress(p) ==> r@ == "{\"type\":\"progress\",\"image\":"@
            + json::json_string(p.image@) + ",\"bytes_pulled\":"@ + text::decimal(
            p.bytes_pulled as nat,
        ) + "}"@,
        frame matches DeviceFrame::Status(s) ==> (s.detail is None ==> r@
            == "{\"type\":\"status\",\"device_id\":"@ + json::json_string(s.device_id@)
            + ",\"state\":"@ + json::json_string(s.state@) + "}"@),
        frame matches DeviceFrame::Status(s) ==> (s.detail is Some ==> r@
            == "{\"type\":\"status\",\"device_id\":"@ + json::json_string(s.device_id@)
            + ",\"state\":"@ + json::json_string(s.state@) + ",\"detail\":"@ + json::json_string(
            s.detail->0@,
        ) + "}"@),
{
    match frame {
        DeviceFrame::Hello(h) => {
            assert(r@ =~= "{\"type\":\"hello\",\"device_id\":"@ + json::json_string(h.device_id@)
                + ",\"arch\":"@ + json::json_string(h.arch@) + ",\"running_digest\":"@
                + json::json_string(h.running_digest@) + "}"@);
        },
        DeviceFrame::Progress(p) => {
            assert(r@ =~= "{\"type\":\"progress\",\"image\":"@ + json::json_string(p.image@)
                + ",\"bytes_pulled\":"@ + text::decimal(p.bytes_pulled as nat) + "}"@);
        },
        DeviceFrame::Status(s) => {
            if s.detail is Some {
                assert(r@ =~= "{\"type\":\"status\",\"device_id\":"@ + json::json_string(
                    s.device_id@,
                ) + ",\"state\":"@ + json::json_string(s.state@) + ",\"detail\":"@
                    + json::json_string(s.detail->0@) + "}"@);
            } else {
                assert(r@ =~= "{\"type\":\"status\",\"device_id\":"@ + json::json_string(
                    s.device_id@,
                ) + ",\"state\":"@ + json::json_string(s.state@) + "}"@);
            }
        },
    }
}

/// Frames that differ in any field have different texts.
pub proof fn law_frames_with_one_text_are_equal(
    f: DeviceFrame,
    g: DeviceFrame,
    r: String,
    q: String,
)
    requires
        call_ensures(DeviceFrame::to_wire, (&f,), r),
        call_ensures(DeviceFrame::to_wire, (&g,), q),
        r@ == q@,
    ensures
        f is Hello <==> g is Hello,
        f is Status <==> g is Status,
        f matches DeviceFrame::Hello(a) ==> a.device_id@ == g->Hello_0.device_id@ && a.arch@
            == g->Hello_0.arch@ && a.running_digest@ == g->Hello_0.running_digest@,
        f matches DeviceFrame::Progress(a) ==> a.image@ == g->Progress_0.image@ && a.bytes_pulled
            == g->Progress_0.bytes_pulled,
        f matches DeviceFrame::Status(a) ==> a.device_id@ == g->Status_0.device_id@ && a.state@
            == g->Status_0.state@ && (a.detail is Some <==> g->Status_0.detail is Some),
        f matches DeviceFrame::Status(a) ==> (a.detail is Some ==> a.detail->0@
            == g->Status_0.detail->0@),
{
    wire::law_wire_reads_back(f, g);
}

/// A process that ends hands out no wait: the backoff is as it was, or back at one second where the
/// session proved the link.
pub proof fn law_an_ending_process_hands_out_no_wait(
    loop_: &mut Reconnect,
    handshook: bool,
    session: Span,
    held: Bootstrap,
    on_disk: Option<&Bootstrap>,
    r: AfterSession,
)
    requires
        old(loop_).wf(),
        call_ensures(Reconnect::after_session, (loop_, handshook, session, &held, on_disk), r),
        r is Exit,
    ensures
        final(loop_).wf(),
        !handshook || session.nanos < 10_000_000_000 ==> final(loop_).backoff() == old(loop_).backoff(),
        handshook && session.nanos >= 10_000_000_000 ==> final(loop_).backoff().current.nanos
            == 1_000_000_000,
{
}

/// The default backoff begins at one second and is capped at thirty, and the default flag is down.
pub proof fn law_defaults_are_the_agents(b: Backoff, flag: ReBootstrap)
    requires
        call_ensures(Backoff::default, (), b),
        call_ensures(ReBootstrap::default, (), flag),
    ensures
        b.current.nanos == 1_000_000_000,
        b.base.nanos == 1_000_000_000,
        b.max.nanos == 30_000_000_000,
        !flag.up(),
{
}

} // verus!
