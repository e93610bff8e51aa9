//! The reconnect loop and the end of the process.
use vstd::prelude::*;
use crate::backoff;
use crate::backoff::Backoff;
use crate::bootstrap::Bootstrap;
use crate::span;
use crate::span::Span;

verus! {

/// What follows a session.
#[derive(Debug, Clone, Copy, PartialEq, Eq, Structural)]
pub enum AfterSession {
    /// End the process, so that its supervisor rebuilds it with the new bootstrap.
    Exit,
    /// Wait so long, and dial again.
    Redial(Span),
}

/// The reconnect loop.
#[derive(Debug)]
pub struct Reconnect {
    backoff: Backoff,
}

/// Whether the bootstrap on disk, where it could be read, is another session's than `held`.
pub open spec fn superseded(held: Bootstrap, on_disk: Option<&Bootstrap>) -> bool {
    on_disk is Some && !on_disk->0.same_session(held)
}

/// Whether a backoff is the agent's: its base and its cap are the defaults, and the next wait lies
/// between them.
pub open spec fn agent_backoff(b: Backoff) -> bool {
    &&& b.base.nanos == backoff::BASE_DELAY_SECS * span::NANOS_PER_SEC
    &&& b.max.nanos == backoff::MAX_DELAY_SECS * span::NANOS_PER_SEC
    &&& b.base.nanos <= b.current.nanos <= b.max.nanos
}

/// The backoff after a session: it starts over where the session proved that the link works.
pub open spec fn settled(before: Backoff, handshook: bool, session: Span) -> Backoff {
    if backoff::proves_link(handshook, session) {
        before.restarted()
    } else {
        before
    }
}

impl Reconnect {
    /// The backoff that the next wait comes from.
    pub closed spec fn backoff(self) -> Backoff {
        self.backoff
    }

    /// Whether the backoff is the agent's.
    pub open spec fn wf(self) -> bool {
        agent_backoff(self.backoff())
    }

    /// The loop before its first session.
    pub fn new() -> (r: Reconnect)
        ensures
            r.wf(),
            r.backoff().current == r.backoff().base,
    {
        Reconnect { backoff: Backoff::default() }
    }

    /// Decides what follows a session that lasted for `session` and whose handshake completed or
    /// not, given the bootstrap that this process holds and the one on disk.
    ///
    /// A bootstrap on disk that cannot be read is no reason to exit: it may be in the middle of
    /// being delivered.
    pub fn after_session(
        &mut self,
        handshook: bool,
        session: Span,
        held: &Bootstrap,
        on_disk: Option<&Bootstrap>,
    ) -> (r: AfterSession)
        requires
            old(self).wf(),
        ensures
            final(self).wf(),
            r is Exit <==> superseded(*held, on_disk),
            r is Redial ==> r->Redial_0 == settled(
                old(self).backoff(),
                handshook,
                session,
            ).current,
            final(self).backoff() == if superseded(*held, on_disk) {
                settled(old(self).backoff(), handshook, session)
            } else {
                settled(old(self).backoff(), handshook, session).advanced()
            },
    {
        if backoff::session_proves_the_link_works(handshook, session) {
            self.backoff.reset();
        }
        let changed = match on_disk {
            Some(current) => !current.same_session_as(held),
            None => false,
        };
        if changed {
            AfterSession::Exit
        } else {
            AfterSession::Redial(self.backoff.next_delay())
        }
    }
}

/// How a session ended: whether its handshake completed, and how long it lasted.
pub ghost struct Ended {
    pub handshook: bool,
    pub session: Span,
}

/// The backoff after sessions that ended as `ends` says and were each followed by a redial.
pub open spec fn backoff_after(before: Backoff, ends: Seq<Ended>) -> Backoff
    decreases ends.len(),
{
    if ends.len() == 0 {
        before
    } else {
        settled(
            backoff_after(before, ends.drop_last()),
            ends.last().handshook,
            ends.last().session,
        ).advanced()
    }
}

/// A host that drops every session is dialled ever more rarely: each session that does not prove
/// the link leaves the backoff to double, and after five of them in a row the wait is at its cap,
/// wherever it was before.
pub proof fn law_dropped_sessions_reach_the_cap(before: Backoff, ends: Seq<Ended>)
    requires
        agent_backoff(before),
        forall|i: int|
            0 <= i < ends.len() ==> !backoff::proves_link(
                (#[trigger] ends[i]).handshook,
                ends[i].session,
            ),
    ensures
        backoff_after(before, ends) == before.advanced_by(ends.len()),
        ends.len() >= 5 ==> backoff_after(before, ends).current == before.max,
    decreases ends.len(),
{
    if ends.len() > 0 {
        let sooner = ends.drop_last();
        assert(ends[ends.len() - 1] == ends.last());
        assert forall|i: int| 0 <= i < sooner.len() implies !backoff::proves_link(
            (#[trigger] sooner[i]).handshook,
            sooner[i].session,
        ) by {
            assert(sooner[i] == ends[i]);
        }
        law_dropped_sessions_reach_the_cap(before, sooner);
        lemma_advances(before, ends.len());
    }
}

proof fn lemma_advances(b: Backoff, n: nat)
    requires
        agent_backoff(b),
    ensures
        agent_backoff(b.advanced_by(n)),
        b.advanced_by(n).max == b.max,
        n >= 5 ==> b.advanced_by(n).current == b.max,
    decreases n,
{
    if n > 0 {
        lemma_advances(b, (n - 1) as nat);
        if n == 5 {
            reveal_with_fuel(Backoff::advanced_by, 6);
        }
    }
}

/// A session that proved the link is followed by the shortest wait, however long the waits had
/// become.
pub proof fn law_a_working_session_starts_over(before: Backoff, handshook: bool, session: Span)
    requires
        agent_backoff(before),
        backoff::proves_link(handshook, session),
    ensures
        settled(before, handshook, session).current.nanos == backoff::BASE_DELAY_SECS
            * span::NANOS_PER_SEC,
{
}

// ---------------------------------------------------------------------------
// The end of the process.
// ---------------------------------------------------------------------------

/// Which of the two long-running halves of the agent ended first, and how.
#[derive(Debug, Clone, PartialEq, Eq)]
pub enum FirstEnd {
    /// The proxy stopped serving without an error.
    ProxyStopped,
    /// The proxy failed, and why.
    ProxyFailed(String),
    /// The proxy's task panicked, and how.
    ProxyPanicked(String),
    /// The control loop ended: `None` where it ended well, else why not.
    Served(Option<String>),
}

/// Why the process ends with an error, where it does.
pub open spec fn exit_error(end: FirstEnd) -> Option<Seq<char>> {
    match end {
        FirstEnd::ProxyStopped => Some("loopback registry proxy stopped serving"@),
        FirstEnd::ProxyFailed(e) => Some("loopback registry proxy failed: "@ + e@),
        FirstEnd::ProxyPanicked(e) => Some("loopback registry proxy task panicked: "@ + e@),
        FirstEnd::Served(Some(e)) => Some(e@),
        FirstEnd::Served(None) => None,
    }
}

/// How the process ends when one of its halves has ended.
///
/// Losing the proxy is an error however it went: no pull can succeed without it, so the process
/// ends and its supervisor rebuilds it.
pub fn end_when_either_ends(end: FirstEnd) -> (r: Result<(), String>)
    ensures
        r is Ok <==> exit_error(end) is None,
        r is Err ==> Some(r->Err_0@) == exit_error(end),
{
    match end {
        FirstEnd::ProxyStopped => Err("loopback registry proxy stopped serving".to_string()),
        FirstEnd::ProxyFailed(e) => Err(
            "loopback registry proxy failed: ".to_string().concat(e.as_str()),
        ),
        FirstEnd::ProxyPanicked(e) => Err(
            "loopback registry proxy task panicked: ".to_string().concat(e.as_str()),
        ),
        FirstEnd::Served(Some(e)) => Err(e),
        FirstEnd::Served(None) => Ok(()),
    }
}

} // verus!
