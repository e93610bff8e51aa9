//! The idle deadline of a streamed body: it bounds the gap between two chunks, never the whole
//! transfer.
use vstd::prelude::*;
use crate::span;
use crate::span::Span;
use crate::text;

verus! {

/// Ceiling on the gap between two chunks of a body, in seconds.
pub const UPSTREAM_BODY_IDLE_TIMEOUT_SECS: u64 = 60;

/// What polling a body comes to.
#[derive(Debug, Clone, Copy, PartialEq, Eq, Structural)]
pub enum BodyPoll {
    /// Pass on what the body gave: a chunk, its end, or its error.
    Pass,
    /// Nothing yet.
    Wait,
    /// The body stalled: end it with an error.
    Stalled,
}

/// The idle deadline of one body. Times are measured from when the clock was made.
#[derive(Debug, Clone, Copy)]
pub struct IdleClock {
    limit: Span,
    progress: Span,
}

/// What a body that stalled for `limit_secs` is said to have done.
pub open spec fn stall_text(limit_secs: nat) -> Seq<char> {
    "the bulk upstream sent no body data for "@ + text::decimal(limit_secs)
        + "s; the host is unreachable or the connection is half-open"@
}

/// When a body that last made progress at `progress` has last made progress after a poll at `now`
/// that found it ready or not.
pub open spec fn progress_next(progress: nat, now: nat, ready: bool) -> nat {
    if ready {
        now
    } else {
        progress
    }
}

/// What a poll at `now` that finds a body ready or not comes to under `limit`, where the body last
/// made progress at `progress`.
pub open spec fn verdict(limit: nat, progress: nat, now: nat, ready: bool) -> BodyPoll {
    if ready {
        BodyPoll::Pass
    } else if now >= progress + limit {
        BodyPoll::Stalled
    } else {
        BodyPoll::Wait
    }
}

impl IdleClock {
    /// The longest gap that is let pass, in nanoseconds.
    pub closed spec fn limit(self) -> nat {
        self.limit.nanos as nat
    }

    /// When the body last made progress, in nanoseconds.
    pub closed spec fn progress(self) -> nat {
        self.progress.nanos as nat
    }

    /// When the body counts as stalled, in nanoseconds.
    pub open spec fn due(self) -> nat {
        self.progress() + self.limit()
    }

    /// A clock that lets gaps below `limit` pass, started now.
    pub fn new(limit: Span) -> (r: IdleClock)
        ensures
            r.limit() == limit.nanos,
            r.progress() == 0,
    {
        IdleClock { limit, progress: Span { nanos: 0 } }
    }

    /// The clock of the bulk upstream's bodies.
    pub fn for_upstream() -> (r: IdleClock)
        ensures
            r.limit() == UPSTREAM_BODY_IDLE_TIMEOUT_SECS * span::NANOS_PER_SEC,
            r.progress() == 0,
    {
        IdleClock::new(Span::from_secs(UPSTREAM_BODY_IDLE_TIMEOUT_SECS))
    }

    /// When the body counts as stalled.
    pub fn deadline(&self) -> (r: Span)
        requires
            self.limit() <= span::MAX_NANOS,
            self.progress() <= span::MAX_NANOS,
        ensures
            r.nanos == self.due(),
    {
        Span { nanos: self.progress.nanos + self.limit.nanos }
    }

    /// Takes in that the body was polled at `now`, and whether it was ready. Any progress starts
    /// the clock again; a body that is not ready when the deadline has come has stalled.
    pub fn polled(&mut self, now: Span, ready: bool) -> (r: BodyPoll)
        ensures
            final(self).limit() == old(self).limit(),
            final(self).progress() == progress_next(old(self).progress(), now.nanos as nat, ready),
            r == verdict(old(self).limit(), old(self).progress(), now.nanos as nat, ready),
    {
        if ready {
            self.progress = now;
            BodyPoll::Pass
        } else if now.nanos >= self.progress.nanos && now.nanos - self.progress.nanos
            >= self.limit.nanos {
            BodyPoll::Stalled
        } else {
            BodyPoll::Wait
        }
    }

    /// What is said of a body that stalled.
    pub fn stalled(&self) -> (r: String)
        requires
            self.limit() <= span::MAX_NANOS,
        ensures
            r@ == stall_text(self.limit() / span::NANOS_PER_SEC as nat),
    {
        "the bulk upstream sent no body data for ".to_string().concat(
            text::decimal_text(self.limit.as_secs()).as_str(),
        ).concat("s; the host is unreachable or the connection is half-open")
    }
}

/// One poll of a body: when, and whether the body was ready.
pub ghost struct Poll {
    pub now: nat,
    pub ready: bool,
}

/// When a body last made progress, given how it was polled.
pub open spec fn progress_after(polls: Seq<Poll>) -> nat
    decreases polls.len(),
{
    if polls.len() == 0 {
        0
    } else {
        progress_next(progress_after(polls.drop_last()), polls.last().now, polls.last().ready)
    }
}

/// Whether the last of `polls` finds the body stalled under `limit`.
pub open spec fn stalls(limit: nat, polls: Seq<Poll>) -> bool {
    &&& polls.len() > 0
    &&& verdict(
        limit,
        progress_after(polls.drop_last()),
        polls.last().now,
        polls.last().ready,
    ) is Stalled
}

/// Whether the times of `polls` do not run backwards.
pub open spec fn in_time_order(polls: Seq<Poll>) -> bool {
    forall|i: int, j: int|
        0 <= i <= j < polls.len() ==> (#[trigger] polls[i]).now <= (#[trigger] polls[j]).now
}

proof fn lemma_progress(polls: Seq<Poll>, k: int)
    requires
        in_time_order(polls),
        0 <= k < polls.len(),
        polls[k].ready,
    ensures
        progress_after(polls) >= polls[k].now,
    decreases polls.len(),
{
    if !polls.last().ready {
        let before = polls.drop_last();
        assert(polls[polls.len() - 1] == polls.last());
        assert(in_time_order(before)) by {
            assert forall|i: int, j: int| 0 <= i <= j < before.len() implies (
            #[trigger] before[i]).now <= (#[trigger] before[j]).now by {
                assert(polls[i].now <= polls[j].now);
            }
        }
        assert(before[k] == polls[k]);
        lemma_progress(before, k);
    } else {
        assert(polls[k].now <= polls[polls.len() - 1].now);
    }
}

/// A link that moves bytes is never cut: while some progress, or the start, lies less than the
/// limit back, no poll finds the body stalled, however long the whole transfer takes.
pub proof fn law_a_moving_body_is_never_cut(limit: nat, polls: Seq<Poll>, k: int)
    requires
        in_time_order(polls),
        polls.len() > 0,
        polls.last().now < limit || (0 <= k < polls.len() && polls[k].ready && polls.last().now
            < polls[k].now + limit),
    ensures
        !stalls(limit, polls),
{
    if polls.last().now >= limit && !polls.last().ready {
        lemma_progress(polls, k);
    }
}

/// A stalled body fails instead of hanging: a poll that comes when the limit has passed since the
/// last progress, or since the start, finds it stalled.
pub proof fn law_a_stalled_body_is_cut(limit: nat, polls: Seq<Poll>)
    requires
        polls.len() > 0,
        !polls.last().ready,
        forall|k: int|
            0 <= k < polls.len() && (#[trigger] polls[k]).ready ==> polls[k].now + limit
                <= polls.last().now,
        limit <= polls.last().now,
    ensures
        stalls(limit, polls),
{
    lemma_progress_is_a_poll(polls.drop_last());
    let before = polls.drop_last();
    if progress_after(before) != 0 {
        let k = choose|k: int|
            0 <= k < before.len() && (#[trigger] before[k]).ready && before[k].now
                == progress_after(before);
        assert(polls[k] == before[k]);
    }
}

proof fn lemma_progress_is_a_poll(polls: Seq<Poll>)
    ensures
        progress_after(polls) == 0 || exists|k: int|
            0 <= k < polls.len() && (#[trigger] polls[k]).ready && polls[k].now
                == progress_after(polls),
    decreases polls.len(),
{
    if polls.len() > 0 {
        if polls.last().ready {
            assert(polls[polls.len() - 1].ready);
        } else {
            let before = polls.drop_last();
            lemma_progress_is_a_poll(before);
            if progress_after(before) != 0 {
                let k = choose|k: int|
                    0 <= k < before.len() && (#[trigger] before[k]).ready && before[k].now
                        == progress_after(before);
                assert(polls[k] == before[k]);
            }
        }
    }
}

} // verus!
