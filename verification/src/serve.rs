//! The loopback listener: where it is bound, and when it gives up.
use vstd::prelude::*;
use crate::span::Span;
use crate::text;

verus! {

/// How many accepts in a row must fail before the listener gives up.
///
/// One failure says nothing of the listener, so it is tried again. A listener that has gone bad
/// for good must not be tried forever: giving up hands recovery to the supervisor.
pub const ACCEPT_ERROR_LIMIT: u32 = 32;

/// The pause after a failed accept, in milliseconds.
pub const ACCEPT_ERROR_BACKOFF_MILLIS: u64 = 100;

/// The address that the registry is bound to.
pub open spec fn bound_to(port: u16) -> Seq<char> {
    "127.0.0.1:"@ + text::decimal(port as nat)
}

/// The address that the registry is bound to: this host only, never the network.
pub fn loopback_address(port: u16) -> (r: String)
    ensures
        r@ == bound_to(port),
{
    "127.0.0.1:".to_string().concat(text::decimal_text(port as u64).as_str())
}

/// What follows a failed accept.
#[derive(Debug, Clone, PartialEq, Eq)]
pub enum AfterFailure {
    /// Wait, and try again; so many accepts in a row have failed.
    Retry { pause: Span, failures: u32 },
    /// Stop serving, and why.
    GiveUp { message: String },
}

/// The accept loop: how many accepts in a row have failed.
#[derive(Debug)]
pub struct AcceptLoop {
    failures: u32,
}

/// The failures in a row after one more accept that succeeded or not, counted up to the limit.
pub open spec fn failures_next(failures: nat, accepted: bool) -> nat {
    if accepted {
        0
    } else if failures < ACCEPT_ERROR_LIMIT {
        failures + 1
    } else {
        failures
    }
}

impl AcceptLoop {
    /// How many accepts in a row have failed.
    pub closed spec fn failures(self) -> nat {
        self.failures as nat
    }

    /// A loop that has accepted nothing yet.
    pub fn new() -> (r: AcceptLoop)
        ensures
            r.failures() == 0,
    {
        AcceptLoop { failures: 0 }
    }

    /// Takes in that a connection was accepted: the run of failures is broken.
    pub fn accepted(&mut self)
        ensures
            final(self).failures() == failures_next(old(self).failures(), true),
    {
        self.failures = 0;
    }

    /// Takes in that an accept failed because of `error`.
    pub fn failed(&mut self, error: &str) -> (r: AfterFailure)
        ensures
            final(self).failures() == failures_next(old(self).failures(), false),
            match r {
                AfterFailure::GiveUp { message } => {
                    &&& final(self).failures() >= ACCEPT_ERROR_LIMIT
                    &&& message@ == "accepting loopback connections failed "@ + text::decimal(
                        final(self).failures(),
                    ) + " times in a row: "@ + error@
                },
                AfterFailure::Retry { pause, failures } => {
                    &&& final(self).failures() < ACCEPT_ERROR_LIMIT
                    &&& failures == final(self).failures()
                    &&& pause.nanos == ACCEPT_ERROR_BACKOFF_MILLIS * crate::span::NANOS_PER_MILLI
                },
            },
    {
        if self.failures < ACCEPT_ERROR_LIMIT {
            self.failures = self.failures + 1;
        }
        if self.failures >= ACCEPT_ERROR_LIMIT {
            AfterFailure::GiveUp {
                message: "accepting loopback connections failed ".to_string().concat(
                    text::decimal_text(self.failures as u64).as_str(),
                ).concat(" times in a row: ").concat(error),
            }
        } else {
            AfterFailure::Retry {
                pause: Span::from_millis(ACCEPT_ERROR_BACKOFF_MILLIS),
                failures: self.failures,
            }
        }
    }
}

/// The failures in a row after accepts that succeeded or not as `accepts` says.
pub open spec fn failures_after(accepts: Seq<bool>) -> nat
    decreases accepts.len(),
{
    if accepts.len() == 0 {
        0
    } else {
        failures_next(failures_after(accepts.drop_last()), accepts.last())
    }
}

/// Whether the last `n` accepts all failed.
pub open spec fn ends_in_failures(accepts: Seq<bool>, n: nat) -> bool {
    n <= accepts.len() && forall|i: int|
        accepts.len() - n <= i < accepts.len() ==> !(#[trigger] accepts[i])
}

proof fn lemma_failures(accepts: Seq<bool>, n: nat)
    requires
        n <= ACCEPT_ERROR_LIMIT,
    ensures
        failures_after(accepts) >= n <==> ends_in_failures(accepts, n),
        failures_after(accepts) <= ACCEPT_ERROR_LIMIT,
    decreases accepts.len(),
{
    if accepts.len() > 0 {
        let before = accepts.drop_last();
        lemma_failures(before, n);
        if n > 0 {
            let m = (n - 1) as nat;
            lemma_failures(before, m);
            if ends_in_failures(accepts, n) {
                assert(!accepts[accepts.len() - 1]);
                assert(ends_in_failures(before, m)) by {
                    assert forall|i: int| before.len() - m <= i < before.len() implies !(
                    #[trigger] before[i]) by {
                        assert(!accepts[i]);
                    }
                }
            }
            if ends_in_failures(before, m) && !accepts.last() {
                assert forall|i: int| accepts.len() - n <= i < accepts.len() implies !(
                #[trigger] accepts[i]) by {
                    if i < before.len() {
                        assert(!before[i]);
                    }
                }
            }
        }
    }
}

/// The listener gives up exactly when the last accepts, as many as the limit says, all failed:
/// never over fewer, and any accepted connection starts the count again.
pub proof fn law_gives_up_after_an_unbroken_run(accepts: Seq<bool>)
    ensures
        failures_after(accepts) >= ACCEPT_ERROR_LIMIT <==> ends_in_failures(
            accepts,
            ACCEPT_ERROR_LIMIT as nat,
        ),
{
    lemma_failures(accepts, ACCEPT_ERROR_LIMIT as nat);
}

/// After a connection was accepted, fewer failures than the limit never make the listener give up,
/// however many came before.
pub proof fn law_an_accept_starts_the_count_again(before: Seq<bool>, after: Seq<bool>)
    requires
        after.len() < ACCEPT_ERROR_LIMIT,
    ensures
        failures_after(before.push(true) + after) < ACCEPT_ERROR_LIMIT,
{
    let all = before.push(true) + after;
    lemma_failures(all, ACCEPT_ERROR_LIMIT as nat);
    if ends_in_failures(all, ACCEPT_ERROR_LIMIT as nat) {
        assert(!all[before.len() as int]);
    }
}

} // verus!
