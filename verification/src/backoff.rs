//! Exponential backoff with a cap, for the reconnect loop.
use vstd::prelude::*;
use crate::span::Span;

verus! {

/// Seconds a session must last before it counts as evidence that the link works.
///
/// A broken host completes the handshake happily before it drops the connection, so the handshake
/// alone proves nothing. Ten seconds is far longer than an accept-and-drop cycle and far shorter
/// than any real session.
pub const MIN_SESSION_FOR_RESET_SECS: u64 = 10;

/// Seconds before the first retry.
pub const BASE_DELAY_SECS: u64 = 1;

/// Seconds that no delay exceeds.
pub const MAX_DELAY_SECS: u64 = 30;

/// Exponential backoff with a cap.
///
/// The delay doubles on each `next_delay` up to `max`, and goes back to `base` on `reset`, so that
/// a long-lived link that drops briefly does not inherit a stale, large delay.
#[derive(Debug, Clone, Copy)]
pub struct Backoff {
    /// The first delay.
    pub base: Span,
    /// The longest delay that doubling leads to.
    pub max: Span,
    /// The delay that comes next.
    pub current: Span,
}

/// The smaller of two numbers.
pub open spec fn smaller(a: int, b: int) -> int {
    if a <= b {
        a
    } else {
        b
    }
}

impl Backoff {
    /// The backoff after one more delay has been handed out.
    pub open spec fn advanced(self) -> Backoff {
        Backoff {
            current: Span { nanos: smaller(2 * self.current.nanos, self.max.nanos as int) as u128 },
            ..self
        }
    }

    /// The backoff after `n` more delays have been handed out.
    pub open spec fn advanced_by(self, n: nat) -> Backoff
        decreases n,
    {
        if n == 0 {
            self
        } else {
            self.advanced_by((n - 1) as nat).advanced()
        }
    }

    /// The backoff back at its first delay.
    pub open spec fn restarted(self) -> Backoff {
        Backoff { current: self.base, ..self }
    }

    /// Whether no delay of this backoff is too long to be doubled.
    pub open spec fn doubles(self) -> bool {
        &&& 2 * self.base.nanos <= crate::span::MAX_NANOS
        &&& 2 * self.max.nanos <= crate::span::MAX_NANOS
        &&& 2 * self.current.nanos <= crate::span::MAX_NANOS
    }

    /// A backoff that starts at `base` and doubles up to `max`.
    pub fn new(base: Span, max: Span) -> (r: Backoff)
        ensures
            r == (Backoff { base: base, max: max, current: base }),
    {
        Backoff { base, max, current: base }
    }

    /// The delay to wait before the next attempt; the one after it is twice as long, up to `max`.
    pub fn next_delay(&mut self) -> (delay: Span)
        requires
            2 * old(self).current.nanos <= crate::span::MAX_NANOS,
        ensures
            delay == old(self).current,
            *final(self) == old(self).advanced(),
    {
        let delay = self.current;
        let doubled: u128 = delay.nanos * 2;
        self.current = if doubled <= self.max.nanos {
            Span { nanos: doubled }
        } else {
            self.max
        };
        delay
    }

    /// Goes back to the first delay. For use after a link has proved that it works.
    pub fn reset(&mut self)
        ensures
            *final(self) == old(self).restarted(),
    {
        self.current = self.base;
    }
}

impl Default for Backoff {
    /// One second, doubling up to thirty.
    fn default() -> (r: Backoff)
        ensures
            r.base.nanos == BASE_DELAY_SECS * crate::span::NANOS_PER_SEC,
            r.max.nanos == MAX_DELAY_SECS * crate::span::NANOS_PER_SEC,
            r.current == r.base,
            r.doubles(),
    {
        Backoff::new(Span::from_secs(BASE_DELAY_SECS), Span::from_secs(MAX_DELAY_SECS))
    }
}

/// Whether a session that has ended is evidence that the link works.
pub open spec fn proves_link(handshook: bool, session: Span) -> bool {
    handshook && session.nanos >= MIN_SESSION_FOR_RESET_SECS * crate::span::NANOS_PER_SEC
}

/// Whether a session that has ended is evidence that the link works, and so whether the reconnect
/// backoff may go back to its first delay.
pub fn session_proves_the_link_works(handshook: bool, session: Span) -> (r: bool)
    ensures
        r == proves_link(handshook, session),
{
    handshook && session.nanos >= Span::from_secs(MIN_SESSION_FOR_RESET_SECS).nanos
}

/// Doubling then capping: the delay after `n` others is `base` doubled `n` times, or `max` once
/// that is smaller.
pub proof fn law_delays_double_then_cap(base: Span, max: Span, n: nat)
    requires
        base.nanos <= max.nanos,
    ensures
        (Backoff { base: base, max: max, current: base }).advanced_by(n).current.nanos == smaller(
            base.nanos * vstd::arithmetic::power2::pow2(n),
            max.nanos as int,
        ),
    decreases n,
{
    let start = Backoff { base: base, max: max, current: base };
    if n == 0 {
        vstd::arithmetic::power2::lemma2_to64();
    } else {
        let m = (n - 1) as nat;
        law_delays_double_then_cap(base, max, m);
        lemma_advanced_keeps_bounds(start, m);
        vstd::arithmetic::power2::lemma_pow2_unfold(n);
        let p = vstd::arithmetic::power2::pow2(m) as int;
        assert(base.nanos * (2 * p) == 2 * (base.nanos * p)) by (nonlinear_arith);
    }
}

/// Handing out delays changes neither the first delay nor the cap.
proof fn lemma_advanced_keeps_bounds(b: Backoff, n: nat)
    ensures
        b.advanced_by(n).base == b.base,
        b.advanced_by(n).max == b.max,
    decreases n,
{
    if n > 0 {
        lemma_advanced_keeps_bounds(b, (n - 1) as nat);
    }
}

/// No delay exceeds both the first delay and the cap, however many were handed out.
pub proof fn law_delays_stay_bounded(base: Span, max: Span, n: nat)
    ensures
        ({
            let delay = (Backoff { base: base, max: max, current: base }).advanced_by(n).current;
            delay.nanos <= base.nanos || delay.nanos <= max.nanos
        }),
{
    let start = Backoff { base: base, max: max, current: base };
    if n > 0 {
        lemma_advanced_keeps_bounds(start, (n - 1) as nat);
    }
}

/// A reset forgets every delay that was handed out before it: the delays that follow are those of
/// a new backoff.
pub proof fn law_reset_starts_over(base: Span, max: Span, n: nat, k: nat)
    ensures
        (Backoff { base: base, max: max, current: base }).advanced_by(n).restarted().advanced_by(k)
            == (Backoff { base: base, max: max, current: base }).advanced_by(k),
{
    lemma_advanced_keeps_bounds(Backoff { base: base, max: max, current: base }, n);
}

} // verus!
