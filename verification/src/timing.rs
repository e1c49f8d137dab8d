//! The latency figures of a render tick.
//!
//! A tick is timed by three readings of one monotonic clock, in
//! nanoseconds: when the tick began, when its draw calls were issued, and
//! when it ended. Two figures come out of them, in whole milliseconds: the
//! time spent drawing and the time of the whole tick. The figures are for
//! display only; nothing is decided by them.

use vstd::prelude::*;

verus! {

/// Nanoseconds in a millisecond.
pub const NANOS_PER_MILLI: u128 = 1_000_000;

/// Whole milliseconds from `from` to `to`; zero where `to` is the earlier.
pub open spec fn spec_millis_between(from: u128, to: u128) -> u128 {
    if to >= from {
        ((to - from) / NANOS_PER_MILLI as int) as u128
    } else {
        0
    }
}

/// Whole milliseconds from `from` to `to`; zero where `to` is the earlier.
#[verifier::when_used_as_spec(spec_millis_between)]
pub fn millis_between(from: u128, to: u128) -> (millis: u128)
    ensures
        millis == spec_millis_between(from, to),
{
    if to >= from {
        (to - from) / NANOS_PER_MILLI
    } else {
        0
    }
}

/// The two figures of one tick.
#[derive(Clone, Copy, Debug, PartialEq, Eq, Structural)]
pub struct TickTiming {
    /// Milliseconds from the start of the tick to the end of its draw calls.
    pub draw_ms: u128,
    /// Milliseconds from the start of the tick to its end.
    pub total_ms: u128,
}

/// The two clock readings that a running tick keeps.
#[derive(Clone, Copy, Debug, PartialEq, Eq, Structural)]
pub struct TickProbe {
    pub started_ns: u128,
    pub drawn_ns: u128,
}

impl TickProbe {
    /// Starts timing a tick at clock reading `now_ns`.
    pub fn start(now_ns: u128) -> (probe: TickProbe)
        ensures
            probe == (TickProbe { started_ns: now_ns, drawn_ns: now_ns }),
    {
        TickProbe { started_ns: now_ns, drawn_ns: now_ns }
    }

    /// Notes that the draw calls were issued at clock reading `now_ns`.
    pub fn mark_drawn(&mut self, now_ns: u128)
        ensures
            *final(self) == (TickProbe { started_ns: old(self).started_ns, drawn_ns: now_ns }),
    {
        self.drawn_ns = now_ns;
    }

    /// The figures of the tick, which ends at clock reading `now_ns`.
    pub fn finish(&self, now_ns: u128) -> (timing: TickTiming)
        ensures
            timing == (TickTiming {
                draw_ms: spec_millis_between(self.started_ns, self.drawn_ns),
                total_ms: spec_millis_between(self.started_ns, now_ns),
            }),
    {
        TickTiming {
            draw_ms: millis_between(self.started_ns, self.drawn_ns),
            total_ms: millis_between(self.started_ns, now_ns),
        }
    }
}

/// On a clock that does not run backwards, drawing takes no longer than
/// the tick it is part of.
pub proof fn law_draw_within_tick(started_ns: u128, drawn_ns: u128, ended_ns: u128)
    requires
        started_ns <= drawn_ns <= ended_ns,
    ensures
        spec_millis_between(started_ns, drawn_ns) <= spec_millis_between(started_ns, ended_ns),
{
    let a = drawn_ns - started_ns;
    let b = ended_ns - started_ns;
    assert(a / 1_000_000 <= b / 1_000_000) by (nonlinear_arith)
        requires
            0 <= a <= b,
    ;
}

} // verus!
