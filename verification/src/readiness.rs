//! Polling a freshly launched gateway until it answers, or until the
//! startup timeout elapses.
//!
//! The gateway offers no readiness push mechanism, so readiness is a
//! busy-poll: one probe per interval, the first at elapsed time zero.
//! Only the caller can probe and sleep; it drives a [`ReadinessWaiter`]
//! step by step, and [`wait_ready_outcome`] is the same policy run in one
//! piece over any sequence of probe outcomes, with the timing pinned: a
//! success returns at its probe's instant, and exhaustion returns at the
//! first instant at or past the timeout — never more than one interval
//! past it.

use vstd::prelude::*;

verus! {

/// What a completed readiness wait reports.
#[derive(Clone, Copy, PartialEq, Eq, Structural, Debug)]
pub struct WaitOutcome {
    /// Whether a probe succeeded before the timeout.
    pub ready: bool,
    /// How many probes were issued.
    pub attempts: u64,
    /// Elapsed milliseconds at the moment of return.
    pub elapsed_ms: u64,
}

/// Step-by-step state of one readiness wait.  The caller probes whenever
/// the waiter has not [`ReadinessWaiter::expired`], and records each
/// failed probe together with the sleep that follows it.
pub struct ReadinessWaiter {
    /// Total time allowed, in milliseconds.
    pub timeout_ms: u64,
    /// Time between the starts of two probes, in milliseconds.
    pub interval_ms: u64,
    /// Time elapsed so far, in milliseconds.
    pub elapsed_ms: u64,
    /// Probes issued so far.
    pub attempts: u64,
}

impl ReadinessWaiter {
    /// Well-formedness: the interval is positive, one more interval can
    /// never overflow the clock, and the elapsed time is exactly the
    /// failed attempts times the interval.
    pub open spec fn wf(self) -> bool {
        &&& self.interval_ms > 0
        &&& self.timeout_ms + self.interval_ms <= u64::MAX
        &&& self.elapsed_ms == self.attempts * self.interval_ms
    }

    /// A fresh wait: nothing elapsed, no probe issued.
    pub fn new(timeout_ms: u64, interval_ms: u64) -> (w: ReadinessWaiter)
        requires
            interval_ms > 0,
            timeout_ms + interval_ms <= u64::MAX,
        ensures
            w == (ReadinessWaiter { timeout_ms, interval_ms, elapsed_ms: 0, attempts: 0 }),
            w.wf(),
    {
        ReadinessWaiter { timeout_ms, interval_ms, elapsed_ms: 0, attempts: 0 }
    }

    /// Whether the timeout has elapsed; while it has not, the caller owes
    /// one more probe.
    pub fn expired(&self) -> (r: bool)
        ensures
            r == (self.elapsed_ms >= self.timeout_ms),
    {
        self.elapsed_ms >= self.timeout_ms
    }

    /// Record one failed probe and the sleep of one interval that follows
    /// it.
    pub fn record_failure(&mut self)
        requires
            old(self).wf(),
            old(self).elapsed_ms < old(self).timeout_ms,
        ensures
            final(self).timeout_ms == old(self).timeout_ms,
            final(self).interval_ms == old(self).interval_ms,
            final(self).attempts == old(self).attempts + 1,
            final(self).elapsed_ms == old(self).elapsed_ms + old(self).interval_ms,
            final(self).wf(),
    {
        proof {
            let a = self.attempts as int;
            let k = self.interval_ms as int;
            assert((a + 1) * k == a * k + k) by (nonlinear_arith);
            assert(a <= a * k) by (nonlinear_arith)
                requires
                    a >= 0,
                    k >= 1,
            ;
        }
        self.elapsed_ms = self.elapsed_ms + self.interval_ms;
        self.attempts = self.attempts + 1;
    }
}

/// The readiness policy run over a recorded sequence of probe outcomes:
/// `probes[i]` is what the probe at elapsed time `i * interval_ms` would
/// answer.  The outcome is pinned exactly: a wait returns true at the
/// instant of the first successful probe before the timeout — neither
/// immediately nor at the timeout — and returns false at the first
/// multiple of the interval at or past the timeout, less than one
/// interval past it.
pub fn wait_ready_outcome(probes: &Vec<bool>, timeout_ms: u64, interval_ms: u64) -> (r:
    WaitOutcome)
    requires
        interval_ms > 0,
        timeout_ms + interval_ms <= u64::MAX,
        probes@.len() * interval_ms >= timeout_ms,
    ensures
        r.ready ==> r.attempts >= 1 && probes@[r.attempts - 1] && (forall|i: int|
            0 <= i < r.attempts - 1 ==> !probes@[i]) && r.elapsed_ms == (r.attempts - 1)
            * interval_ms && r.elapsed_ms < timeout_ms,
        !r.ready ==> (forall|i: int| 0 <= i < r.attempts ==> !probes@[i]) && r.elapsed_ms
            == r.attempts * interval_ms && r.elapsed_ms >= timeout_ms && r.elapsed_ms < timeout_ms
            + interval_ms,
{
    let mut w = ReadinessWaiter::new(timeout_ms, interval_ms);
    let total: usize = probes.len();
    let mut n: usize = 0;
    loop
        invariant
            w.wf(),
            w.timeout_ms == timeout_ms,
            w.interval_ms == interval_ms,
            n == w.attempts,
            n <= total,
            total == probes@.len(),
            probes@.len() * interval_ms >= timeout_ms,
            forall|i: int| 0 <= i < n ==> !probes@[i],
            n >= 1 ==> (n - 1) * interval_ms < timeout_ms,
        decreases total - n,
    {
        if w.expired() {
            proof {
                let a = n as int;
                let k = interval_ms as int;
                let t = timeout_ms as int;
                if n >= 1 {
                    assert(a * k < t + k) by (nonlinear_arith)
                        requires
                            (a - 1) * k < t,
                    ;
                } else {
                    assert(a * k == 0) by (nonlinear_arith)
                        requires
                            a == 0,
                    ;
                }
                assert(w.elapsed_ms == a * k);
                assert(w.elapsed_ms < timeout_ms + interval_ms);
            }
            return WaitOutcome { ready: false, attempts: w.attempts, elapsed_ms: w.elapsed_ms };
        }
        proof {
            let a = n as int;
            let k = interval_ms as int;
            let t = timeout_ms as int;
            let len = probes@.len() as int;
            assert(a < len) by (nonlinear_arith)
                requires
                    a * k < t,
                    t <= len * k,
                    k > 0,
                    a >= 0,
            ;
        }
        if probes[n] {
            return WaitOutcome { ready: true, attempts: w.attempts + 1, elapsed_ms: w.elapsed_ms };
        }
        w.record_failure();
        n = n + 1;
    }
}

} // verus!
