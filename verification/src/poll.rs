//! The bounded poll loops: waiting for the port to free after a zombie kill,
//! and waiting for a freshly spawned server to report ready.
//!
//! The loops themselves block on probing and sleeping, which the host shell
//! performs; what is modelled here is their clock and their decision. Time
//! advances in fixed poll intervals: each miss that the loop sleeps through
//! moves the elapsed counter by one interval, so a probe with index `i` is
//! examined at elapsed time `i * interval` and only while that lies before
//! the timeout.

use vstd::prelude::*;

verus! {

/// Pause between two probes of a poll loop, in milliseconds.
pub const POLL_INTERVAL_MS: u64 = 200;

/// How long to wait for the port to free after killing a zombie, in
/// milliseconds.
pub const PORT_FREE_TIMEOUT_MS: u64 = 2000;

/// How long to wait for a freshly spawned server to report ready, in
/// milliseconds.
pub const READY_TIMEOUT_MS: u64 = 10000;

/// Clock of one blocking poll loop.
#[derive(Clone, Copy, Debug, PartialEq, Eq, Structural)]
pub struct Poller {
    pub elapsed_ms: u64,
    pub timeout_ms: u64,
    pub interval_ms: u64,
}

/// What a poll loop run decided, or that its recorded outcomes ran out
/// before a decision fell.
pub enum PollRun {
    Decided(bool),
    Exhausted(Poller),
}

impl Poller {
    /// The interval is positive and the elapsed counter can always advance
    /// once more without overflowing.
    pub open spec fn wf(self) -> bool {
        0 < self.interval_ms && self.timeout_ms + self.interval_ms <= u64::MAX
    }

    /// The window has closed: no further probe is examined.
    pub open spec fn spec_expired(self) -> bool {
        self.elapsed_ms >= self.timeout_ms
    }

    /// The clock after sleeping through one more interval.
    pub open spec fn advanced(self) -> Poller {
        Poller { elapsed_ms: (self.elapsed_ms + self.interval_ms) as u64, ..self }
    }

    pub fn new(timeout_ms: u64, interval_ms: u64) -> (p: Poller)
        requires
            0 < interval_ms,
            timeout_ms + interval_ms <= u64::MAX,
        ensures
            p == (Poller { elapsed_ms: 0, timeout_ms, interval_ms }),
            p.wf(),
    {
        Poller { elapsed_ms: 0, timeout_ms, interval_ms }
    }

    /// Whether the window has closed. The loop asks this before every probe
    /// and, on `true`, stops with a `false` decision instead of an error.
    pub fn expired(&self) -> (r: bool)
        ensures
            r == self.spec_expired(),
    {
        self.elapsed_ms >= self.timeout_ms
    }

    /// Record one probe made within the window. A hit decides the loop at
    /// once; a miss is slept through, advancing the clock by one interval.
    pub fn observe(&mut self, target_seen: bool) -> (decided: bool)
        requires
            old(self).wf(),
            !old(self).spec_expired(),
        ensures
            final(self).wf(),
            decided == target_seen,
            target_seen ==> *final(self) == *old(self),
            !target_seen ==> *final(self) == old(self).advanced(),
    {
        if target_seen {
            true
        } else {
            self.elapsed_ms = self.elapsed_ms + self.interval_ms;
            false
        }
    }
}

/// One poll loop, run over a recorded sequence of probe outcomes: stop with
/// `false` once the window has closed, stop with `true` on the first hit,
/// sleep through each miss.
pub open spec fn spec_run(p: Poller, outcomes: Seq<bool>) -> PollRun
    decreases outcomes.len(),
{
    if p.spec_expired() {
        PollRun::Decided(false)
    } else if outcomes.len() == 0 {
        PollRun::Exhausted(p)
    } else if outcomes[0] {
        PollRun::Decided(true)
    } else {
        spec_run(p.advanced(), outcomes.skip(1))
    }
}

/// A poll loop decides `true` exactly when some probe hits within the
/// timeout window: readiness is reported if and only if a probe succeeds
/// before the window closes.
pub proof fn lemma_run_decides_true_iff_hit_within_window(p: Poller, outcomes: Seq<bool>)
    requires
        p.wf(),
    ensures
        spec_run(p, outcomes) == PollRun::Decided(true) <==> (exists|i: int|
            0 <= i < outcomes.len() && p.elapsed_ms + i * p.interval_ms < p.timeout_ms
                && outcomes[i]),
    decreases outcomes.len(),
{
    if p.spec_expired() {
        assert forall|i: int| 0 <= i < outcomes.len() implies !(p.elapsed_ms + #[trigger] (i
            * p.interval_ms) < p.timeout_ms) by {
            assert(i * p.interval_ms >= 0) by (nonlinear_arith)
                requires
                    i >= 0,
                    p.interval_ms >= 0,
            ;
        }
    } else if outcomes.len() == 0 {
    } else if outcomes[0] {
        assert(p.elapsed_ms + 0 * p.interval_ms < p.timeout_ms);
    } else {
        let q = p.advanced();
        let rest = outcomes.skip(1);
        lemma_run_decides_true_iff_hit_within_window(q, rest);
        assert(q.elapsed_ms == p.elapsed_ms + p.interval_ms);
        if spec_run(p, outcomes) == PollRun::Decided(true) {
            let i = choose|i: int|
                0 <= i < rest.len() && q.elapsed_ms + i * q.interval_ms < q.timeout_ms && rest[i];
            assert(outcomes[i + 1] == rest[i]);
            assert(p.elapsed_ms + (i + 1) * p.interval_ms == q.elapsed_ms + i * q.interval_ms)
                by (nonlinear_arith)
                requires
                    q.elapsed_ms == p.elapsed_ms + p.interval_ms,
                    q.interval_ms == p.interval_ms,
            ;
            assert(0 <= i + 1 < outcomes.len() && p.elapsed_ms + (i + 1) * p.interval_ms
                < p.timeout_ms && outcomes[i + 1]);
        }
        if exists|i: int|
            0 <= i < outcomes.len() && p.elapsed_ms + i * p.interval_ms < p.timeout_ms
                && outcomes[i] {
            let i = choose|i: int|
                0 <= i < outcomes.len() && p.elapsed_ms + i * p.interval_ms < p.timeout_ms
                    && outcomes[i];
            assert(i != 0);
            assert(rest[i - 1] == outcomes[i]);
            assert(q.elapsed_ms + (i - 1) * q.interval_ms == p.elapsed_ms + i * p.interval_ms)
                by (nonlinear_arith)
                requires
                    q.elapsed_ms == p.elapsed_ms + p.interval_ms,
                    q.interval_ms == p.interval_ms,
            ;
            assert(0 <= i - 1 < rest.len() && q.elapsed_ms + (i - 1) * q.interval_ms
                < q.timeout_ms && rest[i - 1]);
            assert(spec_run(q, rest) == PollRun::Decided(true));
        }
    }
}

/// When no probe ever hits and the misses recorded suffice to close the
/// window, the loop decides `false` — a timeout, not an error.
pub proof fn lemma_run_times_out_on_misses(p: Poller, outcomes: Seq<bool>)
    requires
        p.wf(),
        forall|i: int| 0 <= i < outcomes.len() ==> !outcomes[i],
        p.timeout_ms <= p.elapsed_ms + outcomes.len() * p.interval_ms,
    ensures
        spec_run(p, outcomes) == PollRun::Decided(false),
    decreases outcomes.len(),
{
    if p.spec_expired() {
    } else {
        assert(outcomes.len() > 0) by {
            if outcomes.len() == 0 {
                assert(outcomes.len() * p.interval_ms == 0);
            }
        }
        assert(!outcomes[0]);
        let q = p.advanced();
        let rest = outcomes.skip(1);
        assert(q.elapsed_ms + rest.len() * q.interval_ms == p.elapsed_ms + outcomes.len()
            * p.interval_ms) by (nonlinear_arith)
            requires
                q.elapsed_ms == p.elapsed_ms + p.interval_ms,
                q.interval_ms == p.interval_ms,
                rest.len() == outcomes.len() - 1,
                outcomes.len() >= 1,
        ;
        lemma_run_times_out_on_misses(q, rest);
    }
}

} // verus!
