//! Progress accounting: a monotone cumulative byte counter, time-based
//! throttling of progress callbacks, and the guarantee that observed
//! progress values never decrease.

use vstd::prelude::*;

verus! {

/// Throttle interval of the single-stream path, in milliseconds.
pub const SINGLE_STREAM_INTERVAL_MS: u64 = 20;

/// Throttle interval of each segment worker, in milliseconds.
pub const SEGMENT_INTERVAL_MS: u64 = 100;

/// Sum of all values in `s`.
pub open spec fn spec_sum(s: Seq<u64>) -> int
    decreases s.len(),
{
    if s.len() == 0 {
        0
    } else {
        spec_sum(s.drop_last()) + s.last()
    }
}

/// Whether `s` never decreases from one element to the next.
pub open spec fn is_non_decreasing(s: Seq<u64>) -> bool {
    forall|i: int, j: int| 0 <= i <= j < s.len() ==> s[i] <= s[j]
}

/// The cumulative count of bytes received across a transfer, together with
/// the (ghost) chunk sizes that produced it.
pub struct ProgressCounter {
    pub total: u64,
    pub chunks: Ghost<Seq<u64>>,
}

impl ProgressCounter {
    /// The running total is exactly the sum of all recorded chunks.
    pub open spec fn wf(&self) -> bool {
        self.total == spec_sum(self.chunks@)
    }

    /// An empty counter.
    pub fn new() -> (r: ProgressCounter)
        ensures
            r.wf(),
            r.total == 0,
            r.chunks@ =~= Seq::<u64>::empty(),
    {
        ProgressCounter { total: 0, chunks: Ghost(Seq::empty()) }
    }

    /// Adds one received chunk; the total never decreases.
    pub fn record(&mut self, n: u64)
        requires
            old(self).wf(),
            old(self).total + n <= u64::MAX,
        ensures
            final(self).wf(),
            final(self).total == old(self).total + n,
            final(self).chunks@ == old(self).chunks@.push(n),
            final(self).total >= old(self).total,
    {
        self.total = self.total + n;
        proof {
            self.chunks@ = self.chunks@.push(n);
            assert(self.chunks@.drop_last() =~= old(self).chunks@);
        }
    }
}

/// Time-based throttling of progress callbacks: a callback fires only when
/// at least `interval_ms` have passed since the last one.
#[derive(Clone, Copy, Debug, PartialEq, Eq, Structural)]
pub struct Throttle {
    pub interval_ms: u64,
    pub last_emit_ms: u64,
}

impl Throttle {
    /// Whether a callback is due at time `now_ms`.
    pub open spec fn spec_is_due(&self, now_ms: u64) -> bool {
        self.last_emit_ms + self.interval_ms <= now_ms
    }

    /// A throttle whose last emission is deemed to have happened at
    /// `now_ms`.
    pub fn new(interval_ms: u64, now_ms: u64) -> (r: Throttle)
        ensures
            r.interval_ms == interval_ms,
            r.last_emit_ms == now_ms,
    {
        Throttle { interval_ms, last_emit_ms: now_ms }
    }

    /// Decides whether a callback fires at `now_ms`, and if so restarts the
    /// interval from that moment.
    pub fn poll(&mut self, now_ms: u64) -> (due: bool)
        ensures
            due == old(self).spec_is_due(now_ms),
            due ==> *final(self) == (Throttle {
                last_emit_ms: now_ms,
                ..*old(self)
            }),
            !due ==> *final(self) == *old(self),
    {
        if now_ms >= self.last_emit_ms && now_ms - self.last_emit_ms >= self.interval_ms {
            self.last_emit_ms = now_ms;
            true
        } else {
            false
        }
    }
}

/// Progress reporting of one stream: accumulates received bytes, decides
/// when the callback fires, and keeps the (ghost) list of values every
/// fired callback carried.
pub struct StreamProgress {
    pub counter: ProgressCounter,
    pub throttle: Throttle,
    pub emitted: Ghost<Seq<u64>>,
}

impl StreamProgress {
    /// The counter is consistent, every emitted value is bounded by the
    /// running total, and emitted values never decrease.
    pub open spec fn wf(&self) -> bool {
        &&& self.counter.wf()
        &&& is_non_decreasing(self.emitted@)
        &&& forall|i: int| 0 <= i < self.emitted@.len() ==> self.emitted@[i] <= self.counter.total
    }

    /// Fresh progress for a stream starting at time `now_ms`.
    pub fn new(interval_ms: u64, now_ms: u64) -> (r: StreamProgress)
        ensures
            r.wf(),
            r.counter.total == 0,
            r.counter.chunks@ =~= Seq::<u64>::empty(),
            r.emitted@ =~= Seq::<u64>::empty(),
            r.throttle.interval_ms == interval_ms,
            r.throttle.last_emit_ms == now_ms,
    {
        StreamProgress {
            counter: ProgressCounter::new(),
            throttle: Throttle::new(interval_ms, now_ms),
            emitted: Ghost(Seq::empty()),
        }
    }

    /// Records `n` received bytes at time `now_ms` and reports the new
    /// cumulative total exactly when the throttle is due.
    pub fn on_chunk(&mut self, n: u64, now_ms: u64) -> (emit: Option<u64>)
        requires
            old(self).wf(),
            old(self).counter.total + n <= u64::MAX,
        ensures
            final(self).wf(),
            final(self).counter.total == old(self).counter.total + n,
            final(self).counter.chunks@ == old(self).counter.chunks@.push(n),
            emit is Some <==> old(self).throttle.spec_is_due(now_ms),
            match emit {
                Some(v) => {
                    &&& v == final(self).counter.total
                    &&& final(self).emitted@ == old(self).emitted@.push(v)
                },
                None => final(self).emitted@ == old(self).emitted@,
            },
    {
        self.counter.record(n);
        if self.throttle.poll(now_ms) {
            let total = self.counter.total;
            proof {
                self.emitted@ = self.emitted@.push(total);
            }
            Some(total)
        } else {
            None
        }
    }

    /// Reports the final cumulative total of a completed stream; this
    /// terminal value is always emitted, whatever the throttle says.
    pub fn finish(&mut self) -> (v: u64)
        requires
            old(self).wf(),
        ensures
            final(self).wf(),
            v == old(self).counter.total,
            final(self).counter == old(self).counter,
            final(self).emitted@ == old(self).emitted@.push(v),
    {
        let total = self.counter.total;
        proof {
            self.emitted@ = self.emitted@.push(total);
        }
        total
    }
}

/// Progress monotonicity law: across one stream, the values carried by
/// fired callbacks never decrease, each is bounded by the cumulative byte
/// count, and that count is exactly the sum of all received chunks.
pub proof fn lemma_progress_monotone(p: &StreamProgress)
    requires
        p.wf(),
    ensures
        is_non_decreasing(p.emitted@),
        forall|i: int| 0 <= i < p.emitted@.len() ==> p.emitted@[i] <= p.counter.total,
        p.counter.total == spec_sum(p.counter.chunks@),
{
}

} // verus!
