//! Bounded retry with linear backoff, shared by all segment workers.

use vstd::prelude::*;

verus! {

/// How often a segment is attempted and how retry delays grow.
#[derive(Clone, Copy, Debug, PartialEq, Eq, Structural)]
pub struct RetryPolicy {
    /// Total attempts allowed per segment, the first one included.
    pub max_attempts: u32,
    /// The delay before retry `n` is `n * base_delay_ms`.
    pub base_delay_ms: u64,
}

impl RetryPolicy {
    /// At least one attempt, and the longest backoff fits in 64 bits.
    pub open spec fn wf(&self) -> bool {
        &&& 1 <= self.max_attempts
        &&& self.base_delay_ms * self.max_attempts <= u64::MAX
    }

    /// The delay inserted after the `failures`-th failed attempt.
    pub open spec fn spec_backoff_ms(&self, failures: u32) -> int {
        self.base_delay_ms * failures
    }

    /// The policy of the segmented path: three attempts, half a second of
    /// base delay.
    pub fn segment_default() -> (r: RetryPolicy)
        ensures
            r.max_attempts == 3,
            r.base_delay_ms == 500,
            r.wf(),
    {
        RetryPolicy { max_attempts: 3, base_delay_ms: 500 }
    }
}

/// What a worker does after a failed attempt.
#[derive(Clone, Copy, Debug, PartialEq, Eq, Structural)]
pub enum RetryDecision {
    /// Wait this long, then attempt again.
    Retry { delay_ms: u64 },
    /// Retries are exhausted; the failure is fatal for the transfer.
    GiveUp,
}

/// Per-segment retry progress: the number of failed attempts so far.
#[derive(Clone, Copy, Debug, PartialEq, Eq, Structural)]
pub struct RetryState {
    pub failures: u32,
}

impl RetryState {
    /// A fresh segment with no failures recorded.
    pub fn new() -> (r: RetryState)
        ensures
            r.failures == 0,
    {
        RetryState { failures: 0 }
    }

    /// Records one failed attempt and decides whether to retry: another
    /// attempt is allowed while fewer than `max_attempts` have failed, and
    /// its delay grows linearly with the failure count.
    pub fn on_failure(&mut self, policy: &RetryPolicy) -> (d: RetryDecision)
        requires
            policy.wf(),
            old(self).failures < policy.max_attempts,
        ensures
            final(self).failures == old(self).failures + 1,
            final(self).failures < policy.max_attempts ==> d == (RetryDecision::Retry {
                delay_ms: (policy.base_delay_ms * final(self).failures as u64) as u64,
            }),
            final(self).failures == policy.max_attempts ==> d == RetryDecision::GiveUp,
    {
        self.failures = self.failures + 1;
        if self.failures < policy.max_attempts {
            proof {
                vstd::arithmetic::mul::lemma_mul_inequality(
                    self.failures as int,
                    policy.max_attempts as int,
                    policy.base_delay_ms as int,
                );
                vstd::arithmetic::mul::lemma_mul_is_commutative(
                    self.failures as int,
                    policy.base_delay_ms as int,
                );
                vstd::arithmetic::mul::lemma_mul_is_commutative(
                    policy.max_attempts as int,
                    policy.base_delay_ms as int,
                );
            }
            RetryDecision::Retry { delay_ms: policy.base_delay_ms * (self.failures as u64) }
        } else {
            RetryDecision::GiveUp
        }
    }
}

/// What one segment's retry loop did: how many attempts ran, the delay
/// inserted before each retry, and whether an attempt finally succeeded.
#[derive(Debug)]
pub struct AttemptReport {
    pub attempts: u32,
    pub delays_ms: Vec<u64>,
    pub succeeded: bool,
}

/// The exact relation between a policy, the transport outcome of each
/// attempt, and the report of the retry loop run over them.
pub open spec fn attempt_report_matches(
    policy: RetryPolicy,
    outcomes: Seq<bool>,
    r: AttemptReport,
) -> bool {
    &&& (r.succeeded <==> exists|i: int| 0 <= i < policy.max_attempts && outcomes[i])
    &&& r.succeeded ==> {
        &&& 1 <= r.attempts <= policy.max_attempts
        &&& outcomes[r.attempts - 1]
        &&& forall|j: int| 0 <= j < r.attempts - 1 ==> !outcomes[j]
    }
    &&& !r.succeeded ==> r.attempts == policy.max_attempts
    &&& r.delays_ms@ == Seq::new(
        (r.attempts - 1) as nat,
        |i: int| (policy.base_delay_ms * (i + 1)) as u64,
    )
}

/// Runs one segment's retry loop over the outcomes the transport produced:
/// attempts stop at the first success, or after `max_attempts` failures,
/// with a linear backoff recorded before every retry.
///
/// The transport's outcomes are inputs here; the caller performs each
/// attempt and observes `outcomes[i]` as the result of attempt `i + 1`.
pub fn run_segment_attempts(policy: &RetryPolicy, outcomes: &Vec<bool>) -> (r: AttemptReport)
    requires
        policy.wf(),
        outcomes@.len() >= policy.max_attempts,
    ensures
        attempt_report_matches(*policy, outcomes@, r),
{
    let mut state = RetryState::new();
    let mut delays: Vec<u64> = Vec::new();
    let mut attempt: usize = 0;
    loop
        invariant
            policy.wf(),
            outcomes@.len() >= policy.max_attempts,
            attempt == state.failures,
            state.failures < policy.max_attempts,
            forall|j: int| 0 <= j < attempt ==> !outcomes@[j],
            delays@ == Seq::new(
                attempt as nat,
                |i: int| (policy.base_delay_ms * (i + 1)) as u64,
            ),
        decreases policy.max_attempts - attempt,
    {
        if outcomes[attempt] {
            let report = AttemptReport {
                attempts: state.failures + 1,
                delays_ms: delays,
                succeeded: true,
            };
            proof {
                assert(report.delays_ms@ =~= Seq::new(
                    (report.attempts - 1) as nat,
                    |i: int| (policy.base_delay_ms * (i + 1)) as u64,
                ));
            }
            return report;
        }
        match state.on_failure(policy) {
            RetryDecision::Retry { delay_ms } => {
                delays.push(delay_ms);
                attempt = attempt + 1;
                proof {
                    assert(delays@ =~= Seq::new(
                        attempt as nat,
                        |i: int| (policy.base_delay_ms * (i + 1)) as u64,
                    ));
                }
            },
            RetryDecision::GiveUp => {
                let report = AttemptReport {
                    attempts: state.failures,
                    delays_ms: delays,
                    succeeded: false,
                };
                proof {
                    assert(report.delays_ms@ =~= Seq::new(
                        (report.attempts - 1) as nat,
                        |i: int| (policy.base_delay_ms * (i + 1)) as u64,
                    ));
                }
                return report;
            },
        }
    }
}

/// Retry bound law: a segment whose transport fails on every attempt is
/// attempted exactly `max_attempts` times, never succeeds, and waits one
/// more backoff unit before each retry (500 ms then 1000 ms under the
/// default segment policy).
pub proof fn lemma_retry_exhaustion(policy: RetryPolicy, outcomes: Seq<bool>, r: AttemptReport)
    requires
        policy.wf(),
        outcomes.len() >= policy.max_attempts,
        forall|i: int| 0 <= i < outcomes.len() ==> !outcomes[i],
        attempt_report_matches(policy, outcomes, r),
    ensures
        !r.succeeded,
        r.attempts == policy.max_attempts,
        r.delays_ms@.len() == policy.max_attempts - 1,
        forall|i: int|
            0 <= i < r.delays_ms@.len() ==> r.delays_ms@[i] == policy.spec_backoff_ms(
                (i + 1) as u32,
            ),
{
    assert(!r.succeeded);
    assert forall|i: int| 0 <= i < r.delays_ms@.len() implies r.delays_ms@[i]
        == policy.spec_backoff_ms((i + 1) as u32) by {
        vstd::arithmetic::mul::lemma_mul_inequality(
            i + 1,
            policy.max_attempts as int,
            policy.base_delay_ms as int,
        );
        vstd::arithmetic::mul::lemma_mul_is_commutative(i + 1, policy.base_delay_ms as int);
        vstd::arithmetic::mul::lemma_mul_is_commutative(
            policy.max_attempts as int,
            policy.base_delay_ms as int,
        );
        vstd::arithmetic::mul::lemma_mul_nonnegative(policy.base_delay_ms as int, i + 1);
    }
}

} // verus!
