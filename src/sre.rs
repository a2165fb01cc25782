//! Reliability guards: the coherence feasibility check and the circuit breaker.
use vstd::prelude::*;

verus! {

/// Time per circuit layer, in nanoseconds.
pub const GATE_TIME_PER_LAYER_NS: u64 = 50;

/// The safety margin applied to the coherence limit is one half: a circuit is
/// feasible when its duration is at most `limit / MARGIN_DIVISOR`.
pub const MARGIN_DIVISOR: u64 = 2;

/// The breaker opens once the failure count exceeds this value.
pub const FAILURE_THRESHOLD: u32 = 5;

/// Time after the last failure, in milliseconds, beyond which an open
/// breaker closes again.
pub const COOLDOWN_MS: u64 = 30_000;

/// Estimated duration of a circuit of `depth` layers, in nanoseconds.
pub open spec fn estimated_duration_ns(depth: int) -> int {
    depth * GATE_TIME_PER_LAYER_NS
}

/// A circuit fits when its estimated duration does not exceed the margin-adjusted limit.
pub open spec fn fits_coherence(depth: int, coherence_limit_ns: int) -> bool {
    estimated_duration_ns(depth) * MARGIN_DIVISOR <= coherence_limit_ns
}

/// Formal check of a circuit's duration against the hardware coherence time.
pub struct CoherenceVerifier;

impl CoherenceVerifier {
    /// True when a circuit of `depth` layers fits within half of the coherence
    /// limit `t1_nanos` (given in nanoseconds).
    pub fn verify(depth: usize, t1_nanos: u64) -> (r: bool)
        ensures
            r == fits_coherence(depth as int, t1_nanos as int),
    {
        let d = depth as u128;
        assert(d * 50 * 2 <= 0xffff_ffff_ffff_ffff * 100) by (nonlinear_arith)
            requires
                d <= 0xffff_ffff_ffff_ffff,
        ;
        let duration_ns: u128 = d * (GATE_TIME_PER_LAYER_NS as u128);
        duration_ns * (MARGIN_DIVISOR as u128) <= t1_nanos as u128
    }
}

/// Circuit breaker state.
#[derive(Debug, Clone, Copy, PartialEq, Eq, Structural)]
pub enum HealthState {
    Healthy,
    /// Reserved; no transition leads here.
    Degraded,
    /// Requests are stopped.
    Open,
}

/// The breaker: its state, the failure count and the time of the last
/// failure (milliseconds on a monotonic clock chosen by the caller). All three
/// are changed together by each operation.
pub struct SentinelSRE {
    pub state: HealthState,
    pub error_count: u32,
    pub last_failure: Option<u64>,
}

/// Time from `since` to `now`; zero when the clock reads earlier than `since`.
pub open spec fn elapsed_ms(since: u64, now: u64) -> int {
    if now >= since {
        now - since
    } else {
        0
    }
}

/// One more failure; the count stays at the top of `u32`.
pub open spec fn bumped_count(n: u32) -> u32 {
    if n < u32::MAX {
        (n + 1) as u32
    } else {
        n
    }
}

/// The breaker after a failure at time `now`.
pub open spec fn after_failure(g: SentinelSRE, now: u64) -> SentinelSRE {
    SentinelSRE {
        state: if bumped_count(g.error_count) > FAILURE_THRESHOLD {
            HealthState::Open
        } else {
            g.state
        },
        error_count: bumped_count(g.error_count),
        last_failure: Some(now),
    }
}

/// Whether an open breaker has cooled down at time `now`.
pub open spec fn cooled_down(g: SentinelSRE, now: u64) -> bool {
    match g.last_failure {
        Some(t) => elapsed_ms(t, now) > COOLDOWN_MS,
        None => false,
    }
}

/// The answer of a health check at time `now`.
pub open spec fn health_allows(g: SentinelSRE, now: u64) -> bool {
    g.state != HealthState::Open || cooled_down(g, now)
}

/// The breaker after a health check at time `now`.
pub open spec fn after_check(g: SentinelSRE, now: u64) -> SentinelSRE {
    if g.state == HealthState::Open && cooled_down(g, now) {
        SentinelSRE { state: HealthState::Healthy, error_count: 0, last_failure: g.last_failure }
    } else {
        g
    }
}

/// The breaker after failures at the times `times`, in order.
pub open spec fn after_failures(g: SentinelSRE, times: Seq<u64>) -> SentinelSRE
    decreases times.len(),
{
    if times.len() == 0 {
        g
    } else {
        after_failure(after_failures(g, times.drop_last()), times.last())
    }
}

impl SentinelSRE {
    /// The breaker opens only when the count is over the threshold, after a
    /// recorded failure.
    pub open spec fn wf(&self) -> bool {
        self.state == HealthState::Open ==> self.error_count > FAILURE_THRESHOLD
            && self.last_failure is Some
    }

    pub fn new() -> (r: Self)
        ensures
            r.state == HealthState::Healthy,
            r.error_count == 0,
            r.last_failure is None,
            r.wf(),
    {
        SentinelSRE { state: HealthState::Healthy, error_count: 0, last_failure: None }
    }

    /// Records a failure at time `now_ms` and opens the breaker when the
    /// count exceeds the threshold.
    pub fn report_failure(&mut self, now_ms: u64)
        ensures
            *final(self) == after_failure(*old(self), now_ms),
            old(self).wf() ==> final(self).wf(),
    {
        if self.error_count < u32::MAX {
            self.error_count = self.error_count + 1;
        }
        self.last_failure = Some(now_ms);
        if self.error_count > FAILURE_THRESHOLD {
            self.state = HealthState::Open;
        }
    }

    /// Whether work may proceed at time `now_ms`. An open breaker whose last
    /// failure is more than the cooldown ago is reset and lets work through.
    pub fn check_health(&mut self, now_ms: u64) -> (r: bool)
        ensures
            r == health_allows(*old(self), now_ms),
            *final(self) == after_check(*old(self), now_ms),
            old(self).wf() ==> final(self).wf(),
    {
        if self.state == HealthState::Open {
            if let Some(t) = self.last_failure {
                let elapsed: u64 = if now_ms >= t {
                    now_ms - t
                } else {
                    0
                };
                if elapsed > COOLDOWN_MS {
                    self.reset();
                    return true;
                }
            }
            return false;
        }
        true
    }

    fn reset(&mut self)
        ensures
            final(self).error_count == 0,
            final(self).state == HealthState::Healthy,
            final(self).last_failure == old(self).last_failure,
    {
        self.error_count = 0;
        self.state = HealthState::Healthy;
    }
}

/// Failures never lower the count: after a run of failures it is at least
/// the number of failures (up to the top of `u32`).
proof fn lemma_failures_count(g: SentinelSRE, times: Seq<u64>)
    ensures
        after_failures(g, times).error_count >= times.len() || after_failures(g, times).error_count
            == u32::MAX,
        after_failures(g, times).error_count >= g.error_count,
        times.len() > 0 ==> after_failures(g, times).last_failure == Some(times.last()),
        after_failures(g, times).error_count > FAILURE_THRESHOLD && times.len() > 0
            ==> after_failures(g, times).state == HealthState::Open,
    decreases times.len(),
{
    if times.len() > 0 {
        lemma_failures_count(g, times.drop_last());
    }
}

/// Six or more failures in a row open the breaker: a health check within the
/// cooldown of the last one is refused, and a check after the cooldown is
/// allowed and clears the count.
pub proof fn lemma_breaker_trips_and_recovers(
    g: SentinelSRE,
    times: Seq<u64>,
    early: u64,
    late: u64,
)
    requires
        times.len() >= FAILURE_THRESHOLD + 1,
        elapsed_ms(times.last(), early) <= COOLDOWN_MS,
        elapsed_ms(times.last(), late) > COOLDOWN_MS,
    ensures
        after_failures(g, times).state == HealthState::Open,
        !health_allows(after_failures(g, times), early),
        after_check(after_failures(g, times), early) == after_failures(g, times),
        health_allows(after_failures(g, times), late),
        after_check(after_failures(g, times), late).error_count == 0,
        after_check(after_failures(g, times), late).state == HealthState::Healthy,
{
    lemma_failures_count(g, times);
}

} // verus!
