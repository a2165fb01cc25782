//! Obligation monitor for the property "every price below the threshold is
//! eventually followed by a hedge", with a bounded waiting window.
use vstd::prelude::*;

verus! {

/// Prices are carried as integers in millionths of a currency unit.
pub const PRICE_SCALE: i64 = 1_000_000;

/// A price strictly below this level (100 units) opens an obligation.
pub const OBLIGATION_THRESHOLD: i64 = 100 * PRICE_SCALE;

/// An event seen by the monitor.
#[derive(Debug, Clone, Copy, PartialEq, Eq, Structural)]
pub enum SentinelEvent {
    /// A new market price, in millionths of a unit.
    PriceUpdate(i64),
    /// The obligation was met.
    HedgeExecuted,
    /// A remote job finished; it does not move the monitor by itself.
    QuantumJobFinished,
}

/// State of the obligation monitor.
#[derive(Debug, Clone, Copy, PartialEq, Eq, Structural)]
pub enum MonitorState {
    /// No obligation is open.
    Safe,
    /// An obligation is open; the count is the number of ticks since it opened.
    PendingHedge(u64),
}

pub open spec fn is_low_price(e: SentinelEvent) -> bool {
    match e {
        SentinelEvent::PriceUpdate(p) => p < OBLIGATION_THRESHOLD,
        _ => false,
    }
}

/// One tick more in the pending count; the count stays at the top of `u64`.
pub open spec fn next_count(n: u64) -> u64 {
    if n < u64::MAX {
        (n + 1) as u64
    } else {
        n
    }
}

/// The transition function of the monitor.
pub open spec fn step_state(s: MonitorState, e: SentinelEvent) -> MonitorState {
    match s {
        MonitorState::Safe => if is_low_price(e) {
            MonitorState::PendingHedge(0)
        } else {
            MonitorState::Safe
        },
        MonitorState::PendingHedge(n) => if e == SentinelEvent::HedgeExecuted {
            MonitorState::Safe
        } else {
            MonitorState::PendingHedge(next_count(n))
        },
    }
}

/// Whether the tick may proceed: false exactly when a pending obligation
/// outlives the tolerance on this tick.
pub open spec fn step_allows(s: MonitorState, e: SentinelEvent, tolerance: u64) -> bool {
    match s {
        MonitorState::Safe => true,
        MonitorState::PendingHedge(n) => e == SentinelEvent::HedgeExecuted || next_count(n)
            <= tolerance,
    }
}

/// The state reached from `s` after the events `evs`, in order.
pub open spec fn run_events(s: MonitorState, evs: Seq<SentinelEvent>) -> MonitorState
    decreases evs.len(),
{
    if evs.len() == 0 {
        s
    } else {
        step_state(run_events(s, evs.drop_last()), evs.last())
    }
}

/// Some price below the threshold in `evs` has no hedge after it.
pub open spec fn has_unanswered_low_price(evs: Seq<SentinelEvent>) -> bool {
    exists|i: int|
        0 <= i < evs.len() && is_low_price(#[trigger] evs[i]) && forall|j: int|
            i < j < evs.len() ==> evs[j] != SentinelEvent::HedgeExecuted
}

pub struct SafetyMonitor {
    state: MonitorState,
    max_ticks_tolerance: u64,
}

impl SafetyMonitor {
    pub closed spec fn spec_state(&self) -> MonitorState {
        self.state
    }

    pub closed spec fn spec_tolerance(&self) -> u64 {
        self.max_ticks_tolerance
    }

    /// A monitor with no open obligation.
    pub fn new(tolerance: u64) -> (r: Self)
        ensures
            r.spec_state() == MonitorState::Safe,
            r.spec_tolerance() == tolerance,
    {
        SafetyMonitor { state: MonitorState::Safe, max_ticks_tolerance: tolerance }
    }

    pub fn state(&self) -> (r: MonitorState)
        ensures
            r == self.spec_state(),
    {
        self.state
    }

    pub fn tolerance(&self) -> (r: u64)
        ensures
            r == self.spec_tolerance(),
    {
        self.max_ticks_tolerance
    }

    /// Feeds one event; returns false when the open obligation has waited
    /// longer than the tolerance (the gated action must be suppressed).
    pub fn check(&mut self, event: &SentinelEvent) -> (r: bool)
        ensures
            final(self).spec_state() == step_state(old(self).spec_state(), *event),
            final(self).spec_tolerance() == old(self).spec_tolerance(),
            r == step_allows(old(self).spec_state(), *event, old(self).spec_tolerance()),
    {
        match self.state {
            MonitorState::Safe => {
                if let SentinelEvent::PriceUpdate(price) = *event {
                    if price < OBLIGATION_THRESHOLD {
                        self.state = MonitorState::PendingHedge(0);
                    }
                }
                true
            },
            MonitorState::PendingHedge(ticks) => {
                if let SentinelEvent::HedgeExecuted = *event {
                    self.state = MonitorState::Safe;
                    true
                } else {
                    let n: u64 = if ticks < u64::MAX {
                        ticks + 1
                    } else {
                        ticks
                    };
                    self.state = MonitorState::PendingHedge(n);
                    n <= self.max_ticks_tolerance
                }
            },
        }
    }
}

/// From a clear start, the monitor is pending after a sequence of events
/// exactly when some price below the threshold in it has not been followed
/// by a hedge.
pub proof fn lemma_pending_iff_unanswered(evs: Seq<SentinelEvent>)
    ensures
        run_events(MonitorState::Safe, evs) is PendingHedge <==> has_unanswered_low_price(evs),
    decreases evs.len(),
{
    if evs.len() > 0 {
        let pre = evs.drop_last();
        let e = evs.last();
        let k = evs.len() - 1;
        lemma_pending_iff_unanswered(pre);
        assert(evs[k] == e);
        assert forall|i: int| 0 <= i < pre.len() implies #[trigger] pre[i] == evs[i] by {}
        if e == SentinelEvent::HedgeExecuted {
            if has_unanswered_low_price(evs) {
                let i = choose|i: int|
                    0 <= i < evs.len() && is_low_price(#[trigger] evs[i]) && forall|j: int|
                        i < j < evs.len() ==> evs[j] != SentinelEvent::HedgeExecuted;
                assert(i != k);
                assert(false);
            }
        } else if is_low_price(e) {
            assert(is_low_price(evs[k]));
            assert(has_unanswered_low_price(evs));
        } else {
            if has_unanswered_low_price(evs) {
                let i = choose|i: int|
                    0 <= i < evs.len() && is_low_price(#[trigger] evs[i]) && forall|j: int|
                        i < j < evs.len() ==> evs[j] != SentinelEvent::HedgeExecuted;
                assert(i != k);
                assert(is_low_price(pre[i]));
                assert forall|j: int| i < j < pre.len() implies pre[j]
                    != SentinelEvent::HedgeExecuted by {
                    assert(pre[j] == evs[j]);
                }
                assert(has_unanswered_low_price(pre));
            }
            if has_unanswered_low_price(pre) {
                let i = choose|i: int|
                    0 <= i < pre.len() && is_low_price(#[trigger] pre[i]) && forall|j: int|
                        i < j < pre.len() ==> pre[j] != SentinelEvent::HedgeExecuted;
                assert(is_low_price(evs[i]));
                assert forall|j: int| i < j < evs.len() implies evs[j]
                    != SentinelEvent::HedgeExecuted by {
                    if j < k {
                        assert(pre[j] == evs[j]);
                    }
                }
                assert(has_unanswered_low_price(evs));
            }
        }
    }
}

/// Once an obligation opens, the k-th following tick without a hedge leaves
/// the count at k and is allowed exactly when k is at most the tolerance.
pub proof fn lemma_tolerance_boundary(tolerance: u64, evs: Seq<SentinelEvent>)
    requires
        evs.len() < u64::MAX,
        forall|i: int| 0 <= i < evs.len() ==> #[trigger] evs[i] != SentinelEvent::HedgeExecuted,
    ensures
        run_events(MonitorState::PendingHedge(0), evs) == MonitorState::PendingHedge(
            evs.len() as u64,
        ),
        evs.len() > 0 ==> step_allows(
            run_events(MonitorState::PendingHedge(0), evs.drop_last()),
            evs.last(),
            tolerance,
        ) == (evs.len() <= tolerance),
    decreases evs.len(),
{
    if evs.len() > 0 {
        let pre = evs.drop_last();
        assert forall|i: int| 0 <= i < pre.len() implies #[trigger] pre[i]
            != SentinelEvent::HedgeExecuted by {
            assert(pre[i] == evs[i]);
        }
        lemma_tolerance_boundary(tolerance, pre);
        assert(evs.last() == evs[evs.len() - 1]);
    }
}

} // verus!
