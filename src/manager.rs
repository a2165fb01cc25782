//! Orchestration decisions: the plan of an optimisation cycle and the
//! handling of each incoming price tick.
use vstd::prelude::*;
use crate::knowledge::{QuantumKnowledge, inferred_strategy, node_lookup};
use crate::ltl::{SafetyMonitor, SentinelEvent, step_state, step_allows};
use crate::sre::{SentinelSRE, CoherenceVerifier, GATE_TIME_PER_LAYER_NS, fits_coherence, estimated_duration_ns, health_allows, after_check};

verus! {

/// The hardware node whose metric drives the strategy.
pub const TARGET_HARDWARE: &'static str = "hw-ibm-heron";

/// Circuit layers per unit of depth.
pub const LAYERS_PER_DEPTH: usize = 10;

/// Coherence limit used when nothing is known of the hardware (50 us), in nanoseconds.
pub const DEFAULT_COHERENCE_NS: u64 = 50_000;

/// Coherence limit used when the hardware node is known (100 us), in nanoseconds.
pub const KNOWN_COHERENCE_NS: u64 = 100_000;

/// A cycle runs on every tick whose number is a multiple of this.
pub const CYCLE_INTERVAL: u64 = 50;

/// The price is reported on every tick whose number is a multiple of this.
pub const REPORT_INTERVAL: u64 = 10;

/// What one optimisation cycle decided before any outside work.
pub struct CycleDecision {
    pub strategy: String,
    pub depth: usize,
    /// Circuit layers: the depth times `LAYERS_PER_DEPTH`.
    pub layers: usize,
    pub coherence_limit_ns: u64,
    /// Estimated duration of the circuit, in nanoseconds.
    pub estimated_ns: u64,
    /// Whether the circuit fits the coherence limit; when not, the cycle is aborted.
    pub feasible: bool,
}

/// Strategy and depth of a cycle, with the conservative default when no
/// knowledge base is available.
pub open spec fn planned_strategy(kg: Option<QuantumKnowledge>) -> (Seq<char>, usize) {
    match kg {
        Some(g) => inferred_strategy(g.spec_nodes(), TARGET_HARDWARE@),
        None => ("Standard"@, 1),
    }
}

/// Coherence limit of a cycle: the known one when the hardware node is present.
pub open spec fn planned_limit(kg: Option<QuantumKnowledge>) -> u64 {
    match kg {
        Some(g) => if node_lookup(g.spec_nodes(), TARGET_HARDWARE@) is Some {
            KNOWN_COHERENCE_NS
        } else {
            DEFAULT_COHERENCE_NS
        },
        None => DEFAULT_COHERENCE_NS,
    }
}

/// The orchestrator: holds the knowledge base, when one could be loaded.
pub struct QuantumManager {
    pub kg: Option<QuantumKnowledge>,
}

impl QuantumManager {
    pub fn new(kg: Option<QuantumKnowledge>) -> (r: Self)
        ensures
            r.kg == kg,
    {
        QuantumManager { kg }
    }

    /// Plans an optimisation cycle: strategy, depth, layers and the coherence check.
    pub fn plan_optimization_cycle(&self) -> (r: CycleDecision)
        ensures
            (r.strategy@, r.depth) == planned_strategy(self.kg),
            r.layers == r.depth * LAYERS_PER_DEPTH,
            r.coherence_limit_ns == planned_limit(self.kg),
            r.estimated_ns == estimated_duration_ns(r.layers as int),
            r.feasible == fits_coherence(r.layers as int, r.coherence_limit_ns as int),
    {
        let (strategy, depth, limit) = match &self.kg {
            Some(graph) => {
                let (s, d) = graph.infer_optimal_strategy(TARGET_HARDWARE);
                let limit = if graph.get_device_specs(TARGET_HARDWARE).is_some() {
                    KNOWN_COHERENCE_NS
                } else {
                    DEFAULT_COHERENCE_NS
                };
                (s, d, limit)
            },
            None => ("Standard".to_owned(), 1, DEFAULT_COHERENCE_NS),
        };
        let layers = depth * LAYERS_PER_DEPTH;
        let feasible = CoherenceVerifier::verify(layers, limit);
        CycleDecision {
            strategy,
            depth,
            layers,
            coherence_limit_ns: limit,
            estimated_ns: (layers as u64) * GATE_TIME_PER_LAYER_NS,
            feasible,
        }
    }
}

/// What the consumer loop does with one price tick.
#[derive(Debug, Clone, Copy, PartialEq, Eq, Structural)]
pub enum TickAction {
    /// The breaker is open: the tick is skipped and the loop waits.
    Backoff,
    /// The obligation window was exceeded: the tick's work is suppressed.
    Suppressed,
    /// The tick proceeds as tick number `step`; `run_cycle` tells whether an
    /// optimisation cycle is due, `report_price` whether the price is logged.
    Proceed { step: u64, run_cycle: bool, report_price: bool },
}

/// The consumer side of the pipeline: breaker, monitor and tick counter.
pub struct SentinelLoop {
    pub sre: SentinelSRE,
    pub monitor: SafetyMonitor,
    /// Number of the next tick that proceeds; starts at 1.
    pub step: u64,
}

impl SentinelLoop {
    pub fn new(tolerance: u64) -> (r: Self)
        ensures
            r.sre.wf(),
            r.sre.error_count == 0,
            r.monitor.spec_state() == crate::ltl::MonitorState::Safe,
            r.monitor.spec_tolerance() == tolerance,
            r.step == 1,
    {
        SentinelLoop { sre: SentinelSRE::new(), monitor: SafetyMonitor::new(tolerance), step: 1 }
    }

    /// Handles a price (in millionths) received at time `now_ms`: the health
    /// check first, then the obligation monitor, then the tick schedule.
    pub fn on_price(&mut self, price: i64, now_ms: u64) -> (r: TickAction)
        ensures
            final(self).sre == after_check(old(self).sre, now_ms),
            old(self).sre.wf() ==> final(self).sre.wf(),
            final(self).monitor.spec_tolerance() == old(self).monitor.spec_tolerance(),
            !health_allows(old(self).sre, now_ms) ==> r == TickAction::Backoff
                && final(self).monitor == old(self).monitor && final(self).step == old(self).step,
            health_allows(old(self).sre, now_ms) ==> final(self).monitor.spec_state()
                == step_state(old(self).monitor.spec_state(), SentinelEvent::PriceUpdate(price)),
            health_allows(old(self).sre, now_ms) && !step_allows(
                old(self).monitor.spec_state(),
                SentinelEvent::PriceUpdate(price),
                old(self).monitor.spec_tolerance(),
            ) ==> r == TickAction::Suppressed && final(self).step == old(self).step,
            health_allows(old(self).sre, now_ms) && step_allows(
                old(self).monitor.spec_state(),
                SentinelEvent::PriceUpdate(price),
                old(self).monitor.spec_tolerance(),
            ) ==> r == (TickAction::Proceed {
                step: old(self).step,
                run_cycle: old(self).step % CYCLE_INTERVAL == 0,
                report_price: old(self).step % REPORT_INTERVAL == 0,
            }) && final(self).step == if old(self).step < u64::MAX {
                (old(self).step + 1) as u64
            } else {
                old(self).step
            },
    {
        if !self.sre.check_health(now_ms) {
            return TickAction::Backoff;
        }
        let event = SentinelEvent::PriceUpdate(price);
        if !self.monitor.check(&event) {
            return TickAction::Suppressed;
        }
        let step = self.step;
        if self.step < u64::MAX {
            self.step = self.step + 1;
        }
        TickAction::Proceed {
            step,
            run_cycle: step % CYCLE_INTERVAL == 0,
            report_price: step % REPORT_INTERVAL == 0,
        }
    }
}

} // verus!
