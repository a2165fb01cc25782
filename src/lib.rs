//! Control-plane decision logic of a market-signal sentinel: an obligation
//! monitor, a circuit breaker, a knowledge-graph backed strategy selector, a
//! coherence feasibility check and the per-tick orchestration decisions.
use vstd::prelude::*;

pub mod ltl;
pub mod sre;
pub mod knowledge;
pub mod manager;
pub mod qpu;
pub mod crypto;

verus! {

} // verus!
