use sentinel::knowledge::{KnowledgeGraph, Node, Property, PropertyValue, QuantumKnowledge};
use sentinel::ltl::{MonitorState, PRICE_SCALE};
use sentinel::manager::{QuantumManager, SentinelLoop, TickAction};

fn heron(metric: i64) -> QuantumKnowledge {
    QuantumKnowledge::new(KnowledgeGraph {
        nodes: vec![Node {
            id: "hw-ibm-heron".to_string(),
            node_type: "Hardware".to_string(),
            label: "IBM Heron".to_string(),
            properties: vec![Property {
                key: "eplg".to_string(),
                value: PropertyValue { rendered: metric.to_string(), billionths: Some(metric) },
            }],
        }],
        edges: Vec::new(),
    })
}

#[test]
fn plan_without_knowledge_uses_defaults() {
    let d = QuantumManager::new(None).plan_optimization_cycle();
    assert_eq!(d.strategy, "Standard");
    assert_eq!(d.depth, 1);
    assert_eq!(d.layers, 10);
    assert_eq!(d.coherence_limit_ns, 50_000);
    assert_eq!(d.estimated_ns, 500);
    assert!(d.feasible);
}

#[test]
fn plan_with_knowledge() {
    let d = QuantumManager::new(Some(heron(3_700_000))).plan_optimization_cycle();
    assert_eq!(d.strategy, "Balanced");
    assert_eq!(d.depth, 2);
    assert_eq!(d.layers, 20);
    assert_eq!(d.coherence_limit_ns, 100_000);
    assert_eq!(d.estimated_ns, 1_000);
    assert!(d.feasible);
    let d = QuantumManager::new(Some(heron(100))).plan_optimization_cycle();
    assert_eq!((d.depth, d.layers, d.estimated_ns), (4, 40, 2_000));
}

#[test]
fn cycle_runs_every_fiftieth_tick() {
    let mut s = SentinelLoop::new(10);
    let mut cycles = Vec::new();
    let mut reports = 0;
    for t in 0..100u64 {
        match s.on_price(150 * PRICE_SCALE, t * 50) {
            TickAction::Proceed { step, run_cycle, report_price } => {
                assert_eq!(step, t + 1);
                if run_cycle {
                    cycles.push(step);
                }
                if report_price {
                    reports += 1;
                }
            }
            other => panic!("unexpected {:?}", other),
        }
    }
    assert_eq!(cycles, vec![50, 100]);
    assert_eq!(reports, 10);
    assert_eq!(s.step, 101);
}

#[test]
fn violation_suppresses_without_counting() {
    let mut s = SentinelLoop::new(1);
    assert_eq!(s.on_price(90 * PRICE_SCALE, 0), TickAction::Proceed { step: 1, run_cycle: false, report_price: false });
    assert_eq!(s.on_price(90 * PRICE_SCALE, 1), TickAction::Proceed { step: 2, run_cycle: false, report_price: false });
    assert_eq!(s.on_price(90 * PRICE_SCALE, 2), TickAction::Suppressed);
    assert_eq!(s.step, 3);
    assert_eq!(s.monitor.state(), MonitorState::PendingHedge(2));
}

#[test]
fn open_breaker_backs_off() {
    let mut s = SentinelLoop::new(10);
    for t in 0..6u64 {
        s.sre.report_failure(t);
    }
    assert_eq!(s.on_price(150 * PRICE_SCALE, 10), TickAction::Backoff);
    assert_eq!(s.step, 1);
    assert_eq!(s.monitor.state(), MonitorState::Safe);
    assert_eq!(s.on_price(50 * PRICE_SCALE, 40_000), TickAction::Proceed { step: 1, run_cycle: false, report_price: false });
    assert_eq!(s.sre.error_count, 0);
    assert_eq!(s.monitor.state(), MonitorState::PendingHedge(0));
}
