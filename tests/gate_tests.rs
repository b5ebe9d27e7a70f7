use reth_debug_trace::api::{next_phase, DebugApi, TracePhase};
use reth_debug_trace::error::DebugError;
use reth_debug_trace::gate::TraceGate;

#[test]
fn gate_admits_up_to_capacity() {
    let mut g = TraceGate::new(2);
    assert_eq!(g.try_acquire(), Ok(true));
    assert_eq!(g.try_acquire(), Ok(true));
    assert_eq!(g.try_acquire(), Ok(false));
    assert_eq!(g.in_use(), 2);
    assert!(g.release());
    assert_eq!(g.in_use(), 1);
    assert_eq!(g.try_acquire(), Ok(true));
    assert_eq!(g.try_acquire(), Ok(false));
    assert_eq!(g.capacity(), 2);
}

#[test]
fn gate_release_without_permit_changes_nothing() {
    let mut g = TraceGate::new(1);
    assert!(!g.release());
    assert_eq!(g.in_use(), 0);
}

#[test]
fn gate_with_zero_capacity_admits_nothing() {
    let mut g = TraceGate::new(0);
    assert_eq!(g.try_acquire(), Ok(false));
    assert_eq!(g.in_use(), 0);
}

#[test]
fn permit_bound_holds_over_many_operations() {
    let mut g = TraceGate::new(3);
    let mut running = 0usize;
    for round in 0..50usize {
        if round % 3 == 2 {
            if g.release() {
                running -= 1;
            }
        } else if g.try_acquire() == Ok(true) {
            running += 1;
        }
        assert!(running <= 3);
        assert_eq!(g.in_use(), running);
    }
}

#[test]
fn service_keeps_its_collaborators() {
    let api = DebugApi::new(7u32, String::from("eth"), 4);
    assert_eq!(api.eth_api(), "eth");
    assert_eq!(*api.provider(), 7u32);
    let g = api.new_trace_gate();
    assert_eq!(g.capacity(), 4);
    assert_eq!(g.in_use(), 0);
}

#[test]
fn trace_phases_in_order() {
    let mut p = TracePhase::AcquirePermit;
    let expected = [
        TracePhase::ResolveEnv,
        TracePhase::AcquireState,
        TracePhase::ReplayPrefix,
        TracePhase::Inspect,
        TracePhase::ShapeFrame,
        TracePhase::ReleasePermit,
        TracePhase::Done,
    ];
    for e in expected {
        p = next_phase(p, true);
        assert_eq!(p, e);
    }
}

#[test]
fn trace_failure_releases_permit() {
    assert_eq!(next_phase(TracePhase::Inspect, false), TracePhase::Failed);
    assert_eq!(next_phase(TracePhase::Failed, true), TracePhase::Done);
    assert_eq!(next_phase(TracePhase::AcquirePermit, false), TracePhase::Done);
}

#[test]
fn closed_gate_is_an_internal_error() {
    let mut g = TraceGate::new(2);
    assert_eq!(g.try_acquire(), Ok(true));
    g.close();
    assert!(g.is_closed());
    assert_eq!(
        g.try_acquire(),
        Err(DebugError::Internal(String::from("trace permits are closed")))
    );
    assert_eq!(g.in_use(), 1);
    assert!(g.release());
    assert_eq!(g.in_use(), 0);
}
