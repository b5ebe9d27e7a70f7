//! The service object and the life cycle of a single trace.
use vstd::prelude::*;
use crate::gate::TraceGate;

verus! {

/// The `debug` service: the chain provider, the `eth` collaborator, and the
/// number of traces that may run at once.
pub struct DebugApi<Provider, Eth> {
    provider: Provider,
    eth_api: Eth,
    trace_capacity: usize,
}

impl<Provider, Eth> DebugApi<Provider, Eth> {
    pub closed spec fn provider_spec(&self) -> Provider {
        self.provider
    }

    pub closed spec fn eth_api_spec(&self) -> Eth {
        self.eth_api
    }

    pub closed spec fn trace_capacity_spec(&self) -> nat {
        self.trace_capacity as nat
    }

    /// Creates the service over its collaborators.
    pub fn new(provider: Provider, eth: Eth, trace_capacity: usize) -> (r: Self)
        ensures
            r.provider_spec() == provider,
            r.eth_api_spec() == eth,
            r.trace_capacity_spec() == trace_capacity,
    {
        DebugApi { provider, eth_api: eth, trace_capacity }
    }

    /// The underlying `eth` collaborator.
    pub fn eth_api(&self) -> (r: &Eth)
        ensures
            *r == self.eth_api_spec(),
    {
        &self.eth_api
    }

    /// The chain provider.
    pub fn provider(&self) -> (r: &Provider)
        ensures
            *r == self.provider_spec(),
    {
        &self.provider
    }

    /// A fresh admission gate sized for this service.
    pub fn new_trace_gate(&self) -> (r: TraceGate)
        ensures
            r.wf(),
            r.capacity_spec() == self.trace_capacity_spec(),
            r.in_use_spec() == 0,
            !r.is_closed_spec(),
    {
        TraceGate::new(self.trace_capacity)
    }
}

/// Where a single trace stands.
#[derive(Clone, Copy, Debug, PartialEq, Eq, Structural)]
pub enum TracePhase {
    AcquirePermit,
    ResolveEnv,
    AcquireState,
    ReplayPrefix,
    Inspect,
    ShapeFrame,
    /// The permit is given back; the request answers with its frame.
    ReleasePermit,
    /// The permit is given back; the request answers with its error.
    Failed,
    Done,
}

/// Whether the phase holds the permit.
pub open spec fn holds_permit(p: TracePhase) -> bool {
    match p {
        TracePhase::AcquirePermit | TracePhase::Done => false,
        _ => true,
    }
}

/// The phase after `p`, given whether the work of `p` succeeded. Any failure
/// after the permit is held goes to `Failed`, which releases it.
pub open spec fn phase_after(p: TracePhase, ok: bool) -> TracePhase {
    match p {
        TracePhase::AcquirePermit => if ok { TracePhase::ResolveEnv } else { TracePhase::Done },
        TracePhase::ResolveEnv => if ok { TracePhase::AcquireState } else { TracePhase::Failed },
        TracePhase::AcquireState => if ok { TracePhase::ReplayPrefix } else { TracePhase::Failed },
        TracePhase::ReplayPrefix => if ok { TracePhase::Inspect } else { TracePhase::Failed },
        TracePhase::Inspect => if ok { TracePhase::ShapeFrame } else { TracePhase::Failed },
        TracePhase::ShapeFrame => if ok { TracePhase::ReleasePermit } else { TracePhase::Failed },
        TracePhase::ReleasePermit | TracePhase::Failed | TracePhase::Done => TracePhase::Done,
    }
}

/// Advances a trace by one phase.
pub fn next_phase(p: TracePhase, ok: bool) -> (r: TracePhase)
    ensures
        r == phase_after(p, ok),
{
    match p {
        TracePhase::AcquirePermit => if ok {
            TracePhase::ResolveEnv
        } else {
            TracePhase::Done
        },
        TracePhase::ResolveEnv => if ok {
            TracePhase::AcquireState
        } else {
            TracePhase::Failed
        },
        TracePhase::AcquireState => if ok {
            TracePhase::ReplayPrefix
        } else {
            TracePhase::Failed
        },
        TracePhase::ReplayPrefix => if ok {
            TracePhase::Inspect
        } else {
            TracePhase::Failed
        },
        TracePhase::Inspect => if ok {
            TracePhase::ShapeFrame
        } else {
            TracePhase::Failed
        },
        TracePhase::ShapeFrame => if ok {
            TracePhase::ReleasePermit
        } else {
            TracePhase::Failed
        },
        _ => TracePhase::Done,
    }
}

/// The phase reached after a run of outcomes.
pub open spec fn phase_run(p: TracePhase, outcomes: Seq<bool>) -> TracePhase
    decreases outcomes.len(),
{
    if outcomes.len() == 0 {
        p
    } else {
        phase_run(phase_after(p, outcomes[0]), outcomes.drop_first())
    }
}

/// A trace never finishes with its permit held: only a phase that releases the
/// permit, or one that never took it, leads into `Done`, and a failure while
/// the permit is held leads to `Failed`, which releases it.
pub proof fn lemma_permit_released(p: TracePhase, ok: bool)
    ensures
        phase_after(p, ok) == TracePhase::Done ==> (p is ReleasePermit || p is Failed || p
            is Done || p is AcquirePermit),
        holds_permit(p) && !(p is ReleasePermit) && !(p is Failed) && !ok ==> phase_after(p, ok)
            is Failed,
{
}

/// Whatever each phase's work returns, seven steps bring a trace from
/// admission to `Done`.
pub proof fn lemma_trace_terminates(outcomes: Seq<bool>)
    requires
        outcomes.len() == 7,
    ensures
        phase_run(TracePhase::AcquirePermit, outcomes) == TracePhase::Done,
{
    reveal_with_fuel(phase_run, 8);
}

} // verus!
