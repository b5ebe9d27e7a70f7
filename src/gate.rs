//! Admission gate: a counting permit that bounds how many blocking traces run
//! at once.
use vstd::prelude::*;
use crate::error::DebugError;

verus! {

/// A counting permit with a fixed capacity.
pub struct TraceGate {
    capacity: usize,
    in_use: usize,
    closed: bool,
}

/// One operation on the permit counter, as the async side performs them.
#[derive(Clone, Copy, Debug, PartialEq, Eq, Structural)]
pub enum GateOp {
    /// A caller asks for a permit; it waits if none is free.
    Acquire,
    /// A caller that holds a permit gives it back.
    Release,
}

/// The held permits after one operation: an acquire takes a free permit if there is
/// one, a release returns a held permit if there is one.
pub open spec fn gate_step(capacity: nat, in_use: nat, op: GateOp) -> nat {
    match op {
        GateOp::Acquire => if in_use < capacity { in_use + 1 } else { in_use },
        GateOp::Release => if in_use > 0 { (in_use - 1) as nat } else { in_use },
    }
}

/// The number of held permits after a run of operations.
pub open spec fn gate_run(capacity: nat, in_use: nat, ops: Seq<GateOp>) -> nat
    decreases ops.len(),
{
    if ops.len() == 0 {
        in_use
    } else {
        gate_run(capacity, gate_step(capacity, in_use, ops[0]), ops.drop_first())
    }
}

pub open spec fn gate_closed_msg() -> Seq<char> {
    "trace permits are closed"@
}

impl TraceGate {
    pub closed spec fn capacity_spec(&self) -> nat {
        self.capacity as nat
    }

    pub closed spec fn in_use_spec(&self) -> nat {
        self.in_use as nat
    }

    pub closed spec fn is_closed_spec(&self) -> bool {
        self.closed
    }

    /// No more permits are held than the counter has.
    pub open spec fn wf(&self) -> bool {
        self.in_use_spec() <= self.capacity_spec()
    }

    /// A gate with `capacity` permits, none of them held.
    pub fn new(capacity: usize) -> (r: TraceGate)
        ensures
            r.wf(),
            r.capacity_spec() == capacity,
            r.in_use_spec() == 0,
            !r.is_closed_spec(),
    {
        TraceGate { capacity, in_use: 0, closed: false }
    }

    /// Closes admission: no permit is handed out from now on, and held
    /// permits can still be given back.
    pub fn close(&mut self)
        requires
            old(self).wf(),
        ensures
            final(self).wf(),
            final(self).is_closed_spec(),
            final(self).capacity_spec() == old(self).capacity_spec(),
            final(self).in_use_spec() == old(self).in_use_spec(),
    {
        self.closed = true;
    }

    pub fn is_closed(&self) -> (r: bool)
        ensures
            r == self.is_closed_spec(),
    {
        self.closed
    }

    pub fn capacity(&self) -> (r: usize)
        ensures
            r == self.capacity_spec(),
    {
        self.capacity
    }

    pub fn in_use(&self) -> (r: usize)
        ensures
            r == self.in_use_spec(),
    {
        self.in_use
    }

    /// Takes a permit if one is free. Returns whether the caller may start its
    /// trace now; on `false` the caller waits and asks again after a release.
    /// A torn-down gate hands out nothing and answers with an internal error.
    pub fn try_acquire(&mut self) -> (r: Result<bool, DebugError>)
        requires
            old(self).wf(),
        ensures
            final(self).wf(),
            final(self).capacity_spec() == old(self).capacity_spec(),
            final(self).is_closed_spec() == old(self).is_closed_spec(),
            old(self).is_closed_spec() ==> (r matches Err(DebugError::Internal(m)) && m@
                == gate_closed_msg()),
            old(self).is_closed_spec() ==> final(self).in_use_spec() == old(self).in_use_spec(),
            !old(self).is_closed_spec() ==> r == Ok::<bool, DebugError>(
                old(self).in_use_spec() < old(self).capacity_spec(),
            ) && final(self).in_use_spec() == gate_step(
                old(self).capacity_spec(),
                old(self).in_use_spec(),
                GateOp::Acquire,
            ),
    {
        if self.closed {
            proof {
                reveal_strlit("trace permits are closed");
            }
            return Err(DebugError::Internal("trace permits are closed".to_owned()));
        }
        if self.in_use < self.capacity {
            self.in_use = self.in_use + 1;
            Ok(true)
        } else {
            Ok(false)
        }
    }

    /// Gives a permit back. Returns whether a permit was held; a release with
    /// none held changes nothing.
    pub fn release(&mut self) -> (r: bool)
        requires
            old(self).wf(),
        ensures
            final(self).wf(),
            r == (old(self).in_use_spec() > 0),
            final(self).capacity_spec() == old(self).capacity_spec(),
            final(self).is_closed_spec() == old(self).is_closed_spec(),
            final(self).in_use_spec() == gate_step(
                old(self).capacity_spec(),
                old(self).in_use_spec(),
                GateOp::Release,
            ),
    {
        if self.in_use > 0 {
            self.in_use = self.in_use - 1;
            true
        } else {
            false
        }
    }
}

/// Whatever the order of acquires and releases, a counter that starts within its
/// capacity never has more permits held than its capacity: at most that many
/// traces run at once.
pub proof fn lemma_permit_bound(capacity: nat, in_use: nat, ops: Seq<GateOp>)
    requires
        in_use <= capacity,
    ensures
        gate_run(capacity, in_use, ops) <= capacity,
    decreases ops.len(),
{
    if ops.len() > 0 {
        lemma_permit_bound(capacity, gate_step(capacity, in_use, ops[0]), ops.drop_first());
    }
}

} // verus!
