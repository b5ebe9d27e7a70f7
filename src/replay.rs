//! Replay kernel: the order in which a block's transactions are executed,
//! traced and committed into the cache overlay, and the shaping of the
//! per-transaction results.
use vstd::prelude::*;
use crate::error::DebugError;

verus! {

/// One unit of work on the cache overlay.
#[derive(Clone, Copy, Debug, PartialEq, Eq, Structural)]
pub enum ReplayStep {
    /// Execute transaction `i` of the block without an inspector.
    Transact(usize),
    /// Execute transaction `i` of the block under the selected inspector.
    Trace(usize),
    /// Commit the state delta of transaction `i`, executed just before.
    Commit(usize),
}

pub open spec fn step_index(s: ReplayStep) -> usize {
    match s {
        ReplayStep::Transact(i) => i,
        ReplayStep::Trace(i) => i,
        ReplayStep::Commit(i) => i,
    }
}

/// Tracing a whole block of `n` transactions: each is traced in body order, and
/// the delta of each but the last is committed before the next one runs.
pub open spec fn block_schedule(n: nat) -> Seq<ReplayStep> {
    Seq::new(
        if n == 0 { 0 } else { (2 * n - 1) as nat },
        |p: int|
            if p % 2 == 0 {
                ReplayStep::Trace((p / 2) as usize)
            } else {
                ReplayStep::Commit((p / 2) as usize)
            },
    )
}

/// Replaying the first `k` transactions of a block: each is executed and
/// committed in body order.
pub open spec fn prefix_schedule(k: nat) -> Seq<ReplayStep> {
    Seq::new(
        2 * k,
        |p: int|
            if p % 2 == 0 {
                ReplayStep::Transact((p / 2) as usize)
            } else {
                ReplayStep::Commit((p / 2) as usize)
            },
    )
}

/// Tracing transaction `k` of a block: the `k` before it are executed and
/// committed in body order, then `k` is traced and its delta dropped.
pub open spec fn transaction_schedule(k: nat) -> Seq<ReplayStep> {
    Seq::new(
        2 * k + 1,
        |p: int|
            if p == 2 * k {
                ReplayStep::Trace(k as usize)
            } else if p % 2 == 0 {
                ReplayStep::Transact((p / 2) as usize)
            } else {
                ReplayStep::Commit((p / 2) as usize)
            },
    )
}

/// Builds the schedule for tracing a whole block of `n` transactions. An empty
/// block has an empty schedule, so no state view is needed for it.
pub fn block_trace_schedule(n: usize) -> (r: Vec<ReplayStep>)
    requires
        n <= usize::MAX / 2,
    ensures
        r@ == block_schedule(n as nat),
        r@.len() == 0 <==> n == 0,
{
    let mut r: Vec<ReplayStep> = Vec::new();
    let mut i: usize = 0;
    while i < n
        invariant
            i <= n <= usize::MAX / 2,
            r@.len() == if i == 0 { 0 } else { 2 * i - 1 },
            forall|p: int| 0 <= p < r@.len() ==> r@[p] == block_schedule(n as nat)[p],
        decreases n - i,
    {
        if i > 0 {
            r.push(ReplayStep::Commit(i - 1));
        }
        r.push(ReplayStep::Trace(i));
        i = i + 1;
    }
    assert(r@ =~= block_schedule(n as nat));
    r
}

/// Builds the schedule that replays the first `k` transactions of a block
/// without tracing them: the base of a bundle request, or a whole block being
/// re-executed for its witness.
pub fn prefix_replay_schedule(k: usize) -> (r: Vec<ReplayStep>)
    requires
        k <= usize::MAX / 2,
    ensures
        r@ == prefix_schedule(k as nat),
{
    let mut r: Vec<ReplayStep> = Vec::new();
    let mut i: usize = 0;
    while i < k
        invariant
            i <= k <= usize::MAX / 2,
            r@.len() == 2 * i,
            forall|p: int| 0 <= p < r@.len() ==> r@[p] == prefix_schedule(k as nat)[p],
        decreases k - i,
    {
        r.push(ReplayStep::Transact(i));
        r.push(ReplayStep::Commit(i));
        i = i + 1;
    }
    assert(r@ =~= prefix_schedule(k as nat));
    r
}

/// Builds the schedule for tracing transaction `k` of a block.
pub fn transaction_trace_schedule(k: usize) -> (r: Vec<ReplayStep>)
    requires
        k < usize::MAX / 2,
    ensures
        r@ == transaction_schedule(k as nat),
        r@ == prefix_schedule(k as nat).push(ReplayStep::Trace(k)),
{
    let mut r = prefix_replay_schedule(k);
    r.push(ReplayStep::Trace(k));
    assert(r@ =~= transaction_schedule(k as nat));
    r
}

/// Tracing transaction `k` alone sees the same state as tracing it within its
/// block: in both schedules `k` is traced at the same position, every step
/// before it acts on the same transaction, the same steps commit, and those
/// commits are those of the transactions before `k`, each right after it ran,
/// in body order.
/// An inspector only observes, so the state each path has built when `k` runs
/// is the parent state with the deltas of the first `k` transactions applied.
pub proof fn lemma_prefix_equivalence(n: nat, k: nat)
    requires
        k < n,
    ensures
        block_schedule(n)[2 * k as int] == ReplayStep::Trace(k as usize),
        transaction_schedule(k)[2 * k as int] == ReplayStep::Trace(k as usize),
        transaction_schedule(k).len() == 2 * k + 1,
        forall|p: int|
            0 <= p < 2 * k ==> {
                &&& step_index(block_schedule(n)[p]) == step_index(transaction_schedule(k)[p])
                &&& (block_schedule(n)[p] is Commit) == (transaction_schedule(k)[p] is Commit)
            },
        forall|p: int|
            0 <= p < 2 * k && p % 2 == 1 ==> #[trigger] block_schedule(n)[p] == ReplayStep::Commit(
                (p / 2) as usize,
            ) && transaction_schedule(k)[p] == ReplayStep::Commit((p / 2) as usize),
        forall|p: int| 0 <= p < 2 * k && p % 2 == 0 ==> !(#[trigger] block_schedule(n)[p] is Commit),
{
}

/// The signer rule in force for a block: from the Homestead fork on, signatures
/// with a high `s` value are rejected.
#[derive(Clone, Copy, Debug, PartialEq, Eq, Structural)]
pub enum SignerRule {
    Strict,
    Relaxed,
}

pub fn signer_rule(homestead_active: bool) -> (r: SignerRule)
    ensures
        r == (if homestead_active { SignerRule::Strict } else { SignerRule::Relaxed }),
{
    if homestead_active {
        SignerRule::Strict
    } else {
        SignerRule::Relaxed
    }
}

/// Collects the recovered signers of a block's transactions. One failed
/// recovery fails the whole request.
pub fn collect_signers(recovered: &Vec<Option<[u8; 20]>>) -> (r: Result<
    Vec<[u8; 20]>,
    DebugError,
>)
    ensures
        match r {
            Ok(v) => (forall|i: int| 0 <= i < recovered@.len() ==> recovered@[i] is Some)
                && v@.len() == recovered@.len() && forall|i: int|
                0 <= i < v@.len() ==> recovered@[i] == Some(v@[i]),
            Err(e) => e == DebugError::InvalidTransactionSignature && exists|i: int|
                0 <= i < recovered@.len() && recovered@[i] is None,
        },
{
    let mut v: Vec<[u8; 20]> = Vec::new();
    let mut i: usize = 0;
    while i < recovered.len()
        invariant
            i <= recovered@.len(),
            v@.len() == i,
            forall|k: int| 0 <= k < i ==> recovered@[k] == Some(v@[k]),
        decreases recovered@.len() - i,
    {
        match recovered[i] {
            Some(a) => v.push(a),
            None => return Err(DebugError::InvalidTransactionSignature),
        }
        i = i + 1;
    }
    Ok(v)
}

/// The outcome of one transaction's trace, with the hash it belongs to.
#[derive(Clone, Debug, PartialEq, Eq)]
pub enum TraceResult<F> {
    Success { result: F, tx_hash: Option<[u8; 32]> },
    Failure { error: String, tx_hash: Option<[u8; 32]> },
}

/// Records the outcome of tracing one transaction of a block. An error ends the
/// whole request with that error: no partial block trace is returned.
pub fn record_trace<F>(
    results: &mut Vec<TraceResult<F>>,
    tx_hash: [u8; 32],
    outcome: Result<F, DebugError>,
) -> (r: Result<(), DebugError>)
    ensures
        match outcome {
            Ok(f) => r is Ok && final(results)@ == old(results)@.push(
                TraceResult::Success { result: f, tx_hash: Some(tx_hash) },
            ),
            Err(e) => r == Err::<(), DebugError>(e) && final(results)@ == old(results)@,
        },
{
    match outcome {
        Ok(f) => {
            results.push(TraceResult::Success { result: f, tx_hash: Some(tx_hash) });
            Ok(())
        },
        Err(e) => Err(e),
    }
}

} // verus!
