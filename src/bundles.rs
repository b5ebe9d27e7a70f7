//! Speculative bundles: where a `traceCallMany` request starts from, and for
//! each synthetic transaction the block environment it sees, whether the
//! request's state overrides apply to it, and whether its delta is committed.
use vstd::prelude::*;
use crate::error::DebugError;

verus! {

/// The two fields of the block environment that bundles advance. A header
/// holds both as 64-bit values; the environment holds them wider, so that
/// advancing over any number of bundles cannot overflow.
#[derive(Clone, Copy, Debug, PartialEq, Eq, Structural)]
pub struct BlockEnvView {
    pub number: u128,
    pub timestamp: u128,
}

/// Seconds the timestamp advances from one bundle to the next.
pub const BUNDLE_TIME_STEP: u128 = 12;

/// Where the replay of a `traceCallMany` request starts.
#[derive(Clone, Copy, Debug, PartialEq, Eq, Structural)]
pub struct CallManyBase {
    /// Start from the target block's own post-state rather than its parent's.
    pub at_block_itself: bool,
    /// How many of the block's transactions to replay first, on the parent state.
    pub replay_count: usize,
}

/// The work for one synthetic transaction of a bundle.
#[derive(Clone, Copy, Debug, PartialEq, Eq, Structural)]
pub struct CallPlan {
    pub env: BlockEnvView,
    pub apply_state_override: bool,
    pub commit_after: bool,
}

/// The environment seen by bundle `b`: one block and twelve seconds later per
/// bundle before it.
pub open spec fn env_for_bundle(base: BlockEnvView, b: nat) -> BlockEnvView {
    BlockEnvView {
        number: (base.number + b) as u128,
        timestamp: (base.timestamp + BUNDLE_TIME_STEP * b) as u128,
    }
}

/// The number of synthetic transactions in the bundles before bundle `b`.
pub open spec fn txs_before(sizes: Seq<usize>, b: nat) -> nat
    decreases b,
{
    if b == 0 || sizes.len() == 0 {
        0
    } else if b > sizes.len() {
        txs_before(sizes, sizes.len())
    } else {
        txs_before(sizes, (b - 1) as nat) + sizes[b - 1] as nat
    }
}

/// The plan for transaction `j` of bundle `b`: the state overrides go to the
/// first synthetic transaction of the request and to no other; a delta is
/// committed whenever any transaction or bundle follows.
pub open spec fn call_plan(sizes: Seq<usize>, base: BlockEnvView, b: nat, j: nat) -> CallPlan {
    CallPlan {
        env: env_for_bundle(base, b),
        apply_state_override: txs_before(sizes, b) + j == 0,
        commit_after: j + 1 < sizes[b as int] || b + 1 < sizes.len(),
    }
}

/// The environment stays within `u128` over `n_bundles` bundles.
pub open spec fn env_fits(base: BlockEnvView, n_bundles: nat) -> bool {
    base.number + n_bundles <= u128::MAX && base.timestamp + BUNDLE_TIME_STEP * n_bundles
        <= u128::MAX
}

/// Both fields hold values a header can carry.
pub open spec fn from_header(env: BlockEnvView) -> bool {
    env.number <= u64::MAX && env.timestamp <= u64::MAX
}

pub open spec fn bundles_empty_msg() -> Seq<char> {
    "bundles are empty."@
}

/// Chooses the starting state. Without an index every transaction of the block
/// is replayed. When all of them would be, and the block is not the pending
/// one (whose state may not exist), the block's own post-state is used and
/// nothing is replayed; otherwise the parent state is used and the first
/// `index` transactions, as far as the block has them, are replayed.
pub fn call_many_base(target_is_pending: bool, tx_index: Option<usize>, block_len: usize) -> (r:
    CallManyBase)
    ensures
        ({
            let n = match tx_index {
                Some(i) => i,
                None => block_len,
            };
            if !target_is_pending && n == block_len {
                r == CallManyBase { at_block_itself: true, replay_count: 0 }
            } else {
                r == CallManyBase {
                    at_block_itself: false,
                    replay_count: if n < block_len { n } else { block_len },
                }
            }
        }),
{
    let n = match tx_index {
        Some(i) => i,
        None => block_len,
    };
    if !target_is_pending && n == block_len {
        CallManyBase { at_block_itself: true, replay_count: 0 }
    } else {
        CallManyBase { at_block_itself: false, replay_count: if n < block_len { n } else { block_len } }
    }
}

/// Advances the environment from one bundle to the next.
pub fn advance_block_env(env: BlockEnvView) -> (r: BlockEnvView)
    requires
        env_fits(env, 1),
    ensures
        r == env_for_bundle(env, 1),
{
    BlockEnvView { number: env.number + 1, timestamp: env.timestamp + BUNDLE_TIME_STEP }
}

/// Plans every synthetic transaction of a request, given the number of
/// transactions in each bundle. An empty list of bundles is rejected.
pub fn plan_bundles(sizes: &Vec<usize>, base: BlockEnvView) -> (r: Result<
    Vec<Vec<CallPlan>>,
    DebugError,
>)
    requires
        from_header(base),
    ensures
        sizes@.len() == 0 <==> r is Err,
        r matches Err(e) ==> e matches DebugError::InvalidParams(m) && m@ == bundles_empty_msg(),
        r matches Ok(plans) ==> {
            &&& plans@.len() == sizes@.len()
            &&& forall|b: int|
                0 <= b < sizes@.len() ==> {
                    &&& (#[trigger] plans@[b])@.len() == sizes@[b]
                    &&& forall|j: int|
                        0 <= j < sizes@[b] ==> plans@[b]@[j] == call_plan(
                            sizes@,
                            base,
                            b as nat,
                            j as nat,
                        )
                }
        },
{
    if sizes.len() == 0 {
        proof {
            reveal_strlit("bundles are empty.");
        }
        return Err(DebugError::InvalidParams("bundles are empty.".to_owned()));
    }
    proof {
        let n = sizes@.len();
        assert(n <= u64::MAX);
        assert(BUNDLE_TIME_STEP * n <= 12 * u64::MAX) by (nonlinear_arith)
            requires
                n <= u64::MAX,
        ;
    }
    let mut plans: Vec<Vec<CallPlan>> = Vec::new();
    let mut env = base;
    let mut override_pending = true;
    let mut b: usize = 0;
    while b < sizes.len()
        invariant
            b <= sizes@.len(),
            env_fits(base, sizes@.len() as nat),
            env == env_for_bundle(base, b as nat),
            override_pending == (txs_before(sizes@, b as nat) == 0),
            plans@.len() == b,
            forall|c: int|
                0 <= c < b ==> {
                    &&& (#[trigger] plans@[c])@.len() == sizes@[c]
                    &&& forall|j: int|
                        0 <= j < sizes@[c] ==> plans@[c]@[j] == call_plan(
                            sizes@,
                            base,
                            c as nat,
                            j as nat,
                        )
                },
        decreases sizes@.len() - b,
    {
        let n = sizes[b];
        let more_bundles = b < sizes.len() - 1;
        let mut bundle: Vec<CallPlan> = Vec::new();
        let mut j: usize = 0;
        while j < n
            invariant
                j <= n == sizes@[b as int],
                b < sizes@.len(),
                env == env_for_bundle(base, b as nat),
                override_pending == (txs_before(sizes@, b as nat) + j == 0),
                bundle@.len() == j,
                more_bundles == (b + 1 < sizes@.len()),
                forall|k: int|
                    0 <= k < j ==> bundle@[k] == call_plan(sizes@, base, b as nat, k as nat),
            decreases n - j,
        {
            let commit_after = j < n - 1 || more_bundles;
            bundle.push(CallPlan { env, apply_state_override: override_pending, commit_after });
            override_pending = false;
            j = j + 1;
        }
        plans.push(bundle);
        proof {
            assert(txs_before(sizes@, (b + 1) as nat) == txs_before(sizes@, b as nat) + n);
        }
        env = advance_block_env(env);
        b = b + 1;
    }
    Ok(plans)
}

/// Adjacent bundles see block numbers one apart and timestamps twelve seconds
/// apart, whichever of their transactions is looked at.
pub proof fn lemma_bundle_time_advance(sizes: Seq<usize>, base: BlockEnvView, b: nat, j1: nat, j2: nat)
    requires
        from_header(base),
        sizes.len() <= usize::MAX,
        b + 1 < sizes.len(),
        j1 < sizes[b as int],
        j2 < sizes[b + 1 as int],
    ensures
        call_plan(sizes, base, b + 1, j2).env.number == call_plan(sizes, base, b, j1).env.number
            + 1,
        call_plan(sizes, base, b + 1, j2).env.timestamp == call_plan(
            sizes,
            base,
            b,
            j1,
        ).env.timestamp + BUNDLE_TIME_STEP,
{
    let n = sizes.len();
    assert(n <= u64::MAX);
    assert(BUNDLE_TIME_STEP * (b + 1) <= 12 * u64::MAX) by (nonlinear_arith)
        requires
            b + 1 < n <= u64::MAX,
    ;
}

proof fn lemma_txs_before_grows(sizes: Seq<usize>, b1: nat, b2: nat)
    requires
        b1 < b2 <= sizes.len(),
    ensures
        txs_before(sizes, b1) + sizes[b1 as int] <= txs_before(sizes, b2),
    decreases b2,
{
    if b2 > b1 + 1 {
        lemma_txs_before_grows(sizes, b1, (b2 - 1) as nat);
    }
}

/// The request's state overrides apply to one synthetic transaction only: the
/// first one run, which is the first transaction of the first bundle whenever
/// that bundle has any.
pub proof fn lemma_state_override_single_shot(
    sizes: Seq<usize>,
    base: BlockEnvView,
    b1: nat,
    j1: nat,
    b2: nat,
    j2: nat,
)
    requires
        b1 < sizes.len(),
        j1 < sizes[b1 as int],
        b2 < sizes.len(),
        j2 < sizes[b2 as int],
        call_plan(sizes, base, b1, j1).apply_state_override,
        call_plan(sizes, base, b2, j2).apply_state_override,
    ensures
        b1 == b2,
        j1 == j2,
        sizes[0] > 0 ==> b1 == 0 && j1 == 0,
{
    if b1 < b2 {
        lemma_txs_before_grows(sizes, b1, b2);
    }
    if b2 < b1 {
        lemma_txs_before_grows(sizes, b2, b1);
    }
    if sizes[0] > 0 && b1 > 0 {
        lemma_txs_before_grows(sizes, 0, b1);
    }
}

/// The first synthetic transaction of a request whose first bundle is not
/// empty receives the state overrides.
pub proof fn lemma_state_override_first(sizes: Seq<usize>, base: BlockEnvView)
    requires
        sizes.len() > 0,
        sizes[0] > 0,
    ensures
        call_plan(sizes, base, 0, 0).apply_state_override,
{
}

} // verus!
