use reth_debug_trace::bundles::{
    advance_block_env, call_many_base, plan_bundles, BlockEnvView, CallManyBase, CallPlan,
};
use reth_debug_trace::error::DebugError;

fn env(number: u128, timestamp: u128) -> BlockEnvView {
    BlockEnvView { number, timestamp }
}

#[test]
fn empty_bundles_are_invalid_params() {
    assert_eq!(
        plan_bundles(&vec![], env(10, 1000)),
        Err(DebugError::InvalidParams(String::from("bundles are empty.")))
    );
}

#[test]
fn two_single_transaction_bundles_advance_time() {
    let plans = plan_bundles(&vec![1, 1], env(100, 5000)).unwrap();
    assert_eq!(plans.len(), 2);
    assert_eq!(
        plans[0],
        vec![CallPlan { env: env(100, 5000), apply_state_override: true, commit_after: true }]
    );
    assert_eq!(
        plans[1],
        vec![CallPlan { env: env(101, 5012), apply_state_override: false, commit_after: false }]
    );
    assert_eq!(plans[1][0].env.number - plans[0][0].env.number, 1);
    assert_eq!(plans[1][0].env.timestamp - plans[0][0].env.timestamp, 12);
}

#[test]
fn state_override_only_on_first_transaction() {
    let plans = plan_bundles(&vec![3, 2], env(1, 1)).unwrap();
    let flags: Vec<bool> =
        plans.iter().flat_map(|b| b.iter().map(|p| p.apply_state_override)).collect();
    assert_eq!(flags, vec![true, false, false, false, false]);
}

#[test]
fn state_override_goes_to_first_run_transaction_after_empty_bundle() {
    let plans = plan_bundles(&vec![0, 2], env(1, 1)).unwrap();
    assert!(plans[0].is_empty());
    assert!(plans[1][0].apply_state_override);
    assert!(!plans[1][1].apply_state_override);
    assert_eq!(plans[1][0].env, env(2, 13));
}

#[test]
fn commits_while_anything_follows() {
    let plans = plan_bundles(&vec![2, 0], env(1, 1)).unwrap();
    assert!(plans[0][0].commit_after);
    assert!(plans[0][1].commit_after);
    let last = plan_bundles(&vec![2], env(1, 1)).unwrap();
    assert!(last[0][0].commit_after);
    assert!(!last[0][1].commit_after);
}

#[test]
fn advance_adds_one_block_and_twelve_seconds() {
    assert_eq!(advance_block_env(env(41, 1_700_000_000)), env(42, 1_700_000_012));
}

#[test]
fn base_is_block_itself_when_all_replayed() {
    assert_eq!(
        call_many_base(false, None, 5),
        CallManyBase { at_block_itself: true, replay_count: 0 }
    );
    assert_eq!(
        call_many_base(false, Some(5), 5),
        CallManyBase { at_block_itself: true, replay_count: 0 }
    );
}

#[test]
fn base_is_parent_for_a_prefix_or_pending() {
    assert_eq!(
        call_many_base(false, Some(2), 5),
        CallManyBase { at_block_itself: false, replay_count: 2 }
    );
    assert_eq!(
        call_many_base(true, None, 5),
        CallManyBase { at_block_itself: false, replay_count: 5 }
    );
    assert_eq!(
        call_many_base(false, Some(9), 5),
        CallManyBase { at_block_itself: false, replay_count: 5 }
    );
}

#[test]
fn single_call_takes_overrides_and_commits_nothing() {
    let plans = plan_bundles(&vec![1], env(8, 96)).unwrap();
    assert_eq!(
        plans,
        vec![vec![CallPlan { env: env(8, 96), apply_state_override: true, commit_after: false }]]
    );
}

#[test]
fn bundles_advance_past_the_largest_header_values() {
    let top = u64::MAX as u128;
    let plans = plan_bundles(&vec![1, 1], env(top, top)).unwrap();
    assert_eq!(plans[1][0].env, env(top + 1, top + 12));
}
