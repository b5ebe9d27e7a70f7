use reth_debug_trace::error::DebugError;
use reth_debug_trace::replay::{
    block_trace_schedule, collect_signers, prefix_replay_schedule, record_trace, signer_rule, transaction_trace_schedule,
    ReplayStep, SignerRule, TraceResult,
};

#[test]
fn empty_block_has_nothing_to_replay() {
    assert!(block_trace_schedule(0).is_empty());
}

#[test]
fn three_transactions_traced_and_all_but_last_committed() {
    let s = block_trace_schedule(3);
    assert_eq!(
        s,
        vec![
            ReplayStep::Trace(0),
            ReplayStep::Commit(0),
            ReplayStep::Trace(1),
            ReplayStep::Commit(1),
            ReplayStep::Trace(2),
        ]
    );
    let traced = s.iter().filter(|x| matches!(x, ReplayStep::Trace(_))).count();
    assert_eq!(traced, 3);
}

#[test]
fn single_transaction_block_commits_nothing() {
    assert_eq!(block_trace_schedule(1), vec![ReplayStep::Trace(0)]);
}

#[test]
fn transaction_trace_replays_its_prefix() {
    assert_eq!(
        transaction_trace_schedule(2),
        vec![
            ReplayStep::Transact(0),
            ReplayStep::Commit(0),
            ReplayStep::Transact(1),
            ReplayStep::Commit(1),
            ReplayStep::Trace(2),
        ]
    );
    assert_eq!(transaction_trace_schedule(0), vec![ReplayStep::Trace(0)]);
}

#[test]
fn transaction_and_block_paths_commit_the_same_prefix() {
    let block = block_trace_schedule(5);
    for k in 0..5usize {
        let single = transaction_trace_schedule(k);
        assert_eq!(block[2 * k], ReplayStep::Trace(k));
        assert_eq!(single[2 * k], ReplayStep::Trace(k));
        let commits = |s: &[ReplayStep]| -> Vec<usize> {
            s.iter()
                .filter_map(|x| match x {
                    ReplayStep::Commit(i) => Some(*i),
                    _ => None,
                })
                .collect()
        };
        assert_eq!(commits(&block[..2 * k]), commits(&single[..2 * k]));
        assert_eq!(commits(&single[..2 * k]), (0..k).collect::<Vec<_>>());
    }
}

#[test]
fn repeated_schedules_are_identical() {
    assert_eq!(block_trace_schedule(4), block_trace_schedule(4));
    assert_eq!(transaction_trace_schedule(3), transaction_trace_schedule(3));
}

#[test]
fn homestead_selects_strict_signatures() {
    assert_eq!(signer_rule(true), SignerRule::Strict);
    assert_eq!(signer_rule(false), SignerRule::Relaxed);
}

#[test]
fn signers_all_recovered() {
    let a = [1u8; 20];
    let b = [2u8; 20];
    assert_eq!(collect_signers(&vec![Some(a), Some(b)]), Ok(vec![a, b]));
    assert_eq!(collect_signers(&vec![]), Ok(vec![]));
}

#[test]
fn one_failed_recovery_fails_the_block() {
    let a = [1u8; 20];
    assert_eq!(
        collect_signers(&vec![Some(a), None, Some(a)]),
        Err(DebugError::InvalidTransactionSignature)
    );
}

#[test]
fn recorded_traces_carry_their_hash() {
    let mut results: Vec<TraceResult<String>> = Vec::new();
    let h0 = [7u8; 32];
    assert_eq!(record_trace(&mut results, h0, Ok(String::from("frame0"))), Ok(()));
    assert_eq!(
        results,
        vec![TraceResult::Success { result: String::from("frame0"), tx_hash: Some(h0) }]
    );
}

#[test]
fn trace_error_ends_the_block() {
    let mut results: Vec<TraceResult<String>> = Vec::new();
    let e = DebugError::Internal(String::from("out of gas in state view"));
    assert_eq!(record_trace(&mut results, [0u8; 32], Err(e.clone())), Err(e));
    assert!(results.is_empty());
}

#[test]
fn prefix_replay_commits_every_transaction() {
    assert!(prefix_replay_schedule(0).is_empty());
    assert_eq!(
        prefix_replay_schedule(2),
        vec![
            ReplayStep::Transact(0),
            ReplayStep::Commit(0),
            ReplayStep::Transact(1),
            ReplayStep::Commit(1),
        ]
    );
}
