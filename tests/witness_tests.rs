use alloy_primitives::keccak256;
use reth_debug_trace::witness::{
    hashed_state_for_witness, AccountSummary, CachedAccount, CachedAccountState, HashedSlot,
    SlotValue,
};

fn hex32(s: &str) -> [u8; 32] {
    let mut out = [0u8; 32];
    for i in 0..32 {
        out[i] = u8::from_str_radix(&s[2 * i..2 * i + 2], 16).unwrap();
    }
    out
}

fn summary(nonce: u64) -> AccountSummary {
    AccountSummary { balance: [0u8; 32], nonce, code_hash: [0xabu8; 32] }
}

#[test]
fn zero_address_and_slot_hash_to_known_digests() {
    let acct = CachedAccount {
        address: [0u8; 20],
        account: Some(CachedAccountState {
            info: summary(1),
            storage: vec![SlotValue { slot: [0u8; 32], value: [5u8; 32] }],
        }),
        destroyed: false,
    };
    let r = hashed_state_for_witness(&vec![acct], false);
    assert_eq!(
        r.accounts[0].hashed_address,
        hex32("5380c7b7ae81a58eb98d9c78de4a1fd7fd9535fc953ed2be602daaa41767312a")
    );
    assert_eq!(
        r.accounts[0].storage,
        vec![HashedSlot {
            hashed_slot: hex32("290decd9548b62a8d60345a988386fc84ba6bc95484008f6362f93160ef3e563"),
            value: [5u8; 32],
        }]
    );
    assert_eq!(r.accounts[0].info, Some(summary(1)));
    assert!(!r.accounts[0].wiped);
}

#[test]
fn preimages_absent_unless_requested() {
    let acct = CachedAccount {
        address: [3u8; 20],
        account: Some(CachedAccountState { info: summary(0), storage: vec![] }),
        destroyed: false,
    };
    assert_eq!(hashed_state_for_witness(&vec![acct.clone()], false).preimages, None);
    assert!(hashed_state_for_witness(&vec![acct], true).preimages.is_some());
}

#[test]
fn preimage_keys_hash_the_recorded_bytes() {
    let address = [0x11u8; 20];
    let slot_a = [0x22u8; 32];
    let slot_b = [0x33u8; 32];
    let acct = CachedAccount {
        address,
        account: Some(CachedAccountState {
            info: summary(9),
            storage: vec![
                SlotValue { slot: slot_a, value: [1u8; 32] },
                SlotValue { slot: slot_b, value: [2u8; 32] },
            ],
        }),
        destroyed: true,
    };
    let r = hashed_state_for_witness(&vec![acct], true);
    let pre = r.preimages.unwrap();
    assert_eq!(pre.len(), 3);
    let mut rlp_address = vec![0x94u8];
    rlp_address.extend_from_slice(&address);
    assert_eq!(pre[0].hash, keccak256(address).0);
    assert_eq!(pre[0].preimage, rlp_address);
    for (p, slot) in pre[1..].iter().zip([slot_a, slot_b]) {
        let mut rlp_slot = vec![0xa0u8];
        rlp_slot.extend_from_slice(&slot);
        assert_eq!(p.hash, keccak256(slot).0);
        assert_eq!(p.preimage, rlp_slot);
        assert_eq!(p.preimage[1..], slot);
    }
    assert!(r.accounts[0].wiped);
}

#[test]
fn missing_account_keeps_no_storage_and_no_preimage() {
    let gone = CachedAccount { address: [0x44u8; 20], account: None, destroyed: true };
    let r = hashed_state_for_witness(&vec![gone], true);
    assert_eq!(r.accounts.len(), 1);
    assert_eq!(r.accounts[0].info, None);
    assert!(r.accounts[0].storage.is_empty());
    assert!(r.accounts[0].wiped);
    assert_eq!(r.accounts[0].hashed_address, keccak256([0x44u8; 20]).0);
    assert_eq!(r.preimages, Some(vec![]));
}

#[test]
fn accounts_keep_their_order() {
    let a = CachedAccount { address: [1u8; 20], account: None, destroyed: false };
    let b = CachedAccount {
        address: [2u8; 20],
        account: Some(CachedAccountState { info: summary(2), storage: vec![] }),
        destroyed: false,
    };
    let r = hashed_state_for_witness(&vec![a, b], true);
    assert_eq!(r.accounts[0].hashed_address, keccak256([1u8; 20]).0);
    assert_eq!(r.accounts[1].hashed_address, keccak256([2u8; 20]).0);
    let pre = r.preimages.unwrap();
    assert_eq!(pre.len(), 1);
    assert_eq!(pre[0].hash, keccak256([2u8; 20]).0);
}

#[test]
fn empty_cache_gives_empty_request() {
    let r = hashed_state_for_witness(&vec![], true);
    assert!(r.accounts.is_empty());
    assert_eq!(r.preimages, Some(vec![]));
}
