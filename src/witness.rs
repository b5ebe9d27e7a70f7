//! Witness accumulation: the cached state left by re-executing a block becomes
//! a hashed-state request for the trie layer, with an optional map from each
//! digest back to the bytes it was computed from.
use vstd::prelude::*;

verus! {

/// The digest that keccak-256 gives for a byte string.
pub uninterp spec fn keccak_of(b: Seq<u8>) -> Seq<u8>;

/// Relies on `alloy_primitives::keccak256`: the 32-byte keccak-256 digest of
/// its input, which depends on the input bytes alone.
#[verifier::external_body]
fn keccak(bytes: &[u8]) -> (r: [u8; 32])
    ensures
        r@ == keccak_of(bytes@),
{
    alloy_primitives::keccak256(bytes).0
}

/// The RLP encoding of a byte string of length other than one and below 56:
/// a single prefix byte `0x80 + len`, then the bytes.
pub open spec fn rlp_short_string(b: Seq<u8>) -> Seq<u8> {
    seq![(0x80 + b.len()) as u8] + b
}

/// Relies on `alloy_rlp::encode` over a byte slice: a string header, which for
/// a payload of length other than one and below 56 is the single byte
/// `0x80 + len`, followed by the payload.
#[verifier::external_body]
fn rlp_encode_bytes(bytes: &[u8]) -> (r: Vec<u8>)
    requires
        bytes@.len() != 1,
        bytes@.len() < 56,
    ensures
        r@ == rlp_short_string(bytes@),
{
    alloy_rlp::encode(bytes)
}

/// The account fields that the hashed state records.
#[derive(Clone, Copy, Debug, PartialEq, Eq)]
pub struct AccountSummary {
    pub balance: [u8; 32],
    pub nonce: u64,
    pub code_hash: [u8; 32],
}

/// A storage slot touched during execution, with its value; both big-endian.
#[derive(Clone, Copy, Debug, PartialEq, Eq)]
pub struct SlotValue {
    pub slot: [u8; 32],
    pub value: [u8; 32],
}

/// An account that exists in the cache after execution, with the slots read or
/// written.
#[derive(Clone, Debug, PartialEq, Eq)]
pub struct CachedAccountState {
    pub info: AccountSummary,
    pub storage: Vec<SlotValue>,
}

/// One entry of the cache overlay. `account` is `None` for an account that was
/// read but does not exist, or that no longer exists.
#[derive(Clone, Debug, PartialEq, Eq)]
pub struct CachedAccount {
    pub address: [u8; 20],
    pub account: Option<CachedAccountState>,
    pub destroyed: bool,
}

/// A storage entry under its hashed slot.
#[derive(Clone, Copy, Debug, PartialEq, Eq)]
pub struct HashedSlot {
    pub hashed_slot: [u8; 32],
    pub value: [u8; 32],
}

/// One account of the hashed state: its summary under its hashed address,
/// whether its storage was wiped, and its hashed storage entries.
#[derive(Clone, Debug, PartialEq, Eq)]
pub struct HashedAccount {
    pub hashed_address: [u8; 32],
    pub info: Option<AccountSummary>,
    pub wiped: bool,
    pub storage: Vec<HashedSlot>,
}

/// A digest and the RLP-encoded bytes it was computed from.
#[derive(Clone, Debug, PartialEq, Eq)]
pub struct Preimage {
    pub hash: [u8; 32],
    pub preimage: Vec<u8>,
}

/// What the trie layer is asked to witness, with the preimages when they were
/// requested. `preimages` is absent, not empty, when they were not. It lists
/// entries in the order of the cache, so a slot touched by two accounts gives
/// two entries with the same digest and the same bytes; a map built from it
/// keeps one of them.
#[derive(Clone, Debug, PartialEq, Eq)]
pub struct WitnessRequest {
    pub accounts: Vec<HashedAccount>,
    pub preimages: Option<Vec<Preimage>>,
}

/// A hashed storage entry stands for a touched slot: same value, slot hashed.
pub open spec fn hashes_slot(h: HashedSlot, s: SlotValue) -> bool {
    h.hashed_slot@ == keccak_of(s.slot@) && h.value == s.value
}

/// A hashed account stands for a cached one: address hashed, summary and
/// destruction flag kept, and one hashed entry per touched slot, in order. An
/// account that does not exist keeps no storage entries.
pub open spec fn hashes_account(h: HashedAccount, a: CachedAccount) -> bool {
    &&& h.hashed_address@ == keccak_of(a.address@)
    &&& h.wiped == a.destroyed
    &&& match a.account {
        None => h.info is None && h.storage@.len() == 0,
        Some(st) => {
            &&& h.info == Some(st.info)
            &&& h.storage@.len() == st.storage@.len()
            &&& forall|j: int| 0 <= j < st.storage@.len() ==> hashes_slot(h.storage@[j], st.storage@[j])
        },
    }
}

/// The preimage entries of touched slots: digest and RLP encoding of each slot.
pub open spec fn slot_preimages(storage: Seq<SlotValue>) -> Seq<(Seq<u8>, Seq<u8>)> {
    storage.map_values(|s: SlotValue| (keccak_of(s.slot@), rlp_short_string(s.slot@)))
}

/// The preimage entries one cached account contributes: its address, then its
/// slots; nothing for an account that does not exist.
pub open spec fn account_preimages(a: CachedAccount) -> Seq<(Seq<u8>, Seq<u8>)> {
    match a.account {
        None => Seq::empty(),
        Some(st) => seq![(keccak_of(a.address@), rlp_short_string(a.address@))] + slot_preimages(
            st.storage@,
        ),
    }
}

/// The preimage entries of a run of cached accounts, in order.
pub open spec fn preimages_of(accts: Seq<CachedAccount>) -> Seq<(Seq<u8>, Seq<u8>)>
    decreases accts.len(),
{
    if accts.len() == 0 {
        Seq::empty()
    } else {
        preimages_of(accts.drop_last()) + account_preimages(accts.last())
    }
}

pub open spec fn preimage_view(p: Seq<Preimage>) -> Seq<(Seq<u8>, Seq<u8>)> {
    p.map_values(|e: Preimage| (e.hash@, e.preimage@))
}

/// Turns the cache overlay left by a block's re-execution into the hashed
/// state to witness: one hashed account per cached account, in order, and,
/// only when `include_preimages` holds, the preimage of every digest used.
pub fn hashed_state_for_witness(accounts: &Vec<CachedAccount>, include_preimages: bool) -> (r:
    WitnessRequest)
    ensures
        r.accounts@.len() == accounts@.len(),
        forall|i: int| 0 <= i < accounts@.len() ==> hashes_account(r.accounts@[i], accounts@[i]),
        r.preimages is Some <==> include_preimages,
        include_preimages ==> preimage_view(r.preimages->Some_0@) == preimages_of(accounts@),
{
    let mut hashed: Vec<HashedAccount> = Vec::new();
    let mut pre: Vec<Preimage> = Vec::new();
    let mut i: usize = 0;
    while i < accounts.len()
        invariant
            0 <= i <= accounts@.len(),
            hashed@.len() == i,
            forall|k: int| 0 <= k < i ==> hashes_account(hashed@[k], accounts@[k]),
            include_preimages ==> preimage_view(pre@) == preimages_of(accounts@.take(i as int)),
        decreases accounts@.len() - i,
    {
        let acct = &accounts[i];
        let hashed_address = keccak(acct.address.as_slice());
        let ghost pre_before = preimage_view(pre@);
        let mut storage: Vec<HashedSlot> = Vec::new();
        let info = match &acct.account {
            None => None,
            Some(st) => {
                if include_preimages {
                    let enc = rlp_encode_bytes(acct.address.as_slice());
                    pre.push(Preimage { hash: hashed_address, preimage: enc });
                }
                let mut j: usize = 0;
                while j < st.storage.len()
                    invariant
                        0 <= j <= st.storage@.len(),
                        storage@.len() == j,
                        forall|k: int| 0 <= k < j ==> hashes_slot(storage@[k], st.storage@[k]),
                        include_preimages ==> preimage_view(pre@) == pre_before + seq![
                            (keccak_of(acct.address@), rlp_short_string(acct.address@)),
                        ] + slot_preimages(st.storage@.take(j as int)),
                    decreases st.storage@.len() - j,
                {
                    let sv = st.storage[j];
                    let hashed_slot = keccak(sv.slot.as_slice());
                    storage.push(HashedSlot { hashed_slot, value: sv.value });
                    if include_preimages {
                        let enc = rlp_encode_bytes(sv.slot.as_slice());
                        let ghost before = preimage_view(pre@);
                        pre.push(Preimage { hash: hashed_slot, preimage: enc });
                        proof {
                            assert(st.storage@.take(j + 1) =~= st.storage@.take(j as int).push(sv));
                            assert(preimage_view(pre@) =~= before.push(
                                (keccak_of(sv.slot@), rlp_short_string(sv.slot@)),
                            ));
                            assert(slot_preimages(st.storage@.take(j + 1)) =~= slot_preimages(
                                st.storage@.take(j as int),
                            ).push((keccak_of(sv.slot@), rlp_short_string(sv.slot@))));
                        }
                    }
                    j = j + 1;
                }
                proof {
                    assert(st.storage@.take(j as int) =~= st.storage@);
                }
                Some(st.info)
            },
        };
        hashed.push(HashedAccount { hashed_address, info, wiped: acct.destroyed, storage });
        proof {
            assert(accounts@.take(i + 1).drop_last() =~= accounts@.take(i as int));
            if include_preimages {
                assert(preimage_view(pre@) =~= preimages_of(accounts@.take(i + 1)));
            }
        }
        i = i + 1;
    }
    proof {
        assert(accounts@.take(i as int) =~= accounts@);
    }
    let preimages = if include_preimages {
        Some(pre)
    } else {
        None
    };
    WitnessRequest { accounts: hashed, preimages }
}

/// A preimage entry reads back: its bytes are one RLP string header followed
/// by the hashed bytes, and its key is the keccak-256 digest of those.
pub open spec fn preimage_reads_back(e: (Seq<u8>, Seq<u8>)) -> bool {
    &&& e.1.len() >= 1
    &&& e.1[0] == (0x80 + (e.1.len() - 1)) as u8
    &&& e.0 == keccak_of(e.1.drop_first())
}

proof fn lemma_rlp_short_string_reads_back(b: Seq<u8>)
    ensures
        preimage_reads_back((keccak_of(b), rlp_short_string(b))),
{
    assert(rlp_short_string(b).drop_first() =~= b);
}

/// Every entry of the preimage map of a witness reads back: stripping the
/// RLP header from the recorded bytes gives the address or slot whose
/// keccak-256 digest is the entry's key.
pub proof fn lemma_preimages_read_back(accts: Seq<CachedAccount>)
    ensures
        forall|k: int|
            0 <= k < preimages_of(accts).len() ==> preimage_reads_back(
                #[trigger] preimages_of(accts)[k],
            ),
    decreases accts.len(),
{
    if accts.len() > 0 {
        lemma_preimages_read_back(accts.drop_last());
        let prev = preimages_of(accts.drop_last());
        let last = account_preimages(accts.last());
        assert forall|k: int| 0 <= k < last.len() implies preimage_reads_back(
            #[trigger] last[k],
        ) by {
            let a = accts.last();
            let st = a.account->Some_0;
            if k == 0 {
                lemma_rlp_short_string_reads_back(a.address@);
            } else {
                lemma_rlp_short_string_reads_back(st.storage@[k - 1].slot@);
            }
        }
        assert forall|k: int| 0 <= k < preimages_of(accts).len() implies preimage_reads_back(
            #[trigger] preimages_of(accts)[k],
        ) by {
            if k >= prev.len() {
                assert(preimages_of(accts)[k] == last[k - prev.len()]);
            }
        }
    }
}

} // verus!
