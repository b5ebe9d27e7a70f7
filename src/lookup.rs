//! Resolving what a request names, and the shaping of raw encodings.
use vstd::prelude::*;
use crate::error::{BlockSelector, DebugError};

verus! {

/// A block the provider returned for a selector, or `HeaderNotFound` for it.
pub fn block_or_not_found<T>(sel: BlockSelector, found: Option<T>) -> (r: Result<T, DebugError>)
    ensures
        match found {
            Some(v) => r == Ok::<T, DebugError>(v),
            None => r == Err::<T, DebugError>(DebugError::HeaderNotFound(sel)),
        },
{
    match found {
        Some(v) => Ok(v),
        None => Err(DebugError::HeaderNotFound(sel)),
    }
}

/// A transaction the provider found by hash, or `TransactionNotFound`.
pub fn transaction_or_not_found<T>(found: Option<T>) -> (r: Result<T, DebugError>)
    ensures
        match found {
            Some(v) => r == Ok::<T, DebugError>(v),
            None => r == Err::<T, DebugError>(DebugError::TransactionNotFound),
        },
{
    match found {
        Some(v) => Ok(v),
        None => Err(DebugError::TransactionNotFound),
    }
}

/// The state a bundle request starts from. When the target is the pending
/// block, whose locally built state may not exist, a failure to open it is
/// reported as `HeaderNotFound` for the target; any other failure stands.
pub fn target_state_or_not_found<T>(target: BlockSelector, opened: Result<T, DebugError>) -> (r:
    Result<T, DebugError>)
    ensures
        match opened {
            Ok(v) => r == Ok::<T, DebugError>(v),
            Err(e) => r == Err::<T, DebugError>(
                if target is Pending {
                    DebugError::HeaderNotFound(target)
                } else {
                    e
                },
            ),
        },
{
    match opened {
        Ok(v) => Ok(v),
        Err(e) => {
            if target.is_pending() {
                Err(DebugError::HeaderNotFound(target))
            } else {
                Err(e)
            }
        },
    }
}

/// A caller-supplied raw block, decoded, or `RlpDecodeRawBlock` when its bytes
/// did not decode.
pub fn decoded_block_or_error<T>(decoded: Option<T>) -> (r: Result<T, DebugError>)
    ensures
        match decoded {
            Some(v) => r == Ok::<T, DebugError>(v),
            None => r == Err::<T, DebugError>(DebugError::RlpDecodeRawBlock),
        },
{
    match decoded {
        Some(v) => Ok(v),
        None => Err(DebugError::RlpDecodeRawBlock),
    }
}

/// Whether two 32-byte hashes are equal.
pub fn same_hash(a: &[u8; 32], b: &[u8; 32]) -> (r: bool)
    ensures
        r == (a@ == b@),
{
    let mut i: usize = 0;
    while i < 32
        invariant
            i <= 32,
            a@.len() == 32,
            b@.len() == 32,
            forall|k: int| 0 <= k < i ==> a@[k] == b@[k],
        decreases 32 - i,
    {
        if a[i] != b[i] {
            return false;
        }
        i = i + 1;
    }
    assert(a@ =~= b@);
    true
}

/// The position of a transaction in its block's body: the first whose hash is
/// `target`, or the body's length when none is.
pub open spec fn position_in_block(hashes: Seq<[u8; 32]>, target: [u8; 32]) -> nat {
    if exists|i: int| 0 <= i < hashes.len() && hashes[i]@ == target@ {
        (choose|i: int|
            0 <= i < hashes.len() && hashes[i]@ == target@ && forall|k: int|
                0 <= k < i ==> hashes[k]@ != target@) as nat
    } else {
        hashes.len()
    }
}

/// Finds how many transactions of the block precede the traced one; those are
/// replayed before it.
pub fn tx_index_in_block(hashes: &Vec<[u8; 32]>, target: &[u8; 32]) -> (r: usize)
    ensures
        r <= hashes@.len(),
        r < hashes@.len() ==> hashes@[r as int]@ == target@,
        forall|k: int| 0 <= k < r ==> hashes@[k]@ != target@,
        r == position_in_block(hashes@, *target),
{
    let mut i: usize = 0;
    while i < hashes.len()
        invariant
            i <= hashes@.len(),
            forall|k: int| 0 <= k < i ==> hashes@[k]@ != target@,
        decreases hashes@.len() - i,
    {
        if same_hash(&hashes[i], target) {
            proof {
                let ii = i as int;
                assert(0 <= ii < hashes@.len() && hashes@[ii]@ == target@ && forall|k: int|
                    0 <= k < ii ==> hashes@[k]@ != target@);
                let w = choose|w: int|
                    0 <= w < hashes@.len() && hashes@[w]@ == target@ && forall|k: int|
                        0 <= k < w ==> hashes@[k]@ != target@;
                if w > ii {
                    assert(hashes@[ii]@ != target@);
                }
            }
            return i;
        }
        i = i + 1;
    }
    i
}

/// The raw header for `debug_getRawHeader`: an absent header gives empty bytes.
pub fn raw_or_empty(encoded: Option<Vec<u8>>) -> (r: Vec<u8>)
    ensures
        match encoded {
            Some(b) => r@ == b@,
            None => r@.len() == 0,
        },
{
    match encoded {
        Some(b) => b,
        None => Vec::new(),
    }
}

/// The raw list for `debug_getRawTransactions` and `debug_getRawReceipts`: an
/// absent block gives an empty list.
pub fn raw_list_or_empty(encoded: Option<Vec<Vec<u8>>>) -> (r: Vec<Vec<u8>>)
    ensures
        match encoded {
            Some(v) => r@ == v@,
            None => r@.len() == 0,
        },
{
    match encoded {
        Some(v) => v,
        None => Vec::new(),
    }
}

pub open spec fn pending_header_msg() -> Seq<char> {
    "Pending block not supported"@
}

/// How `debug_getRawHeader` looks a header up.
#[derive(Clone, Copy, Debug, PartialEq, Eq)]
pub enum HeaderKey {
    ByHash([u8; 32]),
    ByNumber(u64),
}

/// Turns a selector into a header lookup. `resolved` is the number the
/// provider gave for a symbolic tag; for the pending block it gives none.
pub fn header_key(sel: BlockSelector, resolved: Option<u64>) -> (r: Result<HeaderKey, DebugError>)
    ensures
        match sel {
            BlockSelector::Hash(h) => r == Ok::<HeaderKey, DebugError>(HeaderKey::ByHash(h)),
            BlockSelector::Number(n) => r == Ok::<HeaderKey, DebugError>(HeaderKey::ByNumber(n)),
            _ => match resolved {
                Some(n) => r == Ok::<HeaderKey, DebugError>(HeaderKey::ByNumber(n)),
                None => r matches Err(DebugError::Internal(m)) && m@ == pending_header_msg(),
            },
        },
{
    match sel {
        BlockSelector::Hash(h) => Ok(HeaderKey::ByHash(h)),
        BlockSelector::Number(n) => Ok(HeaderKey::ByNumber(n)),
        _ => match resolved {
            Some(n) => Ok(HeaderKey::ByNumber(n)),
            None => {
                proof {
                    reveal_strlit("Pending block not supported");
                }
                Err(DebugError::Internal("Pending block not supported".to_owned()))
            },
        },
    }
}

} // verus!
