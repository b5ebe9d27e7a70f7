//! Block selectors and the error taxonomy of the tracing service.
use vstd::prelude::*;

verus! {

/// Identifies a block: by hash, by canonical number, or by a symbolic tag.
#[derive(Clone, Copy, Debug, PartialEq, Eq)]
pub enum BlockSelector {
    Hash([u8; 32]),
    Number(u64),
    Latest,
    Earliest,
    Safe,
    Finalized,
    Pending,
}

impl BlockSelector {
    /// The selector used when a request names no block.
    pub fn default_selector() -> (r: BlockSelector)
        ensures
            r is Latest,
    {
        BlockSelector::Latest
    }

    /// Whether the selector names the locally built pending block.
    pub fn is_pending(&self) -> (r: bool)
        ensures
            r == (*self is Pending),
    {
        match self {
            BlockSelector::Pending => true,
            _ => false,
        }
    }
}

/// What can go wrong while serving a trace.
#[derive(Clone, Debug, PartialEq, Eq)]
pub enum DebugError {
    /// The block or tag could not be resolved.
    HeaderNotFound(BlockSelector),
    /// The transaction hash is not on the canonical chain.
    TransactionNotFound,
    /// Recovering a transaction's signer failed.
    InvalidTransactionSignature,
    /// A caller-supplied raw block did not decode.
    RlpDecodeRawBlock,
    /// The tracer configuration does not fit the selected tracer.
    InvalidTracerConfig,
    /// The arguments have the wrong shape.
    InvalidParams(String),
    /// The tracer variant is disabled or not implemented on this path.
    Unsupported(String),
    /// Anything raised by the EVM, the state view or the trie layer.
    Internal(String),
}

} // verus!
