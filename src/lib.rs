//! Decision core of an Ethereum `debug_*` tracing service.
//!
//! Re-executing historical blocks needs an EVM, a state store and a trie, all of
//! which live outside this crate. What lives here is everything the service
//! decides around them: how many traces may run at once, which transactions are
//! replayed and committed in which order, which inspector a tracer selector
//! asks for, how speculative bundles advance the block environment and where
//! state overrides land, and how the cached state of a re-executed block is
//! turned into a hashed witness request.
pub mod api;
pub mod bundles;
pub mod dispatch;
pub mod error;
pub mod gate;
pub mod lookup;
pub mod replay;
pub mod witness;
