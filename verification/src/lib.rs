//! Failure translation for an Ethereum-compatible JSON-RPC node simulator.
//!
//! The crate turns internal execution and validation failures into the
//! canonical JSON-RPC error object and into human-readable, Solidity-style
//! revert descriptions.  The centre piece is the revert-reason decoder, which
//! leniently interprets the ABI-encoded bytes returned by a failed contract
//! call as one of the standard Solidity error shapes.

pub mod bigend;
pub mod failure;
pub mod provider;
pub mod revert;
pub mod text;
