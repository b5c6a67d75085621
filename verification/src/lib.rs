//! A binding layer that ties a generic cross-chain finality-relay engine to one
//! concrete pair of chains. It supplies the chain-specific pieces the engine
//! needs: the lookup key under which the target chain exposes its best
//! finalized source header, the encoding of a finality proof into a signed
//! target-chain transaction, the resolution of the transaction author's
//! account, and the pipeline-specific metrics registration.

pub mod crypto;
pub mod errors;
pub mod header;
pub mod metrics;
pub mod pipeline;
pub mod signer;
pub mod transaction;
