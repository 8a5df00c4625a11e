//! Interchain-query pipeline of a relayer: the query transports' decisions,
//! the conversion of native commitment proofs, and the worker that answers
//! cross-chain queries on the origin chain.

pub mod hex_codec;
pub mod merkle;
pub mod query;
pub mod worker;
