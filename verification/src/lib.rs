//! Deterministic resource-account deployment pipeline: derives the on-chain
//! address a (owner, seed) pair will own, binds the named addresses a package
//! is compiled against, and assembles the entry-function payload that creates
//! the resource account and publishes the package under it.

pub mod address;
pub mod bindings;
pub mod codec;
pub mod derivation;
pub mod envelope;
pub mod errors;
pub mod payload;
pub mod pipeline;
pub mod wire;
