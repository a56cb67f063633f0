//! Artifact lifecycle tooling for on-chain programs — build, identify,
//! deploy, and query deployment state — together with the guard primitives
//! that generated programs apply to untrusted instruction input.

pub mod builder;
pub mod deploy;
pub mod guards;
pub mod identity;
pub mod status;
