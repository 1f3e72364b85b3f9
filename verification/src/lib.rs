//! A small zero-knowledge proof library: two arithmetic relations — a cubic
//! identity and a double-SHA-256 preimage — expressed as rank-1 constraint
//! circuits over the BLS12-381 scalar field, together with the computations
//! prover and verifier must agree on: field constants, preimage
//! normalization, bit packing of the public digest, and the setup lifecycle
//! decisions.

pub mod bits;
pub mod codec;
pub mod cube;
pub mod field;
pub mod hash;
pub mod lifecycle;
pub mod proof_system;
