//! Zero-knowledge proofs that a fixed rug-pull risk classifier (60 quantized
//! integer features, fixed-point arithmetic) was executed correctly on a
//! committed model.
//!
//! The pipeline: decode a model into bytecode, derive one-time preprocessing
//! data, execute the bytecode on a witness to obtain a trace and a public
//! output, compress the trace into a succinct argument bound to that output
//! through a Fiat-Shamir transcript, and later re-check the argument against
//! a verifying key and the claimed output.

pub mod bytes;
pub mod program;
pub mod preprocess;
pub mod trace;
pub mod transcript;
pub mod prover;
pub mod verify;
pub mod zkml;
pub mod completeness;
pub mod digest;
pub mod errors;
pub mod field;

pub use errors::ZKMLError;
pub use zkml::ProofResult;
pub use zkml::RugDetectorZKML;
