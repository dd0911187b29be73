//! Detection of slashable attestations: double votes and surround votes,
//! and extraction of the validators that signed both sides of a conflict.

pub mod attestation;
pub mod set_ops;
pub mod engine;
