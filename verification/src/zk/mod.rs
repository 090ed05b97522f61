//! Records of zero-knowledge proofs of transfers and the data they prove.
pub mod prover;
pub mod sp1_prover;
pub mod guest_sources;
pub mod zisk_workflow;
