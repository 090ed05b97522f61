//! Transaction bookkeeping and zero-knowledge proof preparation for Ethereum
//! value transfers stored in a TigerBeetle ledger.
//!
//! The modules hold the parts of the tool that compute: byte and number
//! encodings, the validation rules of the two zkVM guest programs, the
//! conversion of Ethereum transactions into ledger transfers, the records
//! that describe generated proofs, and the decisions of the command-line
//! workflows. Network, process and file access live outside this crate.
pub mod bytes;
pub mod zisk_circuit;
pub mod hexcodec;
pub mod digest;
pub mod decimal;
pub mod eth;
pub mod zk;
pub mod text;
pub mod sp1_guest;
pub mod cli;
pub mod workflow;
pub mod inspect;
pub mod benchmark;
pub mod report;
