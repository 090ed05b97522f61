//! Transfer data for the SP1 guest program, the records of SP1 proofs, and
//! the inclusion hash that every proof record carries.
use vstd::prelude::*;
use vstd::string::StringExecFns;
use crate::bytes::{le_bytes, u128_to_le_bytes, u64_to_le_bytes};
use crate::digest::{sha256, sha256_of};
use crate::sp1_guest::input_frame;
use crate::zk::prover::{
    TransactionData,
    TransactionProof,
    is_demo_data,
    meets_listed_constraints,
    records,
    create_mock_transfer_data,
    derive_tx_hash,
};

verus! {

/// The fields of a transfer that the SP1 guest program reads.
#[derive(Debug, Clone, Copy)]
pub struct SP1TransactionData {
    pub transfer_id: u128,
    pub block_number: u64,
    pub from_account: u128,
    pub to_account: u128,
    pub amount: u128,
}

impl SP1TransactionData {
    /// The guest input for the transfer that `data` describes.
    pub fn from_transaction_data(data: &TransactionData) -> (input: SP1TransactionData)
        ensures
            input.transfer_id == data.transfer_id,
            input.block_number == data.block_number,
            input.from_account == data.from_account,
            input.to_account == data.to_account,
            input.amount == data.amount,
    {
        SP1TransactionData {
            transfer_id: data.transfer_id,
            block_number: data.block_number,
            from_account: data.from_account,
            to_account: data.to_account,
            amount: data.amount,
        }
    }

    /// The guest program's input bytes for this transfer.
    pub fn to_input_bytes(&self) -> (bytes: Vec<u8>)
        ensures
            bytes@ == input_frame(
                self.transfer_id,
                self.block_number,
                self.from_account,
                self.to_account,
                self.amount,
            ),
    {
        let mut bytes = u128_to_le_bytes(self.transfer_id);
        let mut block = u64_to_le_bytes(self.block_number);
        bytes.append(&mut block);
        let mut from = u128_to_le_bytes(self.from_account);
        bytes.append(&mut from);
        let mut to = u128_to_le_bytes(self.to_account);
        bytes.append(&mut to);
        let mut amount = u128_to_le_bytes(self.amount);
        bytes.append(&mut amount);
        bytes
    }
}

/// Constraint count recorded for an SP1 proof.
pub const SP1_CONSTRAINTS: u32 = 512;

/// Size in bytes recorded for a simulated SP1 proof.
pub const SIMULATED_SP1_PROOF_SIZE: usize = 1200;

/// Constraint count recorded for a simulated SP1 proof.
pub const SIMULATED_SP1_CONSTRAINTS: u32 = 256;

/// The message whose SHA-256 digest is a proof's inclusion hash: the
/// sixteen little-endian bytes of the transfer id, the eight of the block
/// number, then the transaction hash.
pub open spec fn inclusion_preimage(data: TransactionData) -> Seq<u8> {
    le_bytes(data.transfer_id as nat, 16) + le_bytes(data.block_number as nat, 8) + data.tx_hash@
}

/// Computes the inclusion hash of a transfer: the SHA-256 digest of its
/// transfer id, block number and transaction hash.
pub fn generate_inclusion_hash(tx_data: &TransactionData) -> (hash: [u8; 32])
    ensures
        hash@ == sha256_of(inclusion_preimage(*tx_data)),
{
    let mut message = u128_to_le_bytes(tx_data.transfer_id);
    let mut block = u64_to_le_bytes(tx_data.block_number);
    message.append(&mut block);
    let mut i: usize = 0;
    let ghost head = message@;
    while i < 32
        invariant
            i <= 32,
            tx_data.tx_hash@.len() == 32,
            message@ =~= head + tx_data.tx_hash@.subrange(0, i as int),
        decreases 32 - i,
    {
        message.push(tx_data.tx_hash[i]);
        i = i + 1;
    }
    assert(message@ =~= inclusion_preimage(*tx_data));
    sha256(message.as_slice())
}

/// The data of a transfer that SP1 proofs and their display use: block
/// 19000000 plus the id modulo 1000, index the id modulo a million,
/// accounts 1000000 and 2000000 plus the id modulo 10000, an amount of one
/// ether plus the id modulo 10^18, and the hash derived from the id.
pub fn create_transaction_data(transfer_id: u128) -> (data: TransactionData)
    ensures
        is_demo_data(transfer_id, 19000000, 1000000, data),
        meets_listed_constraints(data),
{
    TransactionData {
        transfer_id,
        block_number: 19000000 + (transfer_id % 1000) as u64,
        tx_index: (transfer_id % 1000000) as usize,
        from_account: 1000000 + transfer_id % 10000,
        to_account: 2000000 + transfer_id % 10000,
        amount: 1000000000000000000 + transfer_id % 1000000000000000000,
        tx_hash: derive_tx_hash(transfer_id),
    }
}

/// The constraint count recorded for an SP1 proof.
pub fn estimate_sp1_constraints() -> (constraints: u32)
    ensures
        constraints == SP1_CONSTRAINTS,
{
    SP1_CONSTRAINTS
}

/// How many times smaller than a typical 200-byte transaction a proof of
/// `proof_size` bytes is, counting the proof in whole KiB (at least one).
pub fn estimate_compression_ratio(proof_size: usize) -> (ratio: u32)
    ensures
        ratio as int == 200int / (if proof_size / 1024 > 1 {
            (proof_size / 1024) as int
        } else {
            1int
        }),
{
    let typical_tx_size: usize = 200;
    let kib = proof_size / 1024;
    let divisor = if kib > 1 {
        kib
    } else {
        1
    };
    (typical_tx_size / divisor) as u32
}

/// The record of a proof that the SP1 prover made for the SP1 data of
/// `transfer_id`: of type `sp1-real`, stored at
/// `sp1-proof/real_proof.json`, with the SP1 constraint count.
pub fn sp1_real_proof(
    transfer_id: u128,
    is_valid: bool,
    timestamp: u64,
    total_time: u64,
    proof_size: usize,
    verify_time: u64,
) -> (proof: TransactionProof)
    ensures
        exists|data: TransactionData|
            is_demo_data(transfer_id, 19000000, 1000000, data) && records(
                proof,
                data,
                is_valid,
                timestamp,
                "sp1-real"@,
                total_time,
                proof_size,
                SP1_CONSTRAINTS,
                verify_time,
            ),
        proof.proof_path matches Some(p) && p@ == "sp1-proof/real_proof.json"@,
{
    let data = create_transaction_data(transfer_id);
    TransactionProof {
        transfer_id: data.transfer_id,
        block_number: data.block_number,
        inclusion_proof_hash: generate_inclusion_hash(&data),
        is_valid,
        timestamp,
        proof_path: Some(String::from_str("sp1-proof/real_proof.json")),
        proof_type: String::from_str("sp1-real"),
        generation_time_ms: total_time,
        proof_size_bytes: proof_size,
        circuit_constraints: estimate_sp1_constraints(),
        verification_time_ms: Some(verify_time),
    }
}

/// The record of a simulated SP1 proof of the mock data of `transfer_id`:
/// valid, of type `sp1-simulated`, 1200 bytes and 256 constraints,
/// generated in 150 ms and verified in 25 ms.
pub fn simulated_sp1_proof(transfer_id: u128, timestamp: u64) -> (proof: TransactionProof)
    ensures
        exists|data: TransactionData|
            is_demo_data(transfer_id, 19200000, 100, data) && records(
                proof,
                data,
                true,
                timestamp,
                "sp1-simulated"@,
                150,
                SIMULATED_SP1_PROOF_SIZE,
                SIMULATED_SP1_CONSTRAINTS,
                25,
            ),
        proof.proof_path is None,
{
    let data = create_mock_transfer_data(transfer_id);
    TransactionProof {
        transfer_id: data.transfer_id,
        block_number: data.block_number,
        inclusion_proof_hash: generate_inclusion_hash(&data),
        is_valid: true,
        timestamp,
        proof_path: None,
        proof_type: String::from_str("sp1-simulated"),
        generation_time_ms: 150,
        proof_size_bytes: SIMULATED_SP1_PROOF_SIZE,
        circuit_constraints: SIMULATED_SP1_CONSTRAINTS,
        verification_time_ms: Some(25),
    }
}

} // verus!
