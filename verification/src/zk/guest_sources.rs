//! The source files of the guest programs that the prover builds.
use vstd::prelude::*;
use vstd::string::StringExecFns;
use crate::zk::prover::TransactionData;

verus! {

/// The `src/main.rs` of the ZisK guest program: it reads a transfer id as
/// sixteen little-endian bytes, asserts the validity constraints and
/// publishes the verification hash in two 32-bit words and a success flag.
pub const ZISK_CIRCUIT_SOURCE: &'static str = r#"
// ZisK Transaction Verification Circuit
// This circuit proves that a transfer_id meets certain validity constraints

#![no_main]
ziskos::entrypoint!(main);

use ziskos::{read_input, set_output};
use std::convert::TryInto;

fn main() {
    // Read the input data as a byte array from ziskos
    let input: Vec<u8> = read_input();
    
    // Convert input bytes to u128 transfer_id
    // ZisK input.bin contains our transfer_id as 16 bytes (u128)
    if input.len() != 16 {
        panic!("Invalid input length: expected 16 bytes for u128");
    }
    
    let transfer_id_bytes: [u8; 16] = input.try_into().unwrap();
    let transfer_id: u128 = u128::from_le_bytes(transfer_id_bytes);
    
    // Constraint 1: Transfer ID must be positive
    assert!(transfer_id > 0, "Transfer ID must be positive");
    
    // Constraint 2: Transfer ID must be in reasonable range (not overflow territory)
    assert!(transfer_id < u128::MAX / 2, "Transfer ID too large");
    
    // Constraint 3: Transfer ID must follow our expected format
    // Our transfer IDs start with 19000000000000 for testing
    assert!(transfer_id >= 19000000000000, "Transfer ID must be in valid range");
    assert!(transfer_id < 20000000000000, "Transfer ID must be in valid range");
    
    // Constraint 4: Transfer ID must be odd (arbitrary constraint for demo)
    assert!(transfer_id % 2 == 1, "Transfer ID must be odd for this demo");
    
    // Compute verification hash based on the transfer_id
    let verification_result = compute_verification_hash(transfer_id);
    
    // Output the verification result as u32 chunks
    // ZisK set_output expects u32 values
    let result_bytes = verification_result.to_le_bytes();
    for i in 0..2 {
        let chunk = u32::from_le_bytes([
            result_bytes[i*4], 
            result_bytes[i*4+1], 
            result_bytes[i*4+2], 
            result_bytes[i*4+3]
        ]);
        set_output(i, chunk);
    }
    
    // Output success flag
    set_output(2, 1); // 1 means success
}

fn compute_verification_hash(transfer_id: u128) -> u64 {
    // Simple hash computation for demonstration
    // In production, you'd use a proper cryptographic hash
    let mut hash: u64 = 0;
    
    // Hash the transfer_id in chunks
    let bytes = transfer_id.to_le_bytes();
    for i in 0..2 {
        let chunk = u64::from_le_bytes([
            bytes[i*8], bytes[i*8+1], bytes[i*8+2], bytes[i*8+3],
            bytes[i*8+4], bytes[i*8+5], bytes[i*8+6], bytes[i*8+7]
        ]);
        hash = hash.wrapping_add(chunk);
    }
    
    // Ensure non-zero result
    if hash == 0 { hash = 1; }
    
    hash
}
"#;

/// The `Cargo.toml` of the ZisK guest program.
pub const ZISK_CARGO_TOML: &'static str = r#"
[package]
name = "zisk-tx-proof"
version = "0.1.0"
edition = "2021"
default-run = "zisk-tx-proof"

[dependencies]
ziskos = { git = "https://github.com/0xPolygonHermez/zisk.git" }
"#;

/// The `src/main.rs` that a new ZisK project starts with.
pub const ZISK_PLACEHOLDER_MAIN: &'static str = r#"
#![no_main]
ziskos::entrypoint!(main);

use ziskos::{read_input, set_output};

fn main() {
    // Placeholder - will be replaced with actual circuit code
    set_output(0, 42);
}
"#;

/// The `Cargo.toml` of the SP1 guest program.
pub const SP1_CARGO_TOML: &'static str = r#"[package]
name = "sp1-tx-proof"
version = "0.1.0"
edition = "2021"

[[bin]]
name = "sp1-tx-proof"
path = "src/main.rs"

[dependencies]
sp1-lib = "4.0.0"
serde = { version = "1.0", features = ["derive"] }
bincode = "1.3"
"#;

/// The `src/main.rs` of the SP1 guest program.
pub const SP1_PROGRAM_SOURCE: &'static str = r#"#![no_main]
sp1_lib::entrypoint!(main);

use serde::{Deserialize, Serialize};

#[derive(Debug, Clone, Serialize, Deserialize)]
pub struct TransactionData {
    pub transfer_id: u128,
    pub block_number: u64,
    pub from_account: u128,
    pub to_account: u128,
    pub amount: u128,
}

pub fn main() {
    let input_bytes = sp1_lib::io::read_vec();
    let tx_data: TransactionData = bincode::deserialize(&input_bytes)
        .expect("Failed to deserialize");
    
    // Same validation logic as ZisK circuit
    let is_valid = tx_data.transfer_id > 0 
        && tx_data.transfer_id >= 19000000000000 
        && tx_data.transfer_id < 20000000000000
        && tx_data.amount > 0;
    
    sp1_lib::io::commit(&(is_valid as u32));
    sp1_lib::io::commit(&(tx_data.transfer_id as u64));
}
"#;

/// The source of the ZisK guest program that proves a transfer; the same
/// program serves every transfer, which it reads from its input.
pub fn create_correct_zisk_circuit_code(transfer_data: &TransactionData) -> (code: String)
    ensures
        code@ == ZISK_CIRCUIT_SOURCE@,
{
    String::from_str(ZISK_CIRCUIT_SOURCE)
}

/// The `Cargo.toml` of the ZisK guest program.
pub fn create_zisk_cargo_toml() -> (toml: String)
    ensures
        toml@ == ZISK_CARGO_TOML@,
{
    String::from_str(ZISK_CARGO_TOML)
}

} // verus!
