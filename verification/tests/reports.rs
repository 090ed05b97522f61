use sha2::{Digest, Sha256};
use zkcoprocessor::cli::{
    backend_intro, describe_backend_selection, select_backend, startup_banner, Backend, BackendError,
};
use zkcoprocessor::report::{
    display_detailed_proof_verification, display_proof_input_details, display_sp1_proof_verification,
    proof_verification_lines,
};
use zkcoprocessor::sp1_guest::TransactionData as GuestTransfer;
use zkcoprocessor::text::{LogLevel, LogLine};
use zkcoprocessor::workflow::{create_transaction_data_for_display, detailed_simulated_proof, is_platform_supported};
use zkcoprocessor::zk::prover::zisk_proof;
use zkcoprocessor::zk::sp1_prover::SP1TransactionData;
use zkcoprocessor::zk::zisk_workflow::{
    first_zisk_stage, next_zisk_step, zisk_command_args, ZiskFailure, ZiskNext, ZiskStage,
};

fn texts(lines: &[LogLine]) -> Vec<String> {
    lines.iter().map(|l| l.text.clone()).collect()
}

fn inclusion_hash_hex(id: u128, block: u64, tx_hash: &[u8; 32]) -> String {
    let mut hasher = Sha256::new();
    hasher.update(id.to_le_bytes());
    hasher.update(block.to_le_bytes());
    hasher.update(tx_hash);
    let digest: [u8; 32] = hasher.finalize().into();
    digest.iter().map(|b| format!("{:02x}", b)).collect()
}

#[test]
fn input_details_of_display_data() {
    let data = create_transaction_data_for_display(19000000000001);
    let lines = display_proof_input_details(&data, "1.000019");
    let t = texts(&lines);
    assert_eq!(t.len(), 21);
    assert!(lines.iter().all(|l| l.level == LogLevel::Info));
    assert_eq!(t[0], "");
    assert_eq!(t[2], "│                📋 TRANSACTION DATA TO PROVE                │");
    assert_eq!(t[5], "🎯 PROVING INTEGRITY OF:");
    assert_eq!(t[6], "   Transfer ID: 19000000000001");
    assert_eq!(t[7], "   Block Number: 19000001");
    assert_eq!(t[8], "   From Account: 0x000000000000000000000000000f4241");
    assert_eq!(t[9], "   To Account: 0x000000000000000000000000001e8481");
    assert_eq!(t[10], "   Amount: 1000019000000000001 wei (1.000019 ETH)");
    assert_eq!(
        t[11],
        "   Transaction Hash: 0x013040c847110000000000000000000000000000000000000000000000000000"
    );
    assert_eq!(t[12], "   TX Index in Block: 1");
    assert_eq!(t[14], "🔍 VALIDATION CONSTRAINTS:");
    assert_eq!(t[16], "   ✓ Transfer ID must be in range [19000000000000, 20000000000000)");
    assert_eq!(t[20], "   ✓ Transaction hash must be properly derived");
}

#[test]
fn input_details_write_full_width_accounts() {
    let mut data = create_transaction_data_for_display(7);
    data.from_account = u128::MAX;
    data.to_account = 0;
    let t = texts(&display_proof_input_details(&data, "x"));
    assert_eq!(t[8], format!("   From Account: 0x{}", "f".repeat(32)));
    assert_eq!(t[9], format!("   To Account: 0x{}", "0".repeat(32)));
}

#[test]
fn verification_report_of_a_simulated_proof() {
    let proof = detailed_simulated_proof(19000000000001, 1700000000);
    let data = create_transaction_data_for_display(19000000000001);
    let lines = display_detailed_proof_verification(&proof, &data);
    let t = texts(&lines);
    assert_eq!(t.len(), 33);
    assert_eq!(t[2], "│                🔐 ZERO-KNOWLEDGE PROOF RESULTS             │");
    assert_eq!(t[6], "   Proof Type: SIMULATED");
    assert_eq!(t[7], "   Generation Time: 150ms");
    assert_eq!(t[8], "   Proof Size: 2048 bytes");
    assert_eq!(t[9], "   Circuit Constraints: 1024");
    assert_eq!(t[10], "   Verification Time: 25ms");
    assert_eq!(t[13], "   ✅ Transaction 19000000000001 exists with valid constraints");
    assert_eq!(t[14], "   ✅ Amount transfer of 1000019000000000001 wei is valid");
    assert_eq!(t[15], "   ✅ Block 19000001 contains this transaction at index 1");
    assert_eq!(t[16], "   ✅ Account flow: 0x00000000...000f4241 → 0x00000000...001e8481");
    assert_eq!(t[18], "🔒 CRYPTOGRAPHIC GUARANTEES:");
    assert_eq!(t[19], "   ⚠️  NO CRYPTOGRAPHIC GUARANTEES");
    assert_eq!(lines[19].level, LogLevel::Warn);
    assert_eq!(lines[21].level, LogLevel::Warn);
    assert_eq!(t[21], "   • Install real zkVM for production use");
    assert_eq!(t[23], "🔍 VERIFICATION DETAILS:");
    assert_eq!(
        t[24],
        format!(
            "   Inclusion Proof Hash: 0x{}",
            inclusion_hash_hex(data.transfer_id, data.block_number, &data.tx_hash)
        )
    );
    assert_eq!(t[25], "   Proof Valid: ✅ YES");
    assert_eq!(t[26], "   Timestamp: 2023-11-14 22:13:20 UTC");
    assert_eq!(t[28], "💡 WHAT THIS MEANS:");
    assert_eq!(t[30], "   • The proof is compact (2048 bytes) vs full transaction data");
    assert_eq!(t[32], "   • Can be verified on-chain for smart contract integration");
}

#[test]
fn verification_report_of_a_zisk_proof_with_file() {
    let data = create_transaction_data_for_display(19000000000003);
    let proof = zisk_proof(&data, false, 0, Some("proof/p.json".to_string()), 9, 77, 3);
    let t = texts(&display_detailed_proof_verification(&proof, &data));
    assert_eq!(t.len(), 35);
    assert_eq!(t[6], "   Proof Type: ZISK");
    assert_eq!(t[9], "   Circuit Constraints: 85309");
    assert_eq!(t[19], "   • PIL-based polynomial constraints");
    assert_eq!(t[22], "   • Custom precompile optimizations");
    assert_eq!(t[26], "   Proof Valid: ❌ NO");
    assert_eq!(t[27], "   Timestamp: 1970-01-01 00:00:00 UTC");
    assert_eq!(t[28], "   Proof File: proof/p.json");
}

#[test]
fn verification_report_of_other_proof_types() {
    let data = create_transaction_data_for_display(5);
    let mut proof = detailed_simulated_proof(5, i64::MAX as u64);
    proof.proof_type = "sp1-real".to_string();
    proof.verification_time_ms = None;
    let lines = display_detailed_proof_verification(&proof, &data);
    let t = texts(&lines);
    assert_eq!(t.len(), 32);
    assert_eq!(t[6], "   Proof Type: SP1-REAL");
    assert_eq!(t[10], "   Verification Time: 0ms");
    assert_eq!(t[19], "   • Zero-knowledge proof generated");
    assert_eq!(t[20], "   • Mathematically verifiable");
    assert_eq!(t[25], "   Timestamp: Invalid timestamp");
    proof.proof_type = "sp1".to_string();
    let t = texts(&display_detailed_proof_verification(&proof, &data));
    assert_eq!(t[6], "   Proof Type: SP1");
    assert_eq!(t[19], "   • STARK proof with RISC-V execution");
    assert_eq!(t[22], "   • EVM-compatible verification");
}

#[test]
fn verification_lines_take_type_and_time_as_given() {
    let data = create_transaction_data_for_display(9);
    let proof = detailed_simulated_proof(9, 0);
    let t = texts(&proof_verification_lines(&proof, &data, "Kind", "then"));
    assert_eq!(t[6], "   Proof Type: Kind");
    assert_eq!(t[26], "   Timestamp: then");
}

#[test]
fn sp1_verification_report_ends_with_use_cases() {
    let data = create_transaction_data_for_display(19000000000001);
    let proof = detailed_simulated_proof(19000000000001, 1700000000);
    let lines = display_sp1_proof_verification(&proof, &data).unwrap();
    let t = texts(&lines);
    assert_eq!(t.len(), 39);
    assert_eq!(t[6], "   Proof Type: SIMULATED");
    assert!(t[26].starts_with("   Timestamp: "));
    assert!(t[26].contains("1700000000"));
    let mut far = proof.clone();
    far.timestamp = u64::MAX;
    assert!(display_sp1_proof_verification(&far, &data).is_none());
    assert_eq!(t[33], "");
    assert_eq!(t[34], "🎯 USE CASES:");
    assert_eq!(t[38], "   • Compressed transaction history proofs");
}

#[test]
fn backend_intro_for_each_name() {
    let (lines, selected) = backend_intro("sp1", false);
    let t = texts(&lines);
    assert_eq!(selected, Ok(Backend::Sp1));
    assert_eq!(t.len(), 15);
    assert_eq!(t[1], "│                🚀 zkCoprocessor v0.1.0                     │");
    assert_eq!(t[5], "📢 IMPORTANT: This is a DATA INTEGRITY proof");
    assert_eq!(t[10], "🔵 Selected Backend: SP1 zkVM");
    assert_eq!(t[14], "");
    let (lines, selected) = backend_intro("zisk", true);
    let t = texts(&lines);
    assert_eq!(selected, Ok(Backend::Zisk));
    assert_eq!(t[10], "🟡 Selected Backend: ZisK zkVM");
    assert_eq!(t[13], "   • Custom precompile support");
    let (lines, selected) = backend_intro("auto", true);
    let t = texts(&lines);
    assert_eq!(selected, Ok(Backend::Sp1));
    assert_eq!(t.len(), 13);
    assert_eq!(t[10], "🔄 Auto-selecting optimal backend...");
    assert_eq!(t[11], "   ✅ SP1 available and selected");
    let (lines, selected) = backend_intro("auto", false);
    assert_eq!(selected, Ok(Backend::Zisk));
    assert_eq!(lines[11].text, "   ✅ ZisK available and selected");
    assert_eq!(backend_intro("Auto", false).1, Err(BackendError::InvalidBackend));
}

#[test]
fn invalid_backend_still_shows_banner_and_notice() {
    let (lines, selected) = backend_intro("groth16", true);
    assert_eq!(selected, Err(BackendError::InvalidBackend));
    let t = texts(&lines);
    assert_eq!(t.len(), 10);
    assert_eq!(t[1], "│                🚀 zkCoprocessor v0.1.0                     │");
    assert_eq!(t[8], "   • Verifies business logic constraints are met");
    assert_eq!(t[9], "");
}

#[test]
fn backend_selection_ignores_case() {
    let (lines, selected) = describe_backend_selection("ZisK", true);
    assert_eq!(selected, Ok(Backend::Zisk));
    assert_eq!(lines[5].level, LogLevel::Warn);
    assert_eq!(lines[10].text, "🟡 Selected Backend: ZisK zkVM");
    assert_eq!(select_backend("ZISK", true), Ok(Backend::Zisk));
    let err = describe_backend_selection("groth16", true).1.unwrap_err();
    assert_eq!(err, BackendError::InvalidBackend);
    assert_eq!(err.message("groth16"), "Invalid backend: groth16. Use 'zisk', 'sp1', or 'auto'");
}

#[test]
fn startup_banner_lines() {
    let t = texts(&startup_banner());
    assert_eq!(t.len(), 5);
    assert_eq!(t[2], "│           Zero-Knowledge Transaction Verification           │");
    assert_eq!(t[4], "");
}

#[test]
fn zisk_steps_in_order() {
    assert_eq!(first_zisk_stage(), ZiskStage::Build);
    assert_eq!(next_zisk_step(ZiskStage::Build, true), ZiskNext::Run(ZiskStage::RomSetup));
    assert_eq!(next_zisk_step(ZiskStage::Build, false), ZiskNext::Stop(ZiskFailure::BuildFailed));
    assert_eq!(next_zisk_step(ZiskStage::RomSetup, false), ZiskNext::Run(ZiskStage::Prove));
    assert_eq!(next_zisk_step(ZiskStage::RomSetup, true), ZiskNext::Run(ZiskStage::Prove));
    assert_eq!(next_zisk_step(ZiskStage::Prove, false), ZiskNext::Stop(ZiskFailure::ProofFailed));
    assert_eq!(next_zisk_step(ZiskStage::Prove, true), ZiskNext::Run(ZiskStage::Verify));
    assert_eq!(next_zisk_step(ZiskStage::Verify, false), ZiskNext::Finish(false));
    assert_eq!(next_zisk_step(ZiskStage::Verify, true), ZiskNext::Finish(true));
}

#[test]
fn zisk_run_with_failed_rom_setup_still_finishes() {
    let outcomes = |s: ZiskStage| match s {
        ZiskStage::Build => true,
        ZiskStage::RomSetup => false,
        ZiskStage::Prove => true,
        ZiskStage::Verify => true,
    };
    let mut stage = first_zisk_stage();
    let mut steps = 0;
    let end = loop {
        steps += 1;
        match next_zisk_step(stage, outcomes(stage)) {
            ZiskNext::Run(next) => stage = next,
            other => break other,
        }
    };
    assert_eq!(steps, 4);
    assert_eq!(end, ZiskNext::Finish(true));
}

#[test]
fn zisk_command_arguments() {
    let args = |s| zisk_command_args(s, "/home/u", "/p/proof.json", "/p/publics.json");
    assert_eq!(args(ZiskStage::Build), vec!["build", "--release"]);
    assert_eq!(
        args(ZiskStage::RomSetup),
        vec!["rom-setup", "-e", "target/riscv64ima-zisk-zkvm-elf/release/zisk-tx-proof", "-k", "/home/u/.zisk/provingKey"]
    );
    assert_eq!(
        args(ZiskStage::Prove),
        vec![
            "prove",
            "-e",
            "target/riscv64ima-zisk-zkvm-elf/release/zisk-tx-proof",
            "-i",
            "build/input.bin",
            "-w",
            "/home/u/.zisk/bin/libzisk_witness.so",
            "-k",
            "/home/u/.zisk/provingKey",
            "-o",
            "proof",
            "-a",
            "-y",
        ]
    );
    assert_eq!(args(ZiskStage::Verify), vec!["verify", "-p", "/p/proof.json", "-u", "/p/publics.json"]);
}

#[test]
fn platform_support_excludes_macos() {
    assert!(is_platform_supported("linux"));
    assert!(is_platform_supported("windows"));
    assert!(!is_platform_supported("macos"));
}

#[test]
fn sp1_input_matches_bincode_and_is_read_back() {
    let data = create_transaction_data_for_display(19000000000042);
    let input = SP1TransactionData::from_transaction_data(&data);
    let bytes = input.to_input_bytes();
    let expected = bincode::serialize(&(
        input.transfer_id,
        input.block_number,
        input.from_account,
        input.to_account,
        input.amount,
    ))
    .unwrap();
    assert_eq!(bytes.len(), 72);
    assert_eq!(bytes, expected);
    let guest = GuestTransfer::decode_input(&bytes).unwrap();
    assert_eq!(guest.transfer_id, 19000000000042);
    assert_eq!(guest.block_number, input.block_number);
    assert_eq!(guest.from_account, input.from_account);
    assert_eq!(guest.to_account, input.to_account);
    assert_eq!(guest.amount, input.amount);
    assert!(guest.is_valid());
}

#[test]
fn sp1_input_decoding_edges() {
    assert!(GuestTransfer::decode_input(&[0u8; 71]).is_none());
    let mut bytes = vec![0xffu8; 72];
    bytes.extend_from_slice(&[1, 2, 3]);
    let guest = GuestTransfer::decode_input(&bytes).unwrap();
    assert_eq!(guest.transfer_id, u128::MAX);
    assert_eq!(guest.block_number, u64::MAX);
    assert_eq!(guest.amount, u128::MAX);
    assert!(!guest.is_valid());
}
