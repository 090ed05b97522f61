use sha2::{Digest, Sha256};
use zkcoprocessor::text::LogLevel;
use zkcoprocessor::workflow::{create_transaction_data_for_display, detailed_simulated_proof};
use zkcoprocessor::zk::guest_sources::{create_correct_zisk_circuit_code, create_zisk_cargo_toml, ZISK_CIRCUIT_SOURCE};
use zkcoprocessor::zk::prover::{
    create_mock_transfer_data, display_detailed_proof_analysis, enhanced_simulated_proof, estimate_circuit_constraints,
    fetch_transfer_data, finish_zisk_proof, simulated_proof, zisk_input_bytes, zisk_proof, FetchError, StoredTransfer,
    TransactionData,
};
use zkcoprocessor::zk::sp1_prover::{
    create_transaction_data, estimate_compression_ratio, estimate_sp1_constraints, generate_inclusion_hash,
    simulated_sp1_proof, sp1_real_proof, SP1TransactionData,
};
use zkcoprocessor::zisk_circuit::evaluate_zisk_circuit;

fn expected_hash(data: &TransactionData) -> [u8; 32] {
    let mut hasher = Sha256::new();
    hasher.update(data.transfer_id.to_le_bytes());
    hasher.update(data.block_number.to_le_bytes());
    hasher.update(data.tx_hash);
    hasher.finalize().into()
}

fn derived_hash(id: u128) -> [u8; 32] {
    let mut h = [0u8; 32];
    h[0..16].copy_from_slice(&id.to_le_bytes());
    h
}

#[test]
fn mock_transfer_data_values() {
    let d = create_mock_transfer_data(19000000000001);
    assert_eq!(d.transfer_id, 19000000000001);
    assert_eq!(d.block_number, 19200001);
    assert_eq!(d.tx_index, 1);
    assert_eq!(d.from_account, 1000001);
    assert_eq!(d.to_account, 2000001);
    assert_eq!(d.amount, 1000000000000000000 + 19000000000001);
    assert_eq!(d.tx_hash, derived_hash(19000000000001));
}

#[test]
fn display_and_sp1_data_values() {
    let d = create_transaction_data_for_display(19000000123456);
    assert_eq!(d.block_number, 19000456);
    assert_eq!(d.tx_index, 123456);
    assert_eq!(d.from_account, 1003456);
    assert_eq!(d.to_account, 2003456);
    let s = create_transaction_data(19000000123456);
    assert_eq!((s.block_number, s.tx_index, s.amount), (d.block_number, d.tx_index, d.amount));
    let input = SP1TransactionData::from_transaction_data(&s);
    assert_eq!((input.transfer_id, input.block_number, input.amount), (19000000123456, 19000456, s.amount));
}

#[test]
fn demo_data_meets_the_listed_constraints() {
    for id in [0u128, 1, 19000000000001, u128::MAX] {
        for d in [create_mock_transfer_data(id), create_transaction_data(id)] {
            assert!(d.amount > 0);
            assert_ne!(d.from_account, d.to_account);
            assert!(d.block_number >= 19000000);
            assert_eq!(d.tx_hash, derived_hash(id));
        }
    }
}

#[test]
fn inclusion_hash_is_sha256_of_id_block_and_hash() {
    let d = create_mock_transfer_data(19000000000001);
    let h = generate_inclusion_hash(&d);
    assert_eq!(h, expected_hash(&d));
    assert_eq!(hex::encode(h), "dce8fc0d9479148dc408134fe682372934b60e81ff1a2dfcc7a97f45a163d7e6");
}

#[test]
fn fetch_reads_the_first_transfer() {
    let stored = vec![StoredTransfer {
        id: 19000000000005,
        debit_account_id: 11,
        credit_account_id: 22,
        amount: 33,
        user_data_128: (1u128 << 64) + 19000000,
        user_data_64: 21000,
    }];
    let d = fetch_transfer_data(19000000000005, &stored).unwrap();
    assert_eq!(d.block_number, 19000000);
    assert_eq!(d.tx_index, 5);
    assert_eq!((d.from_account, d.to_account, d.amount), (11, 22, 33));
    assert_eq!(d.tx_hash, derived_hash(19000000000005));
    assert_eq!(fetch_transfer_data(7, &Vec::new()).unwrap_err(), FetchError::TransferNotFound(7));
}

#[test]
fn simulated_proof_record() {
    let d = create_mock_transfer_data(19000000000003);
    let p = simulated_proof(&d, 5, 6, 150, 20, 1700000000);
    assert_eq!(p.transfer_id, 19000000000003);
    assert_eq!(p.block_number, d.block_number);
    assert_eq!(p.inclusion_proof_hash, expected_hash(&d));
    assert!(p.is_valid);
    assert_eq!(p.timestamp, 1700000000);
    assert_eq!(p.proof_path, None);
    assert_eq!(p.proof_type, "simulated");
    assert_eq!(p.generation_time_ms, 181);
    assert_eq!((p.proof_size_bytes, p.circuit_constraints, p.verification_time_ms), (2048, 1024, Some(20)));
}

#[test]
fn other_proof_records() {
    let e = enhanced_simulated_proof(19000000000003, 240, 9);
    assert_eq!((e.block_number, e.generation_time_ms, e.verification_time_ms), (19200003, 240, Some(30)));
    assert_eq!(e.inclusion_proof_hash, expected_hash(&create_mock_transfer_data(19000000000003)));
    let s = simulated_sp1_proof(19000000000003, 9);
    assert_eq!(s.proof_type, "sp1-simulated");
    assert_eq!((s.generation_time_ms, s.proof_size_bytes, s.circuit_constraints), (150, 1200, 256));
    let r = sp1_real_proof(19000000000003, false, 9, 900, 4096, 12);
    assert_eq!(r.proof_type, "sp1-real");
    assert_eq!(r.proof_path.as_deref(), Some("sp1-proof/real_proof.json"));
    assert_eq!((r.block_number, r.is_valid, r.circuit_constraints), (19000003, false, 512));
    let dp = detailed_simulated_proof(19000000000003, 9);
    assert_eq!((dp.block_number, dp.generation_time_ms, dp.verification_time_ms), (19000003, 150, Some(25)));
    let d = create_mock_transfer_data(19000000000003);
    let z = zisk_proof(&d, true, 9, Some("proof/p.json".to_string()), 1000, 77, 40);
    assert_eq!((z.proof_type.as_str(), z.circuit_constraints, z.proof_size_bytes), ("zisk", 85309, 77));
    let f = finish_zisk_proof(z, 1500, 2048);
    assert_eq!((f.generation_time_ms, f.proof_size_bytes, f.circuit_constraints), (1500, 2048, 2048));
    assert_eq!(f.proof_path.as_deref(), Some("proof/p.json"));
}

#[test]
fn estimates() {
    assert_eq!(estimate_circuit_constraints(), 2048);
    assert_eq!(estimate_sp1_constraints(), 512);
    assert_eq!(estimate_compression_ratio(0), 200);
    assert_eq!(estimate_compression_ratio(2048), 100);
    assert_eq!(estimate_compression_ratio(1200), 200);
    assert_eq!(estimate_compression_ratio(1024 * 300), 0);
}

#[test]
fn zisk_input_is_read_back_by_the_circuit() {
    let d = create_mock_transfer_data(19000000000001);
    let input = zisk_input_bytes(&d);
    assert_eq!(input, 19000000000001u128.to_le_bytes().to_vec());
    assert!(evaluate_zisk_circuit(&input).is_ok());
}

#[test]
fn guest_sources() {
    let d = create_mock_transfer_data(1);
    let code = create_correct_zisk_circuit_code(&d);
    assert_eq!(code, ZISK_CIRCUIT_SOURCE);
    assert!(code.contains("fn compute_verification_hash(transfer_id: u128) -> u64 {"));
    assert!(code.contains("if hash == 0 { hash = 1; }"));
    assert!(create_zisk_cargo_toml().contains("name = \"zisk-tx-proof\""));
}

#[test]
fn analysis_of_a_simulated_proof() {
    let d = create_mock_transfer_data(19000000000003);
    let p = simulated_proof(&d, 0, 0, 150, 20, 1);
    let lines = display_detailed_proof_analysis(&p);
    let texts: Vec<&str> = lines.iter().map(|l| l.text.as_str()).collect();
    assert_eq!(lines.len(), 12 + 5 + 4);
    assert_eq!(texts[6], "🎯 Transfer ID: 19000000000003");
    assert_eq!(texts[7], "📦 Block Number: 19200003");
    assert_eq!(texts[8], "🔐 Proof Type: simulated");
    assert_eq!(texts[9], "✅ Valid: YES");
    assert_eq!(texts[10], "⏱️  Generation Time: 170ms");
    assert_eq!(texts[11], "💾 Proof Size: 2048 bytes");
    assert_eq!(lines[13].level, LogLevel::Warn);
    assert_eq!(texts[13], "⚠️  SIMULATED PROOF (for demonstration):");
    assert_eq!(texts[19], "│  ZK proof generation complete. Use for verification!        │");
}

#[test]
fn analysis_of_a_zisk_proof_with_file() {
    let d = create_mock_transfer_data(19000000000003);
    let p = zisk_proof(&d, false, 1, Some("proof/vadcop_final_proof.json".to_string()), 3, 4, 5);
    let lines = display_detailed_proof_analysis(&p);
    let texts: Vec<&str> = lines.iter().map(|l| l.text.as_str()).collect();
    assert_eq!(lines.len(), 12 + 1 + 6 + 4);
    assert_eq!(texts[9], "✅ Valid: NO");
    assert_eq!(texts[12], "📁 Proof File: proof/vadcop_final_proof.json");
    assert_eq!(texts[14], "✅ REAL ZISK PROOF GENERATED:");
    assert!(lines.iter().all(|l| l.level == LogLevel::Info));
}

#[test]
fn analysis_of_another_proof_type_has_no_note() {
    let r = sp1_real_proof(19000000000003, true, 9, 900, 4096, 12);
    let lines = display_detailed_proof_analysis(&r);
    assert_eq!(lines.len(), 12 + 1 + 4);
}
