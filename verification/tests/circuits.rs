use zkcoprocessor::sp1_guest::TransactionData as GuestTransaction;
use zkcoprocessor::zisk_circuit::{compute_verification_hash, evaluate_zisk_circuit, CircuitError};

#[test]
fn verification_hash_adds_the_halves() {
    assert_eq!(compute_verification_hash(19000000000001), 19000000000001);
    assert_eq!(compute_verification_hash((1u128 << 64) + 5), 6);
    assert_eq!(compute_verification_hash(u128::MAX), u64::MAX - 1);
}

#[test]
fn verification_hash_is_never_zero() {
    assert_eq!(compute_verification_hash(0), 1);
    assert_eq!(compute_verification_hash((1u128 << 64) + (u64::MAX as u128)), 1);
    assert_eq!(compute_verification_hash((2u128 << 64) + (u64::MAX as u128) - 1), 1);
    assert_eq!(compute_verification_hash((1u128 << 64) + (u64::MAX as u128) - 1), u64::MAX);
}

#[test]
fn circuit_publishes_hash_words_and_flag() {
    let input = 19000000000001u128.to_le_bytes();
    let words = evaluate_zisk_circuit(&input).unwrap();
    assert_eq!(words, vec![3359649793, 4423, 1]);
}

#[test]
fn circuit_rejects_each_broken_constraint() {
    assert_eq!(evaluate_zisk_circuit(&[0u8; 15]), Err(CircuitError::InvalidInputLength));
    assert_eq!(evaluate_zisk_circuit(&0u128.to_le_bytes()), Err(CircuitError::NotPositive));
    assert_eq!(evaluate_zisk_circuit(&(u128::MAX / 2).to_le_bytes()), Err(CircuitError::TooLarge));
    assert_eq!(evaluate_zisk_circuit(&18999999999999u128.to_le_bytes()), Err(CircuitError::BelowRange));
    assert_eq!(evaluate_zisk_circuit(&20000000000001u128.to_le_bytes()), Err(CircuitError::AboveRange));
    assert_eq!(evaluate_zisk_circuit(&19000000000002u128.to_le_bytes()), Err(CircuitError::NotOdd));
    assert_eq!(CircuitError::NotOdd.message(), "Transfer ID must be odd for this demo");
}

#[test]
fn circuit_range_edges() {
    assert!(evaluate_zisk_circuit(&19000000000001u128.to_le_bytes()).is_ok());
    assert_eq!(evaluate_zisk_circuit(&19000000000000u128.to_le_bytes()), Err(CircuitError::NotOdd));
    assert!(evaluate_zisk_circuit(&19999999999999u128.to_le_bytes()).is_ok());
    assert_eq!(evaluate_zisk_circuit(&20000000000000u128.to_le_bytes()), Err(CircuitError::AboveRange));
}

#[test]
fn sp1_guest_validity_and_public_values() {
    let mut tx = GuestTransaction {
        transfer_id: 19000000000002,
        block_number: 19000002,
        from_account: 1,
        to_account: 2,
        amount: 10,
    };
    assert!(tx.is_valid());
    assert_eq!(tx.public_values(), (1, 19000000000002));
    tx.amount = 0;
    assert!(!tx.is_valid());
    assert_eq!(tx.public_values(), (0, 19000000000002));
    tx.amount = 1;
    tx.transfer_id = (1u128 << 64) + 3;
    assert_eq!(tx.public_values(), (0, 3));
}

#[test]
fn guests_agree_on_odd_ids_in_range() {
    for id in [19000000000001u128, 19000000000003, 19999999999999] {
        let tx = GuestTransaction { transfer_id: id, block_number: 0, from_account: 0, to_account: 0, amount: 1 };
        assert!(evaluate_zisk_circuit(&id.to_le_bytes()).is_ok());
        assert!(tx.is_valid());
    }
}
