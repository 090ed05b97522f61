use zkcoprocessor::zk::prover::{fetch_transfer_data, StoredTransfer};
use zkcoprocessor::eth::{address_to_account_id, plan_block_transfers, plan_transfer, EthTransaction};

fn tx(from: &str, to: Option<&str>, value: &str) -> EthTransaction {
    EthTransaction {
        hash: "0x8f2a8fbd2bd7b3c0a1bd7a6b9c2cf1e0d47a5b2f1e64c3bb2e9a9f0c1d2e3f40".to_string(),
        block_number: 19000000,
        from: from.to_string(),
        to: to.map(|s| s.to_string()),
        value_wei: value.to_string(),
        gas_used: 21000,
    }
}

const ALICE: &str = "0x00112233445566778899aabbccddeeff00112233";
const BOB: &str = "0xffeeddccbbaa99887766554433221100ffeeddcc";

#[test]
fn address_id_is_its_last_sixteen_bytes() {
    assert_eq!(address_to_account_id(ALICE), 0x445566778899aabbccddeeff00112233);
    assert_eq!(address_to_account_id("0x0x00112233445566778899aabbccddeeff00112233"), 0x445566778899aabbccddeeff00112233);
    assert_eq!(address_to_account_id("00112233445566778899AABBCCDDEEFF00112233"), 0x445566778899aabbccddeeff00112233);
}

#[test]
fn short_or_invalid_address_hashes_to_64_bits() {
    for text in ["0x1234", "0xzz112233445566778899aabbccddeeff00112233", "0x123"] {
        let id = address_to_account_id(text);
        assert!(id <= u64::MAX as u128);
        assert_eq!(id, address_to_account_id(text));
    }
}

#[test]
fn transaction_conversions() {
    let t = tx(ALICE, Some(BOB), "1000000000000000000");
    assert_eq!(t.from_address_to_u128(), 0x445566778899aabbccddeeff00112233);
    assert_eq!(t.to_address_to_u128(), 0xbbaa99887766554433221100ffeeddcc);
    assert_eq!(t.value_to_u128(), 1000000000000000000);
    assert_eq!(t.hash_to_u128(), 0xd47a5b2f1e64c3bb2e9a9f0c1d2e3f40);
    assert_eq!(tx(ALICE, None, "1").to_address_to_u128(), 0);
    assert_eq!(tx(ALICE, None, "not a number").value_to_u128(), 0);
}

#[test]
fn transaction_without_value_is_not_stored() {
    assert!(plan_transfer(19000000, 3, &tx(ALICE, Some(BOB), "0")).is_none());
    assert!(plan_transfer(19000000, 3, &tx(ALICE, Some(BOB), "garbage")).is_none());
}

#[test]
fn value_transfer_plan() {
    let plan = plan_transfer(19000000, 7, &tx(ALICE, Some(BOB), "500")).unwrap();
    assert_eq!(plan.transfer_id, 19000000000007);
    assert_eq!(plan.debit_account_id, 0x445566778899aabbccddeeff00112233);
    assert_eq!(plan.credit_account_id, 0xbbaa99887766554433221100ffeeddcc);
    assert_eq!(plan.amount, 500);
    assert_eq!(plan.block_number, 19000000);
    assert_eq!(plan.gas_used, 21000);
    assert_eq!((plan.ledger, plan.code), (1, 1));
    assert_eq!(plan.accounts_to_create, vec![plan.debit_account_id, plan.credit_account_id]);
    assert_eq!(plan.transfer_id / 1000000, 19000000);
    assert_eq!(plan.transfer_id % 1000000, 7);
}

#[test]
fn contract_creation_plan_skips_the_zero_account() {
    let plan = plan_transfer(19000001, 0, &tx(ALICE, None, "9")).unwrap();
    assert_eq!(plan.transfer_id, 19000001000000);
    assert_eq!(plan.credit_account_id, 0);
    assert_eq!(plan.accounts_to_create, vec![0x445566778899aabbccddeeff00112233]);
}

#[test]
fn block_plan_keeps_only_value_transactions_in_order() {
    let txs = vec![
        tx(ALICE, Some(BOB), "0"),
        tx(ALICE, Some(BOB), "1"),
        tx(BOB, Some(ALICE), "0"),
        tx(BOB, None, "20"),
    ];
    let plans = plan_block_transfers(19000000, &txs);
    let ids: Vec<u128> = plans.iter().map(|p| p.transfer_id).collect();
    assert_eq!(ids, vec![19000000000001, 19000000000003]);
    assert_eq!(plans[1].amount, 20);
    assert!(plan_block_transfers(19000000, &Vec::new()).is_empty());
}

#[test]
fn prover_reads_back_a_synced_transfer() {
    let t = tx(ALICE, Some(BOB), "2500");
    let plan = plan_transfer(19000001, 42, &t).unwrap();
    let stored = StoredTransfer {
        id: plan.transfer_id,
        debit_account_id: plan.debit_account_id,
        credit_account_id: plan.credit_account_id,
        amount: plan.amount,
        user_data_128: plan.block_number,
        user_data_64: plan.gas_used,
    };
    let data = fetch_transfer_data(plan.transfer_id, &vec![stored]).unwrap();
    assert_eq!(data.transfer_id, 19000001000042);
    assert_eq!(data.block_number, 19000001);
    assert_eq!(data.tx_index, 42);
    assert_eq!(data.from_account, 0x445566778899aabbccddeeff00112233);
    assert_eq!(data.to_account, 0xbbaa99887766554433221100ffeeddcc);
    assert_eq!(data.amount, 2500);
}

#[test]
fn every_conversion_of_an_address_agrees() {
    for text in [ALICE, "0x1234", "0xzz", "not hex"] {
        let t = tx(text, Some(text), "1");
        let id = address_to_account_id(text);
        assert_eq!(t.address_to_u128(text), id);
        assert_eq!(t.from_address_to_u128(), id);
        assert_eq!(t.to_address_to_u128(), id);
    }
}
