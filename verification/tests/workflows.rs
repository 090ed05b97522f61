use zkcoprocessor::benchmark::{benchmark_candidate_ids, benchmark_sample_sizes, mock_eth_hash, TransferIdCollector};
use zkcoprocessor::cli::{choose_backend, query_target, select_backend, Backend, BackendError, QueryTarget};
use zkcoprocessor::inspect::{account_balance, LimitedScan, ScanKind, TransferCheckTally};
use zkcoprocessor::workflow::{
    batch_transfer_ids, block_19000000_transfer_ids, block_19000001_transfer_ids, compare_transfer_ids,
    debug_check_transfer_ids, enhanced_batch_transfer_ids, test_block_number, ProofBatchTally,
};

#[test]
fn known_transfer_lists() {
    let b0 = block_19000000_transfer_ids();
    let b1 = block_19000001_transfer_ids();
    assert_eq!((b0.len(), b1.len()), (65, 70));
    assert_eq!((b0[0], b0[64]), (19000000000000, 19000000000132));
    assert_eq!((b1[0], b1[69]), (19000001000004, 19000001000163));
    assert_eq!(batch_transfer_ids(3), vec![19000000000000, 19000000000002, 19000000000003]);
    assert_eq!(batch_transfer_ids(1000).len(), 65);
    assert_eq!(debug_check_transfer_ids(1000).len(), 135);
    assert_eq!(debug_check_transfer_ids(66)[65], 19000001000004);
    assert!(batch_transfer_ids(0).is_empty());
}

#[test]
fn consecutive_id_lists() {
    assert_eq!(enhanced_batch_transfer_ids(3), vec![19000000000001, 19000000000002, 19000000000003]);
    assert_eq!(compare_transfer_ids(2), vec![19000000000001, 19000000000002]);
    assert!(compare_transfer_ids(0).is_empty());
}

#[test]
fn batch_tally() {
    let mut t = ProofBatchTally::new();
    assert_eq!((t.average_generation_time_ms(), t.average_proof_size(), t.average_constraints()), (0, 0, 0));
    t.record_success(100, 2048, 1024);
    t.record_success(51, 1000, 1);
    t.record_failure();
    assert_eq!((t.successful, t.failed), (2, 1));
    assert_eq!((t.total_generation_time_ms, t.total_proof_size, t.total_constraints), (151, 3048, 1025));
    assert_eq!((t.average_generation_time_ms(), t.average_proof_size(), t.average_constraints()), (75, 1524, 512));
    t.record_timed_success(9);
    assert_eq!((t.successful, t.total_generation_time_ms, t.total_proof_size), (3, 160, 3048));
}

#[test]
fn backend_selection() {
    assert_eq!(select_backend("sp1", false), Ok(Backend::Sp1));
    assert_eq!(select_backend("ZisK", true), Ok(Backend::Zisk));
    assert_eq!(select_backend("AUTO", true), Ok(Backend::Sp1));
    assert_eq!(select_backend("auto", false), Ok(Backend::Zisk));
    assert_eq!(select_backend("risc0", true), Err(BackendError::InvalidBackend));
    assert_eq!(choose_backend("Sp1", true), Err(BackendError::InvalidBackend));
}

#[test]
fn query_targets() {
    assert_eq!(query_target(Some(1), Some(2)), QueryTarget::Account(1));
    assert_eq!(query_target(None, Some(2)), QueryTarget::Transfer(2));
    assert_eq!(query_target(None, None), QueryTarget::Nothing);
}

#[test]
fn test_block_is_ten_back() {
    assert_eq!(test_block_number(19000010), 19000000);
}

#[test]
fn transfer_scan_candidates_and_limit() {
    let mut scan = LimitedScan::new(ScanKind::Transfers, 3);
    assert_eq!(scan.next_candidate(), 19000000000000);
    assert_eq!(scan.record(0), 0);
    assert_eq!(scan.next_candidate(), 19000000000001);
    assert_eq!(scan.record(2), 2);
    assert!(!scan.done);
    assert_eq!(scan.record(5), 1);
    assert!(scan.done);
    assert_eq!(scan.found, 3);
}

#[test]
fn transfer_scan_crosses_into_the_next_block() {
    let mut scan = LimitedScan::new(ScanKind::Transfers, 10);
    for _ in 0..1000 {
        scan.record(0);
    }
    assert_eq!(scan.next_candidate(), 19000001000000);
    for _ in 0..999 {
        scan.record(0);
    }
    assert!(!scan.done);
    scan.record(0);
    assert!(scan.done);
    assert_eq!(scan.position, 2000);
}

#[test]
fn zero_limit_scan_shows_nothing_and_stops_after_one_lookup() {
    let mut scan = LimitedScan::new(ScanKind::Accounts, 0);
    assert_eq!(scan.next_candidate(), 1);
    assert_eq!(scan.record(4), 0);
    assert_eq!(scan.found, 0);
    assert!(scan.done);
    let mut empty = LimitedScan::new(ScanKind::Accounts, 0);
    assert_eq!(empty.record(0), 0);
    assert!(empty.done);
}

#[test]
fn account_scan_ends_at_999() {
    let mut scan = LimitedScan::new(ScanKind::Accounts, 5);
    for _ in 0..998 {
        scan.record(0);
    }
    assert_eq!(scan.next_candidate(), 999);
    scan.record(0);
    assert!(scan.done);
}

#[test]
fn balances() {
    assert_eq!(account_balance(10, 4), 6);
    assert_eq!(account_balance(4, 10), 0);
}

#[test]
fn transfer_check_tally_counts_distinct_accounts() {
    let mut t = TransferCheckTally::new();
    t.record_found(1, 2);
    t.record_found(2, 3);
    t.record_found(1, 1);
    assert_eq!(t.found, 3);
    assert_eq!(t.unique_accounts(), 3);
    assert_eq!(t.accounts, vec![1, 2, 3]);
}

#[test]
fn benchmark_candidates() {
    let ids = benchmark_candidate_ids(3);
    assert_eq!(ids, vec![19000000000000, 19000000000002, 19000000000003, 19000000000005, 19000000000006, 19000000000007]);
    assert_eq!(benchmark_candidate_ids(100).len(), 40);
    assert_eq!(benchmark_candidate_ids(15)[20], 19000001000004);
}

#[test]
fn collector_stops_when_full() {
    let mut c = TransferIdCollector::new(2);
    assert!(!c.record(1, false));
    assert!(!c.record(2, true));
    assert!(c.record(3, true));
    assert_eq!(c.collected, vec![2, 3]);
}

#[test]
fn sample_sizes() {
    assert_eq!(benchmark_sample_sizes(3, 50), (3, 3));
    assert_eq!(benchmark_sample_sizes(40, 20), (20, 5));
}

#[test]
fn mock_hashes() {
    assert_eq!(mock_eth_hash(19000000000000), format!("0x{:064x}", 19000000000000u128));
    assert_eq!(mock_eth_hash(0).len(), 66);
}
