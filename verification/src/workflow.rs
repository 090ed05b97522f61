//! The decisions of the proving commands: which transfers they prove, the
//! data they prove for a transfer id, and the tallies they report.
use vstd::prelude::*;
use vstd::string::StringExecFns;
use crate::zk::prover::{
    TransactionData,
    TransactionProof,
    DEFAULT_PROOF_SIZE,
    SIMULATED_CONSTRAINTS,
    is_demo_data,
    meets_listed_constraints,
    records,
};
use crate::zk::sp1_prover::{create_transaction_data, generate_inclusion_hash};

verus! {

/// The ids of the transfers that the sync of block 19000000 stored.
pub open spec fn block_19000000_ids() -> Seq<u128> {
    seq![
        19000000000000u128, 19000000000002u128, 19000000000003u128, 19000000000005u128,
        19000000000006u128, 19000000000007u128, 19000000000008u128, 19000000000009u128,
        19000000000012u128, 19000000000016u128, 19000000000022u128, 19000000000023u128,
        19000000000025u128, 19000000000027u128, 19000000000028u128, 19000000000045u128,
        19000000000046u128, 19000000000048u128, 19000000000051u128, 19000000000052u128,
        19000000000055u128, 19000000000056u128, 19000000000058u128, 19000000000059u128,
        19000000000061u128, 19000000000064u128, 19000000000065u128, 19000000000066u128,
        19000000000068u128, 19000000000073u128, 19000000000074u128, 19000000000076u128,
        19000000000077u128, 19000000000082u128, 19000000000087u128, 19000000000089u128,
        19000000000090u128, 19000000000091u128, 19000000000094u128, 19000000000095u128,
        19000000000096u128, 19000000000097u128, 19000000000101u128, 19000000000103u128,
        19000000000104u128, 19000000000105u128, 19000000000106u128, 19000000000107u128,
        19000000000108u128, 19000000000109u128, 19000000000112u128, 19000000000113u128,
        19000000000114u128, 19000000000115u128, 19000000000116u128, 19000000000119u128,
        19000000000122u128, 19000000000123u128, 19000000000124u128, 19000000000125u128,
        19000000000126u128, 19000000000129u128, 19000000000130u128, 19000000000131u128,
        19000000000132u128,
    ]
}

/// The ids of the transfers that the sync of block 19000001 stored.
pub open spec fn block_19000001_ids() -> Seq<u128> {
    seq![
        19000001000004u128, 19000001000006u128, 19000001000008u128, 19000001000011u128,
        19000001000012u128, 19000001000015u128, 19000001000016u128, 19000001000027u128,
        19000001000028u128, 19000001000033u128, 19000001000034u128, 19000001000035u128,
        19000001000037u128, 19000001000040u128, 19000001000042u128, 19000001000043u128,
        19000001000045u128, 19000001000046u128, 19000001000047u128, 19000001000048u128,
        19000001000049u128, 19000001000050u128, 19000001000055u128, 19000001000056u128,
        19000001000058u128, 19000001000062u128, 19000001000064u128, 19000001000068u128,
        19000001000069u128, 19000001000070u128, 19000001000071u128, 19000001000076u128,
        19000001000077u128, 19000001000078u128, 19000001000079u128, 19000001000080u128,
        19000001000081u128, 19000001000089u128, 19000001000092u128, 19000001000094u128,
        19000001000102u128, 19000001000103u128, 19000001000106u128, 19000001000107u128,
        19000001000109u128, 19000001000111u128, 19000001000114u128, 19000001000115u128,
        19000001000119u128, 19000001000120u128, 19000001000121u128, 19000001000123u128,
        19000001000124u128, 19000001000126u128, 19000001000128u128, 19000001000133u128,
        19000001000135u128, 19000001000136u128, 19000001000137u128, 19000001000143u128,
        19000001000148u128, 19000001000149u128, 19000001000151u128, 19000001000152u128,
        19000001000154u128, 19000001000155u128, 19000001000157u128, 19000001000158u128,
        19000001000160u128, 19000001000163u128,
    ]
}

/// The ids of the transfers that the sync of block 19000000 stored.
pub fn block_19000000_transfer_ids() -> (ids: Vec<u128>)
    ensures
        ids@ == block_19000000_ids(),
{
    let ids: Vec<u128> = vec![
        19000000000000u128, 19000000000002u128, 19000000000003u128, 19000000000005u128,
        19000000000006u128, 19000000000007u128, 19000000000008u128, 19000000000009u128,
        19000000000012u128, 19000000000016u128, 19000000000022u128, 19000000000023u128,
        19000000000025u128, 19000000000027u128, 19000000000028u128, 19000000000045u128,
        19000000000046u128, 19000000000048u128, 19000000000051u128, 19000000000052u128,
        19000000000055u128, 19000000000056u128, 19000000000058u128, 19000000000059u128,
        19000000000061u128, 19000000000064u128, 19000000000065u128, 19000000000066u128,
        19000000000068u128, 19000000000073u128, 19000000000074u128, 19000000000076u128,
        19000000000077u128, 19000000000082u128, 19000000000087u128, 19000000000089u128,
        19000000000090u128, 19000000000091u128, 19000000000094u128, 19000000000095u128,
        19000000000096u128, 19000000000097u128, 19000000000101u128, 19000000000103u128,
        19000000000104u128, 19000000000105u128, 19000000000106u128, 19000000000107u128,
        19000000000108u128, 19000000000109u128, 19000000000112u128, 19000000000113u128,
        19000000000114u128, 19000000000115u128, 19000000000116u128, 19000000000119u128,
        19000000000122u128, 19000000000123u128, 19000000000124u128, 19000000000125u128,
        19000000000126u128, 19000000000129u128, 19000000000130u128, 19000000000131u128,
        19000000000132u128,
    ];
    assert(ids@ =~= block_19000000_ids());
    ids
}

/// The ids of the transfers that the sync of block 19000001 stored.
pub fn block_19000001_transfer_ids() -> (ids: Vec<u128>)
    ensures
        ids@ == block_19000001_ids(),
{
    let ids: Vec<u128> = vec![
        19000001000004u128, 19000001000006u128, 19000001000008u128, 19000001000011u128,
        19000001000012u128, 19000001000015u128, 19000001000016u128, 19000001000027u128,
        19000001000028u128, 19000001000033u128, 19000001000034u128, 19000001000035u128,
        19000001000037u128, 19000001000040u128, 19000001000042u128, 19000001000043u128,
        19000001000045u128, 19000001000046u128, 19000001000047u128, 19000001000048u128,
        19000001000049u128, 19000001000050u128, 19000001000055u128, 19000001000056u128,
        19000001000058u128, 19000001000062u128, 19000001000064u128, 19000001000068u128,
        19000001000069u128, 19000001000070u128, 19000001000071u128, 19000001000076u128,
        19000001000077u128, 19000001000078u128, 19000001000079u128, 19000001000080u128,
        19000001000081u128, 19000001000089u128, 19000001000092u128, 19000001000094u128,
        19000001000102u128, 19000001000103u128, 19000001000106u128, 19000001000107u128,
        19000001000109u128, 19000001000111u128, 19000001000114u128, 19000001000115u128,
        19000001000119u128, 19000001000120u128, 19000001000121u128, 19000001000123u128,
        19000001000124u128, 19000001000126u128, 19000001000128u128, 19000001000133u128,
        19000001000135u128, 19000001000136u128, 19000001000137u128, 19000001000143u128,
        19000001000148u128, 19000001000149u128, 19000001000151u128, 19000001000152u128,
        19000001000154u128, 19000001000155u128, 19000001000157u128, 19000001000158u128,
        19000001000160u128, 19000001000163u128,
    ];
    assert(ids@ =~= block_19000001_ids());
    ids
}

/// The first `n` elements of `ids`, or all of them when there are fewer.
pub open spec fn first_n(ids: Seq<u128>, n: usize) -> Seq<u128> {
    if n < ids.len() {
        ids.subrange(0, n as int)
    } else {
        ids
    }
}

/// The first `n` elements of `ids`, or all of them when there are fewer.
pub fn take_first(ids: &Vec<u128>, n: usize) -> (first: Vec<u128>)
    ensures
        first@ == first_n(ids@, n),
{
    let end = if n < ids.len() {
        n
    } else {
        ids.len()
    };
    let mut first: Vec<u128> = Vec::new();
    let mut i: usize = 0;
    while i < end
        invariant
            i <= end <= ids@.len(),
            end == (if n < ids@.len() { n as int } else { ids@.len() as int }),
            first@ =~= ids@.subrange(0, i as int),
        decreases end - i,
    {
        first.push(ids[i]);
        i = i + 1;
    }
    assert(ids@.subrange(0, ids@.len() as int) =~= ids@);
    first
}

/// The transfers that `prove-batch` proves: the first `count` transfers
/// stored for block 19000000.
pub fn batch_transfer_ids(count: usize) -> (ids: Vec<u128>)
    ensures
        ids@ == first_n(block_19000000_ids(), count),
{
    let known = block_19000000_transfer_ids();
    take_first(&known, count)
}

/// The transfers that the transfer check of `debug` looks up: the first
/// `limit` transfers stored for blocks 19000000 and 19000001.
pub fn debug_check_transfer_ids(limit: usize) -> (ids: Vec<u128>)
    ensures
        ids@ == first_n(block_19000000_ids() + block_19000001_ids(), limit),
{
    let mut known = block_19000000_transfer_ids();
    let mut more = block_19000001_transfer_ids();
    known.append(&mut more);
    take_first(&known, limit)
}

/// The ids `start + 1`, ..., `start + count`.
pub open spec fn consecutive_ids(start: u128, count: usize) -> Seq<u128> {
    Seq::new(count as nat, |i: int| (start + i + 1) as u128)
}

/// The ids `start + 1` to `start + count`.
fn consecutive_transfer_ids(start: u128, count: usize) -> (ids: Vec<u128>)
    requires
        start + count <= u128::MAX,
    ensures
        ids@ == consecutive_ids(start, count),
{
    let mut ids: Vec<u128> = Vec::new();
    let mut i: usize = 0;
    while i < count
        invariant
            i <= count,
            start + count <= u128::MAX,
            ids@ =~= Seq::new(i as nat, |k: int| (start + k + 1) as u128),
        decreases count - i,
    {
        ids.push(start + (i as u128) + 1);
        i = i + 1;
    }
    ids
}

/// The transfers that the batch of enhanced proofs proves: 19000000000001
/// to 19000000000000 plus `count`.
pub fn enhanced_batch_transfer_ids(count: usize) -> (ids: Vec<u128>)
    ensures
        ids@ == consecutive_ids(19000000000000, count),
{
    consecutive_transfer_ids(19000000000000, count)
}

/// The transfers that `benchmark-compare` proves on each backend:
/// 19000000000001 to 19000000000000 plus `count`.
pub fn compare_transfer_ids(count: usize) -> (ids: Vec<u128>)
    ensures
        ids@ == consecutive_ids(19000000000000, count),
{
    consecutive_transfer_ids(19000000000000, count)
}

/// The data that the backend commands show and prove for a transfer id
/// (the same data as the SP1 prover's).
pub fn create_transaction_data_for_display(transfer_id: u128) -> (data: TransactionData)
    ensures
        is_demo_data(transfer_id, 19000000, 1000000, data),
        meets_listed_constraints(data),
{
    create_transaction_data(transfer_id)
}

/// The record of the simulated proof that the backend commands fall back
/// to: the display data of the transfer, valid, of type `simulated`, 2048
/// bytes and 1024 constraints, generated in 150 ms and verified in 25 ms.
pub fn detailed_simulated_proof(transfer_id: u128, timestamp: u64) -> (proof: TransactionProof)
    ensures
        exists|data: TransactionData|
            is_demo_data(transfer_id, 19000000, 1000000, data) && records(
                proof,
                data,
                true,
                timestamp,
                "simulated"@,
                150,
                DEFAULT_PROOF_SIZE,
                SIMULATED_CONSTRAINTS,
                25,
            ),
        proof.proof_path is None,
{
    let data = create_transaction_data_for_display(transfer_id);
    TransactionProof {
        transfer_id: data.transfer_id,
        block_number: data.block_number,
        inclusion_proof_hash: generate_inclusion_hash(&data),
        is_valid: true,
        timestamp,
        proof_path: None,
        proof_type: String::from_str("simulated"),
        generation_time_ms: 150,
        proof_size_bytes: DEFAULT_PROOF_SIZE,
        circuit_constraints: SIMULATED_CONSTRAINTS,
        verification_time_ms: Some(25),
    }
}

/// The running totals of a batch of proofs.
#[derive(Debug, Clone, Copy, PartialEq, Eq, Structural)]
pub struct ProofBatchTally {
    pub successful: u64,
    pub failed: u64,
    pub total_generation_time_ms: u64,
    pub total_proof_size: usize,
    pub total_constraints: u32,
}

impl ProofBatchTally {
    /// A tally of no proofs.
    pub fn new() -> (tally: ProofBatchTally)
        ensures
            tally == (ProofBatchTally {
                successful: 0,
                failed: 0,
                total_generation_time_ms: 0,
                total_proof_size: 0,
                total_constraints: 0,
            }),
    {
        ProofBatchTally {
            successful: 0,
            failed: 0,
            total_generation_time_ms: 0,
            total_proof_size: 0,
            total_constraints: 0,
        }
    }

    /// Counts a successful proof with its generation time, size and
    /// constraint count.
    pub fn record_success(&mut self, generation_time_ms: u64, proof_size: usize, constraints: u32)
        requires
            old(self).successful < u64::MAX,
            old(self).total_generation_time_ms + generation_time_ms <= u64::MAX,
            old(self).total_proof_size + proof_size <= usize::MAX,
            old(self).total_constraints + constraints <= u32::MAX,
        ensures
            *final(self) == (ProofBatchTally {
                successful: (old(self).successful + 1) as u64,
                failed: old(self).failed,
                total_generation_time_ms: (old(self).total_generation_time_ms
                    + generation_time_ms) as u64,
                total_proof_size: (old(self).total_proof_size + proof_size) as usize,
                total_constraints: (old(self).total_constraints + constraints) as u32,
            }),
    {
        self.successful = self.successful + 1;
        self.total_generation_time_ms = self.total_generation_time_ms + generation_time_ms;
        self.total_proof_size = self.total_proof_size + proof_size;
        self.total_constraints = self.total_constraints + constraints;
    }

    /// Counts a successful proof by the time it took, leaving the size and
    /// constraint totals as they are.
    pub fn record_timed_success(&mut self, elapsed_ms: u64)
        requires
            old(self).successful < u64::MAX,
            old(self).total_generation_time_ms + elapsed_ms <= u64::MAX,
        ensures
            *final(self) == (ProofBatchTally {
                successful: (old(self).successful + 1) as u64,
                total_generation_time_ms: (old(self).total_generation_time_ms
                    + elapsed_ms) as u64,
                ..*old(self)
            }),
    {
        self.successful = self.successful + 1;
        self.total_generation_time_ms = self.total_generation_time_ms + elapsed_ms;
    }

    /// Counts a failed proof.
    pub fn record_failure(&mut self)
        requires
            old(self).failed < u64::MAX,
        ensures
            *final(self) == (ProofBatchTally { failed: (old(self).failed + 1) as u64, ..*old(self) }),
    {
        self.failed = self.failed + 1;
    }

    /// The mean generation time of the successful proofs, zero when there
    /// are none.
    pub fn average_generation_time_ms(&self) -> (avg: u64)
        ensures
            avg == if self.successful > 0 {
                self.total_generation_time_ms / self.successful
            } else {
                0
            },
    {
        if self.successful > 0 {
            self.total_generation_time_ms / self.successful
        } else {
            0
        }
    }

    /// The mean size of the successful proofs, zero when there are none.
    pub fn average_proof_size(&self) -> (avg: usize)
        requires
            self.successful <= u32::MAX,
        ensures
            avg == if self.successful > 0 {
                self.total_proof_size / self.successful as usize
            } else {
                0
            },
    {
        if self.successful > 0 {
            self.total_proof_size / self.successful as usize
        } else {
            0
        }
    }

    /// The mean constraint count of the successful proofs, zero when there
    /// are none.
    pub fn average_constraints(&self) -> (avg: u32)
        requires
            self.successful <= u32::MAX,
        ensures
            avg == if self.successful > 0 {
                self.total_constraints / self.successful as u32
            } else {
                0
            },
    {
        if self.successful > 0 {
            self.total_constraints / self.successful as u32
        } else {
            0
        }
    }
}

/// The block whose transactions the Ethereum test reads: ten blocks before
/// the latest.
pub fn test_block_number(latest_block: u64) -> (block: u64)
    requires
        latest_block >= 10,
    ensures
        block == latest_block - 10,
{
    latest_block - 10
}

/// Whether the ZisK toolchain may be used on the operating system named
/// `os` (as `std::env::consts::OS` names it): every system but macOS, which
/// proves in simulation mode.
pub fn is_platform_supported(os: &str) -> (supported: bool)
    ensures
        supported <==> os@ != "macos"@,
{
    let name = String::from_str(os);
    !(name == String::from_str("macos"))
}

} // verus!
