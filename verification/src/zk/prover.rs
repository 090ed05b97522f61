//! Transfer data to prove, the records of ZisK and simulated proofs, and
//! the project files of the ZisK guest program.
use vstd::prelude::*;
use vstd::string::StringExecFns;
use crate::bytes::{
    le_bytes,
    le_value,
    lemma_le_bytes_len,
    lemma_le_roundtrip,
    lemma_pow256_values,
    u128_to_le_bytes,
};
use crate::zisk_circuit::{
    TRANSFER_ID_RANGE_END,
    TRANSFER_ID_RANGE_START,
    lemma_circuit_accepts_exactly_odd_ids_in_range,
    zisk_circuit,
};
use crate::digest::sha256_of;
use crate::eth::{
    EthTransaction,
    TransferPlan,
    account_id_of_text,
    is_plan_for,
    lemma_transfer_id_encodes_block_and_index,
    transfer_id_for,
    tx_value,
};
use crate::decimal::decimal_text;
use crate::text::{
    LogLevel,
    LogLine,
    char_at,
    info,
    warn,
    joined_line,
    lemma_line_absent,
    lemma_lines_contains_concat,
    line_of,
    lines_view,
    number_line,
    push_line,
};
use crate::zk::sp1_prover::{generate_inclusion_hash, inclusion_preimage};

verus! {

/// The data of one transfer that a proof is about.
#[derive(Debug, Clone, Copy)]
pub struct TransactionData {
    pub transfer_id: u128,
    pub block_number: u64,
    pub tx_index: usize,
    pub from_account: u128,
    pub to_account: u128,
    pub amount: u128,
    pub tx_hash: [u8; 32],
}

/// The record of a generated proof.
#[derive(Debug, Clone)]
pub struct TransactionProof {
    pub transfer_id: u128,
    pub block_number: u64,
    pub inclusion_proof_hash: [u8; 32],
    pub is_valid: bool,
    pub timestamp: u64,
    pub proof_path: Option<String>,
    pub proof_type: String,
    pub generation_time_ms: u64,
    pub proof_size_bytes: usize,
    pub circuit_constraints: u32,
    pub verification_time_ms: Option<u64>,
}

/// A transfer as the ledger stores it (the fields that the tool reads).
#[derive(Debug, Clone, Copy)]
pub struct StoredTransfer {
    pub id: u128,
    pub debit_account_id: u128,
    pub credit_account_id: u128,
    pub amount: u128,
    pub user_data_128: u128,
    pub user_data_64: u64,
}

/// Why transfer data could not be fetched.
#[derive(Debug, Clone, Copy, PartialEq, Eq, Structural)]
pub enum FetchError {
    /// The ledger holds no transfer with this id.
    TransferNotFound(u128),
}

/// Size in bytes recorded for a proof whose file size is not known.
pub const DEFAULT_PROOF_SIZE: usize = 2048;

/// Constraint count recorded for a simulated proof.
pub const SIMULATED_CONSTRAINTS: u32 = 1024;

/// Constraint count recorded for a proof from the ZisK prover.
pub const ZISK_EXAMPLE_CONSTRAINTS: u32 = 85309;

/// The transaction hash derived from a transfer id: its sixteen
/// little-endian bytes followed by sixteen zero bytes.
pub open spec fn derived_tx_hash(transfer_id: u128) -> Seq<u8> {
    le_bytes(transfer_id as nat, 16) + Seq::new(16, |i: int| 0u8)
}

/// Whether `data` holds the demonstration data of `transfer_id` whose block
/// number starts at `block_base` and whose index in the block is the id
/// modulo `index_modulus`.
pub open spec fn is_demo_data(
    transfer_id: u128,
    block_base: u64,
    index_modulus: u128,
    data: TransactionData,
) -> bool {
    &&& data.transfer_id == transfer_id
    &&& data.block_number == block_base + transfer_id % 1000
    &&& data.tx_index == transfer_id % index_modulus
    &&& data.from_account == 1000000 + transfer_id % 10000
    &&& data.to_account == 2000000 + transfer_id % 10000
    &&& data.amount == 1000000000000000000 + transfer_id % 1000000000000000000
    &&& data.tx_hash@ == derived_tx_hash(transfer_id)
}

/// Whether `data` meets the constraints that the tool lists for the data
/// it proves: a positive amount, distinct accounts, a block number of at
/// least 19000000 and a transaction hash derived from the transfer id.
pub open spec fn meets_listed_constraints(data: TransactionData) -> bool {
    &&& data.amount > 0
    &&& data.from_account != data.to_account
    &&& data.block_number >= 19000000
    &&& data.tx_hash@ == derived_tx_hash(data.transfer_id)
}

/// Builds the transaction hash derived from a transfer id.
pub fn derive_tx_hash(transfer_id: u128) -> (tx_hash: [u8; 32])
    ensures
        tx_hash@ == derived_tx_hash(transfer_id),
{
    let mut tx_hash = [0u8; 32];
    let id_bytes = u128_to_le_bytes(transfer_id);
    proof {
        lemma_le_bytes_len(transfer_id as nat, 16);
    }
    let mut i: usize = 0;
    while i < 16
        invariant
            i <= 16,
            id_bytes@ == le_bytes(transfer_id as nat, 16),
            id_bytes@.len() == 16,
            tx_hash@.len() == 32,
            forall|j: int| 0 <= j < i ==> tx_hash@[j] == id_bytes@[j],
            forall|j: int| 16 <= j < 32 ==> tx_hash@[j] == 0u8,
        decreases 16 - i,
    {
        tx_hash[i] = id_bytes[i];
        i = i + 1;
    }
    assert(tx_hash@ =~= derived_tx_hash(transfer_id));
    tx_hash
}

/// Demonstration data of a transfer id, with the given block base and index
/// modulus.
fn demo_data(transfer_id: u128, block_base: u64, index_modulus: u128) -> (data: TransactionData)
    requires
        block_base <= 19200000,
        0 < index_modulus <= 1000000,
    ensures
        is_demo_data(transfer_id, block_base, index_modulus, data),
        meets_listed_constraints(data) || block_base < 19000000,
{
    TransactionData {
        transfer_id,
        block_number: block_base + (transfer_id % 1000) as u64,
        tx_index: (transfer_id % index_modulus) as usize,
        from_account: 1000000 + transfer_id % 10000,
        to_account: 2000000 + transfer_id % 10000,
        amount: 1000000000000000000 + transfer_id % 1000000000000000000,
        tx_hash: derive_tx_hash(transfer_id),
    }
}

/// The mock data of a transfer that ZisK proofs use when the ledger is not
/// read: block 19200000 plus the id modulo 1000, index the id modulo 100,
/// accounts 1000000 and 2000000 plus the id modulo 10000, an amount of one
/// ether plus the id modulo 10^18, and the hash derived from the id.
pub fn create_mock_transfer_data(transfer_id: u128) -> (data: TransactionData)
    ensures
        is_demo_data(transfer_id, 19200000, 100, data),
        meets_listed_constraints(data),
{
    demo_data(transfer_id, 19200000, 100)
}

/// Whether `data` is what the prover reads for `transfer_id` from the ledger
/// transfer `t`: its block number from the 128-bit user data (truncated to
/// 64 bits), its index from the id modulo a million, its accounts and amount
/// from the transfer, and its hash derived from the id.
pub open spec fn is_fetched_data(transfer_id: u128, t: StoredTransfer, data: TransactionData) -> bool {
    &&& data.transfer_id == transfer_id
    &&& data.block_number == t.user_data_128 as u64
    &&& data.tx_index == transfer_id % 1000000
    &&& data.from_account == t.debit_account_id
    &&& data.to_account == t.credit_account_id
    &&& data.amount == t.amount
    &&& data.tx_hash@ == derived_tx_hash(transfer_id)
}

/// Turns the result of looking up `transfer_id` in the ledger into the data
/// to prove, read from the first transfer found.
pub fn fetch_transfer_data(transfer_id: u128, transfers: &Vec<StoredTransfer>) -> (result: Result<
    TransactionData,
    FetchError,
>)
    ensures
        result is Ok <==> transfers@.len() > 0,
        transfers@.len() == 0 ==> result == Err::<TransactionData, FetchError>(
            FetchError::TransferNotFound(transfer_id),
        ),
        match result {
            Ok(data) => is_fetched_data(transfer_id, transfers@[0], data),
            Err(_) => true,
        },
{
    if transfers.len() == 0 {
        return Err(FetchError::TransferNotFound(transfer_id));
    }
    let transfer = &transfers[0];
    Ok(
        TransactionData {
            transfer_id,
            block_number: transfer.user_data_128 as u64,
            tx_index: (transfer_id % 1000000) as usize,
            from_account: transfer.debit_account_id,
            to_account: transfer.credit_account_id,
            amount: transfer.amount,
            tx_hash: derive_tx_hash(transfer_id),
        },
    )
}

/// The input file of the ZisK guest program for a transfer: the sixteen
/// little-endian bytes of its transfer id.
pub fn zisk_input_bytes(transfer_data: &TransactionData) -> (input: Vec<u8>)
    ensures
        input@ == le_bytes(transfer_data.transfer_id as nat, 16),
{
    u128_to_le_bytes(transfer_data.transfer_id)
}

/// The ZisK circuit reads back the transfer id that the prover writes to its
/// input file, and accepts it exactly when it is odd and in the accepted
/// range; the mock data that the enhanced proofs use is accepted for every
/// such id.
pub proof fn lemma_circuit_reads_prover_input(data: TransactionData)
    ensures
        le_value(le_bytes(data.transfer_id as nat, 16)) == data.transfer_id,
        zisk_circuit(le_bytes(data.transfer_id as nat, 16)) is Ok <==> (TRANSFER_ID_RANGE_START
            <= data.transfer_id < TRANSFER_ID_RANGE_END && data.transfer_id % 2 == 1),
{
    lemma_pow256_values();
    lemma_le_roundtrip(data.transfer_id as nat, 16);
    lemma_circuit_accepts_exactly_odd_ids_in_range(data.transfer_id);
}

/// The constraint count recorded for a finished ZisK proof.
pub fn estimate_circuit_constraints() -> (constraints: u32)
    ensures
        constraints == 2048,
{
    2048
}

/// Whether `proof` records a proof of `data` with the inclusion hash of
/// `data` and the given fields.
pub open spec fn records(
    proof: TransactionProof,
    data: TransactionData,
    is_valid: bool,
    timestamp: u64,
    proof_type: Seq<char>,
    generation_time_ms: u64,
    proof_size_bytes: usize,
    circuit_constraints: u32,
    verification_time_ms: u64,
) -> bool {
    &&& proof.transfer_id == data.transfer_id
    &&& proof.block_number == data.block_number
    &&& proof.inclusion_proof_hash@ == sha256_of(inclusion_preimage(data))
    &&& proof.is_valid == is_valid
    &&& proof.timestamp == timestamp
    &&& proof.proof_type@ == proof_type
    &&& proof.generation_time_ms == generation_time_ms
    &&& proof.proof_size_bytes == proof_size_bytes
    &&& proof.circuit_constraints == circuit_constraints
    &&& proof.verification_time_ms == Some(verification_time_ms)
}

/// The record of a simulated proof of `transfer_data`: valid, of type
/// `simulated`, 2048 bytes and 1024 constraints, generated in the sum of
/// the four measured times.
pub fn simulated_proof(
    transfer_data: &TransactionData,
    data_fetch_time: u64,
    circuit_build_time: u64,
    proof_generation_time: u64,
    verification_time: u64,
    timestamp: u64,
) -> (proof: TransactionProof)
    requires
        data_fetch_time + circuit_build_time + proof_generation_time + verification_time
            <= u64::MAX,
    ensures
        records(
            proof,
            *transfer_data,
            true,
            timestamp,
            "simulated"@,
            (data_fetch_time + circuit_build_time + proof_generation_time
                + verification_time) as u64,
            DEFAULT_PROOF_SIZE,
            SIMULATED_CONSTRAINTS,
            verification_time,
        ),
        proof.proof_path is None,
{
    let total_time = data_fetch_time + circuit_build_time + proof_generation_time
        + verification_time;
    TransactionProof {
        transfer_id: transfer_data.transfer_id,
        block_number: transfer_data.block_number,
        inclusion_proof_hash: generate_inclusion_hash(transfer_data),
        is_valid: true,
        timestamp,
        proof_path: None,
        proof_type: String::from_str("simulated"),
        generation_time_ms: total_time,
        proof_size_bytes: DEFAULT_PROOF_SIZE,
        circuit_constraints: SIMULATED_CONSTRAINTS,
        verification_time_ms: Some(verification_time),
    }
}

/// The record of a simulated proof of the mock data of `transfer_id`:
/// valid, of type `simulated`, 2048 bytes and 1024 constraints, verified
/// in 30 ms.
pub fn enhanced_simulated_proof(transfer_id: u128, total_time: u64, timestamp: u64) -> (proof:
    TransactionProof)
    ensures
        exists|data: TransactionData|
            is_demo_data(transfer_id, 19200000, 100, data) && records(
                proof,
                data,
                true,
                timestamp,
                "simulated"@,
                total_time,
                DEFAULT_PROOF_SIZE,
                SIMULATED_CONSTRAINTS,
                30,
            ),
        proof.proof_path is None,
{
    let data = create_mock_transfer_data(transfer_id);
    TransactionProof {
        transfer_id: data.transfer_id,
        block_number: data.block_number,
        inclusion_proof_hash: generate_inclusion_hash(&data),
        is_valid: true,
        timestamp,
        proof_path: None,
        proof_type: String::from_str("simulated"),
        generation_time_ms: total_time,
        proof_size_bytes: DEFAULT_PROOF_SIZE,
        circuit_constraints: SIMULATED_CONSTRAINTS,
        verification_time_ms: Some(30),
    }
}

/// The record of a proof that the ZisK prover made and checked: of type
/// `zisk`, with the ZisK example's constraint count.
pub fn zisk_proof(
    transfer_data: &TransactionData,
    is_valid: bool,
    timestamp: u64,
    proof_path: Option<String>,
    total_time: u64,
    proof_size: usize,
    verification_time: u64,
) -> (proof: TransactionProof)
    ensures
        records(
            proof,
            *transfer_data,
            is_valid,
            timestamp,
            "zisk"@,
            total_time,
            proof_size,
            ZISK_EXAMPLE_CONSTRAINTS,
            verification_time,
        ),
        proof.proof_path == proof_path,
{
    TransactionProof {
        transfer_id: transfer_data.transfer_id,
        block_number: transfer_data.block_number,
        inclusion_proof_hash: generate_inclusion_hash(transfer_data),
        is_valid,
        timestamp,
        proof_path,
        proof_type: String::from_str("zisk"),
        generation_time_ms: total_time,
        proof_size_bytes: proof_size,
        circuit_constraints: ZISK_EXAMPLE_CONSTRAINTS,
        verification_time_ms: Some(verification_time),
    }
}

/// Completes the record of a ZisK proof with the whole generation time, the
/// size of its proof file and the estimated constraint count, leaving the
/// rest as it was.
pub fn finish_zisk_proof(proof: TransactionProof, total_time: u64, proof_size: usize) -> (done:
    TransactionProof)
    ensures
        done == (TransactionProof {
            generation_time_ms: total_time,
            proof_size_bytes: proof_size,
            circuit_constraints: 2048,
            ..proof
        }),
{
    let mut done = proof;
    done.generation_time_ms = total_time;
    done.proof_size_bytes = proof_size;
    done.circuit_constraints = estimate_circuit_constraints();
    done
}

/// The opening of the analysis report of a proof record: its details.
pub open spec fn analysis_head(proof: TransactionProof) -> Seq<(LogLevel, Seq<char>)> {
    seq![
        info(""@),
        info("╭─────────────────────────────────────────────────────────────╮"@),
        info("│                🔍 ZK PROOF ANALYSIS                         │"@),
        info("╰─────────────────────────────────────────────────────────────╯"@),
        info(""@),
        info("📋 PROOF DETAILS:"@),
        info("🎯 Transfer ID: "@ + decimal_text(proof.transfer_id as nat)),
        info("📦 Block Number: "@ + decimal_text(proof.block_number as nat)),
        info("🔐 Proof Type: "@ + proof.proof_type@),
        info("✅ Valid: "@ + (if proof.is_valid { "YES"@ } else { "NO"@ })),
        info("⏱️  Generation Time: "@ + decimal_text(proof.generation_time_ms as nat) + "ms"@),
        info("💾 Proof Size: "@ + decimal_text(proof.proof_size_bytes as nat) + " bytes"@),
    ]
}

/// The line of the analysis report naming the proof file, where the record
/// holds one.
pub open spec fn analysis_file_lines(proof: TransactionProof) -> Seq<(LogLevel, Seq<char>)> {
    match proof.proof_path {
        Some(path) => seq![info("📁 Proof File: "@ + path@)],
        None => Seq::empty(),
    }
}

/// The note of the analysis report on what a ZisK or a simulated proof
/// guarantees (nothing for other types).
pub open spec fn analysis_note_lines(proof_type: Seq<char>) -> Seq<(LogLevel, Seq<char>)> {
    if proof_type == "zisk"@ {
        seq![
            info(""@),
            info("✅ REAL ZISK PROOF GENERATED:"@),
            info("   • Cryptographically secure zero-knowledge proof"@),
            info("   • Proves transfer_id validity without revealing data"@),
            info("   • Generated using cargo-zisk toolchain"@),
            info("   • Verifiable by anyone with the proof file"@),
        ]
    } else if proof_type == "simulated"@ {
        seq![
            info(""@),
            warn("⚠️  SIMULATED PROOF (for demonstration):"@),
            warn("   • No cryptographic guarantees"@),
            warn("   • Install cargo-zisk for real proofs"@),
            warn("   • Follow: https://github.com/0xPolygonHermez/zisk"@),
        ]
    } else {
        Seq::empty()
    }
}

/// The closing banner of the analysis report.
pub open spec fn analysis_tail() -> Seq<(LogLevel, Seq<char>)> {
    seq![
        info(""@),
        info("╭─────────────────────────────────────────────────────────────╮"@),
        info("│  ZK proof generation complete. Use for verification!        │"@),
        info("╰─────────────────────────────────────────────────────────────╯"@),
    ]
}

/// The lines of the analysis report of a proof record: its details, a note
/// on what a ZisK or a simulated proof guarantees, and a closing banner.
pub open spec fn proof_analysis_lines(proof: TransactionProof) -> Seq<(LogLevel, Seq<char>)> {
    analysis_head(proof) + analysis_file_lines(proof) + analysis_note_lines(proof.proof_type@)
        + analysis_tail()
}

/// The analysis report of a proof record, as lines to log: the transfer id,
/// block number, proof type, validity, generation time and size, the proof
/// file if there is one, and for a `zisk` or `simulated` proof a note on
/// what it guarantees.
pub fn display_detailed_proof_analysis(proof: &TransactionProof) -> (lines: Vec<LogLine>)
    ensures
        lines_view(lines@) == proof_analysis_lines(*proof),
{
    let mut lines: Vec<LogLine> = Vec::new();
    push_line(&mut lines, line_of(LogLevel::Info, ""));
    push_line(&mut lines, line_of(LogLevel::Info, "╭─────────────────────────────────────────────────────────────╮"));
    push_line(&mut lines, line_of(LogLevel::Info, "│                🔍 ZK PROOF ANALYSIS                         │"));
    push_line(&mut lines, line_of(LogLevel::Info, "╰─────────────────────────────────────────────────────────────╯"));
    push_line(&mut lines, line_of(LogLevel::Info, ""));
    push_line(&mut lines, line_of(LogLevel::Info, "📋 PROOF DETAILS:"));
    push_line(&mut lines, number_line(LogLevel::Info, "🎯 Transfer ID: ", proof.transfer_id, ""));
    push_line(&mut lines, number_line(LogLevel::Info, "📦 Block Number: ", proof.block_number as u128, ""));
    push_line(&mut lines, joined_line(LogLevel::Info, "🔐 Proof Type: ", proof.proof_type.as_str()));
    push_line(&mut lines, joined_line(LogLevel::Info, "✅ Valid: ", if proof.is_valid { "YES" } else { "NO" }));
    push_line(&mut lines, number_line(LogLevel::Info, "⏱️  Generation Time: ", proof.generation_time_ms as u128, "ms"));
    push_line(&mut lines, number_line(LogLevel::Info, "💾 Proof Size: ", proof.proof_size_bytes as u128, " bytes"));
    proof {
        reveal_strlit("");
    }
    assert(""@ =~= Seq::<char>::empty());
    match &proof.proof_path {
        Some(path) => {
            push_line(&mut lines, joined_line(LogLevel::Info, "📁 Proof File: ", path.as_str()));
        },
        None => {},
    }
    let zisk = String::from_str("zisk");
    let simulated = String::from_str("simulated");
    if proof.proof_type == zisk {
        push_line(&mut lines, line_of(LogLevel::Info, ""));
        push_line(&mut lines, line_of(LogLevel::Info, "✅ REAL ZISK PROOF GENERATED:"));
        push_line(&mut lines, line_of(LogLevel::Info, "   • Cryptographically secure zero-knowledge proof"));
        push_line(&mut lines, line_of(LogLevel::Info, "   • Proves transfer_id validity without revealing data"));
        push_line(&mut lines, line_of(LogLevel::Info, "   • Generated using cargo-zisk toolchain"));
        push_line(&mut lines, line_of(LogLevel::Info, "   • Verifiable by anyone with the proof file"));
    } else if proof.proof_type == simulated {
        push_line(&mut lines, line_of(LogLevel::Info, ""));
        push_line(&mut lines, line_of(LogLevel::Warn, "⚠️  SIMULATED PROOF (for demonstration):"));
        push_line(&mut lines, line_of(LogLevel::Warn, "   • No cryptographic guarantees"));
        push_line(&mut lines, line_of(LogLevel::Warn, "   • Install cargo-zisk for real proofs"));
        push_line(&mut lines, line_of(LogLevel::Warn, "   • Follow: https://github.com/0xPolygonHermez/zisk"));
    }
    push_line(&mut lines, line_of(LogLevel::Info, ""));
    push_line(&mut lines, line_of(LogLevel::Info, "╭─────────────────────────────────────────────────────────────╮"));
    push_line(&mut lines, line_of(LogLevel::Info, "│  ZK proof generation complete. Use for verification!        │"));
    push_line(&mut lines, line_of(LogLevel::Info, "╰─────────────────────────────────────────────────────────────╯"));
    assert(lines_view(lines@) =~= proof_analysis_lines(*proof));
    lines
}

/// Whether the ledger transfer `stored` holds what `plan` stores: its id,
/// accounts and amount, the block number as 128-bit user data and the gas
/// as 64-bit user data.
pub open spec fn stored_as_planned(plan: TransferPlan, stored: StoredTransfer) -> bool {
    &&& stored.id == plan.transfer_id
    &&& stored.debit_account_id == plan.debit_account_id
    &&& stored.credit_account_id == plan.credit_account_id
    &&& stored.amount == plan.amount
    &&& stored.user_data_128 == plan.block_number
    &&& stored.user_data_64 == plan.gas_used
}

/// A transfer that the sync stored is read back by the prover as the
/// transaction it came from: the block number and the index in the block
/// come back, and so do the accounts of the sender and the recipient and
/// the amount.
pub proof fn lemma_prover_reads_back_synced_transfer(
    block_number: u64,
    tx_index: usize,
    tx: EthTransaction,
    plan: TransferPlan,
    stored: StoredTransfer,
    data: TransactionData,
)
    requires
        tx_index < 1000000,
        is_plan_for(block_number, tx_index, tx, plan),
        stored_as_planned(plan, stored),
        is_fetched_data(plan.transfer_id, stored, data),
    ensures
        data.transfer_id == transfer_id_for(block_number, tx_index),
        data.block_number == block_number,
        data.tx_index == tx_index,
        data.from_account == account_id_of_text(tx.from@),
        match tx.to {
            Some(addr) => data.to_account == account_id_of_text(addr@),
            None => data.to_account == 0,
        },
        data.amount == tx_value(tx),
{
    lemma_transfer_id_encodes_block_and_index(block_number, tx_index);
}

/// Whether a line of an analysis report names a proof file: it begins
/// with `📁`.
spec fn names_analysis_file(line: (LogLevel, Seq<char>)) -> bool {
    char_at(line.1, 0, '📁')
}

/// Whether a line of an analysis report states the validity: `✅` first and
/// `V` third, as in `✅ Valid: `.
spec fn states_analysis_validity(line: (LogLevel, Seq<char>)) -> bool {
    char_at(line.1, 0, '✅') && char_at(line.1, 2, 'V')
}

/// Whether a line of an analysis report announces a real ZisK proof: `✅`
/// first and `R` third.
spec fn announces_zisk(line: (LogLevel, Seq<char>)) -> bool {
    char_at(line.1, 0, '✅') && char_at(line.1, 2, 'R')
}

proof fn lemma_analysis_head_lines(proof: TransactionProof)
    ensures
        forall|j: int|
            0 <= j < analysis_head(proof).len() ==> {
                let line = #[trigger] analysis_head(proof)[j];
                &&& line.0 == LogLevel::Info
                &&& !names_analysis_file(line)
                &&& !announces_zisk(line)
                &&& (states_analysis_validity(line) ==> j == 9)
            },
{
    reveal_strlit("");
    reveal_strlit("╭─────────────────────────────────────────────────────────────╮");
    reveal_strlit("│                🔍 ZK PROOF ANALYSIS                         │");
    reveal_strlit("╰─────────────────────────────────────────────────────────────╯");
    reveal_strlit("📋 PROOF DETAILS:");
    reveal_strlit("🎯 Transfer ID: ");
    reveal_strlit("📦 Block Number: ");
    reveal_strlit("🔐 Proof Type: ");
    reveal_strlit("✅ Valid: ");
    reveal_strlit("⏱️  Generation Time: ");
    reveal_strlit("💾 Proof Size: ");
    let h = analysis_head(proof);
    assert forall|j: int| 0 <= j < h.len() implies {
        let line = #[trigger] h[j];
        &&& line.0 == LogLevel::Info
        &&& !names_analysis_file(line)
        &&& !announces_zisk(line)
        &&& (states_analysis_validity(line) ==> j == 9)
    } by {
        if j == 0 {
        } else if j == 1 {
        } else if j == 2 {
        } else if j == 3 {
        } else if j == 4 {
        } else if j == 5 {
        } else if j == 6 {
        } else if j == 7 {
        } else if j == 8 {
        } else if j == 9 {
        } else if j == 10 {
        } else if j == 11 {
        }
    }
}

proof fn lemma_analysis_note_lines(proof_type: Seq<char>)
    ensures
        forall|j: int|
            0 <= j < analysis_note_lines(proof_type).len() ==> {
                let line = #[trigger] analysis_note_lines(proof_type)[j];
                &&& !names_analysis_file(line)
                &&& !states_analysis_validity(line)
                &&& (announces_zisk(line) ==> proof_type == "zisk"@)
                &&& (line.0 == LogLevel::Warn ==> proof_type == "simulated"@)
            },
{
    reveal_strlit("");
    reveal_strlit("✅ REAL ZISK PROOF GENERATED:");
    reveal_strlit("   • Cryptographically secure zero-knowledge proof");
    reveal_strlit("   • Proves transfer_id validity without revealing data");
    reveal_strlit("   • Generated using cargo-zisk toolchain");
    reveal_strlit("   • Verifiable by anyone with the proof file");
    reveal_strlit("⚠️  SIMULATED PROOF (for demonstration):");
    reveal_strlit("   • No cryptographic guarantees");
    reveal_strlit("   • Install cargo-zisk for real proofs");
    reveal_strlit("   • Follow: https://github.com/0xPolygonHermez/zisk");
    reveal_strlit("zisk");
    reveal_strlit("simulated");
    let n = analysis_note_lines(proof_type);
    assert forall|j: int| 0 <= j < n.len() implies {
        let line = #[trigger] n[j];
        &&& !names_analysis_file(line)
        &&& !states_analysis_validity(line)
        &&& (announces_zisk(line) ==> proof_type == "zisk"@)
        &&& (line.0 == LogLevel::Warn ==> proof_type == "simulated"@)
    } by {
        if j == 0 {
        } else if j == 1 {
        } else if j == 2 {
        } else if j == 3 {
        } else if j == 4 {
        } else if j == 5 {
        }
    }
}

proof fn lemma_analysis_tail_lines()
    ensures
        forall|j: int|
            0 <= j < analysis_tail().len() ==> {
                let line = #[trigger] analysis_tail()[j];
                &&& line.0 == LogLevel::Info
                &&& !names_analysis_file(line)
                &&& !states_analysis_validity(line)
                &&& !announces_zisk(line)
            },
{
    reveal_strlit("");
    reveal_strlit("╭─────────────────────────────────────────────────────────────╮");
    reveal_strlit("│  ZK proof generation complete. Use for verification!        │");
    reveal_strlit("╰─────────────────────────────────────────────────────────────╯");
    let t = analysis_tail();
    assert forall|j: int| 0 <= j < t.len() implies {
        let line = #[trigger] t[j];
        &&& line.0 == LogLevel::Info
        &&& !names_analysis_file(line)
        &&& !states_analysis_validity(line)
        &&& !announces_zisk(line)
    } by {
        if j == 0 {
        } else if j == 1 {
        } else if j == 2 {
        } else if j == 3 {
        }
    }
}

/// What the analysis report shows of a proof record, for every record: its
/// type; `YES` exactly for a valid proof and `NO` exactly for an invalid
/// one; a proof-file line exactly for the file that the record names, and
/// none where it names none; the real-ZisK note exactly for a `zisk` proof;
/// and the simulated-proof warning exactly for a `simulated` one (neither
/// for other types).
pub proof fn lemma_proof_analysis_contents(proof: TransactionProof)
    ensures
        proof_analysis_lines(proof).contains(info("🔐 Proof Type: "@ + proof.proof_type@)),
        proof_analysis_lines(proof).contains(info("✅ Valid: "@ + "YES"@)) <==> proof.is_valid,
        proof_analysis_lines(proof).contains(info("✅ Valid: "@ + "NO"@)) <==> !proof.is_valid,
        forall|path: Seq<char>|
            #[trigger] proof_analysis_lines(proof).contains(info("📁 Proof File: "@ + path)) <==> (
            proof.proof_path matches Some(p) && p@ == path),
        proof_analysis_lines(proof).contains(info("✅ REAL ZISK PROOF GENERATED:"@)) <==> proof.proof_type@
            == "zisk"@,
        proof_analysis_lines(proof).contains(warn("⚠️  SIMULATED PROOF (for demonstration):"@))
            <==> proof.proof_type@ == "simulated"@,
{
    reveal_strlit("🔐 Proof Type: ");
    reveal_strlit("✅ Valid: ");
    reveal_strlit("YES");
    reveal_strlit("NO");
    reveal_strlit("📁 Proof File: ");
    reveal_strlit("✅ REAL ZISK PROOF GENERATED:");
    reveal_strlit("⚠️  SIMULATED PROOF (for demonstration):");
    reveal_strlit("zisk");
    reveal_strlit("simulated");
    let h = analysis_head(proof);
    let f = analysis_file_lines(proof);
    let n = analysis_note_lines(proof.proof_type@);
    let t = analysis_tail();
    let lines = proof_analysis_lines(proof);
    lemma_analysis_head_lines(proof);
    lemma_analysis_note_lines(proof.proof_type@);
    lemma_analysis_tail_lines();
    assert forall|x: (LogLevel, Seq<char>)|
        lines.contains(x) <==> (h.contains(x) || f.contains(x) || n.contains(x) || t.contains(x)) by {
        lemma_lines_contains_concat(h, f, x);
        lemma_lines_contains_concat(h + f, n, x);
        lemma_lines_contains_concat(h + f + n, t, x);
    }
    // The proof type.
    assert(h[8] == info("🔐 Proof Type: "@ + proof.proof_type@));
    assert(h.contains(h[8]));
    // The proof file.
    assert forall|path: Seq<char>|
        #[trigger] lines.contains(info("📁 Proof File: "@ + path)) <==> (proof.proof_path matches Some(
            p,
        ) && p@ == path) by {
        let x = info("📁 Proof File: "@ + path);
        assert(("📁 Proof File: "@ + path)[0] == '📁');
        assert(names_analysis_file(x));
        let files = |l: (LogLevel, Seq<char>)| names_analysis_file(l);
        lemma_line_absent(h, files, x);
        lemma_line_absent(n, files, x);
        lemma_line_absent(t, files, x);
        match proof.proof_path {
            Some(p) => {
                assert(f[0] == info("📁 Proof File: "@ + p@));
                if f.contains(x) {
                    let i = choose|i: int| 0 <= i < f.len() && f[i] == x;
                    assert(("📁 Proof File: "@ + p@).skip(14) =~= p@);
                    assert(("📁 Proof File: "@ + path).skip(14) =~= path);
                }
                if p@ == path {
                    assert(f.contains(x));
                }
            },
            None => {
                assert(!f.contains(x));
            },
        }
    }
    // The validity.
    let yes = info("✅ Valid: "@ + "YES"@);
    let no = info("✅ Valid: "@ + "NO"@);
    assert(("✅ Valid: "@ + "YES"@)[9] == 'Y');
    assert(("✅ Valid: "@ + "NO"@)[9] == 'N');
    assert(yes != no);
    assert(("✅ Valid: "@ + "YES"@)[0] == '✅' && ("✅ Valid: "@ + "YES"@)[2] == 'V');
    assert(("✅ Valid: "@ + "NO"@)[0] == '✅' && ("✅ Valid: "@ + "NO"@)[2] == 'V');
    let valids = |l: (LogLevel, Seq<char>)| states_analysis_validity(l);
    assert(valids(yes) && valids(no));
    assert forall|j: int| 0 <= j < f.len() implies !valids(#[trigger] f[j]) by {
        reveal_strlit("📁 Proof File: ");
    }
    lemma_line_absent(f, valids, yes);
    lemma_line_absent(n, valids, yes);
    lemma_line_absent(t, valids, yes);
    lemma_line_absent(f, valids, no);
    lemma_line_absent(n, valids, no);
    lemma_line_absent(t, valids, no);
    assert(h.contains(h[9]));
    let other = if proof.is_valid { no } else { yes };
    assert(h[9] != other);
    assert forall|j: int| 0 <= j < h.len() implies h[j] != other by {
        if j != 9 {
            assert(!states_analysis_validity(h[j]));
        }
    }
    let is_other = |l: (LogLevel, Seq<char>)| l == other;
    lemma_line_absent(h, is_other, other);
    // The real-ZisK note.
    let zisk_note = info("✅ REAL ZISK PROOF GENERATED:"@);
    if proof.proof_type@ == "zisk"@ {
        assert(n[1] == zisk_note);
        assert(n.contains(zisk_note));
    } else {
        assert(announces_zisk(zisk_note));
        let zisks = |l: (LogLevel, Seq<char>)| announces_zisk(l);
        assert forall|j: int| 0 <= j < f.len() implies !zisks(#[trigger] f[j]) by {
            reveal_strlit("📁 Proof File: ");
        }
        lemma_line_absent(h, zisks, zisk_note);
        lemma_line_absent(f, zisks, zisk_note);
        lemma_line_absent(n, zisks, zisk_note);
        lemma_line_absent(t, zisks, zisk_note);
    }
    // The simulated-proof warning.
    let sim_note = warn("⚠️  SIMULATED PROOF (for demonstration):"@);
    if proof.proof_type@ == "simulated"@ {
        assert("simulated"@.len() != "zisk"@.len());
        assert(n[1] == sim_note);
        assert(n.contains(sim_note));
    } else {
        let warns = |l: (LogLevel, Seq<char>)| l.0 == LogLevel::Warn;
        assert forall|j: int| 0 <= j < f.len() implies !warns(#[trigger] f[j]) by {}
        lemma_line_absent(h, warns, sim_note);
        lemma_line_absent(f, warns, sim_note);
        lemma_line_absent(n, warns, sim_note);
        lemma_line_absent(t, warns, sim_note);
    }
}

} // verus!
