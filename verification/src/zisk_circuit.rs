//! The rules of the ZisK guest program: it reads a transfer id as sixteen
//! little-endian bytes, checks it against the validity constraints and
//! publishes a verification hash of it.
use vstd::prelude::*;
use crate::bytes::{le_bytes, le_value, lemma_le_bytes_len, lemma_le_roundtrip, lemma_pow256_values, u128_from_le_bytes};

verus! {

/// First transfer id that the circuits accept.
pub const TRANSFER_ID_RANGE_START: u128 = 19000000000000;

/// First transfer id past the range that the circuits accept.
pub const TRANSFER_ID_RANGE_END: u128 = 20000000000000;

/// Number of bytes of the circuit's input.
pub const CIRCUIT_INPUT_LEN: usize = 16;

/// Output word that marks a successful run of the circuit.
pub const CIRCUIT_SUCCESS_FLAG: u32 = 1;

/// Why the ZisK circuit rejects its input; each variant is one of the
/// circuit's assertions, in the order in which it checks them.
#[derive(Debug, Clone, Copy, PartialEq, Eq, Structural)]
pub enum CircuitError {
    /// The input is not exactly sixteen bytes.
    InvalidInputLength,
    /// The transfer id is zero.
    NotPositive,
    /// The transfer id is not below `u128::MAX / 2`.
    TooLarge,
    /// The transfer id is below the accepted range.
    BelowRange,
    /// The transfer id is at or past the end of the accepted range.
    AboveRange,
    /// The transfer id is even.
    NotOdd,
}

impl CircuitError {
    /// The panic message of the circuit's assertion that this error stands for.
    pub fn message(&self) -> (msg: &'static str)
        ensures
            msg@ == self.spec_message(),
    {
        match self {
            CircuitError::InvalidInputLength => "Invalid input length: expected 16 bytes for u128",
            CircuitError::NotPositive => "Transfer ID must be positive",
            CircuitError::TooLarge => "Transfer ID too large",
            CircuitError::BelowRange => "Transfer ID must be in valid range",
            CircuitError::AboveRange => "Transfer ID must be in valid range",
            CircuitError::NotOdd => "Transfer ID must be odd for this demo",
        }
    }

    pub open spec fn spec_message(&self) -> Seq<char> {
        match self {
            CircuitError::InvalidInputLength => "Invalid input length: expected 16 bytes for u128"@,
            CircuitError::NotPositive => "Transfer ID must be positive"@,
            CircuitError::TooLarge => "Transfer ID too large"@,
            CircuitError::BelowRange => "Transfer ID must be in valid range"@,
            CircuitError::AboveRange => "Transfer ID must be in valid range"@,
            CircuitError::NotOdd => "Transfer ID must be odd for this demo"@,
        }
    }
}

/// `2^64`.
pub open spec fn two_pow_64() -> nat {
    0x1_0000_0000_0000_0000
}

/// The verification hash of a transfer id: the sum, modulo `2^64`, of the
/// two 64-bit little-endian halves of its sixteen bytes, with a sum of zero
/// replaced by one.
pub open spec fn verification_hash(transfer_id: u128) -> u64 {
    let low = transfer_id as nat % two_pow_64();
    let high = transfer_id as nat / two_pow_64();
    let sum = (low + high) % two_pow_64();
    if sum == 0 {
        1u64
    } else {
        sum as u64
    }
}

/// The first constraint that `transfer_id` breaks, if any.
pub open spec fn transfer_id_violation(transfer_id: u128) -> Option<CircuitError> {
    if transfer_id == 0 {
        Some(CircuitError::NotPositive)
    } else if transfer_id >= u128::MAX / 2 {
        Some(CircuitError::TooLarge)
    } else if transfer_id < TRANSFER_ID_RANGE_START {
        Some(CircuitError::BelowRange)
    } else if transfer_id >= TRANSFER_ID_RANGE_END {
        Some(CircuitError::AboveRange)
    } else if transfer_id % 2 != 1 {
        Some(CircuitError::NotOdd)
    } else {
        None
    }
}

/// The words that the circuit publishes for an accepted transfer id: the low
/// and high 32 bits of its verification hash, then the success flag.
pub open spec fn circuit_words(transfer_id: u128) -> Seq<u32> {
    let h = verification_hash(transfer_id) as nat;
    seq![(h % 0x1_0000_0000) as u32, (h / 0x1_0000_0000) as u32, 1u32]
}

/// What the circuit does with `input`: the published words, or the first
/// assertion that fails.
pub open spec fn zisk_circuit(input: Seq<u8>) -> Result<Seq<u32>, CircuitError> {
    if input.len() != 16 {
        Err(CircuitError::InvalidInputLength)
    } else {
        let transfer_id = le_value(input) as u128;
        match transfer_id_violation(transfer_id) {
            Some(e) => Err(e),
            None => Ok(circuit_words(transfer_id)),
        }
    }
}

/// Computes the verification hash of a transfer id from the two 64-bit
/// little-endian halves of its bytes, never zero.
pub fn compute_verification_hash(transfer_id: u128) -> (hash: u64)
    ensures
        hash == verification_hash(transfer_id),
        hash != 0,
{
    let low = (transfer_id % 0x1_0000_0000_0000_0000) as u64;
    let high = (transfer_id / 0x1_0000_0000_0000_0000) as u64;
    let mut hash: u64 = low.wrapping_add(high);
    if hash == 0 {
        hash = 1;
    }
    hash
}

/// Checks a transfer id against the circuit's constraints in their order.
pub fn check_transfer_id(transfer_id: u128) -> (violation: Option<CircuitError>)
    ensures
        violation == transfer_id_violation(transfer_id),
{
    if transfer_id == 0 {
        Some(CircuitError::NotPositive)
    } else if transfer_id >= u128::MAX / 2 {
        Some(CircuitError::TooLarge)
    } else if transfer_id < TRANSFER_ID_RANGE_START {
        Some(CircuitError::BelowRange)
    } else if transfer_id >= TRANSFER_ID_RANGE_END {
        Some(CircuitError::AboveRange)
    } else if transfer_id % 2 != 1 {
        Some(CircuitError::NotOdd)
    } else {
        None
    }
}

/// Runs the circuit on its input bytes: the words it publishes, in output
/// slot order, or the assertion that stops it.
pub fn evaluate_zisk_circuit(input: &[u8]) -> (result: Result<Vec<u32>, CircuitError>)
    ensures
        match result {
            Ok(words) => zisk_circuit(input@) == Ok::<Seq<u32>, CircuitError>(words@),
            Err(e) => zisk_circuit(input@) == Err::<Seq<u32>, CircuitError>(e),
        },
{
    if input.len() != CIRCUIT_INPUT_LEN {
        return Err(CircuitError::InvalidInputLength);
    }
    let transfer_id = u128_from_le_bytes(input);
    match check_transfer_id(transfer_id) {
        Some(e) => Err(e),
        None => {
            let hash = compute_verification_hash(transfer_id);
            let mut words: Vec<u32> = Vec::new();
            words.push((hash % 0x1_0000_0000) as u32);
            words.push((hash / 0x1_0000_0000) as u32);
            words.push(CIRCUIT_SUCCESS_FLAG);
            assert(words@ =~= circuit_words(transfer_id));
            Ok(words)
        },
    }
}

/// The circuit accepts the sixteen little-endian bytes of a transfer id
/// exactly when the id is odd and lies in the accepted range, and then
/// publishes its verification hash split into two 32-bit words.
pub proof fn lemma_circuit_accepts_exactly_odd_ids_in_range(transfer_id: u128)
    ensures
        zisk_circuit(le_bytes(transfer_id as nat, 16)) is Ok <==> (TRANSFER_ID_RANGE_START
            <= transfer_id < TRANSFER_ID_RANGE_END && transfer_id % 2 == 1),
        zisk_circuit(le_bytes(transfer_id as nat, 16)) is Ok ==> {
            let words = zisk_circuit(le_bytes(transfer_id as nat, 16))->Ok_0;
            &&& words.len() == 3
            &&& words[0] as nat + 0x1_0000_0000 * (words[1] as nat) == verification_hash(
                transfer_id,
            ) as nat
            &&& words[2] == CIRCUIT_SUCCESS_FLAG
        },
{
    lemma_le_bytes_len(transfer_id as nat, 16);
    lemma_pow256_values();
    lemma_le_roundtrip(transfer_id as nat, 16);
}

} // verus!
