//! The rules of the SP1 guest program: it validates a transfer and commits
//! the verdict and the transfer id as public values.
use vstd::prelude::*;
use crate::bytes::{
    le_bytes,
    le_value,
    lemma_le_bytes_len,
    lemma_le_roundtrip,
    lemma_le_value_bound,
    lemma_pow256_values,
    u128_from_le_slice,
};
use crate::zisk_circuit::{
    TRANSFER_ID_RANGE_END,
    TRANSFER_ID_RANGE_START,
    transfer_id_violation,
};

verus! {

/// The transfer that the SP1 guest program reads from its input.
#[derive(Debug, Clone, Copy)]
pub struct TransactionData {
    pub transfer_id: u128,
    pub block_number: u64,
    pub from_account: u128,
    pub to_account: u128,
    pub amount: u128,
}

/// Whether the guest program judges a transfer valid: a positive transfer
/// id in the accepted range and a positive amount.
pub open spec fn is_valid_transfer(tx: TransactionData) -> bool {
    &&& tx.transfer_id > 0
    &&& tx.transfer_id >= TRANSFER_ID_RANGE_START
    &&& tx.transfer_id < TRANSFER_ID_RANGE_END
    &&& tx.amount > 0
}

/// The public values that the guest program commits, in order: the verdict
/// as a 32-bit word (1 valid, 0 not) and the low 64 bits of the transfer id.
pub open spec fn committed_values(tx: TransactionData) -> (u32, u64) {
    (if is_valid_transfer(tx) {
        1u32
    } else {
        0u32
    }, (tx.transfer_id % 0x1_0000_0000_0000_0000) as u64)
}

impl TransactionData {
    /// Whether the guest program judges this transfer valid.
    pub fn is_valid(&self) -> (valid: bool)
        ensures
            valid == is_valid_transfer(*self),
    {
        self.transfer_id > 0 && self.transfer_id >= TRANSFER_ID_RANGE_START && self.transfer_id
            < TRANSFER_ID_RANGE_END && self.amount > 0
    }

    /// The public values that the guest program commits for this transfer.
    pub fn public_values(&self) -> (values: (u32, u64))
        ensures
            values == committed_values(*self),
    {
        let verdict: u32 = if self.is_valid() {
            1
        } else {
            0
        };
        (verdict, (self.transfer_id % 0x1_0000_0000_0000_0000) as u64)
    }
}

/// Both guest programs accept the same range of transfer ids: a transfer
/// whose id the ZisK circuit accepts and that carries a positive amount is
/// valid for the SP1 program; the converse fails only for even ids, which
/// the ZisK circuit alone rejects.
pub proof fn lemma_guests_agree_on_range(tx: TransactionData)
    ensures
        transfer_id_violation(tx.transfer_id) is None && tx.amount > 0 ==> is_valid_transfer(tx),
        is_valid_transfer(tx) && tx.transfer_id % 2 == 1 ==> transfer_id_violation(
            tx.transfer_id,
        ) is None,
{
}

/// The number of input bytes that encode a transfer.
pub const INPUT_FRAME_LEN: usize = 72;

/// The input bytes that encode a transfer: its id, block number, sending
/// account, receiving account and amount, each little-endian over its whole
/// width (16, 8, 16, 16 and 16 bytes), the layout of the `bincode` default
/// configuration.
pub open spec fn input_frame(
    transfer_id: u128,
    block_number: u64,
    from_account: u128,
    to_account: u128,
    amount: u128,
) -> Seq<u8> {
    le_bytes(transfer_id as nat, 16) + le_bytes(block_number as nat, 8) + le_bytes(
        from_account as nat,
        16,
    ) + le_bytes(to_account as nat, 16) + le_bytes(amount as nat, 16)
}

/// The transfer that the guest program reads from its input bytes: the
/// fields from the first 72 bytes as `input_frame` lays them out, the rest
/// ignored; `None` for fewer bytes.
pub open spec fn decoded_input(bytes: Seq<u8>) -> Option<TransactionData> {
    if bytes.len() >= 72 {
        Some(
            TransactionData {
                transfer_id: le_value(bytes.subrange(0, 16)) as u128,
                block_number: le_value(bytes.subrange(16, 24)) as u64,
                from_account: le_value(bytes.subrange(24, 40)) as u128,
                to_account: le_value(bytes.subrange(40, 56)) as u128,
                amount: le_value(bytes.subrange(56, 72)) as u128,
            },
        )
    } else {
        None
    }
}

impl TransactionData {
    /// Reads the transfer from the guest program's input bytes; `None`
    /// where there are fewer than 72.
    pub fn decode_input(bytes: &[u8]) -> (decoded: Option<TransactionData>)
        ensures
            decoded == decoded_input(bytes@),
    {
        if bytes.len() < INPUT_FRAME_LEN {
            return None;
        }
        let transfer_id = u128_from_le_slice(bytes, 0, 16);
        let block = u128_from_le_slice(bytes, 16, 8);
        proof {
            lemma_pow256_values();
            lemma_le_value_bound(bytes@.subrange(16, 24));
        }
        let from_account = u128_from_le_slice(bytes, 24, 16);
        let to_account = u128_from_le_slice(bytes, 40, 16);
        let amount = u128_from_le_slice(bytes, 56, 16);
        Some(
            TransactionData {
                transfer_id,
                block_number: block as u64,
                from_account,
                to_account,
                amount,
            },
        )
    }
}

/// The guest program reads back exactly the transfer that the host wrote:
/// decoding the input bytes of a transfer gives its five fields.
pub proof fn lemma_decode_input_frame(
    transfer_id: u128,
    block_number: u64,
    from_account: u128,
    to_account: u128,
    amount: u128,
)
    ensures
        decoded_input(input_frame(transfer_id, block_number, from_account, to_account, amount))
            == Some(
            TransactionData { transfer_id, block_number, from_account, to_account, amount },
        ),
{
    let a = le_bytes(transfer_id as nat, 16);
    let b = le_bytes(block_number as nat, 8);
    let c = le_bytes(from_account as nat, 16);
    let d = le_bytes(to_account as nat, 16);
    let e = le_bytes(amount as nat, 16);
    lemma_pow256_values();
    lemma_le_bytes_len(transfer_id as nat, 16);
    lemma_le_bytes_len(block_number as nat, 8);
    lemma_le_bytes_len(from_account as nat, 16);
    lemma_le_bytes_len(to_account as nat, 16);
    lemma_le_bytes_len(amount as nat, 16);
    lemma_le_roundtrip(transfer_id as nat, 16);
    lemma_le_roundtrip(block_number as nat, 8);
    lemma_le_roundtrip(from_account as nat, 16);
    lemma_le_roundtrip(to_account as nat, 16);
    lemma_le_roundtrip(amount as nat, 16);
    let frame = input_frame(transfer_id, block_number, from_account, to_account, amount);
    assert(frame.subrange(0, 16) =~= a);
    assert(frame.subrange(16, 24) =~= b);
    assert(frame.subrange(24, 40) =~= c);
    assert(frame.subrange(40, 56) =~= d);
    assert(frame.subrange(56, 72) =~= e);
}

/// The SP1 guest program's verdict on a transfer, for every transfer: it is
/// valid exactly when the transfer id is positive and lies in
/// [19000000000000, 20000000000000) and the amount is positive, so a
/// transfer of nothing is never valid whatever its id. The committed public
/// values are the verdict as 1 or 0 and the low 64 bits of the id.
pub proof fn lemma_sp1_verdict(tx: TransactionData)
    ensures
        is_valid_transfer(tx) <==> (0 < tx.transfer_id && 19000000000000 <= tx.transfer_id
            < 20000000000000 && tx.amount > 0),
        tx.amount == 0 ==> !is_valid_transfer(tx),
        committed_values(tx).0 == 1 <==> (0 < tx.transfer_id && 19000000000000 <= tx.transfer_id
            < 20000000000000 && tx.amount > 0),
        committed_values(tx).0 == 0 <==> !(0 < tx.transfer_id && 19000000000000 <= tx.transfer_id
            < 20000000000000 && tx.amount > 0),
        committed_values(tx).1 as nat == tx.transfer_id as nat % 0x1_0000_0000_0000_0000,
{
}

} // verus!
