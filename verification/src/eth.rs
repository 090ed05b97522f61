//! Ethereum transactions as the sync reads them, and the ledger transfers
//! and accounts that they become.
use vstd::prelude::*;
use std::collections::hash_map::DefaultHasher;
use std::hash::{Hash, Hasher};
use vstd::string::StringSliceAdditionalSpecFns;
use vstd::utf8::encode_utf8;
use vstd::std_specs::hash::DefaultHasherAdditionalSpecFns;
use crate::bytes::{be_value, lemma_be_value_bound, lemma_pow256_values, pow256, u128_from_be_bytes};
use crate::decimal::{parse_u128, parsed_u128};
use crate::hexcodec::{hex_decode, hex_decoded};

verus! {

/// Factor by which a block number is scaled in a transfer id; the index of
/// the transaction in its block is added to the scaled block number.
pub const TRANSFER_ID_BLOCK_FACTOR: u128 = 1000000;

/// Ledger of every account and transfer that the sync creates.
pub const SYNC_LEDGER: u32 = 1;

/// Code of every account that the sync creates.
pub const SYNC_ACCOUNT_CODE: u16 = 1;

/// Code of every transfer that the sync creates.
pub const SYNC_TRANSFER_CODE: u16 = 1;

/// A transaction of an Ethereum block, with its fields as text.
#[derive(Debug, Clone)]
pub struct EthTransaction {
    pub hash: String,
    pub block_number: u64,
    pub from: String,
    pub to: Option<String>,
    pub value_wei: String,
    pub gas_used: u64,
}

/// `text` without every leading `0x`.
pub open spec fn trim_0x(text: Seq<u8>) -> Seq<u8>
    decreases text.len(),
{
    if text.len() >= 2 && text[0] == 0x30 && text[1] == 0x78 {
        trim_0x(text.subrange(2, text.len() as int))
    } else {
        text
    }
}

/// The id that decoded bytes give when there are at least sixteen of them:
/// the last sixteen read most significant byte first.
pub open spec fn id_from_bytes(decoded: Option<Seq<u8>>) -> Option<u128> {
    match decoded {
        Some(b) => if b.len() >= 16 {
            Some(be_value(b.subrange(b.len() - 16, b.len() as int)) as u128)
        } else {
            None
        },
        None => None,
    }
}

/// The id that the hexadecimal text (after its `0x` prefixes) determines,
/// when it decodes to at least sixteen bytes.
pub open spec fn id_from_hex(text: Seq<u8>) -> Option<u128> {
    id_from_bytes(hex_decoded(trim_0x(text)))
}

/// The writes that hashing the text `text` through `str`'s `Hash` impl makes
/// to a hasher.
pub uninterp spec fn str_hash_writes(text: Seq<char>) -> Seq<Seq<u8>>;

/// The 64-bit `DefaultHasher` hash of a text: what a new hasher finishes
/// with after the text was hashed into it.
pub open spec fn text_hash(text: Seq<char>) -> u64 {
    DefaultHasher::spec_finish(str_hash_writes(text))
}

/// The account id of a text: the id that its hexadecimal determines, or
/// else the 64-bit hash of the text.
pub open spec fn account_id_of_text(text: Seq<char>) -> u128 {
    match id_from_hex(encode_utf8(text)) {
        Some(v) => v,
        None => text_hash(text) as u128,
    }
}

/// The amount in wei that a transaction carries (zero where its text is
/// not a `u128`).
pub open spec fn tx_value(tx: EthTransaction) -> u128 {
    match parsed_u128(tx.value_wei@) {
        Some(v) => v,
        None => 0,
    }
}

/// The transfer id of the transaction at `tx_index` in block `block_number`.
pub open spec fn transfer_id_for(block_number: u64, tx_index: usize) -> u128 {
    (block_number * TRANSFER_ID_BLOCK_FACTOR + tx_index) as u128
}

/// A transfer id keeps its block number and transaction index: dividing it
/// by a million gives the block number back and the remainder gives the
/// index back, for every index below a million.
pub proof fn lemma_transfer_id_encodes_block_and_index(block_number: u64, tx_index: usize)
    requires
        tx_index < 1000000,
    ensures
        transfer_id_for(block_number, tx_index) / 1000000 == block_number,
        transfer_id_for(block_number, tx_index) % 1000000 == tx_index,
        transfer_id_for(block_number, tx_index) as nat == block_number * 1000000 + tx_index,
{
    assert(block_number * 1000000 + tx_index <= u128::MAX) by (nonlinear_arith)
        requires
            block_number <= u64::MAX,
            tx_index < 1000000,
    ;
}

/// The last sixteen bytes of a big-endian number are the number modulo
/// `2^128`: an account id is the address modulo `2^128`.
pub proof fn lemma_last_sixteen_bytes_are_low_bits(s: Seq<u8>)
    requires
        s.len() >= 16,
    ensures
        be_value(s.subrange(s.len() - 16, s.len() as int)) == be_value(s) % pow256(16),
    decreases s.len(),
{
    lemma_pow256_values();
    if s.len() == 16 {
        assert(s.subrange(0, 16) =~= s);
        lemma_be_value_bound(s);
    } else {
        let t = s.drop_last();
        lemma_last_sixteen_bytes_are_low_bits(t);
        lemma_be_suffix_split(s, 16);
    }
}

/// A big-endian number splits into the number its prefix writes, scaled,
/// and the number its last `k` bytes write.
proof fn lemma_be_suffix_split(s: Seq<u8>, k: nat)
    requires
        k <= s.len(),
    ensures
        be_value(s) == be_value(s.subrange(0, s.len() - k)) * pow256(k) + be_value(
            s.subrange(s.len() - k, s.len() as int),
        ),
        be_value(s.subrange(s.len() - k, s.len() as int)) < pow256(k),
    decreases k,
{
    let tail = s.subrange(s.len() - k, s.len() as int);
    lemma_be_value_bound(tail);
    if k == 0 {
        assert(s.subrange(0, s.len() as int) =~= s);
        assert(tail =~= Seq::<u8>::empty());
    } else {
        let t = s.drop_last();
        lemma_be_suffix_split(t, (k - 1) as nat);
        let head = t.subrange(0, t.len() - (k - 1));
        let t_tail = t.subrange(t.len() - (k - 1), t.len() as int);
        assert(head =~= s.subrange(0, s.len() - k));
        assert(tail.drop_last() =~= t_tail);
        assert(tail.last() == s.last());
        let a = be_value(head);
        let b = be_value(t_tail);
        let p = pow256((k - 1) as nat);
        let c = s.last() as nat;
        assert(be_value(s) == (a * p + b) * 256 + c);
        assert(be_value(tail) == b * 256 + c);
        assert((a * p + b) * 256 + c == a * (256 * p) + (b * 256 + c)) by (nonlinear_arith);
    }
}

/// Feeds `text` to `hasher` through `str`'s `Hash` impl. Hashing only writes
/// to the hasher, and what it writes depends on the text alone: the
/// hasher's record of writes grows by the writes named `str_hash_writes`.
#[verifier::external_body]
fn hash_text_into(text: &str, hasher: &mut DefaultHasher)
    ensures
        final(hasher)@ == old(hasher)@ + str_hash_writes(text@),
{
    text.hash(hasher);
}

/// The 64-bit `DefaultHasher` hash of `text`.
fn default_text_hash(text: &str) -> (hash: u64)
    ensures
        hash == text_hash(text@),
{
    let mut hasher = DefaultHasher::new();
    hash_text_into(text, &mut hasher);
    assert(hasher@ =~= str_hash_writes(text@));
    hasher.finish()
}

/// `text` without every leading `0x`, as bytes.
fn trim_0x_bytes(text: &[u8]) -> (trimmed: Vec<u8>)
    ensures
        trimmed@ == trim_0x(text@),
{
    let mut start: usize = 0;
    assert(text@.subrange(0, text@.len() as int) =~= text@);
    while text.len() >= 2 && start <= text.len() - 2 && text[start] == 0x30 && text[start + 1] == 0x78
        invariant
            start <= text@.len(),
            trim_0x(text@) == trim_0x(text@.subrange(start as int, text@.len() as int)),
        decreases text@.len() - start,
    {
        let ghost rest = text@.subrange(start as int, text@.len() as int);
        assert(rest.subrange(2, rest.len() as int) =~= text@.subrange(
            start + 2,
            text@.len() as int,
        ));
        start = start + 2;
    }
    let mut trimmed: Vec<u8> = Vec::new();
    let mut i: usize = start;
    while i < text.len()
        invariant
            start <= i <= text@.len(),
            trimmed@ =~= text@.subrange(start as int, i as int),
        decreases text@.len() - i,
    {
        trimmed.push(text[i]);
        i = i + 1;
    }
    trimmed
}

/// The id that decoded hexadecimal gives, or `fallback` when the text did
/// not decode to at least sixteen bytes.
pub fn id_from_decoded(decoded: Option<Vec<u8>>, fallback: u64) -> (id: u128)
    ensures
        id == match id_from_bytes(
            match decoded {
                Some(v) => Some(v@),
                None => None,
            },
        ) {
            Some(v) => v,
            None => fallback as u128,
        },
{
    match decoded {
        Some(bytes) => {
            if bytes.len() >= 16 {
                let mut last: Vec<u8> = Vec::new();
                let mut i: usize = bytes.len() - 16;
                while i < bytes.len()
                    invariant
                        bytes@.len() >= 16,
                        bytes@.len() - 16 <= i <= bytes@.len(),
                        last@ =~= bytes@.subrange(bytes@.len() - 16, i as int),
                    decreases bytes@.len() - i,
                {
                    last.push(bytes[i]);
                    i = i + 1;
                }
                u128_from_be_bytes(last.as_slice())
            } else {
                fallback as u128
            }
        },
        None => fallback as u128,
    }
}

/// Converts an Ethereum address (or other `0x` hexadecimal text) to a
/// ledger account id: the last sixteen of the bytes that the hexadecimal
/// decodes to, most significant first; when it decodes to fewer bytes, or
/// not at all, the 64-bit `DefaultHasher` hash of the whole text.
pub fn address_to_account_id(address: &str) -> (id: u128)
    ensures
        id == account_id_of_text(address@),
{
    let trimmed = trim_0x_bytes(address.as_bytes());
    let decoded = hex_decode(trimmed.as_slice());
    let decodes_to_id = match &decoded {
        Some(bytes) => bytes.len() >= 16,
        None => false,
    };
    if decodes_to_id {
        id_from_decoded(decoded, 0)
    } else {
        let fallback = default_text_hash(address);
        id_from_decoded(decoded, fallback)
    }
}

impl EthTransaction {
    /// The transaction hash as a 128-bit id, converted as an address is.
    pub fn hash_to_u128(&self) -> (id: u128)
        ensures
            id == account_id_of_text(self.hash@),
    {
        address_to_account_id(self.hash.as_str())
    }

    /// The account id of an address, as `address_to_account_id` converts it.
    pub fn address_to_u128(&self, addr: &str) -> (id: u128)
        ensures
            id == account_id_of_text(addr@),
    {
        address_to_account_id(addr)
    }

    /// The account id of the sender.
    pub fn from_address_to_u128(&self) -> (id: u128)
        ensures
            id == account_id_of_text(self.from@),
    {
        self.address_to_u128(self.from.as_str())
    }

    /// The account id of the recipient; zero when there is none (a
    /// contract creation).
    pub fn to_address_to_u128(&self) -> (id: u128)
        ensures
            match self.to {
                Some(addr) => id == account_id_of_text(addr@),
                None => id == 0,
            },
    {
        match &self.to {
            Some(addr) => self.address_to_u128(addr.as_str()),
            None => 0,
        }
    }

    /// The amount in wei; zero where the text is not a `u128`.
    pub fn value_to_u128(&self) -> (value: u128)
        ensures
            value == tx_value(*self),
    {
        match parse_u128(self.value_wei.as_str()) {
            Some(v) => v,
            None => 0,
        }
    }
}

/// The ledger operations that store one Ethereum transaction: the accounts
/// to create first (those of its nonzero ids) and the transfer to create.
#[derive(Debug, Clone)]
pub struct TransferPlan {
    pub transfer_id: u128,
    pub debit_account_id: u128,
    pub credit_account_id: u128,
    pub amount: u128,
    pub block_number: u128,
    pub gas_used: u64,
    pub ledger: u32,
    pub code: u16,
    pub accounts_to_create: Vec<u128>,
}

/// The accounts that storing a transfer between `debit` and `credit`
/// creates, in that order, leaving out the id zero.
pub open spec fn accounts_for(debit: u128, credit: u128) -> Seq<u128> {
    (if debit != 0 {
        seq![debit]
    } else {
        Seq::<u128>::empty()
    }) + (if credit != 0 {
        seq![credit]
    } else {
        Seq::<u128>::empty()
    })
}

/// Whether `plan` stores the transaction `tx` found at `tx_index` of block
/// `block_number`.
pub open spec fn is_plan_for(
    block_number: u64,
    tx_index: usize,
    tx: EthTransaction,
    plan: TransferPlan,
) -> bool {
    &&& plan.transfer_id == transfer_id_for(block_number, tx_index)
    &&& plan.debit_account_id == account_id_of_text(tx.from@)
    &&& match tx.to {
        Some(addr) => plan.credit_account_id == account_id_of_text(addr@),
        None => plan.credit_account_id == 0,
    }
    &&& plan.amount == tx_value(tx)
    &&& plan.block_number == block_number as u128
    &&& plan.gas_used == tx.gas_used
    &&& plan.ledger == SYNC_LEDGER
    &&& plan.code == SYNC_TRANSFER_CODE
    &&& plan.accounts_to_create@ == accounts_for(plan.debit_account_id, plan.credit_account_id)
}

/// Decides how the transaction at `tx_index` of block `block_number` is
/// stored: not at all when it carries no value, else as a transfer whose id
/// is the block number times a million plus the index, between the
/// accounts of its sender and recipient.
pub fn plan_transfer(block_number: u64, tx_index: usize, eth_tx: &EthTransaction) -> (plan:
    Option<TransferPlan>)
    ensures
        plan is None <==> tx_value(*eth_tx) == 0,
        match plan {
            Some(p) => is_plan_for(block_number, tx_index, *eth_tx, p),
            None => true,
        },
{
    let amount = eth_tx.value_to_u128();
    if amount == 0 {
        return None;
    }
    let transfer_id = (block_number as u128) * TRANSFER_ID_BLOCK_FACTOR + (tx_index as u128);
    let from_account = eth_tx.from_address_to_u128();
    let to_account = eth_tx.to_address_to_u128();
    let mut accounts_to_create: Vec<u128> = Vec::new();
    if from_account != 0 {
        accounts_to_create.push(from_account);
    }
    if to_account != 0 {
        accounts_to_create.push(to_account);
    }
    assert(accounts_to_create@ =~= accounts_for(from_account, to_account));
    Some(
        TransferPlan {
            transfer_id,
            debit_account_id: from_account,
            credit_account_id: to_account,
            amount,
            block_number: block_number as u128,
            gas_used: eth_tx.gas_used,
            ledger: SYNC_LEDGER,
            code: SYNC_TRANSFER_CODE,
            accounts_to_create,
        },
    )
}

/// The indices, among the first `n` transactions, of those that carry value.
pub open spec fn value_tx_indices(txs: Seq<EthTransaction>, n: int) -> Seq<usize>
    decreases n,
{
    if n <= 0 {
        Seq::empty()
    } else if tx_value(txs[n - 1]) != 0 {
        value_tx_indices(txs, n - 1).push((n - 1) as usize)
    } else {
        value_tx_indices(txs, n - 1)
    }
}

/// Decides how the transactions of one block are stored: one transfer for
/// each transaction that carries value, in block order.
pub fn plan_block_transfers(block_number: u64, txs: &Vec<EthTransaction>) -> (plans: Vec<
    TransferPlan,
>)
    ensures
        plans@.len() == value_tx_indices(txs@, txs@.len() as int).len(),
        forall|k: int|
            0 <= k < plans@.len() ==> {
                let i = #[trigger] value_tx_indices(txs@, txs@.len() as int)[k];
                &&& i < txs@.len()
                &&& is_plan_for(block_number, i, txs@[i as int], plans@[k])
            },
{
    let mut plans: Vec<TransferPlan> = Vec::new();
    let mut i: usize = 0;
    while i < txs.len()
        invariant
            i <= txs@.len(),
            plans@.len() == value_tx_indices(txs@, i as int).len(),
            forall|k: int|
                0 <= k < plans@.len() ==> {
                    let j = #[trigger] value_tx_indices(txs@, i as int)[k];
                    &&& j < i
                    &&& is_plan_for(block_number, j, txs@[j as int], plans@[k])
                },
        decreases txs@.len() - i,
    {
        let planned = plan_transfer(block_number, i, &txs[i]);
        match planned {
            Some(p) => {
                plans.push(p);
            },
            None => {},
        }
        i = i + 1;
    }
    plans
}

/// Every transaction that carries value becomes a transfer, and no other:
/// a block of `n` transactions is stored as exactly as many transfers as
/// it has transactions with a nonzero amount.
pub proof fn lemma_stored_transfers_are_value_transactions(txs: Seq<EthTransaction>, n: int)
    requires
        0 <= n <= txs.len() <= usize::MAX,
    ensures
        value_tx_indices(txs, n).len() <= n,
        forall|k: int|
            0 <= k < value_tx_indices(txs, n).len() ==> {
                let i = #[trigger] value_tx_indices(txs, n)[k];
                &&& i < n
                &&& tx_value(txs[i as int]) != 0
            },
        forall|i: int|
            0 <= i < n && tx_value(txs[i]) != 0 ==> value_tx_indices(txs, n).contains(i as usize),
    decreases n,
{
    if n > 0 {
        lemma_stored_transfers_are_value_transactions(txs, n - 1);
        let prev = value_tx_indices(txs, n - 1);
        if tx_value(txs[n - 1]) != 0 {
            assert(value_tx_indices(txs, n) == prev.push((n - 1) as usize));
        } else {
            assert(value_tx_indices(txs, n) == prev);
        }
        assert forall|k: int| 0 <= k < value_tx_indices(txs, n).len() implies {
            let i = #[trigger] value_tx_indices(txs, n)[k];
            &&& i < n
            &&& tx_value(txs[i as int]) != 0
        } by {
            if k < prev.len() {
                assert(value_tx_indices(txs, n)[k] == prev[k]);
                let j = prev[k];
                assert(j < n - 1 && tx_value(txs[j as int]) != 0);
            }
        }
        if tx_value(txs[n - 1]) != 0 {
            assert forall|i: int|
                0 <= i < n && tx_value(txs[i]) != 0 implies value_tx_indices(txs, n).contains(
                i as usize,
            ) by {
                if i < n - 1 {
                    let k = choose|k: int| 0 <= k < prev.len() && prev[k] == i as usize;
                    assert(value_tx_indices(txs, n)[k] == i as usize);
                } else {
                    assert(value_tx_indices(txs, n)[prev.len() as int] == i as usize);
                }
            }
        }
    }
}

} // verus!
