//! The decisions of the lookup benchmark: which stored transfers it
//! measures and the stand-in transaction hashes it asks the RPC for.
use vstd::prelude::*;
use vstd::string::StringExecFns;
use crate::text::{hex_padded, push_hex_padded};
use crate::workflow::{
    block_19000000_ids,
    block_19000001_ids,
    block_19000000_transfer_ids,
    block_19000001_transfer_ids,
    first_n,
    take_first,
};

verus! {

/// Number of transactions whose lookup over Ethereum RPC is measured at most.
pub const ETH_LOOKUP_SAMPLE: usize = 5;

/// The known transfers that the benchmark tries: the first twenty of each
/// of blocks 19000000 and 19000001.
pub open spec fn benchmark_known_ids() -> Seq<u128> {
    block_19000000_ids().subrange(0, 20) + block_19000001_ids().subrange(0, 20)
}

/// The transfers that the benchmark looks up to find `count` stored ones:
/// the first `2 * count` of its known transfers.
pub fn benchmark_candidate_ids(count: usize) -> (ids: Vec<u128>)
    requires
        count * 2 <= usize::MAX,
    ensures
        ids@ == first_n(benchmark_known_ids(), (count * 2) as usize),
{
    let b0 = block_19000000_transfer_ids();
    let b1 = block_19000001_transfer_ids();
    let mut known = take_first(&b0, 20);
    let mut more = take_first(&b1, 20);
    known.append(&mut more);
    assert(known@ =~= benchmark_known_ids());
    take_first(&known, count * 2)
}

/// Collects the ids of stored transfers until it has `wanted` of them.
#[derive(Debug, Clone)]
pub struct TransferIdCollector {
    pub wanted: usize,
    pub collected: Vec<u128>,
}

impl TransferIdCollector {
    /// A collector that wants `wanted` ids.
    pub fn new(wanted: usize) -> (collector: TransferIdCollector)
        ensures
            collector.wanted == wanted,
            collector.collected@ == Seq::<u128>::empty(),
    {
        TransferIdCollector { wanted, collected: Vec::new() }
    }

    /// Takes in whether the transfer `id` was found; keeps it if so, and
    /// says whether the collector has all the ids it wants.
    pub fn record(&mut self, id: u128, found: bool) -> (complete: bool)
        ensures
            final(self).wanted == old(self).wanted,
            final(self).collected@ == if found {
                old(self).collected@.push(id)
            } else {
                old(self).collected@
            },
            complete == (found && final(self).collected@.len() >= final(self).wanted),
    {
        if found {
            self.collected.push(id);
            self.collected.len() >= self.wanted
        } else {
            false
        }
    }
}

/// The number of transfers whose lookups are measured, and how many of
/// them are also looked up over Ethereum RPC.
pub fn benchmark_sample_sizes(found: usize, requested: usize) -> (sizes: (usize, usize))
    ensures
        sizes.0 == if found < requested {
            found
        } else {
            requested
        },
        sizes.1 == if sizes.0 < ETH_LOOKUP_SAMPLE {
            sizes.0
        } else {
            ETH_LOOKUP_SAMPLE
        },
{
    let actual = if found < requested {
        found
    } else {
        requested
    };
    let eth = if actual < ETH_LOOKUP_SAMPLE {
        actual
    } else {
        ETH_LOOKUP_SAMPLE
    };
    (actual, eth)
}

/// The stand-in Ethereum transaction hash of a transfer: `0x` and its id in
/// sixty-four lower-case hexadecimal digits.
pub fn mock_eth_hash(transfer_id: u128) -> (hash: String)
    ensures
        hash@ == "0x"@ + hex_padded(transfer_id as nat, 64),
{
    let mut hash = String::from_str("0x");
    push_hex_padded(&mut hash, transfer_id, 64);
    hash
}

} // verus!
