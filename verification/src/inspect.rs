//! The decisions of the `debug` inspection of the ledger: which ids it
//! looks up, how many of the results it shows, and what it sums up.
use vstd::prelude::*;

verus! {

/// Number of candidate transfer ids that the scan of stored transfers tries:
/// a thousand transaction indices in each of two blocks.
pub const TRANSFER_SCAN_CANDIDATES: usize = 2000;

/// Number of candidate account ids that the scan of accounts tries: the ids
/// 1 to 999.
pub const ACCOUNT_SCAN_CANDIDATES: usize = 999;

/// What a scan looks for.
#[derive(Debug, Clone, Copy, PartialEq, Eq, Structural)]
pub enum ScanKind {
    Transfers,
    Accounts,
}

/// The candidate id at `position` of a scan: for transfers, the id of the
/// transaction at index `position % 1000` of block
/// `19000000 + position / 1000`; for accounts, `position + 1`.
pub open spec fn scan_candidate(kind: ScanKind, position: nat) -> u128 {
    match kind {
        ScanKind::Transfers => ((19000000 + position / 1000) * 1000000 + position % 1000) as u128,
        ScanKind::Accounts => (position + 1) as u128,
    }
}

/// A scan through candidate ids that stops once it has shown `limit` items
/// (or, with a limit of zero, after its first lookup).
#[derive(Debug, Clone, Copy, PartialEq, Eq, Structural)]
pub struct LimitedScan {
    pub kind: ScanKind,
    pub limit: usize,
    pub position: usize,
    pub end: usize,
    pub found: usize,
    pub done: bool,
}

/// How many of `results` items a scan shows after it has shown `found`:
/// as many as fit under its limit.
pub open spec fn shown_count(limit: usize, found: usize, results: usize) -> usize {
    if results == 0 || found >= limit {
        0
    } else if results < limit - found {
        results
    } else {
        (limit - found) as usize
    }
}

impl LimitedScan {
    /// The scan's invariant: it has not passed its end, has shown no more
    /// than its limit, and stops exactly when it reached the limit after a
    /// lookup or ran out of candidates.
    pub open spec fn wf(&self) -> bool {
        &&& self.position <= self.end
        &&& (self.position == 0 ==> self.found == 0)
        &&& self.end == match self.kind {
            ScanKind::Transfers => TRANSFER_SCAN_CANDIDATES,
            ScanKind::Accounts => ACCOUNT_SCAN_CANDIDATES,
        }
        &&& self.found <= self.limit
        &&& self.done == ((self.position > 0 && self.found >= self.limit) || self.position
            == self.end)
    }

    /// A scan of `kind` that shows at most `limit` items.
    pub fn new(kind: ScanKind, limit: usize) -> (scan: LimitedScan)
        ensures
            scan.wf(),
            scan.kind == kind,
            scan.limit == limit,
            scan.position == 0,
            scan.found == 0,
            !scan.done,
    {
        let end = match kind {
            ScanKind::Transfers => TRANSFER_SCAN_CANDIDATES,
            ScanKind::Accounts => ACCOUNT_SCAN_CANDIDATES,
        };
        LimitedScan { kind, limit, position: 0, end, found: 0, done: false }
    }

    /// The id to look up next.
    pub fn next_candidate(&self) -> (id: u128)
        requires
            self.wf(),
            !self.done,
        ensures
            id == scan_candidate(self.kind, self.position as nat),
    {
        match self.kind {
            ScanKind::Transfers => {
                let block = 19000000u128 + (self.position / 1000) as u128;
                block * 1000000 + (self.position % 1000) as u128
            },
            ScanKind::Accounts => (self.position + 1) as u128,
        }
    }

    /// Takes in how many items the lookup of the current candidate found
    /// (zero when it failed) and says how many of them to show.
    pub fn record(&mut self, results: usize) -> (shown: usize)
        requires
            old(self).wf(),
            !old(self).done,
        ensures
            final(self).wf(),
            shown == shown_count(old(self).limit, old(self).found, results),
            final(self).found == old(self).found + shown,
            final(self).position == old(self).position + 1,
            final(self).kind == old(self).kind,
            final(self).limit == old(self).limit,
    {
        let shown = if results == 0 || self.found >= self.limit {
            0
        } else if results < self.limit - self.found {
            results
        } else {
            self.limit - self.found
        };
        self.found = self.found + shown;
        self.position = self.position + 1;
        self.done = self.found >= self.limit || self.position == self.end;
        shown
    }
}

/// The balance of an account: its posted credits less its posted debits,
/// or zero when the debits exceed the credits.
pub fn account_balance(credits_posted: u128, debits_posted: u128) -> (balance: u128)
    ensures
        balance == if credits_posted >= debits_posted {
            credits_posted - debits_posted
        } else {
            0
        },
{
    credits_posted.saturating_sub(debits_posted)
}

/// The results of looking up known transfers: how many were found and the
/// distinct accounts they move value between.
#[derive(Debug, Clone)]
pub struct TransferCheckTally {
    pub found: usize,
    pub accounts: Vec<u128>,
}

impl TransferCheckTally {
    /// The tally's invariant: no account is listed twice.
    pub open spec fn wf(&self) -> bool {
        self.accounts@.no_duplicates()
    }

    /// A tally of no lookups.
    pub fn new() -> (tally: TransferCheckTally)
        ensures
            tally.wf(),
            tally.found == 0,
            tally.accounts@ == Seq::<u128>::empty(),
    {
        TransferCheckTally { found: 0, accounts: Vec::new() }
    }

    /// Lists `account` unless it is listed already.
    fn note_account(&mut self, account: u128)
        requires
            old(self).wf(),
        ensures
            final(self).wf(),
            final(self).found == old(self).found,
            final(self).accounts@.to_set() == old(self).accounts@.to_set().insert(account),
    {
        let mut i: usize = 0;
        while i < self.accounts.len()
            invariant
                i <= self.accounts@.len(),
                self.wf(),
                self.found == old(self).found,
                self.accounts@ == old(self).accounts@,
                forall|j: int| 0 <= j < i ==> self.accounts@[j] != account,
            decreases self.accounts@.len() - i,
        {
            if self.accounts[i] == account {
                assert(self.accounts@.to_set().insert(account) =~= self.accounts@.to_set());
                return;
            }
            i = i + 1;
        }
        let ghost before = self.accounts@;
        self.accounts.push(account);
        proof {
            assert(!before.contains(account));
            assert(self.accounts@ == before.push(account));
            assert(self.accounts@.no_duplicates()) by {
                assert forall|a: int, b: int|
                    0 <= a < self.accounts@.len() && 0 <= b < self.accounts@.len() && a != b
                    implies self.accounts@[a] != self.accounts@[b] by {
                    if a < before.len() && b < before.len() {
                    } else if a < before.len() {
                        assert(before[a] != account);
                    } else {
                        assert(before[b] != account);
                    }
                }
            }
            assert(self.accounts@.to_set() =~= before.to_set().insert(account)) by {
                assert forall|x: u128|
                    self.accounts@.contains(x) <==> (before.contains(x) || x == account) by {
                    if self.accounts@.contains(x) {
                        let k = choose|k: int| 0 <= k < self.accounts@.len() && self.accounts@[k] == x;
                        if k < before.len() {
                            assert(before[k] == x);
                        }
                    }
                    if before.contains(x) {
                        let k = choose|k: int| 0 <= k < before.len() && before[k] == x;
                        assert(self.accounts@[k] == x);
                    }
                    if x == account {
                        assert(self.accounts@[before.len() as int] == x);
                    }
                }
            }
        }
    }

    /// Counts a transfer that was found, between `debit` and `credit`.
    pub fn record_found(&mut self, debit: u128, credit: u128)
        requires
            old(self).wf(),
            old(self).found < usize::MAX,
        ensures
            final(self).wf(),
            final(self).found == old(self).found + 1,
            final(self).accounts@.to_set() == old(self).accounts@.to_set().insert(debit).insert(
                credit,
            ),
    {
        self.found = self.found + 1;
        self.note_account(debit);
        self.note_account(credit);
    }

    /// The number of distinct accounts involved.
    pub fn unique_accounts(&self) -> (n: usize)
        requires
            self.wf(),
        ensures
            n == self.accounts@.to_set().len(),
    {
        proof {
            self.accounts@.unique_seq_to_set();
        }
        self.accounts.len()
    }
}

/// How much a lookup shows, for every limit, count shown so far and number
/// of results: nothing once the limit is reached or when the lookup found
/// nothing; otherwise as many of the results as fit under the limit, the
/// smaller of the number found and the room left, so at least one.
pub proof fn lemma_scan_shows_what_fits(limit: usize, found: usize, results: usize)
    ensures
        results == 0 || found >= limit ==> shown_count(limit, found, results) == 0,
        results > 0 && found < limit ==> {
            let shown = shown_count(limit, found, results);
            &&& shown > 0
            &&& shown <= results
            &&& found + shown <= limit
            &&& (shown == results || found + shown == limit)
        },
{
}

} // verus!
