//! The storage-gateway capability set the recovery logic consumes.
//!
//! The persistence engine itself (schema, transactions, indices) is an
//! external collaborator; this core only reads from it. [`StorageGateway`]
//! holds, as plain values, the answers the engine would give during one
//! recovery attempt: the predecessor batch's miniblock range, the header at
//! the candidate pending miniblock (if any), the predecessor's final state
//! hash together with how many polls still find it unpublished, the system
//! contracts the header references, and the executed-but-unsealed
//! transactions in execution order. Time is modeled by counters: each poll
//! and each slept delay interval is counted, so tests simulate waiting
//! without real time passing.

use vstd::prelude::*;

use crate::types::BaseSystemContracts;
use crate::types::Hash256;
use crate::types::L1BatchNumber;
use crate::types::MiniblockHeader;
use crate::types::MiniblockNumber;
use crate::types::SystemContractCode;
use crate::types::Transaction;

verus! {

/// One recovery attempt's view of the storage gateway.
#[derive(Clone, Debug)]
pub struct StorageGateway {
    /// The batch this snapshot describes the history of: the predecessor of
    /// the batch being recovered.
    pub prev_batch: L1BatchNumber,
    /// First miniblock owned by `prev_batch`.
    pub prev_first_miniblock: MiniblockNumber,
    /// Last miniblock owned by `prev_batch`; the candidate pending miniblock
    /// is one past it.
    pub prev_last_miniblock: MiniblockNumber,
    /// The stored header at the candidate pending miniblock, or `None` when
    /// the previous batch's execution left no unsealed work.
    pub pending_header: Option<MiniblockHeader>,
    /// The final state hash of `prev_batch`, once published.
    pub prev_batch_hash: Hash256,
    /// How many polls still find the hash unpublished: a sibling subsystem
    /// computes it concurrently, and the first `unavailable_polls` queries
    /// return nothing.
    pub unavailable_polls: u64,
    /// Polls of the previous-batch hash made so far.
    pub polls_made: u64,
    /// Delay intervals slept so far.
    pub intervals_slept: u64,
    /// The system contracts the pending header references, keyed by content
    /// hash.
    pub contracts: BaseSystemContracts,
    /// The transactions marked executed-but-unsealed, in the order they were
    /// originally executed.
    pub reexecute_txs: Vec<Transaction>,
}

/// The snapshot is internally consistent: a pending header, when present,
/// sits one past the predecessor's last miniblock and references exactly the
/// system contracts the store holds. A real store where a header references
/// missing contracts is an infrastructure failure, fatal to recovery.
pub open spec fn gateway_consistent(gw: StorageGateway) -> bool {
    match gw.pending_header {
        Option::Some(h) => {
            &&& h.number.0 == gw.prev_last_miniblock.0 + 1
            &&& h.base_system_contracts_hashes.bootloader == gw.contracts.bootloader.hash
            &&& h.base_system_contracts_hashes.default_aa == gw.contracts.default_aa.hash
        },
        Option::None => true,
    }
}

/// The stored data of `a` and `b` agree; only the poll and sleep counters may
/// differ. Reads and waits leave the store itself untouched.
pub open spec fn same_store(a: StorageGateway, b: StorageGateway) -> bool {
    &&& a.prev_batch == b.prev_batch
    &&& a.prev_first_miniblock == b.prev_first_miniblock
    &&& a.prev_last_miniblock == b.prev_last_miniblock
    &&& a.pending_header == b.pending_header
    &&& a.prev_batch_hash == b.prev_batch_hash
    &&& a.unavailable_polls == b.unavailable_polls
    &&& a.contracts == b.contracts
    &&& a.reexecute_txs == b.reexecute_txs
}

/// Two system-contract pairs carry the same contracts: equal content hashes
/// and equal code, word for word.
pub open spec fn contracts_match(a: BaseSystemContracts, b: BaseSystemContracts) -> bool {
    &&& a.bootloader.hash == b.bootloader.hash
    &&& a.bootloader.code@ == b.bootloader.code@
    &&& a.default_aa.hash == b.default_aa.hash
    &&& a.default_aa.code@ == b.default_aa.code@
}

/// Copies a vector of copyable items, element by element.
fn copy_items<T: Copy>(items: &Vec<T>) -> (r: Vec<T>)
    ensures
        r@ == items@,
{
    let mut r: Vec<T> = Vec::new();
    let mut i: usize = 0;
    while i < items.len()
        invariant
            i <= items.len(),
            r@ == items@.subrange(0, i as int),
        decreases items.len() - i,
    {
        r.push(items[i]);
        proof {
            assert(items@.subrange(0, i as int).push(items@[i as int])
                =~= items@.subrange(0, i + 1 as int));
        }
        i = i + 1;
    }
    proof {
        assert(items@.subrange(0, items@.len() as int) =~= items@);
    }
    r
}

impl StorageGateway {
    /// The miniblock range owned by `l1_batch_number`. This snapshot holds
    /// one batch's history — the predecessor of the batch being recovered —
    /// so that is the only batch it answers for.
    pub fn miniblock_range_of_batch(
        &self,
        l1_batch_number: L1BatchNumber,
    ) -> (r: (MiniblockNumber, MiniblockNumber))
        requires
            l1_batch_number == self.prev_batch,
        ensures
            r.0 == self.prev_first_miniblock,
            r.1 == self.prev_last_miniblock,
    {
        (self.prev_first_miniblock, self.prev_last_miniblock)
    }

    /// The stored header of the candidate pending miniblock, or `None` when
    /// none was stored. This snapshot only answers for the candidate
    /// position, the one query recovery makes.
    pub fn miniblock_header(&self, number: MiniblockNumber) -> (r: Option<MiniblockHeader>)
        requires
            number.0 == self.prev_last_miniblock.0 + 1,
        ensures
            r == self.pending_header,
    {
        self.pending_header
    }

    /// Looks the system contracts up by their content hashes. The store holds
    /// the contracts the pending header references; a query for any other
    /// hash would be an infrastructure failure, fatal to recovery, so the
    /// precondition rules it out.
    pub fn base_system_contracts(
        &self,
        bootloader_hash: Hash256,
        default_aa_hash: Hash256,
    ) -> (r: BaseSystemContracts)
        requires
            bootloader_hash == self.contracts.bootloader.hash,
            default_aa_hash == self.contracts.default_aa.hash,
        ensures
            contracts_match(r, self.contracts),
    {
        BaseSystemContracts {
            bootloader: SystemContractCode {
                hash: self.contracts.bootloader.hash,
                code: copy_items(&self.contracts.bootloader.code),
            },
            default_aa: SystemContractCode {
                hash: self.contracts.default_aa.hash,
                code: copy_items(&self.contracts.default_aa.code),
            },
        }
    }

    /// The full, order-preserving list of transactions marked as
    /// executed-but-unsealed.
    pub fn transactions_to_reexecute(&self) -> (r: Vec<Transaction>)
        ensures
            r@ == self.reexecute_txs@,
    {
        copy_items(&self.reexecute_txs)
    }

    /// One poll of the previous batch's final state hash: nothing while a
    /// sibling subsystem is still computing it, the hash once published. Each
    /// call counts one poll and touches nothing else.
    pub fn poll_previous_batch_hash(&mut self, l1_batch_number: L1BatchNumber) -> (r: Option<
        Hash256,
    >)
        requires
            l1_batch_number == old(self).prev_batch,
            old(self).polls_made < u64::MAX,
        ensures
            same_store(*final(self), *old(self)),
            final(self).polls_made == old(self).polls_made + 1,
            final(self).intervals_slept == old(self).intervals_slept,
            r == (if old(self).polls_made >= old(self).unavailable_polls {
                Option::Some(old(self).prev_batch_hash)
            } else {
                Option::<Hash256>::None
            }),
    {
        let r = if self.polls_made >= self.unavailable_polls {
            Some(self.prev_batch_hash)
        } else {
            None
        };
        self.polls_made = self.polls_made + 1;
        r
    }

    /// Suspends the recovery task for one delay interval. The clock is the
    /// count of intervals slept, so waiting is observable without real time
    /// passing.
    pub fn sleep_interval(&mut self)
        requires
            old(self).intervals_slept < u64::MAX,
        ensures
            same_store(*final(self), *old(self)),
            final(self).polls_made == old(self).polls_made,
            final(self).intervals_slept == old(self).intervals_slept + 1,
    {
        self.intervals_slept = self.intervals_slept + 1;
    }
}

} // verus!
