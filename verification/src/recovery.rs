//! Detection and reconstruction of a pending (unsealed) batch on startup.
//!
//! The sequencer's startup path calls [`load_pending_batch`] once. It queries
//! the predecessor batch's miniblock range, looks for a header one past its
//! last miniblock, and if one exists, waits for the predecessor's final state
//! hash, resolves the system contracts the header references, rebuilds the
//! execution context and returns it with the exact transactions to
//! re-execute, in original order.

use vstd::prelude::*;

use crate::batch_params::batch_params_from;
use crate::batch_params::l1_batch_params;
use crate::storage::contracts_match;
use crate::storage::gateway_consistent;
use crate::storage::same_store;
use crate::storage::StorageGateway;
use crate::types::Address;
use crate::types::BaseSystemContracts;
use crate::types::Hash256;
use crate::types::L1BatchNumber;
use crate::types::L1BatchParams;
use crate::types::MiniblockNumber;
use crate::types::PendingBatchData;

verus! {

/// How many delay intervals a wait for the previous batch's hash still
/// sleeps: one per poll that finds the hash unpublished.
pub open spec fn sleeps_left(gw: StorageGateway) -> int {
    if gw.polls_made < gw.unavailable_polls {
        gw.unavailable_polls - gw.polls_made
    } else {
        0
    }
}

/// Waits until the previous batch's final state hash is published: polls the
/// gateway, and after each poll that finds nothing, sleeps one delay
/// interval before retrying. The wait itself imposes no hard timeout — a
/// higher-level supervisor is responsible for bounding total startup time;
/// `crate::poll::poll_iters` tells such a supervisor how many iterations a
/// chosen maximum wait implies.
///
/// Exactly `sleeps_left` intervals are slept: as many as there are polls
/// that still find the hash unpublished, and no more.
pub fn wait_for_previous_batch_hash(
    gw: &mut StorageGateway,
    l1_batch_number: L1BatchNumber,
) -> (h: Hash256)
    requires
        l1_batch_number == old(gw).prev_batch,
        old(gw).polls_made + sleeps_left(*old(gw)) < u64::MAX,
        old(gw).intervals_slept + sleeps_left(*old(gw)) <= u64::MAX,
    ensures
        h == old(gw).prev_batch_hash,
        same_store(*final(gw), *old(gw)),
        final(gw).polls_made == old(gw).polls_made + sleeps_left(*old(gw)) + 1,
        final(gw).intervals_slept == old(gw).intervals_slept + sleeps_left(*old(gw)),
    decreases sleeps_left(*old(gw)),
{
    match gw.poll_previous_batch_hash(l1_batch_number) {
        Some(h) => h,
        None => {
            gw.sleep_interval();
            wait_for_previous_batch_hash(gw, l1_batch_number)
        },
    }
}

/// What a successful recovery returns, stated over the gateway as it stood
/// when recovery began: the context is rebuilt from the pending header's
/// timestamp and gas prices, the published previous-batch hash, the batch
/// number and fee account given by the caller, and system contracts that
/// carry the stored code word for word.
pub open spec fn recovered_params(
    gw: StorageGateway,
    current_l1_batch_number: L1BatchNumber,
    fee_account: Address,
    p: L1BatchParams,
) -> bool {
    match gw.pending_header {
        Option::Some(h) => {
            exists|c: BaseSystemContracts| #![auto]
                contracts_match(c, gw.contracts) && p == batch_params_from(
                    current_l1_batch_number,
                    fee_account,
                    h.timestamp,
                    gw.prev_batch_hash,
                    h.l1_gas_price,
                    h.l2_fair_gas_price,
                    c,
                )
        },
        Option::None => false,
    }
}

/// Loads the pending L1 batch data from the gateway.
///
/// The candidate pending miniblock is always one past the last miniblock of
/// the predecessor batch; if no header was stored there, there is no pending
/// work — the normal case, not an error — and the gateway is left untouched.
/// Otherwise the result holds the rebuilt execution context and exactly the
/// transactions reported for re-execution, in the same order, after sleeping
/// exactly one delay interval per poll that found the predecessor's hash
/// still unpublished.
pub fn load_pending_batch(
    gw: &mut StorageGateway,
    current_l1_batch_number: L1BatchNumber,
    fee_account: Address,
) -> (r: Option<PendingBatchData>)
    requires
        current_l1_batch_number.0 >= 1,
        old(gw).prev_batch.0 == current_l1_batch_number.0 - 1,
        old(gw).prev_last_miniblock.0 < u32::MAX,
        gateway_consistent(*old(gw)),
        old(gw).polls_made == 0,
        old(gw).intervals_slept == 0,
        old(gw).unavailable_polls < u64::MAX,
    ensures
        (r is Some) <==> (old(gw).pending_header is Some),
        old(gw).pending_header is None ==> *final(gw) == *old(gw),
        old(gw).pending_header is Some ==> {
            &&& same_store(*final(gw), *old(gw))
            &&& final(gw).polls_made == old(gw).unavailable_polls + 1
            &&& final(gw).intervals_slept == old(gw).unavailable_polls
        },
        (r matches Some(data) ==> {
            &&& recovered_params(*old(gw), current_l1_batch_number, fee_account, data.params)
            &&& data.txs@ == old(gw).reexecute_txs@
        }),
{
    // If the pending miniblock doesn't exist, there is no unsynced state:
    // no transaction was executed after the last sealed batch.
    let prev_batch = L1BatchNumber(current_l1_batch_number.0 - 1);
    let (_, last_miniblock_in_prev_batch) = gw.miniblock_range_of_batch(prev_batch);
    let pending_miniblock_number = MiniblockNumber(last_miniblock_in_prev_batch.0 + 1);

    let pending_miniblock_header = match gw.miniblock_header(pending_miniblock_number) {
        Some(h) => h,
        None => {
            return None;
        },
    };

    let previous_l1_batch_hash = wait_for_previous_batch_hash(gw, prev_batch);

    let base_system_contracts = gw.base_system_contracts(
        pending_miniblock_header.base_system_contracts_hashes.bootloader,
        pending_miniblock_header.base_system_contracts_hashes.default_aa,
    );

    let params = l1_batch_params(
        current_l1_batch_number,
        fee_account,
        pending_miniblock_header.timestamp,
        previous_l1_batch_hash,
        pending_miniblock_header.l1_gas_price,
        pending_miniblock_header.l2_fair_gas_price,
        base_system_contracts,
    );

    let txs = gw.transactions_to_reexecute();

    proof {
        // the contracts carried in the result witness the recovered context
        assert(contracts_match(params.base_system_contracts, old(gw).contracts) && params
            == batch_params_from(
            current_l1_batch_number,
            fee_account,
            pending_miniblock_header.timestamp,
            old(gw).prev_batch_hash,
            pending_miniblock_header.l1_gas_price,
            pending_miniblock_header.l2_fair_gas_price,
            params.base_system_contracts,
        ));
    }
    Some(PendingBatchData { params, txs })
}

} // verus!
