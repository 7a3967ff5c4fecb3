//! Derivation of the immutable per-batch execution context that seeds every
//! batch's VM run.

use vstd::prelude::*;

use crate::types::Address;
use crate::types::BaseSystemContracts;
use crate::types::BlockContext;
use crate::types::BlockContextMode;
use crate::types::BlockProperties;
use crate::types::Hash256;
use crate::types::L1BatchNumber;
use crate::types::L1BatchParams;
use crate::types::ZKPORTER_IS_AVAILABLE;

verus! {

/// The exact value `l1_batch_params` builds from its inputs: a context tagged
/// as a new block, block properties derived from the default
/// account-abstraction code hash and the static storage-proof flag, and the
/// system contracts carried through unchanged.
pub open spec fn batch_params_from(
    current_l1_batch_number: L1BatchNumber,
    operator_address: Address,
    l1_batch_timestamp: u64,
    previous_block_hash: Hash256,
    l1_gas_price: u64,
    fair_l2_gas_price: u64,
    base_system_contracts: BaseSystemContracts,
) -> L1BatchParams {
    L1BatchParams {
        context_mode: BlockContextMode::NewBlock(
            BlockContext {
                block_number: current_l1_batch_number.0,
                block_timestamp: l1_batch_timestamp,
                l1_gas_price: l1_gas_price,
                fair_l2_gas_price: fair_l2_gas_price,
                operator_address: operator_address,
            },
            previous_block_hash,
        ),
        properties: BlockProperties {
            default_aa_code_hash: base_system_contracts.default_aa.hash,
            zkporter_is_available: ZKPORTER_IS_AVAILABLE,
        },
        base_system_contracts: base_system_contracts,
    }
}

/// Returns the parameters required to initialize the VM for the next L1
/// batch. Pure and total: the result is a function of the inputs alone, so
/// identical inputs always produce a value equal in all fields.
pub fn l1_batch_params(
    current_l1_batch_number: L1BatchNumber,
    operator_address: Address,
    l1_batch_timestamp: u64,
    previous_block_hash: Hash256,
    l1_gas_price: u64,
    fair_l2_gas_price: u64,
    base_system_contracts: BaseSystemContracts,
) -> (r: L1BatchParams)
    ensures
        r == batch_params_from(
            current_l1_batch_number,
            operator_address,
            l1_batch_timestamp,
            previous_block_hash,
            l1_gas_price,
            fair_l2_gas_price,
            base_system_contracts,
        ),
{
    let properties = BlockProperties {
        default_aa_code_hash: base_system_contracts.default_aa.hash,
        zkporter_is_available: ZKPORTER_IS_AVAILABLE,
    };

    let context = BlockContext {
        block_number: current_l1_batch_number.0,
        block_timestamp: l1_batch_timestamp,
        l1_gas_price: l1_gas_price,
        fair_l2_gas_price: fair_l2_gas_price,
        operator_address: operator_address,
    };

    L1BatchParams {
        context_mode: BlockContextMode::NewBlock(context, previous_block_hash),
        properties: properties,
        base_system_contracts: base_system_contracts,
    }
}

/// Determinism of the context derivation: two derivations from pairwise equal
/// inputs are equal in all fields. `l1_batch_params` returns exactly
/// `batch_params_from` of its inputs, so two calls on identical inputs return
/// equal values.
pub proof fn lemma_batch_params_deterministic(
    number_a: L1BatchNumber,
    operator_a: Address,
    timestamp_a: u64,
    previous_hash_a: Hash256,
    l1_gas_price_a: u64,
    fair_l2_gas_price_a: u64,
    contracts_a: BaseSystemContracts,
    number_b: L1BatchNumber,
    operator_b: Address,
    timestamp_b: u64,
    previous_hash_b: Hash256,
    l1_gas_price_b: u64,
    fair_l2_gas_price_b: u64,
    contracts_b: BaseSystemContracts,
)
    requires
        number_a == number_b,
        operator_a == operator_b,
        timestamp_a == timestamp_b,
        previous_hash_a == previous_hash_b,
        l1_gas_price_a == l1_gas_price_b,
        fair_l2_gas_price_a == fair_l2_gas_price_b,
        contracts_a == contracts_b,
    ensures
        batch_params_from(
            number_a,
            operator_a,
            timestamp_a,
            previous_hash_a,
            l1_gas_price_a,
            fair_l2_gas_price_a,
            contracts_a,
        ) == batch_params_from(
            number_b,
            operator_b,
            timestamp_b,
            previous_hash_b,
            l1_gas_price_b,
            fair_l2_gas_price_b,
            contracts_b,
        ),
{
}

} // verus!
