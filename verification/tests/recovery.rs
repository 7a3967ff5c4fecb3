use state_keeper_io::batch_params::l1_batch_params;
use state_keeper_io::recovery::load_pending_batch;
use state_keeper_io::recovery::wait_for_previous_batch_hash;
use state_keeper_io::storage::StorageGateway;
use state_keeper_io::types::Address;
use state_keeper_io::types::BaseSystemContracts;
use state_keeper_io::types::BaseSystemContractsHashes;
use state_keeper_io::types::BlockContext;
use state_keeper_io::types::BlockContextMode;
use state_keeper_io::types::Hash256;
use state_keeper_io::types::L1BatchNumber;
use state_keeper_io::types::MiniblockHeader;
use state_keeper_io::types::MiniblockNumber;
use state_keeper_io::types::SystemContractCode;
use state_keeper_io::types::Transaction;
use state_keeper_io::types::ZKPORTER_IS_AVAILABLE;

fn hash(seed: u64) -> Hash256 {
    Hash256 { w0: seed, w1: seed + 1, w2: seed + 2, w3: seed + 3 }
}

fn operator() -> Address {
    Address { w0: 0xfee0, w1: 0xacc0, w2: 0x1234 }
}

fn contracts() -> BaseSystemContracts {
    BaseSystemContracts {
        bootloader: SystemContractCode { hash: hash(100), code: vec![hash(1), hash(2)] },
        default_aa: SystemContractCode { hash: hash(200), code: vec![hash(3)] },
    }
}

fn header_at(number: u32) -> MiniblockHeader {
    MiniblockHeader {
        number: MiniblockNumber(number),
        timestamp: 1_600_000_000,
        l1_gas_price: 50_000_000_000,
        l2_fair_gas_price: 250_000_000,
        base_system_contracts_hashes: BaseSystemContractsHashes {
            bootloader: hash(100),
            default_aa: hash(200),
        },
    }
}

/// A gateway snapshot for recovering batch `prev + 1`: batch `prev` owns
/// miniblocks `first..=last`, and the candidate pending miniblock `last + 1`
/// holds a header or not.
fn gateway(
    prev: u32,
    first: u32,
    last: u32,
    pending: bool,
    unavailable_polls: u64,
    txs: Vec<Transaction>,
) -> StorageGateway {
    StorageGateway {
        prev_batch: L1BatchNumber(prev),
        prev_first_miniblock: MiniblockNumber(first),
        prev_last_miniblock: MiniblockNumber(last),
        pending_header: if pending { Some(header_at(last + 1)) } else { None },
        prev_batch_hash: hash(77),
        unavailable_polls,
        polls_made: 0,
        intervals_slept: 0,
        contracts: contracts(),
        reexecute_txs: txs,
    }
}

#[test]
fn test_l1_batch_params_fields() {
    let params = l1_batch_params(
        L1BatchNumber(42),
        operator(),
        1_600_000_000,
        hash(77),
        50_000_000_000,
        250_000_000,
        contracts(),
    );
    let BlockContextMode::NewBlock(context, previous_hash) = params.context_mode;
    assert_eq!(
        context,
        BlockContext {
            block_number: 42,
            block_timestamp: 1_600_000_000,
            l1_gas_price: 50_000_000_000,
            fair_l2_gas_price: 250_000_000,
            operator_address: operator(),
        }
    );
    assert_eq!(previous_hash, hash(77));
    assert_eq!(params.properties.default_aa_code_hash, hash(200));
    assert_eq!(params.properties.zkporter_is_available, ZKPORTER_IS_AVAILABLE);
    assert_eq!(params.base_system_contracts, contracts());
}

#[test]
fn test_l1_batch_params_deterministic() {
    let build = || {
        l1_batch_params(
            L1BatchNumber(9),
            operator(),
            123_456,
            hash(31),
            1_000,
            2_000,
            contracts(),
        )
    };
    assert_eq!(build(), build());
}

#[test]
fn test_load_pending_batch_none_without_header() {
    let mut gw = gateway(4, 30, 39, false, 0, Vec::new());
    let r = load_pending_batch(&mut gw, L1BatchNumber(5), operator());
    assert!(r.is_none());
    // nothing was polled or slept: recovery stopped at the missing header
    assert_eq!(gw.polls_made, 0);
    assert_eq!(gw.intervals_slept, 0);
}

#[test]
fn test_load_pending_batch_rebuilds_context_and_transactions() {
    let txs = vec![
        Transaction { hash: hash(500) },
        Transaction { hash: hash(600) },
        Transaction { hash: hash(700) },
    ];
    let mut gw = gateway(4, 30, 39, true, 0, txs.clone());
    let data = load_pending_batch(&mut gw, L1BatchNumber(5), operator()).unwrap();

    // the transaction sequence is exactly the reported one, in the same order
    assert_eq!(data.txs, txs);

    // the context fields match the header's values and the published hash
    let BlockContextMode::NewBlock(context, previous_hash) = data.params.context_mode;
    assert_eq!(context.block_number, 5);
    assert_eq!(context.block_timestamp, 1_600_000_000);
    assert_eq!(context.l1_gas_price, 50_000_000_000);
    assert_eq!(context.fair_l2_gas_price, 250_000_000);
    assert_eq!(context.operator_address, operator());
    assert_eq!(previous_hash, hash(77));
    assert_eq!(data.params.base_system_contracts, contracts());
}

#[test]
fn test_load_pending_batch_waits_for_previous_hash() {
    let mut gw = gateway(4, 30, 39, true, 3, Vec::new());
    let r = load_pending_batch(&mut gw, L1BatchNumber(5), operator());
    assert!(r.is_some());
    // three polls found the hash unpublished: three intervals slept, no more
    assert_eq!(gw.intervals_slept, 3);
    assert_eq!(gw.polls_made, 4);
}

#[test]
fn test_wait_counts_one_interval_per_failed_poll() {
    let mut gw = gateway(4, 30, 39, true, 5, Vec::new());
    let h = wait_for_previous_batch_hash(&mut gw, L1BatchNumber(4));
    assert_eq!(h, hash(77));
    assert_eq!(gw.intervals_slept, 5);
    assert_eq!(gw.polls_made, 6);

    // a hash that is already published costs one poll and no sleep
    let mut ready = gateway(4, 30, 39, true, 0, Vec::new());
    let h = wait_for_previous_batch_hash(&mut ready, L1BatchNumber(4));
    assert_eq!(h, hash(77));
    assert_eq!(ready.intervals_slept, 0);
    assert_eq!(ready.polls_made, 1);
}

#[test]
fn test_load_pending_batch_first_batch_boundary() {
    // For current batch 1 the predecessor is batch 0, the genesis batch: the
    // boundary is defined to behave like any other batch. The gateway holds
    // batch 0's miniblock range, and recovery proceeds from one past its
    // last miniblock.
    let txs = vec![Transaction { hash: hash(900) }];
    let mut gw = gateway(0, 0, 0, true, 1, txs.clone());
    let data = load_pending_batch(&mut gw, L1BatchNumber(1), operator()).unwrap();
    assert_eq!(data.txs, txs);
    let BlockContextMode::NewBlock(context, previous_hash) = data.params.context_mode;
    assert_eq!(context.block_number, 1);
    assert_eq!(previous_hash, hash(77));
    assert_eq!(gw.intervals_slept, 1);

    // and when batch 0 left no unsealed work, there is nothing pending
    let mut empty = gateway(0, 0, 0, false, 0, Vec::new());
    assert!(load_pending_batch(&mut empty, L1BatchNumber(1), operator()).is_none());
}
