//! The value types this core exchanges with the storage gateway and hands to
//! the virtual machine.
//!
//! The VM, the persistence engine and the wire formats are external
//! collaborators; this core only defines the shape of the values it reads and
//! builds, so every type here holds plain integers. A 256-bit quantity (a
//! state hash or a contract's content hash) is four 64-bit words, an account
//! address is 160 bits split into machine words.

use vstd::prelude::*;

verus! {

/// Whether the optional storage-proof subsystem is available to the VM.
/// A static process-wide configuration constant, never derived from inputs.
pub const ZKPORTER_IS_AVAILABLE: bool = false;

/// Strictly increasing identifier of an L1-settled batch of execution.
#[derive(Clone, Copy, Debug, PartialEq, Eq, Structural)]
pub struct L1BatchNumber(pub u32);

/// Strictly increasing identifier of a sub-batch unit of execution; every
/// batch owns a contiguous range of miniblock numbers.
#[derive(Clone, Copy, Debug, PartialEq, Eq, Structural)]
pub struct MiniblockNumber(pub u32);

/// A 256-bit quantity (a state hash or a code hash), most significant word
/// first.
#[derive(Clone, Copy, Debug, PartialEq, Eq, Structural)]
pub struct Hash256 {
    pub w0: u64,
    pub w1: u64,
    pub w2: u64,
    pub w3: u64,
}

/// A 160-bit account address, most significant word first.
#[derive(Clone, Copy, Debug, PartialEq, Eq, Structural)]
pub struct Address {
    pub w0: u64,
    pub w1: u64,
    pub w2: u32,
}

/// A transaction to re-execute, identified by its content hash; the payload
/// itself is the execution engine's concern.
#[derive(Clone, Copy, Debug, PartialEq, Eq, Structural)]
pub struct Transaction {
    pub hash: Hash256,
}

/// The content hashes of the two system contracts bound to a miniblock.
#[derive(Clone, Copy, Debug, PartialEq, Eq, Structural)]
pub struct BaseSystemContractsHashes {
    pub bootloader: Hash256,
    pub default_aa: Hash256,
}

/// One system contract: its code as 256-bit words and the content hash that
/// identifies it.
#[derive(Clone, Debug, PartialEq, Eq)]
pub struct SystemContractCode {
    pub hash: Hash256,
    pub code: Vec<Hash256>,
}

/// The immutable pair of system contracts bound to a batch's VM run: the
/// bootloader and the default account-abstraction code, looked up by content
/// hash, never mutated.
#[derive(Clone, Debug, PartialEq, Eq)]
pub struct BaseSystemContracts {
    pub bootloader: SystemContractCode,
    pub default_aa: SystemContractCode,
}

/// The stored header of a miniblock: what the recovery reads to rebuild the
/// execution context of the batch the miniblock belongs to.
#[derive(Clone, Copy, Debug, PartialEq, Eq, Structural)]
pub struct MiniblockHeader {
    pub number: MiniblockNumber,
    pub timestamp: u64,
    pub l1_gas_price: u64,
    pub l2_fair_gas_price: u64,
    pub base_system_contracts_hashes: BaseSystemContractsHashes,
}

/// Block-wide properties handed to the VM: the content hash of the default
/// account-abstraction code and the storage-proof availability flag.
#[derive(Clone, Copy, Debug, PartialEq, Eq, Structural)]
pub struct BlockProperties {
    pub default_aa_code_hash: Hash256,
    pub zkporter_is_available: bool,
}

/// The per-batch execution context that seeds the VM: two contexts equal in
/// all fields yield identical VM behavior.
#[derive(Clone, Copy, Debug, PartialEq, Eq, Structural)]
pub struct BlockContext {
    pub block_number: u32,
    pub block_timestamp: u64,
    pub l1_gas_price: u64,
    pub fair_l2_gas_price: u64,
    pub operator_address: Address,
}

/// How the VM is to be initialized. This core only begins fresh batches, so it
/// only builds the new-block mode, carrying the previous batch's final state
/// hash forward so the VM can verify chain continuity; other initialization
/// modes exist in the wider system but are not constructed here.
#[derive(Clone, Copy, Debug, PartialEq, Eq, Structural)]
pub enum BlockContextMode {
    NewBlock(BlockContext, Hash256),
}

/// The parameters required to initialize the VM for the next L1 batch.
#[derive(Clone, Debug, PartialEq, Eq)]
pub struct L1BatchParams {
    pub context_mode: BlockContextMode,
    pub properties: BlockProperties,
    pub base_system_contracts: BaseSystemContracts,
}

/// A pending batch found on startup: the parameters to re-seed the VM with
/// and the transactions to re-execute, in their original execution order.
#[derive(Clone, Debug, PartialEq, Eq)]
pub struct PendingBatchData {
    pub params: L1BatchParams,
    pub txs: Vec<Transaction>,
}

} // verus!
