//! What is handed to the StarkNet provider: the requests that the library
//! asks a driver to perform.

use crate::block::{BlockId, FunctionCall};
use crate::felt::FieldElement;
use vstd::prelude::*;

verus! {

/// A transaction as it is submitted for a fee estimate. The library hands it
/// on to the provider without looking inside.
#[verifier::external_type_specification]
#[verifier::external_body]
pub struct ExBroadcastedTransaction(starknet::core::types::BroadcastedTransaction);

/// One request to the StarkNet provider.
#[derive(Debug)]
pub enum ProviderRequest {
    /// The block named by the identifier, with its transactions.
    GetBlockWithTxs(BlockId),
    /// The value stored under a key of a contract, as of a block.
    GetStorageAt { contract_address: FieldElement, key: FieldElement, block_number: u64 },
    /// The result of a view function, as of a block.
    Call { call: FunctionCall, block_number: u64 },
    /// The fee that a transaction would cost, as of a block.
    EstimateFee { request: starknet::core::types::BroadcastedTransaction, block_id: BlockId },
    /// The nonce of a contract, as of a block.
    GetNonce { block_number: u64, address: FieldElement },
    /// The receipt of the transaction with the given hash.
    GetTransactionReceipt(FieldElement),
    /// The transaction with the given hash.
    GetTransactionByHash(FieldElement),
}

} // verus!
