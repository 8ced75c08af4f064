//! Blocks and transactions as the StarkNet provider reports them.

use crate::felt::FieldElement;
use vstd::prelude::*;

verus! {

/// How far a block has come.
#[derive(Clone, Copy, Debug, PartialEq, Eq, Structural)]
pub enum BlockStatus {
    Pending,
    AcceptedOnL2,
    AcceptedOnL1,
    Rejected,
}

/// A block that moves with the chain.
#[derive(Clone, Copy, Debug, PartialEq, Eq, Structural)]
pub enum BlockTag {
    Latest,
    Pending,
}

/// A block named by its hash, its number or a tag.
#[derive(Clone, Copy, Debug)]
pub enum BlockId {
    Hash(FieldElement),
    Number(u64),
    Tag(BlockTag),
}

#[derive(Clone, Copy, Debug)]
pub struct InvokeTransactionV0 {
    pub transaction_hash: FieldElement,
}

#[derive(Clone, Copy, Debug)]
pub struct InvokeTransactionV1 {
    pub transaction_hash: FieldElement,
}

#[derive(Clone, Copy, Debug)]
pub enum InvokeTransaction {
    V0(InvokeTransactionV0),
    V1(InvokeTransactionV1),
}

#[derive(Clone, Copy, Debug)]
pub struct L1HandlerTransaction {
    pub transaction_hash: FieldElement,
}

#[derive(Clone, Copy, Debug)]
pub struct DeclareTransaction {
    pub transaction_hash: FieldElement,
}

#[derive(Clone, Copy, Debug)]
pub struct DeployTransaction {
    pub transaction_hash: FieldElement,
}

#[derive(Clone, Copy, Debug)]
pub struct DeployAccountTransaction {
    pub transaction_hash: FieldElement,
}

/// A transaction of any kind; every kind carries its hash.
#[derive(Clone, Copy, Debug)]
pub enum Transaction {
    Invoke(InvokeTransaction),
    L1Handler(L1HandlerTransaction),
    Declare(DeclareTransaction),
    Deploy(DeployTransaction),
    DeployAccount(DeployAccountTransaction),
}

impl Transaction {
    /// The hash of the transaction, whatever its kind.
    pub open spec fn hash(self) -> FieldElement {
        match self {
            Transaction::Invoke(InvokeTransaction::V0(tx)) => tx.transaction_hash,
            Transaction::Invoke(InvokeTransaction::V1(tx)) => tx.transaction_hash,
            Transaction::L1Handler(tx) => tx.transaction_hash,
            Transaction::Declare(tx) => tx.transaction_hash,
            Transaction::Deploy(tx) => tx.transaction_hash,
            Transaction::DeployAccount(tx) => tx.transaction_hash,
        }
    }

    /// The hash of the transaction, whatever its kind.
    pub fn transaction_hash(&self) -> (hash: FieldElement)
        ensures
            hash == self.hash(),
    {
        match self {
            Transaction::Invoke(tx) => match tx {
                InvokeTransaction::V0(v0_tx) => v0_tx.transaction_hash,
                InvokeTransaction::V1(v1_tx) => v1_tx.transaction_hash,
            },
            Transaction::L1Handler(tx) => tx.transaction_hash,
            Transaction::Declare(tx) => tx.transaction_hash,
            Transaction::Deploy(tx) => tx.transaction_hash,
            Transaction::DeployAccount(tx) => tx.transaction_hash,
        }
    }
}

/// The hashes of a list of transactions, in the order of the list.
pub open spec fn hashes_of(transactions: Seq<Transaction>) -> Seq<FieldElement> {
    Seq::new(transactions.len(), |i: int| transactions[i].hash())
}

/// The hashes of a list of transactions, in the order of the list.
pub fn transaction_hashes(transactions: &Vec<Transaction>) -> (hashes: Vec<FieldElement>)
    ensures
        hashes@ == hashes_of(transactions@),
{
    let mut hashes: Vec<FieldElement> = Vec::new();
    let mut i: usize = 0;
    while i < transactions.len()
        invariant
            i <= transactions.len(),
            hashes@.len() == i,
            forall|j: int| 0 <= j < i ==> hashes@[j] == transactions@[j].hash(),
        decreases transactions.len() - i,
    {
        hashes.push(transactions[i].transaction_hash());
        i += 1;
    }
    assert(hashes@ =~= hashes_of(transactions@));
    hashes
}

/// A finalized block with its transactions.
#[derive(Clone, Debug)]
pub struct BlockWithTxs {
    pub status: BlockStatus,
    pub block_hash: FieldElement,
    pub parent_hash: FieldElement,
    pub block_number: u64,
    pub new_root: FieldElement,
    pub timestamp: u64,
    pub sequencer_address: FieldElement,
    pub transactions: Vec<Transaction>,
}

/// A block that is still being built, with its transactions.
#[derive(Clone, Debug)]
pub struct PendingBlockWithTxs {
    pub transactions: Vec<Transaction>,
    pub timestamp: u64,
    pub sequencer_address: FieldElement,
    pub parent_hash: FieldElement,
}

/// What the provider answers when asked for a block with its transactions.
#[derive(Clone, Debug)]
pub enum MaybePendingBlockWithTxs {
    Block(BlockWithTxs),
    PendingBlock(PendingBlockWithTxs),
}

/// A finalized block with the hashes of its transactions.
#[derive(Clone, Debug)]
pub struct BlockWithTxHashes {
    pub status: BlockStatus,
    pub block_hash: FieldElement,
    pub parent_hash: FieldElement,
    pub block_number: u64,
    pub new_root: FieldElement,
    pub timestamp: u64,
    pub sequencer_address: FieldElement,
    pub transactions: Vec<FieldElement>,
}

/// A block that is still being built, with the hashes of its transactions.
#[derive(Clone, Debug)]
pub struct PendingBlockWithTxHashes {
    pub transactions: Vec<FieldElement>,
    pub timestamp: u64,
    pub sequencer_address: FieldElement,
    pub parent_hash: FieldElement,
}

/// A block with the hashes of its transactions, finalized or not.
#[derive(Clone, Debug)]
pub enum MaybePendingBlockWithTxHashes {
    Block(BlockWithTxHashes),
    PendingBlock(PendingBlockWithTxHashes),
}

/// The hash and the number of one block.
#[derive(Clone, Copy, Debug)]
pub struct BlockHashAndNumber {
    pub block_hash: FieldElement,
    pub block_number: u64,
}

/// A call of a view function of a contract.
#[derive(Clone, Debug)]
pub struct FunctionCall {
    pub contract_address: FieldElement,
    pub entry_point_selector: FieldElement,
    pub calldata: Vec<FieldElement>,
}

impl BlockWithTxs {
    /// Whether `short` is this block as it is answered to a caller who asks
    /// for hashes only: the header unchanged, each transaction replaced by its
    /// hash, in the same order.
    pub open spec fn projects_to(self, short: BlockWithTxHashes) -> bool {
        &&& short.status == self.status
        &&& short.block_hash == self.block_hash
        &&& short.parent_hash == self.parent_hash
        &&& short.block_number == self.block_number
        &&& short.new_root == self.new_root
        &&& short.timestamp == self.timestamp
        &&& short.sequencer_address == self.sequencer_address
        &&& short.transactions@ == hashes_of(self.transactions@)
    }

    /// The block with each transaction replaced by its hash.
    pub fn to_tx_hashes(&self) -> (short: BlockWithTxHashes)
        ensures
            self.projects_to(short),
    {
        BlockWithTxHashes {
            transactions: transaction_hashes(&self.transactions),
            status: self.status,
            block_hash: self.block_hash,
            parent_hash: self.parent_hash,
            block_number: self.block_number,
            new_root: self.new_root,
            timestamp: self.timestamp,
            sequencer_address: self.sequencer_address,
        }
    }
}

} // verus!
