//! The light client: its lifecycle, the steps of its synchronisation loop,
//! and the queries it answers.
//!
//! Nothing here reads from a network. A query that needs the provider returns
//! the request to make; one that needs what Ethereum attests takes it as an
//! argument. The driver of the client performs the requests.

use crate::block::{
    BlockHashAndNumber, BlockId, BlockTag, BlockWithTxs, FunctionCall, MaybePendingBlockWithTxHashes,
    MaybePendingBlockWithTxs,
};
use crate::bridge::{
    abi_call_data, encode_function_data, u256_to_bytes32_type, words_bytes, STARKNET_CORE_ABI,
};
use crate::error::Error;
use crate::ethereum::{CallOpts, OracleCall};
use crate::felt::{hex_field_element, parsed_field_element, FieldElement, FromStrError};
use crate::node::{NodeData, NodeView};
use crate::numeric::{be_word, decimal_text};
use crate::provider::ProviderRequest;
use crate::uint::{H160, U256};
use vstd::prelude::*;

verus! {

/// The seconds that the synchronisation loop rests between two rounds.
pub const SYNC_INTERVAL_SECS: u64 = 5;

/// Where the client stands in its lifecycle.
#[derive(Clone, Copy, Debug, PartialEq, Eq, Structural)]
pub enum SyncStatus {
    NotSynced,
    Syncing,
    Synced,
}

/// The settings that a client is made with.
#[derive(Clone, Debug)]
pub struct Config {
    pub ethereum_network: String,
    pub ethereum_consensus_rpc: String,
    pub ethereum_execution_rpc: String,
    pub starknet_rpc: String,
    pub starknet_core_contract_address: H160,
}

/// What the driver reports while the client starts.
#[derive(Clone, Copy, Debug, PartialEq, Eq, Structural)]
pub enum StartEvent {
    /// A start was asked for.
    Requested,
    /// The Ethereum light client runs.
    EthereumStarted,
    /// The Ethereum light client could not be started.
    EthereumFailed,
    /// The StarkNet light client runs.
    StarknetStarted,
    /// The StarkNet light client could not be started.
    StarknetFailed,
}

/// What the driver is to do next while the client starts.
#[derive(Clone, Copy, Debug, PartialEq, Eq, Structural)]
pub enum StartAction {
    /// Start the Ethereum light client and report how it went.
    StartEthereum,
    /// Start the StarkNet light client and report how it went.
    StartStarknet,
    /// Both run: start the synchronisation loop.
    SpawnSyncLoop,
    /// Nothing is left to do.
    Nothing,
    /// The start failed; hand the failure to whoever asked for the start.
    Abort,
}

/// What the driver reports to the synchronisation loop.
#[derive(Debug)]
pub enum SyncEvent {
    /// A round begins: the loop was started, or its rest is over.
    Woke,
    /// Ethereum attested a state root and a last proven block.
    AnchorRead { state_root: U256, last_proven_block: u64 },
    /// What Ethereum attests could not be read.
    AnchorFailed,
    /// The provider answered the request for the latest block.
    BlockFetched(MaybePendingBlockWithTxs),
    /// The provider did not answer.
    FetchFailed,
}

/// What the driver of the synchronisation loop is to do next.
#[derive(Clone, Copy, Debug)]
pub enum SyncAction {
    /// Read the state root and the last proven block that Ethereum attests.
    ReadAnchor,
    /// Ask the provider for the named block, with its transactions.
    FetchBlock(BlockId),
    /// Rest for the given number of seconds, then report `Woke`.
    Sleep { seconds: u64 },
}

/// What a client holds, as mathematics.
pub struct ClientView {
    pub config: Config,
    pub sync_status: SyncStatus,
    /// Whether, while starting, the Ethereum light client already runs.
    pub ethereum_started: bool,
    pub starknet_core_contract_address: H160,
    pub node: NodeView,
}

impl ClientView {
    /// Whether `r` is what a call of the function `function` of the StarkNet
    /// core contract comes to: where the interface encodes the call, a plain
    /// call of the contract with that data, against the latest block of
    /// Ethereum; otherwise the encoding error.
    pub open spec fn calls_bridge(
        self,
        function: Seq<char>,
        arguments: Seq<Seq<u8>>,
        r: Result<OracleCall, Error>,
    ) -> bool {
        match abi_call_data(STARKNET_CORE_ABI@, function, arguments) {
            Some(data) => {
                &&& r matches Ok(call)
                &&& call.opts.is_plain_call(self.starknet_core_contract_address, data)
                &&& call.block == crate::ethereum::BlockTag::Latest
            },
            None => r == Err::<OracleCall, Error>(Error::Encoding),
        }
    }
}

/// One step of the start of a client: the status and the progress after an
/// event, and what the driver is to do.
pub open spec fn start_step(status: SyncStatus, ethereum_started: bool, event: StartEvent) -> (
    SyncStatus,
    bool,
    StartAction,
) {
    match (status, event) {
        (SyncStatus::NotSynced, StartEvent::Requested) => (
            SyncStatus::Syncing,
            false,
            StartAction::StartEthereum,
        ),
        (SyncStatus::Syncing, StartEvent::EthereumStarted) if !ethereum_started => (
            SyncStatus::Syncing,
            true,
            StartAction::StartStarknet,
        ),
        (SyncStatus::Syncing, StartEvent::EthereumFailed) if !ethereum_started => (
            SyncStatus::NotSynced,
            false,
            StartAction::Abort,
        ),
        (SyncStatus::Syncing, StartEvent::StarknetStarted) if ethereum_started => (
            SyncStatus::Synced,
            true,
            StartAction::SpawnSyncLoop,
        ),
        (SyncStatus::Syncing, StartEvent::StarknetFailed) if ethereum_started => (
            SyncStatus::NotSynced,
            false,
            StartAction::Abort,
        ),
        _ => (status, ethereum_started, StartAction::Nothing),
    }
}

/// What the synchronisation loop does after an event.
pub open spec fn sync_action(event: SyncEvent) -> SyncAction {
    match event {
        SyncEvent::Woke => SyncAction::ReadAnchor,
        SyncEvent::AnchorRead { .. } => SyncAction::FetchBlock(BlockId::Tag(BlockTag::Latest)),
        SyncEvent::AnchorFailed => SyncAction::Sleep { seconds: SYNC_INTERVAL_SECS },
        SyncEvent::BlockFetched(_) => SyncAction::Sleep { seconds: SYNC_INTERVAL_SECS },
        SyncEvent::FetchFailed => SyncAction::Sleep { seconds: SYNC_INTERVAL_SECS },
    }
}

/// The cache after the synchronisation loop saw an event: only an answer of
/// the provider can change it.
pub open spec fn sync_node(node: NodeView, event: SyncEvent) -> NodeView {
    match event {
        SyncEvent::BlockFetched(fetched) => node.observe(fetched),
        _ => node,
    }
}

/// The block that an identifier names in a cache, or why there is none. The
/// cache never holds a pending block, so the pending tag names none.
pub open spec fn resolve(node: NodeView, id: BlockId) -> Result<BlockWithTxs, Error> {
    match id {
        BlockId::Number(number) => match node.block_numbered(number) {
            Some(block) => Ok(block),
            None => Err(Error::BlockRetrieval),
        },
        BlockId::Hash(hash) => match node.block_hashed(hash) {
            Some(block) => Ok(block),
            None => Err(Error::BlockHashNotFound(hash)),
        },
        BlockId::Tag(BlockTag::Latest) => match node.block_numbered(node.block_number) {
            Some(block) => Ok(block),
            None => Err(Error::BlockRetrieval),
        },
        BlockId::Tag(BlockTag::Pending) => Err(Error::PendingBlockNotFound),
    }
}

/// The argument list that holds one `bytes32` word.
fn one_word(word: [u8; 32]) -> (args: Vec<[u8; 32]>)
    ensures
        words_bytes(args@) == seq![word@],
{
    let mut args: Vec<[u8; 32]> = Vec::new();
    args.push(word);
    assert(words_bytes(args@) =~= seq![word@]);
    args
}

/// The light client.
pub struct BeerusLightClient {
    config: Config,
    sync_status: SyncStatus,
    ethereum_started: bool,
    starknet_core_contract_address: H160,
    node: NodeData,
}

impl View for BeerusLightClient {
    type V = ClientView;

    closed spec fn view(&self) -> ClientView {
        ClientView {
            config: self.config,
            sync_status: self.sync_status,
            ethereum_started: self.ethereum_started,
            starknet_core_contract_address: self.starknet_core_contract_address,
            node: self.node@,
        }
    }
}

impl BeerusLightClient {
    /// A client that has not started, with an empty cache.
    pub fn new(config: Config) -> (client: BeerusLightClient)
        ensures
            client@.config == config,
            client@.sync_status == SyncStatus::NotSynced,
            !client@.ethereum_started,
            client@.starknet_core_contract_address == config.starknet_core_contract_address,
            client@.node == NodeView::empty(),
    {
        let starknet_core_contract_address = config.starknet_core_contract_address;
        BeerusLightClient {
            config,
            sync_status: SyncStatus::NotSynced,
            ethereum_started: false,
            starknet_core_contract_address,
            node: NodeData::new(),
        }
    }

    /// The settings that the client was made with.
    pub fn config(&self) -> (config: &Config)
        ensures
            *config == self@.config,
    {
        &self.config
    }

    /// Where the client stands in its lifecycle.
    pub fn sync_status(&self) -> (status: &SyncStatus)
        ensures
            *status == self@.sync_status,
    {
        &self.sync_status
    }

    /// The address of the StarkNet core contract on Ethereum.
    pub fn starknet_core_contract_address(&self) -> (address: H160)
        ensures
            address == self@.starknet_core_contract_address,
    {
        self.starknet_core_contract_address
    }

    /// The interface of the StarkNet core contract.
    pub fn starknet_core_abi(&self) -> (abi: &'static str)
        ensures
            abi@ == STARKNET_CORE_ABI@,
    {
        STARKNET_CORE_ABI
    }

    /// The cache.
    pub fn node(&self) -> (node: &NodeData)
        ensures
            node@ == self@.node,
    {
        &self.node
    }

    /// Takes the start of the client one step further. A start is asked for
    /// with `Requested`; the driver then does what the returned action says
    /// and reports the outcome, until the action is `SpawnSyncLoop`, `Nothing`
    /// or `Abort`. A client that is starting or has started ignores a further
    /// `Requested`.
    pub fn start(&mut self, event: StartEvent) -> (action: StartAction)
        ensures
            final(self)@.sync_status == start_step(
                old(self)@.sync_status,
                old(self)@.ethereum_started,
                event,
            ).0,
            final(self)@.ethereum_started == start_step(
                old(self)@.sync_status,
                old(self)@.ethereum_started,
                event,
            ).1,
            action == start_step(old(self)@.sync_status, old(self)@.ethereum_started, event).2,
            final(self)@.config == old(self)@.config,
            final(self)@.starknet_core_contract_address == old(
                self,
            )@.starknet_core_contract_address,
            final(self)@.node == old(self)@.node,
            old(self)@.sync_status != SyncStatus::NotSynced && event == StartEvent::Requested ==> {
                &&& action == StartAction::Nothing
                &&& final(self)@ == old(self)@
            },
    {
        let status = self.sync_status;
        let ethereum_started = self.ethereum_started;
        if status == SyncStatus::NotSynced && event == StartEvent::Requested {
            self.sync_status = SyncStatus::Syncing;
            self.ethereum_started = false;
            StartAction::StartEthereum
        } else if status == SyncStatus::Syncing && !ethereum_started && event
            == StartEvent::EthereumStarted {
            self.ethereum_started = true;
            StartAction::StartStarknet
        } else if status == SyncStatus::Syncing && !ethereum_started && event
            == StartEvent::EthereumFailed {
            self.sync_status = SyncStatus::NotSynced;
            StartAction::Abort
        } else if status == SyncStatus::Syncing && ethereum_started && event
            == StartEvent::StarknetStarted {
            self.sync_status = SyncStatus::Synced;
            StartAction::SpawnSyncLoop
        } else if status == SyncStatus::Syncing && ethereum_started && event
            == StartEvent::StarknetFailed {
            self.sync_status = SyncStatus::NotSynced;
            self.ethereum_started = false;
            StartAction::Abort
        } else {
            StartAction::Nothing
        }
    }

    /// Takes the synchronisation loop one step further: merges an answer of
    /// the provider into the cache and says what the driver is to do next. No
    /// event stops the loop, and none but an answer of the provider touches
    /// the cache.
    pub fn on_sync_event(&mut self, event: SyncEvent) -> (action: SyncAction)
        ensures
            action == sync_action(event),
            final(self)@.node == sync_node(old(self)@.node, event),
            final(self)@.node.block_number >= old(self)@.node.block_number,
            final(self)@.config == old(self)@.config,
            final(self)@.sync_status == old(self)@.sync_status,
            final(self)@.ethereum_started == old(self)@.ethereum_started,
            final(self)@.starknet_core_contract_address == old(
                self,
            )@.starknet_core_contract_address,
    {
        match event {
            SyncEvent::Woke => SyncAction::ReadAnchor,
            SyncEvent::AnchorRead { .. } => SyncAction::FetchBlock(BlockId::Tag(BlockTag::Latest)),
            SyncEvent::AnchorFailed => SyncAction::Sleep { seconds: SYNC_INTERVAL_SECS },
            SyncEvent::BlockFetched(fetched) => {
                let mut node = NodeData::new();
                std::mem::swap(&mut self.node, &mut node);
                self.node = node.observe(fetched);
                SyncAction::Sleep { seconds: SYNC_INTERVAL_SECS }
            },
            SyncEvent::FetchFailed => SyncAction::Sleep { seconds: SYNC_INTERVAL_SECS },
        }
    }

    /// The request for the value stored under a key of a contract, as of the
    /// last block that Ethereum has proven.
    pub fn starknet_get_storage_at(
        &self,
        contract_address: FieldElement,
        storage_key: FieldElement,
        last_proven_block: u64,
    ) -> (request: ProviderRequest)
        ensures
            request == (ProviderRequest::GetStorageAt {
                contract_address,
                key: storage_key,
                block_number: last_proven_block,
            }),
    {
        ProviderRequest::GetStorageAt {
            contract_address,
            key: storage_key,
            block_number: last_proven_block,
        }
    }

    /// The request for the result of a view function, as of the last block
    /// that Ethereum has proven. What the provider answers is not proven.
    pub fn starknet_call_contract(
        &self,
        contract_address: FieldElement,
        entry_point_selector: FieldElement,
        calldata: Vec<FieldElement>,
        last_proven_block: u64,
    ) -> (request: ProviderRequest)
        ensures
            request == (ProviderRequest::Call {
                call: FunctionCall { contract_address, entry_point_selector, calldata },
                block_number: last_proven_block,
            }),
    {
        let opts = FunctionCall { contract_address, entry_point_selector, calldata };
        ProviderRequest::Call { call: opts, block_number: last_proven_block }
    }

    /// The request for the fee that a transaction would cost, as of the block
    /// that the caller names.
    pub fn starknet_estimate_fee(
        &self,
        request: starknet::core::types::BroadcastedTransaction,
        block_id: &BlockId,
    ) -> (estimate: ProviderRequest)
        ensures
            estimate == (ProviderRequest::EstimateFee { request, block_id: *block_id }),
    {
        ProviderRequest::EstimateFee { request, block_id: *block_id }
    }

    /// The request for the nonce of a contract, as of the last block that
    /// Ethereum has proven.
    pub fn starknet_get_nonce(&self, address: FieldElement, last_proven_block: u64) -> (request:
        ProviderRequest)
        ensures
            request == (ProviderRequest::GetNonce { block_number: last_proven_block, address }),
    {
        ProviderRequest::GetNonce { block_number: last_proven_block, address }
    }

    /// The call of the StarkNet core contract with the given call data: a
    /// plain call, to be run by the Ethereum light client against its latest
    /// block.
    pub fn core_contract_call(&self, data: Vec<u8>) -> (call: OracleCall)
        ensures
            call.opts.is_plain_call(self@.starknet_core_contract_address, data@),
            call.block == crate::ethereum::BlockTag::Latest,
    {
        OracleCall {
            opts: CallOpts {
                from: None,
                to: self.starknet_core_contract_address,
                gas: None,
                gas_price: None,
                value: None,
                data: Some(data),
            },
            block: crate::ethereum::BlockTag::Latest,
        }
    }

    /// The call of a function of the StarkNet core contract with the given
    /// `bytes32` arguments.
    fn bridge_call(&self, name: &str, args: &Vec<[u8; 32]>) -> (r: Result<OracleCall, Error>)
        ensures
            self@.calls_bridge(name@, words_bytes(args@), r),
    {
        match encode_function_data(args, name) {
            Ok(data) => Ok(self.core_contract_call(data)),
            Err(e) => Err(e),
        }
    }

    /// The call that asks the StarkNet core contract when the message with the
    /// given hash was cancelled; the contract answers 0 for a message that
    /// never was.
    pub fn starknet_l1_to_l2_message_cancellations(&self, msg_hash: U256) -> (r: Result<
        OracleCall,
        Error,
    >)
        ensures
            self@.calls_bridge(
                "l1ToL2MessageCancellations"@,
                seq![be_word(msg_hash.value(), 32)],
                r,
            ),
    {
        let args = one_word(u256_to_bytes32_type(&msg_hash));
        self.bridge_call("l1ToL2MessageCancellations", &args)
    }

    /// The call that asks the StarkNet core contract for the fee, plus one, of
    /// the message to StarkNet with the given hash; the contract answers 0
    /// where there is no such message.
    pub fn starknet_l1_to_l2_messages(&self, msg_hash: U256) -> (r: Result<OracleCall, Error>)
        ensures
            self@.calls_bridge("l1ToL2Messages"@, seq![be_word(msg_hash.value(), 32)], r),
    {
        let args = one_word(u256_to_bytes32_type(&msg_hash));
        self.bridge_call("l1ToL2Messages", &args)
    }

    /// The call that asks the StarkNet core contract for the fee, plus one, of
    /// the message to Ethereum with the given hash; the contract answers 0
    /// where no such message is pending.
    pub fn starknet_l2_to_l1_messages(&self, msg_hash: U256) -> (r: Result<OracleCall, Error>)
        ensures
            self@.calls_bridge("l2ToL1Messages"@, seq![be_word(msg_hash.value(), 32)], r),
    {
        let args = one_word(u256_to_bytes32_type(&msg_hash));
        self.bridge_call("l2ToL1Messages", &args)
    }

    /// The call that asks the StarkNet core contract for the nonce of the
    /// messages to StarkNet.
    pub fn starknet_l1_to_l2_message_nonce(&self) -> (r: Result<OracleCall, Error>)
        ensures
            self@.calls_bridge("l1ToL2MessageNonce"@, Seq::empty(), r),
    {
        let args: Vec<[u8; 32]> = Vec::new();
        assert(words_bytes(args@) =~= Seq::<Seq<u8>>::empty());
        self.bridge_call("l1ToL2MessageNonce", &args)
    }

    /// The hash and the number of the latest cached block. An empty cache has
    /// none, and the query fails on it.
    pub fn get_block_hash_and_number(&self) -> (r: Result<BlockHashAndNumber, Error>)
        ensures
            match r {
                Ok(found) => {
                    &&& self@.node.block_number != 0
                    &&& found.block_number == self@.node.block_number
                    &&& found.block_hash == self@.node.payload[self@.node.block_number].block_hash
                },
                Err(e) => e == Error::BlockNotFound && self@.node == NodeView::empty(),
            },
    {
        proof {
            use_type_invariant(&self.node);
        }
        match self.node.block_by_number(self.node.block_number()) {
            Some(block) => Ok(
                BlockHashAndNumber {
                    block_hash: block.block_hash,
                    block_number: block.block_number,
                },
            ),
            None => Err(Error::BlockNotFound),
        }
    }

    /// The request for the receipt of the transaction whose hash was read
    /// from a text, given what the reading came to. It is handed out only
    /// while the cached state root is the one that Ethereum attests; a
    /// mismatch is reported before anything else.
    pub fn receipt_request(
        &self,
        tx_hash: Result<FieldElement, FromStrError>,
        state_root: &U256,
    ) -> (r: Result<ProviderRequest, Error>)
        ensures
            r == if self@.node.state_root != decimal_text(state_root.value()) {
                Err::<ProviderRequest, Error>(Error::StateRootMismatch)
            } else {
                match tx_hash {
                    Ok(hash) => Ok(ProviderRequest::GetTransactionReceipt(hash)),
                    Err(e) => Err(Error::InvalidFieldElement(e)),
                }
            },
    {
        let state_root = state_root.to_string();
        if *self.node.state_root() != state_root {
            return Err(Error::StateRootMismatch);
        }
        match tx_hash {
            Ok(tx_hash_felt) => Ok(ProviderRequest::GetTransactionReceipt(tx_hash_felt)),
            Err(e) => Err(Error::InvalidFieldElement(e)),
        }
    }

    /// The request for the receipt of the transaction with the given hash,
    /// written in hexadecimal. It is handed out only while the cached state
    /// root is the one that Ethereum attests.
    pub fn starknet_get_transaction_receipt(&self, tx_hash: String, state_root: &U256) -> (r:
        Result<ProviderRequest, Error>)
        ensures
            self@.node.state_root != decimal_text(state_root.value()) ==> r == Err::<
                ProviderRequest,
                Error,
            >(Error::StateRootMismatch),
            self@.node.state_root == decimal_text(state_root.value()) ==> match hex_field_element(
                tx_hash@,
            ) {
                Ok(bytes) => r matches Ok(ProviderRequest::GetTransactionReceipt(hash)) && hash@
                    == bytes,
                Err(e) => r == Err::<ProviderRequest, Error>(Error::InvalidFieldElement(e)),
            },
    {
        self.receipt_request(FieldElement::from_hex_be(tx_hash.as_str()), state_root)
    }

    /// The cached block that the identifier names, with each transaction
    /// replaced by its hash.
    pub fn get_block_with_tx_hashes(&self, block_id: &BlockId) -> (r: Result<
        MaybePendingBlockWithTxHashes,
        Error,
    >)
        ensures
            match resolve(self@.node, *block_id) {
                Ok(block) => r matches Ok(MaybePendingBlockWithTxHashes::Block(short))
                    && block.projects_to(short),
                Err(e) => r == Err::<MaybePendingBlockWithTxHashes, Error>(e),
            },
            block_id is Number && self@.node.payload.contains_key(block_id->Number_0) ==> {
                let source = self@.node.payload[block_id->Number_0];
                &&& r matches Ok(MaybePendingBlockWithTxHashes::Block(short))
                &&& short.transactions@.len() == source.transactions@.len()
                &&& forall|i: int|
                    0 <= i < short.transactions@.len() ==> short.transactions@[i]
                        == source.transactions@[i].hash()
            },
    {
        let block = match block_id {
            BlockId::Number(block_number) => match self.node.block_by_number(*block_number) {
                Some(block) => block,
                None => {
                    return Err(Error::BlockRetrieval);
                },
            },
            BlockId::Hash(block_hash) => match self.node.block_by_hash(block_hash) {
                Some(block) => block,
                None => {
                    return Err(Error::BlockHashNotFound(*block_hash));
                },
            },
            BlockId::Tag(tag) => match tag {
                BlockTag::Latest => match self.node.block_by_number(self.node.block_number()) {
                    Some(block) => block,
                    None => {
                        return Err(Error::BlockRetrieval);
                    },
                },
                BlockTag::Pending => {
                    return Err(Error::PendingBlockNotFound);
                },
            },
        };
        Ok(MaybePendingBlockWithTxHashes::Block(block.to_tx_hashes()))
    }

    /// The request for the transaction whose hash was read from a text, given
    /// what the reading came to.
    pub fn transaction_request(tx_hash: Result<FieldElement, FromStrError>) -> (r: Result<
        ProviderRequest,
        Error,
    >)
        ensures
            r == match tx_hash {
                Ok(hash) => Ok::<ProviderRequest, Error>(
                    ProviderRequest::GetTransactionByHash(hash),
                ),
                Err(e) => Err(Error::InvalidFieldElement(e)),
            },
    {
        match tx_hash {
            Ok(hash) => Ok(ProviderRequest::GetTransactionByHash(hash)),
            Err(e) => Err(Error::InvalidFieldElement(e)),
        }
    }

    /// The request for the transaction with the given hash, written in decimal
    /// or, after `0x`, in hexadecimal.
    pub fn get_transaction_by_hash(&self, tx_hash: String) -> (r: Result<ProviderRequest, Error>)
        ensures
            match parsed_field_element(tx_hash@) {
                Ok(bytes) => r matches Ok(ProviderRequest::GetTransactionByHash(hash)) && hash@
                    == bytes,
                Err(e) => r == Err::<ProviderRequest, Error>(Error::InvalidFieldElement(e)),
            },
    {
        Self::transaction_request(FieldElement::from_str(tx_hash.as_str()))
    }
}

} // verus!
