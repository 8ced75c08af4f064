//! The envelopes of JSON-RPC requests and responses.

use vstd::prelude::*;

verus! {

/// What a request envelope holds, as mathematics.
pub struct RequestView<StarknetParams> {
    pub id: usize,
    pub jsonrpc: Seq<char>,
    pub method: Seq<char>,
    pub params: StarknetParams,
}

/// The envelope of a JSON-RPC request to a StarkNet node.
#[derive(Debug)]
pub struct StarknetRpcBaseData<'a, StarknetParams> {
    id: usize,
    jsonrpc: &'a str,
    method: &'a str,
    params: StarknetParams,
}

/// The envelope of a JSON-RPC response.
#[derive(Debug)]
pub struct EthJsonRpcResponse<StarknetParams> {
    pub id: usize,
    pub jsonrpc: String,
    pub result: StarknetParams,
}

impl<'a, StarknetParams> View for StarknetRpcBaseData<'a, StarknetParams> {
    type V = RequestView<StarknetParams>;

    closed spec fn view(&self) -> RequestView<StarknetParams> {
        RequestView {
            id: self.id,
            jsonrpc: self.jsonrpc@,
            method: self.method@,
            params: self.params,
        }
    }
}

impl<'a, StarknetParams> StarknetRpcBaseData<'a, StarknetParams> {
    /// The request for the number of the latest block.
    pub fn stark_block_number(params: StarknetParams) -> (request: Self)
        ensures
            request@ == (RequestView {
                id: 1,
                jsonrpc: "2.0"@,
                method: "starknet_blockNumber"@,
                params,
            }),
    {
        Self { id: 1, jsonrpc: "2.0", method: "starknet_blockNumber", params }
    }

    /// The request for the number of transactions in a block.
    pub fn starknet_get_block_transaction_count(params: StarknetParams) -> (request: Self)
        ensures
            request@ == (RequestView {
                id: 1,
                jsonrpc: "2.0"@,
                method: "starknet_getBlockTransactionCount"@,
                params,
            }),
    {
        Self { id: 1, jsonrpc: "2.0", method: "starknet_getBlockTransactionCount", params }
    }

    /// The identifier of the request.
    pub fn id(&self) -> (id: usize)
        ensures
            id == self@.id,
    {
        self.id
    }

    /// The version of the protocol.
    pub fn jsonrpc(&self) -> (version: &'a str)
        ensures
            version@ == self@.jsonrpc,
    {
        self.jsonrpc
    }

    /// The name of the method that is called.
    pub fn method(&self) -> (method: &'a str)
        ensures
            method@ == self@.method,
    {
        self.method
    }

    /// The parameters of the call.
    pub fn params(&self) -> (params: &StarknetParams)
        ensures
            *params == self@.params,
    {
        &self.params
    }
}

} // verus!
