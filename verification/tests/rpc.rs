use beerus_core::rpc::{EthJsonRpcResponse, StarknetRpcBaseData};

#[test]
fn block_number_request_names_its_method() {
    let request = StarknetRpcBaseData::stark_block_number(());
    assert_eq!(request.id(), 1);
    assert_eq!(request.jsonrpc(), "2.0");
    assert_eq!(request.method(), "starknet_blockNumber");
    assert_eq!(*request.params(), ());
}

#[test]
fn transaction_count_request_carries_its_parameters() {
    let request = StarknetRpcBaseData::starknet_get_block_transaction_count(["latest"]);
    assert_eq!(request.id(), 1);
    assert_eq!(request.jsonrpc(), "2.0");
    assert_eq!(request.method(), "starknet_getBlockTransactionCount");
    assert_eq!(*request.params(), ["latest"]);
}

#[test]
fn response_envelope_holds_its_fields() {
    let response = EthJsonRpcResponse {
        id: 1,
        jsonrpc: "2.0".to_string(),
        result: 19640u64,
    };
    assert_eq!(response.id, 1);
    assert_eq!(response.jsonrpc, "2.0");
    assert_eq!(response.result, 19640);
}
