use beerus_core::bridge::{
    decode_u256, encode_function_data, u256_to_bytes32_type, STARKNET_CORE_ABI,
};
use beerus_core::client::{BeerusLightClient, Config};
use beerus_core::error::Error;
use beerus_core::ethereum::BlockTag;
use beerus_core::uint::{H160, U256};

fn core_contract() -> H160 {
    H160([
        0xc6, 0x62, 0xc4, 0x10, 0xc0, 0xec, 0xf7, 0x47, 0x54, 0x3f, 0x5b, 0xa9, 0x06, 0x60, 0xf6,
        0xab, 0xeb, 0xd9, 0xc8, 0xc4,
    ])
}

fn bridge_client() -> BeerusLightClient {
    BeerusLightClient::new(Config {
        ethereum_network: "mainnet".to_string(),
        ethereum_consensus_rpc: "http://consensus.example".to_string(),
        ethereum_execution_rpc: "http://execution.example".to_string(),
        starknet_rpc: "http://starknet.example".to_string(),
        starknet_core_contract_address: core_contract(),
    })
}

fn call_data(selector: [u8; 4], word: [u8; 32]) -> Vec<u8> {
    let mut data = selector.to_vec();
    data.extend_from_slice(&word);
    data
}

#[test]
fn word_of_a_number_is_its_big_endian_form() {
    let word = u256_to_bytes32_type(&U256::from_u64(0xdead_beef));
    let mut expected = [0u8; 32];
    expected[28..].copy_from_slice(&[0xde, 0xad, 0xbe, 0xef]);
    assert_eq!(word, expected);
}

#[test]
fn call_with_one_word_is_selector_then_word() {
    let word = u256_to_bytes32_type(&U256::from_u64(1));
    let data = encode_function_data(&vec![word], "l1ToL2Messages").unwrap();
    assert_eq!(data, call_data([0x77, 0xc7, 0xd7, 0xa9], word));
}

#[test]
fn call_without_arguments_is_the_selector() {
    let data = encode_function_data(&vec![], "l1ToL2MessageNonce").unwrap();
    assert_eq!(data, vec![0x01, 0x8c, 0xcc, 0xdf]);
}

#[test]
fn unknown_function_is_an_encoding_error() {
    let result = encode_function_data(&vec![], "noSuchFunction");
    assert!(matches!(result, Err(Error::Encoding)));
}

#[test]
fn wrong_number_of_arguments_is_an_encoding_error() {
    let word = [0u8; 32];
    let too_many = encode_function_data(&vec![word], "l1ToL2MessageNonce");
    assert!(matches!(too_many, Err(Error::Encoding)));
    let too_few = encode_function_data(&vec![], "l1ToL2Messages");
    assert!(matches!(too_few, Err(Error::Encoding)));
}

#[test]
fn cancellation_call_goes_to_the_core_contract() {
    let client = bridge_client();
    let msg_hash = U256([3, 0, 0, 5]);
    let call = client
        .starknet_l1_to_l2_message_cancellations(msg_hash)
        .unwrap();
    assert!(call.opts.from.is_none());
    assert_eq!(call.opts.to.0, core_contract().0);
    assert!(call.opts.gas.is_none());
    assert!(call.opts.gas_price.is_none());
    assert!(call.opts.value.is_none());
    assert_eq!(
        call.opts.data.unwrap(),
        call_data([0x9b, 0xe4, 0x46, 0xbf], msg_hash.to_big_endian())
    );
    assert_eq!(call.block, BlockTag::Latest);
}

#[test]
fn message_fee_calls_differ_by_direction() {
    let client = bridge_client();
    let msg_hash = U256::from_u64(0x1234);
    let to_l2 = client.starknet_l1_to_l2_messages(msg_hash).unwrap();
    let to_l1 = client.starknet_l2_to_l1_messages(msg_hash).unwrap();
    assert_eq!(
        to_l2.opts.data.unwrap(),
        call_data([0x77, 0xc7, 0xd7, 0xa9], msg_hash.to_big_endian())
    );
    assert_eq!(
        to_l1.opts.data.unwrap(),
        call_data([0xa4, 0x6e, 0xfa, 0xf3], msg_hash.to_big_endian())
    );
    assert_eq!(to_l2.opts.to.0, core_contract().0);
    assert_eq!(to_l1.opts.to.0, core_contract().0);
    assert_eq!(to_l2.block, BlockTag::Latest);
    assert_eq!(to_l1.block, BlockTag::Latest);
}

#[test]
fn nonce_call_takes_no_argument() {
    let client = bridge_client();
    let call = client.starknet_l1_to_l2_message_nonce().unwrap();
    assert_eq!(call.opts.data.unwrap(), vec![0x01, 0x8c, 0xcc, 0xdf]);
    assert_eq!(call.opts.to.0, core_contract().0);
    assert_eq!(call.block, BlockTag::Latest);
}

#[test]
fn answer_of_a_call_is_read_as_a_number() {
    assert_eq!(decode_u256(&[]), U256::zero());
    assert_eq!(decode_u256(&[0x01, 0x00]), U256::from_u64(256));
    let mut answer = [0u8; 32];
    answer[23] = 1;
    assert_eq!(decode_u256(&answer), U256([0, 1, 0, 0]));
}

#[test]
fn echoed_number_comes_back_through_a_call() {
    let client = bridge_client();
    let known = U256([0x1122_3344_5566_7788, 0x99aa_bbcc_ddee_ff00, 7, 0x0123_4567_89ab_cdef]);
    let call = client.starknet_l1_to_l2_messages(known).unwrap();
    let sent = call.opts.data.unwrap();
    let echoed: Vec<u8> = sent[4..].to_vec();
    assert_eq!(decode_u256(&echoed), known);
    assert_eq!(decode_u256(&known.to_big_endian()), known);
}

#[test]
fn embedded_interface_lists_plain_types_only() {
    assert!(STARKNET_CORE_ABI.is_ascii());
    let mut types: Vec<&str> = Vec::new();
    for part in STARKNET_CORE_ABI.split("\"type\":\"").skip(1) {
        types.push(part.split('"').next().unwrap());
    }
    assert_eq!(types.len(), 15);
    for kind in types {
        assert!(matches!(kind, "bytes32" | "uint256" | "int256" | "function"));
    }
    for name in [
        "l1ToL2MessageCancellations",
        "l1ToL2MessageNonce",
        "l1ToL2Messages",
        "l2ToL1Messages",
    ] {
        assert!(STARKNET_CORE_ABI.contains(&format!("\"name\":\"{}\"", name)));
    }
}

#[test]
fn embedded_interface_knows_every_function_the_client_calls() {
    let word = [0u8; 32];
    for name in ["l1ToL2MessageCancellations", "l1ToL2Messages", "l2ToL1Messages"] {
        let data = encode_function_data(&vec![word], name).unwrap();
        assert_eq!(data.len(), 36);
    }
    let data = encode_function_data(&vec![], "l1ToL2MessageNonce").unwrap();
    assert_eq!(data.len(), 4);
}

#[test]
fn core_contract_call_is_a_plain_call_against_the_latest_block() {
    let client = bridge_client();
    let call = client.core_contract_call(vec![1, 2, 3]);
    assert!(call.opts.from.is_none());
    assert_eq!(call.opts.to.0, core_contract().0);
    assert!(call.opts.gas.is_none());
    assert!(call.opts.gas_price.is_none());
    assert!(call.opts.value.is_none());
    assert_eq!(call.opts.data, Some(vec![1, 2, 3]));
    assert_eq!(call.block, BlockTag::Latest);
}

#[test]
fn answer_for_an_unknown_message_is_zero() {
    assert_eq!(decode_u256(&[0u8; 32]), U256::zero());
    assert_eq!(decode_u256(&[0u8; 32]).to_string(), "0");
}
