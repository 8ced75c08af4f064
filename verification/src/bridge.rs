//! Calls of the StarkNet core contract on Ethereum: how a call is encoded and
//! how its answer is read.

use crate::error::Error;
use crate::numeric::{be_value, be_word};
use crate::uint::U256;
use vstd::prelude::*;

verus! {

/// The interface of the StarkNet core contract, as far as this library calls
/// it, in the JSON form that Solidity compilers emit.
pub const STARKNET_CORE_ABI: &'static str =
    r#"[
  {"inputs":[{"internalType":"bytes32","name":"msgHash","type":"bytes32"}],"name":"l1ToL2MessageCancellations","outputs":[{"internalType":"uint256","name":"","type":"uint256"}],"stateMutability":"view","type":"function"},
  {"inputs":[],"name":"l1ToL2MessageNonce","outputs":[{"internalType":"uint256","name":"","type":"uint256"}],"stateMutability":"view","type":"function"},
  {"inputs":[{"internalType":"bytes32","name":"msgHash","type":"bytes32"}],"name":"l1ToL2Messages","outputs":[{"internalType":"uint256","name":"","type":"uint256"}],"stateMutability":"view","type":"function"},
  {"inputs":[{"internalType":"bytes32","name":"msgHash","type":"bytes32"}],"name":"l2ToL1Messages","outputs":[{"internalType":"uint256","name":"","type":"uint256"}],"stateMutability":"view","type":"function"},
  {"inputs":[],"name":"stateBlockNumber","outputs":[{"internalType":"int256","name":"","type":"int256"}],"stateMutability":"view","type":"function"},
  {"inputs":[],"name":"stateRoot","outputs":[{"internalType":"uint256","name":"","type":"uint256"}],"stateMutability":"view","type":"function"}
]"#;

/// The call data that `ethers` encodes for a function of an interface: what
/// `ethers::abi::Function::encode_input` returns for the function that
/// `ethers::abi::Abi::function` finds under `function` in the interface that
/// `abi` deserialises to, applied to the given `bytes32` arguments. `None`
/// where the text is no interface, the interface has no such function, or the
/// function takes other arguments. The library states it of its own interface
/// only: on other texts the deserialiser may not return.
pub uninterp spec fn abi_call_data(
    abi: Seq<char>,
    function: Seq<char>,
    arguments: Seq<Seq<u8>>,
) -> Option<Seq<u8>>;

/// The bytes of a list of `bytes32` arguments.
pub open spec fn words_bytes(words: Seq<[u8; 32]>) -> Seq<Seq<u8>> {
    Seq::new(words.len(), |i: int| words[i]@)
}

/// Deserialises the interface with `serde_json`, looks the function up with
/// `ethers::abi::Abi::function` and encodes the call with
/// `ethers::abi::Function::encode_input`, each word as one
/// `ethers::abi::Token::FixedBytes`; a failure of any of the three gives
/// `None`. The reader of parameter types behind the deserialiser panics on
/// some malformed type texts, so the wrapper takes the interface of this
/// library only, whose types are plain `bytes32`, `uint256` and `int256`: on
/// it every step returns. The contract only names the outcome.
#[verifier::external_body]
fn encode_with_abi(abi: &str, function: &str, words: &Vec<[u8; 32]>) -> (data: Option<Vec<u8>>)
    requires
        abi@ == STARKNET_CORE_ABI@,
    ensures
        match data {
            Some(bytes) => abi_call_data(abi@, function@, words_bytes(words@)) == Some(bytes@),
            None => abi_call_data(abi@, function@, words_bytes(words@)) is None,
        },
{
    let contract: ethers::abi::Abi = serde_json::from_str(abi).ok()?;
    let tokens: Vec<ethers::abi::Token> = words.iter().map(
        |word| ethers::abi::Token::FixedBytes(word.to_vec()),
    ).collect();
    contract.function(function).ok()?.encode_input(&tokens).ok()
}

/// The 32-byte word that carries a 256-bit number as a `bytes32` argument.
pub fn u256_to_bytes32_type(value: &U256) -> (word: [u8; 32])
    ensures
        word@ == be_word(value.value(), 32),
        be_value(word@) == value.value(),
{
    value.to_big_endian()
}

/// The call data for the function `name` of the StarkNet core contract,
/// applied to the given `bytes32` arguments. The encoding fails where the
/// interface has no such function, or the function takes other arguments.
pub fn encode_function_data(args: &Vec<[u8; 32]>, name: &str) -> (r: Result<Vec<u8>, Error>)
    ensures
        match r {
            Ok(data) => abi_call_data(STARKNET_CORE_ABI@, name@, words_bytes(args@)) == Some(
                data@,
            ),
            Err(e) => e == Error::Encoding && abi_call_data(
                STARKNET_CORE_ABI@,
                name@,
                words_bytes(args@),
            ) is None,
        },
{
    match encode_with_abi(STARKNET_CORE_ABI, name, args) {
        Some(data) => Ok(data),
        None => Err(Error::Encoding),
    }
}

/// The 256-bit number that the answer of a call carries: its bytes read most
/// significant byte first.
pub fn decode_u256(bytes: &[u8]) -> (value: U256)
    requires
        bytes@.len() <= 32,
    ensures
        value.value() == be_value(bytes@),
{
    U256::from_big_endian(bytes)
}

/// Reading back the word that carries a number gives that number: whatever
/// value encodes to `word`, and whatever value `word` decodes to, are the same.
pub proof fn lemma_decode_inverts_encode(value: U256, word: Seq<u8>, decoded: U256)
    requires
        be_value(word) == value.value(),
        decoded.value() == be_value(word),
    ensures
        decoded == value,
{
    U256::lemma_value_injective(decoded, value);
}

} // verus!
