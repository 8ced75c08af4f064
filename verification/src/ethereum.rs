//! What is handed to the Ethereum light client: a call and the block to run
//! it against.

use crate::uint::{H160, U256};
use vstd::prelude::*;

verus! {

/// The Ethereum block that a call is run against.
#[derive(Clone, Copy, Debug, PartialEq, Eq, Structural)]
pub enum BlockTag {
    Latest,
    Finalized,
    Number(u64),
}

/// The options of a read-only call of an Ethereum contract.
#[derive(Clone, Debug)]
pub struct CallOpts {
    pub from: Option<H160>,
    pub to: H160,
    pub gas: Option<U256>,
    pub gas_price: Option<U256>,
    pub value: Option<U256>,
    pub data: Option<Vec<u8>>,
}

impl CallOpts {
    /// Whether these are the options of a plain call of the contract at `to`
    /// with the given data: no sender, no gas, no gas price, no value.
    pub open spec fn is_plain_call(self, to: H160, data: Seq<u8>) -> bool {
        &&& self.from is None
        &&& self.to == to
        &&& self.gas is None
        &&& self.gas_price is None
        &&& self.value is None
        &&& self.data matches Some(bytes) && bytes@ == data
    }
}

/// A call for the Ethereum light client to run, and the block to run it
/// against.
#[derive(Clone, Debug)]
pub struct OracleCall {
    pub opts: CallOpts,
    pub block: BlockTag,
}

} // verus!
