//! The failures that the library reports.

use crate::felt::{FieldElement, FromStrError};
use crate::numeric::decimal_text;
use vstd::prelude::*;
use vstd::string::StringExecFns;

verus! {

/// Why a query could not be answered.
#[derive(Clone, Copy, Debug)]
pub enum Error {
    /// The cache holds no block under its own block number: it is empty.
    BlockNotFound,
    /// The cache holds no block under the number or tag asked for.
    BlockRetrieval,
    /// The cache holds no block with the hash asked for.
    BlockHashNotFound(FieldElement),
    /// The cache holds no pending block.
    PendingBlockNotFound,
    /// The cached state root is not the one that Ethereum attests.
    StateRootMismatch,
    /// The bridge contract's interface has no such function, or not with
    /// such an argument.
    Encoding,
    /// A text that should name a transaction is no field element.
    InvalidFieldElement(FromStrError),
}

impl Error {
    /// The text of the message, as a sequence of characters.
    pub open spec fn message_text(self) -> Seq<char> {
        match self {
            Error::BlockNotFound => "Block not found"@,
            Error::BlockRetrieval => "Error while retrieving block."@,
            Error::BlockHashNotFound(hash) => "Block with hash "@ + decimal_text(hash.value())
                + " not found in the payload."@,
            Error::PendingBlockNotFound => "Block with pending status not found in the payload."@,
            Error::StateRootMismatch => "State root mismatch"@,
            Error::Encoding => "Function data could not be encoded"@,
            Error::InvalidFieldElement(FromStrError::InvalidCharacter) => "invalid character"@,
            Error::InvalidFieldElement(FromStrError::OutOfRange) => "number out of range"@,
        }
    }

    /// The message that describes the failure.
    pub fn message(&self) -> (text: String)
        ensures
            text@ == self.message_text(),
    {
        match self {
            Error::BlockNotFound => String::from_str("Block not found"),
            Error::BlockRetrieval => String::from_str("Error while retrieving block."),
            Error::BlockHashNotFound(hash) => {
                let mut text = String::from_str("Block with hash ");
                let number = hash.to_string();
                text.append(number.as_str());
                text.append(" not found in the payload.");
                text
            },
            Error::PendingBlockNotFound => String::from_str(
                "Block with pending status not found in the payload.",
            ),
            Error::StateRootMismatch => String::from_str("State root mismatch"),
            Error::Encoding => String::from_str("Function data could not be encoded"),
            Error::InvalidFieldElement(FromStrError::InvalidCharacter) => String::from_str(
                "invalid character",
            ),
            Error::InvalidFieldElement(FromStrError::OutOfRange) => String::from_str(
                "number out of range",
            ),
        }
    }
}

} // verus!
