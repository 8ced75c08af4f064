//! Trust-minimised StarkNet light client core.
//!
//! The crate holds the decisions of a light client that answers queries about
//! StarkNet while anchoring every answer to what Ethereum has attested: the
//! block cache fed by an untrusted provider, the synchronisation steps that
//! extend it, the calls of the bridge contract, and the query surface. It
//! performs no input or output itself: a driver performs the requests the
//! library hands out and feeds the answers back.
//!
//! - [`numeric`]: big-endian numbers and decimal text, as mathematics.
//! - [`felt`] and [`uint`]: field elements, 256-bit integers and addresses.
//! - [`block`]: blocks and transactions as the provider reports them.
//! - [`node`]: the cache and the laws of how it grows.
//! - [`bridge`]: calls of the StarkNet core contract and their answers.
//! - [`ethereum`] and [`provider`]: what is handed to the two light clients.
//! - [`client`]: the light client itself.
//! - [`error`]: the failures it reports.
//! - [`rpc`]: the envelopes of JSON-RPC requests and responses.

pub mod block;
pub mod bridge;
pub mod client;
pub mod error;
pub mod ethereum;
pub mod felt;
pub mod node;
pub mod numeric;
pub mod provider;
pub mod rpc;
pub mod uint;
