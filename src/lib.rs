//! The proof intake of a cross-chain bridge endpoint: address and event
//! decoding of source-chain log entries, the replay guard over proof
//! fingerprints, and the connector's submit-then-finish state machine.

use vstd::prelude::*;

pub mod abi;
pub mod address;
pub mod connector;
pub mod error;
pub mod eth_proof;
pub mod event;
pub mod lock_event;
pub mod replay;

verus! {

} // verus!
