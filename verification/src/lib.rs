//! Outbound message envelope for a smart-contract execution environment.
//!
//! Contracts describe the side effects they request from the host chain
//! (token transfers, staking operations, governance votes, sub-contract
//! calls) as values of [`msg::CosmosMsg`].  The envelope is serialized to a
//! JSON-like wire tree ([`wire::WireValue`]) that an independently versioned
//! host runtime consumes; [`codec`] defines that wire mapping in both
//! directions and proves it stable and lossless.

pub mod codec;
pub mod msg;
pub mod wire;
