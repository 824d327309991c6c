//! Control and telemetry plane of a blockchain node: a JSON-RPC
//! request/response dispatcher, a subscription registry with event fan-out,
//! and an admission gateway for miner connections.
//!
//! The library holds the decision logic of that plane: envelope parsing and
//! construction, the error taxonomy with its fixed code table, the subscriber
//! registry, broadcast target selection, and miner admission. Transport,
//! locking and delivery live outside the library and hand plain values in.

use vstd::prelude::*;

pub mod json;
pub mod errors;
pub mod envelope;
pub mod dispatch;
pub mod registry;
pub mod admission;

verus! {

/// Protocol version tag every envelope must carry.
pub const JSON_RPC_VERSION: &'static str = "2.0";

} // verus!
