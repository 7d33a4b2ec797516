//! Error taxonomy of the runtime, in two layers: faults of one shard,
//! and faults of the manager that supervises them.

use vstd::prelude::*;

verus! {

/// Close information of a WebSocket close frame.
#[derive(Clone, Debug, PartialEq)]
pub struct CloseFrame {
    pub code: u16,
    pub reason: String,
}

/// A fault of one shard.
#[derive(Clone, Debug, PartialEq)]
pub enum ShardError {
    /// A connection was requested on a shard that is not idle.
    NotIdle,
    /// The transport failed; carries the reported reason.
    Transport(String),
    /// The peer closed the connection, with its close frame when one
    /// was sent.
    Closed(Option<CloseFrame>),
}

/// A fault of the manager.
#[derive(Clone, Debug, PartialEq)]
pub enum WebSocketError {
    /// The REST collaborator failed; carries the reported reason.
    Request(String),
    /// A shard fault propagated upward.
    Shard(ShardError),
    /// Fewer session starts remain than shards must be spawned; carries
    /// the remaining count and the shard count.
    NotEnoughSessionsRemaining(u64, u64),
    /// Encoding or decoding JSON failed; carries the reported reason.
    Json(String),
}

} // verus!
