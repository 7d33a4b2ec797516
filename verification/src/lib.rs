//! Core runtime for a sharded Discord gateway client.
//!
//! The crate holds the sans-I/O heart of the client: the wire payload
//! codec, the per-shard handshake and heartbeat state machine, the
//! identify admission queue, and the manager that partitions shards into
//! concurrency buckets. Sockets, timers and tasks live outside; they feed
//! events and clock readings into these types and carry out the actions
//! they return.

use vstd::prelude::*;

pub mod codec;
pub mod decode;
pub mod error;
pub mod gateway;
pub mod identify_queue;
pub mod json;
pub mod manager;
pub mod payload;
pub mod routes;
pub mod shard;
pub mod structures;
pub mod text;
pub mod websocket;

verus! {

/// Number of milliseconds in one identify admission window.
pub const IDENTIFY_WINDOW_MS: u64 = 5000;

/// Largest clock reading (milliseconds) the runtime accepts; keeping
/// times below this bound lets window and interval arithmetic stay
/// within the machine integers.
pub const MAX_TIME_MS: u64 = 0x3fff_ffff_ffff_ffff;

/// Deadline for one bounded receive on the socket. A quiescent shard
/// returns to its control loop this often, so supervisor messages and
/// heartbeat deadlines are still serviced while the wire is silent.
pub const RECV_BUDGET_MS: u64 = 500;

} // verus!
