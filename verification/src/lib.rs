//! Synapse: a verified core for a local in-process cache service.
//!
//! The crate holds the pieces of the service that are pure logic: the binary
//! wire codec for requests and responses, the bounded L1 store with per-entry
//! expiry, the per-frame dispatch of the server, the write-through plan for
//! the optional secondary store, and the subscriber's event handling with its
//! reconnect backoff. The surrounding I/O (socket handling, the bus
//! connection, the process entry point) lives outside the library and hands
//! these functions plain values.
use vstd::prelude::*;

pub mod codec;
pub mod secondary;
pub mod server;
pub mod store;
pub mod subscriber;

verus! {

/// Upper bound on the length of one length-delimited frame on the stream.
pub const MAX_FRAME_LENGTH: usize = 64 * 1024 * 1024;

/// Opcode of a Get request payload.
pub const OP_GET: u8 = 1;

/// Opcode of a Set request payload.
pub const OP_SET: u8 = 2;

/// Result code of an acknowledged write.
pub const RES_OK: u8 = 0;

/// Result code of a successful lookup, followed by the value.
pub const RES_HIT: u8 = 1;

/// Result code of a lookup of an absent or expired key.
pub const RES_MISS: u8 = 2;

/// Result code of a failure, followed by a message.
pub const RES_ERR: u8 = 3;

} // verus!
