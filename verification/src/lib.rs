//! Core of a resilient connection layer for a key-value store client.
//!
//! The library holds the verified logic of that layer: the connection-state
//! machine that a client drives under a lock (with its single-flight
//! reconnection protocol and its pairing with a signal), and the two
//! backoff policies that schedule connection attempts. An embedding supplies
//! the transport itself (sockets, an async runtime, the wire protocol) and
//! consults these functions for every decision.

use vstd::prelude::*;

pub mod backoff;
pub mod state;

verus! {

/// The database index reported while no transport is available.
pub const DB_SENTINEL: i64 = -1;

} // verus!
