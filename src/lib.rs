//! Realtime delivery core of an end-to-end encrypted chat service.
//!
//! Messages are opaque encrypted blobs; this crate validates client
//! commands, decides who must be notified of what, keeps per-user push
//! queues and models the durable message store.
use vstd::prelude::*;

pub mod channel;
pub mod codec;
pub mod crypto;
pub mod engine;
pub mod events;
pub mod laws;
pub mod registry;
pub mod server;
pub mod session;
pub mod status;
pub mod store;

verus! {

} // verus!
