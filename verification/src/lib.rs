//! Session and synchronization coordinator for a federated, end-to-end
//! encrypted messaging client.
//!
//! The crate holds the decision logic of the coordinator: session bootstrap
//! and store-corruption recovery, the incremental sync loop with token
//! continuity and fixed backoff, the join-then-send retry protocol, room
//! creation with a deduplicated invite list, and single-subscriber event
//! distribution. Network calls, storage and the async runtime stay with the
//! host, which drives these state machines with the outcomes it observes.

pub mod errors;
pub mod events;
pub mod identity;
pub mod rooms;
pub mod session;
pub mod subscriber;
pub mod sync;
