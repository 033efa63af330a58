use vstd::prelude::*;

verus! {

/// Every error a bridge operation can surface to its caller.
///
/// The variants fall into the taxonomy the coordinator is designed around:
/// configuration errors (malformed user input), lifecycle errors (ordering
/// mistakes by the host), store-corruption errors (a durable store whose
/// device identity disagrees with the server), and operation errors
/// (failures surfaced to one caller without affecting the sync loop).
#[derive(Clone, Copy, Debug, PartialEq, Eq, Structural)]
pub enum BridgeError {
    /// The home server address does not parse as a URL.
    InvalidAddress,
    /// A room identifier is not well formed.
    InvalidRoomId,
    /// A user identity string is not well formed.
    InvalidIdentity,
    /// An event identifier is not well formed.
    InvalidEventId,
    /// An operation was attempted before `init` completed.
    NotInitialized,
    /// `init` was attempted a second time in the same process.
    AlreadyInitialized,
    /// Building the connection failed twice, or failed again after the
    /// store was cleared: the durable store is beyond automatic recovery.
    StoreCorrupt,
    /// Authentication failed because the store's device identity is stale;
    /// the host must restart so `init` can clear the store.
    DeviceMismatch,
    /// Building the connection failed for a reason other than a device
    /// mismatch.
    ConnectFailed,
    /// Password authentication was rejected.
    AuthFailed,
    /// The target room never became visible locally.
    RoomNotFound,
    /// The room creation request was rejected.
    RoomCreateFailed,
    /// The message event could not be sent.
    SendFailed,
    /// The read receipt could not be sent.
    ReceiptFailed,
}

/// Bad user input, surfaced verbatim and never retried.
pub open spec fn is_config_error(e: BridgeError) -> bool {
    ||| e == BridgeError::InvalidAddress
    ||| e == BridgeError::InvalidRoomId
    ||| e == BridgeError::InvalidIdentity
    ||| e == BridgeError::InvalidEventId
}

/// An ordering mistake by the host, surfaced immediately and never retried.
pub open spec fn is_lifecycle_error(e: BridgeError) -> bool {
    ||| e == BridgeError::NotInitialized
    ||| e == BridgeError::AlreadyInitialized
}

/// A durable store that disagrees with the server's expectation.
pub open spec fn is_store_corruption_error(e: BridgeError) -> bool {
    ||| e == BridgeError::StoreCorrupt
    ||| e == BridgeError::DeviceMismatch
}

/// A failure surfaced to the specific caller only, with no effect on the
/// sync loop or on other pending operations.
pub open spec fn is_operation_error(e: BridgeError) -> bool {
    ||| e == BridgeError::ConnectFailed
    ||| e == BridgeError::AuthFailed
    ||| e == BridgeError::RoomNotFound
    ||| e == BridgeError::RoomCreateFailed
    ||| e == BridgeError::SendFailed
    ||| e == BridgeError::ReceiptFailed
}

} // verus!
