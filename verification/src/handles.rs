//! Thin value wrappers over the engine's numeric handles, and the lane
//! vocabulary.
//!
//! None of these own anything: they are names for engine-side resources.
//! The engine uses handle value 0 as its "invalid" sentinel for
//! connections, listen sockets and poll groups alike; the layer's state
//! transitions branch on that.

use vstd::prelude::*;

verus! {

/// The engine's "invalid handle" sentinel, shared by connections, listen
/// sockets and poll groups.
pub const INVALID_HANDLE: u32 = 0;

/// A network message number, assigned per connection by the engine.
pub type GnsMessageNumber = u64;

/// Lane priority: lower values are sent first.
pub type Priority = u32;

/// Lane weight: relative bandwidth share among lanes of equal priority.
pub type Weight = u16;

/// A lane is configured as a priority and a weight.
pub type GnsLane = (Priority, Weight);

/// A lane id: the index of the lane in the configured lane list.
pub type GnsLaneId = u16;

/// Send flag: best-effort delivery (the engine's default).
pub const SEND_UNRELIABLE: i32 = 0;

/// Send flag: disable Nagle batching for this message.
pub const SEND_NO_NAGLE: i32 = 1;

/// Send flag: drop the message instead of buffering it if it cannot be
/// sent immediately.
pub const SEND_NO_DELAY: i32 = 4;

/// Send flag: reliable, ordered delivery.
pub const SEND_RELIABLE: i32 = 8;

/// A connection handle: equality and ordering are those of the underlying
/// engine id. Purely a reference — owning and releasing the engine-side
/// connection is the socket's concern.
#[derive(Debug, Copy, Clone, Hash, PartialEq, Eq, PartialOrd, Ord, Structural)]
pub struct GnsConnection(pub u32);

impl GnsConnection {
    /// Whether the engine would treat this handle as a real connection.
    pub open spec fn is_valid(self) -> bool {
        self.0 != INVALID_HANDLE
    }
}

impl Default for GnsConnection {
    /// The invalid connection handle.
    fn default() -> (r: Self)
        ensures
            r.0 == INVALID_HANDLE,
    {
        GnsConnection(INVALID_HANDLE)
    }
}

/// A listen-socket handle owned by a server-state socket.
#[derive(Debug, Copy, Clone, Hash, PartialEq, Eq, Structural)]
pub struct GnsListenSocket(pub u32);

impl GnsListenSocket {
    /// Whether the engine would treat this handle as a real listen socket.
    pub open spec fn is_valid(self) -> bool {
        self.0 != INVALID_HANDLE
    }
}

/// A poll-group handle owned by a server-state socket.
#[derive(Debug, Copy, Clone, Hash, PartialEq, Eq, Structural)]
pub struct GnsPollGroup(pub u32);

impl GnsPollGroup {
    /// Whether the engine would treat this handle as a real poll group.
    pub open spec fn is_valid(self) -> bool {
        self.0 != INVALID_HANDLE
    }
}

} // verus!
