//! Value snapshots decoded from engine structures: connection state,
//! remote address, connection info, status-change events and real-time
//! status. All of them are passive copies with no ownership semantics.

use vstd::prelude::*;
use crate::handles::GnsConnection;

verus! {

/// Connection lifecycle states as the engine reports them. The first six
/// are public API states; the last three are internal states the engine
/// may still report in snapshots.
#[derive(Debug, Copy, Clone, Hash, PartialEq, Eq, Structural)]
pub enum GnsConnectionState {
    /// No connection (the engine's zero state).
    NotConnected,
    /// Trying to establish or accept a connection.
    Connecting,
    /// Rendezvous done, finding a route for the session.
    FindingRoute,
    /// Fully connected.
    Connected,
    /// The remote host closed the connection.
    ClosedByPeer,
    /// A local problem (timeout, network loss) ended the connection.
    ProblemDetectedLocally,
    /// Engine-internal: closed, waiting for the final cleanup.
    FinWait,
    /// Engine-internal: lingering to flush remaining reliable data.
    Linger,
    /// Engine-internal: the connection object is gone.
    Dead,
}

/// The numeric code the engine uses for each state.
pub open spec fn state_code(s: GnsConnectionState) -> int {
    match s {
        GnsConnectionState::NotConnected => 0,
        GnsConnectionState::Connecting => 1,
        GnsConnectionState::FindingRoute => 2,
        GnsConnectionState::Connected => 3,
        GnsConnectionState::ClosedByPeer => 4,
        GnsConnectionState::ProblemDetectedLocally => 5,
        GnsConnectionState::FinWait => -1,
        GnsConnectionState::Linger => -2,
        GnsConnectionState::Dead => -3,
    }
}

/// Which numeric codes name a state at all.
pub open spec fn is_state_code(c: int) -> bool {
    -3 <= c <= 5
}

/// The state a numeric code names, if any.
pub open spec fn state_of_code(c: int) -> Option<GnsConnectionState> {
    if c == 0 {
        Some(GnsConnectionState::NotConnected)
    } else if c == 1 {
        Some(GnsConnectionState::Connecting)
    } else if c == 2 {
        Some(GnsConnectionState::FindingRoute)
    } else if c == 3 {
        Some(GnsConnectionState::Connected)
    } else if c == 4 {
        Some(GnsConnectionState::ClosedByPeer)
    } else if c == 5 {
        Some(GnsConnectionState::ProblemDetectedLocally)
    } else if c == -1 {
        Some(GnsConnectionState::FinWait)
    } else if c == -2 {
        Some(GnsConnectionState::Linger)
    } else if c == -3 {
        Some(GnsConnectionState::Dead)
    } else {
        None
    }
}

impl GnsConnectionState {
    /// The engine's numeric code for this state.
    pub fn to_code(self) -> (c: i32)
        ensures
            c == state_code(self),
    {
        match self {
            GnsConnectionState::NotConnected => 0,
            GnsConnectionState::Connecting => 1,
            GnsConnectionState::FindingRoute => 2,
            GnsConnectionState::Connected => 3,
            GnsConnectionState::ClosedByPeer => 4,
            GnsConnectionState::ProblemDetectedLocally => 5,
            GnsConnectionState::FinWait => -1,
            GnsConnectionState::Linger => -2,
            GnsConnectionState::Dead => -3,
        }
    }

    /// Decode an engine code; codes outside the known range yield `None`.
    pub fn from_code(c: i32) -> (r: Option<GnsConnectionState>)
        ensures
            r == state_of_code(c as int),
    {
        if c == 0 {
            Some(GnsConnectionState::NotConnected)
        } else if c == 1 {
            Some(GnsConnectionState::Connecting)
        } else if c == 2 {
            Some(GnsConnectionState::FindingRoute)
        } else if c == 3 {
            Some(GnsConnectionState::Connected)
        } else if c == 4 {
            Some(GnsConnectionState::ClosedByPeer)
        } else if c == 5 {
            Some(GnsConnectionState::ProblemDetectedLocally)
        } else if c == -1 {
            Some(GnsConnectionState::FinWait)
        } else if c == -2 {
            Some(GnsConnectionState::Linger)
        } else if c == -3 {
            Some(GnsConnectionState::Dead)
        } else {
            None
        }
    }
}

/// Encoding and decoding connection-state codes invert each other: every
/// state decodes back from its own code, and every in-range code encodes
/// back to itself.
pub proof fn lemma_state_code_roundtrip(s: GnsConnectionState, c: int)
    ensures
        state_of_code(state_code(s)) == Some(s),
        is_state_code(c) ==> {
            &&& state_of_code(c) is Some
            &&& state_code(state_of_code(c)->Some_0) == c
        },
        !is_state_code(c) ==> state_of_code(c) is None,
{
}

/// A remote address, either IPv4 or IPv6.
#[derive(Debug, Copy, Clone, PartialEq, Eq)]
pub enum GnsIpAddr {
    /// An IPv4 address as its four octets.
    V4([u8; 4]),
    /// An IPv6 address as its sixteen octets.
    V6([u8; 16]),
}

/// Whether sixteen address bytes are an IPv4-mapped IPv6 address
/// (ten zero bytes, then `ff ff`, then the four IPv4 octets), the form in
/// which the engine carries IPv4 addresses.
pub open spec fn is_v4_mapped(b: Seq<u8>) -> bool {
    &&& b.len() == 16
    &&& (forall|i: int| 0 <= i < 10 ==> b[i] == 0)
    &&& b[10] == 0xff
    &&& b[11] == 0xff
}

/// The address sixteen engine bytes stand for: the embedded IPv4 address
/// when they are IPv4-mapped, the IPv6 address itself otherwise.
pub open spec fn decoded_address(b: Seq<u8>) -> GnsIpAddr
    recommends
        b.len() == 16,
{
    if is_v4_mapped(b) {
        GnsIpAddr::V4([b[12], b[13], b[14], b[15]])
    } else {
        GnsIpAddr::V6([b[0], b[1], b[2], b[3], b[4], b[5], b[6], b[7], b[8], b[9], b[10], b[11],
            b[12], b[13], b[14], b[15]])
    }
}

/// The sixteen engine bytes that stand for an address: IPv4 addresses are
/// written in IPv4-mapped form, IPv6 addresses as they are.
pub open spec fn encoded_address(a: GnsIpAddr) -> Seq<u8> {
    match a {
        GnsIpAddr::V4(o) => seq![0u8, 0, 0, 0, 0, 0, 0, 0, 0, 0, 0xff, 0xff, o[0], o[1], o[2], o[3]],
        GnsIpAddr::V6(b) => b@,
    }
}

/// An address in the engine's own sixteen-byte-plus-port form, as handed
/// to the engine's listen and connect calls.
#[derive(Debug, Copy, Clone, PartialEq, Eq)]
pub struct GnsMappedAddress {
    /// The sixteen address bytes (IPv4-mapped form for IPv4).
    pub bytes: [u8; 16],
    /// The port, in host order.
    pub port: u16,
}

impl GnsIpAddr {
    /// Encode this address into the engine's sixteen-byte form.
    pub fn to_engine_bytes(self) -> (r: [u8; 16])
        ensures
            r@ == encoded_address(self),
    {
        match self {
            GnsIpAddr::V4(o) => {
                let r: [u8; 16] = [0u8, 0, 0, 0, 0, 0, 0, 0, 0, 0, 0xff, 0xff, o[0], o[1], o[2],
                    o[3]];
                assert(r@ =~= encoded_address(self));
                r
            },
            GnsIpAddr::V6(b) => b,
        }
    }
}

/// Decode sixteen engine address bytes, undoing the IPv4 mapping where it
/// is present.
pub fn decode_engine_bytes(b: &[u8; 16]) -> (r: GnsIpAddr)
    ensures
        r == decoded_address(b@),
{
    let mapped = b[0] == 0 && b[1] == 0 && b[2] == 0 && b[3] == 0 && b[4] == 0 && b[5] == 0
        && b[6] == 0 && b[7] == 0 && b[8] == 0 && b[9] == 0 && b[10] == 0xff && b[11] == 0xff;
    assert(mapped == is_v4_mapped(b@));
    if mapped {
        let o: [u8; 4] = [b[12], b[13], b[14], b[15]];
        assert(o =~= decoded_address(b@)->V4_0);
        GnsIpAddr::V4(o)
    } else {
        assert(*b =~= decoded_address(b@)->V6_0);
        GnsIpAddr::V6(*b)
    }
}

/// Encoding an address and decoding the bytes again yields the address
/// back — for IPv6 provided the address is not itself in the
/// IPv4-mapped range, in which case the engine form genuinely denotes the
/// embedded IPv4 address.
pub proof fn lemma_address_roundtrip(a: GnsIpAddr)
    requires
        a matches GnsIpAddr::V6(b) ==> !is_v4_mapped(b@),
    ensures
        decoded_address(encoded_address(a)) == a,
{
    match a {
        GnsIpAddr::V4(o) => {
            assert(is_v4_mapped(encoded_address(a)));
            assert(decoded_address(encoded_address(a))->V4_0 =~= o);
        },
        GnsIpAddr::V6(b) => {
            assert(decoded_address(encoded_address(a))->V6_0 =~= b);
        },
    }
}

/// A snapshot of one connection's metadata, decoded from the engine's
/// info structure.
#[derive(Debug, Clone, PartialEq, Eq)]
pub struct GnsConnectionInfo {
    /// Current lifecycle state.
    pub state: GnsConnectionState,
    /// Engine code explaining why the connection ended, 0 while it lives.
    pub end_reason: u32,
    /// The engine's human-readable end diagnostic.
    pub end_debug: String,
    /// Remote address in the engine's sixteen-byte form.
    pub addr_bytes: [u8; 16],
    /// Remote port.
    pub remote_port: u16,
    /// The opaque integer attached to the connection at creation time; this
    /// layer stores an event-queue id there.
    pub user_data: u64,
}

impl GnsConnectionInfo {
    /// Current lifecycle state.
    pub fn state(&self) -> (r: GnsConnectionState)
        ensures
            r == self.state,
    {
        self.state
    }

    /// Why the connection ended, as the engine's numeric reason code.
    pub fn end_reason(&self) -> (r: u32)
        ensures
            r == self.end_reason,
    {
        self.end_reason
    }

    /// The engine's human-readable end diagnostic.
    pub fn end_debug(&self) -> (r: &str)
        ensures
            r@ == self.end_debug@,
    {
        self.end_debug.as_str()
    }

    /// The remote address, with the engine's IPv4 mapping undone.
    pub fn remote_address(&self) -> (r: GnsIpAddr)
        ensures
            r == decoded_address(self.addr_bytes@),
    {
        decode_engine_bytes(&self.addr_bytes)
    }

    /// The remote port.
    pub fn remote_port(&self) -> (r: u16)
        ensures
            r == self.remote_port,
    {
        self.remote_port
    }

    /// The opaque integer attached to the connection at creation time.
    pub fn connection_user_data(&self) -> (r: u64)
        ensures
            r == self.user_data,
    {
        self.user_data
    }
}

impl Default for GnsConnectionInfo {
    /// An empty snapshot: no state, zero codes, empty diagnostic.
    fn default() -> (r: Self)
        ensures
            r.state == GnsConnectionState::NotConnected,
            r.end_reason == 0,
            r.end_debug@ == Seq::<char>::empty(),
            r.addr_bytes@ =~= Seq::new(16, |i: int| 0u8),
            r.remote_port == 0,
            r.user_data == 0,
    {
        GnsConnectionInfo {
            state: GnsConnectionState::NotConnected,
            end_reason: 0,
            end_debug: String::new(),
            addr_bytes: [0u8, 0, 0, 0, 0, 0, 0, 0, 0, 0, 0, 0, 0, 0, 0, 0],
            remote_port: 0,
            user_data: 0,
        }
    }
}

/// One connection-status change raised by the engine's global callback:
/// which connection, the state it left, and a full info snapshot of the
/// state it entered.
#[derive(Debug, Clone, PartialEq, Eq)]
pub struct GnsConnectionEvent {
    /// The state the connection was in before the change.
    pub old_state: GnsConnectionState,
    /// The connection the change concerns.
    pub connection: GnsConnection,
    /// Snapshot of the connection after the change.
    pub info: GnsConnectionInfo,
}

impl GnsConnectionEvent {
    /// The state the connection was in before the change.
    pub fn old_state(&self) -> (r: GnsConnectionState)
        ensures
            r == self.old_state,
    {
        self.old_state
    }

    /// The connection the change concerns.
    pub fn connection(&self) -> (r: GnsConnection)
        ensures
            r == self.connection,
    {
        self.connection
    }

    /// Snapshot of the connection after the change.
    pub fn info(&self) -> (r: &GnsConnectionInfo)
        ensures
            *r == self.info,
    {
        &self.info
    }
}

/// Real-time status of one lane of a connection.
#[derive(Debug, Copy, Clone, Hash, PartialEq, Eq, Structural)]
pub struct GnsConnectionRealTimeLaneStatus {
    /// Unreliable bytes queued locally on this lane.
    pub pending_bytes_unreliable: u32,
    /// Reliable bytes queued locally on this lane.
    pub pending_bytes_reliable: u32,
    /// Reliable bytes sent on this lane and not yet acknowledged.
    pub bytes_sent_unacked_reliable: u32,
    /// Estimated time, in microseconds, a message sent now on this lane
    /// would wait in the local queue.
    pub approximated_queue_time_usec: u64,
}

impl GnsConnectionRealTimeLaneStatus {
    /// Unreliable bytes queued locally on this lane.
    pub fn pending_bytes_unreliable(&self) -> (r: u32)
        ensures
            r == self.pending_bytes_unreliable,
    {
        self.pending_bytes_unreliable
    }

    /// Reliable bytes queued locally on this lane.
    pub fn pending_bytes_reliable(&self) -> (r: u32)
        ensures
            r == self.pending_bytes_reliable,
    {
        self.pending_bytes_reliable
    }

    /// Reliable bytes sent on this lane and not yet acknowledged.
    pub fn bytes_sent_unacked_reliable(&self) -> (r: u32)
        ensures
            r == self.bytes_sent_unacked_reliable,
    {
        self.bytes_sent_unacked_reliable
    }

    /// Estimated local queue time on this lane, in microseconds.
    pub fn approximated_queue_time(&self) -> (r: u64)
        ensures
            r == self.approximated_queue_time_usec,
    {
        self.approximated_queue_time_usec
    }
}

impl Default for GnsConnectionRealTimeLaneStatus {
    /// All-zero lane status, the form handed to the engine to fill.
    fn default() -> (r: Self)
        ensures
            r.pending_bytes_unreliable == 0,
            r.pending_bytes_reliable == 0,
            r.bytes_sent_unacked_reliable == 0,
            r.approximated_queue_time_usec == 0,
    {
        GnsConnectionRealTimeLaneStatus {
            pending_bytes_unreliable: 0,
            pending_bytes_reliable: 0,
            bytes_sent_unacked_reliable: 0,
            approximated_queue_time_usec: 0,
        }
    }
}

/// Real-time status of a whole connection. The engine's floating-point
/// rate estimates are not part of this snapshot.
#[derive(Debug, Copy, Clone, Hash, PartialEq, Eq, Structural)]
pub struct GnsConnectionRealTimeStatus {
    /// Current lifecycle state.
    pub state: GnsConnectionState,
    /// Current ping in milliseconds.
    pub ping: u32,
    /// Current send rate estimate, in bytes per second.
    pub send_rate_bytes_per_sec: u32,
    /// Unreliable bytes queued locally, over all lanes.
    pub pending_bytes_unreliable: u32,
    /// Reliable bytes queued locally, over all lanes.
    pub pending_bytes_reliable: u32,
    /// Reliable bytes sent and not yet acknowledged.
    pub bytes_sent_unacked_reliable: u32,
    /// Estimated time, in microseconds, a message sent now would wait in
    /// the local queue.
    pub approximated_queue_time_usec: u64,
}

impl GnsConnectionRealTimeStatus {
    /// Current lifecycle state.
    pub fn state(&self) -> (r: GnsConnectionState)
        ensures
            r == self.state,
    {
        self.state
    }

    /// Current ping in milliseconds.
    pub fn ping(&self) -> (r: u32)
        ensures
            r == self.ping,
    {
        self.ping
    }

    /// Current send rate estimate, in bytes per second.
    pub fn send_rate_bytes_per_sec(&self) -> (r: u32)
        ensures
            r == self.send_rate_bytes_per_sec,
    {
        self.send_rate_bytes_per_sec
    }

    /// Unreliable bytes queued locally, over all lanes.
    pub fn pending_bytes_unreliable(&self) -> (r: u32)
        ensures
            r == self.pending_bytes_unreliable,
    {
        self.pending_bytes_unreliable
    }

    /// Reliable bytes queued locally, over all lanes.
    pub fn pending_bytes_reliable(&self) -> (r: u32)
        ensures
            r == self.pending_bytes_reliable,
    {
        self.pending_bytes_reliable
    }

    /// Reliable bytes sent and not yet acknowledged.
    pub fn bytes_sent_unacked_reliable(&self) -> (r: u32)
        ensures
            r == self.bytes_sent_unacked_reliable,
    {
        self.bytes_sent_unacked_reliable
    }

    /// Estimated local queue time, in microseconds.
    pub fn approximated_queue_time(&self) -> (r: u64)
        ensures
            r == self.approximated_queue_time_usec,
    {
        self.approximated_queue_time_usec
    }
}

impl Default for GnsConnectionRealTimeStatus {
    /// All-zero status, the form handed to the engine to fill.
    fn default() -> (r: Self)
        ensures
            r.state == GnsConnectionState::NotConnected,
            r.ping == 0,
            r.send_rate_bytes_per_sec == 0,
            r.pending_bytes_unreliable == 0,
            r.pending_bytes_reliable == 0,
            r.bytes_sent_unacked_reliable == 0,
            r.approximated_queue_time_usec == 0,
    {
        GnsConnectionRealTimeStatus {
            state: GnsConnectionState::NotConnected,
            ping: 0,
            send_rate_bytes_per_sec: 0,
            pending_bytes_unreliable: 0,
            pending_bytes_reliable: 0,
            bytes_sent_unacked_reliable: 0,
            approximated_queue_time_usec: 0,
        }
    }
}

} // verus!
