//! A safety layer over a handle-based, callback-driven peer-to-peer transport
//! engine.
//!
//! The engine itself (connection establishment, encryption, congestion
//! control, reliable multi-lane delivery) is an external black box reached
//! through raw handles and one process-global status-change callback. This
//! crate supplies the layer that makes such an interface safe to drive:
//!
//! - a process-wide singleton that owns engine initialisation and teardown,
//! - an arena-style registry that routes the single global callback to
//!   per-socket event queues through integer ids rather than pointers,
//! - a typestate socket (`Created -> Server | Client`) whose operations are
//!   only reachable in states that support them, and
//! - a message type whose construction pipeline and release discipline are
//!   stated in contracts.
//!
//! Every decision the layer makes — handle validity checks, cleanup order on
//! partial failure, queue routing, drain order, result-code decoding — is a
//! verified function over plain values. The engine calls themselves sit at
//! the boundary: the caller performs them and hands their raw outcomes to
//! the functions here.

mod errors;
mod global;
mod handles;
mod info;
mod message;
mod queue;
mod registry;
mod socket;
mod utils;

pub use errors::{E_RESULT_OK, EResult, GnsError, GnsResult, into_result_model};
pub use global::{
    GnsGlobal, GnsGlobalError, GnsGlobalSlot, acquire_model, dispatch_all,
    lemma_callbacks_route_in_order, lemma_singleton_exclusive,
};
pub use handles::{
    GnsConnection, GnsLane, GnsLaneId, GnsListenSocket, GnsMessageNumber, GnsPollGroup,
    INVALID_HANDLE, Priority, SEND_NO_DELAY, SEND_NO_NAGLE, SEND_RELIABLE, SEND_UNRELIABLE, Weight,
};
pub use info::{
    GnsConnectionEvent, GnsConnectionInfo, GnsConnectionRealTimeLaneStatus,
    GnsConnectionRealTimeStatus, GnsConnectionState, GnsIpAddr, GnsMappedAddress,
    decode_engine_bytes, decoded_address, encoded_address, is_state_code, is_v4_mapped,
    lemma_address_roundtrip, lemma_state_code_roundtrip, state_code, state_of_code,
};
pub use message::{
    GnsMessageView, GnsNetworkMessage, MayDrop, ToReceive, ToSend, lemma_message_roundtrip,
    received_view, to_send_view,
};
pub use queue::queue_events;
pub use registry::{
    EventRegistry, RegistrySlot, SlotModel, dispatch_model, drain_count,
    lemma_drain_zero, lemma_events_in_arrival_order, lemma_stale_dispatch_is_safe, slot_model,
};
pub use socket::{
    EngineAction, GnsSetupError, GnsSetupFailure, GnsSocket, GnsSocketConfig, IsClient, IsCreated,
    IsReady, IsServer, decode_send_result, lane_arrays, lemma_drain_keeps_lane_order, on_lane,
    prepare_lane_statuses,
};
pub use utils::{GnsConfig, GnsUtils, receive_result};
