//! The engine's utility surface: message allocation and global
//! configuration.

use vstd::prelude::*;
use crate::handles::GnsConnection;
use crate::message::{GnsNetworkMessage, ToSend, to_send_view};

verus! {

/// A global configuration value, typed as the engine expects it.
/// (The engine also accepts floating-point and raw-pointer values; those
/// live outside this layer.)
pub enum GnsConfig {
    /// A 32-bit integer value.
    Int32(u32),
    /// A string value; handed to the engine as a C string, so it cannot
    /// contain an interior NUL.
    Str(String),
}

impl GnsConfig {
    /// Whether the value can be handed to the engine as it is: strings
    /// must be free of interior NUL bytes.
    pub open spec fn is_sendable(&self) -> bool {
        match self {
            GnsConfig::Int32(_) => true,
            GnsConfig::Str(s) => forall|i: int| 0 <= i < s@.len() ==> s@[i] != '\0',
        }
    }
}

/// The engine's utility interface: message allocation and global
/// configuration. Stateless on this side; every operation is a thin,
/// checked pass-through.
pub struct GnsUtils;

impl GnsUtils {
    /// Build a message to be sent: allocate a buffer of the payload's
    /// size, copy the payload into it, and set the flags and destination.
    /// The message must then be sent — only the send call releases it.
    pub fn allocate_message(
        &self,
        conn: GnsConnection,
        flags: i32,
        payload: &[u8],
    ) -> (r: GnsNetworkMessage<ToSend>)
        ensures
            r@ == to_send_view(conn, flags, payload@),
    {
        GnsNetworkMessage::<ToSend>::new(conn, flags, payload)
    }

    /// Record the outcome of setting one global engine configuration
    /// value: the engine accepts or rejects it, and this layer hands that
    /// verdict back unchanged. `accepted` is what the engine's set call
    /// returned for exactly this key and value.
    pub fn set_global_config_value(
        &self,
        typ: u32,
        value: GnsConfig,
        accepted: bool,
    ) -> (r: Result<(), ()>)
        requires
            value.is_sendable(),
        ensures
            r is Ok <==> accepted,
    {
        let _ = typ;
        let _ = value;
        if accepted {
            Ok(())
        } else {
            Err(())
        }
    }
}

/// Decode the count a receive call reports: the engine returns -1 (cast
/// to the unsigned maximum) when the receive call itself failed, which is
/// distinct from legitimately finding zero messages.
pub fn receive_result(raw: usize) -> (r: Option<usize>)
    ensures
        raw == usize::MAX ==> r is None,
        raw != usize::MAX ==> r == Some(raw),
{
    if raw == usize::MAX {
        None
    } else {
        Some(raw)
    }
}

} // verus!
