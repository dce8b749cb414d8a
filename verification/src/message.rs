//! Network messages and their ownership discipline.
//!
//! A message exists in one of two directions, encoded in its type:
//!
//! - `GnsNetworkMessage<ToSend>` is built by the caller through a fixed
//!   pipeline (allocate sized to the payload, copy the payload, set
//!   flags, lane, user data and destination) and is consumed by the send
//!   call — the engine owns the buffer from then on, whether the send
//!   succeeds or fails, so this layer never releases it.
//! - `GnsNetworkMessage<ToReceive>` is assembled only at the receive
//!   boundary from what the engine delivered, is read-only, and its
//!   engine buffer is released there, immediately after its contents are
//!   copied out — the handle the caller sees owns a plain copy and needs
//!   no further release.

use vstd::prelude::*;
use core::marker::PhantomData;
use crate::handles::{GnsConnection, GnsLaneId, INVALID_HANDLE};

verus! {

/// Direction marker for messages; the two directions differ in who must
/// release the underlying engine buffer.
pub trait MayDrop {
    /// Whether this layer must release the engine buffer of a message in
    /// this direction after processing it.
    fn must_drop() -> bool;
}

/// Direction of a message built by the caller to be sent: the send call
/// consumes it and the engine releases its buffer.
pub struct ToSend;

impl MayDrop for ToSend {
    fn must_drop() -> (r: bool)
        ensures
            !r,
    {
        false
    }
}

/// Direction of a message delivered by the engine: its engine buffer is
/// released by the receive boundary, exactly once.
pub struct ToReceive;

impl MayDrop for ToReceive {
    fn must_drop() -> (r: bool)
        ensures
            r,
    {
        true
    }
}

/// Mathematical snapshot of a message: every field a caller can observe.
pub struct GnsMessageView {
    /// The payload bytes.
    pub payload: Seq<u8>,
    /// The per-connection message number the engine assigned (0 before
    /// sending).
    pub message_number: u64,
    /// The lane the message travels on.
    pub lane: GnsLaneId,
    /// The send flags.
    pub flags: i32,
    /// Caller-chosen user data travelling with the message.
    pub user_data: u64,
    /// The connection the message is addressed to or arrived on.
    pub connection: GnsConnection,
    /// The user data of the connection the message arrived on.
    pub connection_user_data: u64,
}

/// A network message in direction `T`.
pub struct GnsNetworkMessage<T: MayDrop> {
    payload: Vec<u8>,
    message_number: u64,
    lane: GnsLaneId,
    flags: i32,
    user_data: u64,
    connection: GnsConnection,
    connection_user_data: u64,
    direction: PhantomData<T>,
}

impl<T: MayDrop> View for GnsNetworkMessage<T> {
    type V = GnsMessageView;

    closed spec fn view(&self) -> GnsMessageView {
        GnsMessageView {
            payload: self.payload@,
            message_number: self.message_number,
            lane: self.lane,
            flags: self.flags,
            user_data: self.user_data,
            connection: self.connection,
            connection_user_data: self.connection_user_data,
        }
    }
}

impl<T: MayDrop> GnsNetworkMessage<T> {
    /// The payload bytes, valid for the life of the handle.
    pub fn payload(&self) -> (r: &[u8])
        ensures
            r@ == self@.payload,
    {
        self.payload.as_slice()
    }

    /// The per-connection message number the engine assigned.
    pub fn message_number(&self) -> (r: u64)
        ensures
            r == self@.message_number,
    {
        self.message_number
    }

    /// The lane the message travels on.
    pub fn lane(&self) -> (r: GnsLaneId)
        ensures
            r == self@.lane,
    {
        self.lane
    }

    /// The send flags.
    pub fn flags(&self) -> (r: i32)
        ensures
            r == self@.flags,
    {
        self.flags
    }

    /// Caller-chosen user data travelling with the message.
    pub fn user_data(&self) -> (r: u64)
        ensures
            r == self@.user_data,
    {
        self.user_data
    }

    /// The connection the message is addressed to or arrived on.
    pub fn connection(&self) -> (r: GnsConnection)
        ensures
            r == self@.connection,
    {
        self.connection
    }

    /// The user data of the connection the message arrived on, set when
    /// the connection was created — this layer stores an event-queue id
    /// there.
    pub fn connection_user_data(&self) -> (r: u64)
        ensures
            r == self@.connection_user_data,
    {
        self.connection_user_data
    }
}

/// What the construction pipeline yields for a given destination, flag
/// set and payload: lane 0, no user data, no message number yet.
pub open spec fn to_send_view(conn: GnsConnection, flags: i32, payload: Seq<u8>) -> GnsMessageView {
    GnsMessageView {
        payload: payload,
        message_number: 0,
        lane: 0,
        flags: flags,
        user_data: 0,
        connection: conn,
        connection_user_data: 0,
    }
}

/// The snapshot of a delivered message with the given observable fields.
pub open spec fn received_view(
    payload: Seq<u8>,
    message_number: u64,
    lane: GnsLaneId,
    flags: i32,
    user_data: u64,
    connection: GnsConnection,
    connection_user_data: u64,
) -> GnsMessageView {
    GnsMessageView {
        payload,
        message_number,
        lane,
        flags,
        user_data,
        connection,
        connection_user_data,
    }
}

impl GnsNetworkMessage<ToSend> {
    /// The construction pipeline: allocate a buffer sized to the payload,
    /// then copy the payload, set the flags and address the destination.
    pub(crate) fn new(conn: GnsConnection, flags: i32, payload: &[u8]) -> (r: Self)
        ensures
            r@ == to_send_view(conn, flags, payload@),
    {
        let mut buffer: Vec<u8> = Vec::new();
        buffer.resize(payload.len(), 0u8);
        let blank = GnsNetworkMessage {
            payload: buffer,
            message_number: 0,
            lane: 0,
            flags: 0,
            user_data: 0,
            connection: GnsConnection(INVALID_HANDLE),
            connection_user_data: 0,
            direction: PhantomData,
        };
        blank.set_flags(flags).set_payload(payload).set_connection(conn)
    }

    /// Address the message to a connection.
    pub fn set_connection(self, conn: GnsConnection) -> (r: Self)
        ensures
            r@ == (GnsMessageView { connection: conn, ..self@ }),
    {
        let mut m = self;
        m.connection = conn;
        m
    }

    /// Copy a payload into the message's buffer. The buffer was sized at
    /// allocation time, so the payload length cannot change.
    pub fn set_payload(self, payload: &[u8]) -> (r: Self)
        requires
            payload@.len() == self@.payload.len(),
        ensures
            r@ == (GnsMessageView { payload: payload@, ..self@ }),
    {
        let mut m = self;
        m.payload.clear();
        m.payload.extend_from_slice(payload);
        assert(m.payload@ =~= payload@);
        m
    }

    /// Choose the lane the message travels on. Lanes above 0 must have
    /// been configured on the connection first.
    pub fn set_lane(self, lane: GnsLaneId) -> (r: Self)
        ensures
            r@ == (GnsMessageView { lane: lane, ..self@ }),
    {
        let mut m = self;
        m.lane = lane;
        m
    }

    /// Replace the send flags.
    pub fn set_flags(self, flags: i32) -> (r: Self)
        ensures
            r@ == (GnsMessageView { flags: flags, ..self@ }),
    {
        let mut m = self;
        m.flags = flags;
        m
    }

    /// Attach caller-chosen user data to the message.
    pub fn set_user_data(self, userdata: u64) -> (r: Self)
        ensures
            r@ == (GnsMessageView { user_data: userdata, ..self@ }),
    {
        let mut m = self;
        m.user_data = userdata;
        m
    }
}

impl GnsNetworkMessage<ToReceive> {
    /// Assemble the caller-visible copy of a message the engine
    /// delivered. Only the receive boundary builds these; the engine
    /// buffer itself is released there.
    pub fn from_engine(
        payload: Vec<u8>,
        message_number: u64,
        lane: GnsLaneId,
        flags: i32,
        user_data: u64,
        connection: GnsConnection,
        connection_user_data: u64,
    ) -> (r: Self)
        ensures
            r@ == received_view(
                payload@,
                message_number,
                lane,
                flags,
                user_data,
                connection,
                connection_user_data,
            ),
    {
        GnsNetworkMessage {
            payload,
            message_number,
            lane,
            flags,
            user_data,
            connection,
            connection_user_data,
            direction: PhantomData,
        }
    }
}

/// Round trip: a message built to send with payload `P` and flags `F`,
/// once delivered with its payload and flags carried faithfully (which
/// the engine guarantees), reads back payload `P` and flags `F`,
/// whatever message number, lane tag or connection data delivery
/// attached.
pub proof fn lemma_message_roundtrip(
    conn: GnsConnection,
    flags: i32,
    payload: Seq<u8>,
    message_number: u64,
    lane: GnsLaneId,
    user_data: u64,
    from_conn: GnsConnection,
    conn_user_data: u64,
)
    ensures
        ({
            let sent = to_send_view(conn, flags, payload);
            let received = received_view(
                sent.payload,
                message_number,
                lane,
                sent.flags,
                user_data,
                from_conn,
                conn_user_data,
            );
            received.payload == payload && received.flags == flags
        }),
{
}

} // verus!
