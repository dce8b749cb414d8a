//! The typestate socket: `Created -> Server | Client`.
//!
//! A socket starts in the [`IsCreated`] state, where only the two one-way
//! transitions exist: [`GnsSocket::listen`] makes it a server,
//! [`GnsSocket::connect`] a client. Both consume the socket, so a spent
//! `Created` socket cannot be reused, and every operation is only
//! reachable in a state that supports it — there are no runtime state
//! checks to get wrong.
//!
//! The engine calls themselves happen at the boundary: the caller
//! performs them and hands their raw outcomes in, and the functions here
//! make every decision — validity checks, cleanup order on partial
//! failure, registry wiring, result decoding — under contract. Teardown
//! is explicit ([`GnsSocket::destroy`]): it names the engine resources
//! to release, in the fixed order the engine requires, and retires the
//! socket's event queue so that a late event for it is dropped, never
//! dereferenced.

use vstd::prelude::*;
use either::Either;
use crate::errors::{EResult, GnsError, GnsResult, into_result_model};
use crate::global::GnsGlobal;
use crate::handles::{
    GnsConnection, GnsLane, GnsLaneId, GnsListenSocket, GnsMessageNumber, GnsPollGroup,
    INVALID_HANDLE, Priority, Weight,
};
use crate::info::{
    GnsConnectionEvent, GnsConnectionInfo, GnsConnectionRealTimeLaneStatus,
    GnsConnectionRealTimeStatus, GnsIpAddr, GnsMappedAddress, encoded_address,
};
use crate::message::{GnsNetworkMessage, ToReceive, ToSend};
use crate::registry::{SlotModel, drain_count};

verus! {

#[verifier::external_type_specification]
#[verifier::reject_recursive_types(L)]
#[verifier::reject_recursive_types(R)]
pub struct ExEither<L, R>(Either<L, R>);

/// An engine resource release the caller must perform, named by the
/// teardown and failure paths here. Order matters: the actions come back
/// in the order the engine requires.
#[derive(Debug, Copy, Clone, PartialEq, Eq, Structural)]
pub enum EngineAction {
    /// Close this listen socket.
    CloseListenSocket(GnsListenSocket),
    /// Destroy this poll group.
    DestroyPollGroup(GnsPollGroup),
    /// Close this connection.
    CloseConnection(GnsConnection),
}

/// Which typed setup failure a transition ended in.
#[derive(Debug, Copy, Clone, PartialEq, Eq, Structural)]
pub enum GnsSetupError {
    /// The engine handed back an invalid listen-socket or poll-group
    /// handle.
    BindFailed,
    /// The engine handed back an invalid connection handle.
    ConnectFailed,
}

/// A failed state transition: the typed failure, and the engine
/// resources the transition had already created, which the caller must
/// still release — no partial-resource leak on the failure path.
pub struct GnsSetupFailure {
    /// What failed.
    pub error: GnsSetupError,
    /// The releases still owed, in order.
    pub cleanup: Vec<EngineAction>,
}

/// Initial state of a [`GnsSocket`]: not yet a server or a client, and
/// carrying nothing.
pub struct IsCreated;

/// What both ready states offer: the socket's event-queue id, and the
/// buffer of inbound messages the boundary feeds and the caller drains.
pub trait IsReady: Sized {
    /// The id of this socket's event queue in the registry.
    spec fn queue_id_spec(&self) -> u64;

    /// The inbound messages buffered for this socket, in arrival order.
    spec fn inbound_spec(&self) -> Seq<GnsNetworkMessage<ToReceive>>;

    /// The id of this socket's event queue in the registry.
    fn queue_id(&self) -> (id: u64)
        ensures
            id == self.queue_id_spec(),
    ;

    /// Append one delivered message to the inbound buffer.
    fn push_inbound(&mut self, m: GnsNetworkMessage<ToReceive>)
        ensures
            final(self).inbound_spec() == old(self).inbound_spec().push(m),
            final(self).queue_id_spec() == old(self).queue_id_spec(),
    ;

    /// Take the oldest buffered message, if any.
    fn pop_inbound(&mut self) -> (r: Option<GnsNetworkMessage<ToReceive>>)
        ensures
            final(self).queue_id_spec() == old(self).queue_id_spec(),
            old(self).inbound_spec().len() == 0 ==> {
                &&& r is None
                &&& final(self).inbound_spec() == old(self).inbound_spec()
            },
            old(self).inbound_spec().len() > 0 ==> {
                &&& r == Some(old(self).inbound_spec()[0])
                &&& final(self).inbound_spec() == old(self).inbound_spec().drop_first()
            },
    ;
}

/// Server state: owns the listen socket, the poll group, and an event
/// queue id. Inbound messages come from the whole poll group — any
/// accepted connection — each tagged with its connection.
pub struct IsServer {
    /// The id of this socket's event queue, also applied as connection
    /// user data on the listen socket so every accepted connection
    /// inherits it.
    pub queue_id: u64,
    /// The engine listen socket this server owns.
    pub listen_socket: GnsListenSocket,
    /// The engine poll group this server owns; accepted connections are
    /// bound to it so one receive call drains them all.
    pub poll_group: GnsPollGroup,
    /// Inbound messages the boundary has fed and the caller has not yet
    /// polled, in arrival order.
    pub inbound: Vec<GnsNetworkMessage<ToReceive>>,
}

impl IsReady for IsServer {
    open spec fn queue_id_spec(&self) -> u64 {
        self.queue_id
    }

    open spec fn inbound_spec(&self) -> Seq<GnsNetworkMessage<ToReceive>> {
        self.inbound@
    }

    fn queue_id(&self) -> (id: u64) {
        self.queue_id
    }

    fn push_inbound(&mut self, m: GnsNetworkMessage<ToReceive>) {
        self.inbound.push(m);
    }

    fn pop_inbound(&mut self) -> (r: Option<GnsNetworkMessage<ToReceive>>) {
        if self.inbound.len() == 0 {
            None
        } else {
            Some(self.inbound.remove(0))
        }
    }
}

/// Client state: owns one outbound connection and an event queue id.
pub struct IsClient {
    /// The id of this socket's event queue, applied as the connection's
    /// user data.
    pub queue_id: u64,
    /// The one connection this client owns.
    pub connection: GnsConnection,
    /// Inbound messages the boundary has fed and the caller has not yet
    /// polled, in arrival order.
    pub inbound: Vec<GnsNetworkMessage<ToReceive>>,
}

impl IsReady for IsClient {
    open spec fn queue_id_spec(&self) -> u64 {
        self.queue_id
    }

    open spec fn inbound_spec(&self) -> Seq<GnsNetworkMessage<ToReceive>> {
        self.inbound@
    }

    fn queue_id(&self) -> (id: u64) {
        self.queue_id
    }

    fn push_inbound(&mut self, m: GnsNetworkMessage<ToReceive>) {
        self.inbound.push(m);
    }

    fn pop_inbound(&mut self) -> (r: Option<GnsNetworkMessage<ToReceive>>) {
        if self.inbound.len() == 0 {
            None
        } else {
            Some(self.inbound.remove(0))
        }
    }
}

/// A socket in state `S`: [`IsCreated`], [`IsServer`] or [`IsClient`].
/// The state is the socket — operations live on the states that support
/// them.
pub struct GnsSocket<S> {
    /// The state payload.
    pub state: S,
}

/// The options applied at socket creation, besides the address: the
/// engine's status-changed callback is wired up, and the queue id rides
/// as connection user data so the callback can find the right queue.
pub struct GnsSocketConfig {
    /// The queue id, applied as connection user data. On a listen socket
    /// every accepted connection inherits it.
    pub connection_user_data: u64,
}

impl GnsSocket<IsCreated> {
    /// A fresh socket, in the `Created` state.
    pub fn new() -> (r: Self) {
        GnsSocket { state: IsCreated }
    }

    /// What both transitions hand to the engine: the address in engine
    /// form, and the options carrying the callback wiring and the queue
    /// id.
    pub fn setup_common(address: GnsIpAddr, port: u16, queue_id: u64) -> (r: (
        GnsMappedAddress,
        GnsSocketConfig,
    ))
        ensures
            r.0.bytes@ == encoded_address(address),
            r.0.port == port,
            r.1.connection_user_data == queue_id,
    {
        let addr = GnsMappedAddress { bytes: address.to_engine_bytes(), port };
        let config = GnsSocketConfig { connection_user_data: queue_id };
        (addr, config)
    }

    /// Transition `Created -> Server`, judging the engine's replies.
    ///
    /// The caller has created the queue `queue_id` with
    /// [`GnsGlobal::create_queue`], called the engine's
    /// create-listen-socket with the address and options from
    /// [`Self::setup_common`], and — only if that returned a valid
    /// handle — created a poll group; `listen_socket` and `poll_group`
    /// are those raw replies.
    ///
    /// Both valid: the server socket owns them and its queue stays live.
    /// The listen socket invalid: `BindFailed` with nothing to release.
    /// Only the poll group invalid: `BindFailed`, and the already-created
    /// listen socket is named for release — no partial-resource leak on
    /// the failure path. On failure the queue is retired.
    pub fn listen(
        self,
        global: &mut GnsGlobal,
        queue_id: u64,
        listen_socket: u32,
        poll_group: u32,
    ) -> (r: Result<GnsSocket<IsServer>, GnsSetupFailure>)
        requires
            (queue_id as int) < old(global)@.len(),
            old(global)@[queue_id as int] is Live,
        ensures
            !GnsListenSocket(listen_socket).is_valid() ==> {
                &&& r matches Err(f) && f.error == GnsSetupError::BindFailed && f.cleanup@
                    == Seq::<EngineAction>::empty()
                &&& final(global)@ == old(global)@.update(queue_id as int, SlotModel::Retired)
            },
            GnsListenSocket(listen_socket).is_valid() && !GnsPollGroup(
                poll_group,
            ).is_valid() ==> {
                &&& r matches Err(f) && f.error == GnsSetupError::BindFailed && f.cleanup@
                    == seq![EngineAction::CloseListenSocket(GnsListenSocket(listen_socket))]
                &&& final(global)@ == old(global)@.update(queue_id as int, SlotModel::Retired)
            },
            GnsListenSocket(listen_socket).is_valid() && GnsPollGroup(
                poll_group,
            ).is_valid() ==> {
                &&& r matches Ok(s) && s.state == (IsServer {
                    queue_id,
                    listen_socket: GnsListenSocket(listen_socket),
                    poll_group: GnsPollGroup(poll_group),
                    inbound: s.state.inbound,
                }) && s.state.inbound@ == Seq::<GnsNetworkMessage<ToReceive>>::empty()
                &&& *final(global) == *old(global)
            },
    {
        if listen_socket == INVALID_HANDLE {
            global.retire_queue(queue_id);
            Err(GnsSetupFailure { error: GnsSetupError::BindFailed, cleanup: Vec::new() })
        } else if poll_group == INVALID_HANDLE {
            global.retire_queue(queue_id);
            let mut cleanup: Vec<EngineAction> = Vec::new();
            cleanup.push(EngineAction::CloseListenSocket(GnsListenSocket(listen_socket)));
            proof {
                assert(cleanup@ =~= seq![
                    EngineAction::CloseListenSocket(GnsListenSocket(listen_socket)),
                ]);
            }
            Err(GnsSetupFailure { error: GnsSetupError::BindFailed, cleanup })
        } else {
            Ok(
                GnsSocket {
                    state: IsServer {
                        queue_id,
                        listen_socket: GnsListenSocket(listen_socket),
                        poll_group: GnsPollGroup(poll_group),
                        inbound: Vec::new(),
                    },
                },
            )
        }
    }

    /// Transition `Created -> Client`, judging the engine's reply.
    ///
    /// The caller has created the queue `queue_id` and called the
    /// engine's connect-by-address with the address and options from
    /// [`Self::setup_common`]; `connection` is the raw reply. A valid
    /// handle makes the client socket that owns it; an invalid one is
    /// `ConnectFailed` with nothing to release, and the queue is
    /// retired.
    pub fn connect(self, global: &mut GnsGlobal, queue_id: u64, connection: u32) -> (r: Result<
        GnsSocket<IsClient>,
        GnsSetupFailure,
    >)
        requires
            (queue_id as int) < old(global)@.len(),
            old(global)@[queue_id as int] is Live,
        ensures
            !GnsConnection(connection).is_valid() ==> {
                &&& r matches Err(f) && f.error == GnsSetupError::ConnectFailed && f.cleanup@
                    == Seq::<EngineAction>::empty()
                &&& final(global)@ == old(global)@.update(queue_id as int, SlotModel::Retired)
            },
            GnsConnection(connection).is_valid() ==> {
                &&& r matches Ok(s) && s.state == (IsClient {
                    queue_id,
                    connection: GnsConnection(connection),
                    inbound: s.state.inbound,
                }) && s.state.inbound@ == Seq::<GnsNetworkMessage<ToReceive>>::empty()
                &&& *final(global) == *old(global)
            },
    {
        if connection == INVALID_HANDLE {
            global.retire_queue(queue_id);
            Err(GnsSetupFailure { error: GnsSetupError::ConnectFailed, cleanup: Vec::new() })
        } else {
            Ok(
                GnsSocket {
                    state: IsClient {
                        queue_id,
                        connection: GnsConnection(connection),
                        inbound: Vec::new(),
                    },
                },
            )
        }
    }
}

impl GnsSocket<IsServer> {
    /// Judge an accept. `accept_result` is what the engine's accept call
    /// returned for `connection`; when it is success, `bind_ok` is what
    /// binding the accepted connection to this socket's poll group
    /// returned. The engine code comes back unmodified: success is
    /// `Ok(())`, everything else `Err` with the code.
    ///
    /// A bind failure right after a successful accept would mean the
    /// engine contradicted itself on two handles it just validated; that
    /// is an unrecoverable invariant violation, excluded here — the
    /// boundary treats it as fatal instead of returning an ambiguous
    /// partial state.
    pub fn accept(&self, connection: GnsConnection, accept_result: EResult, bind_ok: bool) -> (r:
        GnsResult<()>)
        requires
            accept_result.is_ok_code() ==> bind_ok,
        ensures
            r == into_result_model(GnsError(accept_result)),
            r is Ok <==> accept_result.is_ok_code(),
    {
        let _ = connection;
        let _ = bind_ok;
        GnsError(accept_result).into_result()
    }

    /// Tear the server down. The engine resources come back for release
    /// in the fixed order the engine requires — close the listen socket,
    /// then destroy the poll group — and the event queue is retired:
    /// buffered events are dropped, and a late event for this id is
    /// dropped by dispatch, never dereferenced.
    pub fn destroy(self, global: &mut GnsGlobal) -> (actions: Vec<EngineAction>)
        requires
            (self.state.queue_id as int) < old(global)@.len(),
            old(global)@[self.state.queue_id as int] is Live,
        ensures
            actions@ == seq![
                EngineAction::CloseListenSocket(self.state.listen_socket),
                EngineAction::DestroyPollGroup(self.state.poll_group),
            ],
            final(global)@ == old(global)@.update(
                self.state.queue_id as int,
                SlotModel::Retired,
            ),
    {
        global.retire_queue(self.state.queue_id);
        let mut actions: Vec<EngineAction> = Vec::new();
        actions.push(EngineAction::CloseListenSocket(self.state.listen_socket));
        actions.push(EngineAction::DestroyPollGroup(self.state.poll_group));
        proof {
            assert(actions@ =~= seq![
                EngineAction::CloseListenSocket(self.state.listen_socket),
                EngineAction::DestroyPollGroup(self.state.poll_group),
            ]);
        }
        actions
    }
}

impl GnsSocket<IsClient> {
    /// The one connection this client owns.
    pub fn connection(&self) -> (r: GnsConnection)
        ensures
            r == self.state.connection,
    {
        self.state.connection
    }

    /// Tear the client down. The connection comes back for release, and
    /// the event queue is retired as for a server.
    pub fn destroy(self, global: &mut GnsGlobal) -> (actions: Vec<EngineAction>)
        requires
            (self.state.queue_id as int) < old(global)@.len(),
            old(global)@[self.state.queue_id as int] is Live,
        ensures
            actions@ == seq![EngineAction::CloseConnection(self.state.connection)],
            final(global)@ == old(global)@.update(
                self.state.queue_id as int,
                SlotModel::Retired,
            ),
    {
        global.retire_queue(self.state.queue_id);
        let mut actions: Vec<EngineAction> = Vec::new();
        actions.push(EngineAction::CloseConnection(self.state.connection));
        proof {
            assert(actions@ =~= seq![EngineAction::CloseConnection(self.state.connection)]);
        }
        actions
    }
}

/// What one raw per-message send result decodes to: the engine writes
/// the assigned message number, or the negated error code.
pub open spec fn decode_send_result(raw: i64) -> Either<GnsMessageNumber, EResult> {
    if raw < 0 {
        Either::Right(EResult((-raw) as u32))
    } else {
        Either::Left(raw as u64)
    }
}

impl<S: IsReady> GnsSocket<S> {
    /// Hand this socket the messages a receive call just drained from
    /// the engine, in the order the engine returned them. The boundary
    /// calls this right after the engine receive; the messages wait here
    /// until the caller polls them.
    pub fn feed_messages(&mut self, received: Vec<GnsNetworkMessage<ToReceive>>)
        ensures
            final(self).state.inbound_spec() == old(self).state.inbound_spec() + received@,
            final(self).state.queue_id_spec() == old(self).state.queue_id_spec(),
    {
        let ghost m0 = self.state.inbound_spec();
        let ghost r0 = received@;
        let mut pending = received;
        while pending.len() > 0
            invariant
                self.state.inbound_spec() + pending@ == m0 + r0,
                self.state.queue_id_spec() == old(self).state.queue_id_spec(),
            decreases pending.len(),
        {
            let ghost pre = pending@;
            let m = pending.remove(0);
            proof {
                assert(self.state.inbound_spec().push(pre[0]) + pre.drop_first()
                    =~= self.state.inbound_spec() + pre);
            }
            self.state.push_inbound(m);
        }
        proof {
            assert(self.state.inbound_spec() =~= self.state.inbound_spec() + pending@);
        }
    }

    /// Drain up to `max_k` buffered inbound messages, in arrival order:
    /// exactly the oldest `drain_count` come back, and the buffer keeps
    /// the rest in order — a drain never reorders. Never blocks, and
    /// `max_k == 0` drains nothing and changes nothing. For a server the
    /// buffer spans the whole poll group — messages from any accepted
    /// connection, each tagged with its connection; for a client it is
    /// the one connection's.
    pub fn poll_messages(&mut self, max_k: usize) -> (out: Vec<GnsNetworkMessage<ToReceive>>)
        ensures
            ({
                let m0 = old(self).state.inbound_spec();
                let n = drain_count(m0, max_k);
                &&& out@ == m0.take(n)
                &&& final(self).state.inbound_spec() == m0.skip(n)
                &&& final(self).state.queue_id_spec() == old(self).state.queue_id_spec()
            }),
    {
        let ghost m0 = self.state.inbound_spec();
        let ghost qid = self.state.queue_id_spec();
        let mut out: Vec<GnsNetworkMessage<ToReceive>> = Vec::new();
        while out.len() < max_k
            invariant_except_break
                out@.len() <= max_k,
                out@.len() <= m0.len(),
                out@ == m0.take(out@.len() as int),
                self.state.inbound_spec() == m0.skip(out@.len() as int),
                self.state.queue_id_spec() == qid,
            ensures
                out@ == m0.take(drain_count(m0, max_k)),
                self.state.inbound_spec() == m0.skip(drain_count(m0, max_k)),
                self.state.queue_id_spec() == qid,
            decreases max_k - out.len(),
        {
            match self.state.pop_inbound() {
                Some(m) => {
                    proof {
                        assert(m0.skip(out@.len() as int)[0] == m0[out@.len() as int]);
                        assert(m0.take(out@.len() as int).push(m0[out@.len() as int]) =~= m0.take(
                            out@.len() as int + 1,
                        ));
                        assert(m0.skip(out@.len() as int).drop_first() =~= m0.skip(
                            out@.len() as int + 1,
                        ));
                    }
                    out.push(m);
                },
                None => {
                    proof {
                        assert(m0.skip(out@.len() as int).len() == 0);
                        assert(out@.len() == m0.len());
                    }
                    break ;
                },
            }
        }
        out
    }

    /// Drain up to `max_k` pending connection events for this socket, in
    /// arrival order, straight from its queue in the registry. Never
    /// blocks, and `max_k == 0` drains nothing and changes nothing.
    pub fn poll_event(&self, global: &mut GnsGlobal, max_k: usize) -> (out: Vec<
        GnsConnectionEvent,
    >)
        requires
            (self.state.queue_id_spec() as int) < old(global)@.len(),
            old(global)@[self.state.queue_id_spec() as int] is Live,
        ensures
            ({
                let q0 = old(global)@[self.state.queue_id_spec() as int]->Live_0;
                let n = drain_count(q0, max_k);
                &&& out@ == q0.take(n)
                &&& final(global)@ == old(global)@.update(
                    self.state.queue_id_spec() as int,
                    SlotModel::Live(q0.skip(n)),
                )
            }),
    {
        let id = self.state.queue_id();
        global.poll_queue(id, max_k)
    }

    /// Submit a batch of messages. Ownership of every message passes to
    /// the engine whether its send succeeds or fails — nothing of the
    /// caller's is partially mutated. `raw_results` is the per-message
    /// result array the engine filled, one entry per message in the same
    /// order; each decodes to the assigned message number on success or
    /// the engine's error code on failure.
    pub fn send_messages(
        &self,
        messages: Vec<GnsNetworkMessage<ToSend>>,
        raw_results: Vec<i64>,
    ) -> (out: Vec<Either<GnsMessageNumber, EResult>>)
        requires
            raw_results@.len() == messages@.len(),
            forall|i: int| 0 <= i < raw_results@.len() ==> raw_results@[i] >= -(u32::MAX as i64),
        ensures
            out@.len() == raw_results@.len(),
            forall|i: int| 0 <= i < out@.len() ==> out@[i] == decode_send_result(raw_results@[i]),
    {
        let _ = messages;
        let mut out: Vec<Either<GnsMessageNumber, EResult>> = Vec::new();
        let n = raw_results.len();
        let mut i: usize = 0;
        while i < n
            invariant
                i <= n,
                n == raw_results@.len(),
                out@.len() == i,
                forall|j: int| 0 <= j < i ==> out@[j] == decode_send_result(raw_results@[j]),
                forall|j: int| 0 <= j < raw_results@.len() ==> raw_results@[j] >= -(
                u32::MAX as i64),
            decreases n - i,
        {
            let raw = raw_results[i];
            if raw < 0 {
                out.push(Either::Right(EResult((-raw) as u32)));
            } else {
                out.push(Either::Left(raw as u64));
            }
            i = i + 1;
        }
        out
    }

    /// Configure the connection's lanes: lane ids are list positions —
    /// entry 0 becomes lane 0, and so on — and the engine receives the
    /// priorities and weights as the two arrays of
    /// [`lane_arrays`]. Must have been called before sending on any lane
    /// id above 0. `engine_result` is the code the engine returned for
    /// exactly that configuration; it comes back undecoded except that
    /// success is `Ok(())` — a rejected configuration (for example a
    /// connection that is not ready) keeps the engine's code.
    pub fn configure_connection_lanes(
        &self,
        connection: GnsConnection,
        lanes: &[GnsLane],
        engine_result: EResult,
    ) -> (r: GnsResult<()>)
        ensures
            r == into_result_model(GnsError(engine_result)),
            r is Ok <==> engine_result.is_ok_code(),
    {
        let _ = connection;
        let _ = lanes;
        GnsError(engine_result).into_result()
    }

    /// Judge a real-time status query. The caller handed the engine a
    /// status struct and a lane buffer of exactly `nb_of_lanes` entries
    /// (see [`prepare_lane_statuses`]); `engine_result`, `status` and
    /// `lanes` are what came back. On success the snapshot and exactly
    /// `nb_of_lanes` per-lane snapshots are returned; a stale handle
    /// keeps the engine's error code.
    pub fn get_connection_real_time_status(
        &self,
        connection: GnsConnection,
        nb_of_lanes: u32,
        engine_result: EResult,
        status: GnsConnectionRealTimeStatus,
        lanes: Vec<GnsConnectionRealTimeLaneStatus>,
    ) -> (r: GnsResult<(GnsConnectionRealTimeStatus, Vec<GnsConnectionRealTimeLaneStatus>)>)
        requires
            lanes@.len() == nb_of_lanes,
        ensures
            engine_result.is_ok_code() ==> (r matches Ok(p) && p.0 == status && p.1@ == lanes@
                && p.1@.len() == nb_of_lanes),
            !engine_result.is_ok_code() ==> r == Err::<
                (GnsConnectionRealTimeStatus, Vec<GnsConnectionRealTimeLaneStatus>),
                EResult,
            >(engine_result),
    {
        let _ = connection;
        if engine_result.0 == crate::errors::E_RESULT_OK {
            Ok((status, lanes))
        } else {
            Err(engine_result)
        }
    }

    /// Judge a connection-info query: `found` is what the engine
    /// returned, and when it holds, `info` is the snapshot the engine
    /// filled; a stale handle yields `None`.
    pub fn get_connection_info(
        &self,
        connection: GnsConnection,
        found: bool,
        info: GnsConnectionInfo,
    ) -> (r: Option<GnsConnectionInfo>)
        ensures
            found ==> r == Some(info),
            !found ==> r is None,
    {
        let _ = connection;
        if found {
            Some(info)
        } else {
            None
        }
    }

    /// Judge a flush: the engine's code for flushing the connection's
    /// queued messages comes back, success as `Ok(())`.
    pub fn flush_messages_on_connection(
        &self,
        connection: GnsConnection,
        engine_result: EResult,
    ) -> (r: GnsResult<()>)
        ensures
            r == into_result_model(GnsError(engine_result)),
            r is Ok <==> engine_result.is_ok_code(),
    {
        let _ = connection;
        GnsError(engine_result).into_result()
    }

    /// Close one connection explicitly — meaningful mainly on a server,
    /// which manages many. The diagnostic goes to the engine as a C
    /// string, so it cannot hold an interior NUL; `accepted` is what the
    /// engine's close call returned, handed back unchanged.
    pub fn close_connection(
        &self,
        connection: GnsConnection,
        reason: u32,
        debug: &str,
        linger: bool,
        accepted: bool,
    ) -> (r: bool)
        requires
            forall|i: int| 0 <= i < debug@.len() ==> debug@[i] != '\0',
        ensures
            r == accepted,
    {
        let _ = connection;
        let _ = reason;
        let _ = debug;
        let _ = linger;
        accepted
    }
}

/// Split a lane list into the two parallel arrays the engine's
/// lane-configuration call takes: position `i` of both describes lane id
/// `i`.
pub fn lane_arrays(lanes: &[GnsLane]) -> (r: (Vec<Priority>, Vec<Weight>))
    ensures
        r.0@.len() == lanes@.len(),
        r.1@.len() == lanes@.len(),
        forall|i: int| 0 <= i < lanes@.len() ==> r.0@[i] == lanes@[i].0 && r.1@[i] == lanes@[i].1,
{
    let mut priorities: Vec<Priority> = Vec::new();
    let mut weights: Vec<Weight> = Vec::new();
    let n = lanes.len();
    let mut i: usize = 0;
    while i < n
        invariant
            i <= n,
            n == lanes@.len(),
            priorities@.len() == i,
            weights@.len() == i,
            forall|j: int| 0 <= j < i ==> priorities@[j] == lanes@[j].0 && weights@[j]
                == lanes@[j].1,
        decreases n - i,
    {
        let lane = lanes[i];
        priorities.push(lane.0);
        weights.push(lane.1);
        i = i + 1;
    }
    (priorities, weights)
}

/// Allocate the per-lane buffer a real-time status query hands the
/// engine to fill: exactly `nb_of_lanes` zeroed lane snapshots.
pub fn prepare_lane_statuses(nb_of_lanes: u32) -> (r: Vec<GnsConnectionRealTimeLaneStatus>)
    ensures
        r@.len() == nb_of_lanes,
        forall|i: int|
            0 <= i < r@.len() ==> r@[i] == (GnsConnectionRealTimeLaneStatus {
                pending_bytes_unreliable: 0,
                pending_bytes_reliable: 0,
                bytes_sent_unacked_reliable: 0,
                approximated_queue_time_usec: 0,
            }),
{
    let mut r: Vec<GnsConnectionRealTimeLaneStatus> = Vec::new();
    let n = nb_of_lanes as usize;
    let mut i: usize = 0;
    while i < n
        invariant
            i <= n,
            n == nb_of_lanes,
            r@.len() == i,
            forall|j: int|
                0 <= j < i ==> r@[j] == (GnsConnectionRealTimeLaneStatus {
                    pending_bytes_unreliable: 0,
                    pending_bytes_reliable: 0,
                    bytes_sent_unacked_reliable: 0,
                    approximated_queue_time_usec: 0,
                }),
        decreases n - i,
    {
        r.push(
            GnsConnectionRealTimeLaneStatus {
                pending_bytes_unreliable: 0,
                pending_bytes_reliable: 0,
                bytes_sent_unacked_reliable: 0,
                approximated_queue_time_usec: 0,
            },
        );
        i = i + 1;
    }
    r
}

/// The messages of one connection and one lane, in order, out of a
/// buffer.
pub open spec fn on_lane(
    s: Seq<GnsNetworkMessage<ToReceive>>,
    conn: GnsConnection,
    lane: GnsLaneId,
) -> Seq<GnsNetworkMessage<ToReceive>> {
    s.filter(|m: GnsNetworkMessage<ToReceive>| m@.connection == conn && m@.lane == lane)
}

/// Law: a drain never reorders a lane. Whatever `max_k`, the messages a
/// drain returns carry, for every connection and every lane, a prefix of
/// that lane's buffered messages in arrival order — so as long as the
/// boundary feeds messages in the order the engine delivers them (which
/// preserves send order per reliable lane), receipt order per lane
/// equals send order.
pub proof fn lemma_drain_keeps_lane_order(
    buffered: Seq<GnsNetworkMessage<ToReceive>>,
    max_k: usize,
    conn: GnsConnection,
    lane: GnsLaneId,
)
    ensures
        ({
            let n = drain_count(buffered, max_k);
            on_lane(buffered.take(n), conn, lane).is_prefix_of(on_lane(buffered, conn, lane))
        }),
{
    let n = drain_count(buffered, max_k);
    let p = |m: GnsNetworkMessage<ToReceive>| m@.connection == conn && m@.lane == lane;
    assert(buffered.take(n).is_prefix_of(buffered));
    buffered.take(n).lemma_filter_monotone(buffered, p);
}

} // verus!
