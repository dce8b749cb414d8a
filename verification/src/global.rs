//! The process-wide engine singleton: call-once initialisation, the
//! event registry, and teardown.
//!
//! The engine may be initialised at most once at a time per process.
//! This layer uses the strict single-holder design: acquisition succeeds
//! exactly when no other live handle exists and the engine's own
//! initialisation call succeeded; acquiring while a handle lives fails
//! with `AlreadyInitialized` and never silently aliases. Releasing the
//! handle tears the engine down exactly once and lets a later
//! acquisition succeed again.
//!
//! The one process-wide cell that records whether a handle lives is
//! modelled by [`GnsGlobalSlot`]; the caller keeps it beside the static
//! state the engine itself occupies.

use vstd::prelude::*;
use crate::info::GnsConnectionEvent;
use crate::registry::{EventRegistry, SlotModel, dispatch_model};
use crate::utils::GnsUtils;

verus! {

/// Why acquiring the engine singleton failed.
#[derive(Debug)]
pub enum GnsGlobalError {
    /// A live handle already exists; the engine is not initialised twice.
    AlreadyInitialized,
    /// The engine's initialisation call failed; carries its diagnostic.
    InitFailed(String),
}

impl GnsGlobalError {
    /// The failure as readable text.
    pub fn message(&self) -> (r: &str)
        ensures
            self matches GnsGlobalError::InitFailed(m) ==> r@ == m@,
    {
        match self {
            GnsGlobalError::AlreadyInitialized => "engine already initialized",
            GnsGlobalError::InitFailed(m) => m.as_str(),
        }
    }
}

/// The process-wide cell that records whether an engine handle lives.
/// There is meant to be exactly one per process, created at startup and
/// handed to every acquisition.
pub struct GnsGlobalSlot {
    live: bool,
}

impl GnsGlobalSlot {
    /// Whether a handle currently lives.
    pub closed spec fn is_live(&self) -> bool {
        self.live
    }

    /// The state at process start: no handle lives.
    pub fn new() -> (r: Self)
        ensures
            !r.is_live(),
    {
        GnsGlobalSlot { live: false }
    }

    /// Whether a handle currently lives, at runtime: what a caller tests
    /// before touching the engine's own initialisation.
    pub fn live(&self) -> (r: bool)
        ensures
            r == self.is_live(),
    {
        self.live
    }
}

/// What acquisition does to the slot: the pair is (does a handle live
/// afterwards, did the acquisition succeed).
pub open spec fn acquire_model(live: bool, init_ok: bool) -> (bool, bool) {
    if live {
        (true, false)
    } else if init_ok {
        (true, true)
    } else {
        (false, false)
    }
}

/// The engine singleton: owns the utility interface and the event
/// registry that demultiplexes the engine's global callback. Its view is
/// the registry's: the sequence of event-queue states, indexed by id.
pub struct GnsGlobal {
    utils: GnsUtils,
    registry: EventRegistry,
}

impl View for GnsGlobal {
    type V = Seq<SlotModel>;

    closed spec fn view(&self) -> Seq<SlotModel> {
        self.registry@
    }
}

impl GnsGlobal {
    /// Acquire the engine singleton.
    ///
    /// `init_ok` and `init_err` are the outcome of the engine's
    /// initialisation call, which the caller performs only when the slot
    /// is free: success returns the one live handle with an empty
    /// registry and marks the slot live; an engine failure propagates the
    /// diagnostic; a slot that is already live fails with
    /// `AlreadyInitialized` and changes nothing.
    pub fn get(slot: &mut GnsGlobalSlot, init_ok: bool, init_err: String) -> (r: Result<
        GnsGlobal,
        GnsGlobalError,
    >)
        ensures
            old(slot).is_live() ==> r matches Err(GnsGlobalError::AlreadyInitialized),
            !old(slot).is_live() && !init_ok ==> (r matches Err(GnsGlobalError::InitFailed(m))
                && m@ == init_err@),
            !old(slot).is_live() && init_ok ==> (r matches Ok(g) && g@ == Seq::<
                SlotModel,
            >::empty()),
            final(slot).is_live() == acquire_model(old(slot).is_live(), init_ok).0,
            (r is Ok) == acquire_model(old(slot).is_live(), init_ok).1,
    {
        if slot.live {
            Err(GnsGlobalError::AlreadyInitialized)
        } else if init_ok {
            slot.live = true;
            Ok(GnsGlobal { utils: GnsUtils, registry: EventRegistry::new() })
        } else {
            Err(GnsGlobalError::InitFailed(init_err))
        }
    }

    /// Relinquish the singleton. The caller performs the engine teardown
    /// call at this point — exactly once — after which a new acquisition
    /// may succeed.
    pub fn release(slot: &mut GnsGlobalSlot, handle: GnsGlobal)
        requires
            old(slot).is_live(),
        ensures
            !final(slot).is_live(),
    {
        let _ = handle;
        slot.live = false;
    }

    /// The engine's utility interface.
    pub fn utils(&self) -> &GnsUtils {
        &self.utils
    }

    /// Issue a fresh event queue and return its id, never handed out
    /// before; the id is what sockets store as connection user data.
    pub fn create_queue(&mut self) -> (id: u64)
        ensures
            id as int == old(self)@.len(),
            final(self)@ == old(self)@.push(SlotModel::Live(Seq::<GnsConnectionEvent>::empty())),
    {
        self.registry.create_queue()
    }

    /// The engine's global status-change callback, resolved against the
    /// registry: the event lands at the tail of the queue whose id rides
    /// in the connection's user data; a stale id drops the event and
    /// evicts the entry; an unknown id is ignored. Total — no event can
    /// make this fail.
    pub fn on_connection_state_changed(&mut self, event: GnsConnectionEvent)
        ensures
            final(self)@ == dispatch_model(old(self)@, event.info.user_data, event),
    {
        let id = event.info.user_data;
        self.registry.dispatch(id, event);
    }

    /// Run the engine's callback dispatch: the engine hands over the
    /// status changes it buffered (`raised`, in the order it raised
    /// them), and each one is routed through
    /// [`Self::on_connection_state_changed`] in that order. Never blocks.
    pub fn poll_callbacks(&mut self, raised: Vec<GnsConnectionEvent>)
        ensures
            final(self)@ == dispatch_all(old(self)@, raised@),
    {
        let mut pending = raised;
        let ghost v0 = self@;
        let ghost e0 = pending@;
        while pending.len() > 0
            invariant
                dispatch_all(v0, e0) == dispatch_all(self@, pending@),
            decreases pending.len(),
        {
            let e = pending.remove(0);
            self.on_connection_state_changed(e);
        }
        proof {
            assert(pending@.len() == 0);
        }
    }

    /// Drain up to `max_k` events from the queue `id`, in arrival order.
    /// Exposed to the socket layer, which knows its own queue is live.
    pub(crate) fn poll_queue(&mut self, id: u64, max_k: usize) -> (out: Vec<GnsConnectionEvent>)
        requires
            (id as int) < old(self)@.len(),
            old(self)@[id as int] is Live,
        ensures
            ({
                let q0 = old(self)@[id as int]->Live_0;
                let n = crate::registry::drain_count(q0, max_k);
                &&& out@ == q0.take(n)
                &&& final(self)@ == old(self)@.update(id as int, SlotModel::Live(q0.skip(n)))
            }),
    {
        self.registry.poll(id, max_k)
    }

    /// Whether `id` currently names a live queue: the runtime form of
    /// what the draining and teardown operations require of the caller.
    pub fn queue_is_live(&self, id: u64) -> (r: bool)
        ensures
            r == ((id as int) < self@.len() && self@[id as int] is Live),
    {
        self.registry.is_live(id)
    }

    /// Retire the queue `id`: its socket is going away.
    pub(crate) fn retire_queue(&mut self, id: u64)
        requires
            (id as int) < old(self)@.len(),
            old(self)@[id as int] is Live,
        ensures
            final(self)@ == old(self)@.update(id as int, SlotModel::Retired),
    {
        self.registry.retire(id)
    }
}

/// What a whole callback run does to the registry: each raised event is
/// dispatched in order, routed by the queue id in its connection user
/// data.
pub open spec fn dispatch_all(v: Seq<SlotModel>, events: Seq<GnsConnectionEvent>) -> Seq<SlotModel>
    decreases events.len(),
{
    if events.len() == 0 {
        v
    } else {
        dispatch_all(dispatch_model(v, events[0].info.user_data, events[0]), events.drop_first())
    }
}

/// Law: one callback run routes events in arrival order. A queue that
/// is live when the run starts stays live, and receives, appended
/// behind what it already held and in the order the engine raised them,
/// exactly the events that carry its id — however the same run treats
/// every other id.
pub proof fn lemma_callbacks_route_in_order(
    v: Seq<SlotModel>,
    events: Seq<GnsConnectionEvent>,
    id: u64,
)
    requires
        (id as int) < v.len(),
        v[id as int] is Live,
    ensures
        dispatch_all(v, events).len() == v.len(),
        dispatch_all(v, events)[id as int] == SlotModel::Live(
            v[id as int]->Live_0 + events.filter(
                |e: GnsConnectionEvent| e.info.user_data == id,
            ),
        ),
    decreases events.len(),
{
    reveal_with_fuel(Seq::filter, 3);
    let p = |e: GnsConnectionEvent| e.info.user_data == id;
    let q = v[id as int]->Live_0;
    if events.len() == 0 {
        assert(events.filter(p) =~= Seq::<GnsConnectionEvent>::empty());
        assert(q + events.filter(p) =~= q);
    } else {
        let e = events[0];
        let first = seq![e];
        let rest = events.drop_first();
        let v1 = dispatch_model(v, e.info.user_data, e);
        assert(v1.len() == v.len());
        assert(v1[id as int] is Live);
        lemma_callbacks_route_in_order(v1, rest, id);
        assert(events =~= first + rest);
        Seq::<GnsConnectionEvent>::filter_distributes_over_add(first, rest, p);
        if e.info.user_data == id {
            assert(first.filter(p) =~= first);
            assert(v1[id as int]->Live_0 =~= q.push(e));
            assert(q.push(e) + rest.filter(p) =~= q + (first + rest).filter(p));
        } else {
            assert(first.filter(p) =~= Seq::<GnsConnectionEvent>::empty());
            assert(v1[id as int] == v[id as int]);
            assert(q + rest.filter(p) =~= q + (first + rest).filter(p));
        }
    }
}

/// Law: the singleton is exclusive. Acquisition succeeds exactly on a
/// free slot whose engine initialisation succeeded; a successful
/// acquisition leaves the slot live, and while it is live every further
/// acquisition fails, whatever the engine would have answered. Socket
/// transitions never touch the slot, so no sequence of listen or connect
/// calls changes this; only release frees it.
pub proof fn lemma_singleton_exclusive(init_ok1: bool, init_ok2: bool)
    ensures
        acquire_model(false, init_ok1) == (init_ok1, init_ok1),
        acquire_model(false, init_ok1).1 ==> !acquire_model(
            acquire_model(false, init_ok1).0,
            init_ok2,
        ).1,
        !acquire_model(true, init_ok2).1,
{
}

} // verus!
