//! The bridge from the engine's single global status-change callback to
//! per-socket event queues.
//!
//! The engine supports one global callback for connection-status changes.
//! Every socket that reaches a ready state is issued a unique integer id,
//! and that id — never a pointer — is stored as the connection's user
//! data, so it survives engine-internal copying. This registry maps ids
//! to queues: an arena whose index is the id, so ids are assigned
//! monotonically and never reused.
//!
//! Dispatching an event looks its id up: a live entry receives the event
//! at the tail of its queue; an entry whose socket has been destroyed is
//! evicted and the event is dropped — an accepted, intentional drop path,
//! never a crash; an unknown id is ignored. Destroying a socket only
//! retires its entry, and eviction happens lazily on the next dispatch
//! that references it, mirroring how the engine may still hold buffered
//! events for a socket that no longer exists.

use vstd::prelude::*;
use crossbeam_queue::SegQueue;
use crate::info::GnsConnectionEvent;
use crate::queue::{new_event_queue, pop_event, push_event, queue_events};

verus! {

/// One registry entry.
pub enum RegistrySlot {
    /// The owning socket lives; events for this id land in this queue.
    Live(SegQueue<GnsConnectionEvent>),
    /// The owning socket was destroyed; the entry waits to be evicted by
    /// the next dispatch that references it.
    Retired,
    /// A dispatch found the entry retired and evicted it; the id stays
    /// burnt forever.
    Evicted,
}

/// The mathematical state of one registry entry: a live entry is its
/// queue contents, head first.
pub enum SlotModel {
    /// A live entry with its pending events, head first.
    Live(Seq<GnsConnectionEvent>),
    /// An entry whose socket is gone, not yet evicted.
    Retired,
    /// An evicted entry.
    Evicted,
}

/// The model of one entry.
pub open spec fn slot_model(s: RegistrySlot) -> SlotModel {
    match s {
        RegistrySlot::Live(q) => SlotModel::Live(queue_events(q)),
        RegistrySlot::Retired => SlotModel::Retired,
        RegistrySlot::Evicted => SlotModel::Evicted,
    }
}

/// The id-to-queue table. Its view is the sequence of entry models,
/// indexed by id: ids are handed out as `0, 1, 2, ...` in creation order
/// and never reused.
pub struct EventRegistry {
    slots: Vec<RegistrySlot>,
}

impl View for EventRegistry {
    type V = Seq<SlotModel>;

    closed spec fn view(&self) -> Seq<SlotModel> {
        self.slots@.map_values(|s: RegistrySlot| slot_model(s))
    }
}

/// What one dispatch does to the table: append to a live queue, evict a
/// retired entry (dropping the event), ignore everything else.
pub open spec fn dispatch_model(v: Seq<SlotModel>, id: u64, e: GnsConnectionEvent) -> Seq<
    SlotModel,
> {
    if (id as int) < v.len() {
        match v[id as int] {
            SlotModel::Live(q) => v.update(id as int, SlotModel::Live(q.push(e))),
            SlotModel::Retired => v.update(id as int, SlotModel::Evicted),
            SlotModel::Evicted => v,
        }
    } else {
        v
    }
}

/// How many elements a drain of up to `max_k` takes from a queue
/// holding `buffered`: all of them, capped at `max_k`.
pub open spec fn drain_count<A>(buffered: Seq<A>, max_k: usize) -> int {
    if buffered.len() <= max_k {
        buffered.len() as int
    } else {
        max_k as int
    }
}

impl EventRegistry {
    /// An empty table.
    pub fn new() -> (r: Self)
        ensures
            r@ == Seq::<SlotModel>::empty(),
    {
        let r = EventRegistry { slots: Vec::new() };
        proof {
            assert(r@ =~= Seq::<SlotModel>::empty());
        }
        r
    }

    /// Create a fresh, empty, live queue and return its id: the next
    /// index of the arena, so no id is ever handed out twice.
    pub fn create_queue(&mut self) -> (id: u64)
        ensures
            id as int == old(self)@.len(),
            final(self)@ == old(self)@.push(SlotModel::Live(Seq::<GnsConnectionEvent>::empty())),
    {
        let id = self.slots.len() as u64;
        let q = new_event_queue();
        self.slots.push(RegistrySlot::Live(q));
        proof {
            assert(self@ =~= old(self)@.push(
                SlotModel::Live(Seq::<GnsConnectionEvent>::empty()),
            ));
        }
        id
    }

    /// Whether `id` currently names a live queue. This is the runtime
    /// form of the liveness the draining operations require, so an
    /// unverified caller can test it before calling them.
    pub fn is_live(&self, id: u64) -> (r: bool)
        ensures
            r == ((id as int) < self@.len() && self@[id as int] is Live),
    {
        let n = self.slots.len();
        proof {
            assert(self.slots@.len() == self@.len());
        }
        if id < n as u64 {
            let idx = id as usize;
            match &self.slots[idx] {
                RegistrySlot::Live(_) => true,
                RegistrySlot::Retired => false,
                RegistrySlot::Evicted => false,
            }
        } else {
            false
        }
    }

    /// Route one engine event to the queue its id names, as
    /// [`dispatch_model`] says: a live queue receives it at the tail, a
    /// retired entry is evicted and the event dropped, an evicted or
    /// unknown id is ignored. Total — no id can make this fail.
    pub fn dispatch(&mut self, id: u64, e: GnsConnectionEvent)
        ensures
            final(self)@ == dispatch_model(old(self)@, id, e),
    {
        let n = self.slots.len();
        proof {
            assert(self.slots@.len() == self@.len());
        }
        if id < n as u64 {
            let idx = id as usize;
            let slot = self.slots.remove(idx);
            match slot {
                RegistrySlot::Live(mut q) => {
                    push_event(&mut q, e);
                    self.slots.insert(idx, RegistrySlot::Live(q));
                },
                RegistrySlot::Retired => {
                    self.slots.insert(idx, RegistrySlot::Evicted);
                },
                RegistrySlot::Evicted => {
                    self.slots.insert(idx, RegistrySlot::Evicted);
                },
            }
            proof {
                assert(self@ =~= dispatch_model(old(self)@, id, e));
            }
        } else {
            proof {
                assert(self@ =~= dispatch_model(old(self)@, id, e));
            }
        }
    }

    /// Retire a live entry: its socket is being destroyed, its buffered
    /// events are dropped, and the entry stays behind until a later
    /// dispatch evicts it.
    pub fn retire(&mut self, id: u64)
        requires
            (id as int) < old(self)@.len(),
            old(self)@[id as int] is Live,
        ensures
            final(self)@ == old(self)@.update(id as int, SlotModel::Retired),
    {
        let n = self.slots.len();
        proof {
            assert(self.slots@.len() == self@.len());
            assert((id as int) < n as int);
        }
        let idx = id as usize;
        let _slot = self.slots.remove(idx);
        self.slots.insert(idx, RegistrySlot::Retired);
        proof {
            assert(self@ =~= old(self)@.update(id as int, SlotModel::Retired));
        }
    }

    /// Drain up to `max_k` pending events from a live queue, in arrival
    /// order: the result is exactly the first `drain_count` events, and
    /// the queue keeps the rest in order. Never blocks.
    pub fn poll(&mut self, id: u64, max_k: usize) -> (out: Vec<GnsConnectionEvent>)
        requires
            (id as int) < old(self)@.len(),
            old(self)@[id as int] is Live,
        ensures
            ({
                let q0 = old(self)@[id as int]->Live_0;
                let n = drain_count(q0, max_k);
                &&& out@ == q0.take(n)
                &&& final(self)@ == old(self)@.update(id as int, SlotModel::Live(q0.skip(n)))
            }),
    {
        let n = self.slots.len();
        proof {
            assert(self.slots@.len() == self@.len());
            assert((id as int) < n as int);
            assert(old(self)@[id as int] == slot_model(old(self).slots@[id as int]));
        }
        let idx = id as usize;
        let slot = self.slots.remove(idx);
        let mut out: Vec<GnsConnectionEvent> = Vec::new();
        match slot {
            RegistrySlot::Live(mut q) => {
                let ghost q0 = queue_events(q);
                while out.len() < max_k
                    invariant_except_break
                        out@.len() <= max_k,
                        out@.len() <= q0.len(),
                        out@ == q0.take(out@.len() as int),
                        queue_events(q) == q0.skip(out@.len() as int),
                    ensures
                        out@ == q0.take(drain_count(q0, max_k)),
                        queue_events(q) == q0.skip(drain_count(q0, max_k)),
                    decreases max_k - out.len(),
                {
                    match pop_event(&mut q) {
                        Some(e) => {
                            proof {
                                assert(q0.skip(out@.len() as int)[0] == q0[out@.len() as int]);
                                assert(q0.take(out@.len() as int).push(q0[out@.len() as int])
                                    =~= q0.take(out@.len() as int + 1));
                                assert(q0.skip(out@.len() as int).drop_first() =~= q0.skip(
                                    out@.len() as int + 1,
                                ));
                            }
                            out.push(e);
                        },
                        None => {
                            proof {
                                assert(q0.skip(out@.len() as int).len() == 0);
                                assert(out@.len() == q0.len());
                            }
                            break ;
                        },
                    }
                }
                self.slots.insert(idx, RegistrySlot::Live(q));
                proof {
                    let n = drain_count(q0, max_k);
                    assert(self@ =~= old(self)@.update(
                        id as int,
                        SlotModel::Live(q0.skip(n)),
                    ));
                }
            },
            RegistrySlot::Retired => {
                proof {
                    assert(false);
                }
            },
            RegistrySlot::Evicted => {
                proof {
                    assert(false);
                }
            },
        }
        out
    }
}

/// Law: dispatching an event whose id no longer names a live queue — the
/// socket was destroyed while the engine still held buffered events for
/// it — is harmless. The event is dropped, a retired entry is evicted,
/// and every other entry keeps its state exactly.
pub proof fn lemma_stale_dispatch_is_safe(v: Seq<SlotModel>, id: u64, e: GnsConnectionEvent)
    requires
        (id as int) < v.len() ==> !(v[id as int] is Live),
    ensures
        dispatch_model(v, id, e).len() == v.len(),
        forall|j: int| 0 <= j < v.len() && j != id as int ==> dispatch_model(v, id, e)[j] == v[j],
        (id as int) < v.len() ==> dispatch_model(v, id, e)[id as int] is Evicted || v[id as int]
            is Evicted,
{
}

/// Law: two events dispatched to one live queue are stored in arrival
/// order, behind everything already pending.
pub proof fn lemma_events_in_arrival_order(
    v: Seq<SlotModel>,
    id: u64,
    e1: GnsConnectionEvent,
    e2: GnsConnectionEvent,
)
    requires
        (id as int) < v.len(),
        v[id as int] is Live,
    ensures
        dispatch_model(dispatch_model(v, id, e1), id, e2)[id as int] == SlotModel::Live(
            v[id as int]->Live_0 + seq![e1, e2],
        ),
{
    let q = v[id as int]->Live_0;
    assert(q.push(e1).push(e2) =~= q + seq![e1, e2]);
}

/// Law: a drain bounded by zero — of events or of messages — takes
/// nothing and leaves the queue exactly as it was.
pub proof fn lemma_drain_zero<A>(buffered: Seq<A>)
    ensures
        drain_count(buffered, 0) == 0,
        buffered.take(drain_count(buffered, 0)) == Seq::<A>::empty(),
        buffered.skip(drain_count(buffered, 0)) == buffered,
{
    assert(buffered.take(0) =~= Seq::<A>::empty());
    assert(buffered.skip(0) =~= buffered);
}

} // verus!
