//! The per-socket event queue: a FIFO queue of connection-status events,
//! backed by `crossbeam_queue::SegQueue`.
//!
//! The queue type itself comes from the outside crate; this module
//! declares it to the verifier, names its contents as a sequence, and
//! wraps the three operations the layer uses — creation, and the
//! exclusive-access push and pop. Everything stated here is taken on
//! trust against `crossbeam_queue`'s source: `SegQueue` is an unbounded
//! FIFO queue; pushing appends at the tail and popping removes from the
//! head.

use vstd::prelude::*;
use crossbeam_queue::SegQueue;
use crate::info::GnsConnectionEvent;

verus! {

#[verifier::external_type_specification]
#[verifier::external_body]
#[verifier::reject_recursive_types(T)]
pub struct ExSegQueue<T>(SegQueue<T>);

/// The events a queue holds, head first. Two pushes in program order put
/// their events in this sequence in that order.
pub uninterp spec fn queue_events(q: SegQueue<GnsConnectionEvent>) -> Seq<GnsConnectionEvent>;

/// Relies on `crossbeam_queue::SegQueue::new`: a newly created queue is
/// empty.
#[verifier::external_body]
pub(crate) fn new_event_queue() -> (q: SegQueue<GnsConnectionEvent>)
    ensures
        queue_events(q) == Seq::<GnsConnectionEvent>::empty(),
{
    SegQueue::new()
}

/// Relies on `crossbeam_queue::SegQueue::push_mut`: under exclusive
/// access, appends the element at the tail of the queue.
#[verifier::external_body]
pub(crate) fn push_event(q: &mut SegQueue<GnsConnectionEvent>, e: GnsConnectionEvent)
    ensures
        queue_events(*final(q)) == queue_events(*old(q)).push(e),
{
    q.push_mut(e)
}

/// Relies on `crossbeam_queue::SegQueue::pop_mut`: under exclusive
/// access, removes and returns the element at the head of the queue, or
/// `None` when the queue is empty.
#[verifier::external_body]
pub(crate) fn pop_event(q: &mut SegQueue<GnsConnectionEvent>) -> (r: Option<GnsConnectionEvent>)
    ensures
        queue_events(*old(q)).len() == 0 ==> {
            &&& r is None
            &&& queue_events(*final(q)) == queue_events(*old(q))
        },
        queue_events(*old(q)).len() > 0 ==> {
            &&& r == Some(queue_events(*old(q))[0])
            &&& queue_events(*final(q)) == queue_events(*old(q)).drop_first()
        },
{
    q.pop_mut()
}

} // verus!
