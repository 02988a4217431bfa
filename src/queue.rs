//! The bounded element queue between the state machine and the sender.
use vstd::prelude::*;

use crate::types::Element;

verus! {

/// Slots of the element queue; one slot stays free, so it holds one element fewer.
pub const QUEUE_SLOTS: usize = 8;

/// Elements the element queue can hold at once.
pub const QUEUE_CAPACITY: usize = QUEUE_SLOTS - 1;

/// The single-producer single-consumer queue of heapless.
#[verifier::external_type_specification]
#[verifier::external_body]
#[verifier::reject_recursive_types(T)]
pub struct ExSpscQueue<T, const N: usize>(heapless::spsc::Queue<T, N>);

/// Bounded FIFO of elements, filled by the state machine and drained by the sender.
pub type ElementQueue = heapless::spsc::Queue<Element, QUEUE_SLOTS>;

/// The elements in the queue, front first.
pub uninterp spec fn queue_items(q: heapless::spsc::Queue<Element, QUEUE_SLOTS>) -> Seq<Element>;

/// Relies on heapless::spsc::Queue::enqueue: the element goes to the back
/// unless the queue already holds its capacity of `N - 1` elements, in which
/// case it is handed back and the queue is left as it was.
#[verifier::external_body]
pub(crate) fn enqueue(queue: &mut ElementQueue, element: Element) -> (r: Result<(), Element>)
    ensures
        queue_items(*old(queue)).len() < QUEUE_CAPACITY ==> r is Ok && queue_items(*final(queue)) == queue_items(*old(queue)).push(element),
        queue_items(*old(queue)).len() >= QUEUE_CAPACITY ==> r is Err && r->Err_0 == element && queue_items(*final(queue)) == queue_items(*old(queue)),
{
    queue.enqueue(element)
}

/// Relies on heapless::spsc::Queue::dequeue: the front element is taken out
/// and returned, or `None` comes back from an empty queue, left as it was.
#[verifier::external_body]
pub(crate) fn dequeue(queue: &mut ElementQueue) -> (r: Option<Element>)
    ensures
        queue_items(*old(queue)).len() == 0 ==> r is None && queue_items(*final(queue)) == queue_items(*old(queue)),
        queue_items(*old(queue)).len() > 0 ==> r == Some(queue_items(*old(queue))[0]) && queue_items(*final(queue)) == queue_items(*old(queue)).drop_first(),
{
    queue.dequeue()
}

} // verus!
