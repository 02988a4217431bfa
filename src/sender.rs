//! Turning queued elements into timed key-down and key-up commands.
use vstd::prelude::*;

use crate::queue::{dequeue, queue_items, ElementQueue};
use crate::time::{saturating_diff, Duration};
use crate::types::Element;

verus! {

/// How the sender plays one element.
#[derive(Copy, Clone, Debug, PartialEq, Eq, Structural)]
pub struct ElementTiming {
    /// Whether the key goes down for the element.
    pub keyed: bool,
    /// How long the key stays down.
    pub on_time: Duration,
    /// Silence after the element.
    pub pause: Duration,
}

/// Dit: one unit down; Dah: three units down; each followed by one unit of
/// silence. CharSpace: no key-down, three units of silence.
pub open spec fn spec_element_timing(element: Element, unit: u64) -> (bool, int, int) {
    match element {
        Element::Dit => (true, unit as int, unit as int),
        Element::Dah => (true, 3 * unit, unit as int),
        Element::CharSpace => (false, 0, 3 * unit),
    }
}

/// The key-down time and the silence after `element` at the given unit.
pub fn element_timing(element: Element, unit: Duration) -> (r: ElementTiming)
    requires
        unit@ * 3 <= u64::MAX,
    ensures
        spec_element_timing(element, unit@) == (r.keyed, r.on_time@ as int, r.pause@ as int),
{
    let u = unit.as_millis();
    match element {
        Element::Dit => ElementTiming {
            keyed: true,
            on_time: Duration::from_millis(u),
            pause: Duration::from_millis(u),
        },
        Element::Dah => ElementTiming {
            keyed: true,
            on_time: Duration::from_millis(u * 3),
            pause: Duration::from_millis(u),
        },
        Element::CharSpace => ElementTiming {
            keyed: false,
            on_time: Duration::from_millis(0),
            pause: Duration::from_millis(u * 3),
        },
    }
}

/// What the sender asks of the key line after a tick.
#[derive(Copy, Clone, Debug, PartialEq, Eq, Structural)]
pub enum KeyCommand {
    /// Key down: an element starts.
    Down,
    /// Key up: an element ended.
    Up,
    /// Leave the key as it is.
    Hold,
}

/// What a `TxController` holds.
pub struct TxView {
    pub transmitting: bool,
    /// When the element being sent ends, in milliseconds.
    pub element_end: u32,
    /// The earliest time the next element may start, in milliseconds.
    pub next_allowed: u32,
}

impl TxView {
    pub open spec fn can_start(self, now_ms: u32) -> bool {
        !self.transmitting && now_ms >= self.next_allowed
    }

    /// The controller after `element` starts at `now_ms`: a keyed element
    /// keeps the key down for its length; a CharSpace only holds off the next
    /// element for two more units, which with the unit of space after the
    /// last element makes three.
    pub open spec fn started(self, element: Element, now_ms: u32, unit_ms: u32) -> TxView {
        match element {
            Element::Dit => TxView {
                transmitting: true,
                element_end: (now_ms + unit_ms) as u32,
                ..self
            },
            Element::Dah => TxView {
                transmitting: true,
                element_end: (now_ms + 3 * unit_ms) as u32,
                ..self
            },
            Element::CharSpace => TxView {
                transmitting: false,
                next_allowed: (now_ms + 2 * unit_ms) as u32,
                ..self
            },
        }
    }

    /// The controller after the element being sent ended at `now_ms`: one
    /// unit of space before the next.
    pub open spec fn ended(self, now_ms: u32, unit_ms: u32) -> TxView {
        TxView { transmitting: false, next_allowed: (now_ms + unit_ms) as u32, ..self }
    }
}

/// Whether `now_ms + 3 * unit_ms` fits in the millisecond counter.
pub open spec fn deadline_fits(now_ms: u32, unit_ms: u32) -> bool {
    now_ms + 3 * unit_ms <= u32::MAX
}

/// Timing state of the sender: idle, or sending an element until a deadline.
pub struct TxController {
    transmitting: bool,
    element_end_ms: u32,
    next_allowed_ms: u32,
}

impl View for TxController {
    type V = TxView;

    closed spec fn view(&self) -> TxView {
        TxView {
            transmitting: self.transmitting,
            element_end: self.element_end_ms,
            next_allowed: self.next_allowed_ms,
        }
    }
}

impl TxController {
    /// Idle, free to start at once.
    pub fn new() -> (r: TxController)
        ensures
            r@ == (TxView { transmitting: false, element_end: 0, next_allowed: 0 }),
    {
        TxController { transmitting: false, element_end_ms: 0, next_allowed_ms: 0 }
    }

    pub fn is_idle(&self) -> (r: bool)
        ensures
            r == !self@.transmitting,
    {
        !self.transmitting
    }

    pub fn is_transmitting(&self) -> (r: bool)
        ensures
            r == self@.transmitting,
    {
        self.transmitting
    }

    /// Sending, until `end_time`.
    pub fn set_transmitting(&mut self, end_time: u32)
        ensures
            final(self)@ == (TxView { transmitting: true, element_end: end_time, ..old(self)@ }),
    {
        self.transmitting = true;
        self.element_end_ms = end_time;
    }

    /// Idle, with the next element held off until `next_allowed`.
    pub fn set_idle_with_constraint(&mut self, next_allowed: u32)
        ensures
            final(self)@ == (TxView { transmitting: false, next_allowed, ..old(self)@ }),
    {
        self.transmitting = false;
        self.next_allowed_ms = next_allowed;
    }

    /// Whether an element may start at `now_ms`.
    pub fn can_start_transmission(&self, now_ms: u32) -> (r: bool)
        ensures
            r == self@.can_start(now_ms),
    {
        self.is_idle() && now_ms >= self.next_allowed_ms
    }

    /// Whether the element being sent is over at `now_ms`.
    pub fn is_element_finished(&self, now_ms: u32) -> (r: bool)
        ensures
            r == (now_ms >= self@.element_end),
    {
        now_ms >= self.element_end_ms
    }

    /// Starts `element` at `now_ms`; returns whether the key goes down.
    pub fn start_element_transmission(&mut self, element: Element, now_ms: u32, unit_ms: u32) -> (r:
        bool)
        requires
            deadline_fits(now_ms, unit_ms),
        ensures
            r == element.spec_is_keyed(),
            final(self)@ == old(self)@.started(element, now_ms, unit_ms),
    {
        match element {
            Element::Dit => {
                self.set_transmitting(now_ms + unit_ms);
                true
            },
            Element::Dah => {
                self.set_transmitting(now_ms + unit_ms * 3);
                true
            },
            Element::CharSpace => {
                self.set_idle_with_constraint(now_ms + unit_ms * 2);
                false
            },
        }
    }

    /// Ends the element being sent at `now_ms`, with one unit of space to follow.
    pub fn end_element_transmission(&mut self, now_ms: u32, unit_ms: u32)
        requires
            deadline_fits(now_ms, unit_ms),
        ensures
            final(self)@ == old(self)@.ended(now_ms, unit_ms),
    {
        self.set_idle_with_constraint(now_ms + unit_ms);
    }

    /// One tick of the sender at `now_ms`: ends the element whose time is up,
    /// or, when idle and past the hold-off, starts the element at the front
    /// of the queue.
    pub fn update_transmission_fsm(
        &mut self,
        now_ms: u32,
        unit_ms: u32,
        queue: &mut ElementQueue,
    ) -> (r: KeyCommand)
        requires
            deadline_fits(now_ms, unit_ms),
        ensures
            old(self)@.transmitting && now_ms >= old(self)@.element_end ==> r == KeyCommand::Up
                && final(self)@ == old(self)@.ended(now_ms, unit_ms) && queue_items(*final(queue))
                == queue_items(*old(queue)),
            old(self)@.transmitting && now_ms < old(self)@.element_end ==> r == KeyCommand::Hold
                && final(self)@ == old(self)@ && queue_items(*final(queue)) == queue_items(
                *old(queue),
            ),
            !old(self)@.can_start(now_ms) && !old(self)@.transmitting ==> r == KeyCommand::Hold
                && final(self)@ == old(self)@ && queue_items(*final(queue)) == queue_items(
                *old(queue),
            ),
            old(self)@.can_start(now_ms) && queue_items(*old(queue)).len() == 0 ==> r
                == KeyCommand::Hold && final(self)@ == old(self)@ && queue_items(*final(queue))
                == queue_items(*old(queue)),
            old(self)@.can_start(now_ms) && queue_items(*old(queue)).len() > 0 ==> ({
                let e = queue_items(*old(queue))[0];
                &&& r == (if e.spec_is_keyed() {
                    KeyCommand::Down
                } else {
                    KeyCommand::Hold
                })
                &&& final(self)@ == old(self)@.started(e, now_ms, unit_ms)
                &&& queue_items(*final(queue)) == queue_items(*old(queue)).drop_first()
            }),
    {
        if self.is_transmitting() {
            if self.is_element_finished(now_ms) {
                self.end_element_transmission(now_ms, unit_ms);
                return KeyCommand::Up;
            }
        } else if self.can_start_transmission(now_ms) {
            if let Some(element) = dequeue(queue) {
                if self.start_element_transmission(element, now_ms, unit_ms) {
                    return KeyCommand::Down;
                }
            }
        }
        KeyCommand::Hold
    }
}

/// Quiet time after the last activity before the board may sleep, in milliseconds.
pub const LOW_POWER_IDLE_MS: u32 = 5000;

/// Whether the board may sleep until the next interrupt: nothing is being
/// sent or waiting, no event is pending, and the last activity is at least
/// five seconds old.
pub fn can_enter_low_power(
    tx: &TxController,
    queue_empty: bool,
    events_pending: bool,
    now_ms: u32,
    last_activity_ms: u32,
) -> (r: bool)
    ensures
        r == (!tx@.transmitting && queue_empty && !events_pending && saturating_diff(
            now_ms as u64,
            last_activity_ms as u64,
        ) >= LOW_POWER_IDLE_MS),
{
    let idle_long_enough = now_ms.saturating_sub(last_activity_ms) >= LOW_POWER_IDLE_MS;
    tx.is_idle() && queue_empty && !events_pending && idle_long_enough
}

} // verus!
