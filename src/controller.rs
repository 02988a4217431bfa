//! SuperKeyer priority and one-element memory.
use vstd::prelude::*;

use crate::paddle::PaddleInput;
use crate::time::Instant;
use crate::types::Element;

verus! {

/// What a `SuperKeyerController` holds.
pub struct PriorityView {
    /// When the Dit paddle was first seen pressed in the current hold.
    pub dit_press: Option<Instant>,
    /// When the Dah paddle was first seen pressed in the current hold.
    pub dah_press: Option<Instant>,
    /// The element remembered for sending after a squeeze.
    pub memory: Option<Element>,
}

impl PriorityView {
    /// No press recorded and nothing remembered.
    pub open spec fn empty() -> PriorityView {
        PriorityView { dit_press: None, dah_press: None, memory: None }
    }

    /// A press time kept while the paddle stays pressed: stamped with `now`
    /// when it is first seen pressed, cleared when it is seen released.
    pub open spec fn stamp(prev: Option<Instant>, pressed: bool, now: Instant) -> Option<Instant> {
        if !pressed {
            None
        } else if prev is None {
            Some(now)
        } else {
            prev
        }
    }

    pub open spec fn recorded(self, dit: bool, dah: bool, now: Instant) -> PriorityView {
        PriorityView {
            dit_press: Self::stamp(self.dit_press, dit, now),
            dah_press: Self::stamp(self.dah_press, dah, now),
            memory: self.memory,
        }
    }

    /// Dah-priority rule: with both press times known, Dah wins when it was
    /// pressed first or at the same time; with one known, that paddle wins.
    pub open spec fn priority(self) -> Option<Element> {
        match (self.dit_press, self.dah_press) {
            (Some(dit), Some(dah)) => if dah@ <= dit@ {
                Some(Element::Dah)
            } else {
                Some(Element::Dit)
            },
            (Some(_), None) => Some(Element::Dit),
            (None, Some(_)) => Some(Element::Dah),
            (None, None) => None,
        }
    }

    /// The memory after a squeeze ended with `last_sent`: the opposite element,
    /// unless that is a CharSpace, which never enters the memory.
    pub open spec fn released(self, last_sent: Element) -> PriorityView {
        if last_sent.spec_opposite() != Element::CharSpace {
            PriorityView { memory: Some(last_sent.spec_opposite()), ..self }
        } else {
            self
        }
    }
}

/// Press history and one-element memory of the SuperKeyer mode.
#[derive(Debug)]
pub struct SuperKeyerController {
    dit_time: Option<Instant>,
    dah_time: Option<Instant>,
    memory_element: Option<Element>,
}

impl View for SuperKeyerController {
    type V = PriorityView;

    closed spec fn view(&self) -> PriorityView {
        PriorityView {
            dit_press: self.dit_time,
            dah_press: self.dah_time,
            memory: self.memory_element,
        }
    }
}

impl SuperKeyerController {
    pub fn new() -> (r: SuperKeyerController)
        ensures
            r@ == PriorityView::empty(),
    {
        SuperKeyerController { dit_time: None, dah_time: None, memory_element: None }
    }

    /// Records which paddles are pressed, at the time of the system clock.
    pub fn record_press(&mut self, dit_pressed: bool, dah_pressed: bool)
        ensures
            exists|t: Instant| final(self)@ == old(self)@.recorded(dit_pressed, dah_pressed, t),
    {
        let now = Instant::now();
        self.record_press_at(dit_pressed, dah_pressed, now);
    }

    /// Records which paddles are pressed at `now`: a paddle seen pressed for
    /// the first time gets `now` as its press time, a released one loses it.
    pub fn record_press_at(&mut self, dit_pressed: bool, dah_pressed: bool, now: Instant)
        ensures
            final(self)@ == old(self)@.recorded(dit_pressed, dah_pressed, now),
    {
        if dit_pressed && self.dit_time.is_none() {
            self.dit_time = Some(now);
        }
        if dah_pressed && self.dah_time.is_none() {
            self.dah_time = Some(now);
        }
        if !dit_pressed {
            self.dit_time = None;
        }
        if !dah_pressed {
            self.dah_time = None;
        }
    }

    /// The element that has priority now.
    pub fn determine_priority(&self) -> (r: Option<Element>)
        ensures
            r == self@.priority(),
    {
        match (self.dit_time, self.dah_time) {
            (Some(dit), Some(dah)) => {
                if dah.as_millis() <= dit.as_millis() {
                    Some(Element::Dah)
                } else {
                    Some(Element::Dit)
                }
            },
            (Some(_), None) => Some(Element::Dit),
            (None, Some(_)) => Some(Element::Dah),
            (None, None) => None,
        }
    }

    /// Remembers `element`, replacing anything not yet sent.
    pub fn set_memory(&mut self, element: Element)
        ensures
            final(self)@ == (PriorityView { memory: Some(element), ..old(self)@ }),
    {
        self.memory_element = Some(element);
    }

    /// Hands out the remembered element and forgets it.
    pub fn take_memory(&mut self) -> (r: Option<Element>)
        ensures
            r == old(self)@.memory,
            final(self)@ == (PriorityView { memory: None, ..old(self)@ }),
    {
        self.memory_element.take()
    }

    /// Whether an element is remembered.
    pub fn should_send_memory(&self) -> (r: bool)
        ensures
            r == self@.memory is Some,
    {
        self.memory_element.is_some()
    }

    /// Forgets the press times and the memory.
    pub fn clear_history(&mut self)
        ensures
            final(self)@ == PriorityView::empty(),
    {
        self.dit_time = None;
        self.dah_time = None;
        self.memory_element = None;
    }

    /// Records the paddles of `paddle_input`, at the time of the system clock.
    pub fn update(&mut self, paddle_input: &PaddleInput)
        ensures
            exists|t: Instant|
                final(self)@ == old(self)@.recorded(paddle_input@.dit, paddle_input@.dah, t),
    {
        self.record_press(paddle_input.dit(), paddle_input.dah());
    }

    /// In a squeeze, the priority element; otherwise the remembered element,
    /// which is then forgotten, or else the priority element.
    pub fn next_element(&mut self, squeeze: bool, _last_element: Option<Element>) -> (r: Option<
        Element,
    >)
        ensures
            squeeze ==> r == old(self)@.priority() && final(self)@ == old(self)@,
            !squeeze && old(self)@.memory is Some ==> r == old(self)@.memory && final(self)@ == (
            PriorityView { memory: None, ..old(self)@ }),
            !squeeze && old(self)@.memory is None ==> r == old(self)@.priority() && final(self)@
                == old(self)@,
    {
        if squeeze {
            self.determine_priority()
        } else if let Some(memory) = self.take_memory() {
            Some(memory)
        } else {
            self.determine_priority()
        }
    }

    /// A squeeze ended with `last_sent`: remembers its opposite.
    pub fn handle_squeeze_release(&mut self, last_sent: Element)
        ensures
            final(self)@ == old(self)@.released(last_sent),
    {
        let opposite = last_sent.opposite();
        if opposite != Element::CharSpace {
            self.set_memory(opposite);
        }
    }

    /// Forgets the press times and the memory.
    pub fn reset(&mut self)
        ensures
            final(self)@ == PriorityView::empty(),
    {
        self.clear_history();
    }

    /// The remembered element, kept.
    pub fn peek_memory(&self) -> (r: Option<Element>)
        ensures
            r == self@.memory,
    {
        self.memory_element
    }

    /// The recorded press times of Dit and Dah.
    pub fn get_press_times(&self) -> (r: (Option<Instant>, Option<Instant>))
        ensures
            r == (self@.dit_press, self@.dah_press),
    {
        (self.dit_time, self.dah_time)
    }
}

impl Default for SuperKeyerController {
    fn default() -> (r: SuperKeyerController)
        ensures
            r@ == PriorityView::empty(),
    {
        SuperKeyerController::new()
    }
}

} // verus!
