//! The keyer state machine: paddle state in, keying elements out.
use vstd::prelude::*;

use crate::controller::{PriorityView, SuperKeyerController};
use crate::paddle::PaddleInput;
use crate::queue::{enqueue, queue_items, ElementQueue, QUEUE_CAPACITY};
use crate::time::{saturating_diff, Instant};
use crate::types::{Element, FSMState, KeyerConfig, KeyerMode};

verus! {

/// What a `KeyerFSM` holds.
pub struct FsmView {
    pub state: FSMState,
    pub config: KeyerConfig,
    pub memory: PriorityView,
}

/// The queue went from `q0` to `q1` by taking `sent`, and `r` counts it.
pub open spec fn queued(q0: Seq<Element>, q1: Seq<Element>, r: usize, sent: Option<Element>) -> bool {
    match sent {
        Some(e) => q1 == q0.push(e) && r == 1,
        None => q1 == q0 && r == 0,
    }
}

/// Whether a character space that started at `start` is over at `now`.
pub open spec fn char_space_over(config: KeyerConfig, start: Instant, now: Instant) -> bool {
    saturating_diff(now@, start@) >= 3 * config.unit@
}

/// The state that follows sending `e` while the paddles are as given: a
/// squeeze when both are pressed, else a hold of the one that is.
pub open spec fn hold_target(dit: bool, dah: bool, e: Element) -> FSMState {
    if dit && dah {
        FSMState::Squeeze(e)
    } else if dit {
        FSMState::DitHold
    } else {
        FSMState::DahHold
    }
}

impl FsmView {
    /// Squeeze and memory payloads are always keyed elements.
    pub open spec fn wf(self) -> bool {
        match self.state {
            FSMState::Squeeze(e) => e.spec_is_keyed(),
            FSMState::MemoryPending(e) => e.spec_is_keyed(),
            _ => true,
        }
    }

    /// Idle when character spacing is off, else a character space from `now`.
    pub open spec fn idle_or_char_space(self, now: Instant) -> FSMState {
        if self.config.char_space_enabled {
            FSMState::CharSpacePending(now)
        } else {
            FSMState::Idle
        }
    }

    /// The press history after the paddles were seen at `now`; only the
    /// SuperKeyer mode keeps one.
    pub open spec fn recorded(self, dit: bool, dah: bool, now: Instant) -> FsmView {
        if self.config.mode is SuperKeyer {
            FsmView { memory: self.memory.recorded(dit, dah, now), ..self }
        } else {
            self
        }
    }

    /// First element of a squeeze: the priority element in SuperKeyer mode
    /// (Dit when there is none), Dit in modes A and B.
    pub open spec fn squeeze_start(self) -> Element {
        if self.config.mode is SuperKeyer {
            match self.memory.priority() {
                Some(e) => e,
                None => Element::Dit,
            }
        } else {
            Element::Dit
        }
    }

    /// Next element of a squeeze that last sent `last`: the opposite in modes
    /// A and B; in SuperKeyer mode the priority element, else the opposite.
    pub open spec fn squeeze_next(self, last: Element) -> Element {
        if self.config.mode is SuperKeyer {
            match self.memory.priority() {
                Some(e) => e,
                None => last.spec_opposite(),
            }
        } else {
            last.spec_opposite()
        }
    }

    /// The element to start with from Idle.
    pub open spec fn idle_choice(self, dit: bool, dah: bool) -> Option<Element> {
        if dit && dah {
            Some(self.squeeze_start())
        } else if dit {
            Some(Element::Dit)
        } else if dah {
            Some(Element::Dah)
        } else {
            None
        }
    }

    /// The element the machine tries to send on this poll, if any.
    pub open spec fn attempt(self, dit: bool, dah: bool, now: Instant) -> Option<Element> {
        match self.state {
            FSMState::Idle => self.idle_choice(dit, dah),
            FSMState::DitHold => if dit && !dah {
                Some(Element::Dit)
            } else {
                None
            },
            FSMState::DahHold => if dah && !dit {
                Some(Element::Dah)
            } else {
                None
            },
            FSMState::Squeeze(last) => if dit && dah {
                Some(self.squeeze_next(last))
            } else if dit {
                Some(Element::Dit)
            } else if dah {
                Some(Element::Dah)
            } else {
                None
            },
            FSMState::MemoryPending(e) => Some(e),
            FSMState::CharSpacePending(start) => if (dit || dah) && char_space_over(
                self.config,
                start,
                now,
            ) {
                self.idle_choice(dit, dah)
            } else {
                None
            },
        }
    }

    /// The machine after `e` went into the queue.
    pub open spec fn after_send(self, dit: bool, dah: bool, now: Instant, e: Element) -> FsmView {
        match self.state {
            FSMState::MemoryPending(_) => FsmView {
                state: self.idle_or_char_space(now),
                memory: if self.config.mode is SuperKeyer {
                    PriorityView::empty()
                } else {
                    self.memory
                },
                ..self
            },
            _ => FsmView { state: hold_target(dit, dah, e), ..self },
        }
    }

    /// What the end of a squeeze that last sent `last` leads to.
    pub open spec fn released(self, last: Element, now: Instant) -> FsmView {
        match self.config.mode {
            KeyerMode::ModeA => FsmView { state: self.idle_or_char_space(now), ..self },
            KeyerMode::ModeB => FsmView {
                state: FSMState::MemoryPending(last.spec_opposite()),
                ..self
            },
            KeyerMode::SuperKeyer => {
                let m = self.memory.released(last);
                match m.memory {
                    Some(x) => FsmView {
                        state: FSMState::MemoryPending(x),
                        memory: PriorityView { memory: None, ..m },
                        ..self
                    },
                    None => FsmView { state: self.idle_or_char_space(now), memory: m, ..self },
                }
            },
        }
    }

    /// The machine after a poll on which it tried to send nothing.
    pub open spec fn without_send(self, dit: bool, dah: bool, now: Instant) -> FsmView {
        match self.state {
            FSMState::DitHold => if dit && dah {
                FsmView { state: FSMState::Squeeze(Element::Dit), ..self }
            } else if !dit {
                FsmView { state: self.idle_or_char_space(now), ..self }
            } else {
                self
            },
            FSMState::DahHold => if dit && dah {
                FsmView { state: FSMState::Squeeze(Element::Dah), ..self }
            } else if !dah {
                FsmView { state: self.idle_or_char_space(now), ..self }
            } else {
                self
            },
            FSMState::Squeeze(last) => self.released(last, now),
            FSMState::CharSpacePending(start) => if !(dit || dah) && char_space_over(
                self.config,
                start,
                now,
            ) {
                FsmView { state: FSMState::Idle, ..self }
            } else {
                self
            },
            _ => self,
        }
    }

    /// One poll after the press history was recorded: the element tried goes
    /// into the queue when there is `room` and the machine moves on; when the
    /// queue is full nothing changes and the same element is tried next poll.
    pub open spec fn decide(self, dit: bool, dah: bool, now: Instant, room: bool) -> (
        FsmView,
        Option<Element>,
    ) {
        match self.attempt(dit, dah, now) {
            Some(e) => if room {
                (self.after_send(dit, dah, now, e), Some(e))
            } else {
                (self, None)
            },
            None => (self.without_send(dit, dah, now), None),
        }
    }

    /// One whole poll with the paddles as given at `now`.
    pub open spec fn step(self, dit: bool, dah: bool, now: Instant, room: bool) -> (
        FsmView,
        Option<Element>,
    ) {
        self.recorded(dit, dah, now).decide(dit, dah, now, room)
    }
}

/// The poll from `before` was carried out: the machine became `after`, the
/// queue went from `q0` to `q1`, and `r` elements were sent.
pub open spec fn enacted(
    before: FsmView,
    after: FsmView,
    q0: Seq<Element>,
    q1: Seq<Element>,
    r: usize,
    dit: bool,
    dah: bool,
    now: Instant,
) -> bool {
    let d = before.decide(dit, dah, now, q0.len() < QUEUE_CAPACITY);
    &&& after == d.0
    &&& queued(q0, q1, r, d.1)
}

/// The keyer state machine.
pub struct KeyerFSM {
    state: FSMState,
    config: KeyerConfig,
    superkeyer: SuperKeyerController,
}

impl View for KeyerFSM {
    type V = FsmView;

    closed spec fn view(&self) -> FsmView {
        FsmView { state: self.state, config: self.config, memory: self.superkeyer@ }
    }
}

impl KeyerFSM {
    /// An idle machine with no press history.
    pub fn new(config: KeyerConfig) -> (r: KeyerFSM)
        ensures
            r@ == (FsmView { state: FSMState::Idle, config, memory: PriorityView::empty() }),
            r@.wf(),
    {
        KeyerFSM { state: FSMState::Idle, config, superkeyer: SuperKeyerController::new() }
    }

    /// The present state.
    pub fn current_state(&self) -> (r: FSMState)
        ensures
            r == self@.state,
    {
        self.state
    }

    /// Polls the paddles at `now` and sends at most one element into `queue`.
    /// Returns the number of elements sent. When the queue is full the
    /// machine stays where it was, and tries the same element on the next poll.
    pub fn update(&mut self, paddle: &PaddleInput, now: Instant, queue: &mut ElementQueue) -> (r:
        usize)
        ensures
            ({
                let d = old(self)@.step(
                    paddle@.dit,
                    paddle@.dah,
                    now,
                    queue_items(*old(queue)).len() < QUEUE_CAPACITY,
                );
                &&& final(self)@ == d.0
                &&& queued(queue_items(*old(queue)), queue_items(*final(queue)), r, d.1)
            }),
            old(self)@.wf() ==> final(self)@.wf(),
    {
        let dit_now = paddle.dit();
        let dah_now = paddle.dah();
        let both_pressed = dit_now && dah_now;
        let both_released = !dit_now && !dah_now;
        if self.config.mode == KeyerMode::SuperKeyer {
            self.superkeyer.record_press_at(dit_now, dah_now, now);
        }
        match self.state {
            FSMState::Idle => self.handle_idle_state(dit_now, dah_now, both_pressed, now, queue),
            FSMState::DitHold => self.handle_dit_hold_state(
                dit_now,
                dah_now,
                both_pressed,
                now,
                queue,
            ),
            FSMState::DahHold => self.handle_dah_hold_state(
                dit_now,
                dah_now,
                both_pressed,
                now,
                queue,
            ),
            FSMState::Squeeze(last_element) => self.handle_squeeze_state(
                dit_now,
                dah_now,
                both_pressed,
                both_released,
                last_element,
                now,
                queue,
            ),
            FSMState::MemoryPending(memory_element) => self.handle_memory_pending_state(
                dit_now,
                dah_now,
                memory_element,
                now,
                queue,
            ),
            FSMState::CharSpacePending(start_time) => self.handle_char_space_pending_state(
                dit_now,
                dah_now,
                both_pressed,
                start_time,
                now,
                queue,
            ),
        }
    }

    /// Idle, or a character space that is over with a paddle pressed: starts
    /// a hold or a squeeze.
    fn handle_idle_state(
        &mut self,
        dit_now: bool,
        dah_now: bool,
        both_pressed: bool,
        now: Instant,
        queue: &mut ElementQueue,
    ) -> (r: usize)
        requires
            both_pressed == (dit_now && dah_now),
            old(self)@.state is Idle || (old(self)@.state is CharSpacePending && (dit_now
                || dah_now) && char_space_over(
                old(self)@.config,
                old(self)@.state->CharSpacePending_0,
                now,
            )),
        ensures
            enacted(
                old(self)@,
                final(self)@,
                queue_items(*old(queue)),
                queue_items(*final(queue)),
                r,
                dit_now,
                dah_now,
                now,
            ),
    {
        if both_pressed {
            let start_element = self.determine_squeeze_start();
            if enqueue(queue, start_element).is_ok() {
                self.state = FSMState::Squeeze(start_element);
                return 1;
            }
        } else if dit_now {
            if enqueue(queue, Element::Dit).is_ok() {
                self.state = FSMState::DitHold;
                return 1;
            }
        } else if dah_now {
            if enqueue(queue, Element::Dah).is_ok() {
                self.state = FSMState::DahHold;
                return 1;
            }
        }
        0
    }

    /// Dit held alone: repeats Dit, turns into a squeeze, or ends.
    fn handle_dit_hold_state(
        &mut self,
        dit_now: bool,
        dah_now: bool,
        both_pressed: bool,
        now: Instant,
        queue: &mut ElementQueue,
    ) -> (r: usize)
        requires
            both_pressed == (dit_now && dah_now),
            old(self)@.state is DitHold,
        ensures
            enacted(
                old(self)@,
                final(self)@,
                queue_items(*old(queue)),
                queue_items(*final(queue)),
                r,
                dit_now,
                dah_now,
                now,
            ),
    {
        if both_pressed {
            self.state = FSMState::Squeeze(Element::Dit);
            0
        } else if !dit_now {
            self.transition_to_idle_or_char_space_at_time(now);
            0
        } else {
            if enqueue(queue, Element::Dit).is_ok() {
                1
            } else {
                0
            }
        }
    }

    /// Dah held alone: repeats Dah, turns into a squeeze, or ends.
    fn handle_dah_hold_state(
        &mut self,
        dit_now: bool,
        dah_now: bool,
        both_pressed: bool,
        now: Instant,
        queue: &mut ElementQueue,
    ) -> (r: usize)
        requires
            both_pressed == (dit_now && dah_now),
            old(self)@.state is DahHold,
        ensures
            enacted(
                old(self)@,
                final(self)@,
                queue_items(*old(queue)),
                queue_items(*final(queue)),
                r,
                dit_now,
                dah_now,
                now,
            ),
    {
        if both_pressed {
            self.state = FSMState::Squeeze(Element::Dah);
            0
        } else if !dah_now {
            self.transition_to_idle_or_char_space_at_time(now);
            0
        } else {
            if enqueue(queue, Element::Dah).is_ok() {
                1
            } else {
                0
            }
        }
    }

    /// Squeeze: alternates (or follows priority) while both are held, falls
    /// back to a hold when one is released, and applies the release policy
    /// of the mode when both are.
    fn handle_squeeze_state(
        &mut self,
        dit_now: bool,
        dah_now: bool,
        both_pressed: bool,
        both_released: bool,
        last_element: Element,
        now: Instant,
        queue: &mut ElementQueue,
    ) -> (r: usize)
        requires
            both_pressed == (dit_now && dah_now),
            both_released == (!dit_now && !dah_now),
            old(self)@.state == FSMState::Squeeze(last_element),
        ensures
            enacted(
                old(self)@,
                final(self)@,
                queue_items(*old(queue)),
                queue_items(*final(queue)),
                r,
                dit_now,
                dah_now,
                now,
            ),
    {
        if both_pressed {
            let next_element = self.determine_next_squeeze_element(last_element);
            if enqueue(queue, next_element).is_ok() {
                self.state = FSMState::Squeeze(next_element);
                return 1;
            }
        } else if dit_now {
            if enqueue(queue, Element::Dit).is_ok() {
                self.state = FSMState::DitHold;
                return 1;
            }
        } else if dah_now {
            if enqueue(queue, Element::Dah).is_ok() {
                self.state = FSMState::DahHold;
                return 1;
            }
        } else if both_released {
            self.handle_squeeze_release(last_element, now);
        }
        0
    }

    /// Sends the remembered element, then goes idle.
    fn handle_memory_pending_state(
        &mut self,
        dit_now: bool,
        dah_now: bool,
        memory_element: Element,
        now: Instant,
        queue: &mut ElementQueue,
    ) -> (r: usize)
        requires
            old(self)@.state == FSMState::MemoryPending(memory_element),
        ensures
            enacted(
                old(self)@,
                final(self)@,
                queue_items(*old(queue)),
                queue_items(*final(queue)),
                r,
                dit_now,
                dah_now,
                now,
            ),
    {
        if enqueue(queue, memory_element).is_ok() {
            if self.config.mode == KeyerMode::SuperKeyer {
                self.superkeyer.clear_history();
            }
            self.transition_to_idle_or_char_space_at_time(now);
            1
        } else {
            0
        }
    }

    /// Waits out the character space; a press before it is over is ignored.
    fn handle_char_space_pending_state(
        &mut self,
        dit_now: bool,
        dah_now: bool,
        both_pressed: bool,
        start_time: Instant,
        now: Instant,
        queue: &mut ElementQueue,
    ) -> (r: usize)
        requires
            both_pressed == (dit_now && dah_now),
            old(self)@.state == FSMState::CharSpacePending(start_time),
        ensures
            enacted(
                old(self)@,
                final(self)@,
                queue_items(*old(queue)),
                queue_items(*final(queue)),
                r,
                dit_now,
                dah_now,
                now,
            ),
    {
        let elapsed = now.duration_since(start_time);
        let over = elapsed.as_millis() / 3 >= self.config.unit.as_millis();
        assert(over == char_space_over(self.config, start_time, now)) by (nonlinear_arith)
            requires
                over == (elapsed@ / 3 >= self.config.unit@),
                elapsed@ == saturating_diff(now@, start_time@),
        ;
        if dit_now || dah_now {
            if over {
                return self.handle_idle_state(dit_now, dah_now, both_pressed, now, queue);
            }
        } else if over {
            self.state = FSMState::Idle;
        }
        0
    }

    /// First element of a squeeze.
    fn determine_squeeze_start(&self) -> (r: Element)
        ensures
            r == self@.squeeze_start(),
    {
        match self.config.mode {
            KeyerMode::SuperKeyer => match self.superkeyer.determine_priority() {
                Some(e) => e,
                None => Element::Dit,
            },
            KeyerMode::ModeA | KeyerMode::ModeB => Element::Dit,
        }
    }

    /// Next element of a squeeze that last sent `last_element`.
    fn determine_next_squeeze_element(&mut self, last_element: Element) -> (r: Element)
        ensures
            r == old(self)@.squeeze_next(last_element),
            final(self)@ == old(self)@,
    {
        match self.config.mode {
            KeyerMode::SuperKeyer => match self.superkeyer.next_element(true, Some(last_element)) {
                Some(e) => e,
                None => last_element.opposite(),
            },
            KeyerMode::ModeA | KeyerMode::ModeB => last_element.opposite(),
        }
    }

    /// Applies the release policy of the mode to a squeeze that last sent `last_element`.
    fn handle_squeeze_release(&mut self, last_element: Element, now: Instant)
        ensures
            final(self)@ == old(self)@.released(last_element, now),
    {
        match self.config.mode {
            KeyerMode::ModeA => {
                self.transition_to_idle_or_char_space_at_time(now);
            },
            KeyerMode::ModeB => {
                let memory_element = last_element.opposite();
                self.state = FSMState::MemoryPending(memory_element);
            },
            KeyerMode::SuperKeyer => {
                self.superkeyer.handle_squeeze_release(last_element);
                if let Some(memory) = self.superkeyer.take_memory() {
                    self.state = FSMState::MemoryPending(memory);
                } else {
                    self.transition_to_idle_or_char_space_at_time(now);
                }
            },
        }
    }

    /// Goes idle, through a character space when spacing is on.
    fn transition_to_idle_or_char_space_at_time(&mut self, time: Instant)
        ensures
            final(self)@ == (FsmView { state: old(self)@.idle_or_char_space(time), ..old(self)@ }),
    {
        if self.config.char_space_enabled {
            self.state = FSMState::CharSpacePending(time);
        } else {
            self.state = FSMState::Idle;
        }
    }

    /// Back to Idle with the press history and memory cleared.
    pub fn reset(&mut self)
        ensures
            final(self)@ == (FsmView { state: FSMState::Idle, memory: PriorityView::empty(), ..old(self)@ }),
    {
        self.state = FSMState::Idle;
        self.superkeyer.clear_history();
    }

    /// The settings in use.
    pub fn config(&self) -> (r: &KeyerConfig)
        ensures
            *r == self@.config,
    {
        &self.config
    }

    /// Replaces the settings; the SuperKeyer history is cleared when the new
    /// mode is not SuperKeyer.
    pub fn set_config(&mut self, config: KeyerConfig)
        ensures
            final(self)@ == (FsmView {
                config,
                memory: if config.mode is SuperKeyer {
                    old(self)@.memory
                } else {
                    PriorityView::empty()
                },
                ..old(self)@
            }),
    {
        self.config = config;
        if config.mode != KeyerMode::SuperKeyer {
            self.superkeyer.clear_history();
        }
    }
}

/// From Idle, a press of the Dit paddle alone sends exactly one Dit and
/// starts a Dit hold, whenever the queue has room.
pub proof fn lemma_idle_single_dit(v: FsmView, now: Instant)
    requires
        v.state is Idle,
    ensures
        v.step(true, false, now, true) == (
            FsmView { state: FSMState::DitHold, ..v.recorded(true, false, now) },
            Some(Element::Dit),
        ),
{
}

/// In SuperKeyer mode, from Idle, both paddles seen pressed with equal press
/// history (both new, or stamped at the same time) start the squeeze with Dah.
pub proof fn lemma_superkeyer_simultaneous_press_starts_with_dah(v: FsmView, now: Instant)
    requires
        v.state is Idle,
        v.config.mode is SuperKeyer,
        v.memory.dit_press == v.memory.dah_press,
    ensures
        v.step(true, true, now, true).1 == Some(Element::Dah),
        v.step(true, true, now, true).0.state == FSMState::Squeeze(Element::Dah),
{
}

/// In Mode A, releasing both paddles of a squeeze sends nothing and goes
/// straight to Idle, or to a character space when spacing is on.
pub proof fn lemma_mode_a_release_sends_nothing(v: FsmView, last: Element, now: Instant, room: bool)
    requires
        v.state == FSMState::Squeeze(last),
        v.config.mode is ModeA,
    ensures
        v.step(false, false, now, room).1 is None,
        v.step(false, false, now, room).0 == (FsmView { state: v.idle_or_char_space(now), ..v }),
        (v.step(false, false, now, room).0.state is Idle || v.step(false, false, now, room).0.state is CharSpacePending),
{
}

/// In Mode B, releasing both paddles of a squeeze that last sent `last`
/// leads to exactly one more element, the opposite of `last`, sent on the
/// next poll that finds room, after which the machine goes idle.
pub proof fn lemma_mode_b_release_sends_one_opposite(
    v: FsmView,
    last: Element,
    now1: Instant,
    room1: bool,
    dit2: bool,
    dah2: bool,
    now2: Instant,
)
    requires
        v.state == FSMState::Squeeze(last),
        v.config.mode is ModeB,
    ensures
        ({
            let first = v.step(false, false, now1, room1);
            let second = first.0.step(dit2, dah2, now2, true);
            &&& first.1 is None
            &&& first.0.state == FSMState::MemoryPending(last.spec_opposite())
            &&& second.1 == Some(last.spec_opposite())
            &&& second.0.state == v.idle_or_char_space(now2)
        }),
{
}

/// A press while a character space is still running sends nothing and keeps
/// waiting; once the space is over, a press is handled as from Idle.
pub proof fn lemma_char_space_gates_presses(
    v: FsmView,
    start: Instant,
    dit: bool,
    dah: bool,
    now: Instant,
    room: bool,
)
    requires
        v.state == FSMState::CharSpacePending(start),
        dit || dah,
    ensures
        !char_space_over(v.config, start, now) ==> v.step(dit, dah, now, room) == (
            v.recorded(dit, dah, now),
            None::<Element>,
        ),
        char_space_over(v.config, start, now) ==> v.step(dit, dah, now, room).1 == (FsmView {
            state: FSMState::Idle,
            ..v
        }).step(dit, dah, now, room).1,
        char_space_over(v.config, start, now) && room ==> v.step(dit, dah, now, room).0
            == (FsmView { state: FSMState::Idle, ..v }).step(dit, dah, now, room).0,
{
}

} // verus!
