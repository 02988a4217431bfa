//! Debounced record of which paddles are pressed.
use vstd::prelude::*;

use crate::types::{Element, PaddleSide};

verus! {

/// Hold-off time used by `PaddleInput::new`, in milliseconds.
pub const DEFAULT_DEBOUNCE_MS: u32 = 10;

/// What a `PaddleInput` holds.
pub struct PaddleView {
    pub dit: bool,
    pub dah: bool,
    /// Time of the last accepted Dit edge, in milliseconds.
    pub dit_edge: u32,
    /// Time of the last accepted Dah edge, in milliseconds.
    pub dah_edge: u32,
    pub debounce: u32,
}

/// Whether an edge at `now` lies outside the hold-off window that opened at `last`.
pub open spec fn admits(last: u32, now: u32, debounce: u32) -> bool {
    (if now >= last {
        now - last
    } else {
        0int
    }) >= debounce
}

impl PaddleView {
    pub open spec fn pressed(self, side: PaddleSide) -> bool {
        match side {
            PaddleSide::Dit => self.dit,
            PaddleSide::Dah => self.dah,
        }
    }

    pub open spec fn last_edge(self, side: PaddleSide) -> u32 {
        match side {
            PaddleSide::Dit => self.dit_edge,
            PaddleSide::Dah => self.dah_edge,
        }
    }

    /// The record after an edge of `side` to `state` at `now`: taken when the
    /// hold-off window of that side has passed, dropped otherwise.
    pub open spec fn updated(self, side: PaddleSide, state: bool, now: u32) -> PaddleView {
        if !admits(self.last_edge(side), now, self.debounce) {
            self
        } else {
            match side {
                PaddleSide::Dit => PaddleView { dit: state, dit_edge: now, ..self },
                PaddleSide::Dah => PaddleView { dah: state, dah_edge: now, ..self },
            }
        }
    }

    /// The element of the one paddle that is pressed, if exactly one is.
    pub open spec fn single_element(self) -> Option<Element> {
        if self.dit && !self.dah {
            Some(Element::Dit)
        } else if !self.dit && self.dah {
            Some(Element::Dah)
        } else {
            None
        }
    }
}

/// Debounced paddle state, written on each paddle edge and read by the state machine.
pub struct PaddleInput {
    dit_pressed: bool,
    dah_pressed: bool,
    dit_last_edge: u32,
    dah_last_edge: u32,
    debounce_ms: u32,
}

impl View for PaddleInput {
    type V = PaddleView;

    closed spec fn view(&self) -> PaddleView {
        PaddleView {
            dit: self.dit_pressed,
            dah: self.dah_pressed,
            dit_edge: self.dit_last_edge,
            dah_edge: self.dah_last_edge,
            debounce: self.debounce_ms,
        }
    }
}

impl PaddleInput {
    /// Both paddles released, no edge seen, default hold-off time.
    pub fn new() -> (r: PaddleInput)
        ensures
            r@ == (PaddleView { dit: false, dah: false, dit_edge: 0, dah_edge: 0, debounce: DEFAULT_DEBOUNCE_MS }),
    {
        PaddleInput::with_debounce(DEFAULT_DEBOUNCE_MS)
    }

    /// Both paddles released, no edge seen, hold-off time `debounce_ms`.
    pub fn with_debounce(debounce_ms: u32) -> (r: PaddleInput)
        ensures
            r@ == (PaddleView { dit: false, dah: false, dit_edge: 0, dah_edge: 0, debounce: debounce_ms }),
    {
        PaddleInput {
            dit_pressed: false,
            dah_pressed: false,
            dit_last_edge: 0,
            dah_last_edge: 0,
            debounce_ms,
        }
    }

    /// Records an edge of one paddle at `now_ms`. An edge that comes less than
    /// the hold-off time after the last accepted edge of the same paddle is
    /// dropped, not deferred.
    pub fn update(&mut self, side: PaddleSide, state: bool, now_ms: u32)
        ensures
            final(self)@ == old(self)@.updated(side, state, now_ms),
    {
        match side {
            PaddleSide::Dit => {
                if now_ms.saturating_sub(self.dit_last_edge) >= self.debounce_ms {
                    self.dit_pressed = state;
                    self.dit_last_edge = now_ms;
                }
            },
            PaddleSide::Dah => {
                if now_ms.saturating_sub(self.dah_last_edge) >= self.debounce_ms {
                    self.dah_pressed = state;
                    self.dah_last_edge = now_ms;
                }
            },
        }
    }

    /// Whether the Dit paddle is pressed.
    pub fn dit(&self) -> (r: bool)
        ensures
            r == self@.dit,
    {
        self.dit_pressed
    }

    /// Whether the Dah paddle is pressed.
    pub fn dah(&self) -> (r: bool)
        ensures
            r == self@.dah,
    {
        self.dah_pressed
    }

    /// Whether both paddles are pressed (a squeeze).
    pub fn both_pressed(&self) -> (r: bool)
        ensures
            r == (self@.dit && self@.dah),
    {
        self.dit() && self.dah()
    }

    /// Whether neither paddle is pressed.
    pub fn both_released(&self) -> (r: bool)
        ensures
            r == (!self@.dit && !self@.dah),
    {
        !self.dit() && !self.dah()
    }

    /// The last edge time of each paddle that is pressed.
    pub fn get_press_times(&self) -> (r: (Option<u32>, Option<u32>))
        ensures
            r.0 == (if self@.dit { Some(self@.dit_edge) } else { None::<u32> }),
            r.1 == (if self@.dah { Some(self@.dah_edge) } else { None::<u32> }),
    {
        let dit_time = if self.dit() {
            Some(self.dit_last_edge)
        } else {
            None
        };
        let dah_time = if self.dah() {
            Some(self.dah_last_edge)
        } else {
            None
        };
        (dit_time, dah_time)
    }

    /// `Dit` or `Dah` when exactly that paddle is pressed, `None` otherwise.
    pub fn current_single_element(&self) -> (r: Option<Element>)
        ensures
            r == self@.single_element(),
    {
        match (self.dit(), self.dah()) {
            (true, false) => Some(Element::Dit),
            (false, true) => Some(Element::Dah),
            _ => None,
        }
    }

    /// Both paddles released and no edge seen; the hold-off time is kept.
    pub fn reset(&mut self)
        ensures
            final(self)@ == (PaddleView { dit: false, dah: false, dit_edge: 0, dah_edge: 0, ..old(self)@ }),
    {
        self.dit_pressed = false;
        self.dah_pressed = false;
        self.dit_last_edge = 0;
        self.dah_last_edge = 0;
    }
}

impl Default for PaddleInput {
    fn default() -> (r: PaddleInput)
        ensures
            r@ == (PaddleView { dit: false, dah: false, dit_edge: 0, dah_edge: 0, debounce: DEFAULT_DEBOUNCE_MS }),
    {
        PaddleInput::new()
    }
}

/// An edge that comes less than the hold-off time after an accepted edge of
/// the same paddle does not change whether that paddle reads as pressed.
pub proof fn lemma_edge_inside_hold_off_is_dropped(
    p: PaddleView,
    side: PaddleSide,
    state: bool,
    now1: u32,
    now2: u32,
)
    requires
        admits(p.last_edge(side), now1, p.debounce),
        now1 <= now2,
        now2 - now1 < p.debounce,
    ensures
        p.updated(side, state, now1).updated(side, !state, now2).pressed(side) == p.updated(
            side,
            state,
            now1,
        ).pressed(side),
{
}

} // verus!
