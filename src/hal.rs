//! Capabilities the keyer needs from hardware, and stand-ins for tests.
use vstd::prelude::*;

use crate::time::{saturating_diff, Instant};
use crate::types::PaddleSide;

verus! {

/// Failure of a hardware operation.
#[derive(Copy, Clone, Debug, PartialEq, Eq, Structural)]
pub enum HalError {
    /// GPIO operation failed.
    GpioError,
    /// Timing operation failed.
    TimingError,
    /// Interrupt configuration failed.
    InterruptError,
    /// Hardware not initialized.
    NotInitialized,
    /// Invalid configuration.
    InvalidConfig,
}

impl HalError {
    /// A sentence that describes the error.
    pub fn message(&self) -> (r: &'static str)
        ensures
            *self == HalError::GpioError ==> r@ == "GPIO operation failed"@,
            *self == HalError::TimingError ==> r@ == "Timing operation failed"@,
            *self == HalError::InterruptError ==> r@ == "Interrupt configuration failed"@,
            *self == HalError::NotInitialized ==> r@ == "Hardware not initialized"@,
            *self == HalError::InvalidConfig ==> r@ == "Invalid configuration"@,
    {
        match self {
            HalError::GpioError => "GPIO operation failed",
            HalError::TimingError => "Timing operation failed",
            HalError::InterruptError => "Interrupt configuration failed",
            HalError::NotInitialized => "Hardware not initialized",
            HalError::InvalidConfig => "Invalid configuration",
        }
    }
}

/// Longest hold-off time a paddle input accepts, in milliseconds.
pub const MAX_PADDLE_DEBOUNCE_MS: u32 = 100;

/// A hold-off time for a paddle input: kept when at most 100 ms, refused otherwise.
pub fn checked_debounce(time_ms: u32) -> (r: Result<u32, HalError>)
    ensures
        time_ms <= MAX_PADDLE_DEBOUNCE_MS ==> r is Ok && r->Ok_0 == time_ms,
        time_ms > MAX_PADDLE_DEBOUNCE_MS ==> r is Err && r->Err_0 == HalError::InvalidConfig,
{
    if time_ms > MAX_PADDLE_DEBOUNCE_MS {
        Err(HalError::InvalidConfig)
    } else {
        Ok(time_ms)
    }
}

/// The level to drive a key line to: `state` itself, or its inverse on an
/// active-low line.
pub fn key_line_level(state: bool, active_low: bool) -> (r: bool)
    ensures
        r == (state != active_low),
{
    if active_low {
        !state
    } else {
        state
    }
}

/// Shortest hold-off time a level filter keeps, in milliseconds.
pub const MIN_FILTER_DEBOUNCE_MS: u32 = 1;

/// Whether `now` is less than `debounce` milliseconds after `last_edge`.
pub open spec fn within_hold_off(last_edge: Option<Instant>, now: Instant, debounce: u32) -> bool {
    match last_edge {
        Some(t) => saturating_diff(now@, t@) < debounce,
        None => false,
    }
}

/// Hold-off filter on a raw input level: a change of level is taken only when
/// the hold-off time has passed since the last change taken; until then the
/// last stable level is reported.
pub struct LevelDebouncer {
    last_state: bool,
    last_edge_time: Option<Instant>,
    debounce_time_ms: u32,
}

impl LevelDebouncer {
    pub closed spec fn spec_state(&self) -> bool {
        self.last_state
    }

    pub closed spec fn spec_last_edge(&self) -> Option<Instant> {
        self.last_edge_time
    }

    pub closed spec fn spec_debounce(&self) -> u32 {
        self.debounce_time_ms
    }

    /// Low level, no change seen, hold-off time 10 ms.
    pub fn new() -> (r: LevelDebouncer)
        ensures
            !r.spec_state(),
            r.spec_last_edge() is None,
            r.spec_debounce() == 10,
    {
        LevelDebouncer { last_state: false, last_edge_time: None, debounce_time_ms: 10 }
    }

    /// Takes the raw level read at `now` and returns the filtered level.
    pub fn read(&mut self, raw: bool, now: Instant) -> (r: bool)
        ensures
            final(self).spec_debounce() == old(self).spec_debounce(),
            ({
                let held = raw != old(self).spec_state() && within_hold_off(
                    old(self).spec_last_edge(),
                    now,
                    old(self).spec_debounce(),
                );
                if raw == old(self).spec_state() || held {
                    r == old(self).spec_state() && final(self).spec_state() == old(self).spec_state()
                        && final(self).spec_last_edge() == old(self).spec_last_edge()
                } else {
                    r == raw && final(self).spec_state() == raw && final(self).spec_last_edge()
                        == Some(now)
                }
            }),
    {
        if raw != self.last_state {
            if let Some(last_edge) = self.last_edge_time {
                let elapsed = now.duration_since(last_edge);
                if elapsed.as_millis() < self.debounce_time_ms as u64 {
                    return self.last_state;
                }
            }
            self.last_state = raw;
            self.last_edge_time = Some(now);
        }
        self.last_state
    }

    /// When the level last changed, if it has.
    pub fn last_edge_time(&self) -> (r: Option<Instant>)
        ensures
            r == self.spec_last_edge(),
    {
        self.last_edge_time
    }

    /// Sets the hold-off time, brought into 1 to 100 ms.
    pub fn set_debounce_time(&mut self, time_ms: u32)
        ensures
            final(self).spec_debounce() == (if time_ms < MIN_FILTER_DEBOUNCE_MS {
                MIN_FILTER_DEBOUNCE_MS
            } else if time_ms > MAX_PADDLE_DEBOUNCE_MS {
                MAX_PADDLE_DEBOUNCE_MS
            } else {
                time_ms
            }),
            final(self).spec_state() == old(self).spec_state(),
            final(self).spec_last_edge() == old(self).spec_last_edge(),
    {
        self.debounce_time_ms = if time_ms < MIN_FILTER_DEBOUNCE_MS {
            MIN_FILTER_DEBOUNCE_MS
        } else if time_ms > MAX_PADDLE_DEBOUNCE_MS {
            MAX_PADDLE_DEBOUNCE_MS
        } else {
            time_ms
        };
    }
}

/// One paddle contact.
pub trait InputPaddle {
    type Error;

    /// Whether the paddle is pressed now.
    fn is_pressed(&mut self) -> Result<bool, Self::Error>;

    /// When the paddle last changed state, if known.
    fn last_edge_time(&self) -> Option<Instant>;

    /// Sets the hold-off time after an edge.
    fn set_debounce_time(&mut self, time_ms: u32) -> Result<(), Self::Error>;

    /// Enables edge interrupts for this paddle.
    fn enable_interrupt(&mut self) -> Result<(), Self::Error>;

    /// Disables edge interrupts for this paddle.
    fn disable_interrupt(&mut self) -> Result<(), Self::Error>;
}

/// The key (transmitter) output.
pub trait OutputKey {
    type Error;

    /// Key down when `state` is true, key up otherwise.
    fn set_state(&mut self, state: bool) -> Result<(), Self::Error>;

    /// Whether the key is down.
    fn get_state(&self) -> Result<bool, Self::Error>;

    /// Flips the key output.
    fn toggle(&mut self) -> Result<(), Self::Error> {
        match self.get_state() {
            Ok(current) => self.set_state(!current),
            Err(e) => Err(e),
        }
    }
}

/// Edge-interrupt control for the paddle inputs.
pub trait InterruptConfig {
    type Error;

    /// Chooses the edges that raise an interrupt for `paddle`.
    fn configure_paddle_interrupt(&mut self, paddle: PaddleSide, rising: bool, falling: bool) -> Result<
        (),
        Self::Error,
    >;

    /// Sets the interrupt priority of `paddle`.
    fn set_interrupt_priority(&mut self, paddle: PaddleSide, priority: u8) -> Result<(), Self::Error>;

    /// Enables or disables the interrupt of `paddle`.
    fn enable_paddle_interrupt(&mut self, paddle: PaddleSide, enable: bool) -> Result<(), Self::Error>;
}

/// The whole hardware of a keyer.
pub trait KeyerHal {
    type DitPaddle: InputPaddle;

    type DahPaddle: InputPaddle;

    type KeyOutput: OutputKey;

    type InterruptCtrl: InterruptConfig;

    type Error;

    /// Brings the hardware up.
    fn initialize(&mut self) -> Result<(), Self::Error>;

    fn dit_paddle(&mut self) -> &mut Self::DitPaddle;

    fn dah_paddle(&mut self) -> &mut Self::DahPaddle;

    fn key_output(&mut self) -> &mut Self::KeyOutput;

    fn interrupt_controller(&mut self) -> &mut Self::InterruptCtrl;

    /// Shuts the hardware down.
    fn shutdown(&mut self) -> Result<(), Self::Error>;
}

/// An interrupt controller that accepts every request and does nothing.
pub struct NoOpInterruptController;

impl InterruptConfig for NoOpInterruptController {
    type Error = HalError;

    fn configure_paddle_interrupt(
        &mut self,
        _paddle: PaddleSide,
        _rising: bool,
        _falling: bool,
    ) -> (r: Result<(), HalError>)
        ensures
            r is Ok,
    {
        Ok(())
    }

    fn set_interrupt_priority(&mut self, _paddle: PaddleSide, _priority: u8) -> (r: Result<
        (),
        HalError,
    >)
        ensures
            r is Ok,
    {
        Ok(())
    }

    fn enable_paddle_interrupt(&mut self, _paddle: PaddleSide, _enable: bool) -> (r: Result<
        (),
        HalError,
    >)
        ensures
            r is Ok,
    {
        Ok(())
    }
}

/// A paddle whose state is set by hand.
pub struct MockPaddle {
    pressed: bool,
    last_edge: Option<Instant>,
    debounce_ms: u32,
}

impl MockPaddle {
    pub closed spec fn spec_pressed(&self) -> bool {
        self.pressed
    }

    pub closed spec fn spec_last_edge(&self) -> Option<Instant> {
        self.last_edge
    }

    /// Released, with no edge seen.
    pub fn new() -> (r: MockPaddle)
        ensures
            !r.spec_pressed(),
            r.spec_last_edge() is None,
    {
        MockPaddle { pressed: false, last_edge: None, debounce_ms: 0 }
    }

    /// Sets the paddle state; a press is stamped with the system clock.
    pub fn set_pressed(&mut self, pressed: bool)
        ensures
            final(self).spec_pressed() == pressed,
            pressed ==> final(self).spec_last_edge() is Some,
            !pressed ==> final(self).spec_last_edge() == old(self).spec_last_edge(),
    {
        self.pressed = pressed;
        if pressed {
            self.last_edge = Some(Instant::now());
        }
    }
}

impl InputPaddle for MockPaddle {
    type Error = HalError;

    fn is_pressed(&mut self) -> (r: Result<bool, HalError>)
        ensures
            r is Ok && r->Ok_0 == old(self).spec_pressed(),
            final(self).spec_pressed() == old(self).spec_pressed(),
            final(self).spec_last_edge() == old(self).spec_last_edge(),
    {
        Ok(self.pressed)
    }

    fn last_edge_time(&self) -> (r: Option<Instant>)
        ensures
            r == self.spec_last_edge(),
    {
        self.last_edge
    }

    fn set_debounce_time(&mut self, time_ms: u32) -> (r: Result<(), HalError>)
        ensures
            r is Ok,
            final(self).spec_pressed() == old(self).spec_pressed(),
            final(self).spec_last_edge() == old(self).spec_last_edge(),
    {
        self.debounce_ms = time_ms;
        Ok(())
    }

    fn enable_interrupt(&mut self) -> (r: Result<(), HalError>)
        ensures
            r is Ok,
            final(self).spec_pressed() == old(self).spec_pressed(),
            final(self).spec_last_edge() == old(self).spec_last_edge(),
    {
        Ok(())
    }

    fn disable_interrupt(&mut self) -> (r: Result<(), HalError>)
        ensures
            r is Ok,
            final(self).spec_pressed() == old(self).spec_pressed(),
            final(self).spec_last_edge() == old(self).spec_last_edge(),
    {
        Ok(())
    }
}

/// A key output that only records its state.
pub struct MockKeyOutput {
    state: bool,
}

impl MockKeyOutput {
    pub closed spec fn spec_active(&self) -> bool {
        self.state
    }

    /// Key up.
    pub fn new() -> (r: MockKeyOutput)
        ensures
            !r.spec_active(),
    {
        MockKeyOutput { state: false }
    }

    /// Whether the key is down.
    pub fn is_active(&self) -> (r: bool)
        ensures
            r == self.spec_active(),
    {
        self.state
    }
}

impl OutputKey for MockKeyOutput {
    type Error = HalError;

    fn set_state(&mut self, state: bool) -> (r: Result<(), HalError>)
        ensures
            r is Ok,
            final(self).spec_active() == state,
    {
        self.state = state;
        Ok(())
    }

    fn get_state(&self) -> (r: Result<bool, HalError>)
        ensures
            r is Ok && r->Ok_0 == self.spec_active(),
    {
        Ok(self.state)
    }
}

/// Two hand-set paddles and a recording key output.
pub struct MockKeyerHal {
    pub dit_paddle: MockPaddle,
    pub dah_paddle: MockPaddle,
    pub key_output: MockKeyOutput,
}

impl MockKeyerHal {
    /// Both paddles released, key up.
    pub fn new() -> (r: MockKeyerHal)
        ensures
            !r.dit_paddle.spec_pressed(),
            !r.dah_paddle.spec_pressed(),
            !r.key_output.spec_active(),
    {
        MockKeyerHal {
            dit_paddle: MockPaddle::new(),
            dah_paddle: MockPaddle::new(),
            key_output: MockKeyOutput::new(),
        }
    }
}

} // verus!
