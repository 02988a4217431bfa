//! Decision engine of an iambic Morse keyer.
//!
//! The library tracks the debounced state of the two paddles, keeps the
//! SuperKeyer press history and one-element memory, and runs the state machine
//! that turns paddle state into a stream of keying elements.
use vstd::prelude::*;

pub mod controller;
pub mod fsm;
pub mod hal;
pub mod paddle;
pub mod queue;
pub mod sender;
pub mod time;
pub mod types;
pub mod virtual_time;

pub use controller::{PriorityView, SuperKeyerController};
pub use fsm::{FsmView, KeyerFSM};
pub use hal::{
    HalError, InputPaddle, InterruptConfig, KeyerHal, MockKeyOutput, MockKeyerHal, MockPaddle,
    NoOpInterruptController, OutputKey,
};
pub use paddle::{PaddleInput, PaddleView};
pub use queue::{ElementQueue, QUEUE_CAPACITY};
pub use sender::{can_enter_low_power, element_timing, ElementTiming, KeyCommand, TxController};
pub use time::{Duration, Instant};
pub use types::{
    wpm_to_unit_duration, ConfigError, Element, FSMState, KeyerConfig, KeyerMode, PaddleSide,
};
pub use virtual_time::VirtualTime;

verus! {

/// Settings for most amateur-radio use: Mode B, 20 WPM, character spacing on.
pub fn default_config() -> (r: KeyerConfig)
    ensures
        types::spec_default_config(r),
{
    KeyerConfig::default()
}

} // verus!
