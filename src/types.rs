//! Value types shared by the paddle tracker, the priority memory and the state machine.
use vstd::prelude::*;

use crate::time::{Duration, Instant};

verus! {

/// A keying element.
#[derive(Copy, Clone, Debug, PartialEq, Eq, Structural)]
pub enum Element {
    /// Short element, one unit of key-down.
    Dit,
    /// Long element, three units of key-down.
    Dah,
    /// Pause between characters, no key-down.
    CharSpace,
}

impl Element {
    pub open spec fn spec_duration_units(self) -> u32 {
        match self {
            Element::Dit => 1,
            Element::Dah => 3,
            Element::CharSpace => 3,
        }
    }

    pub open spec fn spec_is_keyed(self) -> bool {
        self is Dit || self is Dah
    }

    pub open spec fn spec_opposite(self) -> Element {
        match self {
            Element::Dit => Element::Dah,
            Element::Dah => Element::Dit,
            Element::CharSpace => Element::CharSpace,
        }
    }

    /// Length of the element in timing units.
    pub fn duration_units(&self) -> (r: u32)
        ensures
            r == self.spec_duration_units(),
    {
        match self {
            Element::Dit => 1,
            Element::Dah => 3,
            Element::CharSpace => 3,
        }
    }

    /// Whether the element keys the transmitter.
    pub fn is_keyed(&self) -> (r: bool)
        ensures
            r == self.spec_is_keyed(),
    {
        match self {
            Element::Dit | Element::Dah => true,
            Element::CharSpace => false,
        }
    }

    /// Dit and Dah swap; CharSpace stays.
    pub fn opposite(&self) -> (r: Element)
        ensures
            r == self.spec_opposite(),
    {
        match self {
            Element::Dit => Element::Dah,
            Element::Dah => Element::Dit,
            Element::CharSpace => Element::CharSpace,
        }
    }
}

/// Squeeze-release policy of the keyer.
#[derive(Copy, Clone, Debug, PartialEq, Eq, Structural)]
pub enum KeyerMode {
    /// Nothing extra is sent when a squeeze ends.
    ModeA,
    /// One opposite element is sent when a squeeze ends.
    ModeB,
    /// Dah priority on simultaneous presses, with one-element memory.
    SuperKeyer,
}

impl KeyerMode {
    pub open spec fn spec_has_memory(self) -> bool {
        !(self is ModeA)
    }

    pub open spec fn spec_has_priority(self) -> bool {
        self is SuperKeyer
    }

    /// Whether an element is remembered across a squeeze release.
    pub fn has_memory(&self) -> (r: bool)
        ensures
            r == self.spec_has_memory(),
    {
        match self {
            KeyerMode::ModeA => false,
            KeyerMode::ModeB | KeyerMode::SuperKeyer => true,
        }
    }

    /// Whether simultaneous presses are resolved by press order.
    pub fn has_priority(&self) -> (r: bool)
        ensures
            r == self.spec_has_priority(),
    {
        match self {
            KeyerMode::ModeA | KeyerMode::ModeB => false,
            KeyerMode::SuperKeyer => true,
        }
    }
}

/// One of the two paddle levers.
#[derive(Copy, Clone, Debug, PartialEq, Eq, Structural)]
pub enum PaddleSide {
    Dit,
    Dah,
}

impl PaddleSide {
    pub open spec fn spec_to_element(self) -> Element {
        match self {
            PaddleSide::Dit => Element::Dit,
            PaddleSide::Dah => Element::Dah,
        }
    }

    pub open spec fn spec_opposite(self) -> PaddleSide {
        match self {
            PaddleSide::Dit => PaddleSide::Dah,
            PaddleSide::Dah => PaddleSide::Dit,
        }
    }

    /// The element this paddle asks for.
    pub fn to_element(&self) -> (r: Element)
        ensures
            r == self.spec_to_element(),
    {
        match self {
            PaddleSide::Dit => Element::Dit,
            PaddleSide::Dah => Element::Dah,
        }
    }

    /// The other paddle.
    pub fn opposite(&self) -> (r: PaddleSide)
        ensures
            r == self.spec_opposite(),
    {
        match self {
            PaddleSide::Dit => PaddleSide::Dah,
            PaddleSide::Dah => PaddleSide::Dit,
        }
    }
}

/// State of the keyer state machine.
#[derive(Copy, Clone, Debug, PartialEq, Eq, Structural)]
pub enum FSMState {
    /// No paddle in use.
    Idle,
    /// The Dit paddle is held alone.
    DitHold,
    /// The Dah paddle is held alone.
    DahHold,
    /// Both paddles are held; the payload is the element sent last.
    Squeeze(Element),
    /// A squeeze ended; the payload is still to be sent.
    MemoryPending(Element),
    /// Waiting out a character space that started at the payload.
    CharSpacePending(Instant),
}

impl FSMState {
    pub open spec fn spec_has_paddle_input(self) -> bool {
        self is DitHold || self is DahHold || self is Squeeze
    }

    pub open spec fn spec_current_element(self) -> Option<Element> {
        match self {
            FSMState::DitHold => Some(Element::Dit),
            FSMState::DahHold => Some(Element::Dah),
            FSMState::Squeeze(e) => Some(e),
            FSMState::MemoryPending(e) => Some(e),
            FSMState::Idle | FSMState::CharSpacePending(_) => None,
        }
    }

    /// Whether the state is driven by a paddle that is held.
    pub fn has_paddle_input(&self) -> (r: bool)
        ensures
            r == self.spec_has_paddle_input(),
    {
        match self {
            FSMState::Idle | FSMState::MemoryPending(_) | FSMState::CharSpacePending(_) => false,
            FSMState::DitHold | FSMState::DahHold | FSMState::Squeeze(_) => true,
        }
    }

    /// The element the state is about, if any.
    pub fn current_element(&self) -> (r: Option<Element>)
        ensures
            r == self.spec_current_element(),
    {
        match self {
            FSMState::DitHold => Some(Element::Dit),
            FSMState::DahHold => Some(Element::Dah),
            FSMState::Squeeze(e) => Some(*e),
            FSMState::MemoryPending(e) => Some(*e),
            FSMState::Idle | FSMState::CharSpacePending(_) => None,
        }
    }
}

/// Why a configuration was refused.
#[derive(Copy, Clone, Debug, PartialEq, Eq, Structural)]
pub enum ConfigError {
    /// Speed outside 1 to 100 words per minute.
    InvalidWpm,
    /// Debounce time above 100 ms.
    InvalidDebounce,
    /// Queue capacity outside 8 to 1024 elements.
    InvalidQueueCapacity,
}

impl ConfigError {
    /// A sentence that describes the error.
    pub fn message(&self) -> (r: &'static str)
        ensures
            *self == ConfigError::InvalidWpm ==> r@ == "WPM must be between 1 and 100"@,
            *self == ConfigError::InvalidDebounce ==> r@ == "Debounce must be <= 100ms"@,
            *self == ConfigError::InvalidQueueCapacity ==> r@ == "Queue size must be between 8 and 1024"@,
    {
        match self {
            ConfigError::InvalidWpm => "WPM must be between 1 and 100",
            ConfigError::InvalidDebounce => "Debounce must be <= 100ms",
            ConfigError::InvalidQueueCapacity => "Queue size must be between 8 and 1024",
        }
    }
}

/// Lowest accepted speed, in words per minute.
pub const MIN_WPM: u32 = 1;

/// Highest accepted speed, in words per minute.
pub const MAX_WPM: u32 = 100;

/// Longest accepted debounce time, in milliseconds.
pub const MAX_DEBOUNCE_MS: u64 = 100;

/// Smallest accepted element queue capacity.
pub const MIN_QUEUE_SIZE: usize = 8;

/// Largest accepted element queue capacity.
pub const MAX_QUEUE_SIZE: usize = 1024;

/// Milliseconds per unit at one word per minute (PARIS: 50 units per word).
pub const PARIS_MS_PER_WPM: u64 = 1200;

/// Keyer settings.
#[derive(Copy, Clone, Debug)]
pub struct KeyerConfig {
    /// Squeeze-release policy.
    pub mode: KeyerMode,
    /// Whether a character space is waited out after the paddles go idle.
    pub char_space_enabled: bool,
    /// Length of one Dit.
    pub unit: Duration,
    /// Hold-off time after a paddle edge, in milliseconds.
    pub debounce_ms: u64,
    /// Capacity of the element queue.
    pub queue_size: usize,
}

/// Whole words per minute for a unit of `unit_ms` milliseconds, at least one.
pub open spec fn wpm_of_unit(unit_ms: u64) -> u32
    recommends
        unit_ms > 0,
{
    let w = PARIS_MS_PER_WPM / unit_ms;
    if w >= 1 {
        w as u32
    } else {
        1
    }
}

impl KeyerConfig {
    /// Whether `new` accepts these settings.
    pub open spec fn accepts(wpm: u32, debounce_ms: u64, queue_size: usize) -> bool {
        &&& MIN_WPM <= wpm <= MAX_WPM
        &&& debounce_ms <= MAX_DEBOUNCE_MS
        &&& MIN_QUEUE_SIZE <= queue_size <= MAX_QUEUE_SIZE
    }

    pub open spec fn refused(e: ConfigError) -> Result<KeyerConfig, ConfigError> {
        Err(e)
    }

    /// Validates the settings and derives the unit from the speed.
    pub fn new(
        mode: KeyerMode,
        char_space_enabled: bool,
        wpm: u32,
        debounce_ms: u64,
        queue_size: usize,
    ) -> (r: Result<KeyerConfig, ConfigError>)
        ensures
            r == Self::refused(ConfigError::InvalidWpm) <==> !(MIN_WPM <= wpm
                <= MAX_WPM),
            r == Self::refused(ConfigError::InvalidDebounce) <==> MIN_WPM <= wpm
                <= MAX_WPM && debounce_ms > MAX_DEBOUNCE_MS,
            r == Self::refused(ConfigError::InvalidQueueCapacity) <==> MIN_WPM
                <= wpm <= MAX_WPM && debounce_ms <= MAX_DEBOUNCE_MS && !(MIN_QUEUE_SIZE
                <= queue_size <= MAX_QUEUE_SIZE),
            r is Ok <==> Self::accepts(wpm, debounce_ms, queue_size),
            r matches Ok(c) ==> {
                &&& c.mode == mode
                &&& c.char_space_enabled == char_space_enabled
                &&& c.unit@ == PARIS_MS_PER_WPM / (wpm as u64)
                &&& c.debounce_ms == debounce_ms
                &&& c.queue_size == queue_size
            },
    {
        if wpm < MIN_WPM || wpm > MAX_WPM {
            return Err(ConfigError::InvalidWpm);
        }
        if debounce_ms > MAX_DEBOUNCE_MS {
            return Err(ConfigError::InvalidDebounce);
        }
        if queue_size < MIN_QUEUE_SIZE || queue_size > MAX_QUEUE_SIZE {
            return Err(ConfigError::InvalidQueueCapacity);
        }
        let unit = Duration::from_millis(PARIS_MS_PER_WPM / (wpm as u64));
        Ok(KeyerConfig { mode, char_space_enabled, unit, debounce_ms, queue_size })
    }

    /// Words per minute that the unit gives, at least one.
    pub fn wpm(&self) -> (r: u32)
        requires
            self.unit@ > 0,
        ensures
            r == wpm_of_unit(self.unit@),
    {
        let w = PARIS_MS_PER_WPM / self.unit.as_millis();
        if w >= 1 {
            w as u32
        } else {
            1
        }
    }

    /// Pause between the elements of one character: one unit.
    pub fn inter_element_space(&self) -> (r: Duration)
        ensures
            r == self.unit,
    {
        self.unit
    }

    /// Pause between characters: three units.
    pub fn char_space_duration(&self) -> (r: Duration)
        requires
            self.unit@ * 3 <= u64::MAX,
        ensures
            r@ == self.unit@ * 3,
    {
        Duration::from_millis(self.unit.as_millis() * 3)
    }
}

/// Unit length for a speed of `wpm` words per minute (PARIS: a word is 50
/// units, a minute 60 000 ms).
pub fn wpm_to_unit_duration(wpm: u16) -> (r: Duration)
    requires
        wpm > 0,
    ensures
        r@ == 60_000int / (wpm as int * 50),
{
    let unit_ms = 60_000u64 / (wpm as u64 * 50);
    Duration::from_millis(unit_ms)
}

/// Settings for most amateur-radio use: Mode B, 20 WPM, character spacing on.
pub open spec fn spec_default_config(c: KeyerConfig) -> bool {
    &&& c.mode == KeyerMode::ModeB
    &&& c.char_space_enabled
    &&& c.unit@ == 60
    &&& c.debounce_ms == 10
    &&& c.queue_size == 64
}

impl Default for KeyerConfig {
    fn default() -> (r: KeyerConfig)
        ensures
            spec_default_config(r),
    {
        KeyerConfig {
            mode: KeyerMode::ModeB,
            char_space_enabled: true,
            unit: Duration::from_millis(60),
            debounce_ms: 10,
            queue_size: 64,
        }
    }
}

} // verus!
