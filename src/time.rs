//! Millisecond time base shared by the paddle tracker and the state machine.
use vstd::prelude::*;

verus! {

/// A point in time, in milliseconds since start-up.
#[derive(Copy, Clone, Debug, PartialEq, Eq, Structural)]
pub struct Instant {
    /// Milliseconds since start-up.
    pub ms: u64,
}

/// A span of time, in milliseconds.
#[derive(Copy, Clone, Debug, PartialEq, Eq, Structural)]
pub struct Duration {
    /// Length in milliseconds.
    pub ms: u64,
}

impl View for Instant {
    type V = u64;

    open spec fn view(&self) -> u64 {
        self.ms
    }
}

impl View for Duration {
    type V = u64;

    open spec fn view(&self) -> u64 {
        self.ms
    }
}

/// `a - b`, or zero where `b` is later than `a`.
pub open spec fn saturating_diff(a: u64, b: u64) -> u64 {
    if a >= b {
        (a - b) as u64
    } else {
        0
    }
}

/// Relies on embassy_time::Instant::now: the driver's clock, read as milliseconds.
#[verifier::external_body]
fn clock_millis() -> (r: u64) {
    embassy_time::Instant::now().as_millis()
}

impl Instant {
    /// The current time of the system clock.
    pub fn now() -> (r: Instant) {
        let ms = clock_millis();
        Instant { ms }
    }

    pub fn from_millis(ms: u64) -> (r: Instant)
        ensures
            r@ == ms,
    {
        Instant { ms }
    }

    /// Time elapsed from `earlier` to `self`; zero when `earlier` is later.
    pub fn duration_since(&self, earlier: Instant) -> (r: Duration)
        ensures
            r@ == saturating_diff(self@, earlier@),
    {
        Duration { ms: self.ms.saturating_sub(earlier.ms) }
    }

    pub fn as_millis(&self) -> (r: u64)
        ensures
            r == self@,
    {
        self.ms
    }
}

impl Duration {
    pub fn from_millis(ms: u64) -> (r: Duration)
        ensures
            r@ == ms,
    {
        Duration { ms }
    }

    pub fn as_millis(&self) -> (r: u64)
        ensures
            r == self@,
    {
        self.ms
    }
}

impl core::ops::Div<u32> for Duration {
    type Output = Duration;

    fn div(self, rhs: u32) -> (r: Duration) {
        Duration { ms: self.ms / (rhs as u64) }
    }
}

impl vstd::std_specs::ops::DivSpecImpl<u32> for Duration {
    open spec fn obeys_div_spec() -> bool {
        true
    }

    open spec fn div_req(self, rhs: u32) -> bool {
        rhs != 0
    }

    open spec fn div_spec(self, rhs: u32) -> Duration {
        Duration { ms: (self.ms / (rhs as u64)) as u64 }
    }
}

impl core::ops::Mul<u32> for Duration {
    type Output = Duration;

    fn mul(self, rhs: u32) -> (r: Duration) {
        Duration { ms: self.ms * (rhs as u64) }
    }
}

impl vstd::std_specs::ops::MulSpecImpl<u32> for Duration {
    open spec fn obeys_mul_spec() -> bool {
        true
    }

    open spec fn mul_req(self, rhs: u32) -> bool {
        self.ms * rhs <= u64::MAX
    }

    open spec fn mul_spec(self, rhs: u32) -> Duration {
        Duration { ms: (self.ms * rhs) as u64 }
    }
}

} // verus!
