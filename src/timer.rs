use vstd::prelude::*;

verus! {

/// Nanoseconds in one second.
pub const NANOS_PER_SEC: u128 = 1_000_000_000;

/// A span of time, held as a whole number of nanoseconds.
#[derive(Clone, Copy, Debug, PartialEq, Eq, Structural)]
pub struct Duration {
    nanos: u128,
}

impl View for Duration {
    type V = nat;

    closed spec fn view(&self) -> nat {
        self.nanos as nat
    }
}

impl Duration {
    /// The empty span.
    pub fn zero() -> (r: Duration)
        ensures
            r@ == 0,
    {
        Duration { nanos: 0 }
    }

    /// A span of `secs` seconds and `nanos` further nanoseconds.
    pub fn new(secs: u64, nanos: u32) -> (r: Duration)
        ensures
            r@ == secs * NANOS_PER_SEC + nanos,
    {
        assert(secs * NANOS_PER_SEC <= u64::MAX * NANOS_PER_SEC) by (nonlinear_arith);
        Duration { nanos: secs as u128 * NANOS_PER_SEC + nanos as u128 }
    }

    /// A span of `secs` whole seconds.
    pub fn from_secs(secs: u64) -> (r: Duration)
        ensures
            r@ == secs * NANOS_PER_SEC,
    {
        Duration::new(secs, 0)
    }

    /// A span of `millis` milliseconds.
    pub fn from_millis(millis: u64) -> (r: Duration)
        ensures
            r@ == millis * 1_000_000,
    {
        assert(millis * 1_000_000 <= u64::MAX * 1_000_000) by (nonlinear_arith);
        Duration { nanos: millis as u128 * 1_000_000 }
    }

    /// A span of `nanos` nanoseconds.
    pub fn from_nanos(nanos: u64) -> (r: Duration)
        ensures
            r@ == nanos,
    {
        Duration { nanos: nanos as u128 }
    }

    /// The whole number of nanoseconds in the span.
    pub fn as_nanos(&self) -> (r: u128)
        ensures
            r == self@,
    {
        self.nanos
    }

    /// Whether the span is empty.
    pub fn is_zero(&self) -> (r: bool)
        ensures
            r == (self@ == 0),
    {
        self.nanos == 0
    }

    /// `self - other`, or the empty span where `other` is the longer one.
    pub fn saturating_sub(&self, other: Duration) -> (r: Duration)
        ensures
            r@ == sub_or_zero(self@, other@),
    {
        if self.nanos <= other.nanos {
            Duration { nanos: 0 }
        } else {
            Duration { nanos: self.nanos - other.nanos }
        }
    }
}

/// `a - b` over the naturals, stopping at zero.
pub open spec fn sub_or_zero(a: nat, b: nat) -> nat {
    if a <= b {
        0
    } else {
        (a - b) as nat
    }
}

/// What a timer does once its countdown reaches zero.
#[derive(Clone, Copy, Debug, PartialEq, Eq, Structural)]
pub enum TimerMode {
    /// Stay at zero until reset.
    Once,
    /// Start the countdown again from the preset.
    Loop,
}

impl Default for TimerMode {
    fn default() -> (r: TimerMode)
        ensures
            r == TimerMode::Loop,
    {
        TimerMode::Loop
    }
}

/// The abstract state of a [`Timer`]: preset and remaining time in nanoseconds.
pub ghost struct TimerState {
    pub preset: nat,
    pub remaining: nat,
    pub mode: TimerMode,
}

/// A countdown from a preset span, fed by frame deltas.
#[derive(Debug)]
pub struct Timer {
    preset: Duration,
    remaining: Duration,
    mode: TimerMode,
}

impl View for Timer {
    type V = TimerState;

    closed spec fn view(&self) -> TimerState {
        TimerState { preset: self.preset@, remaining: self.remaining@, mode: self.mode }
    }
}

/// The state after one `tick` by `dt` nanoseconds.
pub open spec fn tick_state(s: TimerState, dt: nat) -> TimerState {
    if s.remaining == 0 {
        s
    } else if sub_or_zero(s.remaining, dt) == 0 {
        match s.mode {
            TimerMode::Once => TimerState { remaining: 0, ..s },
            TimerMode::Loop => TimerState { remaining: s.preset, ..s },
        }
    } else {
        TimerState { remaining: sub_or_zero(s.remaining, dt), ..s }
    }
}

/// Whether a `tick` by `dt` nanoseconds completes the countdown.
pub open spec fn tick_fires(s: TimerState, dt: nat) -> bool {
    s.remaining != 0 && dt >= s.remaining
}

impl Timer {
    /// A timer that counts down from `preset`.
    pub fn new(preset: Duration, mode: TimerMode) -> (r: Timer)
        ensures
            r@ == (TimerState { preset: preset@, remaining: preset@, mode }),
    {
        Timer { preset, remaining: preset, mode }
    }

    /// Advances the countdown by `dt`; returns whether it reached zero on this
    /// tick. A looping timer then restarts from its preset; a one-shot timer
    /// stays at zero and never fires again until reset.
    pub fn tick(&mut self, dt: Duration) -> (fired: bool)
        ensures
            final(self)@ == tick_state(old(self)@, dt@),
            fired == tick_fires(old(self)@, dt@),
    {
        if self.remaining.is_zero() {
            return false;
        }
        self.remaining = self.remaining.saturating_sub(dt);
        if self.remaining.is_zero() {
            match self.mode {
                TimerMode::Once => {},
                TimerMode::Loop => self.remaining = self.preset,
            }
            return true;
        }
        false
    }

    /// Whether the countdown stands at zero.
    pub fn finished(&self) -> (r: bool)
        ensures
            r == (self@.remaining == 0),
    {
        self.remaining.is_zero()
    }

    /// Restarts the countdown from the preset.
    pub fn reset(&mut self)
        ensures
            final(self)@ == (TimerState { remaining: old(self)@.preset, ..old(self)@ }),
    {
        self.remaining = self.preset;
    }

    /// Replaces the preset and restarts the countdown from it.
    pub fn set(&mut self, new_preset: Duration)
        ensures
            final(self)@ == (TimerState {
                preset: new_preset@,
                remaining: new_preset@,
                mode: old(self)@.mode,
            }),
    {
        self.preset = new_preset;
        self.reset();
    }

    /// The time left in the countdown.
    pub fn remaining(&self) -> (r: Duration)
        ensures
            r@ == self@.remaining,
    {
        self.remaining
    }
}

} // verus!
