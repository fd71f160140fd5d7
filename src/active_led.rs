//! The light that is fading in, and the one before it that is fading out.
use vstd::prelude::*;

use crate::gamma::{gamma, gamma_lookup};

verus! {

/// Number of lights on the ring.
pub const LED_COUNT: u8 = 8;

/// Fixed-point units in one linear duty level.
pub const DUTY_ONE: u32 = 65536;

/// Half a linear duty level, in fixed-point units.
pub const DUTY_HALF: u32 = 32768;

/// Full brightness (level 255), in fixed-point units.
pub const DUTY_FULL: u32 = 16711680;

/// The abstract state of the active light: its ring position and its linear
/// fade progress in fixed-point units.
pub struct LedState {
    pub index: int,
    pub level: int,
}

/// Nearest linear level to a fixed-point value, halves rounded up.
pub open spec fn rounded(units: int) -> int {
    (units + DUTY_HALF) / (DUTY_ONE as int)
}

/// The level of the previous light: what the active light has not yet taken.
pub open spec fn prev_level(level: int) -> int {
    DUTY_FULL - level
}

/// The ring position before `i`.
pub open spec fn prev_led(i: int) -> int {
    if i == 0 {
        7
    } else {
        i - 1
    }
}

/// The ring position after `i`.
pub open spec fn next_led(i: int) -> int {
    (i + 1) % (LED_COUNT as int)
}

/// The fade progress after a step, held at full brightness.
pub open spec fn stepped(level: int, step: int) -> int {
    if level + step > DUTY_FULL {
        DUTY_FULL as int
    } else {
        level + step
    }
}

/// Rounds a fixed-point duty value to the nearest linear level.
pub fn round_level(units: u32) -> (r: u8)
    requires
        units <= DUTY_FULL,
    ensures
        r == rounded(units as int),
        r <= 255,
{
    let q: u32 = (units + DUTY_HALF) / DUTY_ONE;
    q as u8
}

/// Tracks which light is fading in and how far it has got.
pub struct ActiveLed {
    index: u8,
    duty_cycle: u32,
}

impl View for ActiveLed {
    type V = LedState;

    closed spec fn view(&self) -> LedState {
        LedState { index: self.index as int, level: self.duty_cycle as int }
    }
}

impl ActiveLed {
    /// The position is on the ring and the progress within full brightness.
    pub open spec fn wf(&self) -> bool {
        0 <= self@.index < LED_COUNT && 0 <= self@.level <= DUTY_FULL
    }

    /// The first light, fully dark.
    pub fn new() -> (r: Self)
        ensures
            r.wf(),
            r@ == (LedState { index: 0, level: 0 }),
    {
        ActiveLed { index: 0, duty_cycle: 0 }
    }

    /// Adds `step` to the fade progress, held at full brightness.
    pub fn step_duty(&mut self, step: u32)
        requires
            old(self).wf(),
        ensures
            final(self).wf(),
            final(self)@ == (LedState {
                index: old(self)@.index,
                level: stepped(old(self)@.level, step as int),
            }),
    {
        if step >= DUTY_FULL - self.duty_cycle {
            self.duty_cycle = DUTY_FULL;
        } else {
            self.duty_cycle = self.duty_cycle + step;
        }
    }

    /// Ring position of the active light.
    pub fn index(&self) -> (r: u8)
        ensures
            r == self@.index,
    {
        self.index
    }

    /// Ring position of the light fading out.
    pub fn prev_index(&self) -> (r: u8)
        requires
            self.wf(),
        ensures
            r == prev_led(self@.index),
    {
        if self.index > 0 {
            self.index - 1
        } else {
            7
        }
    }

    /// Linear fade progress of the active light, in fixed-point units.
    pub fn duty_cycle(&self) -> (r: u32)
        ensures
            r == self@.level,
    {
        self.duty_cycle
    }

    /// Linear fade progress of the light fading out, in fixed-point units.
    pub fn prev_duty_cycle(&self) -> (r: u32)
        requires
            self.wf(),
        ensures
            r == prev_level(self@.level),
    {
        DUTY_FULL - self.duty_cycle
    }

    /// Gamma-corrected duty of the active light.
    pub fn duty(&self) -> (r: u8)
        requires
            self.wf(),
        ensures
            r == gamma(rounded(self@.level)),
    {
        gamma_lookup(round_level(self.duty_cycle))
    }

    /// Gamma-corrected duty of the light fading out.
    pub fn prev_duty(&self) -> (r: u8)
        requires
            self.wf(),
        ensures
            r == gamma(rounded(prev_level(self@.level))),
    {
        gamma_lookup(round_level(self.prev_duty_cycle()))
    }

    /// Hands the fade on to the next light, which starts dark.
    pub fn rotate(&mut self)
        requires
            old(self).wf(),
        ensures
            final(self).wf(),
            final(self)@ == (LedState { index: next_led(old(self)@.index), level: 0 }),
    {
        if self.index == LED_COUNT - 1 {
            self.index = 0;
        } else {
            self.index = self.index + 1;
        }
        self.duty_cycle = 0;
    }
}

/// The light before any position on the ring is the one seven steps ahead.
pub proof fn lemma_prev_index(index: int)
    requires
        0 <= index < LED_COUNT,
    ensures
        prev_led(index) == (index + 7) % 8,
{
}

/// Stepping keeps the fade progress within `0..=255` levels: it never goes
/// past full brightness and never wraps round to a smaller value.
pub proof fn lemma_step_in_range(level: int, step: int)
    requires
        0 <= level <= DUTY_FULL,
        0 <= step,
    ensures
        level <= stepped(level, step) <= DUTY_FULL,
        level + step <= DUTY_FULL ==> stepped(level, step) == level + step,
{
}

/// The two lights share one full level between them, exactly.
pub proof fn lemma_complementary(s: ActiveLed)
    requires
        s.wf(),
    ensures
        prev_level(s@.level) + s@.level == DUTY_FULL,
        0 <= prev_level(s@.level) <= DUTY_FULL,
        rounded(prev_level(s@.level)) <= 255,
{
}

} // verus!
