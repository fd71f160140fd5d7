//! Fading by hardware PWM: a period timer and two compare channels. At each
//! period the lights go on and the compare thresholds are set; each compare
//! match switches one light off.
use vstd::prelude::*;

use crate::active_led::{prev_led, prev_level, rounded, stepped, ActiveLed, DUTY_FULL};
use crate::command::LedCommand;
use crate::gamma::gamma;
use crate::segment::{next_segment, FadeCycle, SegmentState};

verus! {

/// Timer periods in one fade segment when the lights are driven by the
/// compare channels.
pub const HARD_FADE_IN_DURATION: u32 = 375;

/// Fade progress added each period, in fixed-point units: full brightness
/// over the periods of a segment.
pub open spec fn hard_step(duration: int) -> int {
    DUTY_FULL as int / duration
}

/// The compare threshold, in timer ticks, for a corrected duty.
pub open spec fn threshold(duty: int, period: int) -> int {
    duty * period / 255
}

/// Converts a corrected duty on the 0-255 scale into a compare threshold
/// within a period of `period` timer ticks.
pub fn compare_threshold(duty: u8, period: u32) -> (r: u32)
    ensures
        r == threshold(duty as int, period as int),
        r <= period,
{
    proof {
        assert(duty as int * period as int <= 255 * 0xffff_ffff) by (nonlinear_arith)
            requires
                duty <= 255,
                period <= 0xffff_ffff,
        ;
    }
    let product: u64 = duty as u64 * period as u64;
    proof {
        assert(product / 255 <= period) by (nonlinear_arith)
            requires
                product == duty as int * period as int,
                duty <= 255,
        ;
    }
    (product / 255) as u32
}

/// What to do at the start of a period: switch on the lights `active` and
/// `prev`, and load the compare thresholds that switch each off again.
#[derive(Clone, Copy, Debug, PartialEq, Eq, Structural)]
pub struct PeriodUpdate {
    pub active: u8,
    pub prev: u8,
    pub compare_active: u32,
    pub compare_prev: u32,
}

/// The update for the fade state `s` in a period of `period` ticks.
pub open spec fn period_update(s: SegmentState, period: int) -> PeriodUpdate {
    PeriodUpdate {
        active: s.index as u8,
        prev: prev_led(s.index) as u8,
        compare_active: threshold(gamma(rounded(s.level)), period) as u32,
        compare_prev: threshold(gamma(rounded(prev_level(s.level))), period) as u32,
    }
}

/// Drives the fade from period and compare-match events.
pub struct CompareScheduler {
    cycle: FadeCycle,
    step: u32,
}

impl CompareScheduler {
    /// The state of the fade.
    pub closed spec fn fade(&self) -> SegmentState {
        self.cycle@
    }

    /// Fade progress added per period, in fixed-point units.
    pub closed spec fn step_units(&self) -> int {
        self.step as int
    }

    /// Periods in one fade segment.
    pub closed spec fn duration(&self) -> int {
        self.cycle.duration()
    }

    /// The fade is well formed.
    pub closed spec fn wf(&self) -> bool {
        self.cycle.wf()
    }

    /// Starts with the first light dark, at the start of a segment of
    /// `fade_in_duration` periods.
    pub fn new(fade_in_duration: u32) -> (r: Self)
        requires
            fade_in_duration > 0,
        ensures
            r.wf(),
            r.fade() == (SegmentState { index: 0, level: 0, count: 0 }),
            r.step_units() == hard_step(fade_in_duration as int),
            r.duration() == fade_in_duration,
    {
        CompareScheduler { cycle: FadeCycle::new(fade_in_duration), step: DUTY_FULL / fade_in_duration }
    }

    /// Handles the end of a timer period of `period` ticks: counts it,
    /// computes the update for the coming period from the fade as it then
    /// stands, and steps the active light up for the period after.
    pub fn on_period(&mut self, period: u32) -> (r: PeriodUpdate)
        requires
            old(self).wf(),
        ensures
            final(self).wf(),
            final(self).duration() == old(self).duration(),
            final(self).step_units() == old(self).step_units(),
            ({
                let n = next_segment(old(self).fade(), old(self).duration());
                &&& r == period_update(n, period as int)
                &&& final(self).fade() == (SegmentState {
                    index: n.index,
                    level: stepped(n.level, old(self).step_units()),
                    count: n.count,
                })
            }),
            r.compare_active <= period,
            r.compare_prev <= period,
    {
        self.cycle.advance();
        let led = self.cycle.active();
        let update = PeriodUpdate {
            active: led.index(),
            prev: led.prev_index(),
            compare_active: compare_threshold(led.duty(), period),
            compare_prev: compare_threshold(led.prev_duty(), period),
        };
        self.cycle.step_duty(self.step);
        update
    }

    /// Handles a match on the active light's compare channel.
    pub fn on_compare_active(&self) -> (r: LedCommand)
        requires
            self.wf(),
        ensures
            r == (LedCommand { index: self.fade().index as u8, on: false }),
    {
        LedCommand { index: self.cycle.active().index(), on: false }
    }

    /// Handles a match on the previous light's compare channel.
    pub fn on_compare_prev(&self) -> (r: LedCommand)
        requires
            self.wf(),
        ensures
            r == (LedCommand { index: prev_led(self.fade().index) as u8, on: false }),
    {
        LedCommand { index: self.cycle.active().prev_index(), on: false }
    }

    /// The active light.
    pub fn active(&self) -> (r: &ActiveLed)
        requires
            self.wf(),
        ensures
            r.wf(),
            r@.index == self.fade().index,
            r@.level == self.fade().level,
    {
        self.cycle.active()
    }

    /// Periods counted so far in the current segment.
    pub fn count(&self) -> (r: u32)
        ensures
            r == self.fade().count,
    {
        self.cycle.count()
    }
}

} // verus!
