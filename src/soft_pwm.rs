//! Fading by software PWM: every timer tick is one of the 256 sub-ticks of a
//! PWM period, and the lights are switched at the sub-ticks where their
//! corrected duty begins and ends.
use vstd::prelude::*;

use crate::active_led::{prev_led, prev_level, rounded, stepped, ActiveLed, DUTY_FULL};
use crate::command::LedCommand;
use crate::gamma::gamma;
use crate::segment::{next_segment, FadeCycle, SegmentState};

verus! {

/// Sub-ticks in one PWM period.
pub const PWM_RESOLUTION: u32 = 256;

/// Ticks in one fade segment when the lights are driven by software PWM.
pub const SOFT_FADE_IN_DURATION: u32 = 25000;

/// Fade progress added at the start of each PWM period, in fixed-point units:
/// full brightness over the `duration / 256` periods of a segment.
pub open spec fn soft_step(duration: int) -> int {
    (DUTY_FULL * PWM_RESOLUTION) as int / duration
}

/// The fade after the bookkeeping of one tick at sub-tick `t`: the event is
/// counted, and at the start of a period the active light steps up.
pub open spec fn tick_state(s: SegmentState, t: int, duration: int, step: int) -> SegmentState {
    let n = next_segment(s, duration);
    if t == 0 {
        SegmentState { index: n.index, level: stepped(n.level, step), count: n.count }
    } else {
        n
    }
}

/// Switch-on commands at the start of a period for the lights with a
/// non-zero corrected duty, then switch-off commands for the lights whose
/// corrected duty ends at sub-tick `t`.
pub open spec fn tick_commands(s: SegmentState, t: int) -> Seq<LedCommand> {
    let duty = gamma(rounded(s.level));
    let prev_duty = gamma(rounded(prev_level(s.level)));
    let active = s.index as u8;
    let prev = prev_led(s.index) as u8;
    let active_on = if t == 0 && duty != 0 {
        seq![LedCommand { index: active, on: true }]
    } else {
        Seq::empty()
    };
    let prev_on = if t == 0 && prev_duty != 0 {
        seq![LedCommand { index: prev, on: true }]
    } else {
        Seq::empty()
    };
    let active_off = if t == duty {
        seq![LedCommand { index: active, on: false }]
    } else {
        Seq::empty()
    };
    let prev_off = if t == prev_duty {
        seq![LedCommand { index: prev, on: false }]
    } else {
        Seq::empty()
    };
    active_on + prev_on + active_off + prev_off
}

/// Drives the fade one timer tick at a time. The segment is counted in
/// ticks, so a rotation may fall inside a PWM period; the duty step is taken
/// once per period, at its first sub-tick.
pub struct FadeScheduler {
    cycle: FadeCycle,
    position: u8,
    step: u32,
}

impl FadeScheduler {
    /// The state of the fade.
    pub closed spec fn fade(&self) -> SegmentState {
        self.cycle@
    }

    /// Position of the next tick within its PWM period.
    pub closed spec fn sub_tick(&self) -> int {
        self.position as int
    }

    /// Fade progress added per PWM period, in fixed-point units.
    pub closed spec fn step_units(&self) -> int {
        self.step as int
    }

    /// Ticks in one fade segment.
    pub closed spec fn duration(&self) -> int {
        self.cycle.duration()
    }

    /// The fade is well formed.
    pub closed spec fn wf(&self) -> bool {
        self.cycle.wf()
    }

    /// Starts with the first light dark, at the start of a period and of a
    /// segment of `fade_in_duration` ticks.
    pub fn new(fade_in_duration: u32) -> (r: Self)
        requires
            fade_in_duration > 0,
        ensures
            r.wf(),
            r.fade() == (SegmentState { index: 0, level: 0, count: 0 }),
            r.sub_tick() == 0,
            r.step_units() == soft_step(fade_in_duration as int),
            r.duration() == fade_in_duration,
    {
        let total: u64 = DUTY_FULL as u64 * PWM_RESOLUTION as u64;
        let step: u64 = total / fade_in_duration as u64;
        FadeScheduler { cycle: FadeCycle::new(fade_in_duration), position: 0, step: step as u32 }
    }

    /// Handles one timer tick and returns the commands for the lights, in the
    /// order they are to be applied.
    pub fn on_tick(&mut self) -> (cmds: Vec<LedCommand>)
        requires
            old(self).wf(),
        ensures
            final(self).wf(),
            final(self).duration() == old(self).duration(),
            final(self).step_units() == old(self).step_units(),
            final(self).fade() == tick_state(
                old(self).fade(),
                old(self).sub_tick(),
                old(self).duration(),
                old(self).step_units(),
            ),
            final(self).sub_tick() == (old(self).sub_tick() + 1) % (PWM_RESOLUTION as int),
            cmds@ == tick_commands(final(self).fade(), old(self).sub_tick()),
    {
        let t = self.position;
        self.cycle.advance();
        if t == 0 {
            self.cycle.step_duty(self.step);
        }
        let led = self.cycle.active();
        let duty = led.duty();
        let prev_duty = led.prev_duty();
        let active = led.index();
        let prev = led.prev_index();
        let mut cmds: Vec<LedCommand> = Vec::new();
        if t == 0 && duty != 0 {
            cmds.push(LedCommand { index: active, on: true });
        }
        if t == 0 && prev_duty != 0 {
            cmds.push(LedCommand { index: prev, on: true });
        }
        if t == duty {
            cmds.push(LedCommand { index: active, on: false });
        }
        if t == prev_duty {
            cmds.push(LedCommand { index: prev, on: false });
        }
        self.position = if t == 255 {
            0
        } else {
            t + 1
        };
        proof {
            assert(cmds@ =~= tick_commands(self.fade(), t as int));
        }
        cmds
    }

    /// The active light.
    pub fn active(&self) -> (r: &ActiveLed)
        requires
            self.wf(),
        ensures
            r.wf(),
            r@.index == self.fade().index,
            r@.level == self.fade().level,
    {
        self.cycle.active()
    }

    /// Position of the next tick within its PWM period.
    pub fn position(&self) -> (r: u8)
        ensures
            r == self.sub_tick(),
    {
        self.position
    }

    /// Ticks counted so far in the current segment.
    pub fn count(&self) -> (r: u32)
        ensures
            r == self.fade().count,
    {
        self.cycle.count()
    }
}

} // verus!
