//! Counting the events of one fade segment and rotating the ring when it ends.
use vstd::prelude::*;

use crate::active_led::{next_led, stepped, ActiveLed, LedState, DUTY_FULL, LED_COUNT};

verus! {

/// The abstract state of a fade: the active light's position and fade
/// progress, and the events counted so far in the current segment.
pub struct SegmentState {
    pub index: int,
    pub level: int,
    pub count: int,
}

/// One counted event: the segment ends when the count reaches `duration`, and
/// the next light becomes active, dark, with the count back at zero.
pub open spec fn next_segment(s: SegmentState, duration: int) -> SegmentState {
    if s.count + 1 >= duration {
        SegmentState { index: next_led(s.index), level: 0, count: 0 }
    } else {
        SegmentState { index: s.index, level: s.level, count: s.count + 1 }
    }
}

/// The state after `n` counted events.
pub open spec fn after_segments(s: SegmentState, duration: int, n: nat) -> SegmentState
    decreases n,
{
    if n == 0 {
        s
    } else {
        next_segment(after_segments(s, duration, (n - 1) as nat), duration)
    }
}

/// The active light together with the event counter of its segment.
pub struct FadeCycle {
    led: ActiveLed,
    count: u32,
    fade_in_duration: u32,
}

impl View for FadeCycle {
    type V = SegmentState;

    closed spec fn view(&self) -> SegmentState {
        SegmentState { index: self.led@.index, level: self.led@.level, count: self.count as int }
    }
}

impl FadeCycle {
    /// Events in one fade segment.
    pub closed spec fn duration(&self) -> int {
        self.fade_in_duration as int
    }

    /// The light is well formed and the count is inside the segment.
    pub open spec fn wf(&self) -> bool {
        &&& 0 <= self@.index < LED_COUNT
        &&& 0 <= self@.level <= DUTY_FULL
        &&& 0 <= self@.count < self.duration()
    }

    closed spec fn inner_wf(&self) -> bool {
        self.led.wf() && self.count < self.fade_in_duration
    }

    /// The first light, dark, at the start of a segment of
    /// `fade_in_duration` events.
    pub fn new(fade_in_duration: u32) -> (r: Self)
        requires
            fade_in_duration > 0,
        ensures
            r.wf(),
            r@ == (SegmentState { index: 0, level: 0, count: 0 }),
            r.duration() == fade_in_duration,
    {
        FadeCycle { led: ActiveLed::new(), count: 0, fade_in_duration }
    }

    /// The active light.
    pub fn active(&self) -> (r: &ActiveLed)
        requires
            self.wf(),
        ensures
            r.wf(),
            r@ == (LedState { index: self@.index, level: self@.level }),
    {
        proof {
            self.lemma_inner_wf();
        }
        &self.led
    }

    /// Events counted so far in the current segment.
    pub fn count(&self) -> (r: u32)
        ensures
            r == self@.count,
    {
        self.count
    }

    /// Events in one fade segment.
    pub fn fade_in_duration(&self) -> (r: u32)
        ensures
            r == self.duration(),
    {
        self.fade_in_duration
    }

    proof fn lemma_inner_wf(&self)
        requires
            self.wf(),
        ensures
            self.inner_wf(),
    {
    }

    /// Counts one event, and rotates the ring when the segment is over.
    pub fn advance(&mut self)
        requires
            old(self).wf(),
        ensures
            final(self).wf(),
            final(self).duration() == old(self).duration(),
            final(self)@ == next_segment(old(self)@, old(self).duration()),
    {
        proof {
            self.lemma_inner_wf();
        }
        self.count = self.count + 1;
        if self.count == self.fade_in_duration {
            self.led.rotate();
            self.count = 0;
        }
    }

    /// Advances the active light's fade by `step`, held at full brightness.
    pub fn step_duty(&mut self, step: u32)
        requires
            old(self).wf(),
        ensures
            final(self).wf(),
            final(self).duration() == old(self).duration(),
            final(self)@ == (SegmentState {
                index: old(self)@.index,
                level: stepped(old(self)@.level, step as int),
                count: old(self)@.count,
            }),
    {
        proof {
            self.lemma_inner_wf();
        }
        self.led.step_duty(step);
    }
}

proof fn lemma_within_window(s: SegmentState, duration: int, k: nat)
    requires
        s.count == 0,
        k < duration,
    ensures
        after_segments(s, duration, k) == (SegmentState {
            index: s.index,
            level: s.level,
            count: k as int,
        }),
    decreases k,
{
    if k > 0 {
        lemma_within_window(s, duration, (k - 1) as nat);
    }
}

proof fn lemma_after_segments_split(s: SegmentState, duration: int, a: nat, b: nat)
    ensures
        after_segments(s, duration, a + b) == after_segments(
            after_segments(s, duration, a),
            duration,
            b,
        ),
    decreases b,
{
    if b > 0 {
        lemma_after_segments_split(s, duration, a, (b - 1) as nat);
        assert((a + b - 1) as nat == a + (b - 1) as nat);
    }
}

/// From the start of a segment, the ring rotates exactly once in the next
/// `duration` events: not before the last of them, and on the last one it
/// moves on by one position with the new light dark and the count at zero.
pub proof fn lemma_one_rotation_per_window(s: SegmentState, duration: int)
    requires
        duration > 0,
        0 <= s.index < LED_COUNT,
        s.count == 0,
    ensures
        forall|k: nat|
            k < duration ==> #[trigger] after_segments(s, duration, k) == (SegmentState {
                index: s.index,
                level: s.level,
                count: k as int,
            }),
        after_segments(s, duration, duration as nat) == (SegmentState {
            index: next_led(s.index),
            level: 0,
            count: 0,
        }),
{
    assert forall|k: nat| k < duration implies #[trigger] after_segments(s, duration, k) == (
    SegmentState { index: s.index, level: s.level, count: k as int }) by {
        lemma_within_window(s, duration, k);
    }
    lemma_within_window(s, duration, (duration - 1) as nat);
}

proof fn lemma_windows(s: SegmentState, duration: int, m: nat)
    requires
        duration > 0,
        0 <= s.index < LED_COUNT,
        s.count == 0,
        m > 0,
    ensures
        after_segments(s, duration, m * duration as nat) == (SegmentState {
            index: (s.index + m) % (LED_COUNT as int),
            level: 0,
            count: 0,
        }),
    decreases m,
{
    lemma_one_rotation_per_window(s, duration);
    if m > 1 {
        let d = duration as nat;
        let m1 = (m - 1) as nat;
        lemma_windows(s, duration, m1);
        let mid = after_segments(s, duration, m1 * d);
        lemma_one_rotation_per_window(mid, duration);
        assert(m * d == m1 * d + d) by (nonlinear_arith)
            requires
                m1 == m - 1,
        ;
        lemma_after_segments_split(s, duration, m1 * d, d);
        let a = s.index + m1;
        assert(((a % 8) + 1) % 8 == (a + 1) % 8) by {
            vstd::arithmetic::div_mod::lemma_add_mod_noop(a, 1, 8);
        }
    } else {
        assert(m * duration as nat == duration as nat) by (nonlinear_arith)
            requires
                m == 1,
        ;
    }
}

/// The ring is periodic: from the start of a segment, `8 * duration` events
/// bring back the same light, dark, with the count at zero.
pub proof fn lemma_full_cycle(s: SegmentState, duration: int)
    requires
        duration > 0,
        0 <= s.index < LED_COUNT,
        s.count == 0,
    ensures
        after_segments(s, duration, (8 * duration) as nat) == (SegmentState {
            index: s.index,
            level: 0,
            count: 0,
        }),
{
    lemma_windows(s, duration, 8);
    assert((8 * duration) as nat == 8 * duration as nat);
}

} // verus!
