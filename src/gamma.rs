//! Perceptual brightness correction for 8-bit PWM duty values.
use vstd::prelude::*;

verus! {

/// 8-bit gamma correction table: maps a linear brightness level to the duty
/// value that looks like that level to the eye.
pub const GAMMA: [u8; 256] = [
    0, 0, 0, 0, 0, 0, 0, 0, 0, 0, 0, 0, 0, 0, 0, 0,
    0, 0, 0, 0, 0, 0, 0, 0, 0, 0, 0, 0, 1, 1, 1, 1,
    1, 1, 1, 1, 1, 1, 1, 1, 1, 2, 2, 2, 2, 2, 2, 2,
    2, 3, 3, 3, 3, 3, 3, 3, 4, 4, 4, 4, 4, 5, 5, 5,
    5, 6, 6, 6, 6, 7, 7, 7, 7, 8, 8, 8, 9, 9, 9, 10,
    10, 10, 11, 11, 11, 12, 12, 13, 13, 13, 14, 14, 15, 15, 16, 16,
    17, 17, 18, 18, 19, 19, 20, 20, 21, 21, 22, 22, 23, 24, 24, 25,
    25, 26, 27, 27, 28, 29, 29, 30, 31, 32, 32, 33, 34, 35, 35, 36,
    37, 38, 39, 39, 40, 41, 42, 43, 44, 45, 46, 47, 48, 49, 50, 50,
    51, 52, 54, 55, 56, 57, 58, 59, 60, 61, 62, 63, 64, 66, 67, 68,
    69, 70, 72, 73, 74, 75, 77, 78, 79, 81, 82, 83, 85, 86, 87, 89,
    90, 92, 93, 95, 96, 98, 99, 101, 102, 104, 105, 107, 109, 110, 112, 114,
    115, 117, 119, 120, 122, 124, 126, 127, 129, 131, 133, 135, 137, 138, 140, 142,
    144, 146, 148, 150, 152, 154, 156, 158, 160, 162, 164, 167, 169, 171, 173, 175,
    177, 180, 182, 184, 186, 189, 191, 193, 196, 198, 200, 203, 205, 208, 210, 213,
    215, 218, 220, 223, 225, 228, 231, 233, 236, 239, 241, 244, 247, 249, 252, 255,
];

/// The corrected duty value for a linear level in `0..=255`.
pub open spec fn gamma(linear: int) -> int {
    GAMMA@[linear] as int
}

/// Looks up the perceptually corrected duty value of a linear level.
pub fn gamma_lookup(linear: u8) -> (r: u8)
    ensures
        r == gamma(linear as int),
{
    GAMMA[linear as usize]
}

/// Each entry from position `i` on is at most the entry after it.
spec fn steps_nondecreasing_from(s: Seq<u8>, i: int) -> bool
    decreases s.len() - i,
{
    if i < 0 || i + 1 >= s.len() {
        true
    } else {
        s[i] <= s[i + 1] && steps_nondecreasing_from(s, i + 1)
    }
}

proof fn lemma_gamma_steps()
    ensures
        steps_nondecreasing_from(GAMMA@, 0),
{
    reveal_with_fuel(steps_nondecreasing_from, 17);
    assert(steps_nondecreasing_from(GAMMA@, 240));
    assert(steps_nondecreasing_from(GAMMA@, 224));
    assert(steps_nondecreasing_from(GAMMA@, 208));
    assert(steps_nondecreasing_from(GAMMA@, 192));
    assert(steps_nondecreasing_from(GAMMA@, 176));
    assert(steps_nondecreasing_from(GAMMA@, 160));
    assert(steps_nondecreasing_from(GAMMA@, 144));
    assert(steps_nondecreasing_from(GAMMA@, 128));
    assert(steps_nondecreasing_from(GAMMA@, 112));
    assert(steps_nondecreasing_from(GAMMA@, 96));
    assert(steps_nondecreasing_from(GAMMA@, 80));
    assert(steps_nondecreasing_from(GAMMA@, 64));
    assert(steps_nondecreasing_from(GAMMA@, 48));
    assert(steps_nondecreasing_from(GAMMA@, 32));
    assert(steps_nondecreasing_from(GAMMA@, 16));
    assert(steps_nondecreasing_from(GAMMA@, 0));
}

proof fn lemma_steps_ordered(s: Seq<u8>, i: int, a: int, b: int)
    requires
        steps_nondecreasing_from(s, i),
        0 <= i <= a <= b < s.len(),
    ensures
        s[a] <= s[b],
    decreases b - i,
{
    if i < a {
        lemma_steps_ordered(s, i + 1, a, b);
    } else if a < b {
        lemma_steps_ordered(s, a + 1, a + 1, b);
    }
}

/// The table never decreases: a brighter linear level never gives a dimmer
/// corrected duty.
pub proof fn lemma_gamma_monotonic(a: int, b: int)
    requires
        0 <= a <= b <= 255,
    ensures
        gamma(a) <= gamma(b),
{
    lemma_gamma_steps();
    lemma_steps_ordered(GAMMA@, 0, a, b);
}

/// The table keeps the extremes: off stays off and full stays full.
pub proof fn lemma_gamma_endpoints()
    ensures
        gamma(0) == 0,
        gamma(255) == 255,
{
}

} // verus!
