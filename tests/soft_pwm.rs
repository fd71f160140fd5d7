use dead_disco::active_led::DUTY_FULL;
use dead_disco::command::LedCommand;
use dead_disco::gamma::gamma_lookup;
use dead_disco::soft_pwm::{FadeScheduler, SOFT_FADE_IN_DURATION};

fn on(index: u8) -> LedCommand {
    LedCommand { index, on: true }
}

fn off(index: u8) -> LedCommand {
    LedCommand { index, on: false }
}

#[test]
fn first_tick_steps_and_switches() {
    let mut s = FadeScheduler::new(SOFT_FADE_IN_DURATION);
    assert_eq!(s.position(), 0);
    let cmds = s.on_tick();
    // 255 * 256 * 65536 / 25000, rounded down
    assert_eq!(s.active().duty_cycle(), 171127);
    assert_eq!(s.position(), 1);
    assert_eq!(s.count(), 1);
    // the active light is still dark after correction; the previous one is not
    assert_eq!(cmds, vec![on(7), off(0)]);
}

#[test]
fn previous_light_goes_off_at_its_threshold() {
    let mut s = FadeScheduler::new(SOFT_FADE_IN_DURATION);
    s.on_tick();
    let threshold = s.active().prev_duty();
    assert_eq!(threshold, 247);
    for t in 1..256u32 {
        let cmds = s.on_tick();
        if t == threshold as u32 {
            assert_eq!(cmds, vec![off(7)]);
        } else {
            assert!(cmds.is_empty(), "at sub-tick {}", t);
        }
    }
    assert_eq!(s.position(), 0);
}

#[test]
fn active_light_pwm_once_visible() {
    let mut s = FadeScheduler::new(SOFT_FADE_IN_DURATION);
    for _ in 0..10 * 256 {
        s.on_tick();
    }
    assert_eq!(s.position(), 0);
    let cmds = s.on_tick();
    let duty = s.active().duty();
    assert_eq!(duty, 1);
    assert_eq!(duty, gamma_lookup(((s.active().duty_cycle() + 32768) / 65536) as u8));
    assert!(cmds.contains(&on(0)));
    assert!(!cmds.contains(&off(0)));
    let cmds = s.on_tick();
    assert!(cmds.contains(&off(0)));
}

#[test]
fn active_light_dark_until_duty_visible() {
    let mut s = FadeScheduler::new(SOFT_FADE_IN_DURATION);
    for period in 0..10 {
        let cmds = s.on_tick();
        assert!(!cmds.contains(&on(0)), "period {}", period);
        for _ in 1..256 {
            s.on_tick();
        }
    }
}

#[test]
fn soft_rotation_after_fade_in_duration_ticks() {
    let mut s = FadeScheduler::new(SOFT_FADE_IN_DURATION);
    for _ in 0..SOFT_FADE_IN_DURATION - 1 {
        s.on_tick();
        assert_eq!(s.active().index(), 0);
    }
    assert_eq!(s.active().duty_cycle(), DUTY_FULL);
    s.on_tick();
    assert_eq!(s.active().index(), 1);
    assert_eq!(s.active().prev_index(), 0);
    assert_eq!(s.count(), 0);
}

#[test]
fn soft_full_ring() {
    let mut s = FadeScheduler::new(512);
    let mut rotations = 0u32;
    for _ in 0..8 * 512 {
        let before = s.active().index();
        s.on_tick();
        if s.active().index() != before {
            rotations += 1;
        }
    }
    assert_eq!(rotations, 8);
    assert_eq!(s.active().index(), 0);
    assert_eq!(s.count(), 0);
    assert_eq!(s.position(), 0);
}
