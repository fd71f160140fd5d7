use dead_disco::segment::FadeCycle;

#[test]
fn rotation_after_one_window() {
    let mut cycle = FadeCycle::new(5);
    for k in 1..5u32 {
        cycle.advance();
        assert_eq!(cycle.active().index(), 0);
        assert_eq!(cycle.count(), k);
    }
    cycle.advance();
    assert_eq!(cycle.active().index(), 1);
    assert_eq!(cycle.active().duty_cycle(), 0);
    assert_eq!(cycle.count(), 0);
}

#[test]
fn rotation_resets_fade_progress() {
    let mut cycle = FadeCycle::new(3);
    cycle.step_duty(1000);
    cycle.advance();
    cycle.step_duty(1000);
    assert_eq!(cycle.active().duty_cycle(), 2000);
    cycle.advance();
    cycle.advance();
    assert_eq!(cycle.active().index(), 1);
    assert_eq!(cycle.active().duty_cycle(), 0);
}

#[test]
fn exactly_one_rotation_per_window() {
    let mut cycle = FadeCycle::new(7);
    let mut rotations = 0u32;
    for _ in 0..7 * 5 {
        let before = cycle.active().index();
        cycle.advance();
        if cycle.active().index() != before {
            rotations += 1;
        }
    }
    assert_eq!(rotations, 5);
    assert_eq!(cycle.active().index(), 5);
}

#[test]
fn full_cycle_returns_to_start() {
    let mut cycle = FadeCycle::new(3);
    for _ in 0..8 * 3 {
        cycle.advance();
    }
    assert_eq!(cycle.active().index(), 0);
    assert_eq!(cycle.active().duty_cycle(), 0);
    assert_eq!(cycle.count(), 0);
}

#[test]
fn single_event_segments_rotate_every_time() {
    let mut cycle = FadeCycle::new(1);
    assert_eq!(cycle.fade_in_duration(), 1);
    for k in 1..=9u8 {
        cycle.advance();
        assert_eq!(cycle.active().index(), k % 8);
        assert_eq!(cycle.count(), 0);
    }
}
