use dead_disco::active_led::{round_level, ActiveLed, DUTY_FULL, DUTY_HALF, DUTY_ONE, LED_COUNT};

#[test]
fn new_led_is_first_and_dark() {
    let led = ActiveLed::new();
    assert_eq!(led.index(), 0);
    assert_eq!(led.duty_cycle(), 0);
    assert_eq!(led.prev_index(), 7);
    assert_eq!(led.prev_duty_cycle(), DUTY_FULL);
    assert_eq!(led.duty(), 0);
    assert_eq!(led.prev_duty(), 255);
}

#[test]
fn prev_index_is_seven_ahead() {
    let mut led = ActiveLed::new();
    for _ in 0..20 {
        let i = led.index();
        assert!(i < LED_COUNT);
        assert_eq!(led.prev_index(), (i + 7) % 8);
        led.rotate();
    }
}

#[test]
fn rotate_wraps_and_resets() {
    let mut led = ActiveLed::new();
    for expected in 1..8u8 {
        led.step_duty(DUTY_ONE * 10);
        led.rotate();
        assert_eq!(led.index(), expected);
        assert_eq!(led.duty_cycle(), 0);
    }
    led.step_duty(DUTY_ONE);
    led.rotate();
    assert_eq!(led.index(), 0);
    assert_eq!(led.duty_cycle(), 0);
}

#[test]
fn step_duty_adds() {
    let mut led = ActiveLed::new();
    led.step_duty(1000);
    led.step_duty(2345);
    assert_eq!(led.duty_cycle(), 3345);
    assert_eq!(led.index(), 0);
}

#[test]
fn step_duty_clamps_at_full() {
    let mut led = ActiveLed::new();
    led.step_duty(DUTY_FULL - 1);
    assert_eq!(led.duty_cycle(), DUTY_FULL - 1);
    led.step_duty(5);
    assert_eq!(led.duty_cycle(), DUTY_FULL);
    led.step_duty(5);
    assert_eq!(led.duty_cycle(), DUTY_FULL);
    assert_eq!(led.duty(), 255);
    assert_eq!(led.prev_duty(), 0);
}

#[test]
fn step_duty_never_wraps() {
    let mut led = ActiveLed::new();
    led.step_duty(DUTY_ONE);
    led.step_duty(u32::MAX);
    assert_eq!(led.duty_cycle(), DUTY_FULL);
}

#[test]
fn duty_levels_are_complementary() {
    let mut led = ActiveLed::new();
    for _ in 0..300 {
        assert_eq!(led.duty_cycle() + led.prev_duty_cycle(), DUTY_FULL);
        assert!(led.duty_cycle() <= DUTY_FULL);
        led.step_duty(44564);
    }
}

#[test]
fn round_level_rounds_halves_up() {
    assert_eq!(round_level(0), 0);
    assert_eq!(round_level(DUTY_HALF - 1), 0);
    assert_eq!(round_level(DUTY_HALF), 1);
    assert_eq!(round_level(DUTY_ONE + DUTY_HALF - 1), 1);
    assert_eq!(round_level(DUTY_FULL - DUTY_HALF), 255);
    assert_eq!(round_level(DUTY_FULL), 255);
}

#[test]
fn duty_is_gamma_of_rounded_level() {
    let mut led = ActiveLed::new();
    led.step_duty(128 * DUTY_ONE);
    assert_eq!(led.duty(), 37);
    assert_eq!(led.prev_duty(), 36);
    led.step_duty(72 * DUTY_ONE);
    assert_eq!(led.duty(), 129);
}
