use graphics_labs::lab3::{keyboard_system, Orbit};
use graphics_labs::input::{pressed_color_key, Key};
use graphics_labs::timer::RepeatingTimer;

#[test]
fn repeating_timer_wraps_and_reports_finish() {
    let mut timer = RepeatingTimer::from_seconds(1);
    assert_eq!(timer.duration_nanos(), 1_000_000_000);
    assert!(!timer.tick(600_000_000));
    assert_eq!(timer.elapsed_nanos(), 600_000_000);
    assert!(timer.tick(600_000_000));
    assert_eq!(timer.elapsed_nanos(), 200_000_000);
    assert!(timer.tick(800_000_000));
    assert_eq!(timer.elapsed_nanos(), 0);
    // Several durations in one step: still one finish, the remainder kept.
    assert!(timer.tick(3_250_000_000));
    assert_eq!(timer.elapsed_nanos(), 250_000_000);
    timer.reset();
    assert_eq!(timer.elapsed_nanos(), 0);
    assert!(!timer.tick(999_999_999));
    assert!(timer.tick(1));
}

#[test]
fn repeating_timer_counter_width() {
    // 2^32 whole durations in one step wrap bevy's 32-bit counter to zero.
    let mut timer = RepeatingTimer::new(1);
    assert!(!timer.tick(1 << 32));
    assert_eq!(timer.elapsed_nanos(), 0);
    assert!(timer.tick((1 << 32) + 1));
}

#[test]
fn first_color_key_in_order() {
    assert_eq!(pressed_color_key(&[]), None);
    assert_eq!(pressed_color_key(&[Key::Space, Key::Tab]), None);
    assert_eq!(pressed_color_key(&[Key::Digit3]), Some(2));
    assert_eq!(pressed_color_key(&[Key::Digit5, Key::Digit1]), Some(0));
}

#[test]
fn orbit_is_toggled_by_r_only() {
    let mut orbit = Orbit::default();
    assert!(!orbit.enabled);
    assert!(!keyboard_system(&[Key::Space], &mut orbit));
    assert!(!orbit.enabled);
    assert!(keyboard_system(&[Key::KeyR], &mut orbit));
    assert!(orbit.enabled);
    assert!(keyboard_system(&[Key::KeyR, Key::Tab], &mut orbit));
    assert!(!orbit.enabled);
}
