use bevy::math::Vec3;
use graphics_labs::input::Key;
use graphics_labs::lab2::{
    index, keyboard_system, material_shade, press, simulation_system, update_visual_system,
    AutoColorTimer, ColorPalette, Lab2App, Shade, VisualSettings, VisualUpdate,
    COLOR_INTERVAL_NANOS, TRANSITION_NANOS, TRANSITION_WINDOW_NANOS,
};
use std::time::Duration;

const WHITE: Vec3 = Vec3::new(1.0, 1.0, 1.0);
const BLUE: Vec3 = Vec3::new(0.0, 0.0, 1.0);
const RED: Vec3 = Vec3::new(1.0, 0.0, 0.0);
const YELLOW: Vec3 = Vec3::new(1.0, 1.0, 0.0);
const PURPLE: Vec3 = Vec3::new(0.5, 0.0, 0.5);

const COLOR_INTERVAL_SECS: f32 = COLOR_INTERVAL_NANOS as f32 / 1e9;

/// The palette of the assignment: white, blue, red, yellow, purple.
fn colors() -> Vec<Vec3> {
    vec![WHITE, BLUE, RED, YELLOW, PURPLE]
}

/// Lab 2 with a fixed frame time and the time that has passed; the first
/// frame, in which no time passes, has already run.
struct TestApp {
    app: Lab2App<Vec3>,
    step_ms: u64,
    elapsed_ms: u64,
}

impl TestApp {
    fn update(&mut self) {
        self.app.update();
        self.elapsed_ms += self.step_ms;
    }
}

fn test_app(step_ms: u64) -> TestApp {
    TestApp { app: Lab2App::new(colors(), step_ms * 1_000_000), step_ms, elapsed_ms: 0 }
}

fn elapsed(app: &TestApp) -> f32 {
    app.elapsed_ms as f32 / 1000.0
}

/// The colour the material shows, blends computed as the application does.
fn material_rgb(app: &TestApp) -> Vec3 {
    match material_shade(&app.app) {
        Shade::Solid(c) => c,
        Shade::Blend { from, to, elapsed_nanos } => {
            let t = (elapsed_nanos as f32 / 1e9) / (TRANSITION_NANOS as f32 / 1e9);
            from.lerp(to, t.clamp(0.0, 1.0))
        }
    }
}

fn press_key(app: &mut TestApp, key: Key) {
    press(&mut app.app, &[key]);
    app.elapsed_ms += app.step_ms;
}

/// Runs frames until the colour changes and returns the moment of the change.
fn run_until_change(app: &mut TestApp) -> f32 {
    let start = index(&app.app);
    for _ in 0..1000 {
        app.update();
        if index(&app.app) != start {
            return elapsed(app);
        }
    }
    panic!("цвет не сменился");
}

#[test]
fn palette_is_vec_of_vec3_in_required_order_and_wraps() {
    let mut palette = ColorPalette::new(colors());
    assert_eq!(palette.colors, vec![WHITE, BLUE, RED, YELLOW, PURPLE]);
    for expected in [1, 2, 3, 4, 0, 1] {
        palette.next_color();
        assert_eq!(palette.current_index, expected);
    }
    palette.colors.push(Vec3::new(0.0, 1.0, 0.0));
    palette.select(4);
    palette.next_color();
    assert_eq!(
        palette.current_index, 5,
        "новый цвет входит в цикл без правок кода"
    );
    assert!(!palette.select(99));
}

#[test]
fn start_color_is_white_in_palette_and_material() {
    let app = test_app(100);
    assert_eq!(index(&app.app), 0);
    assert!(material_rgb(&app).abs_diff_eq(WHITE, 1e-6));
}

#[test]
fn color_changes_every_second_and_material_follows_in_same_frame() {
    let mut app = test_app(100);
    let mut previous = 0.0;
    for (step, expected) in [BLUE, RED, YELLOW, PURPLE, WHITE].into_iter().enumerate() {
        let at = run_until_change(&mut app);
        assert!(
            (at - previous - COLOR_INTERVAL_SECS).abs() < 0.11,
            "шаг {step}: {at}"
        );
        assert!(material_rgb(&app).abs_diff_eq(expected, 1e-6), "шаг {step}");
        previous = at;
    }
}

#[test]
fn change_rate_does_not_depend_on_frame_rate() {
    for step_ms in [20, 50, 125] {
        let mut app = test_app(step_ms);
        let frames = 3_000 / step_ms;
        for _ in 0..frames {
            app.update();
        }
        assert_eq!(index(&app.app), 3, "шаг кадра {step_ms} мс");
    }
}

#[test]
fn space_and_digits_select_manually_and_restart_interval() {
    let mut app = test_app(250);
    for _ in 0..3 {
        app.update();
    }
    press_key(&mut app, Key::Space);
    assert_eq!(index(&app.app), 1);
    let pressed_at = elapsed(&app);
    let next_auto = run_until_change(&mut app);
    assert!((next_auto - pressed_at - COLOR_INTERVAL_SECS).abs() < 0.26);
    press_key(&mut app, Key::Digit5);
    assert_eq!(index(&app.app), 4);
    assert!(material_rgb(&app).abs_diff_eq(PURPLE, 1e-6));
    press_key(&mut app, Key::Space);
    assert_eq!(index(&app.app), 0, "после фиолетового снова белый");
}

#[test]
fn smooth_mode_interpolates_and_settles_on_target() {
    let mut app = test_app(100);
    press_key(&mut app, Key::KeyL);
    run_until_change(&mut app);
    // In the frame of the change the transition has just begun (t = 0); 0.1 s later the colour is in between.
    app.update();
    let mid = material_rgb(&app);
    assert!(
        mid.x < 1.0 && mid.y < 1.0 && mid.z > 0.99,
        "начало перехода белый → синий: {mid}"
    );
    for _ in 0..5 {
        app.update();
    }
    assert!(material_rgb(&app).abs_diff_eq(BLUE, 1e-6));
}

#[test]
fn digit_outside_a_short_palette_changes_nothing() {
    let mut app = TestApp {
        app: Lab2App::new(vec![WHITE, BLUE], 100_000_000),
        step_ms: 100,
        elapsed_ms: 0,
    };
    for _ in 0..5 {
        app.update();
    }
    // Digit 5 asks for colour 4, which a palette of two does not have:
    // no choice is made, Space is not looked at, the interval goes on.
    press(&mut app.app, &[Key::Digit5, Key::Space]);
    assert_eq!(index(&app.app), 0);
    for _ in 0..3 {
        app.update();
    }
    assert_eq!(index(&app.app), 0);
    app.update();
    assert_eq!(index(&app.app), 1);
    assert!(material_rgb(&app).abs_diff_eq(BLUE, 1e-6));
}

#[test]
fn select_keeps_previous_color_for_the_transition() {
    let mut palette = ColorPalette::new(colors());
    assert!(palette.select(3));
    assert_eq!((palette.current_index, palette.previous_index), (3, 0));
    assert_eq!(palette.current_rgb(), YELLOW);
    assert_eq!(palette.previous_rgb(), WHITE);
    assert_eq!(palette.next_color(), PURPLE);
    assert_eq!((palette.current_index, palette.previous_index), (4, 3));
    assert!(!palette.select(5));
    assert_eq!((palette.current_index, palette.previous_index), (4, 3));
}

#[test]
fn smooth_toggle_off_writes_exact_color() {
    let mut app = test_app(100);
    press_key(&mut app, Key::KeyL);
    assert!(matches!(material_shade(&app.app), Shade::Blend { .. }));
    press_key(&mut app, Key::KeyL);
    assert_eq!(material_shade(&app.app), Shade::Solid(WHITE));
}

#[test]
fn transition_window_matches_f32_seconds() {
    let transition_secs = Duration::from_nanos(TRANSITION_NANOS).as_secs_f32();
    let in_window = |nanos: u64| Duration::from_nanos(nanos).as_secs_f32() / transition_secs < 1.0;
    for nanos in 399_000_000..401_000_000u64 {
        assert_eq!(in_window(nanos), nanos < TRANSITION_WINDOW_NANOS, "{nanos} нс");
    }
    for nanos in (0..COLOR_INTERVAL_NANOS).step_by(9_973) {
        assert_eq!(in_window(nanos), nanos < TRANSITION_WINDOW_NANOS, "{nanos} нс");
    }
}

#[test]
fn visual_step_ends_transition_where_f32_time_reaches_its_length() {
    let settings = VisualSettings { smooth: true };
    for (elapsed, expected) in [
        (TRANSITION_WINDOW_NANOS - 1, VisualUpdate::Blend),
        (TRANSITION_WINDOW_NANOS, VisualUpdate::Current),
    ] {
        let mut timer = AutoColorTimer::new();
        timer.0.tick(elapsed);
        let mut was_transition = true;
        assert_eq!(
            update_visual_system(&timer, &settings, &mut was_transition, false, false),
            expected
        );
    }
}

#[test]
fn steps_leave_a_palette_with_index_outside_alone_without_a_move() {
    let mut palette = ColorPalette { colors: vec![WHITE, BLUE], current_index: 7, previous_index: 9 };
    let mut timer = AutoColorTimer::new();
    let mut settings = VisualSettings::default();
    let effect = keyboard_system(&[Key::KeyL, Key::Digit5], &mut palette, &mut timer, &mut settings);
    assert!(!effect.manual);
    assert!(effect.palette_touched);
    assert!(settings.smooth);
    assert_eq!((palette.current_index, palette.previous_index), (7, 9));
    assert!(!simulation_system(500_000_000, &mut timer, &mut palette));
    assert_eq!((palette.current_index, palette.previous_index), (7, 9));
    // The move that finishes the interval takes the index modulo the length.
    assert!(simulation_system(500_000_000, &mut timer, &mut palette));
    assert_eq!((palette.current_index, palette.previous_index), (0, 7));
    let mut empty: ColorPalette<Vec3> = ColorPalette::new(vec![]);
    let effect = keyboard_system(&[Key::KeyA], &mut empty, &mut timer, &mut settings);
    assert!(!effect.manual);
}
