use bevy::color::Color;
use graphics_labs::input::Key;
use graphics_labs::lab1::{index, material_color, press, Lab1App};

/// The palette of lab 1: black, white, blue, red, purple.
fn palette() -> Vec<Color> {
    vec![
        Color::srgb(0.0, 0.0, 0.0),
        Color::srgb(1.0, 1.0, 1.0),
        Color::srgb(0.0, 0.0, 1.0),
        Color::srgb(1.0, 0.0, 0.0),
        Color::srgb(0.5, 0.0, 0.5),
    ]
}

/// Lab 1 with a fixed frame time; the first frame has already run.
fn test_app(step_ms: u64) -> Lab1App<Color> {
    Lab1App::new(palette(), step_ms * 1_000_000)
}

#[test]
fn start_color_matches_material_and_space_cycles_all_colors() {
    let mut app = test_app(16);
    let palette = palette();
    assert_eq!(material_color(&app), palette[0]);
    for expected in [1, 2, 3, 4, 0] {
        press(&mut app, &[Key::Space]);
        assert_eq!(index(&app), expected);
        assert_eq!(material_color(&app), palette[expected]);
    }
}

#[test]
fn digits_select_directly_and_win_over_space() {
    let mut app = test_app(16);
    press(&mut app, &[Key::Digit5]);
    assert_eq!(index(&app), 4);
    press(&mut app, &[Key::Space]);
    assert_eq!(index(&app), 0, "после фиолетового — чёрный");
    press(&mut app, &[Key::Space, Key::Digit3]);
    assert_eq!(index(&app), 2, "цифра приоритетнее пробела");
}

#[test]
fn key_a_starts_and_stops_one_second_timer() {
    let mut app = test_app(250);
    for _ in 0..8 {
        app.update();
    }
    assert_eq!(index(&app), 0, "автоматика выключена при старте");
    press(&mut app, &[Key::KeyA]);
    for _ in 0..8 {
        app.update();
    }
    assert_eq!(index(&app), 2, "за 2 с — две смены");
    press(&mut app, &[Key::KeyA]);
    for _ in 0..8 {
        app.update();
    }
    assert_eq!(index(&app), 2, "после выключения цвет не меняется");
}

#[test]
fn manual_action_on_timer_boundary_gives_single_step_and_full_second() {
    let mut app = test_app(250);
    press(&mut app, &[Key::KeyA]);
    for _ in 0..3 {
        app.update();
    }
    assert_eq!(index(&app), 0);
    // In this frame the timer would complete a second, but the manual choice wins.
    press(&mut app, &[Key::Digit2]);
    assert_eq!(index(&app), 1, "только ручной шаг, без автоматического");
    for _ in 0..3 {
        app.update();
    }
    assert_eq!(index(&app), 1, "новый цвет держится полную секунду");
    app.update();
    assert_eq!(index(&app), 2);
}

#[test]
fn lowest_digit_wins_when_several_are_pressed() {
    let mut app = test_app(16);
    press(&mut app, &[Key::Digit4, Key::Digit2, Key::Digit5]);
    assert_eq!(index(&app), 1);
    assert_eq!(material_color(&app), palette()[1]);
}

#[test]
fn auto_mode_takes_effect_from_the_next_frame() {
    let mut app = test_app(1000);
    press(&mut app, &[Key::KeyA]);
    // The frame of the key press does not advance the colour.
    assert_eq!(index(&app), 0);
    app.update();
    assert_eq!(index(&app), 1);
    app.update();
    assert_eq!(index(&app), 2);
    assert_eq!(material_color(&app), palette()[2]);
}

#[test]
fn auto_mode_wraps_around_the_palette() {
    let mut app = test_app(500);
    press(&mut app, &[Key::Digit5]);
    press(&mut app, &[Key::KeyA]);
    app.update();
    assert_eq!(index(&app), 4);
    app.update();
    assert_eq!(index(&app), 0, "после фиолетового снова чёрный");
    assert_eq!(material_color(&app), palette()[0]);
}
